//! Shared workspaces: one live worker per workspace, used by its owner and the
//! members that the owner invited.
use vstd::prelude::*;
use vstd::string::*;
use vstd::std_specs::convert::FromSpecImpl;
use vstd::utf8::encode_utf8;
use crate::codec::{quote, quoted};
use crate::http::{
    Response, ResponseV, BAD_REQUEST, FORBIDDEN, INTERNAL_SERVER_ERROR, NOT_FOUND, NO_CONTENT, OK,
};
use crate::json::{json_parse, opt_text, parse_json, Fields, Items, Json, JsonV};
use crate::path::{join_path, joined};
use crate::api::swarm::text_or_null;
use crate::runtime::{ExecutionResult, ExecutionV};

verus! {

/// A request for a workspace.
pub struct CreateWorkspaceRequest {
    pub name: String,
}

/// A request to run code in a workspace.
pub struct ExecuteInWorkspaceRequest {
    pub code: String,
}

/// A request to invite the holder of a key.
pub struct InviteRequest {
    pub api_key: String,
}

/// A stored workspace.
pub struct WorkspaceRecord {
    pub id: String,
    pub name: String,
    pub owner_api_key: String,
    pub created_at: String,
    pub last_accessed_at: String,
    /// Where its state was last saved.
    pub checkpoint_path: Option<String>,
}

/// A member of a workspace.
pub struct WorkspaceMember {
    pub api_key: String,
    pub joined_at: String,
}

/// A workspace as it is answered.
pub struct WorkspaceResponse {
    pub id: String,
    pub name: String,
    pub owner_api_key: String,
    pub created_at: String,
    pub last_accessed_at: String,
    /// Whether it has a live worker.
    pub live: bool,
}

impl<'a> From<(&'a WorkspaceRecord, bool)> for WorkspaceResponse {
    fn from(pair: (&'a WorkspaceRecord, bool)) -> (r: WorkspaceResponse) {
        let (w, live) = pair;
        WorkspaceResponse {
            id: w.id.clone(),
            name: w.name.clone(),
            owner_api_key: w.owner_api_key.clone(),
            created_at: w.created_at.clone(),
            last_accessed_at: w.last_accessed_at.clone(),
            live,
        }
    }
}

impl<'a> FromSpecImpl<(&'a WorkspaceRecord, bool)> for WorkspaceResponse {
    open spec fn obeys_from_spec() -> bool {
        true
    }

    open spec fn from_spec(pair: (&'a WorkspaceRecord, bool)) -> WorkspaceResponse {
        WorkspaceResponse {
            id: pair.0.id,
            name: pair.0.name,
            owner_api_key: pair.0.owner_api_key,
            created_at: pair.0.created_at,
            last_accessed_at: pair.0.last_accessed_at,
            live: pair.1,
        }
    }
}

// ── Live workers ────────────────────────────────────────

/// The live worker of each workspace that a map holds.
pub uninterp spec fn workers_in(map: dashmap::DashMap<String, u64>) -> Map<Seq<char>, u64>;

/// No live worker.
pub open spec fn no_workers() -> Map<Seq<char>, u64> {
    Map::empty()
}

/// `DashMap::new`: an empty map.
#[verifier::external_body]
fn new_workers() -> (r: dashmap::DashMap<String, u64>)
    ensures
        workers_in(r) == no_workers(),
{
    dashmap::DashMap::new()
}

/// `DashMap::get`: the worker of a workspace, where there is one.
#[verifier::external_body]
fn find_worker(map: &dashmap::DashMap<String, u64>, id: &str) -> (r: Option<u64>)
    ensures
        r is Some == workers_in(*map).contains_key(id@),
        r is Some ==> r->Some_0 == workers_in(*map)[id@],
{
    map.get(id).map(|entry| *entry.value())
}

/// `DashMap::insert`: puts the worker of a workspace in.
#[verifier::external_body]
fn put_worker(map: &mut dashmap::DashMap<String, u64>, id: String, runtime: u64)
    ensures
        workers_in(*final(map)) == workers_in(*old(map)).insert(id@, runtime),
{
    map.insert(id, runtime);
}

/// `DashMap::remove`: takes the worker of a workspace out, where there is one.
#[verifier::external_body]
fn take_worker(map: &mut dashmap::DashMap<String, u64>, id: &str) -> (r: Option<u64>)
    ensures
        workers_in(*final(map)) == workers_in(*old(map)).remove(id@),
        r is Some == workers_in(*old(map)).contains_key(id@),
        r is Some ==> r->Some_0 == workers_in(*old(map))[id@],
{
    map.remove(id).map(|entry| entry.1)
}

/// The live workers of workspaces, each known by a number.
pub struct LiveWorkspaces {
    workers: dashmap::DashMap<String, u64>,
}

impl View for LiveWorkspaces {
    type V = Map<Seq<char>, u64>;

    closed spec fn view(&self) -> Map<Seq<char>, u64> {
        workers_in(self.workers)
    }
}

impl LiveWorkspaces {
    /// No live worker.
    pub fn new() -> (r: LiveWorkspaces)
        ensures
            r@ == no_workers(),
    {
        LiveWorkspaces { workers: new_workers() }
    }

    /// The live worker of a workspace; without one, a worker is to be booted.
    pub fn live(&self, workspace_id: &str) -> (r: Option<u64>)
        ensures
            match r {
                Some(n) => self@.contains_key(workspace_id@) && n == self@[workspace_id@],
                None => !self@.contains_key(workspace_id@),
            },
    {
        find_worker(&self.workers, workspace_id)
    }

    /// Whether a workspace is live.
    pub fn is_live(&self, workspace_id: &str) -> (r: bool)
        ensures
            r == self@.contains_key(workspace_id@),
    {
        find_worker(&self.workers, workspace_id).is_some()
    }

    /// Keeps the worker that was booted for a workspace.
    pub fn booted(&mut self, workspace_id: &str, runtime: u64)
        ensures
            final(self)@ == old(self)@.insert(workspace_id@, runtime),
    {
        put_worker(&mut self.workers, workspace_id.to_owned(), runtime);
    }

    /// Ends a workspace and hands its live worker out.
    pub fn ended(&mut self, workspace_id: &str) -> (r: Option<u64>)
        ensures
            match r {
                Some(n) => old(self)@.contains_key(workspace_id@) && n == old(self)@[workspace_id@],
                None => !old(self)@.contains_key(workspace_id@),
            },
            final(self)@ == old(self)@.remove(workspace_id@),
    {
        take_worker(&mut self.workers, workspace_id)
    }
}

/// The directory of a workspace.
pub open spec fn workspace_dir(temp_dir: Seq<char>, workspace_id: Seq<char>) -> Seq<char> {
    joined(joined(joined(temp_dir, "greed-compute"@), "workspaces"@), workspace_id)
}

/// The directory of a workspace.
pub fn workspace_path(temp_dir: &str, workspace_id: &str) -> (r: String)
    ensures
        r@ == workspace_dir(temp_dir@, workspace_id@),
{
    let base: String = join_path(temp_dir, "greed-compute");
    let all: String = join_path(base.as_str(), "workspaces");
    join_path(all.as_str(), workspace_id)
}

/// The file in which the state of a workspace is saved.
pub open spec fn workspace_file(checkpoint_dir: Seq<char>, workspace_id: Seq<char>) -> Seq<char> {
    joined(checkpoint_dir, "ws-"@ + workspace_id + ".dill"@)
}

/// The file in which the state of a workspace is saved.
pub fn workspace_checkpoint(checkpoint_dir: &str, workspace_id: &str) -> (r: String)
    ensures
        r@ == workspace_file(checkpoint_dir@, workspace_id@),
{
    let mut name: String = "ws-".to_owned();
    name.append(workspace_id);
    name.append(".dill");
    join_path(checkpoint_dir, name.as_str())
}

/// The code that restores the state of a workspace from a file.
pub open spec fn restore_text(path: Seq<char>) -> Seq<char> {
    "import dill as _dill\nwith open("@ + quoted(path)
        + ", 'rb') as _f:\n    _ns = _dill.load(_f)\nglobals().update(_ns)\ndel _dill, _f, _ns"@
}

/// The code that restores the state of a workspace from a file.
pub fn restore_code(path: &str) -> (r: String)
    ensures
        r@ == restore_text(path@),
{
    let mut s: String = "import dill as _dill\nwith open(".to_owned();
    let q: String = quote(path);
    s.append(q.as_str());
    s.append(", 'rb') as _f:\n    _ns = _dill.load(_f)\nglobals().update(_ns)\ndel _dill, _f, _ns");
    s
}

/// The code that saves the state of a workspace to a file.
pub open spec fn save_text(path: Seq<char>) -> Seq<char> {
    "import dill as _dill\nwith open("@ + quoted(path)
        + ", 'wb') as _f:\n    _dill.dump(dict(globals()), _f)\ndel _dill, _f"@
}

/// The code that saves the state of a workspace to a file.
pub fn save_code(path: &str) -> (r: String)
    ensures
        r@ == save_text(path@),
{
    let mut s: String = "import dill as _dill\nwith open(".to_owned();
    let q: String = quote(path);
    s.append(q.as_str());
    s.append(", 'wb') as _f:\n    _dill.dump(dict(globals()), _f)\ndel _dill, _f");
    s
}

// ── Answers ─────────────────────────────────────────────

/// The fields of a workspace.
pub open spec fn workspace_fields(w: WorkspaceRecord, live: bool) -> Map<Seq<char>, JsonV> {
    map![
        "id"@ => JsonV::Str(w.id@),
        "name"@ => JsonV::Str(w.name@),
        "owner_api_key"@ => JsonV::Str(w.owner_api_key@),
        "created_at"@ => JsonV::Str(w.created_at@),
        "last_accessed_at"@ => JsonV::Str(w.last_accessed_at@),
        "live"@ => JsonV::Bool(live),
    ]
}

/// The fields of a workspace.
fn fields_of(w: &WorkspaceResponse) -> (r: Fields)
    ensures
        r@ == map![
            "id"@ => JsonV::Str(w.id@),
            "name"@ => JsonV::Str(w.name@),
            "owner_api_key"@ => JsonV::Str(w.owner_api_key@),
            "created_at"@ => JsonV::Str(w.created_at@),
            "last_accessed_at"@ => JsonV::Str(w.last_accessed_at@),
            "live"@ => JsonV::Bool(w.live),
        ],
{
    let mut f: Fields = Fields::new();
    f.put_text("id", w.id.as_str());
    f.put_text("name", w.name.as_str());
    f.put_text("owner_api_key", w.owner_api_key.as_str());
    f.put_text("created_at", w.created_at.as_str());
    f.put_text("last_accessed_at", w.last_accessed_at.as_str());
    f.put_bool("live", w.live);
    f
}

/// The answer to a request for a workspace: the stored one, or why it was not
/// stored.
pub fn create_workspace(stored: &Result<WorkspaceRecord, String>, live: bool) -> (r: Response)
    ensures
        r@ == match stored {
            Ok(w) => ResponseV::Json(OK, JsonV::Obj(workspace_fields(*w, live))),
            Err(e) => ResponseV::Text(INTERNAL_SERVER_ERROR, e@),
        },
{
    match stored {
        Ok(w) => {
            let answer: WorkspaceResponse = WorkspaceResponse::from((w, live));
            Response::Json(OK, fields_of(&answer).done())
        },
        Err(e) => Response::Text(INTERNAL_SERVER_ERROR, e.clone()),
    }
}

/// The answer to a list of workspaces.
pub fn list_workspaces(records: &Vec<WorkspaceRecord>, live: &LiveWorkspaces) -> (r: Json)
    ensures
        r@ == JsonV::Arr(
            Seq::new(
                records@.len(),
                |i: int| JsonV::Obj(workspace_fields(records@[i], live@.contains_key(records@[i].id@))),
            ),
        ),
{
    let mut items: Items = Items::new();
    let mut i: usize = 0;
    while i < records.len()
        invariant
            i <= records@.len(),
            items@.len() == i,
            forall|j: int|
                0 <= j < i ==> #[trigger] items@[j] == JsonV::Obj(
                    workspace_fields(records@[j], live@.contains_key(records@[j].id@)),
                ),
        decreases records.len() - i,
    {
        let answer: WorkspaceResponse = WorkspaceResponse::from((&records[i], live.is_live(records[i].id.as_str())));
        items.put(fields_of(&answer).done());
        i += 1;
    }
    assert(items@ =~= Seq::new(
        records@.len(),
        |k: int| JsonV::Obj(workspace_fields(records@[k], live@.contains_key(records@[k].id@))),
    ));
    items.done()
}

/// A member, as JSON.
pub open spec fn member_value(m: WorkspaceMember) -> JsonV {
    JsonV::Obj(map!["api_key"@ => JsonV::Str(m.api_key@), "joined_at"@ => JsonV::Str(m.joined_at@)])
}

/// The answer to a look at a workspace, given whether the key may use it.
pub fn get_workspace(
    accessible: bool,
    record: Option<&WorkspaceRecord>,
    members: &Vec<WorkspaceMember>,
    live: bool,
) -> (r: Response)
    ensures
        r@ == match (accessible, record) {
            (true, Some(w)) => ResponseV::Json(
                OK,
                JsonV::Obj(
                    workspace_fields(*w, live).insert(
                        "members"@,
                        JsonV::Arr(Seq::new(members@.len(), |i: int| member_value(members@[i]))),
                    ),
                ),
            ),
            _ => ResponseV::Text(NOT_FOUND, "workspace not found"@),
        },
{
    if !accessible {
        return Response::Text(NOT_FOUND, "workspace not found".to_owned());
    }
    match record {
        None => Response::Text(NOT_FOUND, "workspace not found".to_owned()),
        Some(w) => {
            let mut items: Items = Items::new();
            let mut i: usize = 0;
            while i < members.len()
                invariant
                    i <= members@.len(),
                    items@.len() == i,
                    forall|j: int| 0 <= j < i ==> #[trigger] items@[j] == member_value(members@[j]),
                decreases members.len() - i,
            {
                let mut m: Fields = Fields::new();
                m.put_text("api_key", members[i].api_key.as_str());
                m.put_text("joined_at", members[i].joined_at.as_str());
                items.put(m.done());
                i += 1;
            }
            assert(items@ =~= Seq::new(members@.len(), |k: int| member_value(members@[k])));
            let answer: WorkspaceResponse = WorkspaceResponse::from((w, live));
            let mut f: Fields = fields_of(&answer);
            f.put("members", items.done());
            Response::Json(OK, f.done())
        },
    }
}

/// What an execution in a workspace is answered.
pub struct ExecuteResponse {
    pub stdout: String,
    pub result: Option<Json>,
    pub error: Option<String>,
    pub duration_ms: u64,
}

/// The answer to an execution in a workspace, as JSON.
pub open spec fn execute_value(r: ExecuteResponse) -> JsonV {
    JsonV::Obj(
        map![
            "stdout"@ => JsonV::Str(r.stdout@),
            "result"@ => match r.result {
                Some(j) => j@,
                None => JsonV::Null,
            },
            "error"@ => opt_text(r.error),
            "duration_ms"@ => JsonV::Int(r.duration_ms as int),
        ],
    )
}

impl ExecuteResponse {
    /// This answer, as JSON.
    pub fn to_json(self) -> (r: Json)
        ensures
            r@ == execute_value(self),
    {
        let mut f: Fields = Fields::new();
        f.put_text("stdout", self.stdout.as_str());
        match self.result {
            Some(j) => f.put("result", j),
            None => f.put("result", Json::Null),
        }
        f.put_opt("error", &self.error);
        f.put_u64("duration_ms", self.duration_ms);
        f.done()
    }
}

/// The value that the result of an execution stands for, where it is JSON.
pub open spec fn result_json(result: Option<Seq<char>>) -> Option<JsonV> {
    match result {
        Some(s) => match json_parse(encode_utf8(s)) {
            Ok(v) => Some(v),
            Err(_) => None,
        },
        None => None,
    }
}

/// The answer to an execution in a workspace, from what came of it and the time
/// that it took by the clock.
pub open spec fn workspace_execution(x: ExecutionV, duration_ms: u64) -> JsonV {
    JsonV::Obj(
        map![
            "stdout"@ => JsonV::Str(x.stdout),
            "result"@ => match result_json(x.result) {
                Some(v) => v,
                None => JsonV::Null,
            },
            "error"@ => text_or_null(x.error),
            "duration_ms"@ => JsonV::Int(duration_ms as int),
        ],
    )
}

/// What an execution in a workspace is answered, with the time that it took by
/// the clock.
pub fn execute_in_workspace(x: ExecutionResult, duration_ms: u64) -> (r: ExecuteResponse)
    ensures
        r.stdout == x.stdout,
        r.error == x.error,
        r.duration_ms == duration_ms,
        match r.result {
            Some(j) => result_json(x@.result) == Some(j@),
            None => result_json(x@.result) is None,
        },
        execute_value(r) == workspace_execution(x@, duration_ms),
{
    let result: Option<Json> = match &x.result {
        Some(s) => match parse_json(s.as_str().as_bytes()) {
            Ok(v) => Some(v),
            Err(_) => None,
        },
        None => None,
    };
    ExecuteResponse { stdout: x.stdout, result, error: x.error, duration_ms }
}

/// Whether an invitation is refused: only the owner may invite, and only a known
/// key.
pub fn refuse_invitation(owner: bool, invited_known: bool) -> (r: Option<Response>)
    ensures
        match r {
            Some(x) => if !owner {
                x@ == ResponseV::Text(FORBIDDEN, "only the owner can invite members"@)
            } else {
                !invited_known && x@ == ResponseV::Text(BAD_REQUEST, "invited api_key not found"@)
            },
            None => owner && invited_known,
        },
{
    if !owner {
        Some(Response::Text(FORBIDDEN, "only the owner can invite members".to_owned()))
    } else if !invited_known {
        Some(Response::Text(BAD_REQUEST, "invited api_key not found".to_owned()))
    } else {
        None
    }
}

/// The answer to an invitation that was not refused.
pub fn invite_member(api_key: &str, added: &Result<(), String>) -> (r: Response)
    ensures
        r@ == match added {
            Ok(_) => ResponseV::Json(OK, JsonV::Obj(map!["invited"@ => JsonV::Str(api_key@)])),
            Err(e) => ResponseV::Text(INTERNAL_SERVER_ERROR, e@),
        },
{
    match added {
        Ok(_) => {
            let mut f: Fields = Fields::new();
            f.put_text("invited", api_key);
            Response::Json(OK, f.done())
        },
        Err(e) => Response::Text(INTERNAL_SERVER_ERROR, e.clone()),
    }
}

/// The answer to the removal of a member, given whether the key is the owner's
/// and whether there was such a member.
pub fn kick_member(owner: bool, member_key: &str, removed: bool) -> (r: Response)
    ensures
        r@ == if !owner {
            ResponseV::Text(FORBIDDEN, "only the owner can remove members"@)
        } else if removed {
            ResponseV::Json(OK, JsonV::Obj(map!["removed"@ => JsonV::Str(member_key@)]))
        } else {
            ResponseV::Text(NOT_FOUND, "member not found or is owner"@)
        },
{
    if !owner {
        Response::Text(FORBIDDEN, "only the owner can remove members".to_owned())
    } else if removed {
        let mut f: Fields = Fields::new();
        f.put_text("removed", member_key);
        Response::Json(OK, f.done())
    } else {
        Response::Text(NOT_FOUND, "member not found or is owner".to_owned())
    }
}

/// The answer to the deletion of a workspace, given whether the key is the
/// owner's and whether it was deleted.
pub open spec fn workspace_deleted(owner: bool, deleted: bool) -> ResponseV {
    if !owner {
        ResponseV::Text(FORBIDDEN, "only the owner can delete a workspace"@)
    } else if deleted {
        ResponseV::Status(NO_CONTENT)
    } else {
        ResponseV::Text(NOT_FOUND, "workspace not found"@)
    }
}

/// The answer to the deletion of a workspace.
pub fn delete_workspace(owner: bool, deleted: bool) -> (r: Response)
    ensures
        r@ == workspace_deleted(owner, deleted),
{
    if !owner {
        Response::Text(FORBIDDEN, "only the owner can delete a workspace".to_owned())
    } else if deleted {
        Response::Status(NO_CONTENT)
    } else {
        Response::Text(NOT_FOUND, "workspace not found".to_owned())
    }
}

} // verus!
