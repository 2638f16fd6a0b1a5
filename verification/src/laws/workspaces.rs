//! Laws on workspaces: what is computed in one is answered, and its state
//! stays.
use vstd::prelude::*;
use vstd::string::*;
use vstd::utf8::encode_utf8;
use crate::api::workspace::{
    execute_value, member_value, no_workers, restore_text, result_json, save_text, workspace_deleted, workspace_dir,
    workspace_execution, workspace_fields, workspace_file, ExecuteResponse, WorkspaceMember, WorkspaceRecord,
    WorkspaceResponse,
};
use crate::api::workspace_run::{
    delete_step, run_step, DeleteEvent, DeleteState, DeleteWork, DeleteWorkV, RunEvent, RunPlan, RunState, RunWork,
    RunWorkV,
};
use crate::http::{NextV, ResponseV};
use crate::json::{field, json_parse, json_text, parses_to, JsonV};
use crate::laws::{has_just, or_null};
use crate::path::joined;
use crate::codec::quoted;
use crate::runtime::{ExecutionResult, ExecutionV};
use crate::text::maybe_owned;

verus! {

/// The answer on a workspace that is made of its record.
pub open spec fn from_record(w: WorkspaceRecord, live: bool) -> WorkspaceResponse {
    <WorkspaceResponse as vstd::std_specs::convert::FromSpec<(&WorkspaceRecord, bool)>>::from_spec((&w, live))
}

/// Law: an execution in a workspace whose result is the text of a JSON value, whatever
/// the value is, is answered with just that value as the result, and with its output,
/// its error and its duration.
pub proof fn law_workspace_answers_what_was_computed(x: ExecutionV, ms: u64, text: Seq<char>, v: JsonV)
    requires
        x.result == Some(text),
        json_parse(encode_utf8(text)) == Ok::<JsonV, Seq<char>>(v),
    ensures
        field(workspace_execution(x, ms), "result"@) == Some(v),
        field(workspace_execution(x, ms), "stdout"@) == Some(JsonV::Str(x.stdout)),
        field(workspace_execution(x, ms), "error"@) == Some(or_null(x.error)),
        field(workspace_execution(x, ms), "duration_ms"@) == Some(JsonV::Int(ms as int)),
        has_just(workspace_execution(x, ms), set!["stdout"@, "result"@, "error"@, "duration_ms"@]),
        result_json(x.result) == Some(v),
{
    reveal_strlit("stdout");
    reveal_strlit("result");
    reveal_strlit("error");
    reveal_strlit("duration_ms");
    assert("stdout"@.len() == 6);
    assert("result"@.len() == 6);
    assert("error"@.len() == 5);
    assert("duration_ms"@.len() == 11);
    assert("stdout"@[0] != "result"@[0]);
    assert(workspace_execution(x, ms)->Obj_0.dom() =~= set!["stdout"@, "result"@, "error"@, "duration_ms"@]);
}

/// Law: an execution in a workspace that left a value as JSON is answered with that
/// value: each number, text, list or object comes through as itself.
pub proof fn law_workspace_value_comes_through(x: ExecutionV, ms: u64, v: JsonV)
    requires
        x.result == Some(json_text(v)),
        parses_to(json_text(v), v),
    ensures
        field(workspace_execution(x, ms), "result"@) == Some(v),
{
    reveal_strlit("stdout");
    reveal_strlit("result");
    reveal_strlit("error");
    reveal_strlit("duration_ms");
    assert("stdout"@.len() == 6);
    assert("result"@.len() == 6);
    assert("error"@.len() == 5);
    assert("duration_ms"@.len() == 11);
    assert("stdout"@[0] != "result"@[0]);
}

/// Law: an execution in a workspace is answered with `null` as the result exactly where
/// it captured none, its text is no JSON, or it says `null` itself.
pub proof fn law_workspace_answers_null_without_a_value(x: ExecutionV, ms: u64)
    ensures
        field(workspace_execution(x, ms), "result"@) == Some(JsonV::Null) <==> (
            x.result is None
                || json_parse(encode_utf8(x.result->Some_0)) is Err
                || json_parse(encode_utf8(x.result->Some_0)) == Ok::<JsonV, Seq<char>>(JsonV::Null)
        ),
        field(workspace_execution(x, ms), "stdout"@) == Some(JsonV::Str(x.stdout)),
        field(workspace_execution(x, ms), "error"@) == Some(or_null(x.error)),
        field(workspace_execution(x, ms), "duration_ms"@) == Some(JsonV::Int(ms as int)),
        x.result is None ==> result_json(x.result) is None,
        x.result matches Some(text) ==> (json_parse(encode_utf8(text)) is Err ==> result_json(x.result) is None),
{
    reveal_strlit("stdout");
    reveal_strlit("result");
    reveal_strlit("error");
    reveal_strlit("duration_ms");
    assert("stdout"@.len() == 6);
    assert("result"@.len() == 6);
    assert("error"@.len() == 5);
    assert("duration_ms"@.len() == 11);
    assert("stdout"@[0] != "result"@[0]);
}

/// Law: the answer to an execution in a workspace has each of its parts under its own
/// name.
pub proof fn law_workspace_answer_by_name(r: ExecuteResponse)
    ensures
        field(execute_value(r), "stdout"@) == Some(JsonV::Str(r.stdout@)),
        r.result matches Some(j) ==> field(execute_value(r), "result"@) == Some(j@),
        r.result is None ==> field(execute_value(r), "result"@) == Some(JsonV::Null),
        field(execute_value(r), "error"@) == Some(or_null(maybe_owned(r.error))),
        field(execute_value(r), "duration_ms"@) == Some(JsonV::Int(r.duration_ms as int)),
        has_just(execute_value(r), set!["stdout"@, "result"@, "error"@, "duration_ms"@]),
{
    reveal_strlit("stdout");
    reveal_strlit("result");
    reveal_strlit("error");
    reveal_strlit("duration_ms");
    assert("stdout"@.len() == 6);
    assert("result"@.len() == 6);
    assert("error"@.len() == 5);
    assert("duration_ms"@.len() == 11);
    assert("stdout"@[0] != "result"@[0]);
    assert(execute_value(r)->Obj_0.dom() =~= set!["stdout"@, "result"@, "error"@, "duration_ms"@]);
}

/// Law: a workspace is answered by name, with whether it is live.
pub proof fn law_workspace_by_name(w: WorkspaceRecord, live: bool)
    ensures
        field(JsonV::Obj(workspace_fields(w, live)), "id"@) == Some(JsonV::Str(w.id@)),
        field(JsonV::Obj(workspace_fields(w, live)), "name"@) == Some(JsonV::Str(w.name@)),
        field(JsonV::Obj(workspace_fields(w, live)), "owner_api_key"@) == Some(JsonV::Str(w.owner_api_key@)),
        field(JsonV::Obj(workspace_fields(w, live)), "created_at"@) == Some(JsonV::Str(w.created_at@)),
        field(JsonV::Obj(workspace_fields(w, live)), "last_accessed_at"@) == Some(JsonV::Str(w.last_accessed_at@)),
        field(JsonV::Obj(workspace_fields(w, live)), "live"@) == Some(JsonV::Bool(live)),
        has_just(
            JsonV::Obj(workspace_fields(w, live)),
            set!["id"@, "name"@, "owner_api_key"@, "created_at"@, "last_accessed_at"@, "live"@],
        ),
{
    reveal_strlit("id");
    reveal_strlit("name");
    reveal_strlit("owner_api_key");
    reveal_strlit("created_at");
    reveal_strlit("last_accessed_at");
    reveal_strlit("live");
    assert("id"@.len() == 2);
    assert("name"@.len() == 4);
    assert("owner_api_key"@.len() == 13);
    assert("created_at"@.len() == 10);
    assert("last_accessed_at"@.len() == 16);
    assert("live"@.len() == 4);
    assert("name"@[0] != "live"@[0]);
    assert(JsonV::Obj(workspace_fields(w, live))->Obj_0.dom() =~= set![
        "id"@, "name"@, "owner_api_key"@, "created_at"@, "last_accessed_at"@, "live"@,
    ]);
}

/// Law: a member of a workspace is answered by name.
pub proof fn law_member_by_name(m: WorkspaceMember)
    ensures
        field(member_value(m), "api_key"@) == Some(JsonV::Str(m.api_key@)),
        field(member_value(m), "joined_at"@) == Some(JsonV::Str(m.joined_at@)),
        has_just(member_value(m), set!["api_key"@, "joined_at"@]),
{
    reveal_strlit("api_key");
    reveal_strlit("joined_at");
    assert("api_key"@.len() == 7);
    assert("joined_at"@.len() == 9);
    assert(member_value(m)->Obj_0.dom() =~= set!["api_key"@, "joined_at"@]);
}

/// Law: each workspace has its own directory below the temporary one and its own file
/// below that of the checkpoints; what restores its state reads the file, and what
/// saves it writes the file.
pub proof fn law_workspaces_have_their_places(dir: Seq<char>, id: Seq<char>, path: Seq<char>)
    ensures
        workspace_dir(dir, id) == joined(joined(joined(dir, "greed-compute"@), "workspaces"@), id),
        workspace_file(dir, id) == joined(dir, "ws-"@ + id + ".dill"@),
        restore_text(path) == "import dill as _dill\nwith open("@ + quoted(path)
            + ", 'rb') as _f:\n    _ns = _dill.load(_f)\nglobals().update(_ns)\ndel _dill, _f, _ns"@,
        save_text(path) == "import dill as _dill\nwith open("@ + quoted(path)
            + ", 'wb') as _f:\n    _dill.dump(dict(globals()), _f)\ndel _dill, _f"@,
{
}

/// Law: a workspace is deleted for its owner, without contents; for another it is
/// refused with status 403, and one that is not there with status 404.
pub proof fn law_deletion_is_answered(deleted: bool)
    ensures
        workspace_deleted(true, true) == ResponseV::Status(204),
        workspace_deleted(true, false) == ResponseV::Text(404, "workspace not found"@),
        workspace_deleted(false, deleted) == ResponseV::Text(403, "only the owner can delete a workspace"@),
{
}

/// Law: in a workspace that has a live worker the code runs at once; then its state is
/// saved to its file, the file is recorded, and what came of the code is answered.
pub proof fn law_run_in_a_live_workspace(plan: RunPlan, w: WorkspaceRecord, x: ExecutionResult, ms: u64)
    ensures
        ({
            &&& run_step(plan, RunState::Checking, RunEvent::Accessible(true)) matches NextV::Do(s0, w0)
            &&& w0 == RunWorkV::Load
            &&& run_step(plan, s0, RunEvent::Loaded(Some(w))) matches NextV::Do(s1, w1)
            &&& w1 == RunWorkV::Look
            &&& run_step(plan, s1, RunEvent::Live(true)) matches NextV::Do(s2, w2)
            &&& w2 == RunWorkV::Execute
            &&& run_step(plan, s2, RunEvent::Ran(x, ms)) matches NextV::Do(s3, w3)
            &&& w3 == RunWorkV::Save(save_text(workspace_file(plan.checkpoint_dir@, plan.workspace_id@)))
            &&& run_step(plan, s3, RunEvent::Saved) matches NextV::Do(s4, w4)
            &&& w4 == RunWorkV::Note(workspace_file(plan.checkpoint_dir@, plan.workspace_id@))
            &&& run_step(plan, s4, RunEvent::Noted) matches NextV::Answer(r)
            &&& r == ResponseV::Json(200, workspace_execution(x@, ms))
        }),
{
}

/// Law: a workspace without a live worker or a saved state gets a worker in its own
/// directory, which is kept, before its code runs.
pub proof fn law_run_in_a_new_workspace(plan: RunPlan, w: WorkspaceRecord, x: ExecutionResult, ms: u64)
    requires
        w.checkpoint_path is None,
    ensures
        ({
            &&& run_step(plan, RunState::Checking, RunEvent::Accessible(true)) matches NextV::Do(s0, w0)
            &&& w0 == RunWorkV::Load
            &&& run_step(plan, s0, RunEvent::Loaded(Some(w))) matches NextV::Do(s1, w1)
            &&& w1 == RunWorkV::Look
            &&& run_step(plan, s1, RunEvent::Live(false)) matches NextV::Do(s2, w2)
            &&& w2 == RunWorkV::MakeDir(workspace_dir(plan.temp_dir@, plan.workspace_id@))
            &&& run_step(plan, s2, RunEvent::DirMade(Ok(()))) matches NextV::Do(s3, w3)
            &&& w3 == RunWorkV::Spawn(workspace_dir(plan.temp_dir@, plan.workspace_id@))
            &&& run_step(plan, s3, RunEvent::Spawned(Ok(()))) matches NextV::Do(s4, w4)
            &&& w4 == RunWorkV::File
            &&& run_step(plan, s4, RunEvent::Filed) matches NextV::Do(s5, w5)
            &&& w5 == RunWorkV::Execute
            &&& run_step(plan, s5, RunEvent::Ran(x, ms)) matches NextV::Do(s6, w6)
            &&& w6 == RunWorkV::Save(save_text(workspace_file(plan.checkpoint_dir@, plan.workspace_id@)))
            &&& run_step(plan, s6, RunEvent::Saved) matches NextV::Do(s7, w7)
            &&& w7 == RunWorkV::Note(workspace_file(plan.checkpoint_dir@, plan.workspace_id@))
            &&& run_step(plan, s7, RunEvent::Noted) matches NextV::Answer(r)
            &&& r == ResponseV::Json(200, workspace_execution(x@, ms))
        }),
{
}

/// Law: a workspace without a live worker gets its saved state back from its file,
/// where the file is there, before its code runs.
pub proof fn law_run_in_a_saved_workspace(
    plan: RunPlan,
    w: WorkspaceRecord,
    p: String,
    x: ExecutionResult,
    ms: u64,
)
    requires
        w.checkpoint_path == Some(p),
    ensures
        ({
            &&& run_step(plan, RunState::Checking, RunEvent::Accessible(true)) matches NextV::Do(s0, w0)
            &&& w0 == RunWorkV::Load
            &&& run_step(plan, s0, RunEvent::Loaded(Some(w))) matches NextV::Do(s1, w1)
            &&& w1 == RunWorkV::Look
            &&& run_step(plan, s1, RunEvent::Live(false)) matches NextV::Do(s2, w2)
            &&& w2 == RunWorkV::MakeDir(workspace_dir(plan.temp_dir@, plan.workspace_id@))
            &&& run_step(plan, s2, RunEvent::DirMade(Ok(()))) matches NextV::Do(s3, w3)
            &&& w3 == RunWorkV::Spawn(workspace_dir(plan.temp_dir@, plan.workspace_id@))
            &&& run_step(plan, s3, RunEvent::Spawned(Ok(()))) matches NextV::Do(s4, w4)
            &&& w4 == RunWorkV::Probe(p@)
            &&& run_step(plan, s4, RunEvent::Exists(true)) matches NextV::Do(s5, w5)
            &&& w5 == RunWorkV::Restore(restore_text(p@))
            &&& run_step(plan, s5, RunEvent::Restored) matches NextV::Do(s6, w6)
            &&& w6 == RunWorkV::File
            &&& run_step(plan, s6, RunEvent::Filed) matches NextV::Do(s7, w7)
            &&& w7 == RunWorkV::Execute
            &&& run_step(plan, s7, RunEvent::Ran(x, ms)) matches NextV::Do(s8, w8)
            &&& w8 == RunWorkV::Save(save_text(workspace_file(plan.checkpoint_dir@, plan.workspace_id@)))
            &&& run_step(plan, s8, RunEvent::Saved) matches NextV::Do(s9, w9)
            &&& w9 == RunWorkV::Note(workspace_file(plan.checkpoint_dir@, plan.workspace_id@))
            &&& run_step(plan, s9, RunEvent::Noted) matches NextV::Answer(r)
            &&& r == ResponseV::Json(200, workspace_execution(x@, ms))
        }),
        ({
            &&& run_step(plan, RunState::Checking, RunEvent::Accessible(true)) matches NextV::Do(s0, w0)
            &&& w0 == RunWorkV::Load
            &&& run_step(plan, s0, RunEvent::Loaded(Some(w))) matches NextV::Do(s1, w1)
            &&& w1 == RunWorkV::Look
            &&& run_step(plan, s1, RunEvent::Live(false)) matches NextV::Do(s2, w2)
            &&& w2 == RunWorkV::MakeDir(workspace_dir(plan.temp_dir@, plan.workspace_id@))
            &&& run_step(plan, s2, RunEvent::DirMade(Ok(()))) matches NextV::Do(s3, w3)
            &&& w3 == RunWorkV::Spawn(workspace_dir(plan.temp_dir@, plan.workspace_id@))
            &&& run_step(plan, s3, RunEvent::Spawned(Ok(()))) matches NextV::Do(s4, w4)
            &&& w4 == RunWorkV::Probe(p@)
            &&& run_step(plan, s4, RunEvent::Exists(false)) matches NextV::Do(s5, w5)
            &&& w5 == RunWorkV::File
            &&& run_step(plan, s5, RunEvent::Filed) matches NextV::Do(s6, w6)
            &&& w6 == RunWorkV::Execute
            &&& run_step(plan, s6, RunEvent::Ran(x, ms)) matches NextV::Do(s7, w7)
            &&& w7 == RunWorkV::Save(save_text(workspace_file(plan.checkpoint_dir@, plan.workspace_id@)))
            &&& run_step(plan, s7, RunEvent::Saved) matches NextV::Do(s8, w8)
            &&& w8 == RunWorkV::Note(workspace_file(plan.checkpoint_dir@, plan.workspace_id@))
            &&& run_step(plan, s8, RunEvent::Noted) matches NextV::Answer(r)
            &&& r == ResponseV::Json(200, workspace_execution(x@, ms))
        }),
{
}

/// Law: a key without access, and a workspace that is not there, is answered with
/// status 404; where no directory or no worker can be had, the reason is answered with
/// status 500.
pub proof fn law_run_is_refused_or_fails(plan: RunPlan, w: WorkspaceRecord, why: String)
    ensures
        ({
            &&& run_step(plan, RunState::Checking, RunEvent::Accessible(false)) matches NextV::Answer(r)
            &&& r == ResponseV::Text(404, "workspace not found"@)
        }),
        ({
            &&& run_step(plan, RunState::Checking, RunEvent::Accessible(true)) matches NextV::Do(s0, w0)
            &&& w0 == RunWorkV::Load
            &&& run_step(plan, s0, RunEvent::Loaded(None)) matches NextV::Answer(r)
            &&& r == ResponseV::Text(404, "workspace not found"@)
        }),
        ({
            &&& run_step(plan, RunState::Checking, RunEvent::Accessible(true)) matches NextV::Do(s0, w0)
            &&& w0 == RunWorkV::Load
            &&& run_step(plan, s0, RunEvent::Loaded(Some(w))) matches NextV::Do(s1, w1)
            &&& w1 == RunWorkV::Look
            &&& run_step(plan, s1, RunEvent::Live(false)) matches NextV::Do(s2, w2)
            &&& w2 == RunWorkV::MakeDir(workspace_dir(plan.temp_dir@, plan.workspace_id@))
            &&& run_step(plan, s2, RunEvent::DirMade(Err(why))) matches NextV::Answer(r)
            &&& r == ResponseV::Text(500, why@)
        }),
        ({
            &&& run_step(plan, RunState::Checking, RunEvent::Accessible(true)) matches NextV::Do(s0, w0)
            &&& w0 == RunWorkV::Load
            &&& run_step(plan, s0, RunEvent::Loaded(Some(w))) matches NextV::Do(s1, w1)
            &&& w1 == RunWorkV::Look
            &&& run_step(plan, s1, RunEvent::Live(false)) matches NextV::Do(s2, w2)
            &&& w2 == RunWorkV::MakeDir(workspace_dir(plan.temp_dir@, plan.workspace_id@))
            &&& run_step(plan, s2, RunEvent::DirMade(Ok(()))) matches NextV::Do(s3, w3)
            &&& w3 == RunWorkV::Spawn(workspace_dir(plan.temp_dir@, plan.workspace_id@))
            &&& run_step(plan, s3, RunEvent::Spawned(Err(why))) matches NextV::Answer(r)
            &&& r == ResponseV::Text(500, why@)
        }),
{
}

/// Law: the owner's deletion ends the worker, where there is a live one, and then
/// removes its directory; it removes the saved state, where there is one, and then the
/// record, and is answered by whether there was one. Any other key's deletion does
/// nothing and is refused.
pub proof fn law_deletion_takes_all(
    dir: Seq<char>,
    id: Seq<char>,
    w: WorkspaceRecord,
    p: String,
    deleted: bool,
)
    requires
        w.checkpoint_path == Some(p),
    ensures
        ({
            &&& delete_step(dir, id, DeleteState::Checking, DeleteEvent::Owner(true)) matches NextV::Do(s0, w0)
            &&& w0 == DeleteWorkV::End
            &&& delete_step(dir, id, s0, DeleteEvent::Ended(true)) matches NextV::Do(s1, w1)
            &&& w1 == DeleteWorkV::Wipe(workspace_dir(dir, id))
            &&& delete_step(dir, id, s1, DeleteEvent::Wiped) matches NextV::Do(s2, w2)
            &&& w2 == DeleteWorkV::Load
            &&& delete_step(dir, id, s2, DeleteEvent::Loaded(Some(w))) matches NextV::Do(s3, w3)
            &&& w3 == DeleteWorkV::Remove(p@)
            &&& delete_step(dir, id, s3, DeleteEvent::Removed) matches NextV::Do(s4, w4)
            &&& w4 == DeleteWorkV::Delete
            &&& delete_step(dir, id, s4, DeleteEvent::Deleted(deleted)) matches NextV::Answer(r)
            &&& r == workspace_deleted(true, deleted)
        }),
        ({
            &&& delete_step(dir, id, DeleteState::Checking, DeleteEvent::Owner(true)) matches NextV::Do(s0, w0)
            &&& w0 == DeleteWorkV::End
            &&& delete_step(dir, id, s0, DeleteEvent::Ended(false)) matches NextV::Do(s1, w1)
            &&& w1 == DeleteWorkV::Load
            &&& delete_step(dir, id, s1, DeleteEvent::Loaded(Some(w))) matches NextV::Do(s2, w2)
            &&& w2 == DeleteWorkV::Remove(p@)
            &&& delete_step(dir, id, s2, DeleteEvent::Removed) matches NextV::Do(s3, w3)
            &&& w3 == DeleteWorkV::Delete
            &&& delete_step(dir, id, s3, DeleteEvent::Deleted(deleted)) matches NextV::Answer(r)
            &&& r == workspace_deleted(true, deleted)
        }),
        ({
            &&& delete_step(dir, id, DeleteState::Checking, DeleteEvent::Owner(true)) matches NextV::Do(s0, w0)
            &&& w0 == DeleteWorkV::End
            &&& delete_step(dir, id, s0, DeleteEvent::Ended(false)) matches NextV::Do(s1, w1)
            &&& w1 == DeleteWorkV::Load
            &&& delete_step(dir, id, s1, DeleteEvent::Loaded(None)) matches NextV::Do(s2, w2)
            &&& w2 == DeleteWorkV::Delete
            &&& delete_step(dir, id, s2, DeleteEvent::Deleted(deleted)) matches NextV::Answer(r)
            &&& r == workspace_deleted(true, deleted)
        }),
        ({
            &&& delete_step(dir, id, DeleteState::Checking, DeleteEvent::Owner(false)) matches NextV::Answer(r)
            &&& r == ResponseV::Text(403, "only the owner can delete a workspace"@)
        }),
{
}

/// Law: the works on a workspace are known by what they say.
pub proof fn law_workspace_works_keep_their_names(a: RunWork, b: DeleteWork)
    ensures
        a matches RunWork::MakeDir(s) ==> a@ == RunWorkV::MakeDir(s@),
        a matches RunWork::Spawn(s) ==> a@ == RunWorkV::Spawn(s@),
        a matches RunWork::Probe(s) ==> a@ == RunWorkV::Probe(s@),
        a matches RunWork::Restore(s) ==> a@ == RunWorkV::Restore(s@),
        a matches RunWork::Save(s) ==> a@ == RunWorkV::Save(s@),
        a matches RunWork::Note(s) ==> a@ == RunWorkV::Note(s@),
        a is Wait ==> a@ is Wait,
        a is CheckAccess ==> a@ is CheckAccess,
        a is Load ==> a@ is Load,
        a is Look ==> a@ is Look,
        a is File ==> a@ is File,
        a is Execute ==> a@ is Execute,
        b matches DeleteWork::Wipe(s) ==> b@ == DeleteWorkV::Wipe(s@),
        b matches DeleteWork::Remove(s) ==> b@ == DeleteWorkV::Remove(s@),
        b is Wait ==> b@ is Wait,
        b is CheckOwner ==> b@ is CheckOwner,
        b is End ==> b@ is End,
        b is Load ==> b@ is Load,
        b is Delete ==> b@ is Delete,
{
}

/// Law: the answer on a workspace has what its record has, with whether it is live.
pub proof fn law_answer_on_a_workspace_is_its_record(w: WorkspaceRecord, live: bool)
    ensures
        from_record(w, live).id == w.id,
        from_record(w, live).name == w.name,
        from_record(w, live).owner_api_key == w.owner_api_key,
        from_record(w, live).created_at == w.created_at,
        from_record(w, live).last_accessed_at == w.last_accessed_at,
        from_record(w, live).live == live,
{
}

/// Law: at first no workspace is live.
pub proof fn law_no_workspace_is_live_at_first(id: Seq<char>)
    ensures
        !no_workers().contains_key(id),
{
}

} // verus!
