//! Sessions, jobs, checkpoints, files, keys, discovery files and the GitHub
//! login: what each request is answered.
use vstd::prelude::*;
use vstd::string::*;
use crate::billing::{lemma_plan_name, limits_of, plan_name, plan_of, Plan, PlanLimits, EXECUTION_GRACE_SECS};
use crate::clock::{json_time, json_time_text, Timestamp};
use crate::codec::{base64_bytes, base64_decode, base64_encode, base64_text};
use crate::db::{
    checkpoint_value, checkpoints_json, job_value, jobs_json, key_value, keys_json, ApiKeyInfo, CheckpointInfo,
    JobRecord, KeyRecord,
};
use crate::http::{
    error_json, error_object, Response, ResponseV, BAD_REQUEST, CREATED, INSUFFICIENT_STORAGE, INTERNAL_SERVER_ERROR,
    LOCKED, NOT_FOUND, OK, TOO_MANY_REQUESTS, UNAUTHORIZED,
};
use crate::ident::{short_name, short_name_text};
use crate::json::{field, field_text, opt_text, text_array, Fields, Json, JsonV};
use crate::api::swarm::text_or_null;
use crate::path::{file_name, file_name_of, join_path, joined};
use crate::runtime::{ExecutionResult, ExecutionV};
use crate::sandbox::{
    counted, report_of, template_of, tokens_without_sandbox, touched, Attempt, Session, SessionInfo, SessionStatus,
    SessionStatusV, SessionTemplate, SessionV, TokenReport,
};
use crate::text::{contains_char, contains_text, ends_with, labelled, maybe, maybe_owned, occurs, same, starts_with, texts};

verus! {

/// The bytes of a megabyte.
pub const MEGABYTE: u64 = 1_048_576;

// ── Health ──────────────────────────────────────────────

/// The sizes of pools, by name.
pub open spec fn pools_value(pools: Seq<(String, usize)>) -> Map<Seq<char>, JsonV>
    decreases pools.len(),
{
    if pools.len() == 0 {
        Map::empty()
    } else {
        pools_value(pools.drop_last()).insert(pools.last().0@, JsonV::Int(pools.last().1 as int))
    }
}

/// The state of the service.
pub fn health(version: &str, active_sessions: usize, warm_pool: usize, template_pools: &Vec<(String, usize)>) -> (r: Json)
    ensures
        r@ == JsonV::Obj(
            map![
                "status"@ => JsonV::Str("ok"@),
                "version"@ => JsonV::Str(version@),
                "active_sessions"@ => JsonV::Int(active_sessions as int),
                "warm_pool"@ => JsonV::Int(warm_pool as int),
                "template_pools"@ => JsonV::Obj(pools_value(template_pools@)),
                "templates"@ => text_array(seq!["data-science"@, "machine-learning"@, "web-scraping"@, "blank"@]),
            ],
        ),
{
    let mut pools: Fields = Fields::new();
    let ghost all = template_pools@;
    let mut i: usize = 0;
    while i < template_pools.len()
        invariant
            i <= template_pools@.len(),
            all == template_pools@,
            pools@ == pools_value(all.take(i as int)),
        decreases template_pools.len() - i,
    {
        proof {
            assert(all.take(i + 1).drop_last() =~= all.take(i as int));
        }
        pools.put_u64(template_pools[i].0.as_str(), template_pools[i].1 as u64);
        i += 1;
    }
    assert(all.take(i as int) =~= all);
    let names: Vec<String> = vec![
        "data-science".to_owned(),
        "machine-learning".to_owned(),
        "web-scraping".to_owned(),
        "blank".to_owned(),
    ];
    assert(texts(names@) =~= seq!["data-science"@, "machine-learning"@, "web-scraping"@, "blank"@]);
    let mut f: Fields = Fields::new();
    f.put_text("status", "ok");
    f.put_text("version", version);
    f.put_u64("active_sessions", active_sessions as u64);
    f.put_u64("warm_pool", warm_pool as u64);
    f.put("template_pools", pools.done());
    f.put_texts("templates", &names);
    f.done()
}

/// Whether tokens are counted, by the configured value: always, but where it is
/// `0` or, in any case of its letters, `false`.
pub open spec fn tracking_on(configured: Option<Seq<char>>) -> bool {
    match configured {
        None => true,
        Some(v) => v != "0"@ && !is_false(v),
    }
}

/// Whether a text is `false` in any case of its letters.
pub open spec fn is_false(v: Seq<char>) -> bool {
    &&& v.len() == 5
    &&& (v[0] == 'f' || v[0] == 'F') && (v[1] == 'a' || v[1] == 'A') && (v[2] == 'l' || v[2] == 'L')
    &&& (v[3] == 's' || v[3] == 'S') && (v[4] == 'e' || v[4] == 'E')
}

/// Whether tokens are counted, by the configured value.
pub fn token_tracking(configured: Option<&str>) -> (r: bool)
    ensures
        r == tracking_on(maybe(configured)),
{
    match configured {
        None => true,
        Some(v) => {
            let a: Vec<char> = crate::text::chars(v);
            let says_no: bool = a.len() == 5 && (a[0] == 'f' || a[0] == 'F') && (a[1] == 'a' || a[1] == 'A') && (a[2]
                == 'l' || a[2] == 'L') && (a[3] == 's' || a[3] == 'S') && (a[4] == 'e' || a[4] == 'E');
            !same(v, "0") && !says_no
        },
    }
}

// ── Sessions ────────────────────────────────────────────

/// A request for a session.
pub struct CreateSessionRequest {
    pub ttl_seconds: Option<i64>,
    pub template: Option<String>,
    pub packages: Option<Vec<String>>,
    pub checkpoint_id: Option<String>,
    /// Whether tokens are counted; as the server has it where this is left out.
    pub token_tracking: Option<bool>,
}

/// The template asked for; the blank one where none is, or an unknown one.
pub open spec fn requested_template(name: Option<Seq<char>>) -> SessionTemplate {
    match name {
        None => SessionTemplate::Blank,
        Some(s) => match template_of(s) {
            Some(t) => t,
            None => SessionTemplate::Blank,
        },
    }
}

impl CreateSessionRequest {
    /// The template asked for.
    pub fn session_template(&self) -> (r: SessionTemplate)
        ensures
            r == requested_template(maybe_owned(self.template)),
    {
        match &self.template {
            None => SessionTemplate::Blank,
            Some(s) => match SessionTemplate::from_str(s.as_str()) {
                Some(t) => t,
                None => SessionTemplate::Blank,
            },
        }
    }

    /// Whether tokens are counted.
    pub fn tracks_tokens(&self, server_default: bool) -> (r: bool)
        ensures
            r == (match self.token_tracking {
                Some(b) => b,
                None => server_default,
            }),
    {
        match self.token_tracking {
            Some(b) => b,
            None => server_default,
        }
    }
}

/// The tier of a key, where it is known.
pub open spec fn known_tier(info: Option<&ApiKeyInfo>) -> Option<Seq<char>> {
    match info {
        Some(i) => Some(i.tier@),
        None => None,
    }
}

/// The answer to a key that has as many sessions as its plan gives.
pub open spec fn too_many_sessions(tier: Seq<char>, active: usize) -> ResponseV {
    ResponseV::Json(
        TOO_MANY_REQUESTS,
        JsonV::Obj(
            map![
                "error"@ => JsonV::Str("Concurrent session limit reached"@),
                "plan"@ => JsonV::Str(plan_name(plan_of(tier))),
                "sessions_active"@ => JsonV::Int(active as int),
                "sessions_limit"@ => JsonV::Int(limits_of(plan_of(tier)).concurrent_sessions as int),
                "upgrade"@ => JsonV::Str("https://compute.deep-ml.com/dashboard"@),
            ],
        ),
    )
}

/// What keeps a key from another session: it has as many as its plan gives. A
/// session without a known key counts toward no plan.
pub open spec fn session_refusal(tier: Option<Seq<char>>, active: usize) -> Option<ResponseV> {
    match tier {
        Some(t) => if active >= limits_of(plan_of(t)).concurrent_sessions {
            Some(too_many_sessions(t, active))
        } else {
            None
        },
        None => None,
    }
}

/// Whether a key may have another session, given what is known of it and how many
/// it has. `None` lets the request pass.
pub fn admit_session(info: Option<&ApiKeyInfo>, active: usize) -> (r: Option<Response>)
    ensures
        match r {
            Some(x) => session_refusal(known_tier(info), active) == Some(x@),
            None => session_refusal(known_tier(info), active) is None,
        },
{
    match info {
        Some(i) => {
            let limits: PlanLimits = PlanLimits::for_tier(i.tier.as_str());
            if limits.admits_session(active) {
                None
            } else {
                let mut f: Fields = Fields::new();
                f.put_text("error", "Concurrent session limit reached");
                f.put_text("plan", PlanLimits::tier_display(i.tier.as_str()));
                f.put_u64("sessions_active", active as u64);
                f.put_u64("sessions_limit", limits.concurrent_sessions as u64);
                f.put_text("upgrade", "https://compute.deep-ml.com/dashboard");
                Some(Response::Json(TOO_MANY_REQUESTS, f.done()))
            }
        },
        None => None,
    }
}

/// Why a tool gives a key no other session, given what is known of the key and how
/// many it has; nothing where it may have one.
pub fn tool_session_refusal(info: Option<&ApiKeyInfo>, active: usize) -> (r: Option<String>)
    ensures
        maybe_owned(r) == match session_refusal(known_tier(info), active) {
            Some(_) => Some("Concurrent session limit reached"@),
            None => None,
        },
{
    match admit_session(info, active) {
        Some(_) => Some("Concurrent session limit reached".to_owned()),
        None => None,
    }
}

/// Seconds that an execution may take by the plan of its key. One without a known
/// key has the time of the hobby plan.
pub open spec fn time_allowed(tier: Option<Seq<char>>) -> int {
    let plan = match tier {
        Some(t) => plan_of(t),
        None => Plan::Hobby,
    };
    limits_of(plan).max_execution_secs + EXECUTION_GRACE_SECS
}

/// Seconds that a worker has to answer an execution, given what is known of the
/// key that asks for it.
pub fn execution_timeout(info: Option<&ApiKeyInfo>) -> (r: u32)
    ensures
        r == time_allowed(known_tier(info)),
{
    match info {
        Some(i) => PlanLimits::execution_timeout(i.tier.as_str()),
        None => {
            proof {
                lemma_plan_name(Plan::Hobby);
            }
            PlanLimits::execution_timeout("hobby")
        },
    }
}

/// A checkpoint that a new session was to start from.
pub enum Restore {
    /// None was asked for, or there was no key to look it up with, or the session
    /// was gone.
    Skipped,
    /// There is none with this identifier.
    Missing(String),
    /// These variables were restored, with this error.
    Done(Vec<String>, Option<String>),
}

/// The variables that were restored, as JSON.
pub open spec fn restored_vars(r: Restore) -> JsonV {
    match r {
        Restore::Done(vars, e) => text_array(texts(vars@)),
        _ => JsonV::Null,
    }
}

/// What went wrong with restoring, as JSON.
pub open spec fn restore_error(r: Restore) -> JsonV {
    match r {
        Restore::Skipped => JsonV::Null,
        Restore::Missing(id) => JsonV::Str("Checkpoint '"@ + id@ + "' not found"@),
        Restore::Done(vars, e) => opt_text(e),
    }
}

/// What is to be said of a checkpoint that a new session was to start from: the
/// one asked for, whether there was a key and a record of it, and what restoring
/// it gave.
pub open spec fn restore_outcome(
    checkpoint_id: Option<String>,
    keyed: bool,
    recorded: bool,
    outcome: Option<(Vec<String>, Option<String>)>,
) -> Restore {
    match checkpoint_id {
        None => Restore::Skipped,
        Some(id) => if !keyed {
            Restore::Skipped
        } else if !recorded {
            Restore::Missing(id)
        } else {
            match outcome {
                None => Restore::Skipped,
                Some((vars, e)) => Restore::Done(vars, e),
            }
        },
    }
}

/// What is to be said of a checkpoint that a new session was to start from.
pub fn restore_of_request(
    checkpoint_id: &Option<String>,
    keyed: bool,
    record: Option<&CheckpointInfo>,
    outcome: Option<(Vec<String>, Option<String>)>,
) -> (r: Restore)
    ensures
        r == restore_outcome(*checkpoint_id, keyed, record is Some, outcome),
{
    match checkpoint_id {
        None => Restore::Skipped,
        Some(id) => if !keyed {
            Restore::Skipped
        } else {
            match record {
                None => Restore::Missing(id.clone()),
                Some(_) => match outcome {
                    None => Restore::Skipped,
                    Some((vars, e)) => Restore::Done(vars, e),
                },
            }
        },
    }
}

/// A new session, as JSON.
pub open spec fn session_value(info: SessionInfo, installed: Option<ExecutionV>, restore: Restore) -> JsonV {
    JsonV::Obj(
        map![
            "session_id"@ => JsonV::Str(info.session_id@),
            "created_at"@ => JsonV::Str(json_time_text(info.created_at.secs, info.created_at.nanos)),
            "expires_at"@ => JsonV::Str(json_time_text(info.expires_at.secs, info.expires_at.nanos)),
            "workspace_path"@ => JsonV::Str(info.workspace_path@),
            "install_output"@ => match installed {
                Some(x) => JsonV::Str(x.stdout),
                None => JsonV::Null,
            },
            "install_error"@ => match installed {
                Some(x) => text_or_null(x.error),
                None => JsonV::Null,
            },
            "restore_vars"@ => restored_vars(restore),
            "restore_error"@ => restore_error(restore),
        ],
    )
}

/// The answer to a request for a session: what was created, installed and
/// restored, or why nothing was created.
pub open spec fn session_created(
    session: Result<SessionInfo, String>,
    installed: Option<ExecutionV>,
    restore: Restore,
) -> ResponseV {
    match session {
        Err(e) => ResponseV::Json(INTERNAL_SERVER_ERROR, error_object("Failed to create session: "@ + e@)),
        Ok(info) => ResponseV::Json(CREATED, session_value(info, installed, restore)),
    }
}

/// What came of an execution, where there was one.
pub open spec fn maybe_execution(x: Option<&ExecutionResult>) -> Option<ExecutionV> {
    match x {
        Some(x) => Some(x@),
        None => None,
    }
}

/// The answer to a request for a session.
pub fn create_session(
    session: &Result<SessionInfo, String>,
    installed: Option<&ExecutionResult>,
    restore: &Restore,
) -> (r: Response)
    requires
        session matches Ok(info) ==> info.created_at.valid() && info.expires_at.valid(),
    ensures
        r@ == session_created(*session, maybe_execution(installed), *restore),
{
    match session {
        Err(e) => {
            let s: String = labelled("Failed to create session: ", e.as_str());
            Response::Json(INTERNAL_SERVER_ERROR, error_json(s.as_str()))
        },
        Ok(info) => {
            let created: String = json_time(info.created_at);
            let expires: String = json_time(info.expires_at);
            let mut f: Fields = Fields::new();
            f.put_text("session_id", info.session_id.as_str());
            f.put_text("created_at", created.as_str());
            f.put_text("expires_at", expires.as_str());
            f.put_text("workspace_path", info.workspace_path.as_str());
            match installed {
                Some(x) => {
                    f.put_text("install_output", x.stdout.as_str());
                    f.put_opt("install_error", &x.error);
                },
                None => {
                    f.put("install_output", Json::Null);
                    f.put("install_error", Json::Null);
                },
            }
            match restore {
                Restore::Skipped => {
                    f.put("restore_vars", Json::Null);
                    f.put("restore_error", Json::Null);
                },
                Restore::Missing(id) => {
                    let mut s: String = "Checkpoint '".to_owned();
                    s.append(id.as_str());
                    s.append("' not found");
                    f.put("restore_vars", Json::Null);
                    f.put_text("restore_error", s.as_str());
                },
                Restore::Done(vars, e) => {
                    f.put_texts("restore_vars", vars);
                    f.put_opt("restore_error", e);
                },
            }
            Response::Json(CREATED, f.done())
        },
    }
}

/// The answer to the end of a session.
pub fn terminate_session(ended: bool) -> (r: Response)
    ensures
        r@ == if ended {
            ResponseV::Json(OK, JsonV::Obj(map!["deleted"@ => JsonV::Bool(true)]))
        } else {
            ResponseV::Json(NOT_FOUND, error_object("session not found"@))
        },
{
    if ended {
        let mut f: Fields = Fields::new();
        f.put_bool("deleted", true);
        Response::Json(OK, f.done())
    } else {
        Response::Json(NOT_FOUND, error_json("session not found"))
    }
}

/// The answer to a look at a session.
pub open spec fn status_value(s: SessionStatusV) -> JsonV {
    JsonV::Obj(
        map![
            "active"@ => JsonV::Bool(s.active),
            "ttl_remaining"@ => JsonV::Int(s.ttl_remaining),
            "calls_used"@ => JsonV::Int(s.calls_used as int),
            "session_id"@ => JsonV::Str(s.session_id),
        ],
    )
}

/// The answer to a look at a session.
pub fn session_status(status: Option<&SessionStatus>) -> (r: Response)
    ensures
        r@ == match status {
            Some(s) => ResponseV::Json(OK, status_value(s@)),
            None => ResponseV::Status(NOT_FOUND),
        },
{
    match status {
        Some(s) => {
            let mut f: Fields = Fields::new();
            f.put_bool("active", s.active);
            f.put_i64("ttl_remaining", s.ttl_remaining);
            f.put_u64("calls_used", s.calls_used);
            f.put_text("session_id", s.session_id.as_str());
            Response::Json(OK, f.done())
        },
        None => Response::Status(NOT_FOUND),
    }
}

// ── Executions ──────────────────────────────────────────

/// What an execution cost in tokens.
pub struct ExecuteTokenInfo {
    pub output_tokens: u64,
    pub session_state_tokens: u64,
    pub estimated_context_tokens_without_sandbox: u64,
    pub cumulative_session_savings: u64,
}

/// What an execution is answered.
pub struct ExecuteResponse {
    pub stdout: String,
    pub result: Option<String>,
    pub error: Option<String>,
    pub duration_ms: u64,
    pub plots: Vec<String>,
    pub html: Option<String>,
    /// Only where tokens are counted.
    pub tokens: Option<ExecuteTokenInfo>,
}

/// What an execution cost in tokens, by the session after it was counted.
pub open spec fn token_info(s: SessionV, x: ExecutionV) -> ExecuteTokenInfo {
    ExecuteTokenInfo {
        output_tokens: x.output_tokens,
        session_state_tokens: x.state_tokens,
        estimated_context_tokens_without_sandbox: (x.output_tokens + x.state_tokens) as u64,
        cumulative_session_savings: report_of(s).net_token_savings,
    }
}

/// A session with the tokens of an execution counted, where it counts them.
pub open spec fn tallied(s: SessionV, x: ExecutionV) -> SessionV {
    if s.token_tracking {
        counted(s, x.output_tokens, x.state_tokens)
    } else {
        s
    }
}

/// Whether the tokens of an execution can be reported before the execution
/// itself is counted.
pub open spec fn reportable(s: SessionV, x: ExecutionV) -> bool {
    s.token_tracking ==> x.output_tokens + x.state_tokens <= u64::MAX && tokens_without_sandbox(tallied(s, x)) <= u64::MAX
}

/// Whether the tokens of an execution can be reported after the execution itself
/// was counted, as a streaming execution does.
pub open spec fn stream_reportable(s: SessionV, x: ExecutionV, now: Timestamp) -> bool {
    s.token_tracking ==> x.output_tokens + x.state_tokens <= u64::MAX && tokens_without_sandbox(
        touched(tallied(s, x), now),
    ) <= u64::MAX
}

/// Whether the tokens of an execution can be reported.
pub fn can_report(session: &Session, x: &ExecutionResult) -> (r: bool)
    ensures
        r == reportable(session@, x@),
{
    if !session.token_tracking {
        return true;
    }
    let output: u64 = session.cumulative_output_tokens.wrapping_add(x.output_tokens);
    let state: u64 = session.cumulative_state_tokens.wrapping_add(x.state_tokens);
    let calls: u64 = if session.calls_used == 0 {
        1
    } else {
        session.calls_used
    };
    x.state_tokens <= u64::MAX - x.output_tokens && fits(output, state, calls)
}

/// Whether the tokens of a streaming execution can be reported.
pub fn can_report_stream(session: &Session, x: &ExecutionResult, now: Timestamp) -> (r: bool)
    requires
        now.valid(),
    ensures
        r == stream_reportable(session@, x@, now),
{
    if !session.token_tracking {
        return true;
    }
    let output: u64 = session.cumulative_output_tokens.wrapping_add(x.output_tokens);
    let state: u64 = session.cumulative_state_tokens.wrapping_add(x.state_tokens);
    let next: u64 = session.calls_used.wrapping_add(1);
    let calls: u64 = if next == 0 {
        1
    } else {
        next
    };
    x.state_tokens <= u64::MAX - x.output_tokens && fits(output, state, calls)
}

/// Whether a sum and a product stay within 64 bits.
fn fits(a: u64, b: u64, c: u64) -> (r: bool)
    ensures
        r == (a + b * c <= u64::MAX),
{
    assert(0 <= b * c <= u64::MAX * u64::MAX) by (nonlinear_arith)
        requires
            0 <= b <= u64::MAX,
            0 <= c <= u64::MAX,
    ;
    (b as u128) * (c as u128) <= (u64::MAX - a) as u128
}

/// The tokens that are stored with the use of a session: none where it does not
/// count them.
pub open spec fn usage_tokens(s: SessionV, x: ExecutionV) -> (u64, u64) {
    if s.token_tracking {
        (x.output_tokens, x.state_tokens)
    } else {
        (0, 0)
    }
}

/// Counts an execution at `now`, and gives its answer and the tokens to store
/// with its use.
pub fn execute_code(session: &mut Session, x: ExecutionResult, now: Timestamp) -> (r: (ExecuteResponse, (u64, u64)))
    requires
        now.valid(),
        reportable(old(session)@, x@),
    ensures
        final(session)@ == touched(tallied(old(session)@, x@), now),
        r.0.stdout == x.stdout,
        r.0.result == x.result,
        r.0.error == x.error,
        r.0.duration_ms == x.duration_ms,
        r.0.plots == x.plots,
        r.0.html == x.html,
        r.0.tokens == (if old(session)@.token_tracking {
            Some(token_info(tallied(old(session)@, x@), x@))
        } else {
            None
        }),
        r.1 == usage_tokens(old(session)@, x@),
{
    let mut tokens: Option<ExecuteTokenInfo> = None;
    let mut stored: (u64, u64) = (0, 0);
    if session.token_tracking {
        session.record_tokens(x.output_tokens, x.state_tokens);
        let report: TokenReport = session.token_report();
        tokens =
        Some(
            ExecuteTokenInfo {
                output_tokens: x.output_tokens,
                session_state_tokens: x.state_tokens,
                estimated_context_tokens_without_sandbox: x.output_tokens + x.state_tokens,
                cumulative_session_savings: report.net_token_savings,
            },
        );
        stored = (x.output_tokens, x.state_tokens);
    }
    session.touch_at(now);
    let response: ExecuteResponse = ExecuteResponse {
        stdout: x.stdout,
        result: x.result,
        error: x.error,
        duration_ms: x.duration_ms,
        plots: x.plots,
        html: x.html,
        tokens,
    };
    (response, stored)
}

/// The fields of the answer to an execution, but for its tokens.
pub open spec fn execution_fields(x: ExecutionV) -> Map<Seq<char>, JsonV> {
    map![
        "stdout"@ => JsonV::Str(x.stdout),
        "result"@ => text_or_null(x.result),
        "error"@ => text_or_null(x.error),
        "duration_ms"@ => JsonV::Int(x.duration_ms as int),
        "plots"@ => text_array(x.plots),
        "html"@ => text_or_null(x.html),
    ]
}

/// An answer with what it cost in tokens, where those are counted.
pub open spec fn with_tokens(fields: Map<Seq<char>, JsonV>, tokens: Option<ExecuteTokenInfo>) -> Map<Seq<char>, JsonV> {
    match tokens {
        Some(t) => fields.insert("tokens"@, tokens_value(t)),
        None => fields,
    }
}

/// What an execution cost in tokens, as JSON.
pub open spec fn tokens_value(t: ExecuteTokenInfo) -> JsonV {
    JsonV::Obj(
        map![
            "output_tokens"@ => JsonV::Int(t.output_tokens as int),
            "session_state_tokens"@ => JsonV::Int(t.session_state_tokens as int),
            "estimated_context_tokens_without_sandbox"@ => JsonV::Int(t.estimated_context_tokens_without_sandbox as int),
            "cumulative_session_savings"@ => JsonV::Int(t.cumulative_session_savings as int),
        ],
    )
}

/// The answer to an execution, as JSON.
pub open spec fn execute_value(r: ExecuteResponse) -> JsonV {
    JsonV::Obj(
        with_tokens(
            map![
                "stdout"@ => JsonV::Str(r.stdout@),
                "result"@ => opt_text(r.result),
                "error"@ => opt_text(r.error),
                "duration_ms"@ => JsonV::Int(r.duration_ms as int),
                "plots"@ => text_array(texts(r.plots@)),
                "html"@ => opt_text(r.html),
            ],
            r.tokens,
        ),
    )
}

/// What an execution cost in tokens, as JSON.
fn tokens_json(t: &ExecuteTokenInfo) -> (r: Json)
    ensures
        r@ == tokens_value(*t),
{
    let mut f: Fields = Fields::new();
    f.put_u64("output_tokens", t.output_tokens);
    f.put_u64("session_state_tokens", t.session_state_tokens);
    f.put_u64("estimated_context_tokens_without_sandbox", t.estimated_context_tokens_without_sandbox);
    f.put_u64("cumulative_session_savings", t.cumulative_session_savings);
    f.done()
}

impl ExecuteResponse {
    /// This answer, as JSON.
    pub fn to_json(&self) -> (r: Json)
        ensures
            r@ == execute_value(*self),
    {
        let mut f: Fields = Fields::new();
        f.put_text("stdout", self.stdout.as_str());
        f.put_opt("result", &self.result);
        f.put_opt("error", &self.error);
        f.put_u64("duration_ms", self.duration_ms);
        f.put_texts("plots", &self.plots);
        f.put_opt("html", &self.html);
        match &self.tokens {
            Some(t) => f.put("tokens", tokens_json(t)),
            None => {},
        }
        f.done()
    }
}

/// The last event of a streaming execution, by the session after it: the answer
/// to an execution, marked as a result.
pub open spec fn stream_value(after: SessionV, x: ExecutionV) -> JsonV {
    JsonV::Obj(
        with_tokens(
            execution_fields(x).insert("type"@, JsonV::Str("result"@)),
            if after.token_tracking {
                Some(token_info(after, x))
            } else {
                None
            },
        ),
    )
}

/// Counts a streaming execution at `now`, and gives its last event and the
/// tokens to store with its use.
pub fn execute_code_stream(session: &mut Session, x: &ExecutionResult, now: Timestamp) -> (r: (Json, (u64, u64)))
    requires
        now.valid(),
        stream_reportable(old(session)@, x@, now),
    ensures
        final(session)@ == touched(tallied(old(session)@, x@), now),
        r.0@ == stream_value(final(session)@, x@),
        r.1 == usage_tokens(old(session)@, x@),
{
    let mut stored: (u64, u64) = (0, 0);
    if session.token_tracking {
        session.record_tokens(x.output_tokens, x.state_tokens);
        stored = (x.output_tokens, x.state_tokens);
    }
    session.touch_at(now);
    let mut f: Fields = Fields::new();
    f.put_text("stdout", x.stdout.as_str());
    f.put_opt("result", &x.result);
    f.put_opt("error", &x.error);
    f.put_u64("duration_ms", x.duration_ms);
    f.put_texts("plots", &x.plots);
    f.put_opt("html", &x.html);
    assert(f@ == execution_fields(x@));
    f.put_text("type", "result");
    if session.token_tracking {
        let report: TokenReport = session.token_report();
        let t: ExecuteTokenInfo = ExecuteTokenInfo {
            output_tokens: x.output_tokens,
            session_state_tokens: x.state_tokens,
            estimated_context_tokens_without_sandbox: x.output_tokens + x.state_tokens,
            cumulative_session_savings: report.net_token_savings,
        };
        f.put("tokens", tokens_json(&t));
    }
    (f.done(), stored)
}

/// Law: the last event of a streaming execution has the fields of the answer to
/// the same execution, with the same values but for the tokens, and its type.
pub proof fn law_stream_ends_as_execution(after: SessionV, x: ExecutionResult, r: ExecuteResponse, key: Seq<char>)
    requires
        r.stdout == x.stdout,
        r.result == x.result,
        r.error == x.error,
        r.duration_ms == x.duration_ms,
        r.plots == x.plots,
        r.html == x.html,
        r.tokens is Some == after.token_tracking,
    ensures
        field(stream_value(after, x@), key) is Some <==> key == "type"@ || field(execute_value(r), key) is Some,
        key != "type"@ && key != "tokens"@ ==> field(stream_value(after, x@), key) == field(execute_value(r), key),
        field(stream_value(after, x@), "type"@) == Some(JsonV::Str("result"@)),
{
    reveal_strlit("type");
    reveal_strlit("tokens");
    assert("type"@.len() == 4 && "tokens"@.len() == 6);
}

/// The status code that stands for an attempt that did not run.
pub fn attempt_status<T>(attempt: &Attempt<T>) -> (r: Option<u16>)
    ensures
        r == (match attempt {
            Attempt::NoSession => Some(NOT_FOUND),
            Attempt::Busy => Some(LOCKED),
            Attempt::Ran(_) => None::<u16>,
        }),
{
    match attempt {
        Attempt::NoSession => Some(NOT_FOUND),
        Attempt::Busy => Some(LOCKED),
        Attempt::Ran(_) => None,
    }
}

/// The answer to an installation of packages.
pub fn install_packages(packages: &Vec<String>, attempt: &Attempt<ExecutionResult>) -> (r: Response)
    ensures
        r@ == match attempt {
            Attempt::NoSession => ResponseV::Status(NOT_FOUND),
            Attempt::Busy => ResponseV::Status(LOCKED),
            Attempt::Ran(x) => ResponseV::Json(
                OK,
                JsonV::Obj(
                    map![
                        "stdout"@ => JsonV::Str(x.stdout@),
                        "error"@ => opt_text(x.error),
                        "duration_ms"@ => JsonV::Int(x.duration_ms as int),
                        "packages"@ => text_array(texts(packages@)),
                    ],
                ),
            ),
        },
{
    match attempt {
        Attempt::NoSession => Response::Status(NOT_FOUND),
        Attempt::Busy => Response::Status(LOCKED),
        Attempt::Ran(x) => {
            let mut f: Fields = Fields::new();
            f.put_text("stdout", x.stdout.as_str());
            f.put_opt("error", &x.error);
            f.put_u64("duration_ms", x.duration_ms);
            f.put_texts("packages", packages);
            Response::Json(OK, f.done())
        },
    }
}

// ── Jobs ────────────────────────────────────────────────

/// Admits a background job: it needs an API key and a session.
pub fn admit_job(api_key: Option<String>, session_found: bool) -> (r: Result<String, Response>)
    ensures
        match (api_key, r) {
            (None, Err(x)) => x@ == ResponseV::Status(UNAUTHORIZED),
            (Some(k), Err(x)) => !session_found && x@ == ResponseV::Status(NOT_FOUND),
            (Some(k), Ok(key)) => session_found && key == k,
            (None, Ok(_)) => false,
        },
{
    match api_key {
        None => Err(Response::Status(UNAUTHORIZED)),
        Some(k) => if session_found {
            Ok(k)
        } else {
            Err(Response::Status(NOT_FOUND))
        },
    }
}

/// The answer to a submitted job, given whether it was stored.
pub fn execute_code_async(job_id: &str, stored: bool) -> (r: Response)
    ensures
        r@ == if stored {
            ResponseV::Json(
                OK,
                JsonV::Obj(map!["job_id"@ => JsonV::Str(job_id@), "status"@ => JsonV::Str("queued"@)]),
            )
        } else {
            ResponseV::Status(INTERNAL_SERVER_ERROR)
        },
{
    if !stored {
        return Response::Status(INTERNAL_SERVER_ERROR);
    }
    let mut f: Fields = Fields::new();
    f.put_text("job_id", job_id);
    f.put_text("status", "queued");
    Response::Json(OK, f.done())
}

/// What is posted when a job is over.
pub open spec fn job_news(job_id: Seq<char>, x: ExecutionResult) -> JsonV {
    JsonV::Obj(
        map![
            "job_id"@ => JsonV::Str(job_id),
            "status"@ => JsonV::Str(crate::db::end_status(maybe_owned(x.error))),
            "stdout"@ => JsonV::Str(x.stdout@),
            "result"@ => opt_text(x.result),
            "error"@ => opt_text(x.error),
            "plots"@ => text_array(texts(x.plots@)),
            "html"@ => opt_text(x.html),
            "duration_ms"@ => JsonV::Int(x.duration_ms as int),
        ],
    )
}

/// What is posted when a job is over.
pub fn job_webhook(job_id: &str, x: &ExecutionResult) -> (r: Json)
    ensures
        r@ == job_news(job_id@, *x),
{
    let mut f: Fields = Fields::new();
    f.put_text("job_id", job_id);
    f.put_text(
        "status",
        if x.error.is_some() {
            "error"
        } else {
            "done"
        },
    );
    f.put_text("stdout", x.stdout.as_str());
    f.put_opt("result", &x.result);
    f.put_opt("error", &x.error);
    f.put_texts("plots", &x.plots);
    f.put_opt("html", &x.html);
    f.put_u64("duration_ms", x.duration_ms);
    f.done()
}

/// The answer to a look at a job, given whether the request carries a key.
pub fn get_job(keyed: bool, job: Option<&JobRecord>) -> (r: Response)
    ensures
        r@ == if !keyed {
            ResponseV::Status(UNAUTHORIZED)
        } else {
            match job {
                Some(j) => ResponseV::Json(OK, job_value(*j)),
                None => ResponseV::Status(NOT_FOUND),
            }
        },
{
    if !keyed {
        return Response::Status(UNAUTHORIZED);
    }
    match job {
        Some(j) => Response::Json(OK, j.to_json()),
        None => Response::Status(NOT_FOUND),
    }
}

/// The answer to a list of jobs, given whether the request carries a key.
pub fn list_session_jobs(keyed: bool, jobs: &Vec<JobRecord>) -> (r: Response)
    ensures
        r@ == if !keyed {
            ResponseV::Status(UNAUTHORIZED)
        } else {
            ResponseV::Json(
                OK,
                JsonV::Obj(map!["jobs"@ => JsonV::Arr(Seq::new(jobs@.len(), |i: int| job_value(jobs@[i])))]),
            )
        },
{
    if !keyed {
        return Response::Status(UNAUTHORIZED);
    }
    let mut f: Fields = Fields::new();
    f.put("jobs", jobs_json(jobs));
    Response::Json(OK, f.done())
}

// ── Checkpoints ─────────────────────────────────────────

/// What a request for a checkpoint leads to.
pub enum CheckpointEntry {
    Deny(Response),
    /// The checkpoint may be made, under the limits of the key's plan.
    Proceed(PlanLimits),
}

/// The answer to a request that would exceed the storage of its plan.
pub open spec fn quota_exceeded(tier: Seq<char>, used: u64) -> ResponseV {
    ResponseV::Json(
        INSUFFICIENT_STORAGE,
        JsonV::Obj(
            map![
                "error"@ => JsonV::Str("Checkpoint storage quota exceeded"@),
                "used_mb"@ => JsonV::Int(used as int / MEGABYTE as int),
                "limit_mb"@ => JsonV::Int(limits_of(plan_of(tier)).checkpoint_storage_bytes as int / MEGABYTE as int),
                "plan"@ => JsonV::Str(tier),
                "fix"@ => JsonV::Str("Delete old checkpoints or upgrade your plan"@),
                "upgrade"@ => JsonV::Str("https://compute.deep-ml.com/billing"@),
            ],
        ),
    )
}

/// What a request for a checkpoint leads to: it needs an API key, a session, a
/// known key, and storage left in its plan.
pub open spec fn checkpoint_entry(keyed: bool, session_found: bool, tier: Option<Seq<char>>, used: u64) -> Result<
    PlanLimits,
    ResponseV,
> {
    if !keyed {
        Err(ResponseV::Status(UNAUTHORIZED))
    } else if !session_found {
        Err(ResponseV::Status(NOT_FOUND))
    } else {
        match tier {
            None => Err(ResponseV::Status(UNAUTHORIZED)),
            Some(t) => if used >= limits_of(plan_of(t)).checkpoint_storage_bytes {
                Err(quota_exceeded(t, used))
            } else {
                Ok(limits_of(plan_of(t)))
            },
        }
    }
}

/// What a request for a checkpoint leads to, given whether it carries a key and
/// names a session, what is known of the key, and the storage that it uses.
pub fn admit_checkpoint(keyed: bool, session_found: bool, info: Option<&ApiKeyInfo>, used: u64) -> (r: CheckpointEntry)
    ensures
        match r {
            CheckpointEntry::Deny(x) => checkpoint_entry(keyed, session_found, known_tier(info), used) == Err::<
                PlanLimits,
                ResponseV,
            >(x@),
            CheckpointEntry::Proceed(l) => checkpoint_entry(keyed, session_found, known_tier(info), used) == Ok::<
                PlanLimits,
                ResponseV,
            >(l),
        },
{
    if !keyed {
        return CheckpointEntry::Deny(Response::Status(UNAUTHORIZED));
    }
    if !session_found {
        return CheckpointEntry::Deny(Response::Status(NOT_FOUND));
    }
    match info {
        None => CheckpointEntry::Deny(Response::Status(UNAUTHORIZED)),
        Some(i) => {
            let limits: PlanLimits = PlanLimits::for_tier(i.tier.as_str());
            if used >= limits.checkpoint_storage_bytes {
                let mut f: Fields = Fields::new();
                f.put_text("error", "Checkpoint storage quota exceeded");
                f.put_u64("used_mb", used / MEGABYTE);
                f.put_u64("limit_mb", limits.checkpoint_storage_bytes / MEGABYTE);
                f.put_text("plan", i.tier.as_str());
                f.put_text("fix", "Delete old checkpoints or upgrade your plan");
                f.put_text("upgrade", "https://compute.deep-ml.com/billing");
                CheckpointEntry::Deny(Response::Json(INSUFFICIENT_STORAGE, f.done()))
            } else {
                CheckpointEntry::Proceed(limits)
            }
        },
    }
}

/// The name of a checkpoint: the one asked for, or one made from its identifier.
pub open spec fn name_of_checkpoint(name: Option<Seq<char>>, checkpoint_id: Seq<char>) -> Seq<char> {
    match name {
        Some(n) => n,
        None => short_name_text("checkpoint-"@, checkpoint_id),
    }
}

/// The name of a checkpoint.
pub fn checkpoint_name(name: &Option<String>, checkpoint_id: &str) -> (r: String)
    requires
        checkpoint_id@.len() >= 8,
    ensures
        r@ == name_of_checkpoint(maybe_owned(*name), checkpoint_id@),
{
    match name {
        Some(n) => n.clone(),
        None => short_name("checkpoint-", checkpoint_id),
    }
}

/// The answer to a request for a checkpoint that was admitted: the attempt gives
/// its size and an error, and `stored` whether its record was kept.
pub open spec fn checkpoint_made(
    checkpoint_id: Seq<char>,
    name: Seq<char>,
    attempt: Attempt<(u64, Option<String>)>,
    stored: bool,
    limits: PlanLimits,
    used: u64,
) -> ResponseV {
    match attempt {
        Attempt::NoSession => ResponseV::Status(NOT_FOUND),
        Attempt::Busy => ResponseV::Status(LOCKED),
        Attempt::Ran((size, Some(e))) => ResponseV::Json(OK, error_object(e@)),
        Attempt::Ran((size, None)) => if !stored {
            ResponseV::Status(INTERNAL_SERVER_ERROR)
        } else {
            ResponseV::Json(
                OK,
                JsonV::Obj(
                    map![
                        "checkpoint_id"@ => JsonV::Str(checkpoint_id),
                        "name"@ => JsonV::Str(name),
                        "size_bytes"@ => JsonV::Int(size as int),
                        "expires_in_days"@ => JsonV::Int(limits.checkpoint_retention_days as int),
                        "storage_used_mb"@ => JsonV::Int((used + size) / MEGABYTE as int),
                        "storage_limit_mb"@ => JsonV::Int(limits.checkpoint_storage_bytes as int / MEGABYTE as int),
                    ],
                ),
            )
        },
    }
}

/// The answer to a request for a checkpoint that was admitted.
pub fn create_checkpoint(
    checkpoint_id: &str,
    name: &str,
    attempt: &Attempt<(u64, Option<String>)>,
    stored: bool,
    limits: PlanLimits,
    used: u64,
) -> (r: Response)
    ensures
        r@ == checkpoint_made(checkpoint_id@, name@, *attempt, stored, limits, used),
{
    match attempt {
        Attempt::NoSession => Response::Status(NOT_FOUND),
        Attempt::Busy => Response::Status(LOCKED),
        Attempt::Ran((size, Some(e))) => Response::Json(OK, error_json(e.as_str())),
        Attempt::Ran((size, None)) => {
            if !stored {
                return Response::Status(INTERNAL_SERVER_ERROR);
            }
            let total: u128 = (used as u128 + *size as u128) / MEGABYTE as u128;
            let mut f: Fields = Fields::new();
            f.put_text("checkpoint_id", checkpoint_id);
            f.put_text("name", name);
            f.put_u64("size_bytes", *size);
            f.put_u64("expires_in_days", limits.checkpoint_retention_days as u64);
            f.put_u64("storage_used_mb", total as u64);
            f.put_u64("storage_limit_mb", limits.checkpoint_storage_bytes / MEGABYTE);
            Response::Json(OK, f.done())
        },
    }
}

/// The answer to a request to restore a checkpoint, given whether it carries a
/// key, names a session and a checkpoint of the key, and what came of it.
pub fn restore_checkpoint(
    keyed: bool,
    session_found: bool,
    record_found: bool,
    attempt: &Attempt<(Vec<String>, Option<String>)>,
) -> (r: Response)
    ensures
        r@ == if !keyed {
            ResponseV::Status(UNAUTHORIZED)
        } else if !session_found || !record_found {
            ResponseV::Status(NOT_FOUND)
        } else {
            match attempt {
                Attempt::NoSession => ResponseV::Status(NOT_FOUND),
                Attempt::Busy => ResponseV::Status(LOCKED),
                Attempt::Ran((vars, e)) => ResponseV::Json(
                    OK,
                    JsonV::Obj(
                        map![
                            "restored"@ => JsonV::Bool(e is None),
                            "vars"@ => text_array(texts(vars@)),
                            "error"@ => opt_text(*e),
                        ],
                    ),
                ),
            }
        },
{
    if !keyed {
        return Response::Status(UNAUTHORIZED);
    }
    if !session_found || !record_found {
        return Response::Status(NOT_FOUND);
    }
    match attempt {
        Attempt::NoSession => Response::Status(NOT_FOUND),
        Attempt::Busy => Response::Status(LOCKED),
        Attempt::Ran((vars, e)) => {
            let mut f: Fields = Fields::new();
            f.put_bool("restored", e.is_none());
            f.put_texts("vars", vars);
            f.put_opt("error", e);
            Response::Json(OK, f.done())
        },
    }
}

/// The answer to a list of checkpoints, given whether the request carries a key.
pub fn list_checkpoints(keyed: bool, list: &Vec<CheckpointInfo>) -> (r: Response)
    ensures
        r@ == if !keyed {
            ResponseV::Status(UNAUTHORIZED)
        } else {
            ResponseV::Json(
                OK,
                JsonV::Obj(
                    map!["checkpoints"@ => JsonV::Arr(Seq::new(list@.len(), |i: int| checkpoint_value(list@[i])))],
                ),
            )
        },
{
    if !keyed {
        return Response::Status(UNAUTHORIZED);
    }
    let mut f: Fields = Fields::new();
    f.put("checkpoints", checkpoints_json(list));
    Response::Json(OK, f.done())
}

/// The answer to the deletion of a checkpoint, given whether the request carries
/// a key, its checkpoint was found, and it was deleted.
pub fn delete_checkpoint(keyed: bool, found: bool, deleted: bool) -> (r: Response)
    ensures
        r@ == if !keyed {
            ResponseV::Status(UNAUTHORIZED)
        } else if found && deleted {
            ResponseV::Json(OK, JsonV::Obj(map!["deleted"@ => JsonV::Bool(true)]))
        } else {
            ResponseV::Status(NOT_FOUND)
        },
{
    if !keyed {
        return Response::Status(UNAUTHORIZED);
    }
    if found && deleted {
        let mut f: Fields = Fields::new();
        f.put_bool("deleted", true);
        Response::Json(OK, f.done())
    } else {
        Response::Status(NOT_FOUND)
    }
}

// ── Files ───────────────────────────────────────────────

/// A file that may be written.
pub struct Upload {
    pub name: String,
    pub path: String,
    pub content: Vec<u8>,
}

/// A file that may be written: its name, path and content; or why it may not.
pub open spec fn upload_plan(workspace: Option<Seq<char>>, filename: Seq<char>, content: Seq<char>) -> Result<
    (Seq<char>, Seq<char>, Seq<u8>),
    ResponseV,
> {
    match workspace {
        None => Err(ResponseV::Status(NOT_FOUND)),
        Some(w) => match (file_name_of(filename), base64_bytes(content)) {
            (Some(name), Some(bytes)) => Ok((name, joined(w, name), bytes)),
            _ => Err(ResponseV::Status(BAD_REQUEST)),
        },
    }
}

/// Plans an upload into the workspace of a session, where there is one: the file
/// is named by the last part of `filename` and its content is base64.
pub fn upload_file(workspace: Option<&str>, filename: &str, content: &str) -> (r: Result<Upload, Response>)
    ensures
        match r {
            Ok(u) => upload_plan(maybe(workspace), filename@, content@) == Ok::<
                (Seq<char>, Seq<char>, Seq<u8>),
                ResponseV,
            >((u.name@, u.path@, u.content@)),
            Err(x) => upload_plan(maybe(workspace), filename@, content@) == Err::<
                (Seq<char>, Seq<char>, Seq<u8>),
                ResponseV,
            >(x@),
        },
{
    match workspace {
        None => Err(Response::Status(NOT_FOUND)),
        Some(w) => match file_name(filename) {
            None => Err(Response::Status(BAD_REQUEST)),
            Some(name) => match base64_decode(content) {
                None => Err(Response::Status(BAD_REQUEST)),
                Some(bytes) => {
                    let path: String = join_path(w, name.as_str());
                    Ok(Upload { name, path, content: bytes })
                },
            },
        },
    }
}

/// The answer to an upload, given whether it was written.
pub fn uploaded(upload: &Upload, written: bool) -> (r: Response)
    ensures
        r@ == if written {
            ResponseV::Json(
                OK,
                JsonV::Obj(
                    map![
                        "uploaded"@ => JsonV::Str(upload.name@),
                        "size_bytes"@ => JsonV::Int(upload.content@.len() as int),
                    ],
                ),
            )
        } else {
            ResponseV::Status(INTERNAL_SERVER_ERROR)
        },
{
    if !written {
        return Response::Status(INTERNAL_SERVER_ERROR);
    }
    let mut f: Fields = Fields::new();
    f.put_text("uploaded", upload.name.as_str());
    f.put_u64("size_bytes", upload.content.len() as u64);
    Response::Json(OK, f.done())
}

/// A file that may be read: its name and path; or why it may not.
pub open spec fn read_plan(workspace: Option<Seq<char>>, filename: Seq<char>) -> Result<(Seq<char>, Seq<char>), ResponseV> {
    match workspace {
        None => Err(ResponseV::Status(NOT_FOUND)),
        Some(w) => match file_name_of(filename) {
            Some(name) => Ok((name, joined(w, name))),
            None => Err(ResponseV::Status(BAD_REQUEST)),
        },
    }
}

/// Plans a read from the workspace of a session, where there is one. The result
/// is the name and the path of the file.
pub fn read_file(workspace: Option<&str>, filename: &str) -> (r: Result<(String, String), Response>)
    ensures
        match r {
            Ok((name, path)) => read_plan(maybe(workspace), filename@) == Ok::<(Seq<char>, Seq<char>), ResponseV>(
                (name@, path@),
            ),
            Err(x) => read_plan(maybe(workspace), filename@) == Err::<(Seq<char>, Seq<char>), ResponseV>(x@),
        },
{
    match workspace {
        None => Err(Response::Status(NOT_FOUND)),
        Some(w) => match file_name(filename) {
            None => Err(Response::Status(BAD_REQUEST)),
            Some(name) => {
                let path: String = join_path(w, name.as_str());
                Ok((name, path))
            },
        },
    }
}

/// What reading a file gave.
pub enum FileContent {
    Missing,
    Unreadable,
    Bytes(Vec<u8>),
}

/// The answer to a read. The content that is answered decodes to the content of
/// the file.
pub fn file_read(name: &str, content: &FileContent) -> (r: Response)
    ensures
        r@ == match content {
            FileContent::Missing => ResponseV::Status(NOT_FOUND),
            FileContent::Unreadable => ResponseV::Status(INTERNAL_SERVER_ERROR),
            FileContent::Bytes(b) => ResponseV::Json(
                OK,
                JsonV::Obj(
                    map![
                        "filename"@ => JsonV::Str(name@),
                        "content_base64"@ => JsonV::Str(base64_text(b@)),
                        "size_bytes"@ => JsonV::Int(b@.len() as int),
                    ],
                ),
            ),
        },
        content matches FileContent::Bytes(b) ==> base64_bytes(base64_text(b@)) == Some(b@),
{
    match content {
        FileContent::Missing => Response::Status(NOT_FOUND),
        FileContent::Unreadable => Response::Status(INTERNAL_SERVER_ERROR),
        FileContent::Bytes(b) => {
            let encoded: String = base64_encode(b.as_slice());
            let mut f: Fields = Fields::new();
            f.put_text("filename", name);
            f.put_text("content_base64", encoded.as_str());
            f.put_u64("size_bytes", b.len() as u64);
            Response::Json(OK, f.done())
        },
    }
}

/// Law: an upload and a read with the same file name use the same file of the
/// workspace.
pub proof fn law_read_finds_the_upload(workspace: Seq<char>, filename: Seq<char>, content: Seq<char>)
    requires
        upload_plan(Some(workspace), filename, content) is Ok,
    ensures
        read_plan(Some(workspace), filename) is Ok,
        read_plan(Some(workspace), filename)->Ok_0.0 == upload_plan(Some(workspace), filename, content)->Ok_0.0,
        read_plan(Some(workspace), filename)->Ok_0.1 == upload_plan(Some(workspace), filename, content)->Ok_0.1,
{
}

/// Law: what is uploaded stays in the workspace: its path is the workspace, a
/// `/`, and a name that holds none and is neither `.` nor `..`.
pub proof fn law_upload_stays_in_the_workspace(workspace: Seq<char>, filename: Seq<char>, content: Seq<char>)
    requires
        workspace.len() > 0,
        workspace.last() != '/',
        upload_plan(Some(workspace), filename, content) is Ok,
    ensures
        ({
            let (name, path, bytes) = upload_plan(Some(workspace), filename, content)->Ok_0;
            &&& path == workspace + "/"@ + name
            &&& name.len() > 0
            &&& !name.contains('/')
            &&& name != "."@
            &&& name != ".."@
        }),
{
    crate::path::law_file_name_stays_inside(filename);
    crate::path::law_joined_file_name(workspace, filename);
}

// ── Keys ────────────────────────────────────────────────

/// The tier of a new key: the one asked for, or the free one.
pub fn key_tier(tier: Option<String>) -> (r: String)
    ensures
        r@ == match tier {
            Some(t) => t@,
            None => "free"@,
        },
{
    match tier {
        Some(t) => t,
        None => "free".to_owned(),
    }
}

/// The answer to a request for a key, given whether it was stored.
pub fn create_api_key(key: &str, name: &str, tier: &str, now: &str, stored: bool) -> (r: Response)
    ensures
        r@ == if stored {
            ResponseV::Json(
                CREATED,
                JsonV::Obj(
                    map![
                        "key"@ => JsonV::Str(key@),
                        "name"@ => JsonV::Str(name@),
                        "tier"@ => JsonV::Str(tier@),
                        "created_at"@ => JsonV::Str(now@),
                    ],
                ),
            )
        } else {
            ResponseV::Status(INTERNAL_SERVER_ERROR)
        },
{
    if !stored {
        return Response::Status(INTERNAL_SERVER_ERROR);
    }
    let mut f: Fields = Fields::new();
    f.put_text("key", key);
    f.put_text("name", name);
    f.put_text("tier", tier);
    f.put_text("created_at", now);
    Response::Json(CREATED, f.done())
}

/// The answer to a list of keys.
pub fn list_api_keys(keys: &Vec<KeyRecord>) -> (r: Json)
    ensures
        r@ == JsonV::Arr(Seq::new(keys@.len(), |i: int| key_value(keys@[i]))),
{
    keys_json(keys)
}

/// The answer to a revocation, given how many keys it changed.
pub fn revoke_api_key(key: &str, changed: usize) -> (r: Response)
    ensures
        r@ == if changed > 0 {
            ResponseV::Json(OK, JsonV::Obj(map!["revoked"@ => JsonV::Bool(true), "key"@ => JsonV::Str(key@)]))
        } else {
            ResponseV::Json(NOT_FOUND, error_object("key not found"@))
        },
{
    if changed > 0 {
        let mut f: Fields = Fields::new();
        f.put_bool("revoked", true);
        f.put_text("key", key);
        Response::Json(OK, f.done())
    } else {
        Response::Json(NOT_FOUND, error_json("key not found"))
    }
}

// ── Discovery files ─────────────────────────────────────

/// The fragments that can be asked for.
pub open spec fn is_fragment(name: Seq<char>) -> bool {
    name == "exec.cuntext"@ || name == "checkpoint.cuntext"@ || name == "swarm.cuntext"@ || name == "workspace.cuntext"@
        || name == "billing.cuntext"@ || name == "errors.cuntext"@
}

/// Whether a fragment is served: its name leads out of no directory, ends as
/// fragments do, and is known.
pub open spec fn served(name: Seq<char>) -> bool {
    !name.contains('/') && !occurs(name, ".."@) && ".cuntext"@.is_suffix_of(name) && is_fragment(name)
}

/// Whether a fragment is served.
pub fn cuntext_fragment(name: &str) -> (r: bool)
    ensures
        r == served(name@),
{
    if contains_char(name, '/') || contains_text(name, "..") || !ends_with(name, ".cuntext") {
        return false;
    }
    same(name, "exec.cuntext") || same(name, "checkpoint.cuntext") || same(name, "swarm.cuntext") || same(
        name,
        "workspace.cuntext",
    ) || same(name, "billing.cuntext") || same(name, "errors.cuntext")
}

// ── GitHub login ────────────────────────────────────────

/// A configured text, or a default.
fn text_or(configured: Option<&str>, default: &str) -> (r: String)
    ensures
        r@ == configured_or(maybe(configured), default@),
{
    match configured {
        Some(s) => s.to_owned(),
        None => default.to_owned(),
    }
}

/// A configured text, or a default.
pub open spec fn configured_or(configured: Option<Seq<char>>, default: Seq<char>) -> Seq<char> {
    match configured {
        Some(s) => s,
        None => default,
    }
}

/// Where a login starts: at GitHub, which sends the user back here. The address
/// that the user came with goes along.
pub fn github_oauth_start(client_id: &str, base_url: Option<&str>, redirect_uri: Option<&str>) -> (r: Response)
    ensures
        r@ == ResponseV::Redirect(
            "https://github.com/login/oauth/authorize?client_id="@ + client_id@ + "&redirect_uri="@ + (configured_or(
                maybe(base_url),
                "http://localhost:8080"@,
            ) + "/v1/auth/github/callback"@) + "&scope=read:user&state="@ + configured_or(maybe(redirect_uri), Seq::empty()),
        ),
{
    let mut callback: String = text_or(base_url, "http://localhost:8080");
    callback.append("/v1/auth/github/callback");
    let mut url: String = "https://github.com/login/oauth/authorize?client_id=".to_owned();
    url.append(client_id);
    url.append("&redirect_uri=");
    url.append(callback.as_str());
    url.append("&scope=read:user&state=");
    match redirect_uri {
        Some(s) => url.append(s),
        None => {
            proof {
                assert(url@ + Seq::<char>::empty() =~= url@);
            }
        },
    }
    Response::Redirect(url)
}

/// What is sent to GitHub for a token.
pub open spec fn token_request(client_id: Seq<char>, client_secret: Seq<char>, code: Seq<char>) -> JsonV {
    JsonV::Obj(
        map![
            "client_id"@ => JsonV::Str(client_id),
            "client_secret"@ => JsonV::Str(client_secret),
            "code"@ => JsonV::Str(code),
        ],
    )
}

/// What is sent to GitHub for a token.
pub fn github_token_request(client_id: &str, client_secret: &str, code: &str) -> (r: Json)
    ensures
        r@ == token_request(client_id@, client_secret@, code@),
{
    let mut f: Fields = Fields::new();
    f.put_text("client_id", client_id);
    f.put_text("client_secret", client_secret);
    f.put_text("code", code);
    f.done()
}

/// The token in GitHub's reply.
pub fn github_token(body: &Json) -> (r: Option<String>)
    ensures
        maybe_owned(r) == field_text(body@, "access_token"@),
{
    body.get_string("access_token")
}

/// The login name in GitHub's reply.
pub fn github_login(body: &Json) -> (r: Option<String>)
    ensures
        maybe_owned(r) == field_text(body@, "login"@),
{
    body.get_string("login")
}

/// Where a user goes after a login: back to the address that the login came
/// with, where that starts with `http://localhost`, or to the dashboard.
pub open spec fn login_target(frontend: Seq<char>, state: Option<Seq<char>>) -> Seq<char> {
    match state {
        Some(s) => if "http://localhost"@.is_prefix_of(s) {
            s
        } else {
            frontend + "/dashboard"@
        },
        None => frontend + "/dashboard"@,
    }
}

/// The answer to a login: an error page without a login name, and otherwise the
/// target with the key and the name in its query.
pub open spec fn login_answer(
    frontend: Seq<char>,
    state: Option<Seq<char>>,
    login: Option<(Seq<char>, Seq<char>)>,
) -> ResponseV {
    match login {
        None => ResponseV::Redirect(frontend + "/auth/error?reason=github_error"@),
        Some((name, key)) => {
            let target = login_target(frontend, state);
            let separator = if target.contains('?') {
                "&"@
            } else {
                "?"@
            };
            ResponseV::Redirect(target + separator + "key="@ + key + "&login="@ + name)
        },
    }
}

/// The answer to a login, given the login name and the key, where GitHub gave a
/// name.
pub fn github_oauth_callback(frontend_url: Option<&str>, state: Option<&str>, login: Option<(String, String)>) -> (r: Response)
    ensures
        r@ == login_answer(
            configured_or(maybe(frontend_url), "http://localhost:3000"@),
            maybe(state),
            match login {
                Some((name, key)) => Some((name@, key@)),
                None => None,
            },
        ),
{
    let frontend: String = text_or(frontend_url, "http://localhost:3000");
    match login {
        None => {
            let mut url: String = frontend;
            url.append("/auth/error?reason=github_error");
            Response::Redirect(url)
        },
        Some((name, key)) => {
            let local: bool = match state {
                Some(s) => starts_with(s, "http://localhost"),
                None => false,
            };
            let mut url: String = match state {
                Some(s) => if local {
                    s.to_owned()
                } else {
                    labelled(frontend.as_str(), "/dashboard")
                },
                None => labelled(frontend.as_str(), "/dashboard"),
            };
            let separator: &str = if contains_char(url.as_str(), '?') {
                "&"
            } else {
                "?"
            };
            url.append(separator);
            url.append("key=");
            url.append(key.as_str());
            url.append("&login=");
            url.append(name.as_str());
            Response::Redirect(url)
        },
    }
}

/// Law: a key leaves only for an address that starts as the frontend's does or
/// with `http://localhost`.
pub proof fn law_key_goes_to_frontend_or_localhost(frontend: Seq<char>, state: Option<Seq<char>>, name: Seq<char>, key: Seq<char>)
    ensures
        ({
            let url = login_answer(frontend, state, Some((name, key)))->Redirect_0;
            frontend.is_prefix_of(url) || "http://localhost"@.is_prefix_of(url)
        }),
{
    let target = login_target(frontend, state);
    let url = login_answer(frontend, state, Some((name, key)))->Redirect_0;
    let separator = if target.contains('?') {
        "&"@
    } else {
        "?"@
    };
    assert(url == target + separator + "key="@ + key + "&login="@ + name);
    assert(url.take(target.len() as int) =~= target);
    if target == frontend + "/dashboard"@ {
        assert forall|i: int| 0 <= i < frontend.len() implies url[i] == frontend[i] by {
            assert(url[i] == url.take(target.len() as int)[i]);
        }
        assert(url.subrange(0, frontend.len() as int) =~= frontend);
    } else {
        let p = "http://localhost"@;
        assert(p.is_prefix_of(target));
        assert forall|i: int| 0 <= i < p.len() implies url[i] == p[i] by {
            assert(url[i] == url.take(target.len() as int)[i]);
            assert(target.subrange(0, p.len() as int)[i] == p[i]);
        }
        assert(url.subrange(0, p.len() as int) =~= p);
    }
}

} // verus!
