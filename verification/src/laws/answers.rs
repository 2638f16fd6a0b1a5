//! Laws on what is answered: each figure under its own name, and each refusal
//! by its status.
use vstd::prelude::*;
use vstd::string::*;
use crate::api::routes::{
    checkpoint_entry, checkpoint_made, configured_or, job_news, known_tier, login_answer, name_of_checkpoint,
    pools_value, read_plan, reportable, restore_outcome, served, session_created, session_refusal, session_value,
    status_value, stream_reportable, tallied, time_allowed, token_request, tracking_on, upload_plan, Restore,
};
use crate::billing::{limits_of, plan_name, plan_of, PlanLimits};
use crate::clock::{json_time_text, Timestamp};
use crate::codec::base64_bytes;
use crate::db::ApiKeyInfo;
use crate::http::{
    error_object, Response, ResponseV, ACCEPTED, BAD_REQUEST, CREATED, FORBIDDEN, INSUFFICIENT_STORAGE,
    INTERNAL_SERVER_ERROR, LOCKED, NOT_FOUND, NO_CONTENT, OK, SERVICE_UNAVAILABLE, TOO_MANY_REQUESTS, UNAUTHORIZED,
};
use crate::json::{field, JsonV};
use crate::laws::{has_just, law_strings_of_a_list, or_null, string_list};
use crate::path::{file_name_of, joined};
use crate::runtime::{ExecutionResult, ExecutionV};
use crate::sandbox::{tokens_without_sandbox, touched, Attempt, SessionInfo, SessionStatusV, SessionV};
use crate::text::{maybe_owned, occurs, texts};

verus! {

/// Law: the statuses are the numbers that HTTP gives them.
pub proof fn law_statuses_are_those_of_http()
    ensures
        OK == 200,
        CREATED == 201,
        ACCEPTED == 202,
        NO_CONTENT == 204,
        BAD_REQUEST == 400,
        UNAUTHORIZED == 401,
        FORBIDDEN == 403,
        NOT_FOUND == 404,
        LOCKED == 423,
        TOO_MANY_REQUESTS == 429,
        INTERNAL_SERVER_ERROR == 500,
        SERVICE_UNAVAILABLE == 503,
        INSUFFICIENT_STORAGE == 507,
{
}

/// Law: a response is known by its status and what it carries.
pub proof fn law_responses_keep_their_parts(r: Response)
    ensures
        r matches Response::Json(code, j) ==> r@ == ResponseV::Json(code, j@),
        r matches Response::Text(code, s) ==> r@ == ResponseV::Text(code, s@),
        r matches Response::Status(code) ==> r@ == ResponseV::Status(code),
        r matches Response::Redirect(s) ==> r@ == ResponseV::Redirect(s@),
{
}

/// Law: an error is answered under the name `error`.
pub proof fn law_errors_are_told_by_name(message: Seq<char>)
    ensures
        field(error_object(message), "error"@) == Some(JsonV::Str(message)),
        has_just(error_object(message), set!["error"@]),
{
    reveal_strlit("error");
    assert("error"@.len() == 5);
    assert(error_object(message)->Obj_0.dom() =~= set!["error"@]);
}

/// Law: of the pools with a template each is told with its size, where no two
/// have the same template.
pub proof fn law_pools_are_told_by_template(pools: Seq<(String, usize)>, i: int)
    requires
        0 <= i < pools.len(),
        forall|a: int, b: int| 0 <= a < b < pools.len() ==> (#[trigger] pools[a]).0@ != (#[trigger] pools[b]).0@,
    ensures
        field(JsonV::Obj(pools_value(pools)), pools[i].0@) == Some(JsonV::Int(pools[i].1 as int)),
        pools_value(Seq::empty()) == Map::<Seq<char>, JsonV>::empty(),
    decreases pools.len(),
{
    if i < pools.len() - 1 {
        let front = pools.drop_last();
        assert(front[i] == pools[i]);
        law_pools_are_told_by_template(front, i);
        assert(pools[i].0@ != pools.last().0@);
    }
}

/// Law: tokens are counted unless the setting is `0` or `false`, in whatever case.
pub proof fn law_tokens_are_counted_unless_switched_off(v: Seq<char>)
    ensures
        tracking_on(None),
        !tracking_on(Some("0"@)),
        !tracking_on(Some("false"@)),
        !tracking_on(Some("False"@)),
        !tracking_on(Some("FALSE"@)),
        tracking_on(Some(Seq::empty())),
        v.len() != 1 && v.len() != 5 ==> tracking_on(Some(v)),
        v.len() == 1 && v[0] != '0' ==> tracking_on(Some(v)),
        v.len() == 5 && v[0] != 'f' && v[0] != 'F' ==> tracking_on(Some(v)),
        v.len() == 5 && v[1] != 'a' && v[1] != 'A' ==> tracking_on(Some(v)),
        v.len() == 5 && v[2] != 'l' && v[2] != 'L' ==> tracking_on(Some(v)),
        v.len() == 5 && v[3] != 's' && v[3] != 'S' ==> tracking_on(Some(v)),
        v.len() == 5 && v[4] != 'e' && v[4] != 'E' ==> tracking_on(Some(v)),
{
    reveal_strlit("0");
    reveal_strlit("false");
    reveal_strlit("False");
    reveal_strlit("FALSE");
    assert("0"@.len() == 1);
    assert("0"@[0] == '0');
}

/// Law: a key may have as many sessions as its plan allows: the next one is refused
/// with status 429, its plan, its sessions and its limit, and any other is not.
pub proof fn law_session_limit_is_the_plan_s(tier: Seq<char>, active: usize)
    ensures
        active < limits_of(plan_of(tier)).concurrent_sessions ==> session_refusal(Some(tier), active) is None,
        active >= limits_of(plan_of(tier)).concurrent_sessions ==> (
            session_refusal(Some(tier), active) matches Some(ResponseV::Json(429, v))
                && field(v, "error"@) == Some(JsonV::Str("Concurrent session limit reached"@))
                && field(v, "plan"@) == Some(JsonV::Str(plan_name(plan_of(tier))))
                && field(v, "sessions_active"@) == Some(JsonV::Int(active as int))
                && field(v, "sessions_limit"@) == Some(
                    JsonV::Int(limits_of(plan_of(tier)).concurrent_sessions as int),
                )
                && field(v, "upgrade"@) == Some(JsonV::Str("https://compute.deep-ml.com/dashboard"@))
        ),
        session_refusal(None, active) is None,
{
    reveal_strlit("error");
    reveal_strlit("plan");
    reveal_strlit("sessions_active");
    reveal_strlit("sessions_limit");
    reveal_strlit("upgrade");
    assert("error"@.len() == 5);
    assert("plan"@.len() == 4);
    assert("sessions_active"@.len() == 15);
    assert("sessions_limit"@.len() == 14);
    assert("upgrade"@.len() == 7);
}

/// Law: an execution may take as long as the plan of its key allows and five seconds
/// more; without a known key that of the hobby plan.
pub proof fn law_execution_time_is_the_plan_s(tier: Seq<char>)
    ensures
        time_allowed(Some(tier)) == limits_of(plan_of(tier)).max_execution_secs + 5,
        time_allowed(None) == 35,
{
}

/// Law: a checkpoint is restored where one is asked for under a key and is recorded;
/// one that is not recorded is told as missing, and what came of the restoration is
/// kept as it is.
pub proof fn law_restoration_of_a_request(
    id: String,
    keyed: bool,
    recorded: bool,
    vars: Vec<String>,
    e: Option<String>,
    outcome: Option<(Vec<String>, Option<String>)>,
)
    ensures
        restore_outcome(None, keyed, recorded, outcome) is Skipped,
        restore_outcome(Some(id), false, recorded, outcome) is Skipped,
        restore_outcome(Some(id), true, false, outcome) == Restore::Missing(id),
        restore_outcome(Some(id), true, true, None) is Skipped,
        restore_outcome(Some(id), true, true, Some((vars, e))) == Restore::Done(vars, e),
{
}

/// Law: a session that was created is answered by name: its id, when it was created and
/// when it ends, where it works, what its installation printed and reported, and what
/// came of its checkpoint.
pub proof fn law_session_is_answered_by_name(
    info: SessionInfo,
    installed: Option<ExecutionV>,
    restore: Restore,
)
    ensures
        session_created(Ok(info), installed, restore) == ResponseV::Json(
            201,
            session_value(info, installed, restore),
        ),
        field(session_value(info, installed, restore), "session_id"@) == Some(JsonV::Str(info.session_id@)),
        field(session_value(info, installed, restore), "created_at"@) == Some(
            JsonV::Str(json_time_text(info.created_at.secs, info.created_at.nanos)),
        ),
        field(session_value(info, installed, restore), "expires_at"@) == Some(
            JsonV::Str(json_time_text(info.expires_at.secs, info.expires_at.nanos)),
        ),
        field(session_value(info, installed, restore), "workspace_path"@) == Some(JsonV::Str(info.workspace_path@)),
        field(session_value(info, installed, restore), "install_output"@) == Some(
            match installed { Some(x) => JsonV::Str(x.stdout), None => JsonV::Null },
        ),
        field(session_value(info, installed, restore), "install_error"@) == Some(
            match installed { Some(x) => or_null(x.error), None => JsonV::Null },
        ),
        field(session_value(info, installed, restore), "restore_vars"@) == Some(
            match restore { Restore::Done(vars, e) => string_list(texts(vars@)), _ => JsonV::Null },
        ),
        field(session_value(info, installed, restore), "restore_error"@) == Some(
            match restore {
                Restore::Skipped => JsonV::Null,
                Restore::Missing(id) => JsonV::Str("Checkpoint '"@ + id@ + "' not found"@),
                Restore::Done(vars, e) => or_null(maybe_owned(e)),
            },
        ),
        has_just(
            session_value(info, installed, restore),
            set![
                "session_id"@, "created_at"@, "expires_at"@, "workspace_path"@, "install_output"@,
                "install_error"@, "restore_vars"@, "restore_error"@,
            ],
        ),
{
    if let Restore::Done(vars, e) = restore {
        law_strings_of_a_list(texts(vars@));
    }
    reveal_strlit("session_id");
    reveal_strlit("created_at");
    reveal_strlit("expires_at");
    reveal_strlit("workspace_path");
    reveal_strlit("install_output");
    reveal_strlit("install_error");
    reveal_strlit("restore_vars");
    reveal_strlit("restore_error");
    assert("session_id"@.len() == 10);
    assert("created_at"@.len() == 10);
    assert("expires_at"@.len() == 10);
    assert("workspace_path"@.len() == 14);
    assert("install_output"@.len() == 14);
    assert("install_error"@.len() == 13);
    assert("restore_vars"@.len() == 12);
    assert("restore_error"@.len() == 13);
    assert("session_id"@[0] != "created_at"@[0]);
    assert("session_id"@[0] != "expires_at"@[0]);
    assert("created_at"@[0] != "expires_at"@[0]);
    assert("workspace_path"@[0] != "install_output"@[0]);
    assert("install_error"@[0] != "restore_error"@[0]);
    assert(session_value(info, installed, restore)->Obj_0.dom() =~= set![
        "session_id"@, "created_at"@, "expires_at"@, "workspace_path"@, "install_output"@, "install_error"@,
        "restore_vars"@, "restore_error"@,
    ]);
}

/// Law: a session that was not created is answered with status 500 and the reason.
pub proof fn law_failed_session_is_answered(e: String, installed: Option<ExecutionV>, restore: Restore)
    ensures
        session_created(Err(e), installed, restore) matches ResponseV::Json(500, v)
            && field(v, "error"@) == Some(JsonV::Str("Failed to create session: "@ + e@)),
{
}

/// Law: the status of a session is answered by name.
pub proof fn law_status_is_answered_by_name(s: SessionStatusV)
    ensures
        field(status_value(s), "active"@) == Some(JsonV::Bool(s.active)),
        field(status_value(s), "ttl_remaining"@) == Some(JsonV::Int(s.ttl_remaining)),
        field(status_value(s), "calls_used"@) == Some(JsonV::Int(s.calls_used as int)),
        field(status_value(s), "session_id"@) == Some(JsonV::Str(s.session_id)),
        has_just(status_value(s), set!["active"@, "ttl_remaining"@, "calls_used"@, "session_id"@]),
{
    reveal_strlit("active");
    reveal_strlit("ttl_remaining");
    reveal_strlit("calls_used");
    reveal_strlit("session_id");
    assert("active"@.len() == 6);
    assert("ttl_remaining"@.len() == 13);
    assert("calls_used"@.len() == 10);
    assert("session_id"@.len() == 10);
    assert("calls_used"@[0] != "session_id"@[0]);
    assert(status_value(s)->Obj_0.dom() =~= set!["active"@, "ttl_remaining"@, "calls_used"@, "session_id"@]);
}

/// Law: what is posted of a job has each part of the execution under its own name, and
/// says `error` where there is one and else `done`.
pub proof fn law_job_news_by_name(id: Seq<char>, x: ExecutionResult)
    ensures
        field(job_news(id, x), "job_id"@) == Some(JsonV::Str(id)),
        field(job_news(id, x), "status"@) == Some(JsonV::Str(if x.error is Some { "error"@ } else { "done"@ })),
        field(job_news(id, x), "stdout"@) == Some(JsonV::Str(x.stdout@)),
        field(job_news(id, x), "result"@) == Some(or_null(maybe_owned(x.result))),
        field(job_news(id, x), "error"@) == Some(or_null(maybe_owned(x.error))),
        field(job_news(id, x), "plots"@) == Some(string_list(texts(x.plots@))),
        field(job_news(id, x), "html"@) == Some(or_null(maybe_owned(x.html))),
        field(job_news(id, x), "duration_ms"@) == Some(JsonV::Int(x.duration_ms as int)),
        has_just(
            job_news(id, x),
            set!["job_id"@, "status"@, "stdout"@, "result"@, "error"@, "plots"@, "html"@, "duration_ms"@],
        ),
{
    law_strings_of_a_list(texts(x.plots@));
    reveal_strlit("job_id");
    reveal_strlit("status");
    reveal_strlit("stdout");
    reveal_strlit("result");
    reveal_strlit("error");
    reveal_strlit("plots");
    reveal_strlit("html");
    reveal_strlit("duration_ms");
    assert("job_id"@.len() == 6);
    assert("status"@.len() == 6);
    assert("stdout"@.len() == 6);
    assert("result"@.len() == 6);
    assert("error"@.len() == 5);
    assert("plots"@.len() == 5);
    assert("html"@.len() == 4);
    assert("duration_ms"@.len() == 11);
    assert("job_id"@[0] != "status"@[0]);
    assert("job_id"@[0] != "stdout"@[0]);
    assert("job_id"@[0] != "result"@[0]);
    assert("status"@[2] != "stdout"@[2]);
    assert("status"@[0] != "result"@[0]);
    assert("stdout"@[0] != "result"@[0]);
    assert("error"@[0] != "plots"@[0]);
    assert(job_news(id, x)->Obj_0.dom() =~= set![
        "job_id"@, "status"@, "stdout"@, "result"@, "error"@, "plots"@, "html"@, "duration_ms"@,
    ]);
}

/// Law: a checkpoint may be made under a known key of a session that is there, while
/// the key uses less storage than its plan has; at the limit it is refused with status
/// 507 and both figures in megabytes.
pub proof fn law_checkpoints_stay_within_the_storage(
    tier: Seq<char>,
    used: u64,
    found: bool,
    any: Option<Seq<char>>,
)
    ensures
        checkpoint_entry(false, found, any, used) == Err::<PlanLimits, ResponseV>(ResponseV::Status(401)),
        checkpoint_entry(true, false, any, used) == Err::<PlanLimits, ResponseV>(ResponseV::Status(404)),
        checkpoint_entry(true, true, None, used) == Err::<PlanLimits, ResponseV>(ResponseV::Status(401)),
        used < limits_of(plan_of(tier)).checkpoint_storage_bytes
            ==> checkpoint_entry(true, true, Some(tier), used) == Ok::<PlanLimits, ResponseV>(
                limits_of(plan_of(tier)),
            ),
        used >= limits_of(plan_of(tier)).checkpoint_storage_bytes ==> (
            checkpoint_entry(true, true, Some(tier), used) matches Err(ResponseV::Json(507, v))
                && field(v, "error"@) == Some(JsonV::Str("Checkpoint storage quota exceeded"@))
                && field(v, "used_mb"@) == Some(JsonV::Int(used as int / 1048576))
                && field(v, "limit_mb"@) == Some(
                    JsonV::Int(limits_of(plan_of(tier)).checkpoint_storage_bytes as int / 1048576),
                )
                && field(v, "plan"@) == Some(JsonV::Str(tier))
                && field(v, "fix"@) == Some(JsonV::Str("Delete old checkpoints or upgrade your plan"@))
                && field(v, "upgrade"@) == Some(JsonV::Str("https://compute.deep-ml.com/billing"@))
        ),
{
    reveal_strlit("error");
    reveal_strlit("used_mb");
    reveal_strlit("limit_mb");
    reveal_strlit("plan");
    reveal_strlit("fix");
    reveal_strlit("upgrade");
    assert("error"@.len() == 5);
    assert("used_mb"@.len() == 7);
    assert("limit_mb"@.len() == 8);
    assert("plan"@.len() == 4);
    assert("fix"@.len() == 3);
    assert("upgrade"@.len() == 7);
    assert("used_mb"@[1] != "upgrade"@[1]);
}

/// Law: a checkpoint has the name that was given, or else one made of the start of its
/// id.
pub proof fn law_checkpoints_are_named(name: Seq<char>, id: Seq<char>)
    ensures
        name_of_checkpoint(Some(name), id) == name,
        name_of_checkpoint(None, id) == "checkpoint-"@ + id.take(8),
{
}

/// Law: a checkpoint that was made and stored is answered with its id, its name and its
/// size, for how long it is kept, and the storage that is used with it; a session that
/// is gone or busy, a failure of the worker and one of the store are told apart.
pub proof fn law_checkpoint_is_answered_by_name(
    id: Seq<char>,
    name: Seq<char>,
    size: u64,
    e: String,
    stored: bool,
    limits: PlanLimits,
    used: u64,
)
    ensures
        checkpoint_made(id, name, Attempt::NoSession, stored, limits, used) == ResponseV::Status(404),
        checkpoint_made(id, name, Attempt::Busy, stored, limits, used) == ResponseV::Status(423),
        checkpoint_made(id, name, Attempt::Ran((size, Some(e))), stored, limits, used)
            matches ResponseV::Json(200, v)
            && field(v, "error"@) == Some(JsonV::Str(e@)),
        checkpoint_made(id, name, Attempt::Ran((size, None)), false, limits, used) == ResponseV::Status(500),
        checkpoint_made(id, name, Attempt::Ran((size, None)), true, limits, used) matches ResponseV::Json(200, v)
            && field(v, "checkpoint_id"@) == Some(JsonV::Str(id))
            && field(v, "name"@) == Some(JsonV::Str(name))
            && field(v, "size_bytes"@) == Some(JsonV::Int(size as int))
            && field(v, "expires_in_days"@) == Some(JsonV::Int(limits.checkpoint_retention_days as int))
            && field(v, "storage_used_mb"@) == Some(JsonV::Int((used + size) / 1048576))
            && field(v, "storage_limit_mb"@) == Some(JsonV::Int(limits.checkpoint_storage_bytes as int / 1048576)),
{
    reveal_strlit("checkpoint_id");
    reveal_strlit("name");
    reveal_strlit("size_bytes");
    reveal_strlit("expires_in_days");
    reveal_strlit("storage_used_mb");
    reveal_strlit("storage_limit_mb");
    assert("checkpoint_id"@.len() == 13);
    assert("name"@.len() == 4);
    assert("size_bytes"@.len() == 10);
    assert("expires_in_days"@.len() == 15);
    assert("storage_used_mb"@.len() == 15);
    assert("storage_limit_mb"@.len() == 16);
    assert("expires_in_days"@[0] != "storage_used_mb"@[0]);
}

/// Law: a file is written below the workspace of its session under its own name, with
/// the bytes that its contents encode; one without a session is refused with status
/// 404, and one without a name, or whose contents encode nothing, with status 400.
pub proof fn law_uploads_are_planned(
    w: Seq<char>,
    file: Seq<char>,
    text: Seq<char>,
    name: Seq<char>,
    bytes: Seq<u8>,
)
    ensures
        upload_plan(None, file, text) == Err::<(Seq<char>, Seq<char>, Seq<u8>), ResponseV>(ResponseV::Status(404)),
        file_name_of(file) is None || base64_bytes(text) is None
            ==> upload_plan(Some(w), file, text) == Err::<(Seq<char>, Seq<char>, Seq<u8>), ResponseV>(
                ResponseV::Status(400),
            ),
        file_name_of(file) == Some(name) && base64_bytes(text) == Some(bytes)
            ==> upload_plan(Some(w), file, text) == Ok::<(Seq<char>, Seq<char>, Seq<u8>), ResponseV>(
                (name, joined(w, name), bytes),
            ),
        read_plan(None, file) == Err::<(Seq<char>, Seq<char>), ResponseV>(ResponseV::Status(404)),
        file_name_of(file) is None
            ==> read_plan(Some(w), file) == Err::<(Seq<char>, Seq<char>), ResponseV>(ResponseV::Status(400)),
        file_name_of(file) == Some(name)
            ==> read_plan(Some(w), file) == Ok::<(Seq<char>, Seq<char>), ResponseV>((name, joined(w, name))),
{
}

/// A name of letters with one dot holds no two dots in a row.
proof fn lemma_no_dots(name: Seq<char>)
    requires
        forall|i: int| 0 <= i < name.len() - 1 ==> !(#[trigger] name[i] == '.' && name[i + 1] == '.'),
        forall|i: int| 0 <= i < name.len() ==> #[trigger] name[i] != '/',
    ensures
        !occurs(name, ".."@),
        !name.contains('/'),
{
    reveal_strlit("..");
    assert forall|i: int| 0 <= i && i + 2 <= name.len() implies #[trigger] name.subrange(i, i + 2) != ".."@ by {
        let cut = name.subrange(i, i + 2);
        assert(cut[0] == name[i] && cut[1] == name[i + 1]);
        assert(!(name[i] == '.' && name[i + 1] == '.'));
    }
}

/// Law: a fragment is served if and only if it is one of the six that there are.
pub proof fn law_fragments_are_the_known_ones(name: Seq<char>)
    ensures
        served(name) <==> (
            name == "exec.cuntext"@
                || name == "checkpoint.cuntext"@
                || name == "swarm.cuntext"@
                || name == "workspace.cuntext"@
                || name == "billing.cuntext"@
                || name == "errors.cuntext"@
        ),
{
    reveal_strlit(".cuntext");
    reveal_strlit("..");
    reveal_strlit("exec.cuntext");
    reveal_strlit("checkpoint.cuntext");
    reveal_strlit("swarm.cuntext");
    reveal_strlit("workspace.cuntext");
    reveal_strlit("billing.cuntext");
    reveal_strlit("errors.cuntext");
    assert(".cuntext"@.is_suffix_of("exec.cuntext"@)) by {
        assert("exec.cuntext"@.subrange(4, 12) =~= ".cuntext"@);
    }
    lemma_no_dots("exec.cuntext"@);
    assert(".cuntext"@.is_suffix_of("checkpoint.cuntext"@)) by {
        assert("checkpoint.cuntext"@.subrange(10, 18) =~= ".cuntext"@);
    }
    lemma_no_dots("checkpoint.cuntext"@);
    assert(".cuntext"@.is_suffix_of("swarm.cuntext"@)) by {
        assert("swarm.cuntext"@.subrange(5, 13) =~= ".cuntext"@);
    }
    lemma_no_dots("swarm.cuntext"@);
    assert(".cuntext"@.is_suffix_of("workspace.cuntext"@)) by {
        assert("workspace.cuntext"@.subrange(9, 17) =~= ".cuntext"@);
    }
    lemma_no_dots("workspace.cuntext"@);
    assert(".cuntext"@.is_suffix_of("billing.cuntext"@)) by {
        assert("billing.cuntext"@.subrange(7, 15) =~= ".cuntext"@);
    }
    lemma_no_dots("billing.cuntext"@);
    assert(".cuntext"@.is_suffix_of("errors.cuntext"@)) by {
        assert("errors.cuntext"@.subrange(6, 14) =~= ".cuntext"@);
    }
    lemma_no_dots("errors.cuntext"@);
}

/// Law: a token is asked for with the id and the secret of the client and the code of
/// the user, each under its own name.
pub proof fn law_token_is_asked_for_by_name(id: Seq<char>, secret: Seq<char>, code: Seq<char>)
    ensures
        field(token_request(id, secret, code), "client_id"@) == Some(JsonV::Str(id)),
        field(token_request(id, secret, code), "client_secret"@) == Some(JsonV::Str(secret)),
        field(token_request(id, secret, code), "code"@) == Some(JsonV::Str(code)),
        has_just(token_request(id, secret, code), set!["client_id"@, "client_secret"@, "code"@]),
{
    reveal_strlit("client_id");
    reveal_strlit("client_secret");
    reveal_strlit("code");
    assert("client_id"@.len() == 9);
    assert("client_secret"@.len() == 13);
    assert("code"@.len() == 4);
    assert(token_request(id, secret, code)->Obj_0.dom() =~= set!["client_id"@, "client_secret"@, "code"@]);
}

/// Law: a login that failed goes to the error page; one that succeeded goes to the
/// dashboard, or to the local address it came from, with the key and the name of the
/// user, each under its own name.
pub proof fn law_login_is_answered(
    front: Seq<char>,
    state: Seq<char>,
    name: Seq<char>,
    key: Seq<char>,
    any: Option<Seq<char>>,
)
    ensures
        login_answer(front, any, None) == ResponseV::Redirect(front + "/auth/error?reason=github_error"@),
        front.contains('?')
            ==> login_answer(front, None, Some((name, key))) == ResponseV::Redirect(
                front + "/dashboard"@ + "&"@ + "key="@ + key + "&login="@ + name,
            ),
        front.contains('?') && !"http://localhost"@.is_prefix_of(state)
            ==> login_answer(front, Some(state), Some((name, key))) == ResponseV::Redirect(
                front + "/dashboard"@ + "&"@ + "key="@ + key + "&login="@ + name,
            ),
        !front.contains('?')
            ==> login_answer(front, None, Some((name, key))) == ResponseV::Redirect(
                front + "/dashboard"@ + "?"@ + "key="@ + key + "&login="@ + name,
            ),
        !front.contains('?') && !"http://localhost"@.is_prefix_of(state)
            ==> login_answer(front, Some(state), Some((name, key))) == ResponseV::Redirect(
                front + "/dashboard"@ + "?"@ + "key="@ + key + "&login="@ + name,
            ),
        "http://localhost"@.is_prefix_of(state) && !state.contains('?')
            ==> login_answer(front, Some(state), Some((name, key))) == ResponseV::Redirect(
                state + "?"@ + "key="@ + key + "&login="@ + name,
            ),
        "http://localhost"@.is_prefix_of(state) && state.contains('?')
            ==> login_answer(front, Some(state), Some((name, key))) == ResponseV::Redirect(
                state + "&"@ + "key="@ + key + "&login="@ + name,
            ),
{
    reveal_strlit("/dashboard");
    let target = front + "/dashboard"@;
    if front.contains('?') {
        let i = choose|i: int| 0 <= i < front.len() && front[i] == '?';
        assert(target[i] == '?');
    }
    if !front.contains('?') && target.contains('?') {
        let i = choose|i: int| 0 <= i < target.len() && target[i] == '?';
        if i < front.len() {
            assert(front[i] == '?');
        } else {
            assert(target[i] == "/dashboard"@[i - front.len()]);
        }
    }
}

/// Law: a setting is what is configured, or else its default.
pub proof fn law_settings_fall_back(a: Seq<char>, default: Seq<char>)
    ensures
        configured_or(Some(a), default) == a,
        configured_or(None, default) == default,
{
}

/// Law: what an execution cost can be told while its figures fit: always where the
/// session counts no tokens, and else while the sum of its tokens and what the session
/// would have cost without a sandbox fit.
pub proof fn law_executions_are_reportable_while_they_fit(s: SessionV, x: ExecutionV, now: Timestamp)
    ensures
        !s.token_tracking ==> reportable(s, x) && stream_reportable(s, x, now),
        s.token_tracking ==> (
            reportable(s, x)
                <==> x.output_tokens + x.state_tokens <= 0xffff_ffff_ffff_ffff
                    && tokens_without_sandbox(tallied(s, x)) <= 0xffff_ffff_ffff_ffff
        ),
        s.token_tracking ==> (
            stream_reportable(s, x, now)
                <==> x.output_tokens + x.state_tokens <= 0xffff_ffff_ffff_ffff
                    && tokens_without_sandbox(touched(tallied(s, x), now)) <= 0xffff_ffff_ffff_ffff
        ),
{
}

/// Law: the tier of a request is that of its key, where it is known.
pub proof fn law_tier_is_the_key_s(i: ApiKeyInfo)
    ensures
        known_tier(Some(&i)) == Some(i.tier@),
        known_tier(None) is None,
{
}

} // verus!
