//! Laws on tools: a call carries each argument under its own name, and a
//! reply tells what came of it.
use vstd::prelude::*;
use vstd::string::*;
use crate::api::mcp::{
    body_step, catalogue, checkpoint_created, checkpoint_deleted, checkpoint_line, checkpoint_restored,
    checkpoints_listed, code_executed, content, err_value, execution_parts, input_schema, job_got, job_parts,
    job_submitted, maybe_texts, message_step, ok_value, packages_installed, param_schema, properties, request_view,
    restore_note, server_info, session_terminated, status_got, text_value, tool_err_value, tool_job_news,
    tool_list_value, tool_request, tool_value, McpStep, McpStepV, ParamV, Submission, ToolRequest, ToolRequestV,
    ToolV,
};
use crate::clock::display_time_text;
use crate::db::{CheckpointInfo, JobRecord};
use crate::http::ResponseV;
use crate::json::{field, json_parse, strings_among, JsonV};
use crate::laws::{has_just, law_strings_of_a_list, or_null, string_list};
use crate::runtime::{ExecutionResult, ExecutionV};
use crate::sandbox::{Attempt, SessionInfo, SessionStatusV};
use crate::text::{dec, dec_int, join, maybe_owned, texts, trim, trim_end};

verus! {

/// Whether `args` has the string `s` under `key`.
pub open spec fn has_string(args: JsonV, key: Seq<char>, s: Seq<char>) -> bool {
    field(args, key) == Some(JsonV::Str(s))
}

/// Whether `args` has a string under `key`.
pub open spec fn has_a_string(args: JsonV, key: Seq<char>) -> bool {
    field(args, key) matches Some(JsonV::Str(_))
}

/// Whether `found` is the string that `args` has under `key`, or none where it
/// has none.
pub open spec fn is_string_of(args: JsonV, key: Seq<char>, found: Option<Seq<char>>) -> bool {
    match found {
        Some(s) => has_string(args, key, s),
        None => !has_a_string(args, key),
    }
}

/// Law: the names of the tools differ.
pub proof fn law_tool_names_differ()
    ensures
        "create_session"@ != "execute_code"@,
        "create_session"@ != "install_packages"@,
        "create_session"@ != "submit_job"@,
        "create_session"@ != "get_job"@,
        "create_session"@ != "session_status"@,
        "create_session"@ != "terminate_session"@,
        "create_session"@ != "create_checkpoint"@,
        "create_session"@ != "restore_checkpoint"@,
        "create_session"@ != "list_checkpoints"@,
        "create_session"@ != "delete_checkpoint"@,
        "execute_code"@ != "install_packages"@,
        "execute_code"@ != "submit_job"@,
        "execute_code"@ != "get_job"@,
        "execute_code"@ != "session_status"@,
        "execute_code"@ != "terminate_session"@,
        "execute_code"@ != "create_checkpoint"@,
        "execute_code"@ != "restore_checkpoint"@,
        "execute_code"@ != "list_checkpoints"@,
        "execute_code"@ != "delete_checkpoint"@,
        "install_packages"@ != "submit_job"@,
        "install_packages"@ != "get_job"@,
        "install_packages"@ != "session_status"@,
        "install_packages"@ != "terminate_session"@,
        "install_packages"@ != "create_checkpoint"@,
        "install_packages"@ != "restore_checkpoint"@,
        "install_packages"@ != "list_checkpoints"@,
        "install_packages"@ != "delete_checkpoint"@,
        "submit_job"@ != "get_job"@,
        "submit_job"@ != "session_status"@,
        "submit_job"@ != "terminate_session"@,
        "submit_job"@ != "create_checkpoint"@,
        "submit_job"@ != "restore_checkpoint"@,
        "submit_job"@ != "list_checkpoints"@,
        "submit_job"@ != "delete_checkpoint"@,
        "get_job"@ != "session_status"@,
        "get_job"@ != "terminate_session"@,
        "get_job"@ != "create_checkpoint"@,
        "get_job"@ != "restore_checkpoint"@,
        "get_job"@ != "list_checkpoints"@,
        "get_job"@ != "delete_checkpoint"@,
        "session_status"@ != "terminate_session"@,
        "session_status"@ != "create_checkpoint"@,
        "session_status"@ != "restore_checkpoint"@,
        "session_status"@ != "list_checkpoints"@,
        "session_status"@ != "delete_checkpoint"@,
        "terminate_session"@ != "create_checkpoint"@,
        "terminate_session"@ != "restore_checkpoint"@,
        "terminate_session"@ != "list_checkpoints"@,
        "terminate_session"@ != "delete_checkpoint"@,
        "create_checkpoint"@ != "restore_checkpoint"@,
        "create_checkpoint"@ != "list_checkpoints"@,
        "create_checkpoint"@ != "delete_checkpoint"@,
        "restore_checkpoint"@ != "list_checkpoints"@,
        "restore_checkpoint"@ != "delete_checkpoint"@,
        "list_checkpoints"@ != "delete_checkpoint"@,
{
    reveal_strlit("create_session");
    reveal_strlit("execute_code");
    reveal_strlit("install_packages");
    reveal_strlit("submit_job");
    reveal_strlit("get_job");
    reveal_strlit("session_status");
    reveal_strlit("terminate_session");
    reveal_strlit("create_checkpoint");
    reveal_strlit("restore_checkpoint");
    reveal_strlit("list_checkpoints");
    reveal_strlit("delete_checkpoint");
    assert("create_session"@.len() == 14);
    assert("execute_code"@.len() == 12);
    assert("install_packages"@.len() == 16);
    assert("submit_job"@.len() == 10);
    assert("get_job"@.len() == 7);
    assert("session_status"@.len() == 14);
    assert("terminate_session"@.len() == 17);
    assert("create_checkpoint"@.len() == 17);
    assert("restore_checkpoint"@.len() == 18);
    assert("list_checkpoints"@.len() == 16);
    assert("delete_checkpoint"@.len() == 17);
    assert("create_session"@[0] != "session_status"@[0]);
    assert("install_packages"@[0] != "list_checkpoints"@[0]);
    assert("terminate_session"@[0] != "create_checkpoint"@[0]);
    assert("terminate_session"@[0] != "delete_checkpoint"@[0]);
    assert("create_checkpoint"@[0] != "delete_checkpoint"@[0]);
}

/// Law: a job that is submitted runs the given code in the given session and posts to
/// the given address, where one is given; without a session or code it is refused by
/// what is missing.
pub proof fn law_submitted_job_carries_its_arguments(args: JsonV, a: Seq<char>, b: Seq<char>)
    ensures
        has_string(args, "session_id"@, a) && has_string(args, "code"@, b) ==> (
            tool_request("submit_job"@, args) matches Ok(ToolRequestV::SubmitJob { session_id, code, webhook_url })
                && session_id == a
                && code == b
                && is_string_of(args, "webhook_url"@, webhook_url)
        ),
        !has_a_string(args, "session_id"@)
            ==> tool_request("submit_job"@, args) == Err::<ToolRequestV, Seq<char>>("Missing session_id"@),
        has_a_string(args, "session_id"@) && !has_a_string(args, "code"@)
            ==> tool_request("submit_job"@, args) == Err::<ToolRequestV, Seq<char>>("Missing code"@),
{
    law_tool_names_differ();
    reveal_strlit("Missing session_id");
    reveal_strlit("session_id");
    reveal_strlit("Missing code");
    reveal_strlit("code");
    reveal_strlit("Missing ");
    assert("Missing session_id"@ =~= "Missing "@ + "session_id"@);
    assert("Missing code"@ =~= "Missing "@ + "code"@);
}

/// Law: code that is executed is the given code, in the given session.
pub proof fn law_executed_code_carries_its_arguments(args: JsonV, a: Seq<char>, b: Seq<char>)
    ensures
        has_string(args, "session_id"@, a) && has_string(args, "code"@, b) ==> (
            tool_request("execute_code"@, args) matches Ok(ToolRequestV::ExecuteCode { session_id, code })
                && session_id == a
                && code == b
        ),
        !has_a_string(args, "session_id"@)
            ==> tool_request("execute_code"@, args) == Err::<ToolRequestV, Seq<char>>("Missing session_id"@),
        has_a_string(args, "session_id"@) && !has_a_string(args, "code"@)
            ==> tool_request("execute_code"@, args) == Err::<ToolRequestV, Seq<char>>("Missing code"@),
{
    law_tool_names_differ();
    reveal_strlit("Missing session_id");
    reveal_strlit("session_id");
    reveal_strlit("Missing code");
    reveal_strlit("code");
    reveal_strlit("Missing ");
    assert("Missing session_id"@ =~= "Missing "@ + "session_id"@);
    assert("Missing code"@ =~= "Missing "@ + "code"@);
}

/// Law: a checkpoint that is restored is the given one, into the given session.
pub proof fn law_restored_checkpoint_carries_its_arguments(args: JsonV, a: Seq<char>, b: Seq<char>)
    ensures
        has_string(args, "session_id"@, a) && has_string(args, "checkpoint_id"@, b) ==> (
            tool_request("restore_checkpoint"@, args)
                matches Ok(ToolRequestV::RestoreCheckpoint { session_id, checkpoint_id })
                && session_id == a
                && checkpoint_id == b
        ),
        !has_a_string(args, "session_id"@)
            ==> tool_request("restore_checkpoint"@, args) == Err::<ToolRequestV, Seq<char>>("Missing session_id"@),
        has_a_string(args, "session_id"@) && !has_a_string(args, "checkpoint_id"@)
            ==> tool_request("restore_checkpoint"@, args) == Err::<ToolRequestV, Seq<char>>(
                "Missing checkpoint_id"@,
            ),
{
    law_tool_names_differ();
    reveal_strlit("Missing session_id");
    reveal_strlit("session_id");
    reveal_strlit("Missing checkpoint_id");
    reveal_strlit("checkpoint_id");
    reveal_strlit("Missing ");
    assert("Missing session_id"@ =~= "Missing "@ + "session_id"@);
    assert("Missing checkpoint_id"@ =~= "Missing "@ + "checkpoint_id"@);
}

/// Law: a checkpoint is made of the given session, under the given name where one is
/// given.
pub proof fn law_created_checkpoint_carries_its_arguments(args: JsonV, a: Seq<char>)
    ensures
        has_string(args, "session_id"@, a) ==> (
            tool_request("create_checkpoint"@, args) matches Ok(ToolRequestV::CreateCheckpoint { session_id, name })
                && session_id == a
                && is_string_of(args, "name"@, name)
        ),
        !has_a_string(args, "session_id"@)
            ==> tool_request("create_checkpoint"@, args) == Err::<ToolRequestV, Seq<char>>("Missing session_id"@),
{
    law_tool_names_differ();
    reveal_strlit("Missing session_id");
    reveal_strlit("session_id");
    reveal_strlit("Missing ");
    assert("Missing session_id"@ =~= "Missing "@ + "session_id"@);
}

/// Law: a job that is asked for is the given one.
pub proof fn law_polled_job_carries_its_arguments(args: JsonV, a: Seq<char>)
    ensures
        has_string(args, "job_id"@, a) ==> (
            tool_request("get_job"@, args) matches Ok(ToolRequestV::GetJob { job_id }) && job_id == a
        ),
        !has_a_string(args, "job_id"@)
            ==> tool_request("get_job"@, args) == Err::<ToolRequestV, Seq<char>>("Missing job_id"@),
{
    law_tool_names_differ();
    reveal_strlit("Missing job_id");
    reveal_strlit("job_id");
    reveal_strlit("Missing ");
    assert("Missing job_id"@ =~= "Missing "@ + "job_id"@);
}

/// Law: a status that is asked for is that of the given session.
pub proof fn law_asked_status_carries_its_arguments(args: JsonV, a: Seq<char>)
    ensures
        has_string(args, "session_id"@, a) ==> (
            tool_request("session_status"@, args) matches Ok(ToolRequestV::SessionStatus { session_id })
                && session_id == a
        ),
        !has_a_string(args, "session_id"@)
            ==> tool_request("session_status"@, args) == Err::<ToolRequestV, Seq<char>>("Missing session_id"@),
{
    law_tool_names_differ();
    reveal_strlit("Missing session_id");
    reveal_strlit("session_id");
    reveal_strlit("Missing ");
    assert("Missing session_id"@ =~= "Missing "@ + "session_id"@);
}

/// Law: a session that is terminated is the given one.
pub proof fn law_terminated_session_carries_its_arguments(args: JsonV, a: Seq<char>)
    ensures
        has_string(args, "session_id"@, a) ==> (
            tool_request("terminate_session"@, args) matches Ok(ToolRequestV::TerminateSession { session_id })
                && session_id == a
        ),
        !has_a_string(args, "session_id"@)
            ==> tool_request("terminate_session"@, args) == Err::<ToolRequestV, Seq<char>>("Missing session_id"@),
{
    law_tool_names_differ();
    reveal_strlit("Missing session_id");
    reveal_strlit("session_id");
    reveal_strlit("Missing ");
    assert("Missing session_id"@ =~= "Missing "@ + "session_id"@);
}

/// Law: a checkpoint that is deleted is the given one.
pub proof fn law_deleted_checkpoint_carries_its_arguments(args: JsonV, a: Seq<char>)
    ensures
        has_string(args, "checkpoint_id"@, a) ==> (
            tool_request("delete_checkpoint"@, args) matches Ok(ToolRequestV::DeleteCheckpoint { checkpoint_id })
                && checkpoint_id == a
        ),
        !has_a_string(args, "checkpoint_id"@)
            ==> tool_request("delete_checkpoint"@, args) == Err::<ToolRequestV, Seq<char>>(
                "Missing checkpoint_id"@,
            ),
{
    law_tool_names_differ();
    reveal_strlit("Missing checkpoint_id");
    reveal_strlit("checkpoint_id");
    reveal_strlit("Missing ");
    assert("Missing checkpoint_id"@ =~= "Missing "@ + "checkpoint_id"@);
}

/// Law: packages are installed into the given session, all of them in order; without a
/// session or a list they are refused by what is missing.
pub proof fn law_installed_packages_carry_their_arguments(args: JsonV, a: Seq<char>, packages: Seq<Seq<char>>)
    ensures
        has_string(args, "session_id"@, a) && field(args, "packages"@) == Some(string_list(packages))
            ==> tool_request("install_packages"@, args) == Ok::<ToolRequestV, Seq<char>>(
                (ToolRequestV::InstallPackages { session_id: a, packages: packages }),
            ),
        !has_a_string(args, "session_id"@)
            ==> tool_request("install_packages"@, args) == Err::<ToolRequestV, Seq<char>>("Missing session_id"@),
        has_string(args, "session_id"@, a) ==> (
            field(args, "packages"@) matches Some(JsonV::Arr(items))
                ==> tool_request("install_packages"@, args) == Ok::<ToolRequestV, Seq<char>>(
                    (ToolRequestV::InstallPackages { session_id: a, packages: strings_among(items) }),
                )
        ),
        has_a_string(args, "session_id"@) && !(field(args, "packages"@) matches Some(JsonV::Arr(_)))
            ==> tool_request("install_packages"@, args) == Err::<ToolRequestV, Seq<char>>("Missing packages"@),
{
    law_tool_names_differ();
    law_strings_of_a_list(packages);
    reveal_strlit("Missing session_id");
    reveal_strlit("session_id");
    reveal_strlit("Missing ");
    assert("Missing session_id"@ =~= "Missing "@ + "session_id"@);
}

/// Law: a session is created for the given time, with the given packages and from the
/// given checkpoint, each where it is given.
pub proof fn law_created_session_carries_its_arguments(args: JsonV, packages: Seq<Seq<char>>, secs: i64)
    ensures
        tool_request("create_session"@, args) matches Ok(ToolRequestV::CreateSession { ttl, install, restore })
            && is_string_of(args, "checkpoint_id"@, restore)
            && (field(args, "packages"@) == Some(string_list(packages)) ==> install == Some(packages))
            && (!(field(args, "packages"@) matches Some(JsonV::Arr(_))) ==> install is None)
            && (field(args, "ttl_seconds"@) == Some(JsonV::Int(secs as int)) ==> ttl == Some(secs))
            && (!(field(args, "ttl_seconds"@) matches Some(JsonV::Int(_))) ==> ttl is None)
            && (
                field(args, "ttl_seconds"@) matches Some(JsonV::Int(n)) ==> (
                    !(i64::MIN <= n <= i64::MAX) ==> ttl is None
                )
            )
            && (field(args, "packages"@) matches Some(JsonV::Arr(items)) ==> install == Some(strings_among(items))),
        tool_request("list_checkpoints"@, args) == Ok::<ToolRequestV, Seq<char>>(ToolRequestV::ListCheckpoints),
{
    law_tool_names_differ();
    law_strings_of_a_list(packages);
}

/// Law: a call is known by what its arguments say.
pub proof fn law_calls_keep_their_names(q: ToolRequest, e: String)
    ensures
        q matches ToolRequest::CreateSession { ttl, install, restore }
            ==> q@ == (
                ToolRequestV::CreateSession {
                    ttl: ttl,
                    install: maybe_texts(install),
                    restore: maybe_owned(restore),
                }
            ),
        q matches ToolRequest::ExecuteCode { session_id, code }
            ==> q@ == (ToolRequestV::ExecuteCode { session_id: session_id@, code: code@ }),
        q matches ToolRequest::InstallPackages { session_id, packages }
            ==> q@ == (ToolRequestV::InstallPackages { session_id: session_id@, packages: texts(packages@) }),
        q matches ToolRequest::SubmitJob { session_id, code, webhook_url }
            ==> q@ == (
                ToolRequestV::SubmitJob {
                    session_id: session_id@,
                    code: code@,
                    webhook_url: maybe_owned(webhook_url),
                }
            ),
        q matches ToolRequest::GetJob { job_id } ==> q@ == (ToolRequestV::GetJob { job_id: job_id@ }),
        q matches ToolRequest::SessionStatus { session_id }
            ==> q@ == (ToolRequestV::SessionStatus { session_id: session_id@ }),
        q matches ToolRequest::TerminateSession { session_id }
            ==> q@ == (ToolRequestV::TerminateSession { session_id: session_id@ }),
        q matches ToolRequest::CreateCheckpoint { session_id, name }
            ==> q@ == (ToolRequestV::CreateCheckpoint { session_id: session_id@, name: maybe_owned(name) }),
        q matches ToolRequest::RestoreCheckpoint { session_id, checkpoint_id }
            ==> q@ == (ToolRequestV::RestoreCheckpoint { session_id: session_id@, checkpoint_id: checkpoint_id@ }),
        q matches ToolRequest::DeleteCheckpoint { checkpoint_id }
            ==> q@ == (ToolRequestV::DeleteCheckpoint { checkpoint_id: checkpoint_id@ }),
        q is ListCheckpoints ==> q@ is ListCheckpoints,
        request_view(Ok(q)) == Ok::<ToolRequestV, Seq<char>>(q@),
        request_view(Err(e)) == Err::<ToolRequestV, Seq<char>>(e@),
{
}

/// Whether a tool's reply says `s` and reports no failure.
pub open spec fn says(v: JsonV, s: Seq<char>) -> bool {
    &&& has_just(v, set!["content"@])
    &&& field(v, "content"@) matches Some(JsonV::Arr(parts)) && parts.len() == 1 && has_just(
        parts[0],
        set!["type"@, "text"@],
    ) && field(parts[0], "type"@) == Some(JsonV::Str("text"@)) && field(parts[0], "text"@) == Some(JsonV::Str(s))
}

/// Whether a tool's reply reports a failure and says why.
pub open spec fn refuses(v: JsonV, s: Seq<char>) -> bool {
    &&& has_just(v, set!["content"@, "isError"@])
    &&& field(v, "isError"@) == Some(JsonV::Bool(true))
    &&& field(v, "content"@) matches Some(JsonV::Arr(parts)) && parts.len() == 1 && has_just(
        parts[0],
        set!["type"@, "text"@],
    ) && field(parts[0], "type"@) == Some(JsonV::Str("text"@)) && field(parts[0], "text"@) == Some(JsonV::Str(s))
}

/// Law: a reply carries its text, and is marked as a failure if and only if it is one.
pub proof fn law_replies_carry_their_text(s: Seq<char>)
    ensures
        says(text_value(s), s),
        refuses(tool_err_value(s), s),
{
    reveal_strlit("content");
    reveal_strlit("isError");
    reveal_strlit("type");
    reveal_strlit("text");
    assert("content"@.len() == 7);
    assert("isError"@.len() == 7);
    assert("type"@.len() == 4);
    assert("text"@.len() == 4);
    assert("content"@[0] != "isError"@[0]);
    assert("type"@[1] != "text"@[1]);
    assert(text_value(s)->Obj_0.dom() =~= set!["content"@]);
    assert(tool_err_value(s)->Obj_0.dom() =~= set!["content"@, "isError"@]);
    assert(content(s)->Arr_0[0]->Obj_0.dom() =~= set!["type"@, "text"@]);
}

/// Law: the answer to a request has the id of the request, and either the result or the
/// error with its code and message.
pub proof fn law_answer_has_its_request_id(id: JsonV, result: JsonV)
    ensures
        field(ok_value(id, result), "jsonrpc"@) == Some(JsonV::Str("2.0"@)),
        field(ok_value(id, result), "id"@) == Some(id),
        field(ok_value(id, result), "result"@) == Some(result),
        has_just(ok_value(id, result), set!["jsonrpc"@, "id"@, "result"@]),
{
    reveal_strlit("jsonrpc");
    reveal_strlit("id");
    reveal_strlit("result");
    assert("jsonrpc"@.len() == 7);
    assert("id"@.len() == 2);
    assert("result"@.len() == 6);
    assert(ok_value(id, result)->Obj_0.dom() =~= set!["jsonrpc"@, "id"@, "result"@]);
}

/// Law: an error has the id of its request, its code and its message.
pub proof fn law_error_has_its_request_id(id: JsonV, code: int, message: Seq<char>)
    ensures
        field(err_value(id, code, message), "jsonrpc"@) == Some(JsonV::Str("2.0"@)),
        field(err_value(id, code, message), "id"@) == Some(id),
        field(err_value(id, code, message), "error"@) matches Some(e)
            && field(e, "code"@) == Some(JsonV::Int(code))
            && field(e, "message"@) == Some(JsonV::Str(message))
            && has_just(e, set!["code"@, "message"@]),
        has_just(err_value(id, code, message), set!["jsonrpc"@, "id"@, "error"@]),
{
    reveal_strlit("jsonrpc");
    reveal_strlit("id");
    reveal_strlit("error");
    reveal_strlit("code");
    reveal_strlit("message");
    assert("jsonrpc"@.len() == 7);
    assert("id"@.len() == 2);
    assert("error"@.len() == 5);
    assert("code"@.len() == 4);
    assert("message"@.len() == 7);
    assert("jsonrpc"@[0] != "message"@[0]);
    assert(err_value(id, code, message)->Obj_0.dom() =~= set!["jsonrpc"@, "id"@, "error"@]);
    assert(field(err_value(id, code, message), "error"@)->Some_0->Obj_0.dom() =~= set!["code"@, "message"@]);
}

/// A part of a reply that stands only on a condition.
pub open spec fn part(stands: bool, s: Seq<char>) -> Seq<Seq<char>> {
    if stands {
        seq![s]
    } else {
        Seq::empty()
    }
}

/// Law: the reply to executed code tells its output, its result, whether there is a
/// table, how many plots there are and its error, each where there is any and in this
/// order, and how long it took.
pub proof fn law_reply_tells_the_execution(x: ExecutionV)
    ensures
        x.stdout.len() > 0 || x.result is Some || x.html is Some || x.plots.len() > 0 || x.error is Some
            ==> execution_parts(x) == part(x.stdout.len() > 0, "stdout:\n"@ + trim_end(x.stdout))
                + part(x.result is Some, "result: "@ + x.result->Some_0)
                + part(x.html is Some, "[DataFrame — HTML table in html field]"@)
                + part(x.plots.len() > 0, "["@ + dec(x.plots.len()) + " plot(s) captured]"@)
                + part(x.error is Some, "error:\n"@ + x.error->Some_0)
                + seq!["duration: "@ + dec(x.duration_ms as nat) + "ms"@],
        x.stdout.len() == 0 && x.result is None && x.html is None && x.plots.len() == 0 && x.error is None
            ==> execution_parts(x) == seq!["(no output)"@, "duration: "@ + dec(x.duration_ms as nat) + "ms"@],
{
}

/// Law: executed code is answered with what came of it; a session that is gone or busy
/// is refused.
pub proof fn law_reply_to_code(id: Seq<char>, x: ExecutionResult)
    ensures
        refuses(code_executed(id, Attempt::NoSession), "Session '"@ + id + "' not found or expired"@),
        refuses(code_executed(id, Attempt::Busy), "Session is busy — another execution is running"@),
        says(code_executed(id, Attempt::Ran(x)), join(execution_parts(x@), "\n\n"@)),
{
    law_replies_carry_their_text("Session '"@ + id + "' not found or expired"@);
    law_replies_carry_their_text("Session is busy — another execution is running"@);
    law_replies_carry_their_text(join(execution_parts(x@), "\n\n"@));
}

/// Law: an installation is answered with the packages and what was printed; one that
/// failed is refused with its error and what was printed.
pub proof fn law_reply_to_an_installation(packages: Seq<Seq<char>>, x: ExecutionV)
    ensures
        refuses(packages_installed(packages, None), "Session not found"@),
        x.error matches Some(e)
            ==> refuses(packages_installed(packages, Some(x)), "Install failed: "@ + e + "\n"@ + x.stdout),
        x.error is None
            ==> says(
                packages_installed(packages, Some(x)),
                "Installed: "@ + join(packages, ", "@) + "\n\n"@ + trim(x.stdout),
            ),
{
    law_replies_carry_their_text("Session not found"@);
    law_replies_carry_their_text("Install failed: "@ + x.error->Some_0 + "\n"@ + x.stdout);
    law_replies_carry_their_text("Installed: "@ + join(packages, ", "@) + "\n\n"@ + trim(x.stdout));
}

/// Law: a job that waits is answered with its id; one that cannot wait is refused with
/// the reason.
pub proof fn law_reply_to_a_submission(why: String, id: String)
    ensures
        refuses(job_submitted(Submission::NoSession), "Session not found"@),
        refuses(job_submitted(Submission::Failed(why)), "Failed to create job: "@ + why@),
        says(
            job_submitted(Submission::Queued(id)),
            "Job submitted.\njob_id: "@ + id@ + "\nstatus: queued\n\nUse get_job to poll for results."@,
        ),
{
    law_replies_carry_their_text("Session not found"@);
    law_replies_carry_their_text("Failed to create job: "@ + why@);
    law_replies_carry_their_text(
        "Job submitted.\njob_id: "@ + id@ + "\nstatus: queued\n\nUse get_job to poll for results."@,
    );
}

/// Law: the reply on a job tells its id and its status, then its output, its error and
/// its duration, each where there is any.
pub proof fn law_reply_tells_the_job(j: JobRecord, id: Seq<char>)
    ensures
        job_parts(j) == seq!["job_id: "@ + j.id@, "status: "@ + j.status@]
            + part(j.stdout is Some && j.stdout->Some_0@.len() > 0, "stdout:\n"@ + trim_end(j.stdout->Some_0@))
            + part(j.error is Some, "error:\n"@ + j.error->Some_0@)
            + part(j.duration_ms is Some, "duration: "@ + dec_int(j.duration_ms->Some_0 as int) + "ms"@),
        says(job_got(id, Some(&j)), join(job_parts(j), "\n\n"@)),
        refuses(job_got(id, None), "Job '"@ + id + "' not found"@),
{
    law_replies_carry_their_text(join(job_parts(j), "\n\n"@));
    law_replies_carry_their_text("Job '"@ + id + "' not found"@);
}

/// Law: the reply on a session tells whether it is active, how many seconds it has left
/// and how often it was called.
pub proof fn law_reply_tells_the_status(id: Seq<char>, s: SessionStatusV)
    ensures
        s.active
            ==> says(
                status_got(id, Some(s)),
                "session_id: "@ + s.session_id + "\nactive: "@ + "true"@ + "\nttl_remaining: "@
                    + dec_int(s.ttl_remaining) + "s\ncalls_used: "@ + dec(s.calls_used as nat),
            ),
        !s.active
            ==> says(
                status_got(id, Some(s)),
                "session_id: "@ + s.session_id + "\nactive: "@ + "false"@ + "\nttl_remaining: "@
                    + dec_int(s.ttl_remaining) + "s\ncalls_used: "@ + dec(s.calls_used as nat),
            ),
        refuses(status_got(id, None), "Session '"@ + id + "' not found or expired"@),
{
    law_replies_carry_their_text(
        "session_id: "@ + s.session_id + "\nactive: "@ + "true"@ + "\nttl_remaining: "@ + dec_int(s.ttl_remaining)
            + "s\ncalls_used: "@ + dec(s.calls_used as nat),
    );
    law_replies_carry_their_text(
        "session_id: "@ + s.session_id + "\nactive: "@ + "false"@ + "\nttl_remaining: "@ + dec_int(s.ttl_remaining)
            + "s\ncalls_used: "@ + dec(s.calls_used as nat),
    );
    law_replies_carry_their_text("Session '"@ + id + "' not found or expired"@);
}

/// Law: a session that ended, and a checkpoint that was deleted, is answered as such,
/// and one that was not found is refused.
pub proof fn law_reply_to_a_termination(id: Seq<char>)
    ensures
        says(session_terminated(id, true), "Session '"@ + id + "' terminated."@),
        refuses(session_terminated(id, false), "Session '"@ + id + "' not found"@),
        says(checkpoint_deleted(id, true), "Checkpoint '"@ + id + "' deleted."@),
        refuses(checkpoint_deleted(id, false), "Checkpoint '"@ + id + "' not found"@),
{
    law_replies_carry_their_text("Session '"@ + id + "' terminated."@);
    law_replies_carry_their_text("Session '"@ + id + "' not found"@);
    law_replies_carry_their_text("Checkpoint '"@ + id + "' deleted."@);
    law_replies_carry_their_text("Checkpoint '"@ + id + "' not found"@);
}

/// Law: a checkpoint that was saved and recorded is answered with its id, its name and
/// its size; a failure of either is refused with its reason.
pub proof fn law_reply_to_a_checkpoint(
    id: Seq<char>,
    name: Seq<char>,
    size: u64,
    e: String,
    saved: Result<(), String>,
)
    ensures
        refuses(checkpoint_created(id, name, Attempt::NoSession, saved), "Session not found"@),
        refuses(checkpoint_created(id, name, Attempt::Busy, saved), "Session is busy"@),
        refuses(checkpoint_created(id, name, Attempt::Ran((size, Some(e))), saved), "Checkpoint failed: "@ + e@),
        refuses(
            checkpoint_created(id, name, Attempt::Ran((size, None)), Err(e)),
            "Failed to save checkpoint record: "@ + e@,
        ),
        says(
            checkpoint_created(id, name, Attempt::Ran((size, None)), Ok(())),
            "Checkpoint saved.\ncheckpoint_id: "@ + id + "\nname: "@ + name + "\nsize: "@ + dec(size as nat)
                + " bytes"@,
        ),
{
    law_replies_carry_their_text("Session not found"@);
    law_replies_carry_their_text("Session is busy"@);
    law_replies_carry_their_text("Checkpoint failed: "@ + e@);
    law_replies_carry_their_text("Failed to save checkpoint record: "@ + e@);
    law_replies_carry_their_text(
        "Checkpoint saved.\ncheckpoint_id: "@ + id + "\nname: "@ + name + "\nsize: "@ + dec(size as nat)
            + " bytes"@,
    );
}

/// Law: a checkpoint that was restored is answered with its name and all its variables;
/// one that is unknown or failed is refused with the reason.
pub proof fn law_reply_to_a_restoration(
    id: Seq<char>,
    c: CheckpointInfo,
    vars: Vec<String>,
    e: String,
    attempt: Attempt<(Vec<String>, Option<String>)>,
)
    ensures
        refuses(checkpoint_restored(id, None, attempt), "Checkpoint '"@ + id + "' not found"@),
        refuses(checkpoint_restored(id, Some(&c), Attempt::NoSession), "Session not found"@),
        refuses(checkpoint_restored(id, Some(&c), Attempt::Busy), "Session is busy"@),
        refuses(checkpoint_restored(id, Some(&c), Attempt::Ran((vars, Some(e)))), "Restore failed: "@ + e@),
        says(
            checkpoint_restored(id, Some(&c), Attempt::Ran((vars, None))),
            "Restored '"@ + c.name@ + "': "@ + dec(vars@.len()) + " vars loaded ("@ + join(texts(vars@), ", "@)
                + ")"@,
        ),
{
    law_replies_carry_their_text("Checkpoint '"@ + id + "' not found"@);
    law_replies_carry_their_text("Session not found"@);
    law_replies_carry_their_text("Session is busy"@);
    law_replies_carry_their_text("Restore failed: "@ + e@);
    law_replies_carry_their_text(
        "Restored '"@ + c.name@ + "': "@ + dec(vars@.len()) + " vars loaded ("@ + join(texts(vars@), ", "@) + ")"@,
    );
}

/// Law: a list of checkpoints tells how many there are and has a line for each, with
/// its name, its id, its size and its time.
pub proof fn law_reply_lists_the_checkpoints(list: Seq<CheckpointInfo>)
    ensures
        list.len() == 0 ==> says(checkpoints_listed(list), "No checkpoints saved yet."@),
        list.len() > 0
            ==> says(
                checkpoints_listed(list),
                dec(list.len()) + " checkpoint(s):\n\n"@
                    + join(
                        Seq::new(
                            list.len(),
                            |i: int| "• "@ + list[i].name@ + " — "@ + list[i].id@ + " ("@
                                + dec_int(list[i].size_bytes as int) + " bytes, "@ + list[i].created_at@ + ")"@,
                        ),
                        "\n"@,
                    ),
            ),
{
    let rows = Seq::new(
        list.len(),
        |i: int|
            "• "@ + list[i].name@ + " — "@ + list[i].id@ + " ("@ + dec_int(list[i].size_bytes as int) + " bytes, "@
                + list[i].created_at@ + ")"@,
    );
    assert(rows =~= Seq::new(list.len(), |i: int| checkpoint_line(list[i])));
    law_replies_carry_their_text("No checkpoints saved yet."@);
    law_replies_carry_their_text(dec(list.len()) + " checkpoint(s):\n\n"@ + join(rows, "\n"@));
}

/// Law: a session that was created is answered with its id, its end and what came of
/// its checkpoint; one that was not is refused with the reason.
pub proof fn law_reply_to_a_creation(info: SessionInfo, e: String, note: Seq<char>)
    ensures
        refuses(crate::api::mcp::session_created(Err(e), note), "Failed to create session: "@ + e@),
        says(
            crate::api::mcp::session_created(Ok(info), note),
            "Session created.\nsession_id: "@ + info.session_id@ + "\nexpires_at: "@
                + display_time_text(info.expires_at.secs, info.expires_at.nanos) + note,
        ),
{
    law_replies_carry_their_text("Failed to create session: "@ + e@);
    law_replies_carry_their_text(
        "Session created.\nsession_id: "@ + info.session_id@ + "\nexpires_at: "@
            + display_time_text(info.expires_at.secs, info.expires_at.nanos) + note,
    );
}

/// Law: a new session is told of its checkpoint: nothing where none was asked for, a
/// warning where it is unknown or failed, and its name and all its variables where it
/// was restored.
pub proof fn law_note_tells_the_restoration(
    id: Seq<char>,
    name: Seq<char>,
    vars: Seq<Seq<char>>,
    e: Seq<char>,
    known: Option<Seq<char>>,
    outcome: Option<(Seq<Seq<char>>, Option<Seq<char>>)>,
)
    ensures
        restore_note(None, known, outcome).len() == 0,
        restore_note(Some(id), None, outcome) == "\nWarning: checkpoint '"@ + id + "' not found"@,
        restore_note(Some(id), Some(name), None).len() == 0,
        restore_note(Some(id), Some(name), Some((vars, Some(e)))) == "\nWarning: checkpoint restore failed: "@ + e,
        restore_note(Some(id), Some(name), Some((vars, None))) == "\nRestored checkpoint '"@ + name + "': "@
            + dec(vars.len()) + " vars ("@ + join(vars, ", "@) + ")"@,
{
}

/// Law: what is posted of a job that a tool submitted has its id, its output and its
/// error, and says that it is done.
pub proof fn law_tool_news_by_name(id: Seq<char>, x: ExecutionResult)
    ensures
        field(tool_job_news(id, x), "job_id"@) == Some(JsonV::Str(id)),
        field(tool_job_news(id, x), "status"@) == Some(JsonV::Str("done"@)),
        field(tool_job_news(id, x), "stdout"@) == Some(JsonV::Str(x.stdout@)),
        field(tool_job_news(id, x), "error"@) == Some(or_null(maybe_owned(x.error))),
        has_just(tool_job_news(id, x), set!["job_id"@, "status"@, "stdout"@, "error"@]),
{
    reveal_strlit("job_id");
    reveal_strlit("status");
    reveal_strlit("stdout");
    reveal_strlit("error");
    assert("job_id"@.len() == 6);
    assert("status"@.len() == 6);
    assert("stdout"@.len() == 6);
    assert("error"@.len() == 5);
    assert("job_id"@[0] != "status"@[0]);
    assert("job_id"@[0] != "stdout"@[0]);
    assert("status"@[2] != "stdout"@[2]);
    assert(tool_job_news(id, x)->Obj_0.dom() =~= set!["job_id"@, "status"@, "stdout"@, "error"@]);
}

/// Law: a call of a tool under an API key names the tool and has the arguments and the
/// id that the message gives; without a key it is refused with status 401.
pub proof fn law_calls_name_their_tool(
    msg: JsonV,
    key: Seq<char>,
    id: JsonV,
    params: JsonV,
    tool: Seq<char>,
    args: JsonV,
)
    requires
        field(msg, "method"@) == Some(JsonV::Str("tools/call"@)),
        field(msg, "id"@) == Some(id),
        field(msg, "params"@) == Some(params),
        field(params, "name"@) == Some(JsonV::Str(tool)),
        field(params, "arguments"@) == Some(args),
    ensures
        key.len() > 0 ==> message_step(msg, key) == (McpStepV::Call { id: id, tool: tool, arguments: args }),
        key.len() == 0 ==> (
            message_step(msg, key) matches McpStepV::Reply(ResponseV::Json(401, v))
                && field(v, "id"@) == Some(id)
                && field(v, "result"@) is None
                && field(v, "error"@) is Some
        ),
{
    reveal_strlit("notifications/initialized");
    reveal_strlit("initialize");
    reveal_strlit("tools/list");
    reveal_strlit("tools/call");
    assert("notifications/initialized"@.len() == 25);
    assert("initialize"@.len() == 10);
    assert("tools/list"@.len() == 10);
    assert("tools/call"@.len() == 10);
    assert("initialize"@[0] != "tools/list"@[0]);
    assert("initialize"@[0] != "tools/call"@[0]);
    assert("tools/list"@[6] != "tools/call"@[6]);
    reveal_strlit("jsonrpc");
    reveal_strlit("id");
    reveal_strlit("error");
    reveal_strlit("result");
    assert("jsonrpc"@.len() == 7);
    assert("id"@.len() == 2);
    assert("error"@.len() == 5);
    assert("result"@.len() == 6);
}

/// Law: a message is answered by its method: the greeting with what the server is, the
/// list with every tool, another method with an error, and a notice that is no request
/// with status 202; a body that is no JSON is answered with status 400 and no id.
pub proof fn law_methods_are_answered(msg: JsonV, key: Seq<char>, id: JsonV, method: Seq<char>, body: Seq<u8>)
    requires
        field(msg, "method"@) == Some(JsonV::Str(method)),
        field(msg, "id"@) == Some(id),
    ensures
        method == "initialize"@ ==> (
            message_step(msg, key) matches McpStepV::Reply(ResponseV::Json(200, v))
                && field(v, "id"@) == Some(id)
                && field(v, "result"@) == Some(server_info())
        ),
        method == "tools/list"@ ==> (
            message_step(msg, key) matches McpStepV::Reply(ResponseV::Json(200, v))
                && field(v, "id"@) == Some(id)
                && field(v, "result"@) == Some(tool_list_value())
        ),
        method != "initialize"@ && method != "tools/list"@ && method != "tools/call"@
            ==> message_step(msg, key) == McpStepV::Reply(
                ResponseV::Json(200, err_value(id, -32601, "Method not found: "@ + method)),
            ),
        json_parse(body) is Err
            ==> body_step(body, key) == McpStepV::Reply(
                ResponseV::Json(400, err_value(JsonV::Null, -32700, "Parse error"@)),
            ),
        json_parse(body) == Ok::<JsonV, Seq<char>>(msg) ==> body_step(body, key) == message_step(msg, key),
{
    reveal_strlit("notifications/initialized");
    reveal_strlit("initialize");
    reveal_strlit("tools/list");
    reveal_strlit("tools/call");
    assert("notifications/initialized"@.len() == 25);
    assert("initialize"@.len() == 10);
    assert("tools/list"@.len() == 10);
    assert("tools/call"@.len() == 10);
    assert("initialize"@[0] != "tools/list"@[0]);
    assert("initialize"@[0] != "tools/call"@[0]);
    assert("tools/list"@[6] != "tools/call"@[6]);
    reveal_strlit("jsonrpc");
    reveal_strlit("id");
    reveal_strlit("error");
    reveal_strlit("result");
    assert("jsonrpc"@.len() == 7);
    assert("id"@.len() == 2);
    assert("error"@.len() == 5);
    assert("result"@.len() == 6);
}

/// Law: a message without an id is answered with the id `null`; one without a method
/// has the empty one, which there is not; a call without a name or arguments has the
/// empty name, or `null`.
pub proof fn law_what_a_message_lacks_is_empty(msg: JsonV, key: Seq<char>)
    ensures
        field(msg, "id"@) is None && !(field(msg, "method"@) matches Some(JsonV::Str(_)))
            ==> message_step(msg, key) == McpStepV::Reply(
                ResponseV::Json(200, err_value(JsonV::Null, -32601, "Method not found: "@ + Seq::empty())),
            ),
        field(msg, "id"@) matches Some(id) ==> (
            !(field(msg, "method"@) matches Some(JsonV::Str(_)))
                ==> message_step(msg, key) == McpStepV::Reply(
                    ResponseV::Json(200, err_value(id, -32601, "Method not found: "@ + Seq::empty())),
                )
        ),
        field(msg, "id"@) is None && field(msg, "method"@) == Some(JsonV::Str("initialize"@))
            ==> message_step(msg, key) == McpStepV::Reply(
                ResponseV::Json(200, ok_value(JsonV::Null, server_info())),
            ),
        field(msg, "id"@) is None && field(msg, "method"@) == Some(JsonV::Str("tools/list"@))
            ==> message_step(msg, key) == McpStepV::Reply(
                ResponseV::Json(200, ok_value(JsonV::Null, tool_list_value())),
            ),
        key.len() > 0 && field(msg, "method"@) == Some(JsonV::Str("tools/call"@)) ==> (
            message_step(msg, key) matches McpStepV::Call { id, tool, arguments }
                && (field(msg, "id"@) is None ==> id == JsonV::Null)
                && (field(msg, "params"@) is None ==> tool.len() == 0 && arguments == JsonV::Null)
                && (
                    field(msg, "params"@) matches Some(p)
                        ==> (!(field(p, "name"@) matches Some(JsonV::Str(_))) ==> tool.len() == 0)
                            && (field(p, "arguments"@) is None ==> arguments == JsonV::Null)
                )
        ),
{
    reveal_strlit("notifications/initialized");
    reveal_strlit("initialize");
    reveal_strlit("tools/list");
    reveal_strlit("tools/call");
    assert("notifications/initialized"@.len() == 25);
    assert("initialize"@.len() == 10);
    assert("tools/list"@.len() == 10);
    assert("tools/call"@.len() == 10);
    assert("initialize"@[0] != "tools/list"@[0]);
    assert("initialize"@[0] != "tools/call"@[0]);
    assert("tools/list"@[6] != "tools/call"@[6]);
}

/// Law: the notice that a client is ready, which has no id, is accepted with status 202
/// and an empty answer.
pub proof fn law_notices_are_accepted(msg: JsonV, key: Seq<char>)
    requires
        field(msg, "method"@) == Some(JsonV::Str("notifications/initialized"@)),
        field(msg, "id"@) is None,
    ensures
        message_step(msg, key) == McpStepV::Reply(ResponseV::Json(202, JsonV::Obj(Map::empty()))),
{
}

/// Law: the greeting has the version of the protocol, the capability for tools, and the
/// name and the version of the server.
pub proof fn law_server_says_what_it_is(key: Seq<char>)
    ensures
        field(server_info(), "protocolVersion"@) == Some(JsonV::Str("2024-11-05"@)),
        field(server_info(), "capabilities"@) matches Some(c) && field(c, "tools"@) == Some(JsonV::Obj(Map::empty())),
        field(server_info(), "serverInfo"@) matches Some(s)
            && field(s, "name"@) == Some(JsonV::Str("greed-compute"@))
            && field(s, "version"@) == Some(JsonV::Str("0.1.0"@)),
        key != "protocolVersion"@ && key != "capabilities"@ && key != "serverInfo"@
            ==> field(server_info(), key) is None,
{
    reveal_strlit("protocolVersion");
    reveal_strlit("capabilities");
    reveal_strlit("serverInfo");
    assert("protocolVersion"@.len() == 15);
    assert("capabilities"@.len() == 12);
    assert("serverInfo"@.len() == 10);
    reveal_strlit("tools");
    reveal_strlit("name");
    reveal_strlit("version");
    assert("tools"@.len() == 5);
    assert("name"@.len() == 4);
    assert("version"@.len() == 7);
}

/// Law: the list has each tool with its name, what it is for and its schema; the schema
/// names what the tool needs, where it needs anything, and has each parameter as a text
/// or a list of texts.
pub proof fn law_tools_are_listed_by_name(t: ToolV, k: int, p: ParamV)
    ensures
        0 <= k < catalogue().len() ==> (
            field(tool_list_value(), "tools"@) matches Some(JsonV::Arr(v))
                && v.len() == catalogue().len()
                && v[k] == tool_value(catalogue()[k])
        ),
        field(tool_value(t), "name"@) == Some(JsonV::Str(t.name)),
        field(tool_value(t), "description"@) == Some(JsonV::Str(t.about)),
        field(tool_value(t), "inputSchema"@) == Some(input_schema(t)),
        field(input_schema(t), "type"@) == Some(JsonV::Str("object"@)),
        t.required.len() > 0 ==> field(input_schema(t), "required"@) == Some(string_list(t.required)),
        t.required.len() == 0 ==> field(input_schema(t), "required"@) is None,
        field(input_schema(t), "properties"@) == Some(JsonV::Obj(properties(t.params))),
        !p.list
            ==> field(param_schema(p), "type"@) == Some(JsonV::Str("string"@))
                && field(param_schema(p), "items"@) is None,
        p.list
            ==> field(param_schema(p), "type"@) == Some(JsonV::Str("array"@))
                && (
                    field(param_schema(p), "items"@) matches Some(i)
                        && field(i, "type"@) == Some(JsonV::Str("string"@))
                ),
        p.about matches Some(s) ==> field(param_schema(p), "description"@) == Some(JsonV::Str(s)),
        p.about is None ==> field(param_schema(p), "description"@) is None,
{
    reveal_strlit("tools");
    reveal_strlit("name");
    reveal_strlit("description");
    reveal_strlit("inputSchema");
    reveal_strlit("type");
    reveal_strlit("required");
    reveal_strlit("properties");
    reveal_strlit("items");
    assert("tools"@.len() == 5);
    assert("name"@.len() == 4);
    assert("description"@.len() == 11);
    assert("inputSchema"@.len() == 11);
    assert("type"@.len() == 4);
    assert("required"@.len() == 8);
    assert("properties"@.len() == 10);
    assert("items"@.len() == 5);
    assert("tools"@[0] != "items"@[0]);
    assert("name"@[0] != "type"@[0]);
    assert("description"@[0] != "inputSchema"@[0]);
    law_strings_of_a_list(t.required);
}

/// Law: the schema of a tool has each of its parameters under its name, where
/// the names differ, and nothing else.
pub proof fn law_schema_has_each_parameter(params: Seq<ParamV>, i: int)
    requires
        0 <= i < params.len(),
        forall|a: int, b: int|
            0 <= a < b < params.len() ==> (#[trigger] params[a]).name != (#[trigger] params[b]).name,
    ensures
        field(JsonV::Obj(properties(params)), params[i].name) == Some(param_schema(params[i])),
    decreases params.len(),
{
    if i < params.len() - 1 {
        let front = params.drop_last();
        assert(front[i] == params[i]);
        law_schema_has_each_parameter(front, i);
        assert(params[i].name != params.last().name);
    }
}

/// The names of a tool's parameters.
pub open spec fn param_names(t: ToolV) -> Seq<Seq<char>> {
    Seq::new(t.params.len(), |i: int| t.params[i].name)
}

/// Law: the tools that are listed are those that can be called, with their parameters
/// and what they need.
pub proof fn law_catalogue_is_what_can_be_called()
    ensures
        catalogue().len() == 11,
        catalogue()[0].name == "create_session"@,
        param_names(catalogue()[0]) == seq!["checkpoint_id"@, "packages"@],
        catalogue()[0].required == Seq::<Seq<char>>::empty(),
        !catalogue()[0].params[0].list,
        catalogue()[0].params[1].list,
        catalogue()[1].name == "execute_code"@,
        param_names(catalogue()[1]) == seq!["session_id"@, "code"@],
        catalogue()[1].required == seq!["session_id"@, "code"@],
        !catalogue()[1].params[0].list,
        !catalogue()[1].params[1].list,
        catalogue()[2].name == "install_packages"@,
        param_names(catalogue()[2]) == seq!["session_id"@, "packages"@],
        catalogue()[2].required == seq!["session_id"@, "packages"@],
        !catalogue()[2].params[0].list,
        catalogue()[2].params[1].list,
        catalogue()[3].name == "submit_job"@,
        param_names(catalogue()[3]) == seq!["session_id"@, "code"@, "webhook_url"@],
        catalogue()[3].required == seq!["session_id"@, "code"@],
        !catalogue()[3].params[0].list,
        !catalogue()[3].params[1].list,
        !catalogue()[3].params[2].list,
        catalogue()[4].name == "get_job"@,
        param_names(catalogue()[4]) == seq!["job_id"@],
        catalogue()[4].required == seq!["job_id"@],
        !catalogue()[4].params[0].list,
        catalogue()[5].name == "session_status"@,
        param_names(catalogue()[5]) == seq!["session_id"@],
        catalogue()[5].required == seq!["session_id"@],
        !catalogue()[5].params[0].list,
        catalogue()[6].name == "terminate_session"@,
        param_names(catalogue()[6]) == seq!["session_id"@],
        catalogue()[6].required == seq!["session_id"@],
        !catalogue()[6].params[0].list,
        catalogue()[7].name == "create_checkpoint"@,
        param_names(catalogue()[7]) == seq!["session_id"@, "name"@],
        catalogue()[7].required == seq!["session_id"@],
        !catalogue()[7].params[0].list,
        !catalogue()[7].params[1].list,
        catalogue()[8].name == "restore_checkpoint"@,
        param_names(catalogue()[8]) == seq!["session_id"@, "checkpoint_id"@],
        catalogue()[8].required == seq!["session_id"@, "checkpoint_id"@],
        !catalogue()[8].params[0].list,
        !catalogue()[8].params[1].list,
        catalogue()[9].name == "list_checkpoints"@,
        param_names(catalogue()[9]) == Seq::<Seq<char>>::empty(),
        catalogue()[9].required == Seq::<Seq<char>>::empty(),
        catalogue()[10].name == "delete_checkpoint"@,
        param_names(catalogue()[10]) == seq!["checkpoint_id"@],
        catalogue()[10].required == seq!["checkpoint_id"@],
        !catalogue()[10].params[0].list,
{
}

/// Law: what is to be done on a message is known by what it carries.
pub proof fn law_message_steps_keep_what_they_carry(s: McpStep)
    ensures
        s matches McpStep::Reply(r) ==> s@ == McpStepV::Reply(r@),
        s matches McpStep::Call { id, tool, arguments }
            ==> s@ == (McpStepV::Call { id: id@, tool: tool@, arguments: arguments@ }),
{
}

/// Law: each tool, and each parameter that needs it, says what it is for.
pub proof fn law_tools_say_what_they_are_for()
    ensures
        catalogue()[0].about == "Create a new Python execution session. Returns session_id. Sessions last 15 minutes and auto-renew on each execution."@,
        catalogue()[0].params[0].about == Some("Optional: restore a saved checkpoint on startup."@),
        catalogue()[0].params[1].about == Some("Optional: pip install these packages before the session is ready."@),
        catalogue()[1].about == "Execute Python code in a session. Supports numpy, pandas, matplotlib, sklearn, scipy. Returns stdout, last-expression value (Jupyter-style), plots, HTML DataFrames, and full tracebacks."@,
        catalogue()[1].params[0].about == None::<Seq<char>>,
        catalogue()[1].params[1].about == Some("Python code to execute."@),
        catalogue()[2].about == "pip install packages into a session. GPU-heavy libraries (torch, tensorflow, jax) are blocked."@,
        catalogue()[2].params[0].about == None::<Seq<char>>,
        catalogue()[2].params[1].about == None::<Seq<char>>,
        catalogue()[3].about == "Submit long-running code as a background job. Returns job_id immediately. Use get_job to poll for results."@,
        catalogue()[3].params[0].about == None::<Seq<char>>,
        catalogue()[3].params[1].about == None::<Seq<char>>,
        catalogue()[3].params[2].about == Some("Optional URL to POST results to when done."@),
        catalogue()[4].about == "Poll the status and result of a background job."@,
        catalogue()[4].params[0].about == None::<Seq<char>>,
        catalogue()[5].about == "Get session TTL remaining (seconds), calls used, and active status."@,
        catalogue()[5].params[0].about == None::<Seq<char>>,
        catalogue()[6].about == "Terminate a session and free its resources."@,
        catalogue()[6].params[0].about == None::<Seq<char>>,
        catalogue()[7].about == "Save the current session state (all variables, functions, imports) to a named checkpoint that persists across sessions."@,
        catalogue()[7].params[0].about == None::<Seq<char>>,
        catalogue()[7].params[1].about == None::<Seq<char>>,
        catalogue()[8].about == "Restore a saved checkpoint into a running session."@,
        catalogue()[8].params[0].about == None::<Seq<char>>,
        catalogue()[8].params[1].about == None::<Seq<char>>,
        catalogue()[9].about == "List all saved checkpoints for this API key."@,
        catalogue()[10].about == "Delete a checkpoint and its stored file."@,
        catalogue()[10].params[0].about == None::<Seq<char>>,
{
}

} // verus!
