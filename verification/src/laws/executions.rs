//! Laws on executions: what a worker reports is what is answered.
use vstd::prelude::*;
use vstd::string::*;
use vstd::utf8::encode_utf8;
use crate::api::routes::{
    execute_value, stream_value, tallied, token_info, tokens_value, usage_tokens, ExecuteResponse, ExecuteTokenInfo,
};
use crate::clock::Timestamp;
use crate::json::{field, json_parse, strings_among, JsonV};
use crate::laws::{has_just, law_strings_of_a_list, or_null, string_list};
use crate::runtime::{
    checkpointed, executed, reported, restored, streamed, Exchange, ExecutionResult, ExecutionV, StreamEventV,
};
use crate::sandbox::{touched, SessionV};
use crate::text::{maybe_owned, texts, trim};

verus! {

/// Whether a value says what an execution cost in tokens.
pub open spec fn tokens_are(v: JsonV, t: ExecuteTokenInfo) -> bool {
    &&& field(v, "output_tokens"@) == Some(JsonV::Int(t.output_tokens as int))
    &&& field(v, "session_state_tokens"@) == Some(JsonV::Int(t.session_state_tokens as int))
    &&& field(v, "estimated_context_tokens_without_sandbox"@) == Some(
        JsonV::Int(t.estimated_context_tokens_without_sandbox as int),
    )
    &&& field(v, "cumulative_session_savings"@) == Some(JsonV::Int(t.cumulative_session_savings as int))
}

/// Law: what an execution cost in tokens is answered by name.
pub proof fn law_tokens_by_name(t: ExecuteTokenInfo)
    ensures
        tokens_are(tokens_value(t), t),
{
    reveal_strlit("output_tokens");
    reveal_strlit("session_state_tokens");
    reveal_strlit("estimated_context_tokens_without_sandbox");
    reveal_strlit("cumulative_session_savings");
    assert("output_tokens"@.len() == 13);
    assert("session_state_tokens"@.len() == 20);
    assert("estimated_context_tokens_without_sandbox"@.len() == 40);
    assert("cumulative_session_savings"@.len() == 26);
}

/// Law: what a worker reports under a name is taken under that name, and what it does
/// not report, or reports in another form, is absent.
pub proof fn law_report_is_read_by_name(msg: JsonV)
    ensures
        field(msg, "stdout"@) matches Some(JsonV::Str(s)) ==> reported(msg).stdout == s,
        !(field(msg, "stdout"@) matches Some(JsonV::Str(_))) ==> reported(msg).stdout == Seq::<char>::empty(),
        field(msg, "result"@) matches Some(JsonV::Str(s)) ==> reported(msg).result == Some(s),
        !(field(msg, "result"@) matches Some(JsonV::Str(_))) ==> reported(msg).result is None,
        field(msg, "error"@) matches Some(JsonV::Str(s)) ==> reported(msg).error == Some(s),
        !(field(msg, "error"@) matches Some(JsonV::Str(_))) ==> reported(msg).error is None,
        field(msg, "html"@) matches Some(JsonV::Str(s)) ==> reported(msg).html == Some(s),
        !(field(msg, "html"@) matches Some(JsonV::Str(_))) ==> reported(msg).html is None,
        field(msg, "duration_ms"@) matches Some(JsonV::Int(n)) ==> (
            0 <= n <= u64::MAX ==> reported(msg).duration_ms == n
        ),
        !(field(msg, "duration_ms"@) matches Some(JsonV::Int(_))) ==> reported(msg).duration_ms == 0,
        field(msg, "output_tokens"@) matches Some(JsonV::Int(n)) ==> (
            0 <= n <= u64::MAX ==> reported(msg).output_tokens == n
        ),
        !(field(msg, "output_tokens"@) matches Some(JsonV::Int(_))) ==> reported(msg).output_tokens == 0,
        field(msg, "state_tokens"@) matches Some(JsonV::Int(n)) ==> (
            0 <= n <= u64::MAX ==> reported(msg).state_tokens == n
        ),
        !(field(msg, "state_tokens"@) matches Some(JsonV::Int(_))) ==> reported(msg).state_tokens == 0,
        field(msg, "duration_ms"@) matches Some(JsonV::Int(n)) ==> (
            !(0 <= n <= u64::MAX) ==> reported(msg).duration_ms == 0
        ),
        field(msg, "output_tokens"@) matches Some(JsonV::Int(n)) ==> (
            !(0 <= n <= u64::MAX) ==> reported(msg).output_tokens == 0
        ),
        field(msg, "state_tokens"@) matches Some(JsonV::Int(n)) ==> (
            !(0 <= n <= u64::MAX) ==> reported(msg).state_tokens == 0
        ),
        field(msg, "plots"@) matches Some(JsonV::Arr(items)) ==> reported(msg).plots == strings_among(items),
        !(field(msg, "plots"@) matches Some(JsonV::Arr(_))) ==> reported(msg).plots.len() == 0,
{
}

/// Law: a list of plots that a worker reports is taken as it is.
pub proof fn law_reported_plots_are_taken(msg: JsonV, plots: Seq<Seq<char>>)
    requires
        field(msg, "plots"@) == Some(string_list(plots)),
    ensures
        reported(msg).plots == plots,
{
    law_strings_of_a_list(plots);
}

/// Law: the answer to an execution has under each name what the worker reported under
/// it: an error is answered as an error and never as anything else, and so is what is
/// shown as HTML. It says what tokens were used if and only if they are counted, and
/// nothing more.
pub proof fn law_answer_says_what_was_reported(r: ExecuteResponse)
    ensures
        field(execute_value(r), "stdout"@) == Some(JsonV::Str(r.stdout@)),
        field(execute_value(r), "result"@) == Some(or_null(maybe_owned(r.result))),
        field(execute_value(r), "error"@) == Some(or_null(maybe_owned(r.error))),
        field(execute_value(r), "html"@) == Some(or_null(maybe_owned(r.html))),
        field(execute_value(r), "plots"@) == Some(string_list(texts(r.plots@))),
        field(execute_value(r), "duration_ms"@) == Some(JsonV::Int(r.duration_ms as int)),
        field(execute_value(r), "tokens"@) is Some <==> r.tokens is Some,
        r.tokens is None
            ==> has_just(execute_value(r), set!["stdout"@, "result"@, "error"@, "duration_ms"@, "plots"@, "html"@]),
        r.tokens is Some
            ==> has_just(
                execute_value(r),
                set!["stdout"@, "result"@, "error"@, "duration_ms"@, "plots"@, "html"@, "tokens"@],
            ),
        r.tokens matches Some(t) ==> tokens_are(field(execute_value(r), "tokens"@)->Some_0, t),
{
    reveal_strlit("stdout");
    reveal_strlit("result");
    reveal_strlit("error");
    reveal_strlit("duration_ms");
    reveal_strlit("plots");
    reveal_strlit("html");
    reveal_strlit("tokens");
    assert("stdout"@.len() == 6);
    assert("result"@.len() == 6);
    assert("error"@.len() == 5);
    assert("duration_ms"@.len() == 11);
    assert("plots"@.len() == 5);
    assert("html"@.len() == 4);
    assert("tokens"@.len() == 6);
    assert("stdout"@[0] != "result"@[0]);
    assert("stdout"@[0] != "tokens"@[0]);
    assert("result"@[0] != "tokens"@[0]);
    assert("error"@[0] != "plots"@[0]);
    law_tokens_by_name(r.tokens->Some_0);
    law_strings_of_a_list(texts(r.plots@));
    if r.tokens is None {
        assert(execute_value(r)->Obj_0.dom() =~= set![
            "stdout"@, "result"@, "error"@, "duration_ms"@, "plots"@, "html"@,
        ]);
    } else {
        assert(execute_value(r)->Obj_0.dom() =~= set![
            "stdout"@,
            "result"@,
            "error"@,
            "duration_ms"@,
            "plots"@,
            "html"@,
            "tokens"@,
        ]);
    }
}

/// Law: the last event of a stream has under each name what the worker reported under
/// it, says that it is the result, and says what tokens were used if and only if the
/// session counts them.
pub proof fn law_last_event_says_what_was_reported(after: SessionV, x: ExecutionV)
    ensures
        field(stream_value(after, x), "stdout"@) == Some(JsonV::Str(x.stdout)),
        field(stream_value(after, x), "result"@) == Some(or_null(x.result)),
        field(stream_value(after, x), "error"@) == Some(or_null(x.error)),
        field(stream_value(after, x), "html"@) == Some(or_null(x.html)),
        field(stream_value(after, x), "plots"@) == Some(string_list(x.plots)),
        field(stream_value(after, x), "duration_ms"@) == Some(JsonV::Int(x.duration_ms as int)),
        field(stream_value(after, x), "type"@) == Some(JsonV::Str("result"@)),
        field(stream_value(after, x), "tokens"@) is Some <==> after.token_tracking,
        after.token_tracking ==> tokens_are(field(stream_value(after, x), "tokens"@)->Some_0, token_info(after, x)),
{
    reveal_strlit("stdout");
    reveal_strlit("result");
    reveal_strlit("error");
    reveal_strlit("duration_ms");
    reveal_strlit("plots");
    reveal_strlit("html");
    reveal_strlit("tokens");
    reveal_strlit("type");
    assert("stdout"@.len() == 6);
    assert("result"@.len() == 6);
    assert("error"@.len() == 5);
    assert("duration_ms"@.len() == 11);
    assert("plots"@.len() == 5);
    assert("html"@.len() == 4);
    assert("tokens"@.len() == 6);
    assert("type"@.len() == 4);
    assert("stdout"@[0] != "result"@[0]);
    assert("stdout"@[0] != "tokens"@[0]);
    assert("result"@[0] != "tokens"@[0]);
    assert("error"@[0] != "plots"@[0]);
    assert("html"@[0] != "type"@[0]);
    law_tokens_by_name(token_info(after, x));
    law_strings_of_a_list(x.plots);
}

/// Law: the tokens of an execution are those that the worker reported, what it would
/// have cost without a sandbox is their sum, and the savings are the state of all
/// executions, once for each of them.
pub proof fn law_tokens_of_an_execution(s: SessionV, x: ExecutionV)
    requires
        x.output_tokens + x.state_tokens <= u64::MAX,
        s.cumulative_state_tokens * s.calls_used <= u64::MAX,
        s.cumulative_output_tokens + s.cumulative_state_tokens * s.calls_used <= u64::MAX,
    ensures
        token_info(s, x).output_tokens == x.output_tokens,
        token_info(s, x).session_state_tokens == x.state_tokens,
        token_info(s, x).estimated_context_tokens_without_sandbox == x.output_tokens + x.state_tokens,
        s.calls_used > 0 ==> token_info(s, x).cumulative_session_savings == s.cumulative_state_tokens * s.calls_used,
        s.calls_used == 0 ==> token_info(s, x).cumulative_session_savings == s.cumulative_state_tokens,
{
    assert(s.cumulative_state_tokens * s.calls_used >= 0) by (nonlinear_arith)
        requires
            s.cumulative_state_tokens >= 0,
            s.calls_used >= 0,
    ;
}

/// Law: counting an execution adds its tokens to those of the session where the session
/// counts tokens, and changes nothing else; renewing a session counts the execution and
/// moves its end, and changes nothing else.
pub proof fn law_counting_changes_the_counts(s: SessionV, x: ExecutionV, now: Timestamp)
    requires
        now.valid(),
    ensures
        tallied(s, x) == (
            SessionV {
                cumulative_output_tokens: tallied(s, x).cumulative_output_tokens,
                cumulative_state_tokens: tallied(s, x).cumulative_state_tokens,
                ..s
            }
        ),
        !s.token_tracking ==> tallied(s, x) == s,
        s.token_tracking && s.cumulative_output_tokens + x.output_tokens <= u64::MAX
            ==> tallied(s, x).cumulative_output_tokens == s.cumulative_output_tokens + x.output_tokens,
        s.token_tracking && s.cumulative_state_tokens + x.state_tokens <= u64::MAX
            ==> tallied(s, x).cumulative_state_tokens == s.cumulative_state_tokens + x.state_tokens,
        touched(s, now) == (
            SessionV {
                calls_used: touched(s, now).calls_used,
                expires_at_secs: touched(s, now).expires_at_secs,
                ..s
            }
        ),
        s.calls_used < u64::MAX ==> touched(s, now).calls_used == s.calls_used + 1,
        s.calls_used == u64::MAX ==> touched(s, now).calls_used == 0,
        touched(s, now).expires_at_secs == now.secs + 900,
        s.token_tracking ==> usage_tokens(s, x) == (x.output_tokens, x.state_tokens),
        !s.token_tracking ==> usage_tokens(s, x) == (0u64, 0u64),
{
}

/// Law: an execution whose exchange with the worker failed has an error and nothing
/// else, and lasted as long as the worker was given where the time ran out.
pub proof fn law_failed_exchange_is_an_error(exchange: Exchange)
    requires
        !(exchange is Line),
    ensures
        executed(exchange).error is Some,
        executed(exchange).result is None && executed(exchange).html is None,
        executed(exchange).stdout.len() == 0 && executed(exchange).plots.len() == 0,
        executed(exchange).output_tokens == 0 && executed(exchange).state_tokens == 0,
        exchange matches Exchange::TimedOut(secs) ==> executed(exchange).duration_ms == secs * 1000,
        !(exchange is TimedOut) ==> executed(exchange).duration_ms == 0,
{
}

/// Law: an execution whose worker answered with a line is what the line reports, where
/// the line without the space round it is JSON, and else has an error and nothing else.
pub proof fn law_line_is_read_as_a_report(line: String, msg: JsonV, why: Seq<char>)
    ensures
        json_parse(encode_utf8(trim(line@))) == Ok::<JsonV, Seq<char>>(msg)
            ==> executed(Exchange::Line(line)) == reported(msg),
        json_parse(encode_utf8(trim(line@))) == Err::<JsonV, Seq<char>>(why)
            ==> executed(Exchange::Line(line)).error == Some("Invalid JSON from worker: "@ + why)
                && executed(Exchange::Line(line)).result is None
                && executed(Exchange::Line(line)).stdout.len() == 0,
{
}

/// Law: a message of type `stream` is output and is passed on as its line; every other
/// message ends the execution with what it reports.
pub proof fn law_stream_passes_output_on(line: Seq<char>, msg: JsonV)
    ensures
        field(msg, "type"@) == Some(JsonV::Str("stream"@)) ==> streamed(line, msg) == StreamEventV::Output(line),
        field(msg, "type"@) != Some(JsonV::Str("stream"@))
            ==> streamed(line, msg) == StreamEventV::Done(reported(msg)),
{
}

/// Law: what a worker reports of a checkpoint and of a restoration is taken by name.
pub proof fn law_saved_and_restored_by_name(msg: JsonV, n: u64, e: Seq<char>, vars: Seq<Seq<char>>)
    ensures
        field(msg, "size_bytes"@) == Some(JsonV::Int(n as int)) ==> checkpointed(msg).0 == n,
        field(msg, "size_bytes"@) is None ==> checkpointed(msg).0 == 0,
        field(msg, "error"@) == Some(JsonV::Str(e)) ==> checkpointed(msg).1 == Some(e) && restored(msg).1 == Some(e),
        !(field(msg, "error"@) matches Some(JsonV::Str(_)))
            ==> checkpointed(msg).1 is None && restored(msg).1 is None,
        field(msg, "vars"@) == Some(string_list(vars)) ==> restored(msg).0 == vars,
        !(field(msg, "vars"@) matches Some(JsonV::Arr(_))) ==> restored(msg).0.len() == 0,
        field(msg, "vars"@) matches Some(JsonV::Arr(items)) ==> restored(msg).0 == strings_among(items),
        !(field(msg, "size_bytes"@) matches Some(JsonV::Int(_))) ==> checkpointed(msg).0 == 0,
        field(msg, "size_bytes"@) matches Some(JsonV::Int(k)) ==> (
            !(0 <= k <= u64::MAX) ==> checkpointed(msg).0 == 0
        ),
{
    law_strings_of_a_list(vars);
}

/// Law: an execution is known by what its fields say.
pub proof fn law_execution_keeps_its_names(x: ExecutionResult)
    ensures
        x@.stdout == x.stdout@,
        x@.result == maybe_owned(x.result),
        x@.error == maybe_owned(x.error),
        x@.html == maybe_owned(x.html),
        x@.plots == texts(x.plots@),
        x@.duration_ms == x.duration_ms,
        x@.output_tokens == x.output_tokens,
        x@.state_tokens == x.state_tokens,
{
}

/// Law: from what a worker reports to what is answered, at once or at the end of a
/// stream, each part keeps its name: the output, the result, the error, the HTML, the
/// plots and the duration.
pub proof fn law_answer_has_what_the_worker_reported(
    msg: JsonV,
    x: ExecutionResult,
    r: ExecuteResponse,
    after: SessionV,
    plots: Seq<Seq<char>>,
    ms: u64,
)
    requires
        x@ == reported(msg),
        r.stdout == x.stdout,
        r.result == x.result,
        r.error == x.error,
        r.html == x.html,
        r.plots == x.plots,
        r.duration_ms == x.duration_ms,
    ensures
        field(msg, "stdout"@) matches Some(JsonV::Str(s))
            ==> field(execute_value(r), "stdout"@) == Some(JsonV::Str(s))
                && field(stream_value(after, x@), "stdout"@) == Some(JsonV::Str(s)),
        field(msg, "result"@) matches Some(JsonV::Str(s))
            ==> field(execute_value(r), "result"@) == Some(JsonV::Str(s))
                && field(stream_value(after, x@), "result"@) == Some(JsonV::Str(s)),
        !(field(msg, "result"@) matches Some(JsonV::Str(_)))
            ==> field(execute_value(r), "result"@) == Some(JsonV::Null)
                && field(stream_value(after, x@), "result"@) == Some(JsonV::Null),
        field(msg, "error"@) matches Some(JsonV::Str(s))
            ==> field(execute_value(r), "error"@) == Some(JsonV::Str(s))
                && field(stream_value(after, x@), "error"@) == Some(JsonV::Str(s)),
        !(field(msg, "error"@) matches Some(JsonV::Str(_)))
            ==> field(execute_value(r), "error"@) == Some(JsonV::Null)
                && field(stream_value(after, x@), "error"@) == Some(JsonV::Null),
        field(msg, "html"@) matches Some(JsonV::Str(s))
            ==> field(execute_value(r), "html"@) == Some(JsonV::Str(s))
                && field(stream_value(after, x@), "html"@) == Some(JsonV::Str(s)),
        !(field(msg, "html"@) matches Some(JsonV::Str(_)))
            ==> field(execute_value(r), "html"@) == Some(JsonV::Null)
                && field(stream_value(after, x@), "html"@) == Some(JsonV::Null),
        field(msg, "plots"@) == Some(string_list(plots))
            ==> field(execute_value(r), "plots"@) == Some(string_list(plots))
                && field(stream_value(after, x@), "plots"@) == Some(string_list(plots)),
        field(msg, "duration_ms"@) == Some(JsonV::Int(ms as int))
            ==> field(execute_value(r), "duration_ms"@) == Some(JsonV::Int(ms as int))
                && field(stream_value(after, x@), "duration_ms"@) == Some(JsonV::Int(ms as int)),
{
    law_report_is_read_by_name(msg);
    if field(msg, "plots"@) == Some(string_list(plots)) {
        law_reported_plots_are_taken(msg, plots);
    }
    law_answer_says_what_was_reported(r);
    law_last_event_says_what_was_reported(after, x@);
    law_execution_keeps_its_names(x);
}

} // verus!
