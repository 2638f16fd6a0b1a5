//! Laws on workers: how an exchange goes is how it is told.
use vstd::prelude::*;
use vstd::string::*;
use vstd::utf8::encode_utf8;
use crate::json::{field, json_parse, json_text, JsonV};
use crate::runtime::{
    answer, execute_line, executed, failed, not_ready, one_line, reported, start_error, Exchange, Startup,
    StreamEvent, StreamEventV,
};
use crate::text::{dec, trim};

verus! {

/// Law: an exchange with a worker gives what the line says, where the line without the
/// space round it is JSON; each other way it may go is told by its own reason, and only
/// time that ran out lasted any.
pub proof fn law_exchange_is_told_by_how_it_went(
    line: String,
    why: String,
    secs: u32,
    msg: JsonV,
    e: Seq<char>,
)
    ensures
        json_parse(encode_utf8(trim(line@))) == Ok::<JsonV, Seq<char>>(msg)
            ==> answer(Exchange::Line(line)) == Ok::<JsonV, (Seq<char>, u64)>(msg),
        json_parse(encode_utf8(trim(line@))) == Err::<JsonV, Seq<char>>(e)
            ==> answer(Exchange::Line(line)) == Err::<JsonV, (Seq<char>, u64)>(
                ("Invalid JSON from worker: "@ + e, 0),
            ),
        answer(Exchange::WriteFailed(why)) == Err::<JsonV, (Seq<char>, u64)>(
            ("Failed to write to worker stdin: "@ + why@, 0),
        ),
        answer(Exchange::FlushFailed(why)) == Err::<JsonV, (Seq<char>, u64)>(
            ("Failed to flush worker stdin: "@ + why@, 0),
        ),
        answer(Exchange::ReadFailed(why)) == Err::<JsonV, (Seq<char>, u64)>(
            ("IO error reading from worker: "@ + why@, 0),
        ),
        answer(Exchange::Closed) == Err::<JsonV, (Seq<char>, u64)>(("Worker process died during execution"@, 0)),
        answer(Exchange::TimedOut(secs)) == Err::<JsonV, (Seq<char>, u64)>(
            ("Execution timed out ("@ + dec(secs as nat) + "s)"@, (secs * 1000) as u64),
        ),
{
}

/// Law: a failure has its reason and its duration, and nothing else.
pub proof fn law_failure_has_only_its_reason(e: Seq<char>, ms: u64)
    ensures
        failed(e, ms).error == Some(e),
        failed(e, ms).duration_ms == ms,
        failed(e, ms).stdout.len() == 0 && failed(e, ms).plots.len() == 0,
        failed(e, ms).result is None && failed(e, ms).html is None,
        failed(e, ms).output_tokens == 0 && failed(e, ms).state_tokens == 0,
{
}

/// Law: an exchange that gives no answer fails the execution with its reason and its
/// duration.
pub proof fn law_failed_exchange_fails_the_execution(x: Exchange, e: Seq<char>, ms: u64, msg: JsonV)
    ensures
        answer(x) == Err::<JsonV, (Seq<char>, u64)>((e, ms)) ==> executed(x) == failed(e, ms),
        answer(x) == Ok::<JsonV, (Seq<char>, u64)>(msg) ==> executed(x) == reported(msg),
{
}

/// Law: the line that has a worker execute code has the code as a JSON string, and is
/// one line.
pub proof fn law_code_is_sent_as_it_is(code: Seq<char>)
    ensures
        execute_line(code) == "{\"type\":\"execute\",\"code\":"@ + json_text(JsonV::Str(code)) + "}\n"@,
{
}

/// Law: a text is one line where it ends with the only line break that it has.
pub proof fn law_one_line_ends_once(s: Seq<char>)
    ensures
        one_line(s) <==> s.len() > 0 && s.last() == '\n' && !s.drop_last().contains('\n'),
{
    if s.len() > 0 {
        let front = s.drop_last();
        assert forall|i: int| 0 <= i < s.len() - 1 implies #[trigger] s[i] == front[i] by {}
        if one_line(s) && front.contains('\n') {
            let i = choose|i: int| 0 <= i < front.len() && front[i] == '\n';
            assert(s[i] == '\n');
        }
        if s.last() == '\n' && !front.contains('\n') {
            assert forall|i: int| 0 <= i < s.len() - 1 implies #[trigger] s[i] != '\n' by {
                assert(front[i] == s[i]);
            }
        }
    }
}

/// Law: a worker has started if and only if its first line, without the space round it,
/// is a JSON message of type `ready`; each other way is told by its own reason.
pub proof fn law_worker_starts_when_it_is_ready(line: String, why: String, msg: JsonV, e: Seq<char>)
    ensures
        json_parse(encode_utf8(trim(line@))) == Ok::<JsonV, Seq<char>>(msg)
            && field(msg, "type"@) == Some(JsonV::Str("ready"@))
            ==> start_error(Startup::Line(line)) is None,
        json_parse(encode_utf8(trim(line@))) == Ok::<JsonV, Seq<char>>(msg)
            && field(msg, "type"@) != Some(JsonV::Str("ready"@))
            ==> start_error(Startup::Line(line)) == Some("Expected ready signal from worker, got: "@ + trim(line@)),
        json_parse(encode_utf8(trim(line@))) == Err::<JsonV, Seq<char>>(e)
            ==> start_error(Startup::Line(line)) == Some("Invalid ready message from worker: "@ + e),
        field(msg, "type"@) == Some(JsonV::Str("ready"@)) ==> not_ready(e, msg) is None,
        field(msg, "type"@) != Some(JsonV::Str("ready"@))
            ==> not_ready(e, msg) == Some("Expected ready signal from worker, got: "@ + e),
        start_error(Startup::SpawnFailed(why)) == Some("Failed to spawn Python worker: "@ + why@),
        start_error(Startup::NoStdin) == Some("Failed to capture worker stdin"@),
        start_error(Startup::NoStdout) == Some("Failed to capture worker stdout"@),
        start_error(Startup::Closed) == Some("Worker process exited before sending ready signal"@),
        start_error(Startup::ReadFailed(why)) == Some("IO error reading worker ready signal: "@ + why@),
        start_error(Startup::TimedOut) == Some("Timeout waiting for worker ready signal (30s)"@),
{
}

/// Law: an event of a stream is known by what it carries.
pub proof fn law_stream_events_keep_what_they_carry(a: StreamEvent)
    ensures
        a matches StreamEvent::Output(s) ==> a@ == StreamEventV::Output(s@),
        a matches StreamEvent::Done(x) ==> a@ == StreamEventV::Done(x@),
{
}

} // verus!
