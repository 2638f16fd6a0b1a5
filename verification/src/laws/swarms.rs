//! Laws on swarms: what the workers find is what the reducer is given.
use vstd::prelude::*;
use vstd::string::*;
use vstd::utf8::encode_utf8;
use crate::api::swarm::{
    absorbed, assigned_name, captured, carries, encoded, error_with_detail, fed, feed_text, final_code, finished,
    index_of_worker, last_name, name_char, name_start, single_equals, swarm_value, unsigned, worker_sent,
    worker_stored, worker_text, Reducer, ReducerV, WorkerDone, WorkerDoneV, WorkerEnd, WorkerResult, WorkerResultV,
};
use crate::codec::{base64_bytes, base64_char, base64_text};
use crate::db::{worker_value, SwarmRecord, SwarmWorkerRecord};
use crate::json::{field, json_parse, json_text, parses_to, JsonV};
use crate::laws::{has_just, or_null};
use crate::runtime::{ExecutionResult, ExecutionV};
use crate::text::{lines, maybe_owned, texts, trim};

verus! {

/// Law: where the result of a worker is the text of a JSON value, whatever the value
/// is, the code that feeds the reducer carries just that value as the result, with the
/// index, the output and the error of the worker, and goes on with the reduction.
pub proof fn law_reducer_gets_what_the_worker_found(
    w: WorkerResultV,
    text: Seq<char>,
    v: JsonV,
    reduce_fn: Seq<char>,
)
    requires
        w.result == Some(text),
        json_parse(encode_utf8(text)) == Ok::<JsonV, Seq<char>>(v),
    ensures
        field(fed(w), "result"@) == Some(v),
        field(fed(w), "worker_index"@) == Some(JsonV::Int(w.worker_index as int)),
        field(fed(w), "stdout"@) == Some(JsonV::Str(w.stdout)),
        field(fed(w), "error"@) == Some(or_null(w.error)),
        has_just(fed(w), set!["worker_index"@, "result"@, "stdout"@, "error"@]),
        feed_text(w, reduce_fn) == "import json as _j, base64 as _b64\nresults.append(_j.loads(_b64.b64decode('"@
            + base64_text(
                encode_utf8(
                    json_text(
                        JsonV::Obj(
                            map![
                                "worker_index"@ => JsonV::Int(w.worker_index as int),
                                "result"@ => v,
                                "stdout"@ => JsonV::Str(w.stdout),
                                "error"@ => or_null(w.error),
                            ],
                        ),
                    ),
                ),
            ) + "')))\ndel _j, _b64\n"@ + reduce_fn,
{
    reveal_strlit("worker_index");
    reveal_strlit("result");
    reveal_strlit("stdout");
    reveal_strlit("error");
    assert("worker_index"@.len() == 12);
    assert("result"@.len() == 6);
    assert("stdout"@.len() == 6);
    assert("error"@.len() == 5);
    assert("result"@[0] != "stdout"@[0]);
    assert(fed(w)->Obj_0.dom() =~= set!["worker_index"@, "result"@, "stdout"@, "error"@]);
    assert(fed(w)->Obj_0 =~= map![
        "worker_index"@ => JsonV::Int(w.worker_index as int),
        "result"@ => v,
        "stdout"@ => JsonV::Str(w.stdout),
        "error"@ => or_null(w.error),
    ]);
}

/// Law: the reducer is given `null` in place of the result of a worker exactly where
/// there is no result, its text is no JSON, or it says `null` itself; the rest is what
/// the worker sent either way.
pub proof fn law_reducer_gets_null_without_a_value(w: WorkerResultV)
    ensures
        w.result is None ==> field(fed(w), "result"@) == Some(JsonV::Null),
        w.result matches Some(text) ==> (
            json_parse(encode_utf8(text)) is Err ==> field(fed(w), "result"@) == Some(JsonV::Null)
        ),
        field(fed(w), "result"@) == Some(JsonV::Null) ==> (
            w.result is None
                || json_parse(encode_utf8(w.result->Some_0)) is Err
                || json_parse(encode_utf8(w.result->Some_0)) == Ok::<JsonV, Seq<char>>(JsonV::Null)
        ),
        field(fed(w), "worker_index"@) == Some(JsonV::Int(w.worker_index as int)),
        field(fed(w), "stdout"@) == Some(JsonV::Str(w.stdout)),
        field(fed(w), "error"@) == Some(or_null(w.error)),
{
    reveal_strlit("worker_index");
    reveal_strlit("result");
    reveal_strlit("stdout");
    reveal_strlit("error");
    assert("worker_index"@.len() == 12);
    assert("result"@.len() == 6);
    assert("stdout"@.len() == 6);
    assert("error"@.len() == 5);
    assert("result"@[0] != "stdout"@[0]);
}

/// Law: a worker that printed a value as JSON feeds the reducer that value: two workers
/// whose values differ never feed it the same, and every value comes through, whether
/// it is a number, a text, a list or anything else.
pub proof fn law_fed_values_come_through(x: ExecutionResult, index: u64, v: JsonV)
    requires
        x.result matches Some(text) && text@ == json_text(v),
        parses_to(json_text(v), v),
    ensures
        worker_sent(WorkerEnd::Ran(x), index) matches Some(w)
            && field(fed(w), "result"@) == Some(v)
            && field(fed(w), "worker_index"@) == Some(JsonV::Int(index as int))
            && field(fed(w), "error"@) == Some(or_null(maybe_owned(x.error)))
            && field(fed(w), "stdout"@) == Some(JsonV::Str(x.stdout@)),
{
    reveal_strlit("worker_index");
    reveal_strlit("result");
    reveal_strlit("stdout");
    reveal_strlit("error");
    assert("worker_index"@.len() == 12);
    assert("result"@.len() == 6);
    assert("stdout"@.len() == 6);
    assert("error"@.len() == 5);
    assert("result"@[0] != "stdout"@[0]);
}

/// Law: the code of a worker binds `partition` to the slice of the worker, then runs
/// the map function, and ends with the result.
pub proof fn law_worker_is_given_its_slice(partition: JsonV, map_fn: Seq<char>)
    ensures
        worker_text(partition, map_fn) == "import json as _json, base64 as _b64\npartition = _json.loads(_b64.b64decode('"@
            + base64_text(encode_utf8(json_text(partition))) + "'))\ndel _json, _b64"@ + "\n"@ + map_fn
            + "\nresult"@,
{
}

/// Law: of a worker that ran are stored its output, its plots, its error and the time
/// that it took; its result is the one it captured, or else what it printed without the
/// space round it, where it printed any. Of one that did not run only the reason is
/// stored.
pub proof fn law_worker_is_stored_as_it_ended(x: ExecutionResult, why: String, elapsed: i64, index: u64)
    ensures
        worker_stored(WorkerEnd::Ran(x), elapsed).stdout == x.stdout@,
        worker_stored(WorkerEnd::Ran(x), elapsed).error == maybe_owned(x.error),
        worker_stored(WorkerEnd::Ran(x), elapsed).plots == texts(x.plots@),
        worker_stored(WorkerEnd::Ran(x), elapsed).duration_ms == elapsed,
        x.result matches Some(r) ==> worker_stored(WorkerEnd::Ran(x), elapsed).result == Some(r@),
        x.result is None && trim(x.stdout@).len() > 0
            ==> worker_stored(WorkerEnd::Ran(x), elapsed).result == Some(trim(x.stdout@)),
        x.result is None && trim(x.stdout@).len() == 0 ==> worker_stored(WorkerEnd::Ran(x), elapsed).result is None,
        worker_sent(WorkerEnd::Ran(x), index) == Some(
            (
                WorkerResultV {
                    worker_index: index,
                    result: worker_stored(WorkerEnd::Ran(x), elapsed).result,
                    stdout: x.stdout@,
                    error: maybe_owned(x.error),
                }
            ),
        ),
        worker_stored(WorkerEnd::NoSession(why), elapsed) == (
            WorkerDoneV {
                stdout: Seq::empty(),
                result: None,
                error: Some(why@),
                plots: Seq::empty(),
                duration_ms: 0,
            }
        ),
        worker_sent(WorkerEnd::NoSession(why), index) == Some(
            (WorkerResultV { worker_index: index, result: None, stdout: Seq::empty(), error: Some(why@) }),
        ),
        worker_stored(WorkerEnd::Vanished, elapsed) == (
            WorkerDoneV {
                stdout: Seq::empty(),
                result: None,
                error: Some("session disappeared"@),
                plots: Seq::empty(),
                duration_ms: 0,
            }
        ),
        worker_sent(WorkerEnd::Vanished, index) is None,
{
}

/// Law: after a reduction the reducer has the output, the result and the error of that
/// reduction. It is asked for a last value only where it captured none, by the name
/// that its code assigned last, and what comes of that is its result.
pub proof fn law_reducer_keeps_what_it_computed(r: ReducerV, x: ExecutionV)
    ensures
        absorbed(r, x).stdout == Some(x.stdout),
        absorbed(r, x).result == x.result,
        absorbed(r, x).error == x.error,
        absorbed(r, x).reduce_fn == r.reduce_fn,
        r.result is Some ==> final_code(r) is None,
        r.result is None ==> final_code(r) == last_name(lines(r.reduce_fn)),
        x.result is Some ==> finished(r, x).result == x.result,
        x.result is None && trim(x.stdout).len() > 0 ==> finished(r, x).result == Some(trim(x.stdout)),
        x.result is None && trim(x.stdout).len() == 0 ==> finished(r, x).result == r.result,
        finished(r, x).stdout == r.stdout
            && finished(r, x).error == r.error
            && finished(r, x).reduce_fn == r.reduce_fn,
{
}

/// Law: the name that code assigned last is that of the last line that assigns
/// one, whatever the lines before it assign.
pub proof fn law_last_assignment_wins(before: Seq<Seq<char>>, line: Seq<char>, after: Seq<Seq<char>>)
    requires
        assigned_name(line) is Some,
        forall|i: int| 0 <= i < after.len() ==> assigned_name(#[trigger] after[i]) is None,
    ensures
        last_name(before.push(line) + after) == assigned_name(line),
        last_name(after) is None,
    decreases after.len(),
{
    let all = before.push(line) + after;
    if after.len() == 0 {
        assert(all =~= before.push(line));
    } else {
        law_last_assignment_wins(before, line, after.drop_last());
        assert(all.drop_last() =~= before.push(line) + after.drop_last());
        assert(all.last() == after.last());
    }
}

/// Law: a worker is known by the index that is stored with its id, the first
/// of that id where there are several; one that is not stored has index 0.
pub proof fn law_worker_is_found_by_its_id(workers: Seq<SwarmWorkerRecord>, k: int, id: Seq<char>)
    requires
        0 <= k <= workers.len(),
        forall|i: int| 0 <= i < k ==> (#[trigger] workers[i]).id@ != id,
    ensures
        k < workers.len() && workers[k].id@ == id && workers[k].worker_index >= 0 ==> index_of_worker(workers, id)
            == workers[k].worker_index,
        k == workers.len() ==> index_of_worker(workers, id) == 0,
    decreases k,
{
    if k > 0 {
        assert forall|i: int| 0 <= i < k - 1 implies (#[trigger] workers.skip(1)[i]).id@ != id by {
            assert(workers.skip(1)[i] == workers[i + 1]);
        }
        assert(workers[0].id@ != id);
        law_worker_is_found_by_its_id(workers.skip(1), k - 1, id);
    }
}

/// Law: what is known of a swarm is answered by name, and its workers in order.
pub proof fn law_swarm_is_answered_by_name(s: SwarmRecord, workers: Seq<SwarmWorkerRecord>)
    ensures
        field(swarm_value(s, workers), "swarm_id"@) == Some(JsonV::Str(s.id@)),
        field(swarm_value(s, workers), "status"@) == Some(JsonV::Str(s.status@)),
        field(swarm_value(s, workers), "total_workers"@) == Some(JsonV::Int(s.total_workers as int)),
        field(swarm_value(s, workers), "completed_workers"@) == Some(JsonV::Int(s.completed_workers as int)),
        field(swarm_value(s, workers), "failed_workers"@) == Some(JsonV::Int(s.failed_workers as int)),
        field(swarm_value(s, workers), "reduce_stdout"@) == Some(or_null(maybe_owned(s.reduce_stdout))),
        field(swarm_value(s, workers), "reduce_result"@) == Some(or_null(maybe_owned(s.reduce_result))),
        field(swarm_value(s, workers), "reduce_error"@) == Some(or_null(maybe_owned(s.reduce_error))),
        field(swarm_value(s, workers), "created_at"@) == Some(JsonV::Str(s.created_at@)),
        field(swarm_value(s, workers), "finished_at"@) == Some(or_null(maybe_owned(s.finished_at))),
        field(swarm_value(s, workers), "workers"@) == Some(
            JsonV::Arr(Seq::new(workers.len(), |i: int| worker_value(workers[i]))),
        ),
        has_just(
            swarm_value(s, workers),
            set![
                "swarm_id"@, "status"@, "total_workers"@, "completed_workers"@, "failed_workers"@,
                "reduce_stdout"@, "reduce_result"@, "reduce_error"@, "created_at"@, "finished_at"@, "workers"@,
            ],
        ),
{
    reveal_strlit("swarm_id");
    reveal_strlit("status");
    reveal_strlit("total_workers");
    reveal_strlit("completed_workers");
    reveal_strlit("failed_workers");
    reveal_strlit("reduce_stdout");
    reveal_strlit("reduce_result");
    reveal_strlit("reduce_error");
    reveal_strlit("created_at");
    reveal_strlit("finished_at");
    reveal_strlit("workers");
    assert("swarm_id"@.len() == 8);
    assert("status"@.len() == 6);
    assert("total_workers"@.len() == 13);
    assert("completed_workers"@.len() == 17);
    assert("failed_workers"@.len() == 14);
    assert("reduce_stdout"@.len() == 13);
    assert("reduce_result"@.len() == 13);
    assert("reduce_error"@.len() == 12);
    assert("created_at"@.len() == 10);
    assert("finished_at"@.len() == 11);
    assert("workers"@.len() == 7);
    assert("total_workers"@[0] != "reduce_stdout"@[0]);
    assert("total_workers"@[0] != "reduce_result"@[0]);
    assert("reduce_stdout"@[7] != "reduce_result"@[7]);
    assert(swarm_value(s, workers)->Obj_0.dom() =~= set![
        "swarm_id"@, "status"@, "total_workers"@, "completed_workers"@, "failed_workers"@, "reduce_stdout"@,
        "reduce_result"@, "reduce_error"@, "created_at"@, "finished_at"@, "workers"@,
    ]);
}

/// Law: a failure with a detail is answered with both, by name.
pub proof fn law_failure_has_its_detail(error: Seq<char>, detail: Seq<char>)
    ensures
        field(error_with_detail(error, detail), "error"@) == Some(JsonV::Str(error)),
        field(error_with_detail(error, detail), "detail"@) == Some(JsonV::Str(detail)),
        has_just(error_with_detail(error, detail), set!["error"@, "detail"@]),
{
    reveal_strlit("error");
    reveal_strlit("detail");
    assert("error"@.len() == 5);
    assert("detail"@.len() == 6);
    assert(error_with_detail(error, detail)->Obj_0.dom() =~= set!["error"@, "detail"@]);
}

/// Law: what a worker left, what it sent and what a reducer holds are known by what
/// their fields say.
pub proof fn law_swarm_parts_keep_their_names(d: WorkerDone, w: WorkerResult, r: Reducer)
    ensures
        d@.stdout == d.stdout@,
        d@.result == maybe_owned(d.result),
        d@.error == maybe_owned(d.error),
        d@.plots == texts(d.plots@),
        d@.duration_ms == d.duration_ms,
        w@.worker_index == w.worker_index,
        w@.result == maybe_owned(w.result),
        w@.stdout == w.stdout@,
        w@.error == maybe_owned(w.error),
        r@.reduce_fn == r.reduce_fn@,
        r@.stdout == maybe_owned(r.stdout),
        r@.result == maybe_owned(r.result),
        r@.error == maybe_owned(r.error),
{
}

/// Law: a value is carried in code as the Base64 of its JSON, which gives it back and
/// cannot end the text that it stands in.
pub proof fn law_code_carries_its_value(v: JsonV, text: Seq<char>)
    ensures
        encoded(v) == base64_text(encode_utf8(json_text(v))),
        carries(text, v)
            <==> base64_bytes(text) == Some(encode_utf8(json_text(v)))
                && (forall|i: int| 0 <= i < text.len() ==> base64_char(#[trigger] text[i])),
        forall|c: char|
            #[trigger] base64_char(c)
                <==> 65 <= c as int <= 90
                    || 97 <= c as int <= 122
                    || 48 <= c as int <= 57
                    || c as int == 43
                    || c as int == 47
                    || c as int == 61,
{
}

/// Law: a name starts with a letter or an underscore and goes on with letters, digits
/// and underscores; an assignment has one equals sign behind it.
pub proof fn law_names_are_those_of_python(c: char, s: Seq<char>)
    ensures
        name_start(c) <==> 97 <= c as int <= 122 || 65 <= c as int <= 90 || c as int == 95,
        name_char(c) <==> 97 <= c as int <= 122 || 65 <= c as int <= 90 || c as int == 95 || 48 <= c as int <= 57,
        single_equals(s) <==> s.len() > 0 && s[0] == '=' && (s.len() == 1 || s[1] != '='),
{
}

/// Law: an index that is stored is that of the worker; one below zero is read as the
/// unsigned number with the same bits.
pub proof fn law_stored_index_is_the_worker_s(i: i64)
    ensures
        i >= 0 ==> unsigned(i) == i,
        i < 0 ==> unsigned(i) == i + 0x1_0000_0000_0000_0000,
{
}

/// Law: what an execution captured is its result, or else what it printed without the
/// space round it, and nothing where it printed none.
pub proof fn law_code_that_prints_is_captured(x: ExecutionV, r: Seq<char>)
    ensures
        x.result == Some(r) ==> captured(x) == Some(r),
        x.result is None && trim(x.stdout).len() > 0 ==> captured(x) == Some(trim(x.stdout)),
        x.result is None && trim(x.stdout).len() == 0 ==> captured(x) is None,
{
}

} // verus!
