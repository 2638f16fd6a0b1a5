//! Swarms: one worker per partition of the data, whose results are reduced as
//! they come in.
use vstd::prelude::*;
use vstd::string::*;
use vstd::utf8::encode_utf8;
use crate::codec::{base64_bytes, base64_char, base64_encode, base64_text};
use crate::db::{worker_value, workers_json, SwarmRecord, SwarmWorkerRecord};
use crate::http::{error_json, error_object, Response, ResponseV, NOT_FOUND, OK, UNAUTHORIZED};
use crate::ident::{new_id, uuid_text};
use crate::json::{json_parse, json_text, opt_text, parse_json, print_json, Fields, Json, JsonV};
use crate::runtime::{ExecutionResult, ExecutionV};
use crate::text::{
    chars, labelled, line_list, lines, maybe_owned, same, skip_space, substring, texts, trim, trim_start, trimmed, white_space,
};

verus! {

/// A request for a swarm.
pub struct SwarmRequest {
    /// Code that runs once before the workers start from its state.
    pub template_code: Option<String>,
    /// Code that runs in each worker, with its slice in `partition`.
    pub map_fn: String,
    /// One slice per worker.
    pub data: Vec<Json>,
    /// Code that reduces the `results` so far.
    pub reduce_fn: Option<String>,
    /// An address to post the result to.
    pub webhook_url: Option<String>,
}

// ── The last assigned variable ──────────────────────────

/// Whether `c` may start a name.
pub open spec fn name_start(c: char) -> bool {
    'a' <= c <= 'z' || 'A' <= c <= 'Z' || c == '_'
}

/// Whether `c` may continue a name.
pub open spec fn name_char(c: char) -> bool {
    name_start(c) || '0' <= c <= '9'
}

fn is_name_start(c: char) -> (r: bool)
    ensures
        r == name_start(c),
{
    ('a' <= c && c <= 'z') || ('A' <= c && c <= 'Z') || c == '_'
}

fn is_name_char(c: char) -> (r: bool)
    ensures
        r == name_char(c),
{
    is_name_start(c) || ('0' <= c && c <= '9')
}

/// How many characters from the front of `s` may be part of a name.
pub open spec fn name_run(s: Seq<char>) -> nat
    decreases s.len(),
{
    if s.len() > 0 && name_char(s[0]) {
        1 + name_run(s.skip(1))
    } else {
        0
    }
}

/// Whether `s` starts with an equals sign that is not part of `==`.
pub open spec fn single_equals(s: Seq<char>) -> bool {
    s.len() > 0 && s[0] == '=' && !(s.len() > 1 && s[1] == '=')
}

/// The name that a line assigns to: what stands before an equals sign, where
/// that is one name and space.
pub open spec fn assigned_name(line: Seq<char>) -> Option<Seq<char>> {
    let s = trim_start(line);
    let n = name_run(s);
    if s.len() > 0 && name_start(s[0]) && single_equals(trim_start(s.skip(n as int))) {
        Some(s.take(n as int))
    } else {
        None
    }
}

/// The name that the last assignment among some lines assigns to.
pub open spec fn last_name(all: Seq<Seq<char>>) -> Option<Seq<char>>
    decreases all.len(),
{
    if all.len() == 0 {
        None
    } else {
        match assigned_name(all.last()) {
            Some(name) => Some(name),
            None => last_name(all.drop_last()),
        }
    }
}

proof fn lemma_skip_skip(s: Seq<char>, a: int, b: int)
    requires
        0 <= a,
        0 <= b,
        a + b <= s.len(),
    ensures
        s.skip(a).skip(b) == s.skip(a + b),
{
    assert(s.skip(a).skip(b) =~= s.skip(a + b));
}

proof fn lemma_trim_start_keeps(s: Seq<char>)
    requires
        s.len() > 0,
        !white_space(s[0]),
    ensures
        trim_start(s) == s,
{
}

/// Where the name that starts at `from` ends.
fn name_end(a: &Vec<char>, from: usize) -> (r: usize)
    requires
        from <= a@.len(),
    ensures
        from <= r <= a@.len(),
        r - from == name_run(a@.skip(from as int)),
{
    let mut i: usize = from;
    while i < a.len() && is_name_char(a[i])
        invariant
            from <= i <= a@.len(),
            i - from + name_run(a@.skip(i as int)) == name_run(a@.skip(from as int)),
        decreases a.len() - i,
    {
        proof {
            lemma_skip_skip(a@, i as int, 1);
            assert(a@.skip(i as int)[0] == a@[i as int]);
        }
        i += 1;
    }
    proof {
        if i < a@.len() {
            assert(a@.skip(i as int)[0] == a@[i as int]);
        }
    }
    i
}

/// The name that a line assigns to.
fn assignment(line: &str) -> (r: Option<String>)
    ensures
        maybe_owned(r) == assigned_name(line@),
{
    let a: Vec<char> = chars(line);
    let start: usize = skip_space(&a, 0);
    let ghost s = trim_start(line@);
    assert(a@.skip(0) =~= a@);
    assert(s == a@.skip(start as int));
    if start >= a.len() || !is_name_start(a[start]) {
        proof {
            if start < a@.len() {
                assert(s[0] == a@[start as int]);
            }
        }
        return None;
    }
    assert(s[0] == a@[start as int]);
    let end: usize = name_end(&a, start);
    proof {
        lemma_skip_skip(a@, start as int, end - start);
    }
    let eq: usize = skip_space(&a, end);
    let ghost rest = trim_start(s.skip(name_run(s) as int));
    assert(rest == a@.skip(eq as int));
    if eq < a.len() && a[eq] == '=' && !(eq + 1 < a.len() && a[eq + 1] == '=') {
        let name: String = substring(&a, start, end);
        assert(name@ =~= s.take(name_run(s) as int));
        proof {
            assert(rest[0] == a@[eq as int]);
            if eq + 1 < a@.len() {
                assert(rest[1] == a@[eq + 1]);
            }
        }
        Some(name)
    } else {
        proof {
            if eq < a@.len() {
                assert(rest[0] == a@[eq as int]);
                if eq + 1 < a@.len() {
                    assert(rest[1] == a@[eq + 1]);
                }
            }
        }
        None
    }
}

/// The name that the last assignment of some code assigns to.
pub fn last_assigned_var(reduce_fn: &str) -> (r: Option<String>)
    ensures
        maybe_owned(r) == last_name(lines(reduce_fn@)),
{
    let all: Vec<String> = line_list(reduce_fn);
    let ghost every = lines(reduce_fn@);
    let mut n: usize = all.len();
    assert(every.take(n as int) =~= every);
    while n > 0
        invariant
            n <= all@.len(),
            every == texts(all@),
            every == lines(reduce_fn@),
            last_name(every) == last_name(every.take(n as int)),
        decreases n,
    {
        proof {
            assert(every.take(n as int).drop_last() =~= every.take(n - 1));
            assert(every.take(n as int).last() == all@[n - 1]@);
        }
        match assignment(all[n - 1].as_str()) {
            Some(name) => return Some(name),
            None => {},
        }
        n -= 1;
    }
    None
}

/// Whether all of `s` is space.
pub open spec fn all_space(s: Seq<char>) -> bool {
    forall|i: int| 0 <= i < s.len() ==> white_space(#[trigger] s[i])
}

/// Whether `s` is a name.
pub open spec fn is_name(s: Seq<char>) -> bool {
    s.len() > 0 && name_start(s[0]) && forall|i: int| 0 <= i < s.len() ==> name_char(#[trigger] s[i])
}

/// Whether a line is space, a name, space, an equals sign, and something that
/// does not start with another one.
pub open spec fn assigns(line: Seq<char>, s1: Seq<char>, name: Seq<char>, s2: Seq<char>, rest: Seq<char>) -> bool {
    &&& line == s1 + name + s2 + "="@ + rest
    &&& all_space(s1)
    &&& is_name(name)
    &&& all_space(s2)
    &&& !(rest.len() > 0 && rest[0] == '=')
}

proof fn lemma_trim_start_space(space: Seq<char>, s: Seq<char>)
    requires
        all_space(space),
    ensures
        trim_start(space + s) == trim_start(s),
    decreases space.len(),
{
    if space.len() == 0 {
        assert(space + s =~= s);
    } else {
        assert((space + s)[0] == space[0]);
        assert((space + s).skip(1) =~= space.skip(1) + s);
        assert forall|i: int| 0 <= i < space.skip(1).len() implies white_space(#[trigger] space.skip(1)[i]) by {
            assert(space.skip(1)[i] == space[i + 1]);
        }
        lemma_trim_start_space(space.skip(1), s);
    }
}

proof fn lemma_trim_start_splits(s: Seq<char>) -> (k: int)
    ensures
        0 <= k <= s.len(),
        trim_start(s) == s.skip(k),
        all_space(s.take(k)),
    decreases s.len(),
{
    if s.len() > 0 && white_space(s[0]) {
        let k = lemma_trim_start_splits(s.skip(1));
        lemma_skip_skip(s, 1, k);
        assert forall|i: int| 0 <= i < k + 1 implies white_space(#[trigger] s.take(k + 1)[i]) by {
            if i > 0 {
                assert(s.take(k + 1)[i] == s.skip(1).take(k)[i - 1]);
            }
        }
        k + 1
    } else {
        assert(s.skip(0) =~= s);
        0
    }
}

proof fn lemma_name_run_bounds(s: Seq<char>)
    ensures
        name_run(s) <= s.len(),
        forall|i: int| 0 <= i < name_run(s) ==> name_char(#[trigger] s[i]),
    decreases s.len(),
{
    if s.len() > 0 && name_char(s[0]) {
        lemma_name_run_bounds(s.skip(1));
        assert forall|i: int| 0 <= i < name_run(s) implies name_char(#[trigger] s[i]) by {
            if i > 0 {
                assert(s[i] == s.skip(1)[i - 1]);
            }
        }
    }
}

proof fn lemma_name_run_exact(name: Seq<char>, rest: Seq<char>)
    requires
        forall|i: int| 0 <= i < name.len() ==> name_char(#[trigger] name[i]),
        rest.len() == 0 || !name_char(rest[0]),
    ensures
        name_run(name + rest) == name.len(),
    decreases name.len(),
{
    if name.len() == 0 {
        assert(name + rest =~= rest);
    } else {
        assert((name + rest)[0] == name[0]);
        assert((name + rest).skip(1) =~= name.skip(1) + rest);
        assert forall|i: int| 0 <= i < name.skip(1).len() implies name_char(#[trigger] name.skip(1)[i]) by {
            assert(name.skip(1)[i] == name[i + 1]);
        }
        lemma_name_run_exact(name.skip(1), rest);
    }
}

/// Law: a line that is an assignment to a name is found to assign to that name.
pub proof fn law_assignments_are_found(line: Seq<char>, s1: Seq<char>, name: Seq<char>, s2: Seq<char>, rest: Seq<char>)
    requires
        assigns(line, s1, name, s2, rest),
    ensures
        assigned_name(line) == Some(name),
{
    reveal_strlit("=");
    let tail = s2 + "="@ + rest;
    let s = name + tail;
    assert(line =~= s1 + s);
    lemma_trim_start_space(s1, s);
    assert(s[0] == name[0]);
    assert(!white_space(name[0]));
    lemma_trim_start_keeps(s);
    assert(tail[0] == (if s2.len() > 0 { s2[0] } else { '=' }));
    assert(!name_char(tail[0])) by {
        if s2.len() > 0 {
            assert(white_space(s2[0]));
        }
    }
    lemma_name_run_exact(name, tail);
    assert(s.skip(name.len() as int) =~= tail);
    assert(s.take(name.len() as int) =~= name);
    let end = "="@ + rest;
    assert(tail =~= s2 + end);
    lemma_trim_start_space(s2, end);
    assert(end[0] == '=');
    lemma_trim_start_keeps(end);
    if rest.len() > 0 {
        assert(end[1] == rest[0]);
    }
}

proof fn lemma_five_parts(a: Seq<char>, b: Seq<char>, c: Seq<char>, d: Seq<char>, e: Seq<char>)
    ensures
        a + (b + (c + (d + e))) == a + b + c + d + e,
{
    assert(c + (d + e) =~= c + d + e);
    assert(b + (c + d + e) =~= b + c + d + e);
    assert(a + (b + c + d + e) =~= a + b + c + d + e);
}

/// Law: a line is found to assign to a name only where it is an assignment to
/// that name.
pub proof fn law_found_names_are_assigned(line: Seq<char>)
    requires
        assigned_name(line) is Some,
    ensures
        exists|s1: Seq<char>, s2: Seq<char>, rest: Seq<char>| #[trigger]
            assigns(line, s1, assigned_name(line)->Some_0, s2, rest),
{
    reveal_strlit("=");
    let name = assigned_name(line)->Some_0;
    let k = lemma_trim_start_splits(line);
    let s = trim_start(line);
    let n = name_run(s) as int;
    lemma_name_run_bounds(s);
    let tail = s.skip(n);
    let m = lemma_trim_start_splits(tail);
    let end = trim_start(tail);
    let s1 = line.take(k);
    let s2 = tail.take(m);
    let rest = end.skip(1);
    assert(end == "="@ + rest) by {
        assert(end =~= "="@ + rest);
    }
    assert(tail == s2 + end) by {
        assert(tail =~= s2 + end);
    }
    assert(s == name + tail) by {
        assert(s =~= name + tail);
    }
    assert(line == s1 + s) by {
        assert(line =~= s1 + s);
    }
    lemma_five_parts(s1, name, s2, "="@, rest);
    assert(n > 0);
    assert(is_name(name)) by {
        assert(name[0] == s[0]);
        assert forall|i: int| 0 <= i < name.len() implies name_char(#[trigger] name[i]) by {
            assert(name[i] == s[i]);
        }
    }
    assert(!(rest.len() > 0 && rest[0] == '=')) by {
        if rest.len() > 0 {
            assert(rest[0] == end[1]);
        }
    }
    assert(assigns(line, s1, name, s2, rest));
}

// ── Workers ─────────────────────────────────────────────

/// A place for a worker.
pub struct WorkerSlot {
    pub id: String,
    pub index: usize,
    /// The slice of the worker, as JSON.
    pub partition: String,
}

/// The places for the workers of a swarm, one per slice and in order, each with
/// an identifier of its own making.
pub fn worker_slots(data: &Vec<Json>) -> (r: Vec<WorkerSlot>)
    ensures
        r@.len() == data@.len(),
        forall|i: int|
            0 <= i < data@.len() ==> (#[trigger] r@[i]).index == i && r@[i].partition@ == json_text(data@[i]@) && uuid_text(
                r@[i].id@,
            ),
{
    let mut r: Vec<WorkerSlot> = Vec::new();
    let mut i: usize = 0;
    while i < data.len()
        invariant
            i <= data@.len(),
            r@.len() == i,
            forall|j: int|
                0 <= j < i ==> (#[trigger] r@[j]).index == j && r@[j].partition@ == json_text(data@[j]@) && uuid_text(
                    r@[j].id@,
                ),
        decreases data.len() - i,
    {
        r.push(WorkerSlot { id: new_id(), index: i, partition: print_json(&data[i]) });
        i += 1;
    }
    r
}

/// The base64 text of a value's JSON.
pub open spec fn encoded(v: JsonV) -> Seq<char> {
    base64_text(encode_utf8(json_text(v)))
}

/// Whether a literal can stand between quotes as it is, and stands for the JSON
/// of a value.
pub open spec fn carries(literal: Seq<char>, v: JsonV) -> bool {
    &&& base64_bytes(literal) == Some(encode_utf8(json_text(v)))
    &&& forall|i: int| 0 <= i < literal.len() ==> base64_char(#[trigger] literal[i])
}

/// The base64 text of a value's JSON.
fn encode(v: &Json) -> (r: String)
    ensures
        r@ == encoded(v@),
        carries(r@, v@),
{
    let t: String = print_json(v);
    base64_encode(t.as_str().as_bytes())
}

/// The code that a worker runs: it puts its slice into `partition`, maps, and
/// names the `result` last.
pub open spec fn worker_text(partition: JsonV, map_fn: Seq<char>) -> Seq<char> {
    "import json as _json, base64 as _b64\npartition = _json.loads(_b64.b64decode('"@ + encoded(partition)
        + "'))\ndel _json, _b64"@ + "\n"@ + map_fn + "\nresult"@
}

/// The code that a worker runs.
pub fn worker_code(partition: &Json, map_fn: &str) -> (r: String)
    ensures
        r@ == worker_text(partition@, map_fn@),
        carries(encoded(partition@), partition@),
{
    let mut s: String = "import json as _json, base64 as _b64\npartition = _json.loads(_b64.b64decode('".to_owned();
    let e: String = encode(partition);
    s.append(e.as_str());
    s.append("'))\ndel _json, _b64");
    s.append("\n");
    s.append(map_fn);
    s.append("\nresult");
    s
}

/// What a worker computed: the result that was captured or, without one, its
/// output, where there is any.
pub open spec fn captured(x: ExecutionV) -> Option<Seq<char>> {
    match x.result {
        Some(r) => Some(r),
        None => if trim(x.stdout).len() == 0 {
            None
        } else {
            Some(trim(x.stdout))
        },
    }
}

/// What a worker computed.
pub fn captured_result(x: &ExecutionResult) -> (r: Option<String>)
    ensures
        maybe_owned(r) == captured(x@),
{
    match &x.result {
        Some(r) => Some(r.clone()),
        None => {
            let t: String = trimmed(x.stdout.as_str());
            if t.as_str().is_empty() {
                None
            } else {
                Some(t)
            }
        },
    }
}

/// A stored index as an unsigned number.
pub open spec fn unsigned(i: i64) -> int {
    if i >= 0 {
        i as int
    } else {
        i + 0x1_0000_0000_0000_0000
    }
}

/// The index of the first of some workers with an identifier, or 0.
pub open spec fn index_of_worker(workers: Seq<SwarmWorkerRecord>, id: Seq<char>) -> int
    decreases workers.len(),
{
    if workers.len() == 0 {
        0
    } else if workers[0].id@ == id {
        unsigned(workers[0].worker_index)
    } else {
        index_of_worker(workers.skip(1), id)
    }
}

/// The index of a worker among the stored ones, or 0.
pub fn worker_index(workers: &Vec<SwarmWorkerRecord>, id: &str) -> (r: u64)
    ensures
        r == index_of_worker(workers@, id@),
{
    let mut i: usize = 0;
    assert(workers@.skip(0) =~= workers@);
    while i < workers.len()
        invariant
            i <= workers@.len(),
            index_of_worker(workers@, id@) == index_of_worker(workers@.skip(i as int), id@),
        decreases workers.len() - i,
    {
        proof {
            assert(workers@.skip(i as int).skip(1) =~= workers@.skip(i + 1));
            assert(workers@.skip(i as int)[0] == workers@[i as int]);
        }
        if same(workers[i].id.as_str(), id) {
            let n: i64 = workers[i].worker_index;
            return if n >= 0 {
                n as u64
            } else {
                u64::MAX - (-(n + 1)) as u64
            };
        }
        i += 1;
    }
    0
}

/// How the run of a worker ended.
pub enum WorkerEnd {
    /// No session could be created.
    NoSession(String),
    /// The session was gone before it ran.
    Vanished,
    Ran(ExecutionResult),
}

/// What is stored of a worker that is done.
pub struct WorkerDone {
    pub stdout: String,
    pub result: Option<String>,
    pub error: Option<String>,
    pub plots: Vec<String>,
    pub duration_ms: i64,
}

/// What is stored of a worker that is done, as mathematics.
pub struct WorkerDoneV {
    pub stdout: Seq<char>,
    pub result: Option<Seq<char>>,
    pub error: Option<Seq<char>>,
    pub plots: Seq<Seq<char>>,
    pub duration_ms: i64,
}

impl View for WorkerDone {
    type V = WorkerDoneV;

    open spec fn view(&self) -> WorkerDoneV {
        WorkerDoneV {
            stdout: self.stdout@,
            result: maybe_owned(self.result),
            error: maybe_owned(self.error),
            plots: texts(self.plots@),
            duration_ms: self.duration_ms,
        }
    }
}

/// What a worker hands to the reduction.
pub struct WorkerResult {
    pub worker_index: u64,
    pub result: Option<String>,
    pub stdout: String,
    pub error: Option<String>,
}

/// What a worker hands to the reduction, as mathematics.
pub struct WorkerResultV {
    pub worker_index: u64,
    pub result: Option<Seq<char>>,
    pub stdout: Seq<char>,
    pub error: Option<Seq<char>>,
}

impl View for WorkerResult {
    type V = WorkerResultV;

    open spec fn view(&self) -> WorkerResultV {
        WorkerResultV {
            worker_index: self.worker_index,
            result: maybe_owned(self.result),
            stdout: self.stdout@,
            error: maybe_owned(self.error),
        }
    }
}

/// What is stored of a worker.
pub open spec fn worker_stored(end: WorkerEnd, elapsed_ms: i64) -> WorkerDoneV {
    match end {
        WorkerEnd::NoSession(e) => WorkerDoneV {
            stdout: Seq::empty(),
            result: None,
            error: Some(e@),
            plots: Seq::empty(),
            duration_ms: 0,
        },
        WorkerEnd::Vanished => WorkerDoneV {
            stdout: Seq::empty(),
            result: None,
            error: Some("session disappeared"@),
            plots: Seq::empty(),
            duration_ms: 0,
        },
        WorkerEnd::Ran(x) => WorkerDoneV {
            stdout: x.stdout@,
            result: captured(x@),
            error: maybe_owned(x.error),
            plots: texts(x.plots@),
            duration_ms: elapsed_ms,
        },
    }
}

/// What a worker hands to the reduction; nothing where its session was gone.
pub open spec fn worker_sent(end: WorkerEnd, index: u64) -> Option<WorkerResultV> {
    match end {
        WorkerEnd::NoSession(e) => Some(
            WorkerResultV { worker_index: index, result: None, stdout: Seq::empty(), error: Some(e@) },
        ),
        WorkerEnd::Vanished => None,
        WorkerEnd::Ran(x) => Some(
            WorkerResultV {
                worker_index: index,
                result: captured(x@),
                stdout: x.stdout@,
                error: maybe_owned(x.error),
            },
        ),
    }
}

/// A copy of an optional text.
fn copy_opt(s: &Option<String>) -> (r: Option<String>)
    ensures
        maybe_owned(r) == maybe_owned(*s),
{
    match s {
        Some(t) => Some(t.clone()),
        None => None,
    }
}

/// What is stored of a worker, by how its run ended.
pub fn worker_done(end: &WorkerEnd, elapsed_ms: i64) -> (r: WorkerDone)
    ensures
        r@ == worker_stored(*end, elapsed_ms),
{
    match end {
        WorkerEnd::NoSession(e) => {
            let plots: Vec<String> = crate::text::no_texts();
            WorkerDone { stdout: String::new(), result: None, error: Some(e.clone()), plots, duration_ms: 0 }
        },
        WorkerEnd::Vanished => {
            let plots: Vec<String> = crate::text::no_texts();
            WorkerDone {
                stdout: String::new(),
                result: None,
                error: Some("session disappeared".to_owned()),
                plots,
                duration_ms: 0,
            }
        },
        WorkerEnd::Ran(x) => WorkerDone {
            stdout: x.stdout.clone(),
            result: captured_result(x),
            error: copy_opt(&x.error),
            plots: crate::text::copy_texts(&x.plots),
            duration_ms: elapsed_ms,
        },
    }
}

/// What a worker hands to the reduction, by how its run ended.
pub fn worker_result(end: &WorkerEnd, index: u64) -> (r: Option<WorkerResult>)
    ensures
        match r {
            Some(w) => worker_sent(*end, index) == Some(w@),
            None => worker_sent(*end, index) is None,
        },
{
    match end {
        WorkerEnd::NoSession(e) => Some(
            WorkerResult { worker_index: index, result: None, stdout: String::new(), error: Some(e.clone()) },
        ),
        WorkerEnd::Vanished => None,
        WorkerEnd::Ran(x) => Some(
            WorkerResult {
                worker_index: index,
                result: captured_result(x),
                stdout: x.stdout.clone(),
                error: copy_opt(&x.error),
            },
        ),
    }
}

// ── The reduction ───────────────────────────────────────

/// The state of a reduction: what its latest execution gave.
pub struct Reducer {
    pub reduce_fn: String,
    pub stdout: Option<String>,
    pub result: Option<String>,
    pub error: Option<String>,
}

/// The state of a reduction, as mathematics.
pub struct ReducerV {
    pub reduce_fn: Seq<char>,
    pub stdout: Option<Seq<char>>,
    pub result: Option<Seq<char>>,
    pub error: Option<Seq<char>>,
}

impl View for Reducer {
    type V = ReducerV;

    open spec fn view(&self) -> ReducerV {
        ReducerV {
            reduce_fn: self.reduce_fn@,
            stdout: maybe_owned(self.stdout),
            result: maybe_owned(self.result),
            error: maybe_owned(self.error),
        }
    }
}

/// The value that a worker's result stands for, `null` where it is no JSON.
pub open spec fn result_value(result: Option<Seq<char>>) -> JsonV {
    match result {
        Some(s) => match json_parse(encode_utf8(s)) {
            Ok(v) => v,
            Err(_) => JsonV::Null,
        },
        None => JsonV::Null,
    }
}

/// An absent text as `null`.
pub open spec fn text_or_null(s: Option<Seq<char>>) -> JsonV {
    match s {
        Some(t) => JsonV::Str(t),
        None => JsonV::Null,
    }
}

/// What the reduction is fed of a worker.
pub open spec fn fed(w: WorkerResultV) -> JsonV {
    JsonV::Obj(
        map![
            "worker_index"@ => JsonV::Int(w.worker_index as int),
            "result"@ => result_value(w.result),
            "stdout"@ => JsonV::Str(w.stdout),
            "error"@ => text_or_null(w.error),
        ],
    )
}

/// The code that feeds a worker's result to the reduction and reduces.
pub open spec fn feed_text(w: WorkerResultV, reduce_fn: Seq<char>) -> Seq<char> {
    "import json as _j, base64 as _b64\nresults.append(_j.loads(_b64.b64decode('"@ + encoded(fed(w))
        + "')))\ndel _j, _b64\n"@ + reduce_fn
}

/// The state after an execution of the reduction.
pub open spec fn absorbed(r: ReducerV, x: ExecutionV) -> ReducerV {
    ReducerV { reduce_fn: r.reduce_fn, stdout: Some(x.stdout), result: x.result, error: x.error }
}

/// The code that asks for the result of a reduction that captured none: the last
/// variable that it assigns.
pub open spec fn final_code(r: ReducerV) -> Option<Seq<char>> {
    match r.result {
        Some(_) => None,
        None => last_name(lines(r.reduce_fn)),
    }
}

/// The state after the result was asked for.
pub open spec fn finished(r: ReducerV, x: ExecutionV) -> ReducerV {
    match captured(x) {
        Some(v) => ReducerV { result: Some(v), ..r },
        None => r,
    }
}

impl Reducer {
    /// A reduction that has seen no result.
    pub fn new(reduce_fn: String) -> (r: Reducer)
        ensures
            r@ == (ReducerV { reduce_fn: reduce_fn@, stdout: None, result: None, error: None }),
    {
        Reducer { reduce_fn, stdout: None, result: None, error: None }
    }

    /// The code that prepares the reduction.
    pub fn start_code() -> (r: String)
        ensures
            r@ == "results = []\n_reduce_running = None"@,
    {
        "results = []\n_reduce_running = None".to_owned()
    }

    /// The code that feeds a worker's result to the reduction and reduces.
    pub fn feed_code(&self, w: &WorkerResult) -> (r: String)
        ensures
            r@ == feed_text(w@, self@.reduce_fn),
            carries(encoded(fed(w@)), fed(w@)),
    {
        let value: Json = match &w.result {
            Some(s) => match parse_json(s.as_str().as_bytes()) {
                Ok(v) => v,
                Err(_) => Json::Null,
            },
            None => Json::Null,
        };
        let mut f: Fields = Fields::new();
        f.put_u64("worker_index", w.worker_index);
        f.put("result", value);
        f.put_text("stdout", w.stdout.as_str());
        f.put_opt("error", &w.error);
        let v: Json = f.done();
        assert(v@ == fed(w@));
        let mut s: String = "import json as _j, base64 as _b64\nresults.append(_j.loads(_b64.b64decode('".to_owned();
        let e: String = encode(&v);
        s.append(e.as_str());
        s.append("')))\ndel _j, _b64\n");
        s.append(self.reduce_fn.as_str());
        s
    }

    /// Takes an execution of the reduction in.
    pub fn absorb(&mut self, x: ExecutionResult)
        ensures
            final(self)@ == absorbed(old(self)@, x@),
    {
        self.stdout = Some(x.stdout);
        self.result = x.result;
        self.error = x.error;
    }

    /// The code that asks for the result, where the reduction captured none.
    pub fn final_code(&self) -> (r: Option<String>)
        ensures
            maybe_owned(r) == final_code(self@),
    {
        match &self.result {
            Some(_) => None,
            None => last_assigned_var(self.reduce_fn.as_str()),
        }
    }

    /// Takes the answer to that question in.
    pub fn finish(&mut self, x: &ExecutionResult)
        ensures
            final(self)@ == finished(old(self)@, x@),
    {
        match captured_result(x) {
            Some(v) => {
                self.result = Some(v);
            },
            None => {},
        }
    }

    /// A reduction for which no session could be created.
    pub fn no_session(&mut self, error: &str)
        ensures
            final(self)@ == (ReducerV {
                reduce_fn: old(self)@.reduce_fn,
                stdout: None,
                result: None,
                error: Some("Reducer session failed: "@ + error@),
            }),
    {
        self.stdout = None;
        self.result = None;
        self.error = Some(labelled("Reducer session failed: ", error));
    }

    /// A reduction whose session was gone before it ran.
    pub fn vanished(&mut self)
        ensures
            final(self)@ == (ReducerV {
                reduce_fn: old(self)@.reduce_fn,
                stdout: None,
                result: None,
                error: Some("Reducer session disappeared"@),
            }),
    {
        self.stdout = None;
        self.result = None;
        self.error = Some("Reducer session disappeared".to_owned());
    }
}

/// The state after a run of executions of the reduction.
pub open spec fn after_all(r: ReducerV, xs: Seq<ExecutionV>) -> ReducerV
    decreases xs.len(),
{
    if xs.len() == 0 {
        r
    } else {
        absorbed(after_all(r, xs.drop_last()), xs.last())
    }
}

/// Law: the outcome of a reduction is that of its latest execution, whatever
/// came before.
pub proof fn law_latest_reduction_counts(r: ReducerV, xs: Seq<ExecutionV>)
    requires
        xs.len() > 0,
    ensures
        after_all(r, xs) == absorbed(r, xs.last()),
    decreases xs.len(),
{
    lemma_reduce_fn_stays(r, xs.drop_last());
}

proof fn lemma_reduce_fn_stays(r: ReducerV, xs: Seq<ExecutionV>)
    ensures
        after_all(r, xs).reduce_fn == r.reduce_fn,
    decreases xs.len(),
{
    if xs.len() > 0 {
        lemma_reduce_fn_stays(r, xs.drop_last());
    }
}

/// Law: a reduction that captured a result keeps it; asking for one changes
/// nothing but a missing result.
pub proof fn law_captured_result_stays(r: ReducerV, x: ExecutionV)
    ensures
        r.result is Some ==> final_code(r) is None,
        finished(r, x).stdout == r.stdout,
        finished(r, x).error == r.error,
        captured(x) is None ==> finished(r, x) == r,
{
}

// ── Requests ────────────────────────────────────────────

/// Admits a request for a swarm: it needs an API key and at least one slice.
pub fn admit_swarm(api_key: Option<String>, partitions: usize) -> (r: Result<String, Response>)
    ensures
        match (api_key, r) {
            (None, Err(x)) => x@ == ResponseV::Status(UNAUTHORIZED),
            (Some(k), Err(x)) => partitions == 0 && x@ == ResponseV::Json(
                OK,
                error_object("data must have at least one partition"@),
            ),
            (Some(k), Ok(key)) => partitions > 0 && key == k,
            (None, Ok(_)) => false,
        },
{
    match api_key {
        None => Err(Response::Status(UNAUTHORIZED)),
        Some(k) => if partitions == 0 {
            Err(Response::Json(OK, error_json("data must have at least one partition")))
        } else {
            Ok(k)
        },
    }
}

/// An error with what is known of it.
pub open spec fn error_with_detail(error: Seq<char>, detail: Seq<char>) -> JsonV {
    JsonV::Obj(map!["error"@ => JsonV::Str(error), "detail"@ => JsonV::Str(detail)])
}

fn detailed(error: &str, detail: &str) -> (r: Json)
    ensures
        r@ == error_with_detail(error@, detail@),
{
    let mut f: Fields = Fields::new();
    f.put_text("error", error);
    f.put_text("detail", detail);
    f.done()
}

/// The answer where the template code ended in an error.
pub fn after_template(error: &str) -> (r: Response)
    ensures
        r@ == ResponseV::Json(OK, error_with_detail("template_code failed"@, error@)),
{
    Response::Json(OK, detailed("template_code failed", error))
}

/// The answer where the state of the template could not be saved.
pub fn after_template_checkpoint(error: &str) -> (r: Response)
    ensures
        r@ == ResponseV::Json(OK, error_with_detail("template checkpoint failed"@, error@)),
{
    Response::Json(OK, detailed("template checkpoint failed", error))
}

/// The answer to a request for a swarm that is on its way.
pub fn create_swarm(swarm_id: &str, total_workers: usize, template_cloning: bool) -> (r: Response)
    ensures
        r@ == ResponseV::Json(
            OK,
            JsonV::Obj(
                map![
                    "swarm_id"@ => JsonV::Str(swarm_id@),
                    "status"@ => JsonV::Str("running"@),
                    "total_workers"@ => JsonV::Int(total_workers as int),
                    "template_cloning"@ => JsonV::Bool(template_cloning),
                ],
            ),
        ),
{
    let mut f: Fields = Fields::new();
    f.put_text("swarm_id", swarm_id);
    f.put_text("status", "running");
    f.put_u64("total_workers", total_workers as u64);
    f.put_bool("template_cloning", template_cloning);
    Response::Json(OK, f.done())
}

/// What is posted when a swarm is over.
pub fn swarm_webhook(swarm: &SwarmRecord, outcome: &Reducer) -> (r: Json)
    ensures
        r@ == JsonV::Obj(
            map![
                "swarm_id"@ => JsonV::Str(swarm.id@),
                "status"@ => JsonV::Str(swarm.status@),
                "completed_workers"@ => JsonV::Int(swarm.completed_workers as int),
                "failed_workers"@ => JsonV::Int(swarm.failed_workers as int),
                "reduce_result"@ => text_or_null(outcome@.result),
                "reduce_stdout"@ => text_or_null(outcome@.stdout),
                "reduce_error"@ => text_or_null(outcome@.error),
            ],
        ),
{
    let mut f: Fields = Fields::new();
    f.put_text("swarm_id", swarm.id.as_str());
    f.put_text("status", swarm.status.as_str());
    f.put_i64("completed_workers", swarm.completed_workers);
    f.put_i64("failed_workers", swarm.failed_workers);
    f.put_opt("reduce_result", &outcome.result);
    f.put_opt("reduce_stdout", &outcome.stdout);
    f.put_opt("reduce_error", &outcome.error);
    f.done()
}

/// A swarm with its workers, as JSON.
pub open spec fn swarm_value(s: SwarmRecord, workers: Seq<SwarmWorkerRecord>) -> JsonV {
    JsonV::Obj(
        map![
            "swarm_id"@ => JsonV::Str(s.id@),
            "status"@ => JsonV::Str(s.status@),
            "total_workers"@ => JsonV::Int(s.total_workers as int),
            "completed_workers"@ => JsonV::Int(s.completed_workers as int),
            "failed_workers"@ => JsonV::Int(s.failed_workers as int),
            "reduce_stdout"@ => opt_text(s.reduce_stdout),
            "reduce_result"@ => opt_text(s.reduce_result),
            "reduce_error"@ => opt_text(s.reduce_error),
            "created_at"@ => JsonV::Str(s.created_at@),
            "finished_at"@ => opt_text(s.finished_at),
            "workers"@ => JsonV::Arr(Seq::new(workers.len(), |i: int| worker_value(workers[i]))),
        ],
    )
}

/// The answer to a look at a swarm, given whether the request carries a key and
/// what is stored under the two.
pub fn get_swarm(keyed: bool, swarm: Option<&SwarmRecord>, workers: &Vec<SwarmWorkerRecord>) -> (r: Response)
    ensures
        r@ == if !keyed {
            ResponseV::Status(UNAUTHORIZED)
        } else {
            match swarm {
                None => ResponseV::Status(NOT_FOUND),
                Some(s) => ResponseV::Json(OK, swarm_value(*s, workers@)),
            }
        },
{
    if !keyed {
        return Response::Status(UNAUTHORIZED);
    }
    match swarm {
        None => Response::Status(NOT_FOUND),
        Some(s) => {
            let mut f: Fields = Fields::new();
            f.put_text("swarm_id", s.id.as_str());
            f.put_text("status", s.status.as_str());
            f.put_i64("total_workers", s.total_workers);
            f.put_i64("completed_workers", s.completed_workers);
            f.put_i64("failed_workers", s.failed_workers);
            f.put_opt("reduce_stdout", &s.reduce_stdout);
            f.put_opt("reduce_result", &s.reduce_result);
            f.put_opt("reduce_error", &s.reduce_error);
            f.put_text("created_at", s.created_at.as_str());
            f.put_opt("finished_at", &s.finished_at);
            f.put("workers", workers_json(workers));
            Response::Json(OK, f.done())
        },
    }
}

} // verus!
