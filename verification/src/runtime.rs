//! The protocol spoken with a Python worker process: one JSON command per line,
//! one JSON reply per line.
use vstd::prelude::*;
use vstd::string::*;
use vstd::utf8::encode_utf8;
use crate::billing::form_view;
use crate::json::{
    field_strings, field_text, field_u64, json_parse, json_text, parse_json, print_json, text_array, text_or_empty,
    Fields, Json, JsonV,
};
use crate::text::{dec, decimal, labelled, maybe_owned, same, texts, trim, trimmed};

verus! {

/// Seconds that a worker has to report ready.
pub const READY_TIMEOUT_SECS: u32 = 30;

/// Seconds that a worker has to answer where no plan sets the time.
pub const EXECUTE_TIMEOUT_SECS: u32 = 35;

/// Seconds that a worker has to install packages.
pub const INSTALL_TIMEOUT_SECS: u32 = 120;

/// Seconds that a worker has to clear its state.
pub const CLEAR_TIMEOUT_SECS: u32 = 5;

/// What came of an execution.
pub struct ExecutionResult {
    pub stdout: String,
    pub result: Option<String>,
    pub error: Option<String>,
    pub duration_ms: u64,
    /// Plots, as base64 of PNG images.
    pub plots: Vec<String>,
    /// An HTML table, where the last expression was one.
    pub html: Option<String>,
    pub output_tokens: u64,
    pub state_tokens: u64,
}

/// What came of an execution, as mathematics.
pub struct ExecutionV {
    pub stdout: Seq<char>,
    pub result: Option<Seq<char>>,
    pub error: Option<Seq<char>>,
    pub duration_ms: u64,
    pub plots: Seq<Seq<char>>,
    pub html: Option<Seq<char>>,
    pub output_tokens: u64,
    pub state_tokens: u64,
}

impl View for ExecutionResult {
    type V = ExecutionV;

    open spec fn view(&self) -> ExecutionV {
        ExecutionV {
            stdout: self.stdout@,
            result: maybe_owned(self.result),
            error: maybe_owned(self.error),
            duration_ms: self.duration_ms,
            plots: texts(self.plots@),
            html: maybe_owned(self.html),
            output_tokens: self.output_tokens,
            state_tokens: self.state_tokens,
        }
    }
}

/// How an exchange with a worker went.
pub enum Exchange {
    WriteFailed(String),
    FlushFailed(String),
    /// The worker closed its output.
    Closed,
    /// The worker answered with this line.
    Line(String),
    ReadFailed(String),
    /// The worker did not answer within so many seconds.
    TimedOut(u32),
}

/// What is said of a worker that did not answer in time.
pub open spec fn timed_out(secs: u32) -> Seq<char> {
    "Execution timed out ("@ + dec(secs as nat) + "s)"@
}

/// An execution that yielded nothing but an error.
pub open spec fn failed(error: Seq<char>, duration_ms: u64) -> ExecutionV {
    ExecutionV {
        stdout: Seq::empty(),
        result: None,
        error: Some(error),
        duration_ms,
        plots: Seq::empty(),
        html: None,
        output_tokens: 0,
        state_tokens: 0,
    }
}

/// What a worker answered, or why there is no answer and after how many
/// milliseconds.
pub open spec fn answer(exchange: Exchange) -> Result<JsonV, (Seq<char>, u64)> {
    match exchange {
        Exchange::WriteFailed(e) => Err(("Failed to write to worker stdin: "@ + e@, 0)),
        Exchange::FlushFailed(e) => Err(("Failed to flush worker stdin: "@ + e@, 0)),
        Exchange::Closed => Err(("Worker process died during execution"@, 0)),
        Exchange::Line(line) => match json_parse(encode_utf8(trim(line@))) {
            Ok(v) => Ok(v),
            Err(e) => Err(("Invalid JSON from worker: "@ + e, 0)),
        },
        Exchange::ReadFailed(e) => Err(("IO error reading from worker: "@ + e@, 0)),
        Exchange::TimedOut(secs) => Err((timed_out(secs), (secs * 1_000) as u64)),
    }
}

/// An answer or its absence, by contents.
pub open spec fn answer_view(r: Result<Json, (String, u64)>) -> Result<JsonV, (Seq<char>, u64)> {
    match r {
        Ok(j) => Ok(j@),
        Err((e, ms)) => Err((e@, ms)),
    }
}

/// Reads the answer out of an exchange.
fn read_answer(exchange: &Exchange) -> (r: Result<Json, (String, u64)>)
    ensures
        answer_view(r) == answer(*exchange),
{
    match exchange {
        Exchange::WriteFailed(e) => Err((labelled("Failed to write to worker stdin: ", e.as_str()), 0)),
        Exchange::FlushFailed(e) => Err((labelled("Failed to flush worker stdin: ", e.as_str()), 0)),
        Exchange::Closed => Err(("Worker process died during execution".to_owned(), 0)),
        Exchange::Line(line) => {
            let t: String = trimmed(line.as_str());
            match parse_json(t.as_str().as_bytes()) {
                Ok(v) => Ok(v),
                Err(e) => Err((labelled("Invalid JSON from worker: ", e.as_str()), 0)),
            }
        },
        Exchange::ReadFailed(e) => Err((labelled("IO error reading from worker: ", e.as_str()), 0)),
        Exchange::TimedOut(secs) => {
            let mut text: String = "Execution timed out (".to_owned();
            let n: String = decimal(*secs as u64);
            text.append(n.as_str());
            text.append("s)");
            Err((text, *secs as u64 * 1_000))
        },
    }
}

/// A number, or 0 in its absence.
pub open spec fn or_zero(n: Option<u64>) -> u64 {
    match n {
        Some(x) => x,
        None => 0,
    }
}

/// A list, or the empty one in its absence.
pub open spec fn or_none(v: Option<Seq<Seq<char>>>) -> Seq<Seq<char>> {
    match v {
        Some(x) => x,
        None => Seq::empty(),
    }
}

/// The execution that a worker's message reports.
pub open spec fn reported(msg: JsonV) -> ExecutionV {
    ExecutionV {
        stdout: text_or_empty(field_text(msg, "stdout"@)),
        result: field_text(msg, "result"@),
        error: field_text(msg, "error"@),
        duration_ms: or_zero(field_u64(msg, "duration_ms"@)),
        plots: or_none(field_strings(msg, "plots"@)),
        html: field_text(msg, "html"@),
        output_tokens: or_zero(field_u64(msg, "output_tokens"@)),
        state_tokens: or_zero(field_u64(msg, "state_tokens"@)),
    }
}

/// What came of an execution, by how the exchange went.
pub open spec fn executed(exchange: Exchange) -> ExecutionV {
    match answer(exchange) {
        Ok(msg) => reported(msg),
        Err((e, ms)) => failed(e, ms),
    }
}

/// The number that `key` names, or 0.
fn number(msg: &Json, key: &str) -> (r: u64)
    ensures
        r == or_zero(field_u64(msg@, key@)),
{
    match msg.get_u64(key) {
        Some(n) => n,
        None => 0,
    }
}

/// The strings that `key` names, or none.
fn strings(msg: &Json, key: &str) -> (r: Vec<String>)
    ensures
        texts(r@) == or_none(field_strings(msg@, key@)),
{
    match msg.get_strings(key) {
        Some(v) => v,
        None => {
            let r: Vec<String> = Vec::new();
            assert(texts(r@) =~= Seq::<Seq<char>>::empty());
            r
        },
    }
}

/// The execution that a worker's message reports.
pub fn read_report(msg: &Json) -> (r: ExecutionResult)
    ensures
        r@ == reported(msg@),
{
    ExecutionResult {
        stdout: msg.get_text("stdout"),
        result: msg.get_string("result"),
        error: msg.get_string("error"),
        duration_ms: number(msg, "duration_ms"),
        plots: strings(msg, "plots"),
        html: msg.get_string("html"),
        output_tokens: number(msg, "output_tokens"),
        state_tokens: number(msg, "state_tokens"),
    }
}

/// An execution that yielded nothing but an error.
fn failure(error: String, duration_ms: u64) -> (r: ExecutionResult)
    ensures
        r@ == failed(error@, duration_ms),
{
    let plots: Vec<String> = Vec::new();
    assert(texts(plots@) =~= Seq::<Seq<char>>::empty());
    ExecutionResult {
        stdout: String::new(),
        result: None,
        error: Some(error),
        duration_ms,
        plots,
        html: None,
        output_tokens: 0,
        state_tokens: 0,
    }
}

/// What came of an execution, by how the exchange with the worker went.
pub fn execution_of(exchange: &Exchange) -> (r: ExecutionResult)
    ensures
        r@ == executed(*exchange),
{
    match read_answer(exchange) {
        Ok(msg) => read_report(&msg),
        Err((e, ms)) => failure(e, ms),
    }
}

/// What a look at a worker process found.
pub enum ProcessState {
    Running,
    Exited,
    /// The look failed.
    Unknown,
}

/// Whether a worker process counts as alive.
pub fn is_alive(state: &ProcessState) -> (r: bool)
    ensures
        r == (state is Running),
{
    match state {
        ProcessState::Running => true,
        ProcessState::Exited => false,
        ProcessState::Unknown => false,
    }
}

// ── Commands ────────────────────────────────────────────

/// The command that executes code.
pub open spec fn execute_line(code: Seq<char>) -> Seq<char> {
    "{\"type\":\"execute\",\"code\":"@ + json_text(JsonV::Str(code)) + "}\n"@
}

/// The command that executes code, as the line that is sent to the worker.
pub fn execute_command(code: &str) -> (r: String)
    ensures
        r@ == execute_line(code@),
        one_line(r@),
{
    let mut s: String = "{\"type\":\"execute\",\"code\":".to_owned();
    let quoted: String = print_json(&Json::Str(code.to_owned()));
    s.append(quoted.as_str());
    s.append("}\n");
    proof {
        reveal_strlit("{\"type\":\"execute\",\"code\":");
        reveal_strlit("}\n");
        let head = "{\"type\":\"execute\",\"code\":"@;
        let tail = "}\n"@;
        let n = s@.len() - 1;
        assert(s@[n] == tail[1]);
        assert forall|i: int| 0 <= i < n implies s@[i] != '\n' by {
            if i < head.len() {
                assert(s@[i] == head[i]);
            } else if i < head.len() + quoted@.len() {
                assert(s@[i] == quoted@[i - head.len()]);
                assert(quoted@.contains(quoted@[i - head.len()]));
            } else {
                assert(s@[i] == tail[0]);
            }
        }
    }
    s
}

/// Whether `s` is one line: it ends in its only line feed.
pub open spec fn one_line(s: Seq<char>) -> bool {
    s.len() > 0 && s.last() == '\n' && forall|i: int| 0 <= i < s.len() - 1 ==> #[trigger] s[i] != '\n'
}

/// The command that clears the state of a worker, as the line that is sent.
pub fn clear_command() -> (r: String)
    ensures
        r@ == "{\"type\":\"clear\"}\n"@,
        one_line(r@),
{
    proof {
        reveal_strlit("{\"type\":\"clear\"}\n");
    }
    "{\"type\":\"clear\"}\n".to_owned()
}

/// A value printed on one line.
fn command_line(value: Json) -> (r: String)
    ensures
        r@ == json_text(value@) + "\n"@,
        one_line(r@),
{
    let mut s: String = print_json(&value);
    let ghost text = s@;
    s.append("\n");
    proof {
        reveal_strlit("\n");
        assert(s@.last() == '\n');
        assert forall|i: int| 0 <= i < s@.len() - 1 implies s@[i] != '\n' by {
            assert(s@[i] == text[i]);
            assert(text.contains(text[i]));
        }
    }
    s
}

/// The command that installs packages.
pub fn install_command(packages: &Vec<String>) -> (r: String)
    ensures
        r@ == json_text(
            JsonV::Obj(map!["type"@ => JsonV::Str("install"@), "packages"@ => text_array(texts(packages@))]),
        ) + "\n"@,
        one_line(r@),
{
    let mut f: Fields = Fields::new();
    f.put_text("type", "install");
    f.put_texts("packages", packages);
    command_line(f.done())
}

/// What came of an installation, by how the exchange with the worker went: an
/// execution, but with more time.
pub fn install_of(exchange: &Exchange) -> (r: ExecutionResult)
    ensures
        r@ == match exchange {
            Exchange::TimedOut(_) => failed("Install timed out (120s)"@, 120_000),
            _ => executed(*exchange),
        },
{
    match exchange {
        Exchange::TimedOut(_) => failure("Install timed out (120s)".to_owned(), 120_000),
        _ => execution_of(exchange),
    }
}

/// The command that saves the state of a worker to a file.
pub fn checkpoint_command(path: &str) -> (r: String)
    ensures
        r@ == json_text(JsonV::Obj(map!["type"@ => JsonV::Str("checkpoint"@), "path"@ => JsonV::Str(path@)])) + "\n"@,
        one_line(r@),
{
    let mut f: Fields = Fields::new();
    f.put_text("type", "checkpoint");
    f.put_text("path", path);
    command_line(f.done())
}

/// The command that restores the state of a worker from a file.
pub fn restore_command(path: &str) -> (r: String)
    ensures
        r@ == json_text(JsonV::Obj(map!["type"@ => JsonV::Str("restore"@), "path"@ => JsonV::Str(path@)])) + "\n"@,
        one_line(r@),
{
    let mut f: Fields = Fields::new();
    f.put_text("type", "restore");
    f.put_text("path", path);
    command_line(f.done())
}

/// The size of a checkpoint and what went wrong, as a worker reports them.
pub open spec fn checkpointed(msg: JsonV) -> (u64, Option<Seq<char>>) {
    (or_zero(field_u64(msg, "size_bytes"@)), field_text(msg, "error"@))
}

/// Reads a worker's report on a checkpoint.
pub fn read_checkpoint(msg: &Json) -> (r: (u64, Option<String>))
    ensures
        (r.0, maybe_owned(r.1)) == checkpointed(msg@),
{
    (number(msg, "size_bytes"), msg.get_string("error"))
}

/// The size of a checkpoint, or why there is none.
pub fn checkpoint_of(exchange: &Exchange) -> (r: (u64, Option<String>))
    ensures
        (r.0, maybe_owned(r.1)) == match answer(*exchange) {
            Ok(msg) => checkpointed(msg),
            Err((e, ms)) => (0u64, Some(e)),
        },
{
    match read_answer(exchange) {
        Ok(msg) => read_checkpoint(&msg),
        Err((e, _)) => (0, Some(e)),
    }
}

/// The variables that were restored and what went wrong, as a worker reports them.
pub open spec fn restored(msg: JsonV) -> (Seq<Seq<char>>, Option<Seq<char>>) {
    (or_none(field_strings(msg, "vars"@)), field_text(msg, "error"@))
}

/// Reads a worker's report on the restoration of a checkpoint.
pub fn read_restore(msg: &Json) -> (r: (Vec<String>, Option<String>))
    ensures
        (texts(r.0@), maybe_owned(r.1)) == restored(msg@),
{
    (strings(msg, "vars"), msg.get_string("error"))
}

/// The variables that were restored, and what went wrong.
pub fn restore_of(exchange: &Exchange) -> (r: (Vec<String>, Option<String>))
    ensures
        (texts(r.0@), maybe_owned(r.1)) == match answer(*exchange) {
            Ok(msg) => restored(msg),
            Err((e, ms)) => (Seq::<Seq<char>>::empty(), Some(e)),
        },
{
    match read_answer(exchange) {
        Ok(msg) => read_restore(&msg),
        Err((e, _)) => {
            let none: Vec<String> = Vec::new();
            assert(texts(none@) =~= Seq::<Seq<char>>::empty());
            (none, Some(e))
        },
    }
}

/// What a line of a streaming execution is.
pub enum StreamEvent {
    /// Output to pass on.
    Output(String),
    /// The execution is over.
    Done(ExecutionResult),
}

/// What a line of a streaming execution is, as mathematics.
pub enum StreamEventV {
    Output(Seq<char>),
    Done(ExecutionV),
}

impl View for StreamEvent {
    type V = StreamEventV;

    open spec fn view(&self) -> StreamEventV {
        match self {
            StreamEvent::Output(s) => StreamEventV::Output(s@),
            StreamEvent::Done(r) => StreamEventV::Done(r@),
        }
    }
}

/// Whether a message carries output of a running execution.
pub open spec fn is_output(msg: JsonV) -> bool {
    field_text(msg, "type"@) == Some("stream"@)
}

/// What a message means to a streaming execution: one of type `stream` is output,
/// which is its line, and every other ends the execution.
pub open spec fn streamed(line: Seq<char>, msg: JsonV) -> StreamEventV {
    if is_output(msg) {
        StreamEventV::Output(line)
    } else {
        StreamEventV::Done(reported(msg))
    }
}

/// Reads a message of a streaming execution, given the line that it came in.
pub fn read_stream(line: &str, msg: &Json) -> (r: StreamEvent)
    ensures
        r@ == streamed(line@, msg@),
{
    let output: bool = match msg.get_str("type") {
        Some(t) => same(t, "stream"),
        None => false,
    };
    if output {
        StreamEvent::Output(line.to_owned())
    } else {
        StreamEvent::Done(read_report(msg))
    }
}

/// What an exchange means to a streaming execution: a line of type `stream` is
/// output, and everything else ends the execution.
pub fn stream_event(exchange: &Exchange) -> (r: StreamEvent)
    ensures
        r@ == match exchange {
            Exchange::Line(line) => match answer(*exchange) {
                Ok(msg) => streamed(trim(line@), msg),
                Err(e) => StreamEventV::Done(executed(*exchange)),
            },
            _ => StreamEventV::Done(executed(*exchange)),
        },
{
    match exchange {
        Exchange::Line(line) => match read_answer(exchange) {
            Ok(msg) => {
                let t: String = trimmed(line.as_str());
                read_stream(t.as_str(), &msg)
            },
            Err((e, ms)) => StreamEvent::Done(failure(e, ms)),
        },
        _ => StreamEvent::Done(execution_of(exchange)),
    }
}

// ── Start ───────────────────────────────────────────────

/// The environment of a worker process.
pub fn worker_env(workspace: &str) -> (r: Vec<(String, String)>)
    ensures
        form_view(r@) == seq![
            ("GREED_WORKSPACE"@, workspace@),
            ("GREED_MAX_MEMORY_MB"@, "512"@),
            ("GREED_MAX_CPU_SECONDS"@, "30"@),
            ("GREED_PRELOAD"@, "1"@),
        ],
{
    let mut env: Vec<(String, String)> = Vec::new();
    env.push(("GREED_WORKSPACE".to_owned(), workspace.to_owned()));
    env.push(("GREED_MAX_MEMORY_MB".to_owned(), "512".to_owned()));
    env.push(("GREED_MAX_CPU_SECONDS".to_owned(), "30".to_owned()));
    env.push(("GREED_PRELOAD".to_owned(), "1".to_owned()));
    assert(form_view(env@) =~= seq![
        ("GREED_WORKSPACE"@, workspace@),
        ("GREED_MAX_MEMORY_MB"@, "512"@),
        ("GREED_MAX_CPU_SECONDS"@, "30"@),
        ("GREED_PRELOAD"@, "1"@),
    ]);
    env
}

/// How the start of a worker went.
pub enum Startup {
    SpawnFailed(String),
    NoStdin,
    NoStdout,
    /// The worker closed its output.
    Closed,
    /// The worker wrote this line.
    Line(String),
    ReadFailed(String),
    TimedOut,
}

/// Why the first message of a worker is refused; nothing where it says that the
/// worker is ready.
pub open spec fn not_ready(line: Seq<char>, msg: JsonV) -> Option<Seq<char>> {
    if field_text(msg, "type"@) == Some("ready"@) {
        None
    } else {
        Some("Expected ready signal from worker, got: "@ + line)
    }
}

/// Reads the first message of a worker, given the line that it came in.
pub fn read_ready(line: &str, msg: &Json) -> (r: Result<(), String>)
    ensures
        match r {
            Ok(_) => not_ready(line@, msg@) is None,
            Err(e) => not_ready(line@, msg@) == Some(e@),
        },
{
    let ready: bool = match msg.get_str("type") {
        Some(s) => same(s, "ready"),
        None => false,
    };
    if ready {
        Ok(())
    } else {
        Err(labelled("Expected ready signal from worker, got: ", line))
    }
}

/// Why a worker did not start; nothing where it did.
pub open spec fn start_error(startup: Startup) -> Option<Seq<char>> {
    match startup {
        Startup::SpawnFailed(e) => Some("Failed to spawn Python worker: "@ + e@),
        Startup::NoStdin => Some("Failed to capture worker stdin"@),
        Startup::NoStdout => Some("Failed to capture worker stdout"@),
        Startup::Closed => Some("Worker process exited before sending ready signal"@),
        Startup::Line(line) => match json_parse(encode_utf8(trim(line@))) {
            Ok(msg) => not_ready(trim(line@), msg),
            Err(e) => Some("Invalid ready message from worker: "@ + e),
        },
        Startup::ReadFailed(e) => Some("IO error reading worker ready signal: "@ + e@),
        Startup::TimedOut => Some("Timeout waiting for worker ready signal (30s)"@),
    }
}

/// Whether a worker is ready for use, by how its start went.
pub fn spawn_outcome(startup: &Startup) -> (r: Result<(), String>)
    ensures
        match r {
            Ok(_) => start_error(*startup) is None,
            Err(e) => start_error(*startup) == Some(e@),
        },
{
    match startup {
        Startup::SpawnFailed(e) => Err(labelled("Failed to spawn Python worker: ", e.as_str())),
        Startup::NoStdin => Err("Failed to capture worker stdin".to_owned()),
        Startup::NoStdout => Err("Failed to capture worker stdout".to_owned()),
        Startup::Closed => Err("Worker process exited before sending ready signal".to_owned()),
        Startup::Line(line) => {
            let t: String = trimmed(line.as_str());
            match parse_json(t.as_str().as_bytes()) {
                Ok(msg) => read_ready(t.as_str(), &msg),
                Err(e) => Err(labelled("Invalid ready message from worker: ", e.as_str())),
            }
        },
        Startup::ReadFailed(e) => Err(labelled("IO error reading worker ready signal: ", e.as_str())),
        Startup::TimedOut => Err("Timeout waiting for worker ready signal (30s)".to_owned()),
    }
}

} // verus!
