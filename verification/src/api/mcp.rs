//! The tool endpoint: JSON-RPC messages of the Model Context Protocol, the list
//! of tools, and what each tool asks for and answers.
use vstd::prelude::*;
use vstd::string::*;
use crate::api::routes::maybe_execution;
use crate::clock::{display_time, display_time_text};
use crate::db::{CheckpointInfo, JobRecord};
use crate::http::{Response, ResponseV, ACCEPTED, BAD_REQUEST, OK, UNAUTHORIZED};
use crate::json::{
    field, field_i64, field_strings, field_text, json_parse, opt_text, parse_json, slices, text_array, text_or_empty, Fields, Items, Json,
    JsonV,
};
use crate::runtime::{ExecutionResult, ExecutionV};
use crate::sandbox::{Attempt, SessionInfo, SessionStatus, SessionStatusV};
use crate::text::{
    dec, dec_int, decimal, decimal_signed, join, join_texts, labelled, maybe_owned, no_texts, push_text, same, texts, trim,
    trim_end, trimmed, trimmed_end,
};

verus! {

// ── JSON-RPC ────────────────────────────────────────────

/// The reply to the request `id`.
pub open spec fn ok_value(id: JsonV, result: JsonV) -> JsonV {
    JsonV::Obj(map!["jsonrpc"@ => JsonV::Str("2.0"@), "id"@ => id, "result"@ => result])
}

/// The refusal of the request `id`.
pub open spec fn err_value(id: JsonV, code: int, message: Seq<char>) -> JsonV {
    JsonV::Obj(
        map![
            "jsonrpc"@ => JsonV::Str("2.0"@),
            "id"@ => id,
            "error"@ => JsonV::Obj(map!["code"@ => JsonV::Int(code), "message"@ => JsonV::Str(message)]),
        ],
    )
}

/// One block of text.
pub open spec fn content(s: Seq<char>) -> JsonV {
    JsonV::Arr(seq![JsonV::Obj(map!["type"@ => JsonV::Str("text"@), "text"@ => JsonV::Str(s)])])
}

/// The result of a tool.
pub open spec fn text_value(s: Seq<char>) -> JsonV {
    JsonV::Obj(map!["content"@ => content(s)])
}

/// The error of a tool.
pub open spec fn tool_err_value(s: Seq<char>) -> JsonV {
    JsonV::Obj(map!["content"@ => content(s), "isError"@ => JsonV::Bool(true)])
}

/// The reply to the request `id`.
fn ok(id: Json, result: Json) -> (r: Json)
    ensures
        r@ == ok_value(id@, result@),
{
    let mut f: Fields = Fields::new();
    f.put_text("jsonrpc", "2.0");
    f.put("id", id);
    f.put("result", result);
    f.done()
}

/// The refusal of the request `id`.
fn err(id: Json, code: i64, message: &str) -> (r: Json)
    ensures
        r@ == err_value(id@, code as int, message@),
{
    let mut e: Fields = Fields::new();
    e.put_i64("code", code);
    e.put_text("message", message);
    let mut f: Fields = Fields::new();
    f.put_text("jsonrpc", "2.0");
    f.put("id", id);
    f.put("error", e.done());
    f.done()
}

/// One block of text.
fn content_of(s: &str) -> (r: Json)
    ensures
        r@ == content(s@),
{
    let mut block: Fields = Fields::new();
    block.put_text("type", "text");
    block.put_text("text", s);
    let mut items: Items = Items::new();
    items.put(block.done());
    assert(items@ =~= seq![JsonV::Obj(map!["type"@ => JsonV::Str("text"@), "text"@ => JsonV::Str(s@)])]);
    items.done()
}

/// The result of a tool.
fn text(s: &str) -> (r: Json)
    ensures
        r@ == text_value(s@),
{
    let mut f: Fields = Fields::new();
    f.put("content", content_of(s));
    f.done()
}

/// The error of a tool.
fn tool_err(s: &str) -> (r: Json)
    ensures
        r@ == tool_err_value(s@),
{
    let mut f: Fields = Fields::new();
    f.put("content", content_of(s));
    f.put_bool("isError", true);
    f.done()
}

// ── The list of tools ───────────────────────────────────

/// A parameter of a tool: a string, or a list of strings.
pub struct Param {
    pub name: &'static str,
    pub list: bool,
    pub about: Option<&'static str>,
}

/// A tool.
pub struct Tool {
    pub name: &'static str,
    pub about: &'static str,
    pub required: Vec<&'static str>,
    pub params: Vec<Param>,
}

/// A parameter of a tool, as mathematics.
pub struct ParamV {
    pub name: Seq<char>,
    pub list: bool,
    pub about: Option<Seq<char>>,
}

/// A tool, as mathematics.
pub struct ToolV {
    pub name: Seq<char>,
    pub about: Seq<char>,
    pub required: Seq<Seq<char>>,
    pub params: Seq<ParamV>,
}

impl View for Param {
    type V = ParamV;

    open spec fn view(&self) -> ParamV {
        ParamV {
            name: self.name@,
            list: self.list,
            about: match self.about {
                Some(s) => Some(s@),
                None => None,
            },
        }
    }
}

/// The views of parameters.
pub open spec fn param_views(v: Seq<Param>) -> Seq<ParamV> {
    Seq::new(v.len(), |i: int| v[i]@)
}

impl View for Tool {
    type V = ToolV;

    open spec fn view(&self) -> ToolV {
        ToolV {
            name: self.name@,
            about: self.about@,
            required: slices(self.required@),
            params: param_views(self.params@),
        }
    }
}

/// The views of tools.
pub open spec fn tool_views(v: Seq<Tool>) -> Seq<ToolV> {
    Seq::new(v.len(), |i: int| v[i]@)
}

/// A parameter that is a string, without a description.
pub open spec fn plain(name: Seq<char>) -> ParamV {
    ParamV { name, list: false, about: None }
}

/// A parameter that is a string, with a description.
pub open spec fn described(name: Seq<char>, about: Seq<char>) -> ParamV {
    ParamV { name, list: false, about: Some(about) }
}

/// All tools.
pub open spec fn catalogue() -> Seq<ToolV> {
    seq![
        ToolV {
            name: "create_session"@,
            about: "Create a new Python execution session. Returns session_id. Sessions last 15 minutes and auto-renew on each execution."@,
            required: seq![],
            params: seq![
                described("checkpoint_id"@, "Optional: restore a saved checkpoint on startup."@),
                ParamV {
                    name: "packages"@,
                    list: true,
                    about: Some("Optional: pip install these packages before the session is ready."@),
                },
            ],
        },
        ToolV {
            name: "execute_code"@,
            about: "Execute Python code in a session. Supports numpy, pandas, matplotlib, sklearn, scipy. Returns stdout, last-expression value (Jupyter-style), plots, HTML DataFrames, and full tracebacks."@,
            required: seq!["session_id"@, "code"@],
            params: seq![plain("session_id"@), described("code"@, "Python code to execute."@)],
        },
        ToolV {
            name: "install_packages"@,
            about: "pip install packages into a session. GPU-heavy libraries (torch, tensorflow, jax) are blocked."@,
            required: seq!["session_id"@, "packages"@],
            params: seq![plain("session_id"@), ParamV { name: "packages"@, list: true, about: None }],
        },
        ToolV {
            name: "submit_job"@,
            about: "Submit long-running code as a background job. Returns job_id immediately. Use get_job to poll for results."@,
            required: seq!["session_id"@, "code"@],
            params: seq![
                plain("session_id"@),
                plain("code"@),
                described("webhook_url"@, "Optional URL to POST results to when done."@),
            ],
        },
        ToolV {
            name: "get_job"@,
            about: "Poll the status and result of a background job."@,
            required: seq!["job_id"@],
            params: seq![plain("job_id"@)],
        },
        ToolV {
            name: "session_status"@,
            about: "Get session TTL remaining (seconds), calls used, and active status."@,
            required: seq!["session_id"@],
            params: seq![plain("session_id"@)],
        },
        ToolV {
            name: "terminate_session"@,
            about: "Terminate a session and free its resources."@,
            required: seq!["session_id"@],
            params: seq![plain("session_id"@)],
        },
        ToolV {
            name: "create_checkpoint"@,
            about: "Save the current session state (all variables, functions, imports) to a named checkpoint that persists across sessions."@,
            required: seq!["session_id"@],
            params: seq![plain("session_id"@), plain("name"@)],
        },
        ToolV {
            name: "restore_checkpoint"@,
            about: "Restore a saved checkpoint into a running session."@,
            required: seq!["session_id"@, "checkpoint_id"@],
            params: seq![plain("session_id"@), plain("checkpoint_id"@)],
        },
        ToolV {
            name: "list_checkpoints"@,
            about: "List all saved checkpoints for this API key."@,
            required: seq![],
            params: seq![],
        },
        ToolV {
            name: "delete_checkpoint"@,
            about: "Delete a checkpoint and its stored file."@,
            required: seq!["checkpoint_id"@],
            params: seq![plain("checkpoint_id"@)],
        },
    ]
}

/// The schema of a parameter.
pub open spec fn param_schema(p: ParamV) -> JsonV {
    let kind = if p.list {
        map![
            "type"@ => JsonV::Str("array"@),
            "items"@ => JsonV::Obj(map!["type"@ => JsonV::Str("string"@)]),
        ]
    } else {
        map!["type"@ => JsonV::Str("string"@)]
    };
    match p.about {
        Some(s) => JsonV::Obj(kind.insert("description"@, JsonV::Str(s))),
        None => JsonV::Obj(kind),
    }
}

/// The schemas of parameters, by name.
pub open spec fn properties(params: Seq<ParamV>) -> Map<Seq<char>, JsonV>
    decreases params.len(),
{
    if params.len() == 0 {
        Map::empty()
    } else {
        properties(params.drop_last()).insert(params.last().name, param_schema(params.last()))
    }
}

/// The schema of what a tool takes.
pub open spec fn input_schema(t: ToolV) -> JsonV {
    let base = map!["type"@ => JsonV::Str("object"@)];
    let needs = if t.required.len() > 0 {
        base.insert("required"@, text_array(t.required))
    } else {
        base
    };
    JsonV::Obj(needs.insert("properties"@, JsonV::Obj(properties(t.params))))
}

/// A tool as it is listed.
pub open spec fn tool_value(t: ToolV) -> JsonV {
    JsonV::Obj(
        map!["name"@ => JsonV::Str(t.name), "description"@ => JsonV::Str(t.about), "inputSchema"@ => input_schema(t)],
    )
}

/// The list of tools.
pub open spec fn tool_list_value() -> JsonV {
    JsonV::Obj(
        map!["tools"@ => JsonV::Arr(Seq::new(catalogue().len(), |i: int| tool_value(catalogue()[i])))],
    )
}

fn plain_param(name: &'static str) -> (r: Param)
    ensures
        r@ == plain(name@),
{
    Param { name, list: false, about: None }
}

fn described_param(name: &'static str, about: &'static str) -> (r: Param)
    ensures
        r@ == described(name@, about@),
{
    Param { name, list: false, about: Some(about) }
}

fn tool(name: &'static str, about: &'static str, required: Vec<&'static str>, params: Vec<Param>) -> (r: Tool)
    ensures
        r@ == (ToolV { name: name@, about: about@, required: slices(required@), params: param_views(params@) }),
{
    Tool { name, about, required, params }
}

/// The tools on sessions.
fn session_tools() -> (r: Vec<Tool>)
    ensures
        tool_views(r@) == catalogue().take(7),
{
    let mut v: Vec<Tool> = Vec::new();
    v.push(
        tool(
            "create_session",
            "Create a new Python execution session. Returns session_id. Sessions last 15 minutes and auto-renew on each execution.",
            Vec::new(),
            vec![
                described_param("checkpoint_id", "Optional: restore a saved checkpoint on startup."),
                Param {
                    name: "packages",
                    list: true,
                    about: Some("Optional: pip install these packages before the session is ready."),
                },
            ],
        ),
    );
    assert(v@[0]@.required =~= catalogue()[0].required);
    assert(v@[0]@.params =~= catalogue()[0].params);
    v.push(
        tool(
            "execute_code",
            "Execute Python code in a session. Supports numpy, pandas, matplotlib, sklearn, scipy. Returns stdout, last-expression value (Jupyter-style), plots, HTML DataFrames, and full tracebacks.",
            vec!["session_id", "code"],
            vec![plain_param("session_id"), described_param("code", "Python code to execute.")],
        ),
    );
    assert(v@[1]@.required =~= catalogue()[1].required);
    assert(v@[1]@.params =~= catalogue()[1].params);
    v.push(
        tool(
            "install_packages",
            "pip install packages into a session. GPU-heavy libraries (torch, tensorflow, jax) are blocked.",
            vec!["session_id", "packages"],
            vec![plain_param("session_id"), Param { name: "packages", list: true, about: None }],
        ),
    );
    assert(v@[2]@.required =~= catalogue()[2].required);
    assert(v@[2]@.params =~= catalogue()[2].params);
    v.push(
        tool(
            "submit_job",
            "Submit long-running code as a background job. Returns job_id immediately. Use get_job to poll for results.",
            vec!["session_id", "code"],
            vec![
                plain_param("session_id"),
                plain_param("code"),
                described_param("webhook_url", "Optional URL to POST results to when done."),
            ],
        ),
    );
    assert(v@[3]@.required =~= catalogue()[3].required);
    assert(v@[3]@.params =~= catalogue()[3].params);
    v.push(
        tool(
            "get_job",
            "Poll the status and result of a background job.",
            vec!["job_id"],
            vec![plain_param("job_id")],
        ),
    );
    assert(v@[4]@.required =~= catalogue()[4].required);
    assert(v@[4]@.params =~= catalogue()[4].params);
    v.push(
        tool(
            "session_status",
            "Get session TTL remaining (seconds), calls used, and active status.",
            vec!["session_id"],
            vec![plain_param("session_id")],
        ),
    );
    assert(v@[5]@.required =~= catalogue()[5].required);
    assert(v@[5]@.params =~= catalogue()[5].params);
    v.push(
        tool(
            "terminate_session",
            "Terminate a session and free its resources.",
            vec!["session_id"],
            vec![plain_param("session_id")],
        ),
    );
    assert(v@[6]@.required =~= catalogue()[6].required);
    assert(v@[6]@.params =~= catalogue()[6].params);
    assert(tool_views(v@) =~= catalogue().take(7));
    v
}

/// All tools.
fn all_tools() -> (r: Vec<Tool>)
    ensures
        tool_views(r@) == catalogue(),
{
    let mut v: Vec<Tool> = session_tools();
    let ghost first = v@;
    assert(tool_views(first).len() == 7);
    assert(forall|i: int| 0 <= i < 7 ==> (#[trigger] first[i])@ == tool_views(first)[i]);
    v.push(
        tool(
            "create_checkpoint",
            "Save the current session state (all variables, functions, imports) to a named checkpoint that persists across sessions.",
            vec!["session_id"],
            vec![plain_param("session_id"), plain_param("name")],
        ),
    );
    assert(v@[7]@.required =~= catalogue()[7].required);
    assert(v@[7]@.params =~= catalogue()[7].params);
    v.push(
        tool(
            "restore_checkpoint",
            "Restore a saved checkpoint into a running session.",
            vec!["session_id", "checkpoint_id"],
            vec![plain_param("session_id"), plain_param("checkpoint_id")],
        ),
    );
    assert(v@[8]@.required =~= catalogue()[8].required);
    assert(v@[8]@.params =~= catalogue()[8].params);
    v.push(
        tool("list_checkpoints", "List all saved checkpoints for this API key.", Vec::new(), Vec::new()),
    );
    assert(v@[9]@.required =~= catalogue()[9].required);
    assert(v@[9]@.params =~= catalogue()[9].params);
    v.push(
        tool(
            "delete_checkpoint",
            "Delete a checkpoint and its stored file.",
            vec!["checkpoint_id"],
            vec![plain_param("checkpoint_id")],
        ),
    );
    assert(v@[10]@.required =~= catalogue()[10].required);
    assert(v@[10]@.params =~= catalogue()[10].params);
    assert(tool_views(v@) =~= catalogue());
    v
}

fn param_json(p: &Param) -> (r: Json)
    ensures
        r@ == param_schema(p@),
{
    let mut f: Fields = Fields::new();
    if p.list {
        f.put_text("type", "array");
        let mut items: Fields = Fields::new();
        items.put_text("type", "string");
        f.put("items", items.done());
    } else {
        f.put_text("type", "string");
    }
    match p.about {
        Some(s) => f.put_text("description", s),
        None => {},
    }
    f.done()
}

fn tool_json(t: &Tool) -> (r: Json)
    ensures
        r@ == tool_value(t@),
{
    let mut props: Fields = Fields::new();
    let ghost all = param_views(t.params@);
    let mut i: usize = 0;
    while i < t.params.len()
        invariant
            i <= t.params@.len(),
            all == param_views(t.params@),
            props@ == properties(all.take(i as int)),
        decreases t.params.len() - i,
    {
        proof {
            assert(all.take(i + 1).drop_last() =~= all.take(i as int));
            assert(all.take(i + 1).last() == t.params@[i as int]@);
        }
        props.put(t.params[i].name, param_json(&t.params[i]));
        i += 1;
    }
    assert(all.take(i as int) =~= all);
    let mut schema: Fields = Fields::new();
    schema.put_text("type", "object");
    assert(slices(t.required@).len() == t.required@.len());
    if t.required.len() > 0 {
        let mut names: Items = Items::new();
        let ghost needs = slices(t.required@);
        let mut k: usize = 0;
        while k < t.required.len()
            invariant
                k <= t.required@.len(),
                needs == slices(t.required@),
                names@.len() == k,
                forall|j: int| 0 <= j < k ==> #[trigger] names@[j] == JsonV::Str(needs[j]),
            decreases t.required.len() - k,
        {
            names.put_text(t.required[k]);
            k += 1;
        }
        assert(JsonV::Arr(names@) == text_array(needs)) by {
            assert(names@ =~= Seq::new(needs.len(), |j: int| JsonV::Str(needs[j])));
        }
        schema.put("required", names.done());
    }
    schema.put("properties", props.done());
    let mut f: Fields = Fields::new();
    f.put_text("name", t.name);
    f.put_text("description", t.about);
    f.put("inputSchema", schema.done());
    f.done()
}

/// The list of tools.
pub fn tool_list() -> (r: Json)
    ensures
        r@ == tool_list_value(),
{
    let tools: Vec<Tool> = all_tools();
    let mut items: Items = Items::new();
    let mut i: usize = 0;
    while i < tools.len()
        invariant
            i <= tools@.len(),
            tool_views(tools@) == catalogue(),
            items@.len() == i,
            forall|j: int| 0 <= j < i ==> #[trigger] items@[j] == tool_value(catalogue()[j]),
        decreases tools.len() - i,
    {
        assert(tools@[i as int]@ == tool_views(tools@)[i as int]);
        items.put(tool_json(&tools[i]));
        i += 1;
    }
    assert(tools@.len() == tool_views(tools@).len());
    assert(items@ =~= Seq::new(catalogue().len(), |k: int| tool_value(catalogue()[k])));
    let mut f: Fields = Fields::new();
    f.put("tools", items.done());
    f.done()
}

// ── What a tool asks for ────────────────────────────────

/// A call of a tool.
pub enum ToolRequest {
    CreateSession { ttl: Option<i64>, install: Option<Vec<String>>, restore: Option<String> },
    ExecuteCode { session_id: String, code: String },
    InstallPackages { session_id: String, packages: Vec<String> },
    SubmitJob { session_id: String, code: String, webhook_url: Option<String> },
    GetJob { job_id: String },
    SessionStatus { session_id: String },
    TerminateSession { session_id: String },
    CreateCheckpoint { session_id: String, name: Option<String> },
    RestoreCheckpoint { session_id: String, checkpoint_id: String },
    ListCheckpoints,
    DeleteCheckpoint { checkpoint_id: String },
}

/// A call of a tool, as mathematics.
pub enum ToolRequestV {
    CreateSession { ttl: Option<i64>, install: Option<Seq<Seq<char>>>, restore: Option<Seq<char>> },
    ExecuteCode { session_id: Seq<char>, code: Seq<char> },
    InstallPackages { session_id: Seq<char>, packages: Seq<Seq<char>> },
    SubmitJob { session_id: Seq<char>, code: Seq<char>, webhook_url: Option<Seq<char>> },
    GetJob { job_id: Seq<char> },
    SessionStatus { session_id: Seq<char> },
    TerminateSession { session_id: Seq<char> },
    CreateCheckpoint { session_id: Seq<char>, name: Option<Seq<char>> },
    RestoreCheckpoint { session_id: Seq<char>, checkpoint_id: Seq<char> },
    ListCheckpoints,
    DeleteCheckpoint { checkpoint_id: Seq<char> },
}

/// The contents of an optional list.
pub open spec fn maybe_texts(v: Option<Vec<String>>) -> Option<Seq<Seq<char>>> {
    match v {
        Some(l) => Some(texts(l@)),
        None => None,
    }
}

impl View for ToolRequest {
    type V = ToolRequestV;

    open spec fn view(&self) -> ToolRequestV {
        match self {
            ToolRequest::CreateSession { ttl, install, restore } => ToolRequestV::CreateSession {
                ttl: *ttl,
                install: maybe_texts(*install),
                restore: maybe_owned(*restore),
            },
            ToolRequest::ExecuteCode { session_id, code } => ToolRequestV::ExecuteCode {
                session_id: session_id@,
                code: code@,
            },
            ToolRequest::InstallPackages { session_id, packages } => ToolRequestV::InstallPackages {
                session_id: session_id@,
                packages: texts(packages@),
            },
            ToolRequest::SubmitJob { session_id, code, webhook_url } => ToolRequestV::SubmitJob {
                session_id: session_id@,
                code: code@,
                webhook_url: maybe_owned(*webhook_url),
            },
            ToolRequest::GetJob { job_id } => ToolRequestV::GetJob { job_id: job_id@ },
            ToolRequest::SessionStatus { session_id } => ToolRequestV::SessionStatus { session_id: session_id@ },
            ToolRequest::TerminateSession { session_id } => ToolRequestV::TerminateSession { session_id: session_id@ },
            ToolRequest::CreateCheckpoint { session_id, name } => ToolRequestV::CreateCheckpoint {
                session_id: session_id@,
                name: maybe_owned(*name),
            },
            ToolRequest::RestoreCheckpoint { session_id, checkpoint_id } => ToolRequestV::RestoreCheckpoint {
                session_id: session_id@,
                checkpoint_id: checkpoint_id@,
            },
            ToolRequest::ListCheckpoints => ToolRequestV::ListCheckpoints,
            ToolRequest::DeleteCheckpoint { checkpoint_id } => ToolRequestV::DeleteCheckpoint {
                checkpoint_id: checkpoint_id@,
            },
        }
    }
}

/// The string argument `key`, or what is said in its absence.
pub open spec fn needed(args: JsonV, key: Seq<char>) -> Result<Seq<char>, Seq<char>> {
    match field_text(args, key) {
        Some(s) => Ok(s),
        None => Err("Missing "@ + key),
    }
}

/// The call that a tool's name and arguments make, or why they make none.
pub open spec fn tool_request(tool: Seq<char>, args: JsonV) -> Result<ToolRequestV, Seq<char>> {
    if tool == "create_session"@ {
        Ok(
            ToolRequestV::CreateSession {
                ttl: field_i64(args, "ttl_seconds"@),
                install: field_strings(args, "packages"@),
                restore: field_text(args, "checkpoint_id"@),
            },
        )
    } else if tool == "execute_code"@ {
        match (needed(args, "session_id"@), needed(args, "code"@)) {
            (Err(e), _) => Err(e),
            (Ok(_), Err(e)) => Err(e),
            (Ok(session_id), Ok(code)) => Ok(ToolRequestV::ExecuteCode { session_id, code }),
        }
    } else if tool == "install_packages"@ {
        match (needed(args, "session_id"@), field_strings(args, "packages"@)) {
            (Err(e), _) => Err(e),
            (Ok(_), None) => Err("Missing packages"@),
            (Ok(session_id), Some(packages)) => Ok(ToolRequestV::InstallPackages { session_id, packages }),
        }
    } else if tool == "submit_job"@ {
        match (needed(args, "session_id"@), needed(args, "code"@)) {
            (Err(e), _) => Err(e),
            (Ok(_), Err(e)) => Err(e),
            (Ok(session_id), Ok(code)) => Ok(
                ToolRequestV::SubmitJob { session_id, code, webhook_url: field_text(args, "webhook_url"@) },
            ),
        }
    } else if tool == "get_job"@ {
        match needed(args, "job_id"@) {
            Err(e) => Err(e),
            Ok(job_id) => Ok(ToolRequestV::GetJob { job_id }),
        }
    } else if tool == "session_status"@ {
        match needed(args, "session_id"@) {
            Err(e) => Err(e),
            Ok(session_id) => Ok(ToolRequestV::SessionStatus { session_id }),
        }
    } else if tool == "terminate_session"@ {
        match needed(args, "session_id"@) {
            Err(e) => Err(e),
            Ok(session_id) => Ok(ToolRequestV::TerminateSession { session_id }),
        }
    } else if tool == "create_checkpoint"@ {
        match needed(args, "session_id"@) {
            Err(e) => Err(e),
            Ok(session_id) => Ok(ToolRequestV::CreateCheckpoint { session_id, name: field_text(args, "name"@) }),
        }
    } else if tool == "restore_checkpoint"@ {
        match (needed(args, "session_id"@), needed(args, "checkpoint_id"@)) {
            (Err(e), _) => Err(e),
            (Ok(_), Err(e)) => Err(e),
            (Ok(session_id), Ok(checkpoint_id)) => Ok(ToolRequestV::RestoreCheckpoint { session_id, checkpoint_id }),
        }
    } else if tool == "list_checkpoints"@ {
        Ok(ToolRequestV::ListCheckpoints)
    } else if tool == "delete_checkpoint"@ {
        match needed(args, "checkpoint_id"@) {
            Err(e) => Err(e),
            Ok(checkpoint_id) => Ok(ToolRequestV::DeleteCheckpoint { checkpoint_id }),
        }
    } else {
        Err("Unknown tool: "@ + tool)
    }
}

/// The string argument `key`, or what is said in its absence.
fn need(args: &Json, key: &str) -> (r: Result<String, String>)
    ensures
        match r {
            Ok(s) => needed(args@, key@) == Ok::<Seq<char>, Seq<char>>(s@),
            Err(e) => needed(args@, key@) == Err::<Seq<char>, Seq<char>>(e@),
        },
{
    match args.get_string(key) {
        Some(s) => Ok(s),
        None => Err(labelled("Missing ", key)),
    }
}

/// A call or the reason why there is none, by contents.
pub open spec fn request_view(r: Result<ToolRequest, String>) -> Result<ToolRequestV, Seq<char>> {
    match r {
        Ok(q) => Ok(q@),
        Err(e) => Err(e@),
    }
}

/// The call that a tool's name and arguments make.
pub fn parse_tool(tool: &str, args: &Json) -> (r: Result<ToolRequest, String>)
    ensures
        request_view(r) == tool_request(tool@, args@),
{
    if same(tool, "create_session") {
        return Ok(
            ToolRequest::CreateSession {
                ttl: args.get_i64("ttl_seconds"),
                install: args.get_strings("packages"),
                restore: args.get_string("checkpoint_id"),
            },
        );
    }
    if same(tool, "execute_code") {
        let session_id: String = match need(args, "session_id") {
            Ok(s) => s,
            Err(e) => return Err(e),
        };
        return match need(args, "code") {
            Ok(code) => Ok(ToolRequest::ExecuteCode { session_id, code }),
            Err(e) => Err(e),
        };
    }
    if same(tool, "install_packages") {
        let session_id: String = match need(args, "session_id") {
            Ok(s) => s,
            Err(e) => return Err(e),
        };
        return match args.get_strings("packages") {
            Some(packages) => Ok(ToolRequest::InstallPackages { session_id, packages }),
            None => Err("Missing packages".to_owned()),
        };
    }
    if same(tool, "submit_job") {
        let session_id: String = match need(args, "session_id") {
            Ok(s) => s,
            Err(e) => return Err(e),
        };
        return match need(args, "code") {
            Ok(code) => Ok(
                ToolRequest::SubmitJob { session_id, code, webhook_url: args.get_string("webhook_url") },
            ),
            Err(e) => Err(e),
        };
    }
    if same(tool, "get_job") {
        return match need(args, "job_id") {
            Ok(job_id) => Ok(ToolRequest::GetJob { job_id }),
            Err(e) => Err(e),
        };
    }
    if same(tool, "session_status") {
        return match need(args, "session_id") {
            Ok(session_id) => Ok(ToolRequest::SessionStatus { session_id }),
            Err(e) => Err(e),
        };
    }
    if same(tool, "terminate_session") {
        return match need(args, "session_id") {
            Ok(session_id) => Ok(ToolRequest::TerminateSession { session_id }),
            Err(e) => Err(e),
        };
    }
    if same(tool, "create_checkpoint") {
        return match need(args, "session_id") {
            Ok(session_id) => Ok(ToolRequest::CreateCheckpoint { session_id, name: args.get_string("name") }),
            Err(e) => Err(e),
        };
    }
    if same(tool, "restore_checkpoint") {
        let session_id: String = match need(args, "session_id") {
            Ok(s) => s,
            Err(e) => return Err(e),
        };
        return match need(args, "checkpoint_id") {
            Ok(checkpoint_id) => Ok(ToolRequest::RestoreCheckpoint { session_id, checkpoint_id }),
            Err(e) => Err(e),
        };
    }
    if same(tool, "list_checkpoints") {
        return Ok(ToolRequest::ListCheckpoints);
    }
    if same(tool, "delete_checkpoint") {
        return match need(args, "checkpoint_id") {
            Ok(checkpoint_id) => Ok(ToolRequest::DeleteCheckpoint { checkpoint_id }),
            Err(e) => Err(e),
        };
    }
    Err(labelled("Unknown tool: ", tool))
}

/// Whether an argument is there, in the form that its parameter takes.
pub open spec fn provided(args: JsonV, p: ParamV) -> bool {
    if p.list {
        field_strings(args, p.name) is Some
    } else {
        field_text(args, p.name) is Some
    }
}

/// Whether all arguments that a tool requires are there.
pub open spec fn all_provided(args: JsonV, t: ToolV) -> bool {
    forall|i: int|
        #![trigger t.params[i]]
        0 <= i < t.params.len() && t.required.contains(t.params[i].name) ==> provided(args, t.params[i])
}

/// The names of the tools differ.
proof fn lemma_tool_names()
    ensures
        forall|i: int, j: int|
            0 <= i < j < catalogue().len() ==> (#[trigger] catalogue()[i]).name != (#[trigger] catalogue()[j]).name,
{
    reveal_strlit("create_session");
    reveal_strlit("execute_code");
    reveal_strlit("install_packages");
    reveal_strlit("submit_job");
    reveal_strlit("get_job");
    reveal_strlit("session_status");
    reveal_strlit("terminate_session");
    reveal_strlit("create_checkpoint");
    reveal_strlit("restore_checkpoint");
    reveal_strlit("list_checkpoints");
    reveal_strlit("delete_checkpoint");
    assert("create_session"@.len() == 14 && "create_session"@[0] == 'c');
    assert("execute_code"@.len() == 12);
    assert("install_packages"@.len() == 16 && "install_packages"@[0] == 'i');
    assert("submit_job"@.len() == 10);
    assert("get_job"@.len() == 7);
    assert("session_status"@.len() == 14 && "session_status"@[0] == 's');
    assert("terminate_session"@.len() == 17 && "terminate_session"@[0] == 't');
    assert("create_checkpoint"@.len() == 17 && "create_checkpoint"@[0] == 'c');
    assert("restore_checkpoint"@.len() == 18);
    assert("list_checkpoints"@.len() == 16 && "list_checkpoints"@[0] == 'l');
    assert("delete_checkpoint"@.len() == 17 && "delete_checkpoint"@[0] == 'd');
}

/// Law: a listed tool can be called with just those arguments that its schema
/// requires: the call is taken if and only if they are all there.
pub proof fn law_listed_tools_take_their_schema(k: int, args: JsonV)
    requires
        0 <= k < catalogue().len(),
    ensures
        tool_request(catalogue()[k].name, args) is Ok <==> all_provided(args, catalogue()[k]),
{
    lemma_tool_names();
    reveal_strlit("name");
    reveal_strlit("session_id");
    reveal_strlit("webhook_url");
    reveal_strlit("code");
    assert("name"@.len() == 4 && "session_id"@.len() == 10 && "webhook_url"@.len() == 11 && "code"@.len() == 4);
    assert("name"@[0] == 'n' && "code"@[0] == 'c');
    let c = catalogue();
    let t = c[k];
    assert forall|i: int| 0 <= i < t.required.len() implies t.required.contains(#[trigger] t.required[i]) by {}
    if k == 1 || k == 2 || k == 3 || k == 8 {
        assert(t.required[0] == "session_id"@ && t.params[0].name == "session_id"@);
        assert(t.params[1].name == t.required[1]);
        assert(t.required.contains(t.params[0].name) && t.required.contains(t.params[1].name));
        if k == 3 {
            assert(!t.required.contains(t.params[2].name));
        }
        if all_provided(args, t) {
            assert(provided(args, t.params[0]) && provided(args, t.params[1]));
        }
    } else if k == 4 || k == 5 || k == 6 || k == 7 || k == 10 {
        assert(t.params[0].name == t.required[0]);
        assert(t.required.contains(t.params[0].name));
        if k == 7 {
            assert(!t.required.contains(t.params[1].name));
        }
        if all_provided(args, t) {
            assert(provided(args, t.params[0]));
        }
    }
}

/// Law: a tool that is not listed is refused by name.
pub proof fn law_other_tools_are_unknown(tool: Seq<char>, args: JsonV)
    requires
        forall|k: int| 0 <= k < catalogue().len() ==> (#[trigger] catalogue()[k]).name != tool,
    ensures
        tool_request(tool, args) == Err::<ToolRequestV, Seq<char>>("Unknown tool: "@ + tool),
{
    let c = catalogue();
    assert(c[0].name != tool && c[1].name != tool && c[2].name != tool && c[3].name != tool && c[4].name != tool);
    assert(c[5].name != tool && c[6].name != tool && c[7].name != tool && c[8].name != tool && c[9].name != tool);
    assert(c[10].name != tool);
}

/// The answer to a call that cannot be made.
pub fn refused_reply(reason: &str) -> (r: Json)
    ensures
        r@ == tool_err_value(reason@),
{
    tool_err(reason)
}

// ── What a tool answers ─────────────────────────────────

/// What is said of a checkpoint that a new session was to start from: its
/// record's name and what restoring it gave.
pub open spec fn restore_note(
    checkpoint_id: Option<Seq<char>>,
    record_name: Option<Seq<char>>,
    outcome: Option<(Seq<Seq<char>>, Option<Seq<char>>)>,
) -> Seq<char> {
    match checkpoint_id {
        None => Seq::empty(),
        Some(id) => match record_name {
            None => "\nWarning: checkpoint '"@ + id + "' not found"@,
            Some(name) => match outcome {
                None => Seq::empty(),
                Some((vars, Some(e))) => "\nWarning: checkpoint restore failed: "@ + e,
                Some((vars, None)) => "\nRestored checkpoint '"@ + name + "': "@ + dec(vars.len()) + " vars ("@ + join(
                    vars,
                    ", "@,
                ) + ")"@,
            },
        },
    }
}

/// The name of a checkpoint's record, where there is one.
pub open spec fn record_name(record: Option<&CheckpointInfo>) -> Option<Seq<char>> {
    match record {
        Some(c) => Some(c.name@),
        None => None,
    }
}

/// What restoring a checkpoint gave, by contents.
pub open spec fn restored_view(outcome: Option<(Vec<String>, Option<String>)>) -> Option<
    (Seq<Seq<char>>, Option<Seq<char>>),
> {
    match outcome {
        Some((vars, e)) => Some((texts(vars@), maybe_owned(e))),
        None => None,
    }
}

/// What is said of a checkpoint that a new session was to start from.
pub fn note_of_restore(
    checkpoint_id: &Option<String>,
    record: Option<&CheckpointInfo>,
    outcome: &Option<(Vec<String>, Option<String>)>,
) -> (r: String)
    ensures
        r@ == restore_note(
            maybe_owned(*checkpoint_id),
            record_name(record),
            restored_view(*outcome),
        ),
{
    match checkpoint_id {
        None => String::new(),
        Some(id) => match record {
            None => {
                let mut s: String = "\nWarning: checkpoint '".to_owned();
                s.append(id.as_str());
                s.append("' not found");
                s
            },
            Some(c) => match outcome {
                None => String::new(),
                Some((vars, Some(e))) => labelled("\nWarning: checkpoint restore failed: ", e.as_str()),
                Some((vars, None)) => {
                    let mut s: String = "\nRestored checkpoint '".to_owned();
                    s.append(c.name.as_str());
                    s.append("': ");
                    let n: String = decimal(vars.len() as u64);
                    s.append(n.as_str());
                    s.append(" vars (");
                    let list: String = join_texts(vars, ", ");
                    s.append(list.as_str());
                    s.append(")");
                    assert(texts(vars@).len() == vars@.len());
                    s
                },
            },
        },
    }
}

/// The answer of `create_session`.
pub open spec fn session_created(session: Result<SessionInfo, String>, note: Seq<char>) -> JsonV {
    match session {
        Err(e) => tool_err_value("Failed to create session: "@ + e@),
        Ok(info) => text_value(
            "Session created.\nsession_id: "@ + info.session_id@ + "\nexpires_at: "@ + display_time_text(
                info.expires_at.secs,
                info.expires_at.nanos,
            ) + note,
        ),
    }
}

/// The answer of `create_session`, with what is said of a checkpoint.
pub fn create_session_reply(session: &Result<SessionInfo, String>, note: &str) -> (r: Json)
    requires
        session matches Ok(info) ==> info.expires_at.valid(),
    ensures
        r@ == session_created(*session, note@),
{
    match session {
        Err(e) => {
            let s: String = labelled("Failed to create session: ", e.as_str());
            tool_err(s.as_str())
        },
        Ok(info) => {
            let mut s: String = "Session created.\nsession_id: ".to_owned();
            s.append(info.session_id.as_str());
            s.append("\nexpires_at: ");
            let t: String = display_time(info.expires_at);
            s.append(t.as_str());
            s.append(note);
            text(s.as_str())
        },
    }
}

/// What an execution comes to in words: its output, its result, what it made,
/// its error, and how long it took.
pub open spec fn execution_parts(x: ExecutionV) -> Seq<Seq<char>> {
    let p0 = Seq::<Seq<char>>::empty();
    let p1 = if x.stdout.len() > 0 {
        p0.push("stdout:\n"@ + trim_end(x.stdout))
    } else {
        p0
    };
    let p2 = match x.result {
        Some(v) => p1.push("result: "@ + v),
        None => p1,
    };
    let p3 = if x.html is Some {
        p2.push("[DataFrame — HTML table in html field]"@)
    } else {
        p2
    };
    let p4 = if x.plots.len() > 0 {
        p3.push("["@ + dec(x.plots.len()) + " plot(s) captured]"@)
    } else {
        p3
    };
    let p5 = match x.error {
        Some(e) => p4.push("error:\n"@ + e),
        None => p4,
    };
    let p6 = if p5.len() == 0 {
        p5.push("(no output)"@)
    } else {
        p5
    };
    p6.push("duration: "@ + dec(x.duration_ms as nat) + "ms"@)
}

/// What an execution comes to in words.
fn execution_list(x: &ExecutionResult) -> (r: Vec<String>)
    ensures
        texts(r@) == execution_parts(x@),
{
    let mut parts: Vec<String> = no_texts();
    if !x.stdout.as_str().is_empty() {
        let out: String = trimmed_end(x.stdout.as_str());
        push_text(&mut parts, labelled("stdout:\n", out.as_str()));
    }
    match &x.result {
        Some(v) => push_text(&mut parts, labelled("result: ", v.as_str())),
        None => {},
    }
    if x.html.is_some() {
        push_text(&mut parts, "[DataFrame — HTML table in html field]".to_owned());
    }
    assert(texts(x.plots@).len() == x.plots@.len());
    if x.plots.len() > 0 {
        let mut s: String = "[".to_owned();
        let n: String = decimal(x.plots.len() as u64);
        s.append(n.as_str());
        s.append(" plot(s) captured]");
        push_text(&mut parts, s);
    }
    match &x.error {
        Some(e) => push_text(&mut parts, labelled("error:\n", e.as_str())),
        None => {},
    }
    assert(texts(parts@).len() == parts@.len());
    if parts.len() == 0 {
        push_text(&mut parts, "(no output)".to_owned());
    }
    let mut d: String = "duration: ".to_owned();
    let ms: String = decimal(x.duration_ms);
    d.append(ms.as_str());
    d.append("ms");
    push_text(&mut parts, d);
    parts
}

/// The answer of `execute_code`.
pub open spec fn code_executed(session_id: Seq<char>, attempt: Attempt<ExecutionResult>) -> JsonV {
    match attempt {
        Attempt::NoSession => tool_err_value("Session '"@ + session_id + "' not found or expired"@),
        Attempt::Busy => tool_err_value("Session is busy — another execution is running"@),
        Attempt::Ran(x) => text_value(join(execution_parts(x@), "\n\n"@)),
    }
}

/// A name between a head and a tail.
fn around(head: &str, name: &str, tail: &str) -> (r: String)
    ensures
        r@ == head@ + name@ + tail@,
{
    let mut s: String = head.to_owned();
    s.append(name);
    s.append(tail);
    s
}

/// The answer of `execute_code`.
pub fn execute_code_reply(session_id: &str, attempt: &Attempt<ExecutionResult>) -> (r: Json)
    ensures
        r@ == code_executed(session_id@, *attempt),
{
    match attempt {
        Attempt::NoSession => {
            let s: String = around("Session '", session_id, "' not found or expired");
            tool_err(s.as_str())
        },
        Attempt::Busy => tool_err("Session is busy — another execution is running"),
        Attempt::Ran(x) => {
            let parts: Vec<String> = execution_list(x);
            let s: String = join_texts(&parts, "\n\n");
            text(s.as_str())
        },
    }
}

/// The answer of `install_packages`.
pub open spec fn packages_installed(packages: Seq<Seq<char>>, outcome: Option<ExecutionV>) -> JsonV {
    match outcome {
        None => tool_err_value("Session not found"@),
        Some(x) => match x.error {
            Some(e) => tool_err_value("Install failed: "@ + e + "\n"@ + x.stdout),
            None => text_value("Installed: "@ + join(packages, ", "@) + "\n\n"@ + trim(x.stdout)),
        },
    }
}

/// The answer of `install_packages`; without an outcome there was no session.
pub fn install_packages_reply(packages: &Vec<String>, outcome: Option<&ExecutionResult>) -> (r: Json)
    ensures
        r@ == packages_installed(texts(packages@), maybe_execution(outcome)),
{
    match outcome {
        None => tool_err("Session not found"),
        Some(x) => match &x.error {
            Some(e) => {
                let mut s: String = around("Install failed: ", e.as_str(), "\n");
                s.append(x.stdout.as_str());
                tool_err(s.as_str())
            },
            None => {
                let list: String = join_texts(packages, ", ");
                let mut s: String = around("Installed: ", list.as_str(), "\n\n");
                let out: String = trimmed(x.stdout.as_str());
                s.append(out.as_str());
                text(s.as_str())
            },
        },
    }
}

/// The submission of a background job.
pub enum Submission {
    NoSession,
    Failed(String),
    /// The job waits under this identifier.
    Queued(String),
}

/// The answer of `submit_job`.
pub open spec fn job_submitted(s: Submission) -> JsonV {
    match s {
        Submission::NoSession => tool_err_value("Session not found"@),
        Submission::Failed(e) => tool_err_value("Failed to create job: "@ + e@),
        Submission::Queued(id) => text_value(
            "Job submitted.\njob_id: "@ + id@ + "\nstatus: queued\n\nUse get_job to poll for results."@,
        ),
    }
}

/// The answer of `submit_job`.
pub fn submit_job_reply(s: &Submission) -> (r: Json)
    ensures
        r@ == job_submitted(*s),
{
    match s {
        Submission::NoSession => tool_err("Session not found"),
        Submission::Failed(e) => {
            let m: String = labelled("Failed to create job: ", e.as_str());
            tool_err(m.as_str())
        },
        Submission::Queued(id) => {
            let m: String = around(
                "Job submitted.\njob_id: ",
                id.as_str(),
                "\nstatus: queued\n\nUse get_job to poll for results.",
            );
            text(m.as_str())
        },
    }
}

/// What is posted when a job submitted through a tool is over.
pub open spec fn tool_job_news(job_id: Seq<char>, x: ExecutionResult) -> JsonV {
    JsonV::Obj(
        map![
            "job_id"@ => JsonV::Str(job_id),
            "status"@ => JsonV::Str("done"@),
            "stdout"@ => JsonV::Str(x.stdout@),
            "error"@ => opt_text(x.error),
        ],
    )
}

/// What is posted when a job submitted through a tool is over.
pub fn job_webhook(job_id: &str, x: &ExecutionResult) -> (r: Json)
    ensures
        r@ == tool_job_news(job_id@, *x),
{
    let mut f: Fields = Fields::new();
    f.put_text("job_id", job_id);
    f.put_text("status", "done");
    f.put_text("stdout", x.stdout.as_str());
    f.put_opt("error", &x.error);
    f.done()
}

/// What a job comes to in words.
pub open spec fn job_parts(j: JobRecord) -> Seq<Seq<char>> {
    let p0 = seq!["job_id: "@ + j.id@, "status: "@ + j.status@];
    let p1 = match j.stdout {
        Some(s) => if s@.len() > 0 {
            p0.push("stdout:\n"@ + trim_end(s@))
        } else {
            p0
        },
        None => p0,
    };
    let p2 = match j.error {
        Some(e) => p1.push("error:\n"@ + e@),
        None => p1,
    };
    match j.duration_ms {
        Some(ms) => p2.push("duration: "@ + dec_int(ms as int) + "ms"@),
        None => p2,
    }
}

/// The answer of `get_job`.
pub open spec fn job_got(job_id: Seq<char>, job: Option<&JobRecord>) -> JsonV {
    match job {
        Some(j) => text_value(join(job_parts(*j), "\n\n"@)),
        None => tool_err_value("Job '"@ + job_id + "' not found"@),
    }
}

/// The answer of `get_job`.
pub fn get_job_reply(job_id: &str, job: Option<&JobRecord>) -> (r: Json)
    ensures
        r@ == job_got(job_id@, job),
{
    match job {
        Some(j) => {
            let mut parts: Vec<String> = no_texts();
            push_text(&mut parts, labelled("job_id: ", j.id.as_str()));
            push_text(&mut parts, labelled("status: ", j.status.as_str()));
            assert(texts(parts@) =~= seq!["job_id: "@ + j.id@, "status: "@ + j.status@]);
            match &j.stdout {
                Some(s) => if !s.as_str().is_empty() {
                    let out: String = trimmed_end(s.as_str());
                    push_text(&mut parts, labelled("stdout:\n", out.as_str()));
                },
                None => {},
            }
            match &j.error {
                Some(e) => push_text(&mut parts, labelled("error:\n", e.as_str())),
                None => {},
            }
            match j.duration_ms {
                Some(ms) => {
                    let n: String = decimal_signed(ms);
                    push_text(&mut parts, around("duration: ", n.as_str(), "ms"));
                },
                None => {},
            }
            let s: String = join_texts(&parts, "\n\n");
            text(s.as_str())
        },
        None => {
            let s: String = around("Job '", job_id, "' not found");
            tool_err(s.as_str())
        },
    }
}

/// A truth value in words.
pub open spec fn truth(b: bool) -> Seq<char> {
    if b {
        "true"@
    } else {
        "false"@
    }
}

/// The answer of `session_status`.
pub open spec fn status_got(session_id: Seq<char>, status: Option<SessionStatusV>) -> JsonV {
    match status {
        Some(s) => text_value(
            "session_id: "@ + s.session_id + "\nactive: "@ + truth(s.active) + "\nttl_remaining: "@ + dec_int(
                s.ttl_remaining,
            ) + "s\ncalls_used: "@ + dec(s.calls_used as nat),
        ),
        None => tool_err_value("Session '"@ + session_id + "' not found or expired"@),
    }
}

/// The status of a session, where there is one.
pub open spec fn maybe_status(status: Option<&SessionStatus>) -> Option<SessionStatusV> {
    match status {
        Some(s) => Some(s@),
        None => None,
    }
}

/// The answer of `session_status`.
pub fn session_status_reply(session_id: &str, status: Option<&SessionStatus>) -> (r: Json)
    ensures
        r@ == status_got(session_id@, maybe_status(status)),
{
    match status {
        Some(s) => {
            let mut m: String = labelled("session_id: ", s.session_id.as_str());
            m.append("\nactive: ");
            m.append(
                if s.active {
                    "true"
                } else {
                    "false"
                },
            );
            m.append("\nttl_remaining: ");
            let ttl: String = decimal_signed(s.ttl_remaining);
            m.append(ttl.as_str());
            m.append("s\ncalls_used: ");
            let calls: String = decimal(s.calls_used);
            m.append(calls.as_str());
            text(m.as_str())
        },
        None => {
            let m: String = around("Session '", session_id, "' not found or expired");
            tool_err(m.as_str())
        },
    }
}

/// The answer of `terminate_session`.
pub open spec fn session_terminated(session_id: Seq<char>, ended: bool) -> JsonV {
    if ended {
        text_value("Session '"@ + session_id + "' terminated."@)
    } else {
        tool_err_value("Session '"@ + session_id + "' not found"@)
    }
}

/// The answer of `terminate_session`.
pub fn terminate_session_reply(session_id: &str, ended: bool) -> (r: Json)
    ensures
        r@ == session_terminated(session_id@, ended),
{
    if ended {
        let s: String = around("Session '", session_id, "' terminated.");
        text(s.as_str())
    } else {
        let s: String = around("Session '", session_id, "' not found");
        tool_err(s.as_str())
    }
}

/// The answer of `create_checkpoint`: the attempt gives the size of the
/// checkpoint and an error, and `saved` whether its record was stored.
pub open spec fn checkpoint_created(
    checkpoint_id: Seq<char>,
    name: Seq<char>,
    attempt: Attempt<(u64, Option<String>)>,
    saved: Result<(), String>,
) -> JsonV {
    match attempt {
        Attempt::NoSession => tool_err_value("Session not found"@),
        Attempt::Busy => tool_err_value("Session is busy"@),
        Attempt::Ran((size, Some(e))) => tool_err_value("Checkpoint failed: "@ + e@),
        Attempt::Ran((size, None)) => match saved {
            Err(e) => tool_err_value("Failed to save checkpoint record: "@ + e@),
            Ok(_) => text_value(
                "Checkpoint saved.\ncheckpoint_id: "@ + checkpoint_id + "\nname: "@ + name + "\nsize: "@ + dec(size as nat)
                    + " bytes"@,
            ),
        },
    }
}

/// The answer of `create_checkpoint`.
pub fn create_checkpoint_reply(
    checkpoint_id: &str,
    name: &str,
    attempt: &Attempt<(u64, Option<String>)>,
    saved: &Result<(), String>,
) -> (r: Json)
    ensures
        r@ == checkpoint_created(checkpoint_id@, name@, *attempt, *saved),
{
    match attempt {
        Attempt::NoSession => tool_err("Session not found"),
        Attempt::Busy => tool_err("Session is busy"),
        Attempt::Ran((size, Some(e))) => {
            let s: String = labelled("Checkpoint failed: ", e.as_str());
            tool_err(s.as_str())
        },
        Attempt::Ran((size, None)) => match saved {
            Err(e) => {
                let s: String = labelled("Failed to save checkpoint record: ", e.as_str());
                tool_err(s.as_str())
            },
            Ok(_) => {
                let mut s: String = labelled("Checkpoint saved.\ncheckpoint_id: ", checkpoint_id);
                s.append("\nname: ");
                s.append(name);
                s.append("\nsize: ");
                let n: String = decimal(*size);
                s.append(n.as_str());
                s.append(" bytes");
                text(s.as_str())
            },
        },
    }
}

/// The answer of `restore_checkpoint`.
pub open spec fn checkpoint_restored(
    checkpoint_id: Seq<char>,
    record: Option<&CheckpointInfo>,
    attempt: Attempt<(Vec<String>, Option<String>)>,
) -> JsonV {
    match record {
        None => tool_err_value("Checkpoint '"@ + checkpoint_id + "' not found"@),
        Some(c) => match attempt {
            Attempt::NoSession => tool_err_value("Session not found"@),
            Attempt::Busy => tool_err_value("Session is busy"@),
            Attempt::Ran((vars, Some(e))) => tool_err_value("Restore failed: "@ + e@),
            Attempt::Ran((vars, None)) => text_value(
                "Restored '"@ + c.name@ + "': "@ + dec(vars@.len()) + " vars loaded ("@ + join(texts(vars@), ", "@)
                    + ")"@,
            ),
        },
    }
}

/// The answer of `restore_checkpoint`.
pub fn restore_checkpoint_reply(
    checkpoint_id: &str,
    record: Option<&CheckpointInfo>,
    attempt: &Attempt<(Vec<String>, Option<String>)>,
) -> (r: Json)
    ensures
        r@ == checkpoint_restored(checkpoint_id@, record, *attempt),
{
    match record {
        None => {
            let s: String = around("Checkpoint '", checkpoint_id, "' not found");
            tool_err(s.as_str())
        },
        Some(c) => match attempt {
            Attempt::NoSession => tool_err("Session not found"),
            Attempt::Busy => tool_err("Session is busy"),
            Attempt::Ran((vars, Some(e))) => {
                let s: String = labelled("Restore failed: ", e.as_str());
                tool_err(s.as_str())
            },
            Attempt::Ran((vars, None)) => {
                let mut s: String = around("Restored '", c.name.as_str(), "': ");
                let n: String = decimal(vars.len() as u64);
                s.append(n.as_str());
                s.append(" vars loaded (");
                let list: String = join_texts(vars, ", ");
                s.append(list.as_str());
                s.append(")");
                text(s.as_str())
            },
        },
    }
}

/// A checkpoint in one line.
pub open spec fn checkpoint_line(c: CheckpointInfo) -> Seq<char> {
    "• "@ + c.name@ + " — "@ + c.id@ + " ("@ + dec_int(c.size_bytes as int) + " bytes, "@ + c.created_at@ + ")"@
}

/// The answer of `list_checkpoints`.
pub open spec fn checkpoints_listed(list: Seq<CheckpointInfo>) -> JsonV {
    if list.len() == 0 {
        text_value("No checkpoints saved yet."@)
    } else {
        text_value(
            dec(list.len()) + " checkpoint(s):\n\n"@ + join(
                Seq::new(list.len(), |i: int| checkpoint_line(list[i])),
                "\n"@,
            ),
        )
    }
}

/// The answer of `list_checkpoints`.
pub fn list_checkpoints_reply(list: &Vec<CheckpointInfo>) -> (r: Json)
    ensures
        r@ == checkpoints_listed(list@),
{
    if list.len() == 0 {
        return text("No checkpoints saved yet.");
    }
    let mut lines: Vec<String> = Vec::new();
    let mut i: usize = 0;
    while i < list.len()
        invariant
            i <= list@.len(),
            lines@.len() == i,
            forall|j: int| 0 <= j < i ==> (#[trigger] lines@[j])@ == checkpoint_line(list@[j]),
        decreases list.len() - i,
    {
        let mut s: String = around("• ", list[i].name.as_str(), " — ");
        s.append(list[i].id.as_str());
        s.append(" (");
        let n: String = decimal_signed(list[i].size_bytes);
        s.append(n.as_str());
        s.append(" bytes, ");
        s.append(list[i].created_at.as_str());
        s.append(")");
        lines.push(s);
        i += 1;
    }
    assert(texts(lines@) =~= Seq::new(list@.len(), |k: int| checkpoint_line(list@[k])));
    let mut s: String = decimal(list.len() as u64);
    s.append(" checkpoint(s):\n\n");
    let all: String = join_texts(&lines, "\n");
    s.append(all.as_str());
    text(s.as_str())
}

/// The answer of `delete_checkpoint`.
pub open spec fn checkpoint_deleted(checkpoint_id: Seq<char>, deleted: bool) -> JsonV {
    if deleted {
        text_value("Checkpoint '"@ + checkpoint_id + "' deleted."@)
    } else {
        tool_err_value("Checkpoint '"@ + checkpoint_id + "' not found"@)
    }
}

/// The answer of `delete_checkpoint`.
pub fn delete_checkpoint_reply(checkpoint_id: &str, deleted: bool) -> (r: Json)
    ensures
        r@ == checkpoint_deleted(checkpoint_id@, deleted),
{
    if deleted {
        let s: String = around("Checkpoint '", checkpoint_id, "' deleted.");
        text(s.as_str())
    } else {
        let s: String = around("Checkpoint '", checkpoint_id, "' not found");
        tool_err(s.as_str())
    }
}

// ── Messages ────────────────────────────────────────────

/// The key of a request: from its header, or else from its query, or else
/// empty.
pub fn mcp_key(header: Option<String>, query: Option<String>) -> (r: String)
    ensures
        r@ == match (header, query) {
            (Some(k), _) => k@,
            (None, Some(k)) => k@,
            (None, None) => Seq::empty(),
        },
{
    match header {
        Some(k) => k,
        None => match query {
            Some(k) => k,
            None => String::new(),
        },
    }
}

/// What a message leads to.
pub enum McpStep {
    Reply(Response),
    /// A tool is called under an API key that is to be looked up.
    Call { id: Json, tool: String, arguments: Json },
}

/// What a message leads to, as mathematics.
pub enum McpStepV {
    Reply(ResponseV),
    Call { id: JsonV, tool: Seq<char>, arguments: JsonV },
}

impl View for McpStep {
    type V = McpStepV;

    open spec fn view(&self) -> McpStepV {
        match self {
            McpStep::Reply(r) => McpStepV::Reply(r@),
            McpStep::Call { id, tool, arguments } => McpStepV::Call { id: id@, tool: tool@, arguments: arguments@ },
        }
    }
}

/// What `key` names in `v`, or `null`.
pub open spec fn field_or_null(v: JsonV, key: Seq<char>) -> JsonV {
    match field(v, key) {
        Some(x) => x,
        None => JsonV::Null,
    }
}

/// What the server says of itself.
pub open spec fn server_info() -> JsonV {
    JsonV::Obj(
        map![
            "protocolVersion"@ => JsonV::Str("2024-11-05"@),
            "capabilities"@ => JsonV::Obj(map!["tools"@ => JsonV::Obj(map![])]),
            "serverInfo"@ => JsonV::Obj(
                map!["name"@ => JsonV::Str("greed-compute"@), "version"@ => JsonV::Str("0.1.0"@)],
            ),
        ],
    )
}

/// What a parsed message leads to.
pub open spec fn message_step(msg: JsonV, api_key: Seq<char>) -> McpStepV {
    let id = field_or_null(msg, "id"@);
    let method = text_or_empty(field_text(msg, "method"@));
    if field(msg, "id"@) is None && method == "notifications/initialized"@ {
        McpStepV::Reply(ResponseV::Json(ACCEPTED, JsonV::Obj(map![])))
    } else if method == "initialize"@ {
        McpStepV::Reply(ResponseV::Json(OK, ok_value(id, server_info())))
    } else if method == "tools/list"@ {
        McpStepV::Reply(ResponseV::Json(OK, ok_value(id, tool_list_value())))
    } else if method == "tools/call"@ {
        if api_key.len() == 0 {
            McpStepV::Reply(
                ResponseV::Json(
                    UNAUTHORIZED,
                    err_value(id, -32001, "Missing API key — pass as x-api-key header or ?api_key= query param"@),
                ),
            )
        } else {
            let params = field_or_null(msg, "params"@);
            McpStepV::Call {
                id,
                tool: text_or_empty(field_text(params, "name"@)),
                arguments: field_or_null(params, "arguments"@),
            }
        }
    } else {
        McpStepV::Reply(ResponseV::Json(OK, err_value(id, -32601, "Method not found: "@ + method)))
    }
}

/// What the body of a request leads to.
pub open spec fn body_step(body: Seq<u8>, api_key: Seq<char>) -> McpStepV {
    match json_parse(body) {
        Err(e) => McpStepV::Reply(ResponseV::Json(BAD_REQUEST, err_value(JsonV::Null, -32700, "Parse error"@))),
        Ok(msg) => message_step(msg, api_key),
    }
}

/// A copy of what `key` names in `v`, or `null`.
fn copy_field(v: &Json, key: &str) -> (r: Json)
    ensures
        r@ == field_or_null(v@, key@),
{
    match v.get(key) {
        Some(x) => x.copy(),
        None => Json::Null,
    }
}

/// What the server says of itself.
fn server_info_json() -> (r: Json)
    ensures
        r@ == server_info(),
{
    let mut capabilities: Fields = Fields::new();
    capabilities.put("tools", Fields::new().done());
    let mut server: Fields = Fields::new();
    server.put_text("name", "greed-compute");
    server.put_text("version", "0.1.0");
    let mut f: Fields = Fields::new();
    f.put_text("protocolVersion", "2024-11-05");
    f.put("capabilities", capabilities.done());
    f.put("serverInfo", server.done());
    f.done()
}

/// What a parsed message leads to, under an API key (empty where there is none).
pub fn handle_message(msg: &Json, api_key: &str) -> (r: McpStep)
    ensures
        r@ == message_step(msg@, api_key@),
{
    let id: Json = copy_field(msg, "id");
    let method: String = msg.get_text("method");
    let m: &str = method.as_str();
    if msg.get("id").is_none() && same(m, "notifications/initialized") {
        return McpStep::Reply(Response::Json(ACCEPTED, Fields::new().done()));
    }
    if same(m, "initialize") {
        return McpStep::Reply(Response::Json(OK, ok(id, server_info_json())));
    }
    if same(m, "tools/list") {
        return McpStep::Reply(Response::Json(OK, ok(id, tool_list())));
    }
    if same(m, "tools/call") {
        if api_key.is_empty() {
            return McpStep::Reply(
                Response::Json(
                    UNAUTHORIZED,
                    err(id, -32001, "Missing API key — pass as x-api-key header or ?api_key= query param"),
                ),
            );
        }
        let params: Json = copy_field(msg, "params");
        let tool: String = params.get_text("name");
        let arguments: Json = copy_field(&params, "arguments");
        return McpStep::Call { id, tool, arguments };
    }
    let text: String = labelled("Method not found: ", m);
    McpStep::Reply(Response::Json(OK, err(id, -32601, text.as_str())))
}

/// What the body of a request leads to, under an API key (empty where there is
/// none).
pub fn mcp_handler(body: &[u8], api_key: &str) -> (r: McpStep)
    ensures
        r@ == body_step(body@, api_key@),
{
    match parse_json(body) {
        Err(_) => McpStep::Reply(Response::Json(BAD_REQUEST, err(Json::Null, -32700, "Parse error"))),
        Ok(msg) => handle_message(&msg, api_key),
    }
}

/// The answer to a call under an unknown API key.
pub fn unknown_key_reply(id: Json) -> (r: Response)
    ensures
        r@ == ResponseV::Json(UNAUTHORIZED, err_value(id@, -32001, "Invalid API key"@)),
{
    Response::Json(UNAUTHORIZED, err(id, -32001, "Invalid API key"))
}

/// The answer to a call, from what the tool answered.
pub fn call_reply(id: Json, result: Json) -> (r: Response)
    ensures
        r@ == ResponseV::Json(OK, ok_value(id@, result@)),
{
    Response::Json(OK, ok(id, result))
}

/// Law: every answer to a request that is JSON carries its identifier, but for
/// the acknowledgement of a notification, which has none.
pub proof fn law_reply_carries_the_id(msg: JsonV, api_key: Seq<char>)
    requires
        field(msg, "id"@) is Some,
    ensures
        match message_step(msg, api_key) {
            McpStepV::Reply(ResponseV::Json(code, v)) => field(v, "id"@) == field(msg, "id"@),
            McpStepV::Reply(_) => false,
            McpStepV::Call { id, tool, arguments } => Some(id) == field(msg, "id"@),
        },
{
    reveal_strlit("id");
    reveal_strlit("jsonrpc");
    reveal_strlit("result");
    reveal_strlit("error");
    assert("id"@.len() == 2 && "jsonrpc"@.len() == 7 && "result"@.len() == 6 && "error"@.len() == 5);
}

} // verus!
