//! Records, the statements that store and look them up, and what is read back.
use vstd::prelude::*;
use vstd::string::*;
use vstd::utf8::encode_utf8;
use crate::codec::{bcrypt_check, bcrypt_hash, bcrypt_verify};
use crate::ident::{key_from, key_text, new_id, uuid_text};
use crate::json::{
    arr_view, is_text_list, json_parse, json_text, json_texts, opt_int, opt_text, parse_json, print_json, slices,
    strings_among, strings_in, text_array, text_of, Fields, Items, Json, JsonV,
};
use crate::api::workspace::{WorkspaceMember, WorkspaceRecord};
use crate::sql::{
    addition_of, cell, cells_view, count, count_if, delete, increment, insert, insert_new, matching, opt_value,
    present, projected, row_view, select, select_if, sql_opt, statement_of, sum, text_value, update, upsert, AdditionV,
    Cells, Order, OrderV, QueryV, Row, Rows, SqlV, SqlValue, Statement, StatementV, Test, TestV,
};
use crate::text::{maybe, maybe_owned, texts};

verus! {

// ── Reading rows ────────────────────────────────────────

/// Whether column `i` of a row holds a text.
pub open spec fn has_text(row: Seq<SqlV>, i: int) -> bool {
    0 <= i < row.len() && row[i] is Text
}

/// Whether column `i` of a row holds a text or nothing.
pub open spec fn has_opt(row: Seq<SqlV>, i: int) -> bool {
    0 <= i < row.len() && (row[i] is Text || row[i] is Null)
}

/// Whether column `i` of a row holds an integer.
pub open spec fn has_int(row: Seq<SqlV>, i: int) -> bool {
    0 <= i < row.len() && row[i] is Int
}

/// Whether column `i` of a row holds an integer or nothing.
pub open spec fn has_opt_int(row: Seq<SqlV>, i: int) -> bool {
    0 <= i < row.len() && (row[i] is Int || row[i] is Null)
}

/// The text in a column.
pub open spec fn column_text(row: Seq<SqlV>, i: int) -> Seq<char> {
    row[i]->Text_0
}

/// The text in a column, where there is one.
pub open spec fn column_opt(row: Seq<SqlV>, i: int) -> Option<Seq<char>> {
    match row[i] {
        SqlV::Text(s) => Some(s),
        _ => None,
    }
}

/// The integer in a column.
pub open spec fn column_int(row: Seq<SqlV>, i: int) -> int {
    row[i]->Int_0
}

/// The integer in a column, where there is one.
pub open spec fn column_opt_int(row: Seq<SqlV>, i: int) -> Option<int> {
    match row[i] {
        SqlV::Int(n) => Some(n),
        _ => None,
    }
}

/// An optional integer, as mathematics.
pub open spec fn maybe_int(n: Option<i64>) -> Option<int> {
    match n {
        Some(i) => Some(i as int),
        None => None,
    }
}

fn get_text(row: &Vec<SqlValue>, i: usize) -> (r: Option<String>)
    ensures
        r is Some == has_text(row_view(row@), i as int),
        r is Some ==> r->Some_0@ == column_text(row_view(row@), i as int),
{
    if i < row.len() {
        assert(row_view(row@)[i as int] == row@[i as int]@);
        match &row[i] {
            SqlValue::Text(s) => Some(s.clone()),
            _ => None,
        }
    } else {
        None
    }
}

fn get_opt(row: &Vec<SqlValue>, i: usize) -> (r: Option<Option<String>>)
    ensures
        r is Some == has_opt(row_view(row@), i as int),
        r is Some ==> maybe_owned(r->Some_0) == column_opt(row_view(row@), i as int),
{
    if i < row.len() {
        assert(row_view(row@)[i as int] == row@[i as int]@);
        match &row[i] {
            SqlValue::Text(s) => Some(Some(s.clone())),
            SqlValue::Null => Some(None),
            _ => None,
        }
    } else {
        None
    }
}

fn get_int(row: &Vec<SqlValue>, i: usize) -> (r: Option<i64>)
    ensures
        r is Some == has_int(row_view(row@), i as int),
        r is Some ==> r->Some_0 == column_int(row_view(row@), i as int),
{
    if i < row.len() {
        assert(row_view(row@)[i as int] == row@[i as int]@);
        match &row[i] {
            SqlValue::Int(n) => Some(*n),
            _ => None,
        }
    } else {
        None
    }
}

fn get_opt_int(row: &Vec<SqlValue>, i: usize) -> (r: Option<Option<i64>>)
    ensures
        r is Some == has_opt_int(row_view(row@), i as int),
        r is Some ==> maybe_int(r->Some_0) == column_opt_int(row_view(row@), i as int),
{
    if i < row.len() {
        assert(row_view(row@)[i as int] == row@[i as int]@);
        match &row[i] {
            SqlValue::Int(n) => Some(Some(*n)),
            SqlValue::Null => Some(None),
            _ => None,
        }
    } else {
        None
    }
}

// ── Records ─────────────────────────────────────────────

/// What is known of an API key.
pub struct ApiKeyInfo {
    pub key: String,
    pub name: String,
    pub tier: String,
    pub is_active: bool,
}

/// A background job.
pub struct JobRecord {
    pub id: String,
    pub session_id: String,
    pub api_key: String,
    pub status: String,
    pub code: String,
    pub stdout: Option<String>,
    pub result: Option<String>,
    pub error: Option<String>,
    pub plots: Vec<String>,
    pub html: Option<String>,
    pub webhook_url: Option<String>,
    pub created_at: String,
    pub started_at: Option<String>,
    pub finished_at: Option<String>,
    pub duration_ms: Option<i64>,
}

/// A swarm.
pub struct SwarmRecord {
    pub id: String,
    pub api_key: String,
    pub status: String,
    pub total_workers: i64,
    pub completed_workers: i64,
    pub failed_workers: i64,
    pub template_checkpoint_id: Option<String>,
    pub reduce_stdout: Option<String>,
    pub reduce_result: Option<String>,
    pub reduce_error: Option<String>,
    pub webhook_url: Option<String>,
    pub created_at: String,
    pub finished_at: Option<String>,
}

/// A worker of a swarm.
pub struct SwarmWorkerRecord {
    pub id: String,
    pub swarm_id: String,
    pub worker_index: i64,
    pub session_id: Option<String>,
    pub status: String,
    pub partition: String,
    pub stdout: Option<String>,
    pub result: Option<String>,
    pub error: Option<String>,
    pub plots: Vec<String>,
    pub duration_ms: Option<i64>,
    pub started_at: Option<String>,
    pub finished_at: Option<String>,
}

/// A saved checkpoint.
pub struct CheckpointInfo {
    pub id: String,
    pub api_key: String,
    pub name: String,
    pub path: String,
    pub created_at: String,
    pub size_bytes: i64,
}

/// The plots that a stored text stands for: those of its array of strings, or
/// none.
pub open spec fn plots_of(stored: Option<Seq<char>>) -> Seq<Seq<char>> {
    match stored {
        Some(s) => match json_parse(encode_utf8(s)) {
            Ok(v) => if is_text_list(v) {
                strings_among(v->Arr_0)
            } else {
                Seq::empty()
            },
            Err(_) => Seq::empty(),
        },
        None => Seq::empty(),
    }
}

/// Whether all items are strings.
fn all_strings(items: &Vec<Json>) -> (r: bool)
    ensures
        r == is_text_list(JsonV::Arr(arr_view(items@))),
{
    let ghost all = arr_view(items@);
    proof {
        crate::json::lemma_arr_view(items@);
    }
    let mut i: usize = 0;
    while i < items.len()
        invariant
            i <= items@.len(),
            all == arr_view(items@),
            all.len() == items@.len(),
            forall|k: int| 0 <= k < items@.len() ==> #[trigger] all[k] == items@[k].view(),
            forall|k: int| 0 <= k < i ==> #[trigger] all[k] is Str,
        decreases items.len() - i,
    {
        assert(all[i as int] == items@[i as int].view());
        match &items[i] {
            Json::Str(_) => {},
            _ => {
                return false;
            },
        }
        i += 1;
    }
    true
}

/// The plots that a stored text stands for.
fn read_plots(stored: &Option<String>) -> (r: Vec<String>)
    ensures
        texts(r@) == plots_of(maybe_owned(*stored)),
{
    match stored {
        Some(s) => match parse_json(s.as_str().as_bytes()) {
            Ok(Json::Arr(items)) => if all_strings(&items) {
                strings_in(&items)
            } else {
                crate::text::no_texts()
            },
            _ => crate::text::no_texts(),
        },
        None => crate::text::no_texts(),
    }
}

proof fn lemma_strings_of_text_array(v: Seq<Seq<char>>)
    ensures
        is_text_list(text_array(v)),
        strings_among(text_array(v)->Arr_0) == v,
    decreases v.len(),
{
    let items = text_array(v)->Arr_0;
    let pick = |x: JsonV| text_of(x);
    reveal(Seq::filter_map);
    if v.len() == 0 {
        assert(items =~= Seq::empty());
        assert(v =~= Seq::empty());
    } else {
        lemma_strings_of_text_array(v.drop_last());
        assert(items.drop_last() =~= text_array(v.drop_last())->Arr_0);
        assert(items.last() == JsonV::Str(v.last()));
        assert(v =~= v.drop_last() + seq![v.last()]);
        assert(strings_among(items) =~= strings_among(items.drop_last()) + seq![v.last()]);
    }
}

/// The text under which plots are stored.
pub open spec fn stored_plots(plots: Seq<Seq<char>>) -> Seq<char> {
    json_text(text_array(plots))
}

/// The text under which plots are stored. Reading it back gives the plots.
pub fn plots_json(plots: &Vec<String>) -> (r: String)
    ensures
        r@ == stored_plots(texts(plots@)),
        plots_of(Some(r@)) == texts(plots@),
{
    let j: Json = json_texts(plots);
    proof {
        lemma_strings_of_text_array(texts(plots@));
    }
    print_json(&j)
}

/// Whether a row is that of an API key.
pub open spec fn is_key_row(row: Seq<SqlV>) -> bool {
    has_text(row, 0) && has_text(row, 1) && has_text(row, 2) && has_int(row, 3)
}

/// The key in a row of its key, name, tier and whether it is active.
pub fn key_from_row(row: &Vec<SqlValue>) -> (r: Option<ApiKeyInfo>)
    ensures
        r is Some == is_key_row(row_view(row@)),
        r matches Some(k) ==> k@ == key_in(row_view(row@)),
{
    match (get_text(row, 0), get_text(row, 1), get_text(row, 2), get_int(row, 3)) {
        (Some(key), Some(name), Some(tier), Some(active)) => Some(
            ApiKeyInfo { key, name, tier, is_active: active != 0 },
        ),
        _ => None,
    }
}

/// An API key as it is looked up.
pub struct KeyV {
    pub key: Seq<char>,
    pub name: Seq<char>,
    pub tier: Seq<char>,
    pub is_active: bool,
}

impl View for ApiKeyInfo {
    type V = KeyV;

    open spec fn view(&self) -> KeyV {
        KeyV { key: self.key@, name: self.name@, tier: self.tier@, is_active: self.is_active }
    }
}

/// The key in a row.
pub open spec fn key_in(row: Seq<SqlV>) -> KeyV {
    KeyV {
        key: column_text(row, 0),
        name: column_text(row, 1),
        tier: column_text(row, 2),
        is_active: column_int(row, 3) != 0,
    }
}

/// The key in the row that a look-up gave, where there is one and it is active.
pub open spec fn valid_key(row: Option<Seq<SqlV>>) -> Option<KeyV> {
    match row {
        Some(r) => if is_key_row(r) && key_in(r).is_active {
            Some(key_in(r))
        } else {
            None
        },
        None => None,
    }
}

/// A row by contents, where there is one.
pub open spec fn maybe_row(row: Option<&Vec<SqlValue>>) -> Option<Seq<SqlV>> {
    match row {
        Some(r) => Some(row_view(r@)),
        None => None,
    }
}

/// The key in the row that a look-up gave, where there is one and it is active.
pub fn validated(row: Option<&Vec<SqlValue>>) -> (r: Option<ApiKeyInfo>)
    ensures
        match r {
            Some(k) => valid_key(maybe_row(row)) == Some(k@),
            None => valid_key(maybe_row(row)) is None,
        },
{
    match row {
        Some(cells) => active_key(key_from_row(cells)),
        None => None,
    }
}

/// An API key with the time that it was made at.
pub struct KeyRecord {
    pub info: ApiKeyInfo,
    pub created_at: String,
}

/// The key in a row of a key and the time that it was made at.
pub fn key_record_from_row(row: &Vec<SqlValue>) -> (r: Option<KeyRecord>)
    ensures
        r is Some == (is_key_row(row_view(row@)) && has_text(row_view(row@), 4)),
        r matches Some(k) ==> k.info@ == key_in(row_view(row@)) && k.created_at@ == column_text(row_view(row@), 4),
{
    match (key_from_row(row), get_text(row, 4)) {
        (Some(info), Some(created_at)) => Some(KeyRecord { info, created_at }),
        _ => None,
    }
}

/// The key that was looked up, where there is one and it is active.
pub fn active_key(found: Option<ApiKeyInfo>) -> (r: Option<ApiKeyInfo>)
    ensures
        r == (match found {
            Some(k) => if k.is_active {
                found
            } else {
                None
            },
            None => None,
        }),
{
    match found {
        Some(k) => if k.is_active {
            Some(k)
        } else {
            None
        },
        None => None,
    }
}

/// Whether a row is that of a checkpoint.
pub open spec fn is_checkpoint_row(row: Seq<SqlV>) -> bool {
    has_text(row, 0) && has_text(row, 1) && has_text(row, 2) && has_text(row, 3) && has_text(row, 4) && has_int(row, 5)
}

/// The checkpoint in a row.
pub fn checkpoint_from_row(row: &Vec<SqlValue>) -> (r: Option<CheckpointInfo>)
    ensures
        r is Some == is_checkpoint_row(row_view(row@)),
        r matches Some(c) ==> c.id@ == column_text(row_view(row@), 0) && c.api_key@ == column_text(row_view(row@), 1)
            && c.name@ == column_text(row_view(row@), 2) && c.path@ == column_text(row_view(row@), 3) && c.created_at@
            == column_text(row_view(row@), 4) && c.size_bytes == column_int(row_view(row@), 5),
{
    match (get_text(row, 0), get_text(row, 1), get_text(row, 2), get_text(row, 3), get_text(row, 4), get_int(row, 5)) {
        (Some(id), Some(api_key), Some(name), Some(path), Some(created_at), Some(size_bytes)) => Some(
            CheckpointInfo { id, api_key, name, path, created_at, size_bytes },
        ),
        _ => None,
    }
}

/// Whether a row is that of a job.
pub open spec fn is_job_row(row: Seq<SqlV>) -> bool {
    &&& has_text(row, 0) && has_text(row, 1) && has_text(row, 2) && has_text(row, 3) && has_text(row, 4)
    &&& has_opt(row, 5) && has_opt(row, 6) && has_opt(row, 7) && has_opt(row, 8) && has_opt(row, 9)
    &&& has_opt(row, 10) && has_text(row, 11) && has_opt(row, 12) && has_opt(row, 13) && has_opt_int(row, 14)
}

/// Whether a job is what a row says.
pub open spec fn job_is(j: JobRecord, row: Seq<SqlV>) -> bool {
    &&& j.id@ == column_text(row, 0)
    &&& j.session_id@ == column_text(row, 1)
    &&& j.api_key@ == column_text(row, 2)
    &&& j.status@ == column_text(row, 3)
    &&& j.code@ == column_text(row, 4)
    &&& maybe_owned(j.stdout) == column_opt(row, 5)
    &&& maybe_owned(j.result) == column_opt(row, 6)
    &&& maybe_owned(j.error) == column_opt(row, 7)
    &&& texts(j.plots@) == plots_of(column_opt(row, 8))
    &&& maybe_owned(j.html) == column_opt(row, 9)
    &&& maybe_owned(j.webhook_url) == column_opt(row, 10)
    &&& j.created_at@ == column_text(row, 11)
    &&& maybe_owned(j.started_at) == column_opt(row, 12)
    &&& maybe_owned(j.finished_at) == column_opt(row, 13)
    &&& maybe_int(j.duration_ms) == column_opt_int(row, 14)
}

/// The job in a row.
pub fn job_from_row(row: &Vec<SqlValue>) -> (r: Option<JobRecord>)
    ensures
        r is Some == is_job_row(row_view(row@)),
        r matches Some(j) ==> job_is(j, row_view(row@)),
{
    let id: String = match get_text(row, 0) {
        Some(x) => x,
        None => return None,
    };
    let session_id: String = match get_text(row, 1) {
        Some(x) => x,
        None => return None,
    };
    let api_key: String = match get_text(row, 2) {
        Some(x) => x,
        None => return None,
    };
    let status: String = match get_text(row, 3) {
        Some(x) => x,
        None => return None,
    };
    let code: String = match get_text(row, 4) {
        Some(x) => x,
        None => return None,
    };
    let stdout: Option<String> = match get_opt(row, 5) {
        Some(x) => x,
        None => return None,
    };
    let result: Option<String> = match get_opt(row, 6) {
        Some(x) => x,
        None => return None,
    };
    let error: Option<String> = match get_opt(row, 7) {
        Some(x) => x,
        None => return None,
    };
    let stored: Option<String> = match get_opt(row, 8) {
        Some(x) => x,
        None => return None,
    };
    let html: Option<String> = match get_opt(row, 9) {
        Some(x) => x,
        None => return None,
    };
    let webhook_url: Option<String> = match get_opt(row, 10) {
        Some(x) => x,
        None => return None,
    };
    let created_at: String = match get_text(row, 11) {
        Some(x) => x,
        None => return None,
    };
    let started_at: Option<String> = match get_opt(row, 12) {
        Some(x) => x,
        None => return None,
    };
    let finished_at: Option<String> = match get_opt(row, 13) {
        Some(x) => x,
        None => return None,
    };
    let duration_ms: Option<i64> = match get_opt_int(row, 14) {
        Some(x) => x,
        None => return None,
    };
    Some(
        JobRecord {
            id,
            session_id,
            api_key,
            status,
            code,
            stdout,
            result,
            error,
            plots: read_plots(&stored),
            html,
            webhook_url,
            created_at,
            started_at,
            finished_at,
            duration_ms,
        },
    )
}

/// Whether a row is that of a swarm.
pub open spec fn is_swarm_row(row: Seq<SqlV>) -> bool {
    &&& has_text(row, 0) && has_text(row, 1) && has_text(row, 2) && has_int(row, 3) && has_int(row, 4) && has_int(row, 5)
    &&& has_opt(row, 6) && has_opt(row, 7) && has_opt(row, 8) && has_opt(row, 9) && has_opt(row, 10)
    &&& has_text(row, 11) && has_opt(row, 12)
}

/// Whether a swarm is what a row says.
pub open spec fn swarm_is(s: SwarmRecord, row: Seq<SqlV>) -> bool {
    &&& s.id@ == column_text(row, 0)
    &&& s.api_key@ == column_text(row, 1)
    &&& s.status@ == column_text(row, 2)
    &&& s.total_workers == column_int(row, 3)
    &&& s.completed_workers == column_int(row, 4)
    &&& s.failed_workers == column_int(row, 5)
    &&& maybe_owned(s.template_checkpoint_id) == column_opt(row, 6)
    &&& maybe_owned(s.reduce_stdout) == column_opt(row, 7)
    &&& maybe_owned(s.reduce_result) == column_opt(row, 8)
    &&& maybe_owned(s.reduce_error) == column_opt(row, 9)
    &&& maybe_owned(s.webhook_url) == column_opt(row, 10)
    &&& s.created_at@ == column_text(row, 11)
    &&& maybe_owned(s.finished_at) == column_opt(row, 12)
}

/// The swarm in a row.
pub fn swarm_from_row(row: &Vec<SqlValue>) -> (r: Option<SwarmRecord>)
    ensures
        r is Some == is_swarm_row(row_view(row@)),
        r matches Some(s) ==> swarm_is(s, row_view(row@)),
{
    let (id, api_key, status): (String, String, String) = match (get_text(row, 0), get_text(row, 1), get_text(row, 2)) {
        (Some(a), Some(b), Some(c)) => (a, b, c),
        _ => return None,
    };
    let (total_workers, completed_workers, failed_workers): (i64, i64, i64) = match (
        get_int(row, 3),
        get_int(row, 4),
        get_int(row, 5),
    ) {
        (Some(a), Some(b), Some(c)) => (a, b, c),
        _ => return None,
    };
    let (template_checkpoint_id, reduce_stdout, reduce_result): (Option<String>, Option<String>, Option<String>) = match (
        get_opt(row, 6),
        get_opt(row, 7),
        get_opt(row, 8),
    ) {
        (Some(a), Some(b), Some(c)) => (a, b, c),
        _ => return None,
    };
    let (reduce_error, webhook_url, created_at, finished_at): (Option<String>, Option<String>, String, Option<String>) =
        match (get_opt(row, 9), get_opt(row, 10), get_text(row, 11), get_opt(row, 12)) {
        (Some(a), Some(b), Some(c), Some(d)) => (a, b, c, d),
        _ => return None,
    };
    Some(
        SwarmRecord {
            id,
            api_key,
            status,
            total_workers,
            completed_workers,
            failed_workers,
            template_checkpoint_id,
            reduce_stdout,
            reduce_result,
            reduce_error,
            webhook_url,
            created_at,
            finished_at,
        },
    )
}

/// Whether a row is that of a swarm's worker.
pub open spec fn is_worker_row(row: Seq<SqlV>) -> bool {
    &&& has_text(row, 0) && has_text(row, 1) && has_int(row, 2) && has_opt(row, 3) && has_text(row, 4) && has_text(row, 5)
    &&& has_opt(row, 6) && has_opt(row, 7) && has_opt(row, 8) && has_opt(row, 9) && has_opt_int(row, 10)
    &&& has_opt(row, 11) && has_opt(row, 12)
}

/// Whether a worker is what a row says.
pub open spec fn worker_is(w: SwarmWorkerRecord, row: Seq<SqlV>) -> bool {
    &&& w.id@ == column_text(row, 0)
    &&& w.swarm_id@ == column_text(row, 1)
    &&& w.worker_index == column_int(row, 2)
    &&& maybe_owned(w.session_id) == column_opt(row, 3)
    &&& w.status@ == column_text(row, 4)
    &&& w.partition@ == column_text(row, 5)
    &&& maybe_owned(w.stdout) == column_opt(row, 6)
    &&& maybe_owned(w.result) == column_opt(row, 7)
    &&& maybe_owned(w.error) == column_opt(row, 8)
    &&& texts(w.plots@) == plots_of(column_opt(row, 9))
    &&& maybe_int(w.duration_ms) == column_opt_int(row, 10)
    &&& maybe_owned(w.started_at) == column_opt(row, 11)
    &&& maybe_owned(w.finished_at) == column_opt(row, 12)
}

/// The worker in a row.
pub fn worker_from_row(row: &Vec<SqlValue>) -> (r: Option<SwarmWorkerRecord>)
    ensures
        r is Some == is_worker_row(row_view(row@)),
        r matches Some(w) ==> worker_is(w, row_view(row@)),
{
    let (id, swarm_id, worker_index): (String, String, i64) = match (get_text(row, 0), get_text(row, 1), get_int(row, 2)) {
        (Some(a), Some(b), Some(c)) => (a, b, c),
        _ => return None,
    };
    let (session_id, status, partition): (Option<String>, String, String) = match (
        get_opt(row, 3),
        get_text(row, 4),
        get_text(row, 5),
    ) {
        (Some(a), Some(b), Some(c)) => (a, b, c),
        _ => return None,
    };
    let (stdout, result, error, stored): (Option<String>, Option<String>, Option<String>, Option<String>) = match (
        get_opt(row, 6),
        get_opt(row, 7),
        get_opt(row, 8),
        get_opt(row, 9),
    ) {
        (Some(a), Some(b), Some(c), Some(d)) => (a, b, c, d),
        _ => return None,
    };
    let (duration_ms, started_at, finished_at): (Option<i64>, Option<String>, Option<String>) = match (
        get_opt_int(row, 10),
        get_opt(row, 11),
        get_opt(row, 12),
    ) {
        (Some(a), Some(b), Some(c)) => (a, b, c),
        _ => return None,
    };
    Some(
        SwarmWorkerRecord {
            id,
            swarm_id,
            worker_index,
            session_id,
            status,
            partition,
            stdout,
            result,
            error,
            plots: read_plots(&stored),
            duration_ms,
            started_at,
            finished_at,
        },
    )
}

/// The Stripe customer of a key.
pub struct StripeCustomer {
    pub api_key: String,
    pub stripe_customer_id: String,
    pub status: String,
}

/// The Stripe customer in a row.
pub fn stripe_customer_from_row(row: &Vec<SqlValue>) -> (r: Option<StripeCustomer>)
    ensures
        r is Some == (has_text(row_view(row@), 0) && has_text(row_view(row@), 1) && has_text(row_view(row@), 2)),
        r matches Some(c) ==> c.api_key@ == column_text(row_view(row@), 0) && c.stripe_customer_id@ == column_text(
            row_view(row@),
            1,
        ) && c.status@ == column_text(row_view(row@), 2),
{
    match (get_text(row, 0), get_text(row, 1), get_text(row, 2)) {
        (Some(api_key), Some(stripe_customer_id), Some(status)) => Some(
            StripeCustomer { api_key, stripe_customer_id, status },
        ),
        _ => None,
    }
}

/// The workspace in a row.
pub fn workspace_from_row(row: &Vec<SqlValue>) -> (r: Option<WorkspaceRecord>)
    ensures
        r is Some == (has_text(row_view(row@), 0) && has_text(row_view(row@), 1) && has_text(row_view(row@), 2) && has_text(
            row_view(row@),
            3,
        ) && has_text(row_view(row@), 4) && has_opt(row_view(row@), 5)),
        r matches Some(w) ==> w.id@ == column_text(row_view(row@), 0) && w.name@ == column_text(row_view(row@), 1)
            && w.owner_api_key@ == column_text(row_view(row@), 2) && w.created_at@ == column_text(row_view(row@), 3)
            && w.last_accessed_at@ == column_text(row_view(row@), 4) && maybe_owned(w.checkpoint_path) == column_opt(
            row_view(row@),
            5,
        ),
{
    match (get_text(row, 0), get_text(row, 1), get_text(row, 2), get_text(row, 3), get_text(row, 4), get_opt(row, 5)) {
        (Some(id), Some(name), Some(owner_api_key), Some(created_at), Some(last_accessed_at), Some(checkpoint_path)) => Some(
            WorkspaceRecord { id, name, owner_api_key, created_at, last_accessed_at, checkpoint_path },
        ),
        _ => None,
    }
}

/// The member of a workspace in a row.
pub fn member_from_row(row: &Vec<SqlValue>) -> (r: Option<WorkspaceMember>)
    ensures
        r is Some == (has_text(row_view(row@), 0) && has_text(row_view(row@), 1)),
        r matches Some(m) ==> m.api_key@ == column_text(row_view(row@), 0) && m.joined_at@ == column_text(row_view(row@), 1),
{
    match (get_text(row, 0), get_text(row, 1)) {
        (Some(api_key), Some(joined_at)) => Some(WorkspaceMember { api_key, joined_at }),
        _ => None,
    }
}

/// The number in a row of one number; 0 where there is none.
pub fn number_from_row(row: Option<&Vec<SqlValue>>) -> (r: i64)
    ensures
        r == (match row {
            Some(v) => if has_int(row_view(v@), 0) {
                column_int(row_view(v@), 0)
            } else {
                0
            },
            None => 0,
        }),
{
    match row {
        Some(v) => match get_int(v, 0) {
            Some(n) => n,
            None => 0,
        },
        None => 0,
    }
}

/// The password hash and the key in a row of the two.
pub fn user_from_row(row: &Vec<SqlValue>) -> (r: Option<(String, String)>)
    ensures
        r is Some == (has_text(row_view(row@), 0) && has_text(row_view(row@), 1)),
        r matches Some((h, k)) ==> h@ == column_text(row_view(row@), 0) && k@ == column_text(row_view(row@), 1),
{
    match (get_text(row, 0), get_text(row, 1)) {
        (Some(hash), Some(key)) => Some((hash, key)),
        _ => None,
    }
}

/// The identifier, key and path of a checkpoint in a row of the three.
pub fn expired_from_row(row: &Vec<SqlValue>) -> (r: Option<(String, String, String)>)
    ensures
        r is Some == (has_text(row_view(row@), 0) && has_text(row_view(row@), 1) && has_text(row_view(row@), 2)),
        r matches Some((id, key, path)) ==> id@ == column_text(row_view(row@), 0) && key@ == column_text(row_view(row@), 1)
            && path@ == column_text(row_view(row@), 2),
{
    match (get_text(row, 0), get_text(row, 1), get_text(row, 2)) {
        (Some(id), Some(key), Some(path)) => Some((id, key, path)),
        _ => None,
    }
}

// ── Statements ──────────────────────────────────────────

/// What a connection is set to.
pub const PRAGMAS: &'static str = "PRAGMA journal_mode=WAL; PRAGMA busy_timeout=5000;";

/// The tables and indexes.
pub const SCHEMA: &'static str = "
CREATE TABLE IF NOT EXISTS api_keys (
    key TEXT PRIMARY KEY,
    name TEXT NOT NULL,
    tier TEXT NOT NULL DEFAULT 'free',
    created_at TEXT NOT NULL,
    is_active INTEGER NOT NULL DEFAULT 1
);
CREATE TABLE IF NOT EXISTS usage (
    id INTEGER PRIMARY KEY AUTOINCREMENT,
    api_key TEXT NOT NULL,
    endpoint TEXT NOT NULL,
    duration_ms INTEGER,
    timestamp TEXT NOT NULL,
    FOREIGN KEY (api_key) REFERENCES api_keys(key)
);
CREATE TABLE IF NOT EXISTS checkpoints (
    id TEXT PRIMARY KEY,
    api_key TEXT NOT NULL,
    name TEXT NOT NULL,
    path TEXT NOT NULL,
    created_at TEXT NOT NULL,
    size_bytes INTEGER NOT NULL DEFAULT 0,
    FOREIGN KEY (api_key) REFERENCES api_keys(key)
);
CREATE TABLE IF NOT EXISTS jobs (
    id TEXT PRIMARY KEY,
    session_id TEXT NOT NULL,
    api_key TEXT NOT NULL,
    status TEXT NOT NULL DEFAULT 'queued',
    code TEXT NOT NULL,
    stdout TEXT,
    result TEXT,
    error TEXT,
    plots TEXT,
    html TEXT,
    webhook_url TEXT,
    created_at TEXT NOT NULL,
    started_at TEXT,
    finished_at TEXT,
    duration_ms INTEGER
);
CREATE INDEX IF NOT EXISTS idx_usage_key ON usage(api_key);
CREATE INDEX IF NOT EXISTS idx_usage_timestamp ON usage(timestamp);
CREATE INDEX IF NOT EXISTS idx_checkpoints_key ON checkpoints(api_key);
CREATE INDEX IF NOT EXISTS idx_jobs_session ON jobs(session_id);
CREATE INDEX IF NOT EXISTS idx_jobs_key ON jobs(api_key);
CREATE TABLE IF NOT EXISTS swarms (
    id TEXT PRIMARY KEY,
    api_key TEXT NOT NULL,
    status TEXT NOT NULL DEFAULT 'running',
    total_workers INTEGER NOT NULL,
    completed_workers INTEGER NOT NULL DEFAULT 0,
    failed_workers INTEGER NOT NULL DEFAULT 0,
    template_checkpoint_id TEXT,
    reduce_stdout TEXT,
    reduce_result TEXT,
    reduce_error TEXT,
    webhook_url TEXT,
    created_at TEXT NOT NULL,
    finished_at TEXT
);
CREATE TABLE IF NOT EXISTS swarm_workers (
    id TEXT PRIMARY KEY,
    swarm_id TEXT NOT NULL,
    worker_index INTEGER NOT NULL,
    session_id TEXT,
    status TEXT NOT NULL DEFAULT 'pending',
    partition TEXT NOT NULL,
    stdout TEXT,
    result TEXT,
    error TEXT,
    plots TEXT,
    duration_ms INTEGER,
    started_at TEXT,
    finished_at TEXT,
    FOREIGN KEY (swarm_id) REFERENCES swarms(id)
);
CREATE INDEX IF NOT EXISTS idx_swarms_key ON swarms(api_key);
CREATE INDEX IF NOT EXISTS idx_swarm_workers_swarm ON swarm_workers(swarm_id);
CREATE TABLE IF NOT EXISTS users (
    id TEXT PRIMARY KEY,
    email TEXT NOT NULL UNIQUE,
    password_hash TEXT NOT NULL,
    api_key TEXT NOT NULL,
    created_at TEXT NOT NULL,
    FOREIGN KEY (api_key) REFERENCES api_keys(key)
);
CREATE UNIQUE INDEX IF NOT EXISTS idx_users_email ON users(email);
CREATE TABLE IF NOT EXISTS usage_events (
    id INTEGER PRIMARY KEY AUTOINCREMENT,
    api_key TEXT NOT NULL,
    kind TEXT NOT NULL,
    session_id TEXT,
    swarm_id TEXT,
    duration_ms INTEGER NOT NULL,
    output_tokens INTEGER NOT NULL,
    state_tokens INTEGER NOT NULL,
    timestamp TEXT NOT NULL
);
CREATE INDEX IF NOT EXISTS idx_usage_events_key ON usage_events(api_key, timestamp);
CREATE TABLE IF NOT EXISTS stripe_customers (
    api_key TEXT PRIMARY KEY,
    stripe_customer_id TEXT NOT NULL,
    subscription_id TEXT,
    plan TEXT NOT NULL,
    status TEXT NOT NULL
);
CREATE TABLE IF NOT EXISTS workspaces (
    id TEXT PRIMARY KEY,
    name TEXT NOT NULL,
    owner_api_key TEXT NOT NULL,
    created_at TEXT NOT NULL,
    last_accessed_at TEXT NOT NULL,
    checkpoint_path TEXT
);
CREATE TABLE IF NOT EXISTS workspace_members (
    workspace_id TEXT NOT NULL,
    api_key TEXT NOT NULL,
    joined_at TEXT NOT NULL,
    PRIMARY KEY (workspace_id, api_key)
);
";

/// The cells of a new API key.
pub open spec fn key_cells(key: Seq<char>, name: Seq<char>, tier: Seq<char>, now: Seq<char>) -> Cells {
    seq![
        ("key"@, SqlV::Text(key)),
        ("name"@, SqlV::Text(name)),
        ("tier"@, SqlV::Text(tier)),
        ("created_at"@, SqlV::Text(now)),
        ("is_active"@, SqlV::Int(1)),
    ]
}

/// Stores a new API key, which is active.
pub open spec fn key_insert(key: Seq<char>, name: Seq<char>, tier: Seq<char>, now: Seq<char>) -> QueryV {
    QueryV::Insert { table: "api_keys"@, cells: key_cells(key, name, tier, now) }
}

/// The columns of an API key.
pub open spec fn key_columns() -> Seq<Seq<char>> {
    seq!["key"@, "name"@, "tier"@, "is_active"@]
}

/// Looks an API key up.
pub open spec fn key_lookup(key: Seq<char>) -> QueryV {
    QueryV::Select {
        table: "api_keys"@,
        columns: key_columns(),
        cells: seq![("key"@, SqlV::Text(key))],
        order: OrderV::Any,
    }
}

/// Lists all API keys with the times that they were made at, the newest first.
pub open spec fn key_list() -> QueryV {
    QueryV::Select {
        table: "api_keys"@,
        columns: key_columns().push("created_at"@),
        cells: seq![],
        order: OrderV::Falling("created_at"@),
    }
}

/// Makes an API key inactive.
pub open spec fn key_revoke(key: Seq<char>) -> QueryV {
    QueryV::Update { table: "api_keys"@, cells: seq![("is_active"@, SqlV::Int(0))], key_column: "key"@, key }
}

/// Moves an API key to another tier.
pub open spec fn tier_change(key: Seq<char>, tier: Seq<char>) -> QueryV {
    QueryV::Update { table: "api_keys"@, cells: seq![("tier"@, SqlV::Text(tier))], key_column: "key"@, key }
}

/// The cells of a record that belongs to a key.
pub open spec fn owned(id: Seq<char>, api_key: Seq<char>) -> Cells {
    seq![("id"@, SqlV::Text(id)), ("api_key"@, SqlV::Text(api_key))]
}

/// The cells of a new checkpoint.
pub open spec fn checkpoint_cells(
    id: Seq<char>,
    api_key: Seq<char>,
    name: Seq<char>,
    path: Seq<char>,
    size: int,
    now: Seq<char>,
) -> Cells {
    seq![
        ("id"@, SqlV::Text(id)),
        ("api_key"@, SqlV::Text(api_key)),
        ("name"@, SqlV::Text(name)),
        ("path"@, SqlV::Text(path)),
        ("created_at"@, SqlV::Text(now)),
        ("size_bytes"@, SqlV::Int(size)),
    ]
}

/// Stores a checkpoint.
pub open spec fn checkpoint_insert(
    id: Seq<char>,
    api_key: Seq<char>,
    name: Seq<char>,
    path: Seq<char>,
    size: int,
    now: Seq<char>,
) -> QueryV {
    QueryV::Insert { table: "checkpoints"@, cells: checkpoint_cells(id, api_key, name, path, size, now) }
}

/// The columns of a checkpoint.
pub open spec fn checkpoint_columns() -> Seq<Seq<char>> {
    seq!["id"@, "api_key"@, "name"@, "path"@, "created_at"@, "size_bytes"@]
}

/// Looks a checkpoint of a key up.
pub open spec fn checkpoint_lookup(id: Seq<char>, api_key: Seq<char>) -> QueryV {
    QueryV::Select { table: "checkpoints"@, columns: checkpoint_columns(), cells: owned(id, api_key), order: OrderV::Any }
}

/// Lists the checkpoints of a key, the newest first.
pub open spec fn checkpoint_list(api_key: Seq<char>) -> QueryV {
    QueryV::Select {
        table: "checkpoints"@,
        columns: checkpoint_columns(),
        cells: seq![("api_key"@, SqlV::Text(api_key))],
        order: OrderV::Falling("created_at"@),
    }
}

/// Deletes a checkpoint of a key.
pub open spec fn checkpoint_delete(id: Seq<char>, api_key: Seq<char>) -> QueryV {
    QueryV::Delete { table: "checkpoints"@, cells: owned(id, api_key) }
}

/// The cells of a new job.
pub open spec fn job_cells(
    id: Seq<char>,
    session_id: Seq<char>,
    api_key: Seq<char>,
    code: Seq<char>,
    webhook_url: Option<Seq<char>>,
    now: Seq<char>,
) -> Cells {
    seq![
        ("id"@, SqlV::Text(id)),
        ("session_id"@, SqlV::Text(session_id)),
        ("api_key"@, SqlV::Text(api_key)),
        ("status"@, SqlV::Text("queued"@)),
        ("code"@, SqlV::Text(code)),
        ("webhook_url"@, sql_opt(webhook_url)),
        ("created_at"@, SqlV::Text(now)),
    ]
}

/// Stores a job that waits.
pub open spec fn job_insert(
    id: Seq<char>,
    session_id: Seq<char>,
    api_key: Seq<char>,
    code: Seq<char>,
    webhook_url: Option<Seq<char>>,
    now: Seq<char>,
) -> QueryV {
    QueryV::Insert { table: "jobs"@, cells: job_cells(id, session_id, api_key, code, webhook_url, now) }
}

/// Marks a job as running.
pub open spec fn job_start(id: Seq<char>, now: Seq<char>) -> QueryV {
    QueryV::Update {
        table: "jobs"@,
        cells: seq![("status"@, SqlV::Text("running"@)), ("started_at"@, SqlV::Text(now))],
        key_column: "id"@,
        key: id,
    }
}

/// The cells of what came of a job.
pub open spec fn job_end_cells(
    stdout: Seq<char>,
    result: Option<Seq<char>>,
    error: Option<Seq<char>>,
    plots: Seq<char>,
    html: Option<Seq<char>>,
    duration_ms: int,
    now: Seq<char>,
) -> Cells {
    seq![
        ("status"@, SqlV::Text(end_status(error))),
        ("stdout"@, SqlV::Text(stdout)),
        ("result"@, sql_opt(result)),
        ("error"@, sql_opt(error)),
        ("plots"@, SqlV::Text(plots)),
        ("html"@, sql_opt(html)),
        ("duration_ms"@, SqlV::Int(duration_ms)),
        ("finished_at"@, SqlV::Text(now)),
    ]
}

/// Stores what came of a job.
pub open spec fn job_end(
    id: Seq<char>,
    stdout: Seq<char>,
    result: Option<Seq<char>>,
    error: Option<Seq<char>>,
    plots: Seq<char>,
    html: Option<Seq<char>>,
    duration_ms: int,
    now: Seq<char>,
) -> QueryV {
    QueryV::Update {
        table: "jobs"@,
        cells: job_end_cells(stdout, result, error, plots, html, duration_ms, now),
        key_column: "id"@,
        key: id,
    }
}

/// The columns of a job.
pub open spec fn job_columns() -> Seq<Seq<char>> {
    seq![
        "id"@,
        "session_id"@,
        "api_key"@,
        "status"@,
        "code"@,
        "stdout"@,
        "result"@,
        "error"@,
        "plots"@,
        "html"@,
        "webhook_url"@,
        "created_at"@,
        "started_at"@,
        "finished_at"@,
        "duration_ms"@,
    ]
}

/// Looks a job of a key up.
pub open spec fn job_lookup(id: Seq<char>, api_key: Seq<char>) -> QueryV {
    QueryV::Select { table: "jobs"@, columns: job_columns(), cells: owned(id, api_key), order: OrderV::Any }
}

/// Lists the jobs of a session and a key, the newest first.
pub open spec fn job_list(session_id: Seq<char>, api_key: Seq<char>) -> QueryV {
    QueryV::Select {
        table: "jobs"@,
        columns: job_columns(),
        cells: seq![("session_id"@, SqlV::Text(session_id)), ("api_key"@, SqlV::Text(api_key))],
        order: OrderV::Falling("created_at"@),
    }
}

/// The cells of what came of a worker.
pub open spec fn worker_end_cells(
    stdout: Seq<char>,
    result: Option<Seq<char>>,
    error: Option<Seq<char>>,
    plots: Seq<char>,
    duration_ms: int,
    now: Seq<char>,
) -> Cells {
    seq![
        ("status"@, SqlV::Text(end_status(error))),
        ("stdout"@, SqlV::Text(stdout)),
        ("result"@, sql_opt(result)),
        ("error"@, sql_opt(error)),
        ("plots"@, SqlV::Text(plots)),
        ("duration_ms"@, SqlV::Int(duration_ms)),
        ("finished_at"@, SqlV::Text(now)),
    ]
}

/// Stores what came of a worker.
pub open spec fn worker_end(
    id: Seq<char>,
    stdout: Seq<char>,
    result: Option<Seq<char>>,
    error: Option<Seq<char>>,
    plots: Seq<char>,
    duration_ms: int,
    now: Seq<char>,
) -> QueryV {
    QueryV::Update {
        table: "swarm_workers"@,
        cells: worker_end_cells(stdout, result, error, plots, duration_ms, now),
        key_column: "id"@,
        key: id,
    }
}

/// Counts a worker that is done in its swarm.
pub open spec fn worker_count(swarm_id: Seq<char>, failed: bool) -> QueryV {
    QueryV::Increment {
        table: "swarms"@,
        column: if failed {
            "failed_workers"@
        } else {
            "completed_workers"@
        },
        key_column: "id"@,
        key: swarm_id,
    }
}

/// Looks an active key up by its name.
pub open spec fn key_by_name(name: Seq<char>) -> QueryV {
    QueryV::Select {
        table: "api_keys"@,
        columns: key_columns(),
        cells: seq![("name"@, SqlV::Text(name)), ("is_active"@, SqlV::Int(1))],
        order: OrderV::Any,
    }
}

/// Deletes a checkpoint.
pub open spec fn checkpoint_drop(id: Seq<char>) -> QueryV {
    QueryV::Delete { table: "checkpoints"@, cells: seq![("id"@, SqlV::Text(id))] }
}

/// The cells of a new swarm.
pub open spec fn swarm_cells(
    id: Seq<char>,
    api_key: Seq<char>,
    total: int,
    template_checkpoint_id: Option<Seq<char>>,
    webhook_url: Option<Seq<char>>,
    now: Seq<char>,
) -> Cells {
    seq![
        ("id"@, SqlV::Text(id)),
        ("api_key"@, SqlV::Text(api_key)),
        ("status"@, SqlV::Text("running"@)),
        ("total_workers"@, SqlV::Int(total)),
        ("completed_workers"@, SqlV::Int(0)),
        ("failed_workers"@, SqlV::Int(0)),
        ("template_checkpoint_id"@, sql_opt(template_checkpoint_id)),
        ("webhook_url"@, sql_opt(webhook_url)),
        ("created_at"@, SqlV::Text(now)),
    ]
}

/// Stores a swarm, of whose workers none is done.
pub open spec fn swarm_insert(
    id: Seq<char>,
    api_key: Seq<char>,
    total: int,
    template_checkpoint_id: Option<Seq<char>>,
    webhook_url: Option<Seq<char>>,
    now: Seq<char>,
) -> QueryV {
    QueryV::Insert {
        table: "swarms"@,
        cells: swarm_cells(id, api_key, total, template_checkpoint_id, webhook_url, now),
    }
}

/// The columns of a swarm.
pub open spec fn swarm_columns() -> Seq<Seq<char>> {
    seq![
        "id"@,
        "api_key"@,
        "status"@,
        "total_workers"@,
        "completed_workers"@,
        "failed_workers"@,
        "template_checkpoint_id"@,
        "reduce_stdout"@,
        "reduce_result"@,
        "reduce_error"@,
        "webhook_url"@,
        "created_at"@,
        "finished_at"@,
    ]
}

/// Looks a swarm of a key up.
pub open spec fn swarm_lookup(id: Seq<char>, api_key: Seq<char>) -> QueryV {
    QueryV::Select { table: "swarms"@, columns: swarm_columns(), cells: owned(id, api_key), order: OrderV::Any }
}

/// The cells of the outcome of a swarm.
pub open spec fn swarm_end_cells(
    stdout: Option<Seq<char>>,
    result: Option<Seq<char>>,
    error: Option<Seq<char>>,
    now: Seq<char>,
) -> Cells {
    seq![
        ("status"@, SqlV::Text(end_status(error))),
        ("reduce_stdout"@, sql_opt(stdout)),
        ("reduce_result"@, sql_opt(result)),
        ("reduce_error"@, sql_opt(error)),
        ("finished_at"@, SqlV::Text(now)),
    ]
}

/// Stores the outcome of a swarm.
pub open spec fn swarm_end(
    id: Seq<char>,
    stdout: Option<Seq<char>>,
    result: Option<Seq<char>>,
    error: Option<Seq<char>>,
    now: Seq<char>,
) -> QueryV {
    QueryV::Update { table: "swarms"@, cells: swarm_end_cells(stdout, result, error, now), key_column: "id"@, key: id }
}

/// The cells of a new worker of a swarm.
pub open spec fn worker_cells(id: Seq<char>, swarm_id: Seq<char>, index: int, partition: Seq<char>) -> Cells {
    seq![
        ("id"@, SqlV::Text(id)),
        ("swarm_id"@, SqlV::Text(swarm_id)),
        ("worker_index"@, SqlV::Int(index)),
        ("status"@, SqlV::Text("pending"@)),
        ("partition"@, SqlV::Text(partition)),
    ]
}

/// Stores a worker of a swarm, which waits.
pub open spec fn worker_insert(id: Seq<char>, swarm_id: Seq<char>, index: int, partition: Seq<char>) -> QueryV {
    QueryV::Insert { table: "swarm_workers"@, cells: worker_cells(id, swarm_id, index, partition) }
}

/// Marks a worker as running in a session.
pub open spec fn worker_start(id: Seq<char>, session_id: Seq<char>, now: Seq<char>) -> QueryV {
    QueryV::Update {
        table: "swarm_workers"@,
        cells: seq![
            ("status"@, SqlV::Text("running"@)),
            ("session_id"@, SqlV::Text(session_id)),
            ("started_at"@, SqlV::Text(now)),
        ],
        key_column: "id"@,
        key: id,
    }
}

/// The columns of a worker of a swarm.
pub open spec fn worker_columns() -> Seq<Seq<char>> {
    seq![
        "id"@,
        "swarm_id"@,
        "worker_index"@,
        "session_id"@,
        "status"@,
        "partition"@,
        "stdout"@,
        "result"@,
        "error"@,
        "plots"@,
        "duration_ms"@,
        "started_at"@,
        "finished_at"@,
    ]
}

/// Lists the workers of a swarm in order.
pub open spec fn worker_list(swarm_id: Seq<char>) -> QueryV {
    QueryV::Select {
        table: "swarm_workers"@,
        columns: worker_columns(),
        cells: seq![("swarm_id"@, SqlV::Text(swarm_id))],
        order: OrderV::Rising("worker_index"@),
    }
}

/// The cells of a new workspace.
pub open spec fn workspace_cells(id: Seq<char>, name: Seq<char>, owner: Seq<char>, now: Seq<char>) -> Cells {
    seq![
        ("id"@, SqlV::Text(id)),
        ("name"@, SqlV::Text(name)),
        ("owner_api_key"@, SqlV::Text(owner)),
        ("created_at"@, SqlV::Text(now)),
        ("last_accessed_at"@, SqlV::Text(now)),
    ]
}

/// Stores a workspace, which was used just now.
pub open spec fn workspace_insert(id: Seq<char>, name: Seq<char>, owner: Seq<char>, now: Seq<char>) -> QueryV {
    QueryV::Insert { table: "workspaces"@, cells: workspace_cells(id, name, owner, now) }
}

/// The columns of a workspace.
pub open spec fn workspace_columns() -> Seq<Seq<char>> {
    seq![
        "id"@,
        "name"@,
        "owner_api_key"@,
        "created_at"@,
        "last_accessed_at"@,
        "checkpoint_path"@,
    ]
}

/// Looks a workspace up.
pub open spec fn workspace_lookup(id: Seq<char>) -> QueryV {
    QueryV::Select {
        table: "workspaces"@,
        columns: workspace_columns(),
        cells: seq![("id"@, SqlV::Text(id))],
        order: OrderV::Any,
    }
}

/// Stores that a workspace was used.
pub open spec fn workspace_touch(id: Seq<char>, now: Seq<char>) -> QueryV {
    QueryV::Update {
        table: "workspaces"@,
        cells: seq![("last_accessed_at"@, SqlV::Text(now))],
        key_column: "id"@,
        key: id,
    }
}

/// Stores where the state of a workspace was saved.
pub open spec fn workspace_saved(id: Seq<char>, path: Seq<char>) -> QueryV {
    QueryV::Update {
        table: "workspaces"@,
        cells: seq![("checkpoint_path"@, SqlV::Text(path))],
        key_column: "id"@,
        key: id,
    }
}

/// The cells of a workspace that a key owns.
pub open spec fn of_owner(id: Seq<char>, api_key: Seq<char>) -> Cells {
    seq![("id"@, SqlV::Text(id)), ("owner_api_key"@, SqlV::Text(api_key))]
}

/// Counts the workspaces with an identifier that a key owns.
pub open spec fn owner_count(id: Seq<char>, api_key: Seq<char>) -> QueryV {
    QueryV::Count { table: "workspaces"@, cells: of_owner(id, api_key) }
}

/// Deletes a workspace of its owner.
pub open spec fn workspace_delete(id: Seq<char>, api_key: Seq<char>) -> QueryV {
    QueryV::Delete { table: "workspaces"@, cells: of_owner(id, api_key) }
}

/// The cells of a new user.
pub open spec fn user_cells(id: Seq<char>, email: Seq<char>, hash: Seq<char>, api_key: Seq<char>, now: Seq<char>) -> Cells {
    seq![
        ("id"@, SqlV::Text(id)),
        ("email"@, SqlV::Text(email)),
        ("password_hash"@, SqlV::Text(hash)),
        ("api_key"@, SqlV::Text(api_key)),
        ("created_at"@, SqlV::Text(now)),
    ]
}

/// Stores a user.
pub open spec fn user_insert(id: Seq<char>, email: Seq<char>, hash: Seq<char>, api_key: Seq<char>, now: Seq<char>) -> QueryV {
    QueryV::Insert { table: "users"@, cells: user_cells(id, email, hash, api_key, now) }
}

/// Counts the users with an email address.
pub open spec fn user_count(email: Seq<char>) -> QueryV {
    QueryV::Count { table: "users"@, cells: seq![("email"@, SqlV::Text(email))] }
}

/// Looks the password hash and the key of a user up.
pub open spec fn user_lookup(email: Seq<char>) -> QueryV {
    QueryV::Select {
        table: "users"@,
        columns: seq!["password_hash"@, "api_key"@],
        cells: seq![("email"@, SqlV::Text(email))],
        order: OrderV::Any,
    }
}

/// The cells of what belongs to a key.
pub open spec fn of_key(api_key: Seq<char>) -> Cells {
    seq![("api_key"@, SqlV::Text(api_key))]
}

/// What an execution took.
pub struct UsageEventV {
    pub api_key: Seq<char>,
    pub kind: Seq<char>,
    pub session_id: Option<Seq<char>>,
    pub swarm_id: Option<Seq<char>>,
    pub duration_ms: int,
    pub output_tokens: int,
    pub state_tokens: int,
    pub timestamp: Seq<char>,
}

/// The cells of what an execution took.
pub open spec fn event_cells(e: UsageEventV) -> Cells {
    seq![
        ("api_key"@, SqlV::Text(e.api_key)),
        ("kind"@, SqlV::Text(e.kind)),
        ("session_id"@, sql_opt(e.session_id)),
        ("swarm_id"@, sql_opt(e.swarm_id)),
        ("duration_ms"@, SqlV::Int(e.duration_ms)),
        ("output_tokens"@, SqlV::Int(e.output_tokens)),
        ("state_tokens"@, SqlV::Int(e.state_tokens)),
        ("timestamp"@, SqlV::Text(e.timestamp)),
    ]
}

/// Stores what an execution took.
pub open spec fn event_add(e: UsageEventV) -> AdditionV {
    AdditionV::Append { table: "usage_events"@, cells: event_cells(e) }
}

/// Adds up the milliseconds that the executions of a key took on a day.
pub open spec fn time_used(api_key: Seq<char>, day: Seq<char>) -> QueryV {
    QueryV::Sum {
        table: "usage_events"@,
        column: "duration_ms"@,
        cells: of_key(api_key),
        test: TestV::Day("timestamp"@, day),
    }
}

/// The cells of a use of an endpoint.
pub open spec fn usage_cells(api_key: Seq<char>, endpoint: Seq<char>, duration_ms: int, now: Seq<char>) -> Cells {
    seq![
        ("api_key"@, SqlV::Text(api_key)),
        ("endpoint"@, SqlV::Text(endpoint)),
        ("duration_ms"@, SqlV::Int(duration_ms)),
        ("timestamp"@, SqlV::Text(now)),
    ]
}

/// Stores a use of an endpoint.
pub open spec fn usage_add(api_key: Seq<char>, endpoint: Seq<char>, duration_ms: int, now: Seq<char>) -> AdditionV {
    AdditionV::Append { table: "usage"@, cells: usage_cells(api_key, endpoint, duration_ms, now) }
}

/// Counts the uses by a key since a time.
pub open spec fn usage_count(api_key: Seq<char>, since: Seq<char>) -> QueryV {
    QueryV::CountIf { table: "usage"@, cells: of_key(api_key), test: TestV::Since("timestamp"@, since) }
}

/// Adds up the bytes of the checkpoints of a key.
pub open spec fn storage_used(api_key: Seq<char>) -> QueryV {
    QueryV::Sum { table: "checkpoints"@, column: "size_bytes"@, cells: of_key(api_key), test: TestV::Any }
}

/// Lists the checkpoints that were made before a time.
pub open spec fn expired_list(before: Seq<char>) -> QueryV {
    QueryV::SelectIf {
        table: "checkpoints"@,
        columns: seq!["id"@, "api_key"@, "path"@],
        cells: seq![],
        test: TestV::Before("created_at"@, before),
    }
}

/// The cells that name a member of a workspace.
pub open spec fn membership(id: Seq<char>, api_key: Seq<char>) -> Cells {
    seq![("workspace_id"@, SqlV::Text(id)), ("api_key"@, SqlV::Text(api_key))]
}

/// The cells of a member of a workspace.
pub open spec fn member_cells(id: Seq<char>, api_key: Seq<char>, now: Seq<char>) -> Cells {
    seq![
        ("workspace_id"@, SqlV::Text(id)),
        ("api_key"@, SqlV::Text(api_key)),
        ("joined_at"@, SqlV::Text(now)),
    ]
}

/// Stores a member of a workspace, unless it is stored.
pub open spec fn member_add(id: Seq<char>, api_key: Seq<char>, now: Seq<char>) -> AdditionV {
    AdditionV::AddNew { table: "workspace_members"@, cells: member_cells(id, api_key, now), unique: 2 }
}

/// Lists the members of a workspace, the first to join first.
pub open spec fn member_list(id: Seq<char>) -> QueryV {
    QueryV::Select {
        table: "workspace_members"@,
        columns: seq!["api_key"@, "joined_at"@],
        cells: seq![("workspace_id"@, SqlV::Text(id))],
        order: OrderV::Rising("joined_at"@),
    }
}

/// A statement on the workspaces and their members.
pub enum SharingV {
    /// Counts the workspaces with an identifier that a key owns or is a member of.
    Access { id: Seq<char>, api_key: Seq<char> },
    /// Lists the workspaces that a key owns or is a member of, the newest first.
    Accessible { api_key: Seq<char> },
    /// Deletes a member of a workspace, unless it is the owner.
    Kick { id: Seq<char>, api_key: Seq<char> },
}

/// The text and the parameters of a statement on the workspaces and their members.
pub open spec fn sharing_statement(q: SharingV) -> StatementV {
    match q {
        SharingV::Access { id, api_key } => StatementV {
            sql: "SELECT COUNT(*) FROM workspaces WHERE id = ?1 AND (owner_api_key = ?2 OR id IN (SELECT workspace_id FROM workspace_members WHERE api_key = ?2))"@,
            params: seq![SqlV::Text(id), SqlV::Text(api_key)],
        },
        SharingV::Accessible { api_key } => StatementV {
            sql: "SELECT id, name, owner_api_key, created_at, last_accessed_at, checkpoint_path FROM workspaces WHERE owner_api_key = ?1 OR id IN (SELECT workspace_id FROM workspace_members WHERE api_key = ?1) ORDER BY created_at DESC"@,
            params: seq![SqlV::Text(api_key)],
        },
        SharingV::Kick { id, api_key } => StatementV {
            sql: "DELETE FROM workspace_members WHERE workspace_id = ?1 AND api_key = ?2 AND NOT EXISTS (SELECT 1 FROM workspaces WHERE id = ?1 AND owner_api_key = ?2)"@,
            params: seq![SqlV::Text(id), SqlV::Text(api_key)],
        },
    }
}

/// Whether a key owns a workspace.
pub open spec fn is_owner(workspaces: Rows, id: Seq<char>, api_key: Seq<char>) -> bool {
    present(workspaces, of_owner(id, api_key))
}

/// Whether a key is stored as a member of a workspace.
pub open spec fn is_member(members: Rows, id: Seq<char>, api_key: Seq<char>) -> bool {
    present(members, membership(id, api_key))
}

/// Whether a key owns the workspace in a row or is a member of it.
pub open spec fn shares(workspace: Row, members: Rows, api_key: Seq<char>) -> bool {
    ||| cell(workspace, "owner_api_key"@) == SqlV::Text(api_key)
    ||| cell(workspace, "id"@) matches SqlV::Text(id) && is_member(members, id, api_key)
}

/// The workspaces that are counted for the access of a key.
pub open spec fn accessed(workspaces: Rows, members: Rows, id: Seq<char>, api_key: Seq<char>) -> Set<Seq<char>> {
    workspaces.dom().filter(
        |k: Seq<char>| cell(workspaces[k], "id"@) == SqlV::Text(id) && shares(workspaces[k], members, api_key),
    )
}

/// What the count for the access of a key gives.
pub open spec fn access_count(workspaces: Rows, members: Rows, id: Seq<char>, api_key: Seq<char>) -> nat {
    accessed(workspaces, members, id, api_key).len()
}

/// What the list of the workspaces of a key gives for one of them.
pub open spec fn accessible(workspaces: Rows, members: Rows, api_key: Seq<char>, id: Seq<char>) -> Option<Seq<SqlV>> {
    if workspaces.contains_key(id) && shares(workspaces[id], members, api_key) {
        Some(projected(workspaces[id], workspace_columns()))
    } else {
        None
    }
}

/// The rows of the members that a removal deletes.
pub open spec fn kicked(workspaces: Rows, members: Rows, id: Seq<char>, api_key: Seq<char>) -> Set<Seq<char>> {
    if is_owner(workspaces, id, api_key) {
        Set::empty()
    } else {
        matching(members, membership(id, api_key))
    }
}

/// The columns of a Stripe customer.
pub open spec fn customer_columns() -> Seq<Seq<char>> {
    seq!["api_key"@, "stripe_customer_id"@, "status"@]
}

/// Looks the Stripe customer of a key up.
pub open spec fn customer_of(api_key: Seq<char>) -> QueryV {
    QueryV::Select {
        table: "stripe_customers"@,
        columns: customer_columns(),
        cells: of_key(api_key),
        order: OrderV::Any,
    }
}

/// Looks a Stripe customer up.
pub open spec fn customer_by_id(stripe_customer_id: Seq<char>) -> QueryV {
    QueryV::Select {
        table: "stripe_customers"@,
        columns: customer_columns(),
        cells: seq![("stripe_customer_id"@, SqlV::Text(stripe_customer_id))],
        order: OrderV::Any,
    }
}

/// The cells of a subscription.
pub open spec fn customer_cells(
    api_key: Seq<char>,
    stripe_customer_id: Seq<char>,
    subscription_id: Option<Seq<char>>,
    plan: Seq<char>,
    status: Seq<char>,
) -> Cells {
    seq![
        ("api_key"@, SqlV::Text(api_key)),
        ("stripe_customer_id"@, SqlV::Text(stripe_customer_id)),
        ("subscription_id"@, sql_opt(subscription_id)),
        ("plan"@, SqlV::Text(plan)),
        ("status"@, SqlV::Text(status)),
    ]
}

/// Stores the subscription of a key.
pub open spec fn customer_upsert(
    api_key: Seq<char>,
    stripe_customer_id: Seq<char>,
    subscription_id: Option<Seq<char>>,
    plan: Seq<char>,
    status: Seq<char>,
) -> QueryV {
    QueryV::Upsert {
        table: "stripe_customers"@,
        cells: customer_cells(api_key, stripe_customer_id, subscription_id, plan, status),
    }
}

/// How a job or a worker ended.
pub open spec fn end_status(error: Option<Seq<char>>) -> Seq<char> {
    if error is Some {
        "error"@
    } else {
        "done"@
    }
}

fn status_text(failed: bool) -> (r: &'static str)
    ensures
        r@ == (if failed {
            "error"@
        } else {
            "done"@
        }),
{
    if failed {
        "error"
    } else {
        "done"
    }
}

/// The statements on the database.
pub struct Database {}

impl Database {
    /// What sets a new connection up.
    pub fn open() -> (r: &'static str)
        ensures
            r@ == PRAGMAS@,
    {
        PRAGMAS
    }

    /// What creates the tables that are missing.
    pub fn migrate() -> (r: &'static str)
        ensures
            r@ == SCHEMA@,
    {
        SCHEMA
    }

    /// Looks an API key up.
    pub fn validate_api_key(key: &str) -> (r: Statement)
        ensures
            r@ == statement_of(key_lookup(key@)),
    {
        let columns: Vec<&str> = vec!["key", "name", "tier", "is_active"];
        let cells: Vec<(&str, SqlValue)> = vec![("key", text_value(key))];
        assert(slices(columns@) =~= key_columns());
        assert(cells_view(cells@) =~= key_lookup(key@)->Select_cells);
        select("api_keys", &columns, cells, Order::Any)
    }

    /// Stores a use of an endpoint.
    pub fn record_usage(api_key: &str, endpoint: &str, duration_ms: i64, now: &str) -> (r: Statement)
        ensures
            r@ == addition_of(usage_add(api_key@, endpoint@, duration_ms as int, now@)),
    {
        let cells: Vec<(&str, SqlValue)> = vec![
            ("api_key", text_value(api_key)),
            ("endpoint", text_value(endpoint)),
            ("duration_ms", SqlValue::Int(duration_ms)),
            ("timestamp", text_value(now)),
        ];
        assert(cells_view(cells@) =~= usage_cells(api_key@, endpoint@, duration_ms as int, now@));
        insert("usage", cells)
    }

    /// Counts the uses by a key since a time.
    pub fn get_usage_count(api_key: &str, since: &str) -> (r: Statement)
        ensures
            r@ == statement_of(usage_count(api_key@, since@)),
    {
        let cells: Vec<(&str, SqlValue)> = vec![("api_key", text_value(api_key))];
        assert(cells_view(cells@) =~= of_key(api_key@));
        count_if("usage", cells, Test::Since("timestamp", since))
    }

    /// Stores a new API key, which is active.
    pub fn create_api_key(key: &str, name: &str, tier: &str, now: &str) -> (r: Statement)
        ensures
            r@ == statement_of(key_insert(key@, name@, tier@, now@)),
    {
        let cells: Vec<(&str, SqlValue)> = vec![
            ("key", text_value(key)),
            ("name", text_value(name)),
            ("tier", text_value(tier)),
            ("created_at", text_value(now)),
            ("is_active", SqlValue::Int(1)),
        ];
        assert(cells_view(cells@) =~= key_cells(key@, name@, tier@, now@));
        insert("api_keys", cells)
    }

    /// Makes an API key inactive.
    pub fn revoke_api_key(key: &str) -> (r: Statement)
        ensures
            r@ == statement_of(key_revoke(key@)),
    {
        let cells: Vec<(&str, SqlValue)> = vec![("is_active", SqlValue::Int(0))];
        assert(cells_view(cells@) =~= key_revoke(key@)->Update_cells);
        update("api_keys", cells, "key", key)
    }

    /// Lists all API keys with the times that they were made at, the newest first.
    pub fn list_api_keys() -> (r: Statement)
        ensures
            r@ == statement_of(key_list()),
    {
        let columns: Vec<&str> = vec!["key", "name", "tier", "is_active", "created_at"];
        let cells: Vec<(&str, SqlValue)> = Vec::new();
        assert(slices(columns@) =~= key_columns().push("created_at"@));
        assert(cells_view(cells@) =~= key_list()->Select_cells);
        select("api_keys", &columns, cells, Order::Falling("created_at"))
    }

    /// Stores a checkpoint.
    pub fn create_checkpoint_record(id: &str, api_key: &str, name: &str, path: &str, size_bytes: i64, now: &str) -> (r: Statement)
        ensures
            r@ == statement_of(checkpoint_insert(id@, api_key@, name@, path@, size_bytes as int, now@)),
    {
        let cells: Vec<(&str, SqlValue)> = vec![
            ("id", text_value(id)),
            ("api_key", text_value(api_key)),
            ("name", text_value(name)),
            ("path", text_value(path)),
            ("created_at", text_value(now)),
            ("size_bytes", SqlValue::Int(size_bytes)),
        ];
        assert(cells_view(cells@) =~= checkpoint_cells(id@, api_key@, name@, path@, size_bytes as int, now@));
        insert("checkpoints", cells)
    }

    /// Lists the checkpoints of a key, the newest first.
    pub fn list_checkpoints(api_key: &str) -> (r: Statement)
        ensures
            r@ == statement_of(checkpoint_list(api_key@)),
    {
        let columns: Vec<&str> = vec!["id", "api_key", "name", "path", "created_at", "size_bytes"];
        let cells: Vec<(&str, SqlValue)> = vec![("api_key", text_value(api_key))];
        assert(slices(columns@) =~= checkpoint_columns());
        assert(cells_view(cells@) =~= checkpoint_list(api_key@)->Select_cells);
        select("checkpoints", &columns, cells, Order::Falling("created_at"))
    }

    /// Looks a checkpoint of a key up.
    pub fn get_checkpoint(id: &str, api_key: &str) -> (r: Statement)
        ensures
            r@ == statement_of(checkpoint_lookup(id@, api_key@)),
    {
        let columns: Vec<&str> = vec!["id", "api_key", "name", "path", "created_at", "size_bytes"];
        let cells: Vec<(&str, SqlValue)> = vec![("id", text_value(id)), ("api_key", text_value(api_key))];
        assert(slices(columns@) =~= checkpoint_columns());
        assert(cells_view(cells@) =~= owned(id@, api_key@));
        select("checkpoints", &columns, cells, Order::Any)
    }

    /// Deletes a checkpoint of a key.
    pub fn delete_checkpoint_record(id: &str, api_key: &str) -> (r: Statement)
        ensures
            r@ == statement_of(checkpoint_delete(id@, api_key@)),
    {
        let cells: Vec<(&str, SqlValue)> = vec![("id", text_value(id)), ("api_key", text_value(api_key))];
        assert(cells_view(cells@) =~= owned(id@, api_key@));
        delete("checkpoints", cells)
    }

    /// Stores a job that waits.
    pub fn create_job(id: &str, session_id: &str, api_key: &str, code: &str, webhook_url: Option<&str>, now: &str) -> (r: Statement)
        ensures
            r@ == statement_of(job_insert(id@, session_id@, api_key@, code@, maybe(webhook_url), now@)),
    {
        let cells: Vec<(&str, SqlValue)> = vec![
            ("id", text_value(id)),
            ("session_id", text_value(session_id)),
            ("api_key", text_value(api_key)),
            ("status", text_value("queued")),
            ("code", text_value(code)),
            ("webhook_url", opt_value(webhook_url)),
            ("created_at", text_value(now)),
        ];
        assert(cells_view(cells@) =~= job_cells(id@, session_id@, api_key@, code@, maybe(webhook_url), now@));
        insert("jobs", cells)
    }

    /// Marks a job as running.
    pub fn set_job_running(id: &str, now: &str) -> (r: Statement)
        ensures
            r@ == statement_of(job_start(id@, now@)),
    {
        let cells: Vec<(&str, SqlValue)> = vec![("status", text_value("running")), ("started_at", text_value(now))];
        assert(cells_view(cells@) =~= job_start(id@, now@)->Update_cells);
        update("jobs", cells, "id", id)
    }

    /// Looks a job of a key up.
    pub fn get_job(id: &str, api_key: &str) -> (r: Statement)
        ensures
            r@ == statement_of(job_lookup(id@, api_key@)),
    {
        let columns: Vec<&str> = vec![
            "id",
            "session_id",
            "api_key",
            "status",
            "code",
            "stdout",
            "result",
            "error",
            "plots",
            "html",
            "webhook_url",
            "created_at",
            "started_at",
            "finished_at",
            "duration_ms",
        ];
        assert(slices(columns@) =~= job_columns());
        let cells: Vec<(&str, SqlValue)> = vec![("id", text_value(id)), ("api_key", text_value(api_key))];
        assert(cells_view(cells@) =~= owned(id@, api_key@));
        select("jobs", &columns, cells, Order::Any)
    }

    /// Lists the jobs of a session and a key, the newest first.
    pub fn list_session_jobs(session_id: &str, api_key: &str) -> (r: Statement)
        ensures
            r@ == statement_of(job_list(session_id@, api_key@)),
    {
        let columns: Vec<&str> = vec![
            "id",
            "session_id",
            "api_key",
            "status",
            "code",
            "stdout",
            "result",
            "error",
            "plots",
            "html",
            "webhook_url",
            "created_at",
            "started_at",
            "finished_at",
            "duration_ms",
        ];
        assert(slices(columns@) =~= job_columns());
        let cells: Vec<(&str, SqlValue)> = vec![("session_id", text_value(session_id)), ("api_key", text_value(api_key))];
        assert(cells_view(cells@) =~= job_list(session_id@, api_key@)->Select_cells);
        select("jobs", &columns, cells, Order::Falling("created_at"))
    }

    /// Stores a swarm, of whose workers none is done.
    pub fn create_swarm(id: &str, api_key: &str, total: i64, template_checkpoint_id: Option<&str>, webhook_url: Option<&str>, now: &str) -> (r: Statement)
        ensures
            r@ == statement_of(swarm_insert(id@, api_key@, total as int, maybe(template_checkpoint_id), maybe(webhook_url), now@)),
    {
        let cells: Vec<(&str, SqlValue)> = vec![
            ("id", text_value(id)),
            ("api_key", text_value(api_key)),
            ("status", text_value("running")),
            ("total_workers", SqlValue::Int(total)),
            ("completed_workers", SqlValue::Int(0)),
            ("failed_workers", SqlValue::Int(0)),
            ("template_checkpoint_id", opt_value(template_checkpoint_id)),
            ("webhook_url", opt_value(webhook_url)),
            ("created_at", text_value(now)),
        ];
        assert(cells_view(cells@) =~= swarm_cells(
            id@,
            api_key@,
            total as int,
            maybe(template_checkpoint_id),
            maybe(webhook_url),
            now@,
        ));
        insert("swarms", cells)
    }

    /// Stores a worker of a swarm, which waits.
    pub fn create_swarm_worker(id: &str, swarm_id: &str, index: i64, partition_json: &str) -> (r: Statement)
        ensures
            r@ == statement_of(worker_insert(id@, swarm_id@, index as int, partition_json@)),
    {
        let cells: Vec<(&str, SqlValue)> = vec![
            ("id", text_value(id)),
            ("swarm_id", text_value(swarm_id)),
            ("worker_index", SqlValue::Int(index)),
            ("status", text_value("pending")),
            ("partition", text_value(partition_json)),
        ];
        assert(cells_view(cells@) =~= worker_cells(id@, swarm_id@, index as int, partition_json@));
        insert("swarm_workers", cells)
    }

    /// Marks a worker as running in a session.
    pub fn set_worker_running(id: &str, session_id: &str, now: &str) -> (r: Statement)
        ensures
            r@ == statement_of(worker_start(id@, session_id@, now@)),
    {
        let cells: Vec<(&str, SqlValue)> = vec![
            ("status", text_value("running")),
            ("session_id", text_value(session_id)),
            ("started_at", text_value(now)),
        ];
        assert(cells_view(cells@) =~= worker_start(id@, session_id@, now@)->Update_cells);
        update("swarm_workers", cells, "id", id)
    }

    /// Looks a swarm of a key up.
    pub fn get_swarm(id: &str, api_key: &str) -> (r: Statement)
        ensures
            r@ == statement_of(swarm_lookup(id@, api_key@)),
    {
        let columns: Vec<&str> = vec![
            "id",
            "api_key",
            "status",
            "total_workers",
            "completed_workers",
            "failed_workers",
            "template_checkpoint_id",
            "reduce_stdout",
            "reduce_result",
            "reduce_error",
            "webhook_url",
            "created_at",
            "finished_at",
        ];
        assert(slices(columns@) =~= swarm_columns());
        let cells: Vec<(&str, SqlValue)> = vec![("id", text_value(id)), ("api_key", text_value(api_key))];
        assert(cells_view(cells@) =~= owned(id@, api_key@));
        select("swarms", &columns, cells, Order::Any)
    }

    /// Lists the workers of a swarm in order.
    pub fn get_swarm_workers(swarm_id: &str) -> (r: Statement)
        ensures
            r@ == statement_of(worker_list(swarm_id@)),
    {
        let columns: Vec<&str> = vec![
            "id",
            "swarm_id",
            "worker_index",
            "session_id",
            "status",
            "partition",
            "stdout",
            "result",
            "error",
            "plots",
            "duration_ms",
            "started_at",
            "finished_at",
        ];
        assert(slices(columns@) =~= worker_columns());
        let cells: Vec<(&str, SqlValue)> = vec![("swarm_id", text_value(swarm_id))];
        assert(cells_view(cells@) =~= worker_list(swarm_id@)->Select_cells);
        select("swarm_workers", &columns, cells, Order::Rising("worker_index"))
    }

    /// Counts the users with an email address.
    pub fn count_users(email: &str) -> (r: Statement)
        ensures
            r@ == statement_of(user_count(email@)),
    {
        let cells: Vec<(&str, SqlValue)> = vec![("email", text_value(email))];
        assert(cells_view(cells@) =~= user_count(email@)->Count_cells);
        count("users", cells)
    }

    /// Looks the password hash and the key of a user up.
    pub fn find_user(email: &str) -> (r: Statement)
        ensures
            r@ == statement_of(user_lookup(email@)),
    {
        let columns: Vec<&str> = vec!["password_hash", "api_key"];
        assert(slices(columns@) =~= user_lookup(email@)->Select_columns);
        let cells: Vec<(&str, SqlValue)> = vec![("email", text_value(email))];
        assert(cells_view(cells@) =~= user_lookup(email@)->Select_cells);
        select("users", &columns, cells, Order::Any)
    }

    /// Stores what an execution took.
    pub fn record_usage_event(
        api_key: &str,
        kind: &str,
        session_id: Option<&str>,
        swarm_id: Option<&str>,
        duration_ms: i64,
        output_tokens: i64,
        state_tokens: i64,
        now: &str,
    ) -> (r: Statement)
        ensures
            r@ == addition_of(
                event_add(
                    UsageEventV {
                        api_key: api_key@,
                        kind: kind@,
                        session_id: maybe(session_id),
                        swarm_id: maybe(swarm_id),
                        duration_ms: duration_ms as int,
                        output_tokens: output_tokens as int,
                        state_tokens: state_tokens as int,
                        timestamp: now@,
                    },
                ),
            ),
    {
        let cells: Vec<(&str, SqlValue)> = vec![
            ("api_key", text_value(api_key)),
            ("kind", text_value(kind)),
            ("session_id", opt_value(session_id)),
            ("swarm_id", opt_value(swarm_id)),
            ("duration_ms", SqlValue::Int(duration_ms)),
            ("output_tokens", SqlValue::Int(output_tokens)),
            ("state_tokens", SqlValue::Int(state_tokens)),
            ("timestamp", text_value(now)),
        ];
        assert(cells_view(cells@) =~= event_cells(
            UsageEventV {
                api_key: api_key@,
                kind: kind@,
                session_id: maybe(session_id),
                swarm_id: maybe(swarm_id),
                duration_ms: duration_ms as int,
                output_tokens: output_tokens as int,
                state_tokens: state_tokens as int,
                timestamp: now@,
            },
        ));
        insert("usage_events", cells)
    }

    /// Adds up the milliseconds that the executions of a key took on a day.
    pub fn get_credits_used_today(api_key: &str, day: &str) -> (r: Statement)
        ensures
            r@ == statement_of(time_used(api_key@, day@)),
    {
        let cells: Vec<(&str, SqlValue)> = vec![("api_key", text_value(api_key))];
        assert(cells_view(cells@) =~= of_key(api_key@));
        sum("usage_events", "duration_ms", cells, Test::Day("timestamp", day))
    }

    /// Adds up the bytes of the checkpoints of a key.
    pub fn checkpoint_storage_used(api_key: &str) -> (r: Statement)
        ensures
            r@ == statement_of(storage_used(api_key@)),
    {
        let cells: Vec<(&str, SqlValue)> = vec![("api_key", text_value(api_key))];
        assert(cells_view(cells@) =~= of_key(api_key@));
        sum("checkpoints", "size_bytes", cells, Test::Any)
    }

    /// Lists the checkpoints that were made before a time.
    pub fn list_expired_checkpoints(before: &str) -> (r: Statement)
        ensures
            r@ == statement_of(expired_list(before@)),
    {
        let columns: Vec<&str> = vec!["id", "api_key", "path"];
        assert(slices(columns@) =~= expired_list(before@)->SelectIf_columns);
        let cells: Vec<(&str, SqlValue)> = Vec::new();
        assert(cells_view(cells@) =~= expired_list(before@)->SelectIf_cells);
        select_if("checkpoints", &columns, cells, Test::Before("created_at", before))
    }

    /// Deletes a checkpoint.
    pub fn delete_checkpoint_by_id(id: &str) -> (r: Statement)
        ensures
            r@ == statement_of(checkpoint_drop(id@)),
    {
        let cells: Vec<(&str, SqlValue)> = vec![("id", text_value(id))];
        assert(cells_view(cells@) =~= checkpoint_drop(id@)->Delete_cells);
        delete("checkpoints", cells)
    }

    /// Stores a workspace, which was used just now.
    pub fn create_workspace(id: &str, name: &str, owner_api_key: &str, now: &str) -> (r: Statement)
        ensures
            r@ == statement_of(workspace_insert(id@, name@, owner_api_key@, now@)),
    {
        let cells: Vec<(&str, SqlValue)> = vec![
            ("id", text_value(id)),
            ("name", text_value(name)),
            ("owner_api_key", text_value(owner_api_key)),
            ("created_at", text_value(now)),
            ("last_accessed_at", text_value(now)),
        ];
        assert(cells_view(cells@) =~= workspace_cells(id@, name@, owner_api_key@, now@));
        insert("workspaces", cells)
    }

    /// Looks a workspace up.
    pub fn get_workspace(id: &str) -> (r: Statement)
        ensures
            r@ == statement_of(workspace_lookup(id@)),
    {
        let columns: Vec<&str> = vec![
            "id",
            "name",
            "owner_api_key",
            "created_at",
            "last_accessed_at",
            "checkpoint_path",
        ];
        assert(slices(columns@) =~= workspace_columns());
        let cells: Vec<(&str, SqlValue)> = vec![("id", text_value(id))];
        assert(cells_view(cells@) =~= workspace_lookup(id@)->Select_cells);
        select("workspaces", &columns, cells, Order::Any)
    }

    /// Lists the workspaces that a key owns or is a member of.
    pub fn list_workspaces(api_key: &str) -> (r: Statement)
        ensures
            r@ == sharing_statement(SharingV::Accessible { api_key: api_key@ }),
    {
        Statement::new("SELECT id, name, owner_api_key, created_at, last_accessed_at, checkpoint_path FROM workspaces WHERE owner_api_key = ?1 OR id IN (SELECT workspace_id FROM workspace_members WHERE api_key = ?1) ORDER BY created_at DESC").text(api_key)
    }

    /// Counts the workspaces with an identifier that a key owns.
    pub fn is_workspace_owner(id: &str, api_key: &str) -> (r: Statement)
        ensures
            r@ == statement_of(owner_count(id@, api_key@)),
    {
        let cells: Vec<(&str, SqlValue)> = vec![("id", text_value(id)), ("owner_api_key", text_value(api_key))];
        assert(cells_view(cells@) =~= of_owner(id@, api_key@));
        count("workspaces", cells)
    }

    /// Counts the workspaces with an identifier that a key owns or is a member of.
    pub fn can_access_workspace(id: &str, api_key: &str) -> (r: Statement)
        ensures
            r@ == sharing_statement(SharingV::Access { id: id@, api_key: api_key@ }),
    {
        Statement::new("SELECT COUNT(*) FROM workspaces WHERE id = ?1 AND (owner_api_key = ?2 OR id IN (SELECT workspace_id FROM workspace_members WHERE api_key = ?2))").text(id).text(api_key)
    }

    /// Stores that a workspace was used.
    pub fn touch_workspace(id: &str, now: &str) -> (r: Statement)
        ensures
            r@ == statement_of(workspace_touch(id@, now@)),
    {
        let cells: Vec<(&str, SqlValue)> = vec![("last_accessed_at", text_value(now))];
        assert(cells_view(cells@) =~= workspace_touch(id@, now@)->Update_cells);
        update("workspaces", cells, "id", id)
    }

    /// Stores where the state of a workspace was saved.
    pub fn update_workspace_checkpoint(id: &str, path: &str) -> (r: Statement)
        ensures
            r@ == statement_of(workspace_saved(id@, path@)),
    {
        let cells: Vec<(&str, SqlValue)> = vec![("checkpoint_path", text_value(path))];
        assert(cells_view(cells@) =~= workspace_saved(id@, path@)->Update_cells);
        update("workspaces", cells, "id", id)
    }

    /// Stores a member of a workspace, unless it is stored.
    pub fn add_workspace_member(id: &str, api_key: &str, now: &str) -> (r: Statement)
        ensures
            r@ == addition_of(member_add(id@, api_key@, now@)),
    {
        let cells: Vec<(&str, SqlValue)> = vec![
            ("workspace_id", text_value(id)),
            ("api_key", text_value(api_key)),
            ("joined_at", text_value(now)),
        ];
        assert(cells_view(cells@) =~= member_cells(id@, api_key@, now@));
        insert_new("workspace_members", cells)
    }

    /// Deletes a member of a workspace. Its owner stays.
    pub fn remove_workspace_member(id: &str, api_key: &str) -> (r: Statement)
        ensures
            r@ == sharing_statement(SharingV::Kick { id: id@, api_key: api_key@ }),
    {
        Statement::new("DELETE FROM workspace_members WHERE workspace_id = ?1 AND api_key = ?2 AND NOT EXISTS (SELECT 1 FROM workspaces WHERE id = ?1 AND owner_api_key = ?2)").text(id).text(api_key)
    }

    /// Lists the members of a workspace, the first to join first.
    pub fn list_workspace_members(id: &str) -> (r: Statement)
        ensures
            r@ == statement_of(member_list(id@)),
    {
        let columns: Vec<&str> = vec!["api_key", "joined_at"];
        assert(slices(columns@) =~= member_list(id@)->Select_columns);
        let cells: Vec<(&str, SqlValue)> = vec![("workspace_id", text_value(id))];
        assert(cells_view(cells@) =~= member_list(id@)->Select_cells);
        select("workspace_members", &columns, cells, Order::Rising("joined_at"))
    }

    /// Deletes a workspace of its owner.
    pub fn delete_workspace(id: &str, api_key: &str) -> (r: Statement)
        ensures
            r@ == statement_of(workspace_delete(id@, api_key@)),
    {
        let cells: Vec<(&str, SqlValue)> = vec![("id", text_value(id)), ("owner_api_key", text_value(api_key))];
        assert(cells_view(cells@) =~= of_owner(id@, api_key@));
        delete("workspaces", cells)
    }

    /// Looks the Stripe customer of a key up.
    pub fn get_stripe_customer(api_key: &str) -> (r: Statement)
        ensures
            r@ == statement_of(customer_of(api_key@)),
    {
        let columns: Vec<&str> = vec!["api_key", "stripe_customer_id", "status"];
        assert(slices(columns@) =~= customer_columns());
        let cells: Vec<(&str, SqlValue)> = vec![("api_key", text_value(api_key))];
        assert(cells_view(cells@) =~= customer_of(api_key@)->Select_cells);
        select("stripe_customers", &columns, cells, Order::Any)
    }

    /// Looks a Stripe customer up.
    pub fn get_stripe_customer_by_stripe_id(stripe_customer_id: &str) -> (r: Statement)
        ensures
            r@ == statement_of(customer_by_id(stripe_customer_id@)),
    {
        let columns: Vec<&str> = vec!["api_key", "stripe_customer_id", "status"];
        assert(slices(columns@) =~= customer_columns());
        let cells: Vec<(&str, SqlValue)> = vec![("stripe_customer_id", text_value(stripe_customer_id))];
        assert(cells_view(cells@) =~= customer_by_id(stripe_customer_id@)->Select_cells);
        select("stripe_customers", &columns, cells, Order::Any)
    }

    /// Stores the subscription of a key, and puts its plan into force.
    pub fn upsert_stripe_customer(
        api_key: &str,
        stripe_customer_id: &str,
        subscription_id: Option<&str>,
        plan: &str,
        status: &str,
    ) -> (r: (Statement, Statement))
        ensures
            r.0@ == statement_of(
                customer_upsert(api_key@, stripe_customer_id@, maybe(subscription_id), plan@, status@),
            ),
            r.1@ == statement_of(tier_change(api_key@, plan@)),
    {
        let cells: Vec<(&str, SqlValue)> = vec![
            ("api_key", text_value(api_key)),
            ("stripe_customer_id", text_value(stripe_customer_id)),
            ("subscription_id", opt_value(subscription_id)),
            ("plan", text_value(plan)),
            ("status", text_value(status)),
        ];
        assert(cells_view(cells@) =~= customer_cells(
            api_key@,
            stripe_customer_id@,
            maybe(subscription_id),
            plan@,
            status@,
        ));
        (upsert("stripe_customers", cells), Database::set_tier(api_key, plan))
    }

    /// Moves a key to another tier.
    pub fn set_tier(api_key: &str, tier: &str) -> (r: Statement)
        ensures
            r@ == statement_of(tier_change(api_key@, tier@)),
    {
        let cells: Vec<(&str, SqlValue)> = vec![("tier", text_value(tier))];
        assert(cells_view(cells@) =~= tier_change(api_key@, tier@)->Update_cells);
        update("api_keys", cells, "key", api_key)
    }

    /// Looks an active key up by its name.
    pub fn find_key_by_name(name: &str) -> (r: Statement)
        ensures
            r@ == statement_of(key_by_name(name@)),
    {
        let columns: Vec<&str> = vec!["key", "name", "tier", "is_active"];
        assert(slices(columns@) =~= key_columns());
        let cells: Vec<(&str, SqlValue)> = vec![("name", text_value(name)), ("is_active", SqlValue::Int(1))];
        assert(cells_view(cells@) =~= key_by_name(name@)->Select_cells);
        select("api_keys", &columns, cells, Order::Any)
    }

    /// Stores what came of a job. Its plots are read back from what is stored.
    pub fn set_job_done(
        id: &str,
        stdout: &str,
        result: Option<&str>,
        error: Option<&str>,
        plots: &Vec<String>,
        html: Option<&str>,
        duration_ms: i64,
        now: &str,
    ) -> (r: Statement)
        ensures
            r@ == statement_of(
                job_end(
                    id@,
                    stdout@,
                    maybe(result),
                    maybe(error),
                    stored_plots(texts(plots@)),
                    maybe(html),
                    duration_ms as int,
                    now@,
                ),
            ),
            plots_of(Some(stored_plots(texts(plots@)))) == texts(plots@),
    {
        let stored: String = plots_json(plots);
        let cells: Vec<(&str, SqlValue)> = vec![
            ("status", text_value(status_text(error.is_some()))),
            ("stdout", text_value(stdout)),
            ("result", opt_value(result)),
            ("error", opt_value(error)),
            ("plots", text_value(stored.as_str())),
            ("html", opt_value(html)),
            ("duration_ms", SqlValue::Int(duration_ms)),
            ("finished_at", text_value(now)),
        ];
        assert(cells_view(cells@) =~= job_end_cells(
            stdout@,
            maybe(result),
            maybe(error),
            stored_plots(texts(plots@)),
            maybe(html),
            duration_ms as int,
            now@,
        ));
        update("jobs", cells, "id", id)
    }

    /// Stores what came of a worker, and counts it in its swarm: as failed where
    /// there was an error, and else as completed.
    pub fn set_worker_done(
        id: &str,
        swarm_id: &str,
        stdout: &str,
        result: Option<&str>,
        error: Option<&str>,
        plots: &Vec<String>,
        duration_ms: i64,
        now: &str,
    ) -> (r: (Statement, Statement))
        ensures
            r.0@ == statement_of(
                worker_end(
                    id@,
                    stdout@,
                    maybe(result),
                    maybe(error),
                    stored_plots(texts(plots@)),
                    duration_ms as int,
                    now@,
                ),
            ),
            r.1@ == statement_of(worker_count(swarm_id@, error is Some)),
            plots_of(Some(stored_plots(texts(plots@)))) == texts(plots@),
    {
        let stored: String = plots_json(plots);
        let cells: Vec<(&str, SqlValue)> = vec![
            ("status", text_value(status_text(error.is_some()))),
            ("stdout", text_value(stdout)),
            ("result", opt_value(result)),
            ("error", opt_value(error)),
            ("plots", text_value(stored.as_str())),
            ("duration_ms", SqlValue::Int(duration_ms)),
            ("finished_at", text_value(now)),
        ];
        assert(cells_view(cells@) =~= worker_end_cells(
            stdout@,
            maybe(result),
            maybe(error),
            stored_plots(texts(plots@)),
            duration_ms as int,
            now@,
        ));
        let row: Statement = update("swarm_workers", cells, "id", id);
        let count: Statement = if error.is_some() {
            increment("swarms", "failed_workers", "id", swarm_id)
        } else {
            increment("swarms", "completed_workers", "id", swarm_id)
        };
        (row, count)
    }

    /// Stores the outcome of a swarm.
    pub fn finish_swarm(
        id: &str,
        reduce_stdout: Option<&str>,
        reduce_result: Option<&str>,
        reduce_error: Option<&str>,
        now: &str,
    ) -> (r: Statement)
        ensures
            r@ == statement_of(swarm_end(id@, maybe(reduce_stdout), maybe(reduce_result), maybe(reduce_error), now@)),
    {
        let cells: Vec<(&str, SqlValue)> = vec![
            ("status", text_value(status_text(reduce_error.is_some()))),
            ("reduce_stdout", opt_value(reduce_stdout)),
            ("reduce_result", opt_value(reduce_result)),
            ("reduce_error", opt_value(reduce_error)),
            ("finished_at", text_value(now)),
        ];
        assert(cells_view(cells@) =~= swarm_end_cells(
            maybe(reduce_stdout),
            maybe(reduce_result),
            maybe(reduce_error),
            now@,
        ));
        update("swarms", cells, "id", id)
    }

    /// Registers a user, given whether the email address is taken: hashes the
    /// password and makes the user's key. A user who registered can log in.
    pub fn register_user(email: &str, password: &str, taken: bool, now: &str) -> (r: Result<Registration, AuthError>)
        ensures
            taken ==> r matches Err(AuthError::EmailTaken),
            !taken ==> (r is Ok || r matches Err(AuthError::Internal)),
            r matches Ok(reg) ==> {
                &&& exists|user_id: Seq<char>, key_id: Seq<char>|
                    uuid_text(user_id) && uuid_text(key_id) && #[trigger] registered(
                        reg,
                        email@,
                        reg.password_hash@,
                        user_id,
                        key_id,
                        now@,
                    )
                &&& login_outcome(Some((reg.password_hash@, reg.api_key@)), password@) == logged_in(reg.api_key@)
            },
    {
        if taken {
            return Err(AuthError::EmailTaken);
        }
        let hash: Option<String> = bcrypt_hash(password);
        let user_id: String = new_id();
        let key_id: String = new_id();
        Database::registration(email, hash, user_id.as_str(), key_id.as_str(), now)
    }

    /// What is stored of a new user, given the hash of the password, where there
    /// is one, and the identifiers of the user and of the key.
    pub fn registration(
        email: &str,
        hash: Option<String>,
        user_id: &str,
        key_id: &str,
        now: &str,
    ) -> (r: Result<Registration, AuthError>)
        ensures
            match hash {
                None => r matches Err(AuthError::Internal),
                Some(h) => r matches Ok(reg) && registered(reg, email@, h@, user_id@, key_id@, now@),
            },
    {
        match hash {
            None => Err(AuthError::Internal),
            Some(h) => {
                let api_key: String = key_from("gc_", key_id);
                let insert_key: Statement = Database::create_api_key(api_key.as_str(), email, "free", now);
                let cells: Vec<(&str, SqlValue)> = vec![
                    ("id", text_value(user_id)),
                    ("email", text_value(email)),
                    ("password_hash", text_value(h.as_str())),
                    ("api_key", text_value(api_key.as_str())),
                    ("created_at", text_value(now)),
                ];
                assert(cells_view(cells@) =~= user_cells(user_id@, email@, h@, api_key@, now@));
                let insert_user: Statement = insert("users", cells);
                Ok(Registration { api_key, password_hash: h, insert_key, insert_user })
            },
        }
    }

    /// Logs a user in, given the stored hash and key, where there is such a user.
    pub fn login_user(stored: Option<(String, String)>, password: &str) -> (r: Result<String, AuthError>)
        ensures
            login_view(r) == login_outcome(
                match stored {
                    Some((h, k)) => Some((h@, k@)),
                    None => None,
                },
                password@,
            ),
    {
        match stored {
            None => Err(AuthError::InvalidCredentials),
            Some((hash, api_key)) => match bcrypt_verify(password, hash.as_str()) {
                None => Err(AuthError::Internal),
                Some(true) => Ok(api_key),
                Some(false) => Err(AuthError::InvalidCredentials),
            },
        }
    }

    /// A new API key.
    pub fn new_api_key() -> (r: String)
        ensures
            exists|id: Seq<char>| uuid_text(id) && r@ == #[trigger] key_text("greed_"@, id),
    {
        let id: String = new_id();
        key_from("greed_", id.as_str())
    }
}

/// Why a registration or a login fails.
#[derive(Debug, Clone, Copy, PartialEq, Eq, Structural)]
pub enum AuthError {
    EmailTaken,
    InvalidCredentials,
    Internal,
}

/// A new user: the key, the hash of the password, and the statements that store
/// them, that of the key first.
pub struct Registration {
    pub api_key: String,
    pub password_hash: String,
    pub insert_key: Statement,
    pub insert_user: Statement,
}

/// Whether a registration stores these values.
pub open spec fn registered(
    reg: Registration,
    email: Seq<char>,
    hash: Seq<char>,
    user_id: Seq<char>,
    key_id: Seq<char>,
    now: Seq<char>,
) -> bool {
    let key = key_text("gc_"@, key_id);
    &&& reg.api_key@ == key
    &&& reg.password_hash@ == hash
    &&& reg.insert_key@ == statement_of(key_insert(key, email, "free"@, now))
    &&& reg.insert_user@ == statement_of(user_insert(user_id, email, hash, key, now))
}

/// What a login gives, by contents.
pub open spec fn login_view(r: Result<String, AuthError>) -> Result<Seq<char>, AuthError> {
    match r {
        Ok(k) => Ok(k@),
        Err(e) => Err(e),
    }
}

/// A login that gives a key.
pub open spec fn logged_in(key: Seq<char>) -> Result<Seq<char>, AuthError> {
    Ok(key)
}

/// What a login gives: the key where the password matches the stored hash.
pub open spec fn login_outcome(stored: Option<(Seq<char>, Seq<char>)>, password: Seq<char>) -> Result<Seq<char>, AuthError> {
    match stored {
        None => Err(AuthError::InvalidCredentials),
        Some((hash, key)) => match bcrypt_check(password, hash) {
            None => Err(AuthError::Internal),
            Some(true) => Ok(key),
            Some(false) => Err(AuthError::InvalidCredentials),
        },
    }
}

// ── Records as JSON ─────────────────────────────────────

/// An API key as JSON.
pub open spec fn key_value(k: KeyRecord) -> JsonV {
    JsonV::Obj(
        map![
            "key"@ => JsonV::Str(k.info.key@),
            "name"@ => JsonV::Str(k.info.name@),
            "tier"@ => JsonV::Str(k.info.tier@),
            "is_active"@ => JsonV::Bool(k.info.is_active),
            "created_at"@ => JsonV::Str(k.created_at@),
        ],
    )
}

/// A job as JSON.
pub open spec fn job_value(j: JobRecord) -> JsonV {
    JsonV::Obj(
        map![
            "id"@ => JsonV::Str(j.id@),
            "session_id"@ => JsonV::Str(j.session_id@),
            "api_key"@ => JsonV::Str(j.api_key@),
            "status"@ => JsonV::Str(j.status@),
            "code"@ => JsonV::Str(j.code@),
            "stdout"@ => opt_text(j.stdout),
            "result"@ => opt_text(j.result),
            "error"@ => opt_text(j.error),
            "plots"@ => text_array(texts(j.plots@)),
            "html"@ => opt_text(j.html),
            "webhook_url"@ => opt_text(j.webhook_url),
            "created_at"@ => JsonV::Str(j.created_at@),
            "started_at"@ => opt_text(j.started_at),
            "finished_at"@ => opt_text(j.finished_at),
            "duration_ms"@ => opt_int(j.duration_ms),
        ],
    )
}

/// A worker as JSON.
pub open spec fn worker_value(w: SwarmWorkerRecord) -> JsonV {
    JsonV::Obj(
        map![
            "id"@ => JsonV::Str(w.id@),
            "swarm_id"@ => JsonV::Str(w.swarm_id@),
            "worker_index"@ => JsonV::Int(w.worker_index as int),
            "session_id"@ => opt_text(w.session_id),
            "status"@ => JsonV::Str(w.status@),
            "partition"@ => JsonV::Str(w.partition@),
            "stdout"@ => opt_text(w.stdout),
            "result"@ => opt_text(w.result),
            "error"@ => opt_text(w.error),
            "plots"@ => text_array(texts(w.plots@)),
            "duration_ms"@ => opt_int(w.duration_ms),
            "started_at"@ => opt_text(w.started_at),
            "finished_at"@ => opt_text(w.finished_at),
        ],
    )
}

/// A checkpoint as JSON.
pub open spec fn checkpoint_value(c: CheckpointInfo) -> JsonV {
    JsonV::Obj(
        map![
            "id"@ => JsonV::Str(c.id@),
            "api_key"@ => JsonV::Str(c.api_key@),
            "name"@ => JsonV::Str(c.name@),
            "path"@ => JsonV::Str(c.path@),
            "created_at"@ => JsonV::Str(c.created_at@),
            "size_bytes"@ => JsonV::Int(c.size_bytes as int),
        ],
    )
}

impl KeyRecord {
    pub fn to_json(&self) -> (r: Json)
        ensures
            r@ == key_value(*self),
    {
        let mut f: Fields = Fields::new();
        f.put_text("key", self.info.key.as_str());
        f.put_text("name", self.info.name.as_str());
        f.put_text("tier", self.info.tier.as_str());
        f.put_bool("is_active", self.info.is_active);
        f.put_text("created_at", self.created_at.as_str());
        f.done()
    }
}

impl JobRecord {
    pub fn to_json(&self) -> (r: Json)
        ensures
            r@ == job_value(*self),
    {
        let mut f: Fields = Fields::new();
        f.put_text("id", self.id.as_str());
        f.put_text("session_id", self.session_id.as_str());
        f.put_text("api_key", self.api_key.as_str());
        f.put_text("status", self.status.as_str());
        f.put_text("code", self.code.as_str());
        f.put_opt("stdout", &self.stdout);
        f.put_opt("result", &self.result);
        f.put_opt("error", &self.error);
        f.put_texts("plots", &self.plots);
        f.put_opt("html", &self.html);
        f.put_opt("webhook_url", &self.webhook_url);
        f.put_text("created_at", self.created_at.as_str());
        f.put_opt("started_at", &self.started_at);
        f.put_opt("finished_at", &self.finished_at);
        f.put_opt_i64("duration_ms", self.duration_ms);
        f.done()
    }
}

impl SwarmWorkerRecord {
    pub fn to_json(&self) -> (r: Json)
        ensures
            r@ == worker_value(*self),
    {
        let mut f: Fields = Fields::new();
        f.put_text("id", self.id.as_str());
        f.put_text("swarm_id", self.swarm_id.as_str());
        f.put_i64("worker_index", self.worker_index);
        f.put_opt("session_id", &self.session_id);
        f.put_text("status", self.status.as_str());
        f.put_text("partition", self.partition.as_str());
        f.put_opt("stdout", &self.stdout);
        f.put_opt("result", &self.result);
        f.put_opt("error", &self.error);
        f.put_texts("plots", &self.plots);
        f.put_opt_i64("duration_ms", self.duration_ms);
        f.put_opt("started_at", &self.started_at);
        f.put_opt("finished_at", &self.finished_at);
        f.done()
    }
}

impl CheckpointInfo {
    pub fn to_json(&self) -> (r: Json)
        ensures
            r@ == checkpoint_value(*self),
    {
        let mut f: Fields = Fields::new();
        f.put_text("id", self.id.as_str());
        f.put_text("api_key", self.api_key.as_str());
        f.put_text("name", self.name.as_str());
        f.put_text("path", self.path.as_str());
        f.put_text("created_at", self.created_at.as_str());
        f.put_i64("size_bytes", self.size_bytes);
        f.done()
    }
}

/// API keys as JSON.
pub fn keys_json(list: &Vec<KeyRecord>) -> (r: Json)
    ensures
        r@ == JsonV::Arr(Seq::new(list@.len(), |i: int| key_value(list@[i]))),
{
    let mut items: Items = Items::new();
    let mut i: usize = 0;
    while i < list.len()
        invariant
            i <= list@.len(),
            items@.len() == i,
            forall|j: int| 0 <= j < i ==> #[trigger] items@[j] == key_value(list@[j]),
        decreases list.len() - i,
    {
        items.put(list[i].to_json());
        i += 1;
    }
    assert(items@ =~= Seq::new(list@.len(), |k: int| key_value(list@[k])));
    items.done()
}

/// Jobs as JSON.
pub fn jobs_json(list: &Vec<JobRecord>) -> (r: Json)
    ensures
        r@ == JsonV::Arr(Seq::new(list@.len(), |i: int| job_value(list@[i]))),
{
    let mut items: Items = Items::new();
    let mut i: usize = 0;
    while i < list.len()
        invariant
            i <= list@.len(),
            items@.len() == i,
            forall|j: int| 0 <= j < i ==> #[trigger] items@[j] == job_value(list@[j]),
        decreases list.len() - i,
    {
        items.put(list[i].to_json());
        i += 1;
    }
    assert(items@ =~= Seq::new(list@.len(), |k: int| job_value(list@[k])));
    items.done()
}

/// Workers as JSON.
pub fn workers_json(list: &Vec<SwarmWorkerRecord>) -> (r: Json)
    ensures
        r@ == JsonV::Arr(Seq::new(list@.len(), |i: int| worker_value(list@[i]))),
{
    let mut items: Items = Items::new();
    let mut i: usize = 0;
    while i < list.len()
        invariant
            i <= list@.len(),
            items@.len() == i,
            forall|j: int| 0 <= j < i ==> #[trigger] items@[j] == worker_value(list@[j]),
        decreases list.len() - i,
    {
        items.put(list[i].to_json());
        i += 1;
    }
    assert(items@ =~= Seq::new(list@.len(), |k: int| worker_value(list@[k])));
    items.done()
}

/// Checkpoints as JSON.
pub fn checkpoints_json(list: &Vec<CheckpointInfo>) -> (r: Json)
    ensures
        r@ == JsonV::Arr(Seq::new(list@.len(), |i: int| checkpoint_value(list@[i]))),
{
    let mut items: Items = Items::new();
    let mut i: usize = 0;
    while i < list.len()
        invariant
            i <= list@.len(),
            items@.len() == i,
            forall|j: int| 0 <= j < i ==> #[trigger] items@[j] == checkpoint_value(list@[j]),
        decreases list.len() - i,
    {
        items.put(list[i].to_json());
        i += 1;
    }
    assert(items@ =~= Seq::new(list@.len(), |k: int| checkpoint_value(list@[k])));
    items.done()
}

} // verus!
