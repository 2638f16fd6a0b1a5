//! Laws on records: what is stored and read, column by column.
use vstd::prelude::*;
use vstd::string::*;
use vstd::utf8::encode_utf8;
use crate::codec::bcrypt_check;
use crate::db::{
    checkpoint_delete, checkpoint_drop, checkpoint_insert, checkpoint_list, checkpoint_lookup, checkpoint_value,
    column_int, column_opt, column_text, customer_by_id, customer_of, customer_upsert, end_status, event_add,
    expired_list, has_int, has_opt, has_text, is_checkpoint_row, is_job_row, is_key_row, is_swarm_row, is_worker_row,
    job_columns, job_end, job_insert, job_is, job_list, job_lookup, job_start, job_value, key_by_name, key_columns,
    key_in, key_insert, key_list, key_lookup, key_revoke, key_value, logged_in, login_outcome, login_view, maybe_row,
    member_add, member_list, owner_count, plots_of, registered, sharing_statement, storage_used, stored_plots,
    swarm_columns, swarm_end, swarm_insert, swarm_is, swarm_lookup, tier_change, time_used, usage_add, usage_count,
    user_count, user_insert, user_lookup, valid_key, worker_columns, worker_count, worker_end, worker_insert,
    worker_is, worker_list, worker_start, worker_value, workspace_delete, workspace_insert, workspace_lookup,
    workspace_saved, workspace_touch, ApiKeyInfo, AuthError, CheckpointInfo, JobRecord, KeyRecord, KeyV,
    Registration, SharingV, SwarmRecord, SwarmWorkerRecord, UsageEventV,
};
use crate::ident::key_text;
use crate::json::{field, is_text_list, json_parse, json_text, parses_to, JsonV};
use crate::laws::{has_just, law_strings_of_a_list, or_null, string_list};
use crate::sql::{
    addition_of, columns_of, equations, marks, row_view, sql_opt, statement_of, values_of, AdditionV, Cells, OrderV,
    QueryV, SqlV, SqlValue, Statement, StatementV, TestV,
};
use crate::text::{dec, join, maybe_owned, texts};

verus! {

/// Law: keys are stored, looked up, listed, revoked and moved to another tier by these
/// columns.
pub proof fn law_key_rows(key: Seq<char>, name: Seq<char>, tier: Seq<char>, now: Seq<char>)
    ensures
        key_insert(key, name, tier, now) == (
            QueryV::Insert {
                table: "api_keys"@,
                cells: seq![
                    ("key"@, SqlV::Text(key)),
                    ("name"@, SqlV::Text(name)),
                    ("tier"@, SqlV::Text(tier)),
                    ("created_at"@, SqlV::Text(now)),
                    ("is_active"@, SqlV::Int(1)),
                ],
            }
        ),
        key_lookup(key) == (
            QueryV::Select {
                table: "api_keys"@,
                columns: seq!["key"@, "name"@, "tier"@, "is_active"@],
                cells: seq![("key"@, SqlV::Text(key))],
                order: OrderV::Any,
            }
        ),
        key_list() == (
            QueryV::Select {
                table: "api_keys"@,
                columns: seq!["key"@, "name"@, "tier"@, "is_active"@].push("created_at"@),
                cells: Seq::<(Seq<char>, SqlV)>::empty(),
                order: OrderV::Falling("created_at"@),
            }
        ),
        key_revoke(key) == (
            QueryV::Update {
                table: "api_keys"@,
                cells: seq![("is_active"@, SqlV::Int(0))],
                key_column: "key"@,
                key,
            }
        ),
        tier_change(key, tier) == (
            QueryV::Update { table: "api_keys"@, cells: seq![("tier"@, SqlV::Text(tier))], key_column: "key"@, key }
        ),
        key_by_name(name) == (
            QueryV::Select {
                table: "api_keys"@,
                columns: seq!["key"@, "name"@, "tier"@, "is_active"@],
                cells: seq![("name"@, SqlV::Text(name)), ("is_active"@, SqlV::Int(1))],
                order: OrderV::Any,
            }
        ),
{
}

/// Law: checkpoints are stored, looked up, listed, deleted and added up by these
/// columns, and only those of their key are touched.
pub proof fn law_checkpoint_rows(
    id: Seq<char>,
    api_key: Seq<char>,
    name: Seq<char>,
    path: Seq<char>,
    size: int,
    now: Seq<char>,
    before: Seq<char>,
)
    ensures
        checkpoint_insert(id, api_key, name, path, size, now) == (
            QueryV::Insert {
                table: "checkpoints"@,
                cells: seq![
                    ("id"@, SqlV::Text(id)),
                    ("api_key"@, SqlV::Text(api_key)),
                    ("name"@, SqlV::Text(name)),
                    ("path"@, SqlV::Text(path)),
                    ("created_at"@, SqlV::Text(now)),
                    ("size_bytes"@, SqlV::Int(size)),
                ],
            }
        ),
        checkpoint_lookup(id, api_key) == (
            QueryV::Select {
                table: "checkpoints"@,
                columns: seq!["id"@, "api_key"@, "name"@, "path"@, "created_at"@, "size_bytes"@],
                cells: seq![("id"@, SqlV::Text(id)), ("api_key"@, SqlV::Text(api_key))],
                order: OrderV::Any,
            }
        ),
        checkpoint_list(api_key) == (
            QueryV::Select {
                table: "checkpoints"@,
                columns: seq!["id"@, "api_key"@, "name"@, "path"@, "created_at"@, "size_bytes"@],
                cells: seq![("api_key"@, SqlV::Text(api_key))],
                order: OrderV::Falling("created_at"@),
            }
        ),
        checkpoint_delete(id, api_key) == (
            QueryV::Delete {
                table: "checkpoints"@,
                cells: seq![("id"@, SqlV::Text(id)), ("api_key"@, SqlV::Text(api_key))],
            }
        ),
        checkpoint_drop(id) == (QueryV::Delete { table: "checkpoints"@, cells: seq![("id"@, SqlV::Text(id))] }),
        storage_used(api_key) == (
            QueryV::Sum {
                table: "checkpoints"@,
                column: "size_bytes"@,
                cells: seq![("api_key"@, SqlV::Text(api_key))],
                test: TestV::Any,
            }
        ),
        expired_list(before) == (
            QueryV::SelectIf {
                table: "checkpoints"@,
                columns: seq!["id"@, "api_key"@, "path"@],
                cells: Seq::<(Seq<char>, SqlV)>::empty(),
                test: TestV::Before("created_at"@, before),
            }
        ),
{
}

/// Law: jobs are stored as queued, started, ended with what came of them, looked up and
/// listed by these columns.
pub proof fn law_job_rows(
    id: Seq<char>,
    session_id: Seq<char>,
    api_key: Seq<char>,
    code: Seq<char>,
    webhook_url: Option<Seq<char>>,
    now: Seq<char>,
    stdout: Seq<char>,
    result: Option<Seq<char>>,
    error: Option<Seq<char>>,
    plots: Seq<char>,
    html: Option<Seq<char>>,
    duration_ms: int,
)
    ensures
        job_insert(id, session_id, api_key, code, webhook_url, now) == (
            QueryV::Insert {
                table: "jobs"@,
                cells: seq![
                    ("id"@, SqlV::Text(id)),
                    ("session_id"@, SqlV::Text(session_id)),
                    ("api_key"@, SqlV::Text(api_key)),
                    ("status"@, SqlV::Text("queued"@)),
                    ("code"@, SqlV::Text(code)),
                    ("webhook_url"@, sql_opt(webhook_url)),
                    ("created_at"@, SqlV::Text(now)),
                ],
            }
        ),
        job_start(id, now) == (
            QueryV::Update {
                table: "jobs"@,
                cells: seq![("status"@, SqlV::Text("running"@)), ("started_at"@, SqlV::Text(now))],
                key_column: "id"@,
                key: id,
            }
        ),
        job_end(id, stdout, result, error, plots, html, duration_ms, now) == (
            QueryV::Update {
                table: "jobs"@,
                cells: seq![
                    ("status"@, SqlV::Text(if error is Some { "error"@ } else { "done"@ })),
                    ("stdout"@, SqlV::Text(stdout)),
                    ("result"@, sql_opt(result)),
                    ("error"@, sql_opt(error)),
                    ("plots"@, SqlV::Text(plots)),
                    ("html"@, sql_opt(html)),
                    ("duration_ms"@, SqlV::Int(duration_ms)),
                    ("finished_at"@, SqlV::Text(now)),
                ],
                key_column: "id"@,
                key: id,
            }
        ),
        job_lookup(id, api_key) == (
            QueryV::Select {
                table: "jobs"@,
                columns: seq![
                    "id"@, "session_id"@, "api_key"@, "status"@, "code"@, "stdout"@, "result"@, "error"@, "plots"@,
                    "html"@, "webhook_url"@, "created_at"@, "started_at"@, "finished_at"@, "duration_ms"@,
                ],
                cells: seq![("id"@, SqlV::Text(id)), ("api_key"@, SqlV::Text(api_key))],
                order: OrderV::Any,
            }
        ),
        job_list(session_id, api_key) == (
            QueryV::Select {
                table: "jobs"@,
                columns: seq![
                    "id"@, "session_id"@, "api_key"@, "status"@, "code"@, "stdout"@, "result"@, "error"@, "plots"@,
                    "html"@, "webhook_url"@, "created_at"@, "started_at"@, "finished_at"@, "duration_ms"@,
                ],
                cells: seq![("session_id"@, SqlV::Text(session_id)), ("api_key"@, SqlV::Text(api_key))],
                order: OrderV::Falling("created_at"@),
            }
        ),
{
}

/// Law: swarms are stored as running, ended and looked up by these columns.
pub proof fn law_swarm_rows(
    id: Seq<char>,
    api_key: Seq<char>,
    total: int,
    template_checkpoint_id: Option<Seq<char>>,
    webhook_url: Option<Seq<char>>,
    now: Seq<char>,
    stdout: Option<Seq<char>>,
    result: Option<Seq<char>>,
    error: Option<Seq<char>>,
)
    ensures
        swarm_insert(id, api_key, total, template_checkpoint_id, webhook_url, now) == (
            QueryV::Insert {
                table: "swarms"@,
                cells: seq![
                    ("id"@, SqlV::Text(id)),
                    ("api_key"@, SqlV::Text(api_key)),
                    ("status"@, SqlV::Text("running"@)),
                    ("total_workers"@, SqlV::Int(total)),
                    ("completed_workers"@, SqlV::Int(0)),
                    ("failed_workers"@, SqlV::Int(0)),
                    ("template_checkpoint_id"@, sql_opt(template_checkpoint_id)),
                    ("webhook_url"@, sql_opt(webhook_url)),
                    ("created_at"@, SqlV::Text(now)),
                ],
            }
        ),
        swarm_lookup(id, api_key) == (
            QueryV::Select {
                table: "swarms"@,
                columns: seq![
                    "id"@, "api_key"@, "status"@, "total_workers"@, "completed_workers"@, "failed_workers"@,
                    "template_checkpoint_id"@, "reduce_stdout"@, "reduce_result"@, "reduce_error"@, "webhook_url"@,
                    "created_at"@, "finished_at"@,
                ],
                cells: seq![("id"@, SqlV::Text(id)), ("api_key"@, SqlV::Text(api_key))],
                order: OrderV::Any,
            }
        ),
        swarm_end(id, stdout, result, error, now) == (
            QueryV::Update {
                table: "swarms"@,
                cells: seq![
                    ("status"@, SqlV::Text(if error is Some { "error"@ } else { "done"@ })),
                    ("reduce_stdout"@, sql_opt(stdout)),
                    ("reduce_result"@, sql_opt(result)),
                    ("reduce_error"@, sql_opt(error)),
                    ("finished_at"@, SqlV::Text(now)),
                ],
                key_column: "id"@,
                key: id,
            }
        ),
{
}

/// Law: the workers of a swarm are stored as pending, started, ended and listed by
/// these columns.
pub proof fn law_worker_rows(
    id: Seq<char>,
    swarm_id: Seq<char>,
    index: int,
    partition: Seq<char>,
    session_id: Seq<char>,
    now: Seq<char>,
    stdout: Seq<char>,
    result: Option<Seq<char>>,
    error: Option<Seq<char>>,
    plots: Seq<char>,
    duration_ms: int,
)
    ensures
        worker_insert(id, swarm_id, index, partition) == (
            QueryV::Insert {
                table: "swarm_workers"@,
                cells: seq![
                    ("id"@, SqlV::Text(id)),
                    ("swarm_id"@, SqlV::Text(swarm_id)),
                    ("worker_index"@, SqlV::Int(index)),
                    ("status"@, SqlV::Text("pending"@)),
                    ("partition"@, SqlV::Text(partition)),
                ],
            }
        ),
        worker_start(id, session_id, now) == (
            QueryV::Update {
                table: "swarm_workers"@,
                cells: seq![
                    ("status"@, SqlV::Text("running"@)),
                    ("session_id"@, SqlV::Text(session_id)),
                    ("started_at"@, SqlV::Text(now)),
                ],
                key_column: "id"@,
                key: id,
            }
        ),
        worker_end(id, stdout, result, error, plots, duration_ms, now) == (
            QueryV::Update {
                table: "swarm_workers"@,
                cells: seq![
                    ("status"@, SqlV::Text(if error is Some { "error"@ } else { "done"@ })),
                    ("stdout"@, SqlV::Text(stdout)),
                    ("result"@, sql_opt(result)),
                    ("error"@, sql_opt(error)),
                    ("plots"@, SqlV::Text(plots)),
                    ("duration_ms"@, SqlV::Int(duration_ms)),
                    ("finished_at"@, SqlV::Text(now)),
                ],
                key_column: "id"@,
                key: id,
            }
        ),
        worker_list(swarm_id) == (
            QueryV::Select {
                table: "swarm_workers"@,
                columns: seq![
                    "id"@, "swarm_id"@, "worker_index"@, "session_id"@, "status"@, "partition"@, "stdout"@,
                    "result"@, "error"@, "plots"@, "duration_ms"@, "started_at"@, "finished_at"@,
                ],
                cells: seq![("swarm_id"@, SqlV::Text(swarm_id))],
                order: OrderV::Rising("worker_index"@),
            }
        ),
{
}

/// Law: workspaces are stored, looked up, touched, saved and deleted by these columns.
pub proof fn law_workspace_rows(
    id: Seq<char>,
    name: Seq<char>,
    owner: Seq<char>,
    now: Seq<char>,
    path: Seq<char>,
    api_key: Seq<char>,
)
    ensures
        workspace_insert(id, name, owner, now) == (
            QueryV::Insert {
                table: "workspaces"@,
                cells: seq![
                    ("id"@, SqlV::Text(id)),
                    ("name"@, SqlV::Text(name)),
                    ("owner_api_key"@, SqlV::Text(owner)),
                    ("created_at"@, SqlV::Text(now)),
                    ("last_accessed_at"@, SqlV::Text(now)),
                ],
            }
        ),
        workspace_lookup(id) == (
            QueryV::Select {
                table: "workspaces"@,
                columns: seq![
                    "id"@, "name"@, "owner_api_key"@, "created_at"@, "last_accessed_at"@, "checkpoint_path"@,
                ],
                cells: seq![("id"@, SqlV::Text(id))],
                order: OrderV::Any,
            }
        ),
        workspace_touch(id, now) == (
            QueryV::Update {
                table: "workspaces"@,
                cells: seq![("last_accessed_at"@, SqlV::Text(now))],
                key_column: "id"@,
                key: id,
            }
        ),
        workspace_saved(id, path) == (
            QueryV::Update {
                table: "workspaces"@,
                cells: seq![("checkpoint_path"@, SqlV::Text(path))],
                key_column: "id"@,
                key: id,
            }
        ),
        owner_count(id, api_key) == (
            QueryV::Count {
                table: "workspaces"@,
                cells: seq![("id"@, SqlV::Text(id)), ("owner_api_key"@, SqlV::Text(api_key))],
            }
        ),
        workspace_delete(id, api_key) == (
            QueryV::Delete {
                table: "workspaces"@,
                cells: seq![("id"@, SqlV::Text(id)), ("owner_api_key"@, SqlV::Text(api_key))],
            }
        ),
        member_add(id, api_key, now) == (
            AdditionV::AddNew {
                table: "workspace_members"@,
                cells: seq![
                    ("workspace_id"@, SqlV::Text(id)),
                    ("api_key"@, SqlV::Text(api_key)),
                    ("joined_at"@, SqlV::Text(now)),
                ],
                unique: 2,
            }
        ),
        member_list(id) == (
            QueryV::Select {
                table: "workspace_members"@,
                columns: seq!["api_key"@, "joined_at"@],
                cells: seq![("workspace_id"@, SqlV::Text(id))],
                order: OrderV::Rising("joined_at"@),
            }
        ),
{
}

/// Law: users are stored, counted and looked up by these columns.
pub proof fn law_user_rows(
    id: Seq<char>,
    email: Seq<char>,
    hash: Seq<char>,
    api_key: Seq<char>,
    now: Seq<char>,
)
    ensures
        user_insert(id, email, hash, api_key, now) == (
            QueryV::Insert {
                table: "users"@,
                cells: seq![
                    ("id"@, SqlV::Text(id)),
                    ("email"@, SqlV::Text(email)),
                    ("password_hash"@, SqlV::Text(hash)),
                    ("api_key"@, SqlV::Text(api_key)),
                    ("created_at"@, SqlV::Text(now)),
                ],
            }
        ),
        user_count(email) == (QueryV::Count { table: "users"@, cells: seq![("email"@, SqlV::Text(email))] }),
        user_lookup(email) == (
            QueryV::Select {
                table: "users"@,
                columns: seq!["password_hash"@, "api_key"@],
                cells: seq![("email"@, SqlV::Text(email))],
                order: OrderV::Any,
            }
        ),
{
}

/// Law: what is used is stored, added up by day and counted by these columns.
pub proof fn law_usage_rows(
    e: UsageEventV,
    api_key: Seq<char>,
    day: Seq<char>,
    endpoint: Seq<char>,
    duration_ms: int,
    now: Seq<char>,
    since: Seq<char>,
)
    ensures
        event_add(e) == (
            AdditionV::Append {
                table: "usage_events"@,
                cells: seq![
                    ("api_key"@, SqlV::Text(e.api_key)),
                    ("kind"@, SqlV::Text(e.kind)),
                    ("session_id"@, sql_opt(e.session_id)),
                    ("swarm_id"@, sql_opt(e.swarm_id)),
                    ("duration_ms"@, SqlV::Int(e.duration_ms)),
                    ("output_tokens"@, SqlV::Int(e.output_tokens)),
                    ("state_tokens"@, SqlV::Int(e.state_tokens)),
                    ("timestamp"@, SqlV::Text(e.timestamp)),
                ],
            }
        ),
        time_used(api_key, day) == (
            QueryV::Sum {
                table: "usage_events"@,
                column: "duration_ms"@,
                cells: seq![("api_key"@, SqlV::Text(api_key))],
                test: TestV::Day("timestamp"@, day),
            }
        ),
        usage_add(api_key, endpoint, duration_ms, now) == (
            AdditionV::Append {
                table: "usage"@,
                cells: seq![
                    ("api_key"@, SqlV::Text(api_key)),
                    ("endpoint"@, SqlV::Text(endpoint)),
                    ("duration_ms"@, SqlV::Int(duration_ms)),
                    ("timestamp"@, SqlV::Text(now)),
                ],
            }
        ),
        usage_count(api_key, since) == (
            QueryV::CountIf {
                table: "usage"@,
                cells: seq![("api_key"@, SqlV::Text(api_key))],
                test: TestV::Since("timestamp"@, since),
            }
        ),
{
}

/// Law: the customers of Stripe are stored and looked up by these columns.
pub proof fn law_customer_rows(
    api_key: Seq<char>,
    stripe_customer_id: Seq<char>,
    subscription_id: Option<Seq<char>>,
    plan: Seq<char>,
    status: Seq<char>,
)
    ensures
        customer_of(api_key) == (
            QueryV::Select {
                table: "stripe_customers"@,
                columns: seq!["api_key"@, "stripe_customer_id"@, "status"@],
                cells: seq![("api_key"@, SqlV::Text(api_key))],
                order: OrderV::Any,
            }
        ),
        customer_by_id(stripe_customer_id) == (
            QueryV::Select {
                table: "stripe_customers"@,
                columns: seq!["api_key"@, "stripe_customer_id"@, "status"@],
                cells: seq![("stripe_customer_id"@, SqlV::Text(stripe_customer_id))],
                order: OrderV::Any,
            }
        ),
        customer_upsert(api_key, stripe_customer_id, subscription_id, plan, status) == (
            QueryV::Upsert {
                table: "stripe_customers"@,
                cells: seq![
                    ("api_key"@, SqlV::Text(api_key)),
                    ("stripe_customer_id"@, SqlV::Text(stripe_customer_id)),
                    ("subscription_id"@, sql_opt(subscription_id)),
                    ("plan"@, SqlV::Text(plan)),
                    ("status"@, SqlV::Text(status)),
                ],
            }
        ),
{
}

/// Law: a worker of a swarm that failed is counted as failed, and one that did not as
/// completed.
pub proof fn law_worker_counts(id: Seq<char>)
    ensures
        worker_count(id, true) == (
            QueryV::Increment { table: "swarms"@, column: "failed_workers"@, key_column: "id"@, key: id }
        ),
        worker_count(id, false) == (
            QueryV::Increment { table: "swarms"@, column: "completed_workers"@, key_column: "id"@, key: id }
        ),
{
}

/// Law: a text is stored as a text and its absence as `NULL`; what ended is done, or an
/// error where there is one.
pub proof fn law_missing_texts_are_null(s: Seq<char>)
    ensures
        sql_opt(Some(s)) == SqlV::Text(s),
        sql_opt(None) == SqlV::Null,
        end_status(Some(s)) == "error"@,
        end_status(None) == "done"@,
{
}

/// Law: a workspace is open to its owner and to its members, they alone list it, and an
/// owner is never removed from it.
pub proof fn law_sharing_statements(id: Seq<char>, key: Seq<char>)
    ensures
        sharing_statement((SharingV::Access { id: id, api_key: key })) == (
            StatementV {
                sql: "SELECT COUNT(*) FROM workspaces WHERE id = ?1 AND (owner_api_key = ?2 OR id IN (SELECT workspace_id FROM workspace_members WHERE api_key = ?2))"@,
                params: seq![SqlV::Text(id), SqlV::Text(key)],
            }
        ),
        sharing_statement((SharingV::Accessible { api_key: key })) == (
            StatementV {
                sql: "SELECT id, name, owner_api_key, created_at, last_accessed_at, checkpoint_path FROM workspaces WHERE owner_api_key = ?1 OR id IN (SELECT workspace_id FROM workspace_members WHERE api_key = ?1) ORDER BY created_at DESC"@,
                params: seq![SqlV::Text(key)],
            }
        ),
        sharing_statement((SharingV::Kick { id: id, api_key: key })) == (
            StatementV {
                sql: "DELETE FROM workspace_members WHERE workspace_id = ?1 AND api_key = ?2 AND NOT EXISTS (SELECT 1 FROM workspaces WHERE id = ?1 AND owner_api_key = ?2)"@,
                params: seq![SqlV::Text(id), SqlV::Text(key)],
            }
        ),
{
}

/// The columns that cells name, and the marks of that many parameters.
pub open spec fn named(cells: Cells) -> Seq<Seq<char>> {
    cells.map_values(|c: (Seq<char>, SqlV)| c.0)
}

/// The values that cells hold.
pub open spec fn held(cells: Cells) -> Seq<SqlV> {
    cells.map_values(|c: (Seq<char>, SqlV)| c.1)
}

/// The marks of the first `n` parameters.
pub open spec fn numbered(n: nat) -> Seq<Seq<char>> {
    Seq::new(n, |i: int| "?"@ + dec((i + 1) as nat))
}

/// Columns that are set, or compared, to the parameters in order.
pub open spec fn assigned(cells: Cells) -> Seq<Seq<char>> {
    Seq::new(cells.len(), |i: int| cells[i].0 + " = "@ + ("?"@ + dec((i + 1) as nat)))
}

/// Law: a statement says what is asked, with the columns by name and the values as
/// parameters in the order of the columns.
pub proof fn law_statements_say_what_is_asked(
    table: Seq<char>,
    cells: Cells,
    column: Seq<char>,
    key: Seq<char>,
    columns: Seq<Seq<char>>,
    by: Seq<char>,
    unique: nat,
)
    ensures
        statement_of((QueryV::Insert { table: table, cells: cells })) == (
            StatementV {
                sql: "INSERT INTO "@ + table + " ("@ + join(named(cells), ", "@) + ") VALUES ("@
                    + join(numbered(cells.len()), ", "@) + ")"@,
                params: held(cells),
            }
        ),
        statement_of((QueryV::Update { table: table, cells: cells, key_column: column, key: key })) == (
            StatementV {
                sql: "UPDATE "@ + table + " SET "@ + join(assigned(cells), ", "@) + " WHERE "@ + column + " = "@
                    + ("?"@ + dec((cells.len() + 1) as nat)),
                params: held(cells).push(SqlV::Text(key)),
            }
        ),
        statement_of((QueryV::Increment { table: table, column: by, key_column: column, key: key })) == (
            StatementV {
                sql: "UPDATE "@ + table + " SET "@ + by + " = "@ + by + " + 1 WHERE "@ + column + " = ?1"@,
                params: seq![SqlV::Text(key)],
            }
        ),
        statement_of((QueryV::Select { table: table, columns: columns, cells: cells, order: OrderV::Any }))
            == (
                StatementV {
                    sql: "SELECT "@ + join(columns, ", "@) + " FROM "@ + table
                        + (
                            if cells.len() == 0 {
                                Seq::empty()
                            } else {
                                " WHERE "@ + join(assigned(cells), " AND "@)
                            }
                        ) + Seq::empty(),
                    params: held(cells),
                }
            ),
        statement_of((QueryV::Select { table: table, columns: columns, cells: cells, order: OrderV::Rising(by) }))
            == (
                StatementV {
                    sql: "SELECT "@ + join(columns, ", "@) + " FROM "@ + table
                        + (
                            if cells.len() == 0 {
                                Seq::empty()
                            } else {
                                " WHERE "@ + join(assigned(cells), " AND "@)
                            }
                        ) + (" ORDER BY "@ + by),
                    params: held(cells),
                }
            ),
        statement_of((QueryV::Select { table: table, columns: columns, cells: cells, order: OrderV::Falling(by) }))
            == (
                StatementV {
                    sql: "SELECT "@ + join(columns, ", "@) + " FROM "@ + table
                        + (
                            if cells.len() == 0 {
                                Seq::empty()
                            } else {
                                " WHERE "@ + join(assigned(cells), " AND "@)
                            }
                        ) + (" ORDER BY "@ + by + " DESC"@),
                    params: held(cells),
                }
            ),
        statement_of((QueryV::Count { table: table, cells: cells })) == (
            StatementV {
                sql: "SELECT COUNT(*) FROM "@ + table
                    + (if cells.len() == 0 { Seq::empty() } else { " WHERE "@ + join(assigned(cells), " AND "@) }),
                params: held(cells),
            }
        ),
        statement_of((QueryV::Delete { table: table, cells: cells })) == (
            StatementV {
                sql: "DELETE FROM "@ + table
                    + (if cells.len() == 0 { Seq::empty() } else { " WHERE "@ + join(assigned(cells), " AND "@) }),
                params: held(cells),
            }
        ),
        statement_of((QueryV::Upsert { table: table, cells: cells })) == (
            StatementV {
                sql: "INSERT INTO "@ + table + " ("@ + join(named(cells), ", "@) + ") VALUES ("@
                    + join(numbered(cells.len()), ", "@) + ")"@ + " ON CONFLICT("@ + cells[0].0
                    + ") DO UPDATE SET "@ + join(assigned(cells).skip(1), ", "@),
                params: held(cells),
            }
        ),
        addition_of((AdditionV::Append { table: table, cells: cells })) == (
            StatementV {
                sql: "INSERT INTO "@ + table + " ("@ + join(named(cells), ", "@) + ") VALUES ("@
                    + join(numbered(cells.len()), ", "@) + ")"@,
                params: held(cells),
            }
        ),
        addition_of((AdditionV::AddNew { table: table, cells: cells, unique: unique })) == (
            StatementV {
                sql: "INSERT OR IGNORE INTO "@ + table + " ("@ + join(named(cells), ", "@) + ") VALUES ("@
                    + join(numbered(cells.len()), ", "@) + ")"@,
                params: held(cells),
            }
        ),
{
    assert(columns_of(cells) =~= named(cells));
    assert(values_of(cells) =~= held(cells));
    assert(marks(cells.len()) =~= numbered(cells.len()));
    assert(equations(cells) =~= assigned(cells));
}

/// Law: a test on a time, by its day, before it or since it, follows what is asked of
/// the columns, with its value as the last parameter.
pub proof fn law_tests_follow_the_columns(
    table: Seq<char>,
    cells: Cells,
    column: Seq<char>,
    columns: Seq<Seq<char>>,
    c: Seq<char>,
    s: Seq<char>,
)
    ensures
        statement_of((QueryV::SelectIf { table: table, columns: columns, cells: cells, test: TestV::Day(c, s) }))
            == (
                StatementV {
                    sql: "SELECT "@ + join(columns, ", "@) + " FROM "@ + table
                        + (
                            (
                                if cells.len() == 0 {
                                    Seq::empty()
                                } else {
                                    " WHERE "@ + join(assigned(cells), " AND "@)
                                }
                            )
                                + (
                                    (if cells.len() == 0 { " WHERE "@ } else { " AND "@ })
                                        + ("substr("@ + c + ", 1, 10) = "@ + ("?"@ + dec((cells.len() + 1) as nat)))
                                )
                        ),
                    params: held(cells).push(SqlV::Text(s)),
                }
            ),
        statement_of((QueryV::CountIf { table: table, cells: cells, test: TestV::Day(c, s) })) == (
            StatementV {
                sql: "SELECT COUNT(*) FROM "@ + table
                    + (
                        (if cells.len() == 0 { Seq::empty() } else { " WHERE "@ + join(assigned(cells), " AND "@) })
                            + (
                                (if cells.len() == 0 { " WHERE "@ } else { " AND "@ })
                                    + ("substr("@ + c + ", 1, 10) = "@ + ("?"@ + dec((cells.len() + 1) as nat)))
                            )
                    ),
                params: held(cells).push(SqlV::Text(s)),
            }
        ),
        statement_of((QueryV::Sum { table: table, column: column, cells: cells, test: TestV::Day(c, s) }))
            == (
                StatementV {
                    sql: "SELECT COALESCE(SUM("@ + column + "), 0) FROM "@ + table
                        + (
                            (
                                if cells.len() == 0 {
                                    Seq::empty()
                                } else {
                                    " WHERE "@ + join(assigned(cells), " AND "@)
                                }
                            )
                                + (
                                    (if cells.len() == 0 { " WHERE "@ } else { " AND "@ })
                                        + ("substr("@ + c + ", 1, 10) = "@ + ("?"@ + dec((cells.len() + 1) as nat)))
                                )
                        ),
                    params: held(cells).push(SqlV::Text(s)),
                }
            ),
        statement_of((QueryV::SelectIf { table: table, columns: columns, cells: cells, test: TestV::Before(c, s) }))
            == (
                StatementV {
                    sql: "SELECT "@ + join(columns, ", "@) + " FROM "@ + table
                        + (
                            (
                                if cells.len() == 0 {
                                    Seq::empty()
                                } else {
                                    " WHERE "@ + join(assigned(cells), " AND "@)
                                }
                            )
                                + (
                                    (if cells.len() == 0 { " WHERE "@ } else { " AND "@ })
                                        + (c + " < "@ + ("?"@ + dec((cells.len() + 1) as nat)))
                                )
                        ),
                    params: held(cells).push(SqlV::Text(s)),
                }
            ),
        statement_of((QueryV::CountIf { table: table, cells: cells, test: TestV::Before(c, s) })) == (
            StatementV {
                sql: "SELECT COUNT(*) FROM "@ + table
                    + (
                        (if cells.len() == 0 { Seq::empty() } else { " WHERE "@ + join(assigned(cells), " AND "@) })
                            + (
                                (if cells.len() == 0 { " WHERE "@ } else { " AND "@ })
                                    + (c + " < "@ + ("?"@ + dec((cells.len() + 1) as nat)))
                            )
                    ),
                params: held(cells).push(SqlV::Text(s)),
            }
        ),
        statement_of((QueryV::Sum { table: table, column: column, cells: cells, test: TestV::Before(c, s) }))
            == (
                StatementV {
                    sql: "SELECT COALESCE(SUM("@ + column + "), 0) FROM "@ + table
                        + (
                            (
                                if cells.len() == 0 {
                                    Seq::empty()
                                } else {
                                    " WHERE "@ + join(assigned(cells), " AND "@)
                                }
                            )
                                + (
                                    (if cells.len() == 0 { " WHERE "@ } else { " AND "@ })
                                        + (c + " < "@ + ("?"@ + dec((cells.len() + 1) as nat)))
                                )
                        ),
                    params: held(cells).push(SqlV::Text(s)),
                }
            ),
        statement_of((QueryV::SelectIf { table: table, columns: columns, cells: cells, test: TestV::Since(c, s) }))
            == (
                StatementV {
                    sql: "SELECT "@ + join(columns, ", "@) + " FROM "@ + table
                        + (
                            (
                                if cells.len() == 0 {
                                    Seq::empty()
                                } else {
                                    " WHERE "@ + join(assigned(cells), " AND "@)
                                }
                            )
                                + (
                                    (if cells.len() == 0 { " WHERE "@ } else { " AND "@ })
                                        + (c + " >= "@ + ("?"@ + dec((cells.len() + 1) as nat)))
                                )
                        ),
                    params: held(cells).push(SqlV::Text(s)),
                }
            ),
        statement_of((QueryV::CountIf { table: table, cells: cells, test: TestV::Since(c, s) })) == (
            StatementV {
                sql: "SELECT COUNT(*) FROM "@ + table
                    + (
                        (if cells.len() == 0 { Seq::empty() } else { " WHERE "@ + join(assigned(cells), " AND "@) })
                            + (
                                (if cells.len() == 0 { " WHERE "@ } else { " AND "@ })
                                    + (c + " >= "@ + ("?"@ + dec((cells.len() + 1) as nat)))
                            )
                    ),
                params: held(cells).push(SqlV::Text(s)),
            }
        ),
        statement_of((QueryV::Sum { table: table, column: column, cells: cells, test: TestV::Since(c, s) }))
            == (
                StatementV {
                    sql: "SELECT COALESCE(SUM("@ + column + "), 0) FROM "@ + table
                        + (
                            (
                                if cells.len() == 0 {
                                    Seq::empty()
                                } else {
                                    " WHERE "@ + join(assigned(cells), " AND "@)
                                }
                            )
                                + (
                                    (if cells.len() == 0 { " WHERE "@ } else { " AND "@ })
                                        + (c + " >= "@ + ("?"@ + dec((cells.len() + 1) as nat)))
                                )
                        ),
                    params: held(cells).push(SqlV::Text(s)),
                }
            ),
        statement_of((QueryV::Sum { table: table, column: column, cells: cells, test: TestV::Any })) == (
            StatementV {
                sql: "SELECT COALESCE(SUM("@ + column + "), 0) FROM "@ + table
                    + (
                        (if cells.len() == 0 { Seq::empty() } else { " WHERE "@ + join(assigned(cells), " AND "@) })
                            + Seq::empty()
                    ),
                params: held(cells),
            }
        ),
{
    assert(columns_of(cells) =~= named(cells));
    assert(values_of(cells) =~= held(cells));
    assert(marks(cells.len()) =~= numbered(cells.len()));
    assert(equations(cells) =~= assigned(cells));
}

/// Law: statements and values are known by what they carry.
pub proof fn law_statements_keep_what_they_carry(s: Statement, v: SqlValue, row: Seq<SqlValue>)
    ensures
        s@.sql == s.sql@,
        s@.params == row_view(s.params@),
        row_view(row).len() == row.len(),
        forall|i: int| 0 <= i < row.len() ==> #[trigger] row_view(row)[i] == row[i]@,
        v is Null ==> v@ is Null,
        v matches SqlValue::Int(i) ==> v@ == SqlV::Int(i as int),
        v matches SqlValue::Text(t) ==> v@ == SqlV::Text(t@),
        v is Other ==> v@ is Other,
{
}

/// Law: a job has in each field what the row has in the column of that name.
pub proof fn law_job_is_read_by_column(j: JobRecord, row: Seq<SqlV>)
    requires
        row.len() == 15,
        job_is(j, row),
    ensures
        row[0] matches SqlV::Text(s) ==> j.id@ == s,
        job_columns()[0] == "id"@,
        row[1] matches SqlV::Text(s) ==> j.session_id@ == s,
        job_columns()[1] == "session_id"@,
        row[2] matches SqlV::Text(s) ==> j.api_key@ == s,
        job_columns()[2] == "api_key"@,
        row[3] matches SqlV::Text(s) ==> j.status@ == s,
        job_columns()[3] == "status"@,
        row[4] matches SqlV::Text(s) ==> j.code@ == s,
        job_columns()[4] == "code"@,
        row[5] matches SqlV::Text(s) ==> maybe_owned(j.stdout) == Some(s),
        row[5] is Null ==> j.stdout is None,
        job_columns()[5] == "stdout"@,
        row[6] matches SqlV::Text(s) ==> maybe_owned(j.result) == Some(s),
        row[6] is Null ==> j.result is None,
        job_columns()[6] == "result"@,
        row[7] matches SqlV::Text(s) ==> maybe_owned(j.error) == Some(s),
        row[7] is Null ==> j.error is None,
        job_columns()[7] == "error"@,
        texts(j.plots@) == plots_of(match row[8] { SqlV::Text(s) => Some(s), _ => None }),
        job_columns()[8] == "plots"@,
        row[9] matches SqlV::Text(s) ==> maybe_owned(j.html) == Some(s),
        row[9] is Null ==> j.html is None,
        job_columns()[9] == "html"@,
        row[10] matches SqlV::Text(s) ==> maybe_owned(j.webhook_url) == Some(s),
        row[10] is Null ==> j.webhook_url is None,
        job_columns()[10] == "webhook_url"@,
        row[11] matches SqlV::Text(s) ==> j.created_at@ == s,
        job_columns()[11] == "created_at"@,
        row[12] matches SqlV::Text(s) ==> maybe_owned(j.started_at) == Some(s),
        row[12] is Null ==> j.started_at is None,
        job_columns()[12] == "started_at"@,
        row[13] matches SqlV::Text(s) ==> maybe_owned(j.finished_at) == Some(s),
        row[13] is Null ==> j.finished_at is None,
        job_columns()[13] == "finished_at"@,
        row[14] matches SqlV::Int(n) ==> (j.duration_ms matches Some(k) && k == n),
        row[14] is Null ==> j.duration_ms is None,
        job_columns()[14] == "duration_ms"@,
{
}

/// Law: a swarm has in each field what the row has in the column of that name.
pub proof fn law_swarm_is_read_by_column(x: SwarmRecord, row: Seq<SqlV>)
    requires
        row.len() == 13,
        swarm_is(x, row),
    ensures
        row[0] matches SqlV::Text(s) ==> x.id@ == s,
        swarm_columns()[0] == "id"@,
        row[1] matches SqlV::Text(s) ==> x.api_key@ == s,
        swarm_columns()[1] == "api_key"@,
        row[2] matches SqlV::Text(s) ==> x.status@ == s,
        swarm_columns()[2] == "status"@,
        row[3] matches SqlV::Int(n) ==> x.total_workers == n,
        swarm_columns()[3] == "total_workers"@,
        row[4] matches SqlV::Int(n) ==> x.completed_workers == n,
        swarm_columns()[4] == "completed_workers"@,
        row[5] matches SqlV::Int(n) ==> x.failed_workers == n,
        swarm_columns()[5] == "failed_workers"@,
        row[6] matches SqlV::Text(s) ==> maybe_owned(x.template_checkpoint_id) == Some(s),
        row[6] is Null ==> x.template_checkpoint_id is None,
        swarm_columns()[6] == "template_checkpoint_id"@,
        row[7] matches SqlV::Text(s) ==> maybe_owned(x.reduce_stdout) == Some(s),
        row[7] is Null ==> x.reduce_stdout is None,
        swarm_columns()[7] == "reduce_stdout"@,
        row[8] matches SqlV::Text(s) ==> maybe_owned(x.reduce_result) == Some(s),
        row[8] is Null ==> x.reduce_result is None,
        swarm_columns()[8] == "reduce_result"@,
        row[9] matches SqlV::Text(s) ==> maybe_owned(x.reduce_error) == Some(s),
        row[9] is Null ==> x.reduce_error is None,
        swarm_columns()[9] == "reduce_error"@,
        row[10] matches SqlV::Text(s) ==> maybe_owned(x.webhook_url) == Some(s),
        row[10] is Null ==> x.webhook_url is None,
        swarm_columns()[10] == "webhook_url"@,
        row[11] matches SqlV::Text(s) ==> x.created_at@ == s,
        swarm_columns()[11] == "created_at"@,
        row[12] matches SqlV::Text(s) ==> maybe_owned(x.finished_at) == Some(s),
        row[12] is Null ==> x.finished_at is None,
        swarm_columns()[12] == "finished_at"@,
{
}

/// Law: a worker of a swarm has in each field what the row has in the column of that
/// name.
pub proof fn law_worker_is_read_by_column(w: SwarmWorkerRecord, row: Seq<SqlV>)
    requires
        row.len() == 13,
        worker_is(w, row),
    ensures
        row[0] matches SqlV::Text(s) ==> w.id@ == s,
        worker_columns()[0] == "id"@,
        row[1] matches SqlV::Text(s) ==> w.swarm_id@ == s,
        worker_columns()[1] == "swarm_id"@,
        row[2] matches SqlV::Int(n) ==> w.worker_index == n,
        worker_columns()[2] == "worker_index"@,
        row[3] matches SqlV::Text(s) ==> maybe_owned(w.session_id) == Some(s),
        row[3] is Null ==> w.session_id is None,
        worker_columns()[3] == "session_id"@,
        row[4] matches SqlV::Text(s) ==> w.status@ == s,
        worker_columns()[4] == "status"@,
        row[5] matches SqlV::Text(s) ==> w.partition@ == s,
        worker_columns()[5] == "partition"@,
        row[6] matches SqlV::Text(s) ==> maybe_owned(w.stdout) == Some(s),
        row[6] is Null ==> w.stdout is None,
        worker_columns()[6] == "stdout"@,
        row[7] matches SqlV::Text(s) ==> maybe_owned(w.result) == Some(s),
        row[7] is Null ==> w.result is None,
        worker_columns()[7] == "result"@,
        row[8] matches SqlV::Text(s) ==> maybe_owned(w.error) == Some(s),
        row[8] is Null ==> w.error is None,
        worker_columns()[8] == "error"@,
        texts(w.plots@) == plots_of(match row[9] { SqlV::Text(s) => Some(s), _ => None }),
        worker_columns()[9] == "plots"@,
        row[10] matches SqlV::Int(n) ==> (w.duration_ms matches Some(k) && k == n),
        row[10] is Null ==> w.duration_ms is None,
        worker_columns()[10] == "duration_ms"@,
        row[11] matches SqlV::Text(s) ==> maybe_owned(w.started_at) == Some(s),
        row[11] is Null ==> w.started_at is None,
        worker_columns()[11] == "started_at"@,
        row[12] matches SqlV::Text(s) ==> maybe_owned(w.finished_at) == Some(s),
        row[12] is Null ==> w.finished_at is None,
        worker_columns()[12] == "finished_at"@,
{
}

/// Law: a key has in each field what the row has in the column of that name, and is
/// active unless that is 0; only an active one is valid.
pub proof fn law_key_is_read_by_column(key: Seq<char>, name: Seq<char>, tier: Seq<char>, n: int)
    ensures
        key_columns() == seq!["key"@, "name"@, "tier"@, "is_active"@],
        n != 0
            ==> valid_key(Some(seq![SqlV::Text(key), SqlV::Text(name), SqlV::Text(tier), SqlV::Int(n)]))
                == Some((KeyV { key: key, name: name, tier: tier, is_active: true })),
        valid_key(Some(seq![SqlV::Text(key), SqlV::Text(name), SqlV::Text(tier), SqlV::Int(0)])) is None,
        valid_key(None) is None,
{
}

/// Law: a column is read as what it holds.
pub proof fn law_columns_are_read_as_they_are(row: Seq<SqlV>, i: int, s: Seq<char>, n: int)
    requires
        0 <= i < row.len(),
    ensures
        row[i] == SqlV::Text(s)
            ==> has_text(row, i) && has_opt(row, i) && column_text(row, i) == s && column_opt(row, i) == Some(s),
        row[i] == SqlV::Int(n)
            ==> has_int(row, i) && column_int(row, i) == n && !has_text(row, i) && !has_opt(row, i),
        row[i] is Null ==> has_opt(row, i) && column_opt(row, i) is None && !has_text(row, i) && !has_int(row, i),
        row[i] is Other ==> !has_text(row, i) && !has_opt(row, i) && !has_int(row, i),
{
}

/// Law: plots are stored as a JSON list of texts; what is stored and is no such list
/// holds none.
pub proof fn law_plots_are_kept(plots: Seq<Seq<char>>, s: Seq<char>, v: JsonV)
    ensures
        stored_plots(plots) == json_text(string_list(plots)),
        parses_to(s, string_list(plots)) ==> plots_of(Some(s)) == plots,
        parses_to(s, v) && !(v is Arr) ==> plots_of(Some(s)).len() == 0,
        json_parse(encode_utf8(s)) is Err ==> plots_of(Some(s)).len() == 0,
        plots_of(None).len() == 0,
{
    law_strings_of_a_list(plots);
    assert(is_text_list(string_list(plots)));
}

/// Law: a job is told by name.
pub proof fn law_job_is_told_by_name(j: JobRecord)
    ensures
        field(job_value(j), "id"@) == Some(JsonV::Str(j.id@)),
        field(job_value(j), "session_id"@) == Some(JsonV::Str(j.session_id@)),
        field(job_value(j), "api_key"@) == Some(JsonV::Str(j.api_key@)),
        field(job_value(j), "status"@) == Some(JsonV::Str(j.status@)),
        field(job_value(j), "code"@) == Some(JsonV::Str(j.code@)),
        field(job_value(j), "stdout"@) == Some(or_null(maybe_owned(j.stdout))),
        field(job_value(j), "result"@) == Some(or_null(maybe_owned(j.result))),
        field(job_value(j), "error"@) == Some(or_null(maybe_owned(j.error))),
        field(job_value(j), "plots"@) == Some(string_list(texts(j.plots@))),
        field(job_value(j), "html"@) == Some(or_null(maybe_owned(j.html))),
        field(job_value(j), "webhook_url"@) == Some(or_null(maybe_owned(j.webhook_url))),
        field(job_value(j), "created_at"@) == Some(JsonV::Str(j.created_at@)),
        field(job_value(j), "started_at"@) == Some(or_null(maybe_owned(j.started_at))),
        field(job_value(j), "finished_at"@) == Some(or_null(maybe_owned(j.finished_at))),
        field(job_value(j), "duration_ms"@) == Some(
            match j.duration_ms { Some(n) => JsonV::Int(n as int), None => JsonV::Null },
        ),
        has_just(
            job_value(j),
            set![
                "id"@, "session_id"@, "api_key"@, "status"@, "code"@, "stdout"@, "result"@, "error"@, "plots"@,
                "html"@, "webhook_url"@, "created_at"@, "started_at"@, "finished_at"@, "duration_ms"@,
            ],
        ),
{
    law_strings_of_a_list(texts(j.plots@));
    reveal_strlit("id");
    reveal_strlit("session_id");
    reveal_strlit("api_key");
    reveal_strlit("status");
    reveal_strlit("code");
    reveal_strlit("stdout");
    reveal_strlit("result");
    reveal_strlit("error");
    reveal_strlit("plots");
    reveal_strlit("html");
    reveal_strlit("webhook_url");
    reveal_strlit("created_at");
    reveal_strlit("started_at");
    reveal_strlit("finished_at");
    reveal_strlit("duration_ms");
    assert("id"@.len() == 2);
    assert("session_id"@.len() == 10);
    assert("api_key"@.len() == 7);
    assert("status"@.len() == 6);
    assert("code"@.len() == 4);
    assert("stdout"@.len() == 6);
    assert("result"@.len() == 6);
    assert("error"@.len() == 5);
    assert("plots"@.len() == 5);
    assert("html"@.len() == 4);
    assert("webhook_url"@.len() == 11);
    assert("created_at"@.len() == 10);
    assert("started_at"@.len() == 10);
    assert("finished_at"@.len() == 11);
    assert("duration_ms"@.len() == 11);
    assert("session_id"@[0] != "created_at"@[0]);
    assert("session_id"@[1] != "started_at"@[1]);
    assert("status"@[2] != "stdout"@[2]);
    assert("status"@[0] != "result"@[0]);
    assert("code"@[0] != "html"@[0]);
    assert("stdout"@[0] != "result"@[0]);
    assert("error"@[0] != "plots"@[0]);
    assert("webhook_url"@[0] != "finished_at"@[0]);
    assert("webhook_url"@[0] != "duration_ms"@[0]);
    assert("created_at"@[0] != "started_at"@[0]);
    assert("finished_at"@[0] != "duration_ms"@[0]);
    assert(job_value(j)->Obj_0.dom() =~= set![
        "id"@, "session_id"@, "api_key"@, "status"@, "code"@, "stdout"@, "result"@, "error"@, "plots"@, "html"@,
        "webhook_url"@, "created_at"@, "started_at"@, "finished_at"@, "duration_ms"@,
    ]);
}

/// Law: a worker of a swarm is told by name.
pub proof fn law_worker_is_told_by_name(w: SwarmWorkerRecord)
    ensures
        field(worker_value(w), "id"@) == Some(JsonV::Str(w.id@)),
        field(worker_value(w), "swarm_id"@) == Some(JsonV::Str(w.swarm_id@)),
        field(worker_value(w), "worker_index"@) == Some(JsonV::Int(w.worker_index as int)),
        field(worker_value(w), "session_id"@) == Some(or_null(maybe_owned(w.session_id))),
        field(worker_value(w), "status"@) == Some(JsonV::Str(w.status@)),
        field(worker_value(w), "partition"@) == Some(JsonV::Str(w.partition@)),
        field(worker_value(w), "stdout"@) == Some(or_null(maybe_owned(w.stdout))),
        field(worker_value(w), "result"@) == Some(or_null(maybe_owned(w.result))),
        field(worker_value(w), "error"@) == Some(or_null(maybe_owned(w.error))),
        field(worker_value(w), "plots"@) == Some(string_list(texts(w.plots@))),
        field(worker_value(w), "duration_ms"@) == Some(
            match w.duration_ms { Some(n) => JsonV::Int(n as int), None => JsonV::Null },
        ),
        field(worker_value(w), "started_at"@) == Some(or_null(maybe_owned(w.started_at))),
        field(worker_value(w), "finished_at"@) == Some(or_null(maybe_owned(w.finished_at))),
        has_just(
            worker_value(w),
            set![
                "id"@, "swarm_id"@, "worker_index"@, "session_id"@, "status"@, "partition"@, "stdout"@, "result"@,
                "error"@, "plots"@, "duration_ms"@, "started_at"@, "finished_at"@,
            ],
        ),
{
    law_strings_of_a_list(texts(w.plots@));
    reveal_strlit("id");
    reveal_strlit("swarm_id");
    reveal_strlit("worker_index");
    reveal_strlit("session_id");
    reveal_strlit("status");
    reveal_strlit("partition");
    reveal_strlit("stdout");
    reveal_strlit("result");
    reveal_strlit("error");
    reveal_strlit("plots");
    reveal_strlit("duration_ms");
    reveal_strlit("started_at");
    reveal_strlit("finished_at");
    assert("id"@.len() == 2);
    assert("swarm_id"@.len() == 8);
    assert("worker_index"@.len() == 12);
    assert("session_id"@.len() == 10);
    assert("status"@.len() == 6);
    assert("partition"@.len() == 9);
    assert("stdout"@.len() == 6);
    assert("result"@.len() == 6);
    assert("error"@.len() == 5);
    assert("plots"@.len() == 5);
    assert("duration_ms"@.len() == 11);
    assert("started_at"@.len() == 10);
    assert("finished_at"@.len() == 11);
    assert("session_id"@[1] != "started_at"@[1]);
    assert("status"@[2] != "stdout"@[2]);
    assert("status"@[0] != "result"@[0]);
    assert("stdout"@[0] != "result"@[0]);
    assert("error"@[0] != "plots"@[0]);
    assert("duration_ms"@[0] != "finished_at"@[0]);
    assert(worker_value(w)->Obj_0.dom() =~= set![
        "id"@, "swarm_id"@, "worker_index"@, "session_id"@, "status"@, "partition"@, "stdout"@, "result"@,
        "error"@, "plots"@, "duration_ms"@, "started_at"@, "finished_at"@,
    ]);
}

/// Law: a checkpoint is told by name.
pub proof fn law_checkpoint_is_told_by_name(c: CheckpointInfo)
    ensures
        field(checkpoint_value(c), "id"@) == Some(JsonV::Str(c.id@)),
        field(checkpoint_value(c), "api_key"@) == Some(JsonV::Str(c.api_key@)),
        field(checkpoint_value(c), "name"@) == Some(JsonV::Str(c.name@)),
        field(checkpoint_value(c), "path"@) == Some(JsonV::Str(c.path@)),
        field(checkpoint_value(c), "created_at"@) == Some(JsonV::Str(c.created_at@)),
        field(checkpoint_value(c), "size_bytes"@) == Some(JsonV::Int(c.size_bytes as int)),
        has_just(checkpoint_value(c), set!["id"@, "api_key"@, "name"@, "path"@, "created_at"@, "size_bytes"@]),
{
    reveal_strlit("id");
    reveal_strlit("api_key");
    reveal_strlit("name");
    reveal_strlit("path");
    reveal_strlit("created_at");
    reveal_strlit("size_bytes");
    assert("id"@.len() == 2);
    assert("api_key"@.len() == 7);
    assert("name"@.len() == 4);
    assert("path"@.len() == 4);
    assert("created_at"@.len() == 10);
    assert("size_bytes"@.len() == 10);
    assert("name"@[0] != "path"@[0]);
    assert("created_at"@[0] != "size_bytes"@[0]);
    assert(checkpoint_value(c)->Obj_0.dom() =~= set![
        "id"@, "api_key"@, "name"@, "path"@, "created_at"@, "size_bytes"@,
    ]);
}

/// Law: a key is told by name.
pub proof fn law_key_is_told_by_name(k: KeyRecord)
    ensures
        field(key_value(k), "key"@) == Some(JsonV::Str(k.info.key@)),
        field(key_value(k), "name"@) == Some(JsonV::Str(k.info.name@)),
        field(key_value(k), "tier"@) == Some(JsonV::Str(k.info.tier@)),
        field(key_value(k), "is_active"@) == Some(JsonV::Bool(k.info.is_active)),
        field(key_value(k), "created_at"@) == Some(JsonV::Str(k.created_at@)),
        has_just(key_value(k), set!["key"@, "name"@, "tier"@, "is_active"@, "created_at"@]),
{
    reveal_strlit("key");
    reveal_strlit("name");
    reveal_strlit("tier");
    reveal_strlit("is_active");
    reveal_strlit("created_at");
    assert("key"@.len() == 3);
    assert("name"@.len() == 4);
    assert("tier"@.len() == 4);
    assert("is_active"@.len() == 9);
    assert("created_at"@.len() == 10);
    assert("name"@[0] != "tier"@[0]);
    assert(key_value(k)->Obj_0.dom() =~= set!["key"@, "name"@, "tier"@, "is_active"@, "created_at"@]);
}

/// Law: a user logs in with the password that the stored hash is of, and gets the key
/// that is stored with it; a wrong password and an unknown user are refused alike.
pub proof fn law_login_needs_the_password(hash: Seq<char>, key: Seq<char>, password: Seq<char>)
    ensures
        bcrypt_check(password, hash) == Some(true)
            ==> login_outcome(Some((hash, key)), password) == Ok::<Seq<char>, AuthError>(key),
        bcrypt_check(password, hash) == Some(false)
            ==> login_outcome(Some((hash, key)), password) == Err::<Seq<char>, AuthError>(
                AuthError::InvalidCredentials,
            ),
        bcrypt_check(password, hash) is None
            ==> login_outcome(Some((hash, key)), password) == Err::<Seq<char>, AuthError>(AuthError::Internal),
        login_outcome(None, password) == Err::<Seq<char>, AuthError>(AuthError::InvalidCredentials),
        logged_in(key) == Ok::<Seq<char>, AuthError>(key),
{
}

/// Law: a registration stores a key of the free tier under the address, and the user
/// with the address, the hash and that key.
pub proof fn law_registration_stores_the_user(
    reg: Registration,
    email: Seq<char>,
    hash: Seq<char>,
    user: Seq<char>,
    id: Seq<char>,
    now: Seq<char>,
)
    requires
        registered(reg, email, hash, user, id, now),
    ensures
        reg.api_key@ == key_text("gc_"@, id),
        reg.password_hash@ == hash,
        reg.insert_key@ == statement_of(key_insert(key_text("gc_"@, id), email, "free"@, now)),
        reg.insert_user@ == statement_of(user_insert(user, email, hash, key_text("gc_"@, id), now)),
{
}

/// Law: a row that may be missing, a key and the outcome of a login are told as they
/// are.
pub proof fn law_found_rows_are_told_as_they_are(
    row: Vec<SqlValue>,
    k: ApiKeyInfo,
    key: Seq<char>,
    name: Seq<char>,
    tier: Seq<char>,
    n: int,
    s: String,
    e: AuthError,
)
    ensures
        maybe_row(Some(&row)) == Some(row_view(row@)) && maybe_row(None) is None,
        k@ == (KeyV { key: k.key@, name: k.name@, tier: k.tier@, is_active: k.is_active }),
        key_in(seq![SqlV::Text(key), SqlV::Text(name), SqlV::Text(tier), SqlV::Int(n)]) == (
            KeyV { key: key, name: name, tier: tier, is_active: n != 0 }
        ),
        login_view(Ok(s)) == Ok::<Seq<char>, AuthError>(s@),
        login_view(Err(e)) == Err::<Seq<char>, AuthError>(e),
{
}

/// Law: a row is one of a key, a checkpoint, a job, a swarm or a worker where each of
/// its columns holds what it should.
pub proof fn law_rows_have_their_kinds(row: Seq<SqlV>)
    ensures
        is_key_row(row) <==> row.len() >= 4 && row[0] is Text && row[1] is Text && row[2] is Text && row[3] is Int,
        is_checkpoint_row(row)
            <==> row.len() >= 6
                && row[0] is Text
                && row[1] is Text
                && row[2] is Text
                && row[3] is Text
                && row[4] is Text
                && row[5] is Int,
        is_job_row(row)
            <==> row.len() >= 15
                && row[0] is Text
                && row[1] is Text
                && row[2] is Text
                && row[3] is Text
                && row[4] is Text
                && (row[5] is Text || row[5] is Null)
                && (row[6] is Text || row[6] is Null)
                && (row[7] is Text || row[7] is Null)
                && (row[8] is Text || row[8] is Null)
                && (row[9] is Text || row[9] is Null)
                && (row[10] is Text || row[10] is Null)
                && row[11] is Text
                && (row[12] is Text || row[12] is Null)
                && (row[13] is Text || row[13] is Null)
                && (row[14] is Int || row[14] is Null),
        is_swarm_row(row)
            <==> row.len() >= 13
                && row[0] is Text
                && row[1] is Text
                && row[2] is Text
                && row[3] is Int
                && row[4] is Int
                && row[5] is Int
                && (row[6] is Text || row[6] is Null)
                && (row[7] is Text || row[7] is Null)
                && (row[8] is Text || row[8] is Null)
                && (row[9] is Text || row[9] is Null)
                && (row[10] is Text || row[10] is Null)
                && row[11] is Text
                && (row[12] is Text || row[12] is Null),
        is_worker_row(row)
            <==> row.len() >= 13
                && row[0] is Text
                && row[1] is Text
                && row[2] is Int
                && (row[3] is Text || row[3] is Null)
                && row[4] is Text
                && row[5] is Text
                && (row[6] is Text || row[6] is Null)
                && (row[7] is Text || row[7] is Null)
                && (row[8] is Text || row[8] is Null)
                && (row[9] is Text || row[9] is Null)
                && (row[10] is Int || row[10] is Null)
                && (row[11] is Text || row[11] is Null)
                && (row[12] is Text || row[12] is Null),
{
}

} // verus!
