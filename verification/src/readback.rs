//! Laws on the records: what is stored is read back, by those who may read it.
use vstd::prelude::*;
use vstd::string::*;
use crate::billing::credits_of;
use crate::db::{
    access_count, accessed, accessible, checkpoint_cells, checkpoint_columns, checkpoint_delete, checkpoint_drop,
    checkpoint_insert, checkpoint_list, checkpoint_lookup, column_int, customer_by_id, customer_cells,
    customer_columns, customer_of, customer_upsert, end_status, event_add, event_cells, expired_list,
    is_checkpoint_row, is_job_row, is_key_row, is_member, is_owner, is_swarm_row, is_worker_row, job_cells,
    job_columns, job_end, job_end_cells, job_insert, job_list, job_lookup, job_start, key_by_name, key_cells,
    key_columns, key_insert, key_list, key_lookup, key_revoke, kicked, member_add, member_cells, membership,
    of_key, of_owner, owned, owner_count, shares, storage_used, swarm_cells, swarm_columns, swarm_end,
    swarm_end_cells, swarm_insert, swarm_lookup, tier_change, time_used, usage_add, usage_cells, usage_count,
    user_cells, user_count, user_insert, user_lookup, valid_key, worker_cells, worker_columns, worker_count,
    worker_end, worker_end_cells, worker_insert, worker_list, worker_start, workspace_cells, workspace_columns,
    workspace_delete, workspace_insert, workspace_lookup, workspace_saved, workspace_touch, KeyV, UsageEventV,
};
use crate::sql::{
    added, added_key, amount, cell, changed, count_of, day_of, effect, holds, keyed, lemma_set, lemma_sum_added,
    lemma_untouched, looked_up, matching, matching_if, projected, row_with, runs, sql_opt, sum_of, text_before,
    total, QueryV, Row, Rows, SqlV, TestV,
};

verus! {

/// The columns of an API key differ from each other.
proof fn lemma_key_columns()
    ensures
        key_columns().push("created_at"@).no_duplicates(),
{
    let c = key_columns().push("created_at"@);
    reveal_strlit("key");
    reveal_strlit("name");
    reveal_strlit("tier");
    reveal_strlit("is_active");
    reveal_strlit("created_at");
    assert(c[0] == "key"@);
    assert(c[1] == "name"@);
    assert(c[2] == "tier"@);
    assert(c[3] == "is_active"@);
    assert(c[4] == "created_at"@);
    assert(c[1][0] != c[2][0]);
}

/// The values of a new API key.
proof fn lemma_new_key(key: Seq<char>, name: Seq<char>, tier: Seq<char>, now: Seq<char>)
    ensures
        cell(row_with(Map::empty(), key_cells(key, name, tier, now)), "key"@) == SqlV::Text(key),
        cell(row_with(Map::empty(), key_cells(key, name, tier, now)), "name"@) == SqlV::Text(name),
        cell(row_with(Map::empty(), key_cells(key, name, tier, now)), "tier"@) == SqlV::Text(tier),
        cell(row_with(Map::empty(), key_cells(key, name, tier, now)), "created_at"@) == SqlV::Text(now),
        cell(row_with(Map::empty(), key_cells(key, name, tier, now)), "is_active"@) == SqlV::Int(1),
{
    lemma_key_columns();
    let c = key_columns().push("created_at"@);
    let cells = key_cells(key, name, tier, now);
    assert(c[0] == "key"@ && c[1] == "name"@ && c[2] == "tier"@ && c[3] == "is_active"@ && c[4] == "created_at"@);
    lemma_set(Map::empty(), cells, 0);
    lemma_set(Map::empty(), cells, 1);
    lemma_set(Map::empty(), cells, 2);
    lemma_set(Map::empty(), cells, 3);
    lemma_set(Map::empty(), cells, 4);
}

/// A key that was stored is valid from then on, with its name and its tier. No
/// other key is changed by it, and it stands in the list of keys.
pub proof fn law_stored_key_validates(rows: Rows, key: Seq<char>, name: Seq<char>, tier: Seq<char>, now: Seq<char>)
    requires
        !rows.contains_key(key),
    ensures
        runs(key_insert(key, name, tier, now), rows),
        valid_key(looked_up(key_lookup(key), effect(key_insert(key, name, tier, now), rows), key)) == Some(
            KeyV { key, name, tier, is_active: true },
        ),
        looked_up(key_list(), effect(key_insert(key, name, tier, now), rows), key) == Some(
            seq![SqlV::Text(key), SqlV::Text(name), SqlV::Text(tier), SqlV::Int(1), SqlV::Text(now)],
        ),
        forall|q: QueryV, other: Seq<char>| #![trigger looked_up(q, rows, other)]
            other != key ==> looked_up(q, effect(key_insert(key, name, tier, now), rows), other) == looked_up(
                q,
                rows,
                other,
            ),
{
    lemma_new_key(key, name, tier, now);
    let after = effect(key_insert(key, name, tier, now), rows);
    let row = row_with(Map::empty(), key_cells(key, name, tier, now));
    assert(added_key(key_cells(key, name, tier, now)) == key);
    assert(after[key] == row);
    assert(holds(row, key_lookup(key)->Select_cells));
    assert(projected(row, key_columns()) =~= seq![SqlV::Text(key), SqlV::Text(name), SqlV::Text(tier), SqlV::Int(1)]);
    assert(holds(row, key_list()->Select_cells));
    assert(projected(row, key_columns().push("created_at"@)) =~= seq![
        SqlV::Text(key),
        SqlV::Text(name),
        SqlV::Text(tier),
        SqlV::Int(1),
        SqlV::Text(now),
    ]);
}

/// A look-up of a key finds the row of that key and no other.
pub proof fn law_key_is_looked_up_by_itself(rows: Rows, key: Seq<char>, other: Seq<char>)
    requires
        keyed(rows, "key"@),
        other != key,
    ensures
        looked_up(key_lookup(key), rows, other) is None,
        rows.contains_key(key) ==> looked_up(key_lookup(key), rows, key) == Some(projected(rows[key], key_columns())),
{
    let cells = key_lookup(key)->Select_cells;
    assert(cells[0] == ("key"@, SqlV::Text(key)));
    if rows.contains_key(key) {
        assert(holds(rows[key], cells));
    }
}

/// A key that was revoked is not valid any more. The revocation changes a row if
/// and only if the key was stored, whether or not it was revoked before. The key
/// still stands in the list, as inactive, with its name, its tier and its time, and
/// no other key is changed.
pub proof fn law_revoked_key_is_refused(rows: Rows, key: Seq<char>)
    requires
        keyed(rows, "key"@),
    ensures
        valid_key(looked_up(key_lookup(key), effect(key_revoke(key), rows), key)) is None,
        changed(key_revoke(key), rows) == if rows.contains_key(key) {
            1nat
        } else {
            0
        },
        changed(key_revoke(key), effect(key_revoke(key), rows)) == changed(key_revoke(key), rows),
        rows.contains_key(key) ==> looked_up(key_list(), effect(key_revoke(key), rows), key) == Some(
            projected(rows[key], key_columns().push("created_at"@)).update(3, SqlV::Int(0)),
        ),
        forall|q: QueryV, other: Seq<char>| #![trigger looked_up(q, rows, other)]
            other != key ==> looked_up(q, effect(key_revoke(key), rows), other) == looked_up(q, rows, other),
        keyed(effect(key_revoke(key), rows), "key"@),
{
    lemma_key_columns();
    let c = key_columns().push("created_at"@);
    assert(c[0] == "key"@ && c[1] == "name"@ && c[2] == "tier"@ && c[3] == "is_active"@ && c[4] == "created_at"@);
    let after = effect(key_revoke(key), rows);
    let cells = key_revoke(key)->Update_cells;
    if rows.contains_key(key) {
        let row = rows[key];
        lemma_set(row, cells, 0);
        lemma_untouched(row, cells, c[0]);
        lemma_untouched(row, cells, c[1]);
        lemma_untouched(row, cells, c[2]);
        lemma_untouched(row, cells, c[4]);
        assert(holds(after[key], key_list()->Select_cells));
        assert(projected(after[key], c) =~= projected(row, c).update(3, SqlV::Int(0)));
        assert(projected(after[key], key_columns())[3] == SqlV::Int(0));
    }
}

/// A key whose plan was changed has the new plan at once: it is as valid as it was,
/// under the same name, and no other key is changed.
pub proof fn law_new_plan_applies_at_once(rows: Rows, key: Seq<char>, plan: Seq<char>)
    requires
        keyed(rows, "key"@),
        rows.contains_key(key),
        is_key_row(projected(rows[key], key_columns())),
    ensures
        looked_up(key_lookup(key), effect(tier_change(key, plan), rows), key) == Some(
            projected(rows[key], key_columns()).update(2, SqlV::Text(plan)),
        ),
        valid_key(looked_up(key_lookup(key), effect(tier_change(key, plan), rows), key)) == match valid_key(
            looked_up(key_lookup(key), rows, key),
        ) {
            Some(k) => Some(KeyV { tier: plan, ..k }),
            None => None,
        },
        forall|q: QueryV, other: Seq<char>| #![trigger looked_up(q, rows, other)]
            other != key ==> looked_up(q, effect(tier_change(key, plan), rows), other) == looked_up(q, rows, other),
{
    lemma_key_columns();
    let c = key_columns().push("created_at"@);
    assert(c[0] == "key"@ && c[1] == "name"@ && c[2] == "tier"@ && c[3] == "is_active"@);
    let after = effect(tier_change(key, plan), rows);
    let cells = tier_change(key, plan)->Update_cells;
    let row = rows[key];
    lemma_set(row, cells, 0);
    lemma_untouched(row, cells, c[0]);
    lemma_untouched(row, cells, c[1]);
    lemma_untouched(row, cells, c[3]);
    assert(holds(row, key_lookup(key)->Select_cells));
    assert(holds(after[key], key_lookup(key)->Select_cells));
    assert(projected(after[key], key_columns()) =~= projected(row, key_columns()).update(2, SqlV::Text(plan)));
}

/// The columns of a job differ from each other.
proof fn lemma_job_columns()
    ensures
        job_columns().no_duplicates(),
{
    let c = job_columns();
    reveal_strlit("id");
    reveal_strlit("session_id");
    reveal_strlit("api_key");
    reveal_strlit("status");
    reveal_strlit("code");
    reveal_strlit("stdout");
    reveal_strlit("result");
    reveal_strlit("error");
    reveal_strlit("plots");
    reveal_strlit("html");
    reveal_strlit("webhook_url");
    reveal_strlit("created_at");
    reveal_strlit("started_at");
    reveal_strlit("finished_at");
    reveal_strlit("duration_ms");
    assert(c[0] == "id"@ && c[0].len() == 2);
    assert(c[1] == "session_id"@ && c[1].len() == 10);
    assert(c[2] == "api_key"@ && c[2].len() == 7);
    assert(c[3] == "status"@ && c[3].len() == 6);
    assert(c[4] == "code"@ && c[4].len() == 4);
    assert(c[5] == "stdout"@ && c[5].len() == 6);
    assert(c[6] == "result"@ && c[6].len() == 6);
    assert(c[7] == "error"@ && c[7].len() == 5);
    assert(c[8] == "plots"@ && c[8].len() == 5);
    assert(c[9] == "html"@ && c[9].len() == 4);
    assert(c[10] == "webhook_url"@ && c[10].len() == 11);
    assert(c[11] == "created_at"@ && c[11].len() == 10);
    assert(c[12] == "started_at"@ && c[12].len() == 10);
    assert(c[13] == "finished_at"@ && c[13].len() == 11);
    assert(c[14] == "duration_ms"@ && c[14].len() == 11);
    assert(c[1][0] != c[11][0]);
    assert(c[1][1] != c[12][1]);
    assert(c[3][2] != c[5][2]);
    assert(c[3][0] != c[6][0]);
    assert(c[4][0] != c[9][0]);
    assert(c[5][0] != c[6][0]);
    assert(c[7][0] != c[8][0]);
    assert(c[10][0] != c[13][0]);
    assert(c[10][0] != c[14][0]);
    assert(c[11][0] != c[12][0]);
    assert(c[13][0] != c[14][0]);
}

/// What is read back of a job.
pub open spec fn job_row(
    id: Seq<char>,
    session_id: Seq<char>,
    api_key: Seq<char>,
    code: Seq<char>,
    webhook_url: Option<Seq<char>>,
    created: Seq<char>,
    started: Option<Seq<char>>,
    stdout: Seq<char>,
    result: Option<Seq<char>>,
    error: Option<Seq<char>>,
    plots: Seq<char>,
    html: Option<Seq<char>>,
    duration_ms: int,
    finished: Seq<char>,
) -> Seq<SqlV> {
    seq![
        SqlV::Text(id),
        SqlV::Text(session_id),
        SqlV::Text(api_key),
        SqlV::Text(end_status(error)),
        SqlV::Text(code),
        SqlV::Text(stdout),
        sql_opt(result),
        sql_opt(error),
        SqlV::Text(plots),
        sql_opt(html),
        sql_opt(webhook_url),
        SqlV::Text(created),
        sql_opt(started),
        SqlV::Text(finished),
        SqlV::Int(duration_ms),
    ]
}

/// The rows after a job was marked as running, where it was.
pub open spec fn begun(rows: Rows, id: Seq<char>, started: Option<Seq<char>>) -> Rows {
    match started {
        Some(t) => effect(job_start(id, t), rows),
        None => rows,
    }
}

/// A job that has ended reads back as it ended, under what it was stored with. Its
/// status tells whether there was an error. Under another key it is not found.
pub proof fn law_ended_job_reads_back(
    rows: Rows,
    id: Seq<char>,
    session_id: Seq<char>,
    api_key: Seq<char>,
    code: Seq<char>,
    webhook_url: Option<Seq<char>>,
    created: Seq<char>,
    started: Option<Seq<char>>,
    stdout: Seq<char>,
    result: Option<Seq<char>>,
    error: Option<Seq<char>>,
    plots: Seq<char>,
    html: Option<Seq<char>>,
    duration_ms: int,
    finished: Seq<char>,
    other: Seq<char>,
)
    requires
        !rows.contains_key(id),
        other != api_key,
    ensures
        runs(job_insert(id, session_id, api_key, code, webhook_url, created), rows),
        ({
            let made = effect(job_insert(id, session_id, api_key, code, webhook_url, created), rows);
            let after = effect(
                job_end(id, stdout, result, error, plots, html, duration_ms, finished),
                begun(made, id, started),
            );
            let row = job_row(
                id,
                session_id,
                api_key,
                code,
                webhook_url,
                created,
                started,
                stdout,
                result,
                error,
                plots,
                html,
                duration_ms,
                finished,
            );
            &&& is_job_row(row)
            &&& looked_up(job_lookup(id, api_key), after, id) == Some(row)
            &&& looked_up(job_list(session_id, api_key), after, id) == Some(row)
            &&& looked_up(job_lookup(id, other), after, id) is None
            &&& looked_up(job_list(session_id, other), after, id) is None
            &&& rows =~= after.remove(id)
        }),
{
    lemma_job_columns();
    let c = job_columns();
    assert(c[0] == "id"@ && c[1] == "session_id"@ && c[2] == "api_key"@ && c[3] == "status"@ && c[4] == "code"@);
    assert(c[5] == "stdout"@ && c[6] == "result"@ && c[7] == "error"@ && c[8] == "plots"@ && c[9] == "html"@);
    assert(c[10] == "webhook_url"@ && c[11] == "created_at"@ && c[12] == "started_at"@ && c[13] == "finished_at"@);
    assert(c[14] == "duration_ms"@);
    let first = job_cells(id, session_id, api_key, code, webhook_url, created);
    let made = effect(job_insert(id, session_id, api_key, code, webhook_url, created), rows);
    let row0 = row_with(Map::empty(), first);
    assert(made[id] == row0);
    lemma_set(Map::empty(), first, 0);
    lemma_set(Map::empty(), first, 1);
    lemma_set(Map::empty(), first, 2);
    lemma_set(Map::empty(), first, 4);
    lemma_set(Map::empty(), first, 5);
    lemma_set(Map::empty(), first, 6);
    lemma_untouched(Map::empty(), first, c[12]);
    let run = begun(made, id, started);
    let row1 = run[id];
    if let Some(t) = started {
        let second = job_start(id, t)->Update_cells;
        lemma_set(row0, second, 1);
        lemma_untouched(row0, second, c[0]);
        lemma_untouched(row0, second, c[1]);
        lemma_untouched(row0, second, c[2]);
        lemma_untouched(row0, second, c[4]);
        lemma_untouched(row0, second, c[10]);
        lemma_untouched(row0, second, c[11]);
    }
    assert(cell(row1, c[12]) == sql_opt(started));
    let third = job_end_cells(stdout, result, error, plots, html, duration_ms, finished);
    let after = effect(job_end(id, stdout, result, error, plots, html, duration_ms, finished), run);
    let row2 = after[id];
    assert(row2 == row_with(row1, third));
    lemma_set(row1, third, 0);
    lemma_set(row1, third, 1);
    lemma_set(row1, third, 2);
    lemma_set(row1, third, 3);
    lemma_set(row1, third, 4);
    lemma_set(row1, third, 5);
    lemma_set(row1, third, 6);
    lemma_set(row1, third, 7);
    lemma_untouched(row1, third, c[0]);
    lemma_untouched(row1, third, c[1]);
    lemma_untouched(row1, third, c[2]);
    lemma_untouched(row1, third, c[4]);
    lemma_untouched(row1, third, c[10]);
    lemma_untouched(row1, third, c[11]);
    lemma_untouched(row1, third, c[12]);
    let row = job_row(
        id,
        session_id,
        api_key,
        code,
        webhook_url,
        created,
        started,
        stdout,
        result,
        error,
        plots,
        html,
        duration_ms,
        finished,
    );
    assert(projected(row2, c) =~= row);
    assert(holds(row2, owned(id, api_key)));
    assert(holds(row2, job_list(session_id, api_key)->Select_cells));
    assert(owned(id, other)[1] == ("api_key"@, SqlV::Text(other)));
    assert(!holds(row2, owned(id, other)));
    let elsewhere = job_list(session_id, other)->Select_cells;
    assert(elsewhere[1] == ("api_key"@, SqlV::Text(other)));
    assert(!holds(row2, elsewhere));
}

/// The columns of a checkpoint differ from each other.
proof fn lemma_checkpoint_columns()
    ensures
        checkpoint_columns().no_duplicates(),
{
    let c = checkpoint_columns();
    reveal_strlit("id");
    reveal_strlit("api_key");
    reveal_strlit("name");
    reveal_strlit("path");
    reveal_strlit("created_at");
    reveal_strlit("size_bytes");
    assert(c[0] == "id"@);
    assert(c[1] == "api_key"@);
    assert(c[2] == "name"@);
    assert(c[3] == "path"@);
    assert(c[4] == "created_at"@);
    assert(c[5] == "size_bytes"@);
    assert(c[2][0] != c[3][0]);
    assert(c[4][0] != c[5][0]);
}

/// A checkpoint that was stored is found and listed under its key and under no
/// other, and is gone once it was deleted.
pub proof fn law_stored_checkpoint_is_found(
    rows: Rows,
    id: Seq<char>,
    api_key: Seq<char>,
    name: Seq<char>,
    path: Seq<char>,
    size: int,
    now: Seq<char>,
    other: Seq<char>,
)
    requires
        !rows.contains_key(id),
        other != api_key,
    ensures
        runs(checkpoint_insert(id, api_key, name, path, size, now), rows),
        ({
            let made = effect(checkpoint_insert(id, api_key, name, path, size, now), rows);
            let row = seq![
                SqlV::Text(id),
                SqlV::Text(api_key),
                SqlV::Text(name),
                SqlV::Text(path),
                SqlV::Text(now),
                SqlV::Int(size),
            ];
            &&& is_checkpoint_row(row)
            &&& looked_up(checkpoint_lookup(id, api_key), made, id) == Some(row)
            &&& looked_up(checkpoint_list(api_key), made, id) == Some(row)
            &&& looked_up(checkpoint_lookup(id, other), made, id) is None
            &&& looked_up(checkpoint_list(other), made, id) is None
            &&& effect(checkpoint_delete(id, other), made).contains_key(id)
            &&& !effect(checkpoint_delete(id, api_key), made).contains_key(id)
            &&& rows =~= made.remove(id)
        }),
{
    lemma_checkpoint_columns();
    let c = checkpoint_columns();
    assert(c[0] == "id"@ && c[1] == "api_key"@ && c[2] == "name"@ && c[3] == "path"@ && c[4] == "created_at"@);
    assert(c[5] == "size_bytes"@);
    let cells = checkpoint_cells(id, api_key, name, path, size, now);
    let made = effect(checkpoint_insert(id, api_key, name, path, size, now), rows);
    let row = row_with(Map::empty(), cells);
    assert(made[id] == row);
    lemma_set(Map::empty(), cells, 0);
    lemma_set(Map::empty(), cells, 1);
    lemma_set(Map::empty(), cells, 2);
    lemma_set(Map::empty(), cells, 3);
    lemma_set(Map::empty(), cells, 4);
    lemma_set(Map::empty(), cells, 5);
    assert(projected(row, c) =~= seq![
        SqlV::Text(id),
        SqlV::Text(api_key),
        SqlV::Text(name),
        SqlV::Text(path),
        SqlV::Text(now),
        SqlV::Int(size),
    ]);
    assert(holds(row, owned(id, api_key)));
    assert(holds(row, checkpoint_list(api_key)->Select_cells));
    assert(owned(id, other)[1] == ("api_key"@, SqlV::Text(other)));
    assert(!holds(row, owned(id, other)));
    let elsewhere = checkpoint_list(other)->Select_cells;
    assert(elsewhere[0] == ("api_key"@, SqlV::Text(other)));
    assert(!holds(row, elsewhere));
}

/// An ended worker is counted once in its swarm, as failed or as completed, and in
/// no other swarm.
pub proof fn law_ended_worker_is_counted_once(rows: Rows, swarm_id: Seq<char>, failed: bool, done: int, lost: int)
    requires
        rows.contains_key(swarm_id),
        cell(rows[swarm_id], "completed_workers"@) == SqlV::Int(done),
        cell(rows[swarm_id], "failed_workers"@) == SqlV::Int(lost),
    ensures
        ({
            let after = effect(worker_count(swarm_id, failed), rows);
            &&& cell(after[swarm_id], "completed_workers"@) == SqlV::Int(
                if failed {
                    done
                } else {
                    done + 1
                },
            )
            &&& cell(after[swarm_id], "failed_workers"@) == SqlV::Int(
                if failed {
                    lost + 1
                } else {
                    lost
                },
            )
            &&& after.remove(swarm_id) =~= rows.remove(swarm_id)
        }),
{
    reveal_strlit("completed_workers");
    reveal_strlit("failed_workers");
    assert("completed_workers"@.len() != "failed_workers"@.len());
}

/// A key that was stored is found by its name, and a key that was revoked is found
/// by no name.
pub proof fn law_key_is_found_by_its_name(
    rows: Rows,
    key: Seq<char>,
    name: Seq<char>,
    tier: Seq<char>,
    now: Seq<char>,
    any: Seq<char>,
)
    requires
        !rows.contains_key(key),
    ensures
        looked_up(key_by_name(name), effect(key_insert(key, name, tier, now), rows), key) == Some(
            seq![SqlV::Text(key), SqlV::Text(name), SqlV::Text(tier), SqlV::Int(1)],
        ),
        looked_up(key_by_name(any), effect(key_revoke(key), effect(key_insert(key, name, tier, now), rows)), key) is None,
{
    lemma_new_key(key, name, tier, now);
    let made = effect(key_insert(key, name, tier, now), rows);
    let row = row_with(Map::empty(), key_cells(key, name, tier, now));
    assert(made[key] == row);
    assert(holds(row, key_by_name(name)->Select_cells));
    assert(projected(row, key_columns()) =~= seq![SqlV::Text(key), SqlV::Text(name), SqlV::Text(tier), SqlV::Int(1)]);
    let after = effect(key_revoke(key), made);
    lemma_set(row, key_revoke(key)->Update_cells, 0);
    let wanted = key_by_name(any)->Select_cells;
    assert(wanted[1] == ("is_active"@, SqlV::Int(1)));
    assert(!holds(after[key], wanted));
}

/// The columns of a swarm differ from each other.
proof fn lemma_swarm_columns()
    ensures
        swarm_columns().no_duplicates(),
{
    let c = swarm_columns();
    reveal_strlit("id");
    reveal_strlit("api_key");
    reveal_strlit("status");
    reveal_strlit("total_workers");
    reveal_strlit("completed_workers");
    reveal_strlit("failed_workers");
    reveal_strlit("template_checkpoint_id");
    reveal_strlit("reduce_stdout");
    reveal_strlit("reduce_result");
    reveal_strlit("reduce_error");
    reveal_strlit("webhook_url");
    reveal_strlit("created_at");
    reveal_strlit("finished_at");
    assert(c[0] == "id"@ && c[0].len() == 2);
    assert(c[1] == "api_key"@ && c[1].len() == 7);
    assert(c[2] == "status"@ && c[2].len() == 6);
    assert(c[3] == "total_workers"@ && c[3].len() == 13);
    assert(c[4] == "completed_workers"@ && c[4].len() == 17);
    assert(c[5] == "failed_workers"@ && c[5].len() == 14);
    assert(c[6] == "template_checkpoint_id"@ && c[6].len() == 22);
    assert(c[7] == "reduce_stdout"@ && c[7].len() == 13);
    assert(c[8] == "reduce_result"@ && c[8].len() == 13);
    assert(c[9] == "reduce_error"@ && c[9].len() == 12);
    assert(c[10] == "webhook_url"@ && c[10].len() == 11);
    assert(c[11] == "created_at"@ && c[11].len() == 10);
    assert(c[12] == "finished_at"@ && c[12].len() == 11);
    assert(c[3][0] != c[7][0]);
    assert(c[3][0] != c[8][0]);
    assert(c[7][7] != c[8][7]);
    assert(c[10][0] != c[12][0]);
}

/// A swarm that was stored is found under its key, with no worker done, and under no
/// other key. Once its outcome is stored, that is read back with it, and its status
/// tells whether there was an error.
pub proof fn law_finished_swarm_reads_back(
    rows: Rows,
    id: Seq<char>,
    api_key: Seq<char>,
    total: int,
    template_checkpoint_id: Option<Seq<char>>,
    webhook_url: Option<Seq<char>>,
    created: Seq<char>,
    stdout: Option<Seq<char>>,
    result: Option<Seq<char>>,
    error: Option<Seq<char>>,
    finished: Seq<char>,
    other: Seq<char>,
)
    requires
        !rows.contains_key(id),
        other != api_key,
    ensures
        runs(swarm_insert(id, api_key, total, template_checkpoint_id, webhook_url, created), rows),
        ({
            let made = effect(swarm_insert(id, api_key, total, template_checkpoint_id, webhook_url, created), rows);
            let after = effect(swarm_end(id, stdout, result, error, finished), made);
            let first = seq![
                SqlV::Text(id),
                SqlV::Text(api_key),
                SqlV::Text("running"@),
                SqlV::Int(total),
                SqlV::Int(0),
                SqlV::Int(0),
                sql_opt(template_checkpoint_id),
                SqlV::Null,
                SqlV::Null,
                SqlV::Null,
                sql_opt(webhook_url),
                SqlV::Text(created),
                SqlV::Null,
            ];
            let last = seq![
                SqlV::Text(id),
                SqlV::Text(api_key),
                SqlV::Text(end_status(error)),
                SqlV::Int(total),
                SqlV::Int(0),
                SqlV::Int(0),
                sql_opt(template_checkpoint_id),
                sql_opt(stdout),
                sql_opt(result),
                sql_opt(error),
                sql_opt(webhook_url),
                SqlV::Text(created),
                SqlV::Text(finished),
            ];
            &&& is_swarm_row(first)
            &&& looked_up(swarm_lookup(id, api_key), made, id) == Some(first)
            &&& is_swarm_row(last)
            &&& looked_up(swarm_lookup(id, api_key), after, id) == Some(last)
            &&& looked_up(swarm_lookup(id, other), after, id) is None
            &&& rows =~= after.remove(id)
        }),
{
    lemma_swarm_columns();
    let c = swarm_columns();
    assert(c[0] == "id"@);
    assert(c[1] == "api_key"@);
    assert(c[2] == "status"@);
    assert(c[3] == "total_workers"@);
    assert(c[4] == "completed_workers"@);
    assert(c[5] == "failed_workers"@);
    assert(c[6] == "template_checkpoint_id"@);
    assert(c[7] == "reduce_stdout"@);
    assert(c[8] == "reduce_result"@);
    assert(c[9] == "reduce_error"@);
    assert(c[10] == "webhook_url"@);
    assert(c[11] == "created_at"@);
    assert(c[12] == "finished_at"@);
    let cells = swarm_cells(id, api_key, total, template_checkpoint_id, webhook_url, created);
    let made = effect(swarm_insert(id, api_key, total, template_checkpoint_id, webhook_url, created), rows);
    let row0 = row_with(Map::empty(), cells);
    assert(made[id] == row0);
    lemma_set(Map::empty(), cells, 0);
    lemma_set(Map::empty(), cells, 1);
    lemma_set(Map::empty(), cells, 2);
    lemma_set(Map::empty(), cells, 3);
    lemma_set(Map::empty(), cells, 4);
    lemma_set(Map::empty(), cells, 5);
    lemma_set(Map::empty(), cells, 6);
    lemma_set(Map::empty(), cells, 7);
    lemma_set(Map::empty(), cells, 8);
    lemma_untouched(Map::empty(), cells, c[7]);
    lemma_untouched(Map::empty(), cells, c[8]);
    lemma_untouched(Map::empty(), cells, c[9]);
    lemma_untouched(Map::empty(), cells, c[12]);
    let more = swarm_end_cells(stdout, result, error, finished);
    let after = effect(swarm_end(id, stdout, result, error, finished), made);
    let row1 = row_with(row0, more);
    assert(after[id] == row1);
    lemma_set(row0, more, 0);
    lemma_set(row0, more, 1);
    lemma_set(row0, more, 2);
    lemma_set(row0, more, 3);
    lemma_set(row0, more, 4);
    lemma_untouched(row0, more, c[0]);
    lemma_untouched(row0, more, c[1]);
    lemma_untouched(row0, more, c[3]);
    lemma_untouched(row0, more, c[4]);
    lemma_untouched(row0, more, c[5]);
    lemma_untouched(row0, more, c[6]);
    lemma_untouched(row0, more, c[10]);
    lemma_untouched(row0, more, c[11]);
    assert(projected(row0, c) =~= seq![
        SqlV::Text(id),
        SqlV::Text(api_key),
        SqlV::Text("running"@),
        SqlV::Int(total),
        SqlV::Int(0),
        SqlV::Int(0),
        sql_opt(template_checkpoint_id),
        SqlV::Null,
        SqlV::Null,
        SqlV::Null,
        sql_opt(webhook_url),
        SqlV::Text(created),
        SqlV::Null,
    ]);
    assert(projected(row1, c) =~= seq![
        SqlV::Text(id),
        SqlV::Text(api_key),
        SqlV::Text(end_status(error)),
        SqlV::Int(total),
        SqlV::Int(0),
        SqlV::Int(0),
        sql_opt(template_checkpoint_id),
        sql_opt(stdout),
        sql_opt(result),
        sql_opt(error),
        sql_opt(webhook_url),
        SqlV::Text(created),
        SqlV::Text(finished),
    ]);
    assert(holds(row0, owned(id, api_key)));
    assert(holds(row1, owned(id, api_key)));
    assert(owned(id, other)[1] == ("api_key"@, SqlV::Text(other)));
    assert(!holds(row1, owned(id, other)));
}

/// The columns of a worker of a swarm differ from each other.
proof fn lemma_worker_columns()
    ensures
        worker_columns().no_duplicates(),
{
    let c = worker_columns();
    reveal_strlit("id");
    reveal_strlit("swarm_id");
    reveal_strlit("worker_index");
    reveal_strlit("session_id");
    reveal_strlit("status");
    reveal_strlit("partition");
    reveal_strlit("stdout");
    reveal_strlit("result");
    reveal_strlit("error");
    reveal_strlit("plots");
    reveal_strlit("duration_ms");
    reveal_strlit("started_at");
    reveal_strlit("finished_at");
    assert(c[0] == "id"@ && c[0].len() == 2);
    assert(c[1] == "swarm_id"@ && c[1].len() == 8);
    assert(c[2] == "worker_index"@ && c[2].len() == 12);
    assert(c[3] == "session_id"@ && c[3].len() == 10);
    assert(c[4] == "status"@ && c[4].len() == 6);
    assert(c[5] == "partition"@ && c[5].len() == 9);
    assert(c[6] == "stdout"@ && c[6].len() == 6);
    assert(c[7] == "result"@ && c[7].len() == 6);
    assert(c[8] == "error"@ && c[8].len() == 5);
    assert(c[9] == "plots"@ && c[9].len() == 5);
    assert(c[10] == "duration_ms"@ && c[10].len() == 11);
    assert(c[11] == "started_at"@ && c[11].len() == 10);
    assert(c[12] == "finished_at"@ && c[12].len() == 11);
    assert(c[3][1] != c[11][1]);
    assert(c[4][2] != c[6][2]);
    assert(c[4][0] != c[7][0]);
    assert(c[6][0] != c[7][0]);
    assert(c[8][0] != c[9][0]);
    assert(c[10][0] != c[12][0]);
}

/// The rows after a worker was marked as running in a session at a time, where it was.
pub open spec fn worker_begun(rows: Rows, id: Seq<char>, started: Option<(Seq<char>, Seq<char>)>) -> Rows {
    match started {
        Some((session_id, t)) => effect(worker_start(id, session_id, t), rows),
        None => rows,
    }
}

/// A worker that has ended is listed with its swarm, as it ended, under what it was
/// stored with, whether or not it got a session.
pub proof fn law_ended_worker_reads_back(
    rows: Rows,
    id: Seq<char>,
    swarm_id: Seq<char>,
    index: int,
    partition: Seq<char>,
    started: Option<(Seq<char>, Seq<char>)>,
    stdout: Seq<char>,
    result: Option<Seq<char>>,
    error: Option<Seq<char>>,
    plots: Seq<char>,
    duration_ms: int,
    finished: Seq<char>,
    other: Seq<char>,
)
    requires
        !rows.contains_key(id),
        other != swarm_id,
    ensures
        runs(worker_insert(id, swarm_id, index, partition), rows),
        ({
            let made = effect(worker_insert(id, swarm_id, index, partition), rows);
            let after = effect(
                worker_end(id, stdout, result, error, plots, duration_ms, finished),
                worker_begun(made, id, started),
            );
            let row = seq![
                SqlV::Text(id),
                SqlV::Text(swarm_id),
                SqlV::Int(index),
                match started {
                    Some((session_id, t)) => SqlV::Text(session_id),
                    None => SqlV::Null,
                },
                SqlV::Text(end_status(error)),
                SqlV::Text(partition),
                SqlV::Text(stdout),
                sql_opt(result),
                sql_opt(error),
                SqlV::Text(plots),
                SqlV::Int(duration_ms),
                match started {
                    Some((session_id, t)) => SqlV::Text(t),
                    None => SqlV::Null,
                },
                SqlV::Text(finished),
            ];
            &&& is_worker_row(row)
            &&& looked_up(worker_list(swarm_id), after, id) == Some(row)
            &&& looked_up(worker_list(other), after, id) is None
            &&& rows =~= after.remove(id)
        }),
{
    lemma_worker_columns();
    let c = worker_columns();
    assert(c[0] == "id"@);
    assert(c[1] == "swarm_id"@);
    assert(c[2] == "worker_index"@);
    assert(c[3] == "session_id"@);
    assert(c[4] == "status"@);
    assert(c[5] == "partition"@);
    assert(c[6] == "stdout"@);
    assert(c[7] == "result"@);
    assert(c[8] == "error"@);
    assert(c[9] == "plots"@);
    assert(c[10] == "duration_ms"@);
    assert(c[11] == "started_at"@);
    assert(c[12] == "finished_at"@);
    let first = worker_cells(id, swarm_id, index, partition);
    let made = effect(worker_insert(id, swarm_id, index, partition), rows);
    let row0 = row_with(Map::empty(), first);
    assert(made[id] == row0);
    lemma_set(Map::empty(), first, 0);
    lemma_set(Map::empty(), first, 1);
    lemma_set(Map::empty(), first, 2);
    lemma_set(Map::empty(), first, 4);
    lemma_untouched(Map::empty(), first, c[3]);
    lemma_untouched(Map::empty(), first, c[11]);
    let run = worker_begun(made, id, started);
    let row1 = run[id];
    if let Some((session_id, t)) = started {
        let second = worker_start(id, session_id, t)->Update_cells;
        lemma_set(row0, second, 1);
        lemma_set(row0, second, 2);
        lemma_untouched(row0, second, c[0]);
        lemma_untouched(row0, second, c[1]);
        lemma_untouched(row0, second, c[2]);
        lemma_untouched(row0, second, c[5]);
    }
    let third = worker_end_cells(stdout, result, error, plots, duration_ms, finished);
    let after = effect(worker_end(id, stdout, result, error, plots, duration_ms, finished), run);
    let row2 = row_with(row1, third);
    assert(after[id] == row2);
    lemma_set(row1, third, 0);
    lemma_set(row1, third, 1);
    lemma_set(row1, third, 2);
    lemma_set(row1, third, 3);
    lemma_set(row1, third, 4);
    lemma_set(row1, third, 5);
    lemma_set(row1, third, 6);
    lemma_untouched(row1, third, c[0]);
    lemma_untouched(row1, third, c[1]);
    lemma_untouched(row1, third, c[2]);
    lemma_untouched(row1, third, c[3]);
    lemma_untouched(row1, third, c[5]);
    lemma_untouched(row1, third, c[11]);
    assert(projected(row2, c) =~= seq![
        SqlV::Text(id),
        SqlV::Text(swarm_id),
        SqlV::Int(index),
        match started {
            Some((session_id, t)) => SqlV::Text(session_id),
            None => SqlV::Null,
        },
        SqlV::Text(end_status(error)),
        SqlV::Text(partition),
        SqlV::Text(stdout),
        sql_opt(result),
        sql_opt(error),
        SqlV::Text(plots),
        SqlV::Int(duration_ms),
        match started {
            Some((session_id, t)) => SqlV::Text(t),
            None => SqlV::Null,
        },
        SqlV::Text(finished),
    ]);
    assert(holds(row2, worker_list(swarm_id)->Select_cells));
    let elsewhere = worker_list(other)->Select_cells;
    assert(elsewhere[0] == ("swarm_id"@, SqlV::Text(other)));
    assert(!holds(row2, elsewhere));
}

/// The columns of a workspace differ from each other.
proof fn lemma_workspace_columns()
    ensures
        workspace_columns().no_duplicates(),
{
    let c = workspace_columns();
    reveal_strlit("id");
    reveal_strlit("name");
    reveal_strlit("owner_api_key");
    reveal_strlit("created_at");
    reveal_strlit("last_accessed_at");
    reveal_strlit("checkpoint_path");
    assert(c[0] == "id"@ && c[0].len() == 2);
    assert(c[1] == "name"@ && c[1].len() == 4);
    assert(c[2] == "owner_api_key"@ && c[2].len() == 13);
    assert(c[3] == "created_at"@ && c[3].len() == 10);
    assert(c[4] == "last_accessed_at"@ && c[4].len() == 16);
    assert(c[5] == "checkpoint_path"@ && c[5].len() == 15);
}

/// A workspace that was stored, saved and used is read back with all that. Its owner
/// is counted as such and no other key is. Its owner can delete it and no other key
/// can.
pub proof fn law_workspace_belongs_to_its_owner(
    rows: Rows,
    id: Seq<char>,
    name: Seq<char>,
    owner: Seq<char>,
    created: Seq<char>,
    path: Seq<char>,
    used: Seq<char>,
    other: Seq<char>,
)
    requires
        keyed(rows, "id"@),
        !rows.contains_key(id),
        other != owner,
    ensures
        runs(workspace_insert(id, name, owner, created), rows),
        ({
            let made = effect(workspace_insert(id, name, owner, created), rows);
            let after = effect(workspace_touch(id, used), effect(workspace_saved(id, path), made));
            &&& looked_up(workspace_lookup(id), made, id) == Some(
                seq![
                    SqlV::Text(id),
                    SqlV::Text(name),
                    SqlV::Text(owner),
                    SqlV::Text(created),
                    SqlV::Text(created),
                    SqlV::Null,
                ],
            )
            &&& looked_up(workspace_lookup(id), after, id) == Some(
                seq![
                    SqlV::Text(id),
                    SqlV::Text(name),
                    SqlV::Text(owner),
                    SqlV::Text(created),
                    SqlV::Text(used),
                    SqlV::Text(path),
                ],
            )
            &&& count_of(owner_count(id, owner), after) == 1
            &&& count_of(owner_count(id, other), after) == 0
            &&& effect(workspace_delete(id, other), after) == after
            &&& effect(workspace_delete(id, owner), after) == rows
        }),
{
    lemma_workspace_columns();
    let c = workspace_columns();
    assert(c[0] == "id"@);
    assert(c[1] == "name"@);
    assert(c[2] == "owner_api_key"@);
    assert(c[3] == "created_at"@);
    assert(c[4] == "last_accessed_at"@);
    assert(c[5] == "checkpoint_path"@);
    let cells = workspace_cells(id, name, owner, created);
    let made = effect(workspace_insert(id, name, owner, created), rows);
    let row0 = row_with(Map::empty(), cells);
    assert(made[id] == row0);
    lemma_set(Map::empty(), cells, 0);
    lemma_set(Map::empty(), cells, 1);
    lemma_set(Map::empty(), cells, 2);
    lemma_set(Map::empty(), cells, 3);
    lemma_set(Map::empty(), cells, 4);
    lemma_untouched(Map::empty(), cells, c[5]);
    let saved = effect(workspace_saved(id, path), made);
    let kept = workspace_saved(id, path)->Update_cells;
    let row1 = row_with(row0, kept);
    assert(saved[id] == row1);
    lemma_set(row0, kept, 0);
    lemma_untouched(row0, kept, c[0]);
    lemma_untouched(row0, kept, c[1]);
    lemma_untouched(row0, kept, c[2]);
    lemma_untouched(row0, kept, c[3]);
    lemma_untouched(row0, kept, c[4]);
    let after = effect(workspace_touch(id, used), saved);
    let now = workspace_touch(id, used)->Update_cells;
    let row2 = row_with(row1, now);
    assert(after[id] == row2);
    lemma_set(row1, now, 0);
    lemma_untouched(row1, now, c[0]);
    lemma_untouched(row1, now, c[1]);
    lemma_untouched(row1, now, c[2]);
    lemma_untouched(row1, now, c[3]);
    lemma_untouched(row1, now, c[5]);
    assert(projected(row0, c) =~= seq![
        SqlV::Text(id),
        SqlV::Text(name),
        SqlV::Text(owner),
        SqlV::Text(created),
        SqlV::Text(created),
        SqlV::Null,
    ]);
    assert(projected(row2, c) =~= seq![
        SqlV::Text(id),
        SqlV::Text(name),
        SqlV::Text(owner),
        SqlV::Text(created),
        SqlV::Text(used),
        SqlV::Text(path),
    ]);
    assert(holds(row0, workspace_lookup(id)->Select_cells));
    assert(holds(row2, workspace_lookup(id)->Select_cells));
    let mine = of_owner(id, owner);
    let theirs = of_owner(id, other);
    assert(mine[0] == ("id"@, SqlV::Text(id)));
    assert(theirs[0] == ("id"@, SqlV::Text(id)) && theirs[1] == ("owner_api_key"@, SqlV::Text(other)));
    assert(holds(row2, mine));
    assert(!holds(row2, theirs));
    assert forall|k: Seq<char>| k != id && #[trigger] after.contains_key(k) implies !holds(after[k], mine) && !holds(
        after[k],
        theirs,
    ) by {
        assert(rows.contains_key(k) && after[k] == rows[k]);
        assert(cell(rows[k], "id"@) == SqlV::Text(k));
    }
    assert(matching(after, mine) =~= set![id]);
    assert(matching(after, theirs) =~= Set::empty());
    assert(effect(workspace_delete(id, other), after) =~= after);
    assert(effect(workspace_delete(id, owner), after) =~= rows);
}

/// A user who was stored under a new address is counted once and found, with the
/// password hash and the key.
pub proof fn law_registered_user_is_found(
    rows: Rows,
    id: Seq<char>,
    email: Seq<char>,
    hash: Seq<char>,
    api_key: Seq<char>,
    now: Seq<char>,
)
    requires
        !rows.contains_key(id),
        count_of(user_count(email), rows) == 0,
        rows.dom().finite(),
    ensures
        runs(user_insert(id, email, hash, api_key, now), rows),
        looked_up(user_lookup(email), effect(user_insert(id, email, hash, api_key, now), rows), id) == Some(
            seq![SqlV::Text(hash), SqlV::Text(api_key)],
        ),
        count_of(user_count(email), effect(user_insert(id, email, hash, api_key, now), rows)) == 1,
{
    reveal_strlit("id");
    reveal_strlit("email");
    reveal_strlit("password_hash");
    reveal_strlit("api_key");
    reveal_strlit("created_at");
    assert("id"@.len() == 2 && "email"@.len() == 5 && "password_hash"@.len() == 13 && "api_key"@.len() == 7
        && "created_at"@.len() == 10);
    let cells = user_cells(id, email, hash, api_key, now);
    let made = effect(user_insert(id, email, hash, api_key, now), rows);
    let row = row_with(Map::empty(), cells);
    assert(made[id] == row);
    lemma_set(Map::empty(), cells, 1);
    lemma_set(Map::empty(), cells, 2);
    lemma_set(Map::empty(), cells, 3);
    let wanted = user_lookup(email)->Select_cells;
    assert(user_count(email)->Count_cells =~= wanted);
    assert(holds(row, wanted));
    assert(projected(row, seq!["password_hash"@, "api_key"@]) =~= seq![SqlV::Text(hash), SqlV::Text(api_key)]);
    assert(matching(rows, wanted) =~= Set::empty()) by {
        if exists|k: Seq<char>| matching(rows, wanted).contains(k) {
            let k = choose|k: Seq<char>| matching(rows, wanted).contains(k);
            assert(matching(rows, wanted).remove(k).len() + 1 == matching(rows, wanted).len());
        }
    }
    assert forall|k: Seq<char>| k != id && #[trigger] made.contains_key(k) implies !holds(made[k], wanted) by {
        assert(rows.contains_key(k) && made[k] == rows[k]);
        assert(!matching(rows, wanted).contains(k));
    }
    assert(matching(made, wanted) =~= set![id]);
}

// ── Usage ───────────────────────────────────────────────

/// The values of what an execution took that are read again.
proof fn lemma_new_event(e: UsageEventV)
    ensures
        ({
            let row = row_with(Map::empty(), event_cells(e));
            &&& cell(row, "api_key"@) == SqlV::Text(e.api_key)
            &&& cell(row, "duration_ms"@) == SqlV::Int(e.duration_ms)
            &&& cell(row, "timestamp"@) == SqlV::Text(e.timestamp)
        }),
{
    reveal_strlit("api_key");
    reveal_strlit("kind");
    reveal_strlit("session_id");
    reveal_strlit("swarm_id");
    reveal_strlit("duration_ms");
    reveal_strlit("output_tokens");
    reveal_strlit("state_tokens");
    reveal_strlit("timestamp");
    assert("api_key"@.len() == 7 && "kind"@.len() == 4 && "session_id"@.len() == 10 && "swarm_id"@.len() == 8
        && "duration_ms"@.len() == 11 && "output_tokens"@.len() == 13 && "state_tokens"@.len() == 12
        && "timestamp"@.len() == 9);
    let cells = event_cells(e);
    lemma_set(Map::empty(), cells, 0);
    lemma_set(Map::empty(), cells, 4);
    lemma_set(Map::empty(), cells, 7);
}

/// The rows after executions were stored in turn, each under the number at its place.
pub open spec fn with_events(rows: Rows, events: Seq<UsageEventV>, numbers: Seq<Seq<char>>) -> Rows
    decreases events.len(),
{
    if events.len() == 0 {
        rows
    } else {
        added(event_add(events.last()), with_events(rows, events.drop_last(), numbers.drop_last()), numbers.last())
    }
}

/// The milliseconds that the executions of a key took on a day.
pub open spec fn time_of(events: Seq<UsageEventV>, api_key: Seq<char>, day: Seq<char>) -> int
    decreases events.len(),
{
    if events.len() == 0 {
        0
    } else {
        time_of(events.drop_last(), api_key, day) + if events.last().api_key == api_key && day_of(events.last().timestamp)
            == day {
            events.last().duration_ms
        } else {
            0
        }
    }
}

/// Storing what an execution took adds its milliseconds to those of its key on its
/// day, and changes nothing for another key or another day.
pub proof fn law_execution_counts_on_its_day(
    rows: Rows,
    e: UsageEventV,
    number: Seq<char>,
    api_key: Seq<char>,
    day: Seq<char>,
)
    requires
        rows.dom().finite(),
        !rows.contains_key(number),
    ensures
        sum_of(time_used(api_key, day), added(event_add(e), rows, number)) == sum_of(time_used(api_key, day), rows)
            + if e.api_key == api_key && day_of(e.timestamp) == day {
            e.duration_ms
        } else {
            0
        },
{
    lemma_new_event(e);
    let row = row_with(Map::empty(), event_cells(e));
    let q = time_used(api_key, day);
    assert(of_key(api_key)[0] == ("api_key"@, SqlV::Text(api_key)));
    assert(holds(row, of_key(api_key)) == (e.api_key == api_key));
    lemma_sum_added(rows, number, row, q);
}

proof fn lemma_event_rows(rows: Rows, events: Seq<UsageEventV>, numbers: Seq<Seq<char>>)
    requires
        rows.dom().finite(),
        events.len() == numbers.len(),
    ensures
        with_events(rows, events, numbers).dom().finite(),
        forall|k: Seq<char>| #[trigger]
            with_events(rows, events, numbers).contains_key(k) ==> rows.contains_key(k) || numbers.contains(k),
    decreases events.len(),
{
    if events.len() > 0 {
        let front = numbers.drop_last();
        lemma_event_rows(rows, events.drop_last(), front);
        assert forall|k: Seq<char>| #[trigger] with_events(rows, events, numbers).contains_key(k) implies rows.contains_key(
            k,
        ) || numbers.contains(k) by {
            if k == numbers.last() {
                assert(numbers[numbers.len() - 1] == k);
            } else if front.contains(k) {
                let i = choose|i: int| 0 <= i < front.len() && front[i] == k;
                assert(numbers[i] == k);
            }
        }
    }
}

/// The credits that a key has used on a day are those of the milliseconds of all
/// executions that were stored for it on that day.
pub proof fn law_credits_of_a_day(
    events: Seq<UsageEventV>,
    numbers: Seq<Seq<char>>,
    api_key: Seq<char>,
    day: Seq<char>,
)
    requires
        events.len() == numbers.len(),
        numbers.no_duplicates(),
    ensures
        sum_of(time_used(api_key, day), with_events(Map::empty(), events, numbers)) == time_of(events, api_key, day),
        credits_of(sum_of(time_used(api_key, day), with_events(Map::empty(), events, numbers))) == credits_of(
            time_of(events, api_key, day),
        ),
    decreases events.len(),
{
    let none: Rows = Map::empty();
    assert(none.dom() =~= Set::empty());
    if events.len() == 0 {
        assert(matching_if(none, of_key(api_key), TestV::Day("timestamp"@, day)) =~= Set::empty());
    } else {
        let front = numbers.drop_last();
        law_credits_of_a_day(events.drop_last(), front, api_key, day);
        lemma_event_rows(none, events.drop_last(), front);
        let before = with_events(none, events.drop_last(), front);
        assert(!before.contains_key(numbers.last())) by {
            if front.contains(numbers.last()) {
                let i = choose|i: int| 0 <= i < front.len() && front[i] == numbers.last();
                assert(numbers[i] == numbers[numbers.len() - 1]);
            }
        }
        law_execution_counts_on_its_day(before, events.last(), numbers.last(), api_key, day);
    }
}

/// A use of an endpoint is counted for its key from every time that it does not come
/// before, and for no other key.
pub proof fn law_use_is_counted(
    rows: Rows,
    number: Seq<char>,
    owner: Seq<char>,
    endpoint: Seq<char>,
    duration_ms: int,
    now: Seq<char>,
    api_key: Seq<char>,
    since: Seq<char>,
)
    requires
        rows.dom().finite(),
        !rows.contains_key(number),
    ensures
        count_of(usage_count(api_key, since), added(usage_add(owner, endpoint, duration_ms, now), rows, number)) == count_of(
            usage_count(api_key, since),
            rows,
        ) + if owner == api_key && !text_before(now, since) {
            1nat
        } else {
            0
        },
{
    reveal_strlit("api_key");
    reveal_strlit("endpoint");
    reveal_strlit("duration_ms");
    reveal_strlit("timestamp");
    assert("api_key"@.len() == 7 && "endpoint"@.len() == 8 && "duration_ms"@.len() == 11 && "timestamp"@.len() == 9);
    let cells = usage_cells(owner, endpoint, duration_ms, now);
    lemma_set(Map::empty(), cells, 0);
    lemma_set(Map::empty(), cells, 3);
    let row = row_with(Map::empty(), cells);
    let after = rows.insert(number, row);
    let test = TestV::Since("timestamp"@, since);
    assert(of_key(api_key)[0] == ("api_key"@, SqlV::Text(api_key)));
    assert(holds(row, of_key(api_key)) == (owner == api_key));
    let old_keys = matching_if(rows, of_key(api_key), test);
    let new_keys = matching_if(after, of_key(api_key), test);
    if owner == api_key && !text_before(now, since) {
        assert(new_keys =~= old_keys.insert(number));
    } else {
        assert(new_keys =~= old_keys);
    }
}

// ── Storage ─────────────────────────────────────────────

/// The values of a new checkpoint.
proof fn lemma_new_checkpoint(
    id: Seq<char>,
    api_key: Seq<char>,
    name: Seq<char>,
    path: Seq<char>,
    size: int,
    now: Seq<char>,
)
    ensures
        ({
            let row = row_with(Map::empty(), checkpoint_cells(id, api_key, name, path, size, now));
            &&& cell(row, "id"@) == SqlV::Text(id)
            &&& cell(row, "api_key"@) == SqlV::Text(api_key)
            &&& cell(row, "path"@) == SqlV::Text(path)
            &&& cell(row, "created_at"@) == SqlV::Text(now)
            &&& cell(row, "size_bytes"@) == SqlV::Int(size)
        }),
{
    lemma_checkpoint_columns();
    let c = checkpoint_columns();
    assert(c[0] == "id"@ && c[1] == "api_key"@ && c[2] == "name"@ && c[3] == "path"@ && c[4] == "created_at"@);
    assert(c[5] == "size_bytes"@);
    let cells = checkpoint_cells(id, api_key, name, path, size, now);
    lemma_set(Map::empty(), cells, 0);
    lemma_set(Map::empty(), cells, 1);
    lemma_set(Map::empty(), cells, 3);
    lemma_set(Map::empty(), cells, 4);
    lemma_set(Map::empty(), cells, 5);
}

/// What is added up for the storage of a key are the sizes of the checkpoints that
/// are listed for it, and of no others.
pub proof fn law_storage_is_of_the_listed_checkpoints(rows: Rows, api_key: Seq<char>, id: Seq<char>)
    ensures
        sum_of(storage_used(api_key), rows) == total(
            rows,
            matching_if(rows, of_key(api_key), TestV::Any),
            "size_bytes"@,
        ),
        matching_if(rows, of_key(api_key), TestV::Any).contains(id) == (looked_up(
            checkpoint_list(api_key),
            rows,
            id,
        ) is Some),
        looked_up(checkpoint_list(api_key), rows, id) matches Some(row) ==> (is_checkpoint_row(row) ==> amount(
            rows[id],
            "size_bytes"@,
        ) == column_int(row, 5)),
{
    assert(checkpoint_list(api_key)->Select_cells =~= of_key(api_key));
    assert(checkpoint_columns()[5] == "size_bytes"@);
}

/// Without checkpoints no storage is used. A new checkpoint adds its size to the
/// storage of its key and changes that of no other. Its deletion by its key, or by
/// its identifier, takes the size away again, and a deletion by another key changes
/// nothing.
pub proof fn law_storage_adds_up(
    rows: Rows,
    id: Seq<char>,
    api_key: Seq<char>,
    name: Seq<char>,
    path: Seq<char>,
    size: int,
    now: Seq<char>,
    other: Seq<char>,
)
    requires
        rows.dom().finite(),
        keyed(rows, "id"@),
        !rows.contains_key(id),
        other != api_key,
    ensures
        sum_of(storage_used(api_key), Map::empty()) == 0,
        ({
            let made = effect(checkpoint_insert(id, api_key, name, path, size, now), rows);
            &&& sum_of(storage_used(api_key), made) == sum_of(storage_used(api_key), rows) + size
            &&& sum_of(storage_used(other), made) == sum_of(storage_used(other), rows)
            &&& effect(checkpoint_delete(id, api_key), made) == rows
            &&& effect(checkpoint_drop(id), made) == rows
            &&& effect(checkpoint_delete(id, other), made) == made
        }),
{
    let none: Rows = Map::empty();
    assert(matching_if(none, of_key(api_key), TestV::Any) =~= Set::empty());
    lemma_new_checkpoint(id, api_key, name, path, size, now);
    let made = effect(checkpoint_insert(id, api_key, name, path, size, now), rows);
    let row = row_with(Map::empty(), checkpoint_cells(id, api_key, name, path, size, now));
    assert(made[id] == row);
    assert(of_key(api_key)[0] == ("api_key"@, SqlV::Text(api_key)));
    assert(of_key(other)[0] == ("api_key"@, SqlV::Text(other)));
    assert(holds(row, of_key(api_key)));
    assert(!holds(row, of_key(other)));
    lemma_sum_added(rows, id, row, storage_used(api_key));
    lemma_sum_added(rows, id, row, storage_used(other));
    let mine = owned(id, api_key);
    let theirs = owned(id, other);
    let by_id = checkpoint_drop(id)->Delete_cells;
    assert(mine[0] == ("id"@, SqlV::Text(id)));
    assert(theirs[0] == ("id"@, SqlV::Text(id)) && theirs[1] == ("api_key"@, SqlV::Text(other)));
    assert(by_id[0] == ("id"@, SqlV::Text(id)));
    assert(holds(row, mine) && holds(row, by_id));
    assert(!holds(row, theirs));
    assert forall|k: Seq<char>| k != id && #[trigger] made.contains_key(k) implies !holds(made[k], mine) && !holds(
        made[k],
        theirs,
    ) && !holds(made[k], by_id) by {
        assert(rows.contains_key(k) && made[k] == rows[k]);
        assert(cell(rows[k], "id"@) == SqlV::Text(k));
    }
    assert(effect(checkpoint_delete(id, api_key), made) =~= rows);
    assert(effect(checkpoint_drop(id), made) =~= rows);
    assert(effect(checkpoint_delete(id, other), made) =~= made);
}

/// A checkpoint is listed as old, with its key and its path, if and only if it was
/// made before the time that is asked for.
pub proof fn law_old_checkpoints_are_listed(
    rows: Rows,
    id: Seq<char>,
    api_key: Seq<char>,
    name: Seq<char>,
    path: Seq<char>,
    size: int,
    now: Seq<char>,
    before: Seq<char>,
)
    requires
        !rows.contains_key(id),
    ensures
        looked_up(expired_list(before), effect(checkpoint_insert(id, api_key, name, path, size, now), rows), id)
            == if text_before(now, before) {
            Some(seq![SqlV::Text(id), SqlV::Text(api_key), SqlV::Text(path)])
        } else {
            None
        },
{
    lemma_new_checkpoint(id, api_key, name, path, size, now);
    let row = row_with(Map::empty(), checkpoint_cells(id, api_key, name, path, size, now));
    let made = effect(checkpoint_insert(id, api_key, name, path, size, now), rows);
    assert(made[id] == row);
    assert(holds(row, expired_list(before)->SelectIf_cells));
    assert(projected(row, seq!["id"@, "api_key"@, "path"@]) =~= seq![
        SqlV::Text(id),
        SqlV::Text(api_key),
        SqlV::Text(path),
    ]);
}

// ── Members ─────────────────────────────────────────────

/// The values of a new member.
proof fn lemma_new_member(id: Seq<char>, api_key: Seq<char>, now: Seq<char>)
    ensures
        ({
            let row = row_with(Map::empty(), member_cells(id, api_key, now));
            &&& cell(row, "workspace_id"@) == SqlV::Text(id)
            &&& cell(row, "api_key"@) == SqlV::Text(api_key)
            &&& cell(row, "joined_at"@) == SqlV::Text(now)
        }),
{
    reveal_strlit("workspace_id");
    reveal_strlit("api_key");
    reveal_strlit("joined_at");
    assert("workspace_id"@.len() == 12 && "api_key"@.len() == 7 && "joined_at"@.len() == 9);
    let cells = member_cells(id, api_key, now);
    lemma_set(Map::empty(), cells, 0);
    lemma_set(Map::empty(), cells, 1);
    lemma_set(Map::empty(), cells, 2);
}

/// A row is that of a member of a workspace if and only if it holds both names.
proof fn lemma_membership(row: Row, id: Seq<char>, api_key: Seq<char>)
    ensures
        holds(row, membership(id, api_key)) == (cell(row, "workspace_id"@) == SqlV::Text(id) && cell(row, "api_key"@)
            == SqlV::Text(api_key)),
{
    let cells = membership(id, api_key);
    assert(cells[0] == ("workspace_id"@, SqlV::Text(id)) && cells[1] == ("api_key"@, SqlV::Text(api_key)));
}

/// A key has access to a workspace if and only if it owns it or is a member of it, and
/// the count for its access is then one. The same workspaces are in its list.
pub proof fn law_access_is_of_owners_and_members(workspaces: Rows, members: Rows, id: Seq<char>, api_key: Seq<char>)
    requires
        keyed(workspaces, "id"@),
    ensures
        access_count(workspaces, members, id, api_key) == if workspaces.contains_key(id) && (is_owner(
            workspaces,
            id,
            api_key,
        ) || is_member(members, id, api_key)) {
            1nat
        } else {
            0
        },
        accessible(workspaces, members, api_key, id) is Some <==> access_count(workspaces, members, id, api_key) == 1,
{
    let set = accessed(workspaces, members, id, api_key);
    let cells = of_owner(id, api_key);
    assert(cells[0] == ("id"@, SqlV::Text(id)) && cells[1] == ("owner_api_key"@, SqlV::Text(api_key)));
    if workspaces.contains_key(id) {
        assert(cell(workspaces[id], "id"@) == SqlV::Text(id));
        assert(holds(workspaces[id], cells) == (cell(workspaces[id], "owner_api_key"@) == SqlV::Text(api_key)));
        assert(is_owner(workspaces, id, api_key) == holds(workspaces[id], cells)) by {
            if holds(workspaces[id], cells) {
                assert(matching(workspaces, cells).contains(id));
            }
            if is_owner(workspaces, id, api_key) {
                let k = choose|k: Seq<char>| matching(workspaces, cells).contains(k);
                assert(cell(workspaces[k], "id"@) == SqlV::Text(k));
            }
        }
        if shares(workspaces[id], members, api_key) {
            assert(set =~= set![id]);
        } else {
            assert(set =~= Set::empty());
        }
    } else {
        assert(set =~= Set::empty());
    }
}

/// A key that was added to a workspace is a member and can access it. To add it again
/// changes nothing, and what others can access is unchanged.
pub proof fn law_added_member_can_access(
    workspaces: Rows,
    members: Rows,
    id: Seq<char>,
    api_key: Seq<char>,
    now: Seq<char>,
    number: Seq<char>,
    again: Seq<char>,
    later: Seq<char>,
)
    requires
        keyed(workspaces, "id"@),
        workspaces.contains_key(id),
        !members.contains_key(number),
    ensures
        ({
            let after = added(member_add(id, api_key, now), members, number);
            &&& is_member(after, id, api_key)
            &&& access_count(workspaces, after, id, api_key) == 1
            &&& accessible(workspaces, after, api_key, id) == Some(projected(workspaces[id], workspace_columns()))
            &&& added(member_add(id, api_key, later), after, again) == after
            &&& forall|i: Seq<char>, k: Seq<char>| #![trigger is_member(after, i, k)]
                (i, k) != (id, api_key) ==> is_member(after, i, k) == is_member(members, i, k)
            &&& forall|i: Seq<char>, k: Seq<char>| #![trigger access_count(workspaces, after, i, k)]
                (i, k) != (id, api_key) ==> access_count(workspaces, after, i, k) == access_count(
                    workspaces,
                    members,
                    i,
                    k,
                )
        }),
{
    lemma_new_member(id, api_key, now);
    let after = added(member_add(id, api_key, now), members, number);
    let row = row_with(Map::empty(), member_cells(id, api_key, now));
    assert(member_cells(id, api_key, now).take(2) =~= membership(id, api_key));
    assert(member_cells(id, api_key, later).take(2) =~= membership(id, api_key));
    lemma_membership(row, id, api_key);
    if !is_member(members, id, api_key) {
        assert(after == members.insert(number, row));
        assert(matching(after, membership(id, api_key)).contains(number));
    }
    assert forall|i: Seq<char>, k: Seq<char>| #![trigger is_member(after, i, k)] (i, k) != (
        id,
        api_key,
    ) implies is_member(after, i, k) == is_member(members, i, k) by {
        lemma_membership(row, i, k);
        if !is_member(members, id, api_key) {
            assert(matching(after, membership(i, k)) =~= matching(members, membership(i, k)));
        }
    }
    law_access_is_of_owners_and_members(workspaces, after, id, api_key);
    assert forall|i: Seq<char>, k: Seq<char>| #![trigger access_count(workspaces, after, i, k)] (i, k) != (
        id,
        api_key,
    ) implies access_count(workspaces, after, i, k) == access_count(workspaces, members, i, k) by {
        law_access_is_of_owners_and_members(workspaces, after, i, k);
        law_access_is_of_owners_and_members(workspaces, members, i, k);
        assert(is_member(after, i, k) == is_member(members, i, k));
    }
}

/// A key that was removed from a workspace and does not own it cannot access it any
/// more. A removal deletes something if and only if the key is a member and not the
/// owner; the owner's access stays. What others can access is unchanged.
pub proof fn law_removed_member_cannot_access(workspaces: Rows, members: Rows, id: Seq<char>, api_key: Seq<char>)
    requires
        keyed(workspaces, "id"@),
        workspaces.contains_key(id),
    ensures
        ({
            let after = members.remove_keys(kicked(workspaces, members, id, api_key));
            &&& (exists|m: Seq<char>| kicked(workspaces, members, id, api_key).contains(m)) == (is_member(
                members,
                id,
                api_key,
            ) && !is_owner(workspaces, id, api_key))
            &&& access_count(workspaces, after, id, api_key) == if is_owner(workspaces, id, api_key) {
                1nat
            } else {
                0
            }
            &&& is_owner(workspaces, id, api_key) ==> after == members
            &&& forall|i: Seq<char>, k: Seq<char>| #![trigger is_member(after, i, k)]
                (i, k) != (id, api_key) ==> is_member(after, i, k) == is_member(members, i, k)
            &&& forall|i: Seq<char>, k: Seq<char>| #![trigger access_count(workspaces, after, i, k)]
                (i, k) != (id, api_key) ==> access_count(workspaces, after, i, k) == access_count(
                    workspaces,
                    members,
                    i,
                    k,
                )
        }),
{
    let gone = kicked(workspaces, members, id, api_key);
    let after = members.remove_keys(gone);
    if is_owner(workspaces, id, api_key) {
        assert(after =~= members);
    } else {
        assert(!is_member(after, id, api_key)) by {
            if is_member(after, id, api_key) {
                let m = choose|m: Seq<char>| matching(after, membership(id, api_key)).contains(m);
                assert(gone.contains(m));
            }
        }
    }
    assert forall|i: Seq<char>, k: Seq<char>| #![trigger is_member(after, i, k)] (i, k) != (
        id,
        api_key,
    ) implies is_member(after, i, k) == is_member(members, i, k) by {
        assert forall|m: Seq<char>| gone.contains(m) implies !holds(members[m], membership(i, k)) by {
            lemma_membership(members[m], id, api_key);
            lemma_membership(members[m], i, k);
        }
        assert(matching(after, membership(i, k)) =~= matching(members, membership(i, k)));
    }
    law_access_is_of_owners_and_members(workspaces, after, id, api_key);
    assert forall|i: Seq<char>, k: Seq<char>| #![trigger access_count(workspaces, after, i, k)] (i, k) != (
        id,
        api_key,
    ) implies access_count(workspaces, after, i, k) == access_count(workspaces, members, i, k) by {
        law_access_is_of_owners_and_members(workspaces, after, i, k);
        law_access_is_of_owners_and_members(workspaces, members, i, k);
        assert(is_member(after, i, k) == is_member(members, i, k));
    }
}

// ── Subscriptions ───────────────────────────────────────

/// After a subscription was stored, whether or not there was one before, what is found
/// for its key is its customer and its status. It is found by its customer too, and
/// what is found for other keys is unchanged.
pub proof fn law_stored_subscription_is_found(
    rows: Rows,
    api_key: Seq<char>,
    stripe_customer_id: Seq<char>,
    subscription_id: Option<Seq<char>>,
    plan: Seq<char>,
    status: Seq<char>,
)
    requires
        keyed(rows, "api_key"@),
    ensures
        ({
            let after = effect(customer_upsert(api_key, stripe_customer_id, subscription_id, plan, status), rows);
            let row = seq![SqlV::Text(api_key), SqlV::Text(stripe_customer_id), SqlV::Text(status)];
            &&& looked_up(customer_of(api_key), after, api_key) == Some(row)
            &&& looked_up(customer_by_id(stripe_customer_id), after, api_key) == Some(row)
            &&& forall|q: QueryV, other: Seq<char>| #![trigger looked_up(q, rows, other)]
                other != api_key ==> looked_up(q, after, other) == looked_up(q, rows, other)
            &&& forall|other: Seq<char>|
                other != api_key ==> #[trigger] looked_up(customer_of(api_key), after, other) is None
            &&& keyed(after, "api_key"@)
        }),
{
    reveal_strlit("api_key");
    reveal_strlit("stripe_customer_id");
    reveal_strlit("subscription_id");
    reveal_strlit("plan");
    reveal_strlit("status");
    assert("api_key"@.len() == 7 && "stripe_customer_id"@.len() == 18 && "subscription_id"@.len() == 15 && "plan"@.len()
        == 4 && "status"@.len() == 6);
    let cells = customer_cells(api_key, stripe_customer_id, subscription_id, plan, status);
    let after = effect(customer_upsert(api_key, stripe_customer_id, subscription_id, plan, status), rows);
    if rows.contains_key(api_key) {
        let rest = cells.skip(1);
        lemma_untouched(rows[api_key], rest, "api_key"@);
        lemma_set(rows[api_key], rest, 0);
        lemma_set(rows[api_key], rest, 3);
    } else {
        lemma_set(Map::empty(), cells, 0);
        lemma_set(Map::empty(), cells, 1);
        lemma_set(Map::empty(), cells, 4);
    }
    let row = after[api_key];
    assert(projected(row, customer_columns()) =~= seq![
        SqlV::Text(api_key),
        SqlV::Text(stripe_customer_id),
        SqlV::Text(status),
    ]);
    assert(holds(row, of_key(api_key)));
    assert(holds(row, customer_by_id(stripe_customer_id)->Select_cells));
    assert forall|other: Seq<char>| other != api_key implies #[trigger] looked_up(
        customer_of(api_key),
        after,
        other,
    ) is None by {
        if after.contains_key(other) {
            assert(rows.contains_key(other));
            assert(of_key(api_key)[0] == ("api_key"@, SqlV::Text(api_key)));
        }
    }
}

} // verus!
