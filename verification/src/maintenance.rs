//! What is kept of sessions that expire, and which checkpoints are deleted.
use vstd::prelude::*;
use crate::billing::{lemma_plan_name, limits_of, plan_of, Plan, PlanLimits};
use crate::clock::{rfc3339, rfc3339_text, Timestamp};
use crate::ident::{short_name, short_name_text};
use crate::sandbox::{Session, SessionV};
use crate::text::{maybe, maybe_owned, same};

verus! {

/// Seconds between two looks for expired sessions.
pub const GRACE_INTERVAL_SECS: u64 = 30;

/// Seconds between two looks for expired checkpoints.
pub const RETENTION_INTERVAL_SECS: u64 = 3600;

// ── Expired sessions ────────────────────────────────────

/// The tier of a key, free where the key is unknown.
pub open spec fn tier_or_free(tier: Option<Seq<char>>) -> Seq<char> {
    match tier {
        Some(t) => t,
        None => "free"@,
    }
}

/// Whether the state of an expired session is saved: it was used, it has an
/// owner, and the owner's plan has storage left.
pub open spec fn saves(s: SessionV, tier: Option<Seq<char>>, used: u64) -> bool {
    s.calls_used > 0 && s.api_key is Some && used < limits_of(plan_of(tier_or_free(tier))).checkpoint_storage_bytes
}

/// Whether the state of an expired session is saved, given the tier of its
/// owner, where it is known, and the storage that the owner uses.
pub fn should_save(session: &Session, tier: Option<&str>, used: u64) -> (r: bool)
    ensures
        r == saves(session@, maybe(tier), used),
{
    if session.calls_used() == 0 || session.api_key.is_none() {
        return false;
    }
    let limits: PlanLimits = match tier {
        Some(t) => PlanLimits::for_tier(t),
        None => PlanLimits::for_tier("free"),
    };
    used < limits.checkpoint_storage_bytes
}

/// Whether a saved state is recorded: it was saved without an error and is not
/// empty.
pub fn should_record(size: u64, error: &Option<String>) -> (r: bool)
    ensures
        r == (error is None && size > 0),
{
    error.is_none() && size > 0
}

/// The name under which the state of an expired session is recorded.
pub fn autosave_name(session_id: &str) -> (r: String)
    requires
        session_id@.len() >= 8,
    ensures
        r@ == short_name_text("autosave-"@, session_id@),
{
    short_name("autosave-", session_id)
}

/// Law: a session that nobody used or that has no owner leaves nothing behind.
pub proof fn law_unused_sessions_leave_nothing(s: SessionV, tier: Option<Seq<char>>, used: u64)
    requires
        s.calls_used == 0 || s.api_key is None,
    ensures
        !saves(s, tier, used),
{
}

// ── Expired checkpoints ─────────────────────────────────

/// Whether it is time to look for expired checkpoints.
pub fn retention_due(elapsed_secs: u64) -> (r: bool)
    ensures
        r == (elapsed_secs >= 3600),
{
    elapsed_secs >= RETENTION_INTERVAL_SECS
}

/// A checkpoint that is older than the retention of a plan, with the tier of its
/// owner, where the owner is known.
pub struct ExpiredCheckpoint {
    pub id: String,
    pub path: String,
    pub tier: Option<String>,
}

/// Whether a tier is one of those that a plan goes by. A tier that no plan goes
/// by is left alone.
pub open spec fn goes_by(plan: Plan, tier: Seq<char>) -> bool {
    match plan {
        Plan::Hobby => tier == "free"@ || tier == "hobby"@,
        Plan::Builder => tier == "pro"@ || tier == "builder"@,
        Plan::Scale => tier == "enterprise"@ || tier == "scale"@,
    }
}

/// Whether a checkpoint older than the retention of a plan is deleted: its owner
/// is on that plan.
pub open spec fn doomed(plan: Plan, c: ExpiredCheckpoint) -> bool {
    goes_by(plan, tier_or_free(maybe_owned(c.tier)))
}

fn is_doomed(plan: &Plan, c: &ExpiredCheckpoint) -> (r: bool)
    ensures
        r == doomed(*plan, *c),
{
    let tier: &str = match &c.tier {
        Some(t) => t.as_str(),
        None => "free",
    };
    match plan {
        Plan::Hobby => same(tier, "free") || same(tier, "hobby"),
        Plan::Builder => same(tier, "pro") || same(tier, "builder"),
        Plan::Scale => same(tier, "enterprise") || same(tier, "scale"),
    }
}

/// The days for which a plan keeps a checkpoint.
pub fn retention_days(plan: &Plan) -> (r: u32)
    ensures
        r == limits_of(*plan).checkpoint_retention_days,
{
    proof {
        lemma_plan_name(*plan);
    }
    match plan {
        Plan::Hobby => PlanLimits::for_tier("hobby").checkpoint_retention_days,
        Plan::Builder => PlanLimits::for_tier("builder").checkpoint_retention_days,
        Plan::Scale => PlanLimits::for_tier("scale").checkpoint_retention_days,
    }
}

/// The time before which a checkpoint of a plan has outlived its retention, as
/// stored times are written.
pub fn retention_cutoff(plan: &Plan, now: Timestamp) -> (r: String)
    requires
        now.valid(),
        now.secs >= 0,
    ensures
        r@ == rfc3339_text((now.secs - limits_of(*plan).checkpoint_retention_days * 86_400) as i64, now.nanos),
{
    let days: u32 = retention_days(plan);
    rfc3339(Timestamp { secs: now.secs - days as i64 * 86_400, nanos: now.nanos })
}

/// Of the checkpoints that are older than the retention of a plan, those that
/// are deleted.
pub fn run_retention_cleanup(plan: &Plan, list: Vec<ExpiredCheckpoint>) -> (r: Vec<ExpiredCheckpoint>)
    ensures
        r@ == list@.filter(|c: ExpiredCheckpoint| doomed(*plan, c)),
{
    let ghost all = list@;
    let ghost p = |c: ExpiredCheckpoint| doomed(*plan, c);
    let mut r: Vec<ExpiredCheckpoint> = Vec::new();
    assert(all.take(0).filter(p) =~= Seq::<ExpiredCheckpoint>::empty());
    for c in it: list
        invariant
            it.seq() == all,
            p == (|c: ExpiredCheckpoint| doomed(*plan, c)),
            r@ == all.take(it.index() as int).filter(p),
    {
        proof {
            assert(all.take(it.index() + 1) =~= all.take(it.index() as int).push(c));
            all.take(it.index() as int).lemma_filter_push(c, p);
        }
        if is_doomed(plan, &c) {
            r.push(c);
        }
    }
    assert(all.take(all.len() as int) =~= all);
    r
}

/// Law: a checkpoint that has outlived the retention of a plan is deleted only
/// where its owner is on that plan.
pub proof fn law_retention_of_the_owner(plan: Plan, c: ExpiredCheckpoint)
    requires
        doomed(plan, c),
    ensures
        plan_of(tier_or_free(maybe_owned(c.tier))) == plan,
{
    reveal_strlit("free");
    reveal_strlit("hobby");
    reveal_strlit("pro");
    reveal_strlit("builder");
    reveal_strlit("enterprise");
    reveal_strlit("scale");
    assert("free"@.len() == 4 && "hobby"@.len() == 5 && "pro"@.len() == 3 && "builder"@.len() == 7 && "enterprise"@.len()
        == 10 && "scale"@.len() == 5);
    assert("hobby"@[0] == 'h' && "scale"@[0] == 's');
}

} // verus!
