//! Who may pass: admin and API keys, the per-minute rate limit and the daily
//! credit quota.
//!
//! A request is taken through three decisions: [`enter`] on its path and
//! headers, [`identify`] on the key that it carries, and [`spend`] on the
//! credits that the key has used. Between them the caller looks the key and the
//! credits up.
use vstd::prelude::*;
use vstd::string::*;
use std::collections::VecDeque;
use crate::billing::{limits_of, plan_name, plan_of, PlanLimits};
use crate::db::ApiKeyInfo;
use crate::http::{error_json, error_object, Response, ResponseV, FORBIDDEN, SERVICE_UNAVAILABLE, TOO_MANY_REQUESTS, UNAUTHORIZED};
use crate::json::{Fields, JsonV};
use crate::store::{lists_in, new_lists, no_lists, put_list, take_list};
use crate::text::{ends_with, maybe, maybe_owned, same, starts_with};

verus! {

// ── The sliding window ──────────────────────────────────

/// The length of the rate window, in nanoseconds.
pub const WINDOW_NS: u64 = 60_000_000_000;

/// Whether a request at `t` is more than a window before `now`.
pub open spec fn stale(t: u64, now: u64) -> bool {
    now - t > WINDOW_NS
}

/// A window without the stale requests at its front.
pub open spec fn live(window: Seq<u64>, now: u64) -> Seq<u64>
    decreases window.len(),
{
    if window.len() > 0 && stale(window[0], now) {
        live(window.skip(1), now)
    } else {
        window
    }
}

/// Whether one more request fits at `now`.
pub open spec fn admits(window: Seq<u64>, limit: u32, now: u64) -> bool {
    live(window, now).len() < limit
}

/// The window after a request at `now`, admitted or not.
pub open spec fn window_after(window: Seq<u64>, limit: u32, now: u64) -> Seq<u64> {
    if admits(window, limit, now) {
        live(window, now).push(now)
    } else {
        live(window, now)
    }
}

/// The window of a key, empty where the key is new.
pub open spec fn window_of(windows: Map<Seq<char>, Seq<u64>>, key: Seq<char>) -> Seq<u64> {
    if windows.contains_key(key) {
        windows[key]
    } else {
        Seq::empty()
    }
}

/// The recent requests of each API key.
pub struct RateLimiter {
    windows: dashmap::DashMap<String, VecDeque<u64>>,
}

impl View for RateLimiter {
    type V = Map<Seq<char>, Seq<u64>>;

    closed spec fn view(&self) -> Map<Seq<char>, Seq<u64>> {
        lists_in(self.windows)
    }
}

impl RateLimiter {
    /// A limiter that has seen no request.
    pub fn new() -> (r: RateLimiter)
        ensures
            r@ == no_lists(),
    {
        RateLimiter { windows: new_lists() }
    }

    /// Counts a request of `key` at `now` nanoseconds and says whether it is
    /// within `limit` requests per window.
    pub fn check(&mut self, key: &str, limit: u32, now: u64) -> (r: bool)
        ensures
            r == admits(window_of(old(self)@, key@), limit, now),
            final(self)@ == old(self)@.insert(key@, window_after(window_of(old(self)@, key@), limit, now)),
    {
        let ghost before = window_of(self@, key@);
        let ghost all = self@;
        let mut window: VecDeque<u64> = match take_list(&mut self.windows, key) {
            Some(w) => w,
            None => VecDeque::new(),
        };
        assert(window@ =~= before);
        while window.len() > 0 && now.saturating_sub(window[0]) > WINDOW_NS
            invariant
                live(window@, now) == live(before, now),
            decreases window@.len(),
        {
            let ghost w = window@;
            let _ = window.pop_front();
            assert(window@ =~= w.skip(1));
        }
        assert(window@ == live(before, now));
        let fits: bool = (window.len() as u64) < limit as u64;
        if fits {
            window.push_back(now);
        }
        put_list(&mut self.windows, key.to_owned(), window);
        assert(self@ =~= all.insert(key@, window_after(before, limit, now)));
        fits
    }
}

/// The window of one key and the requests admitted, after requests at `times`
/// under one limit.
pub open spec fn history(limit: u32, times: Seq<u64>) -> (Seq<u64>, Seq<u64>)
    decreases times.len(),
{
    if times.len() == 0 {
        (Seq::empty(), Seq::empty())
    } else {
        let (window, admitted) = history(limit, times.drop_last());
        let now = times.last();
        (
            window_after(window, limit, now),
            if admits(window, limit, now) {
                admitted.push(now)
            } else {
                admitted
            },
        )
    }
}

/// Whether times come in order.
pub open spec fn in_order(times: Seq<u64>) -> bool {
    forall|i: int, j: int| 0 <= i <= j < times.len() ==> times[i] <= times[j]
}

/// The oldest request of a window that is not stale, counted from its front.
proof fn lemma_live_is_suffix(window: Seq<u64>, now: u64) -> (k: int)
    ensures
        0 <= k <= window.len(),
        live(window, now) == window.skip(k),
        forall|i: int| 0 <= i < k ==> stale(#[trigger] window[i], now),
        k < window.len() ==> !stale(window[k], now),
    decreases window.len(),
{
    if window.len() > 0 && stale(window[0], now) {
        let rest = window.skip(1);
        let k = lemma_live_is_suffix(rest, now);
        assert(rest.skip(k) =~= window.skip(k + 1));
        assert forall|i: int| 0 <= i < k + 1 implies stale(#[trigger] window[i], now) by {
            if i > 0 {
                assert(window[i] == rest[i - 1]);
            }
        }
        if k + 1 < window.len() {
            assert(window[k + 1] == rest[k]);
        }
        k + 1
    } else {
        assert(window.skip(0) =~= window);
        0
    }
}

/// The window is the tail of what was admitted, and all that has left it is
/// stale.
proof fn lemma_history(limit: u32, times: Seq<u64>) -> (k: int)
    requires
        in_order(times),
    ensures
        ({
            let (window, admitted) = history(limit, times);
            &&& 0 <= k <= admitted.len() <= times.len()
            &&& window == admitted.skip(k)
            &&& in_order(admitted)
            &&& times.len() > 0 ==> forall|i: int| 0 <= i < admitted.len() ==> #[trigger] admitted[i] <= times.last()
            &&& times.len() > 0 ==> forall|i: int| 0 <= i < k ==> stale(#[trigger] admitted[i], times.last())
            &&& times.len() == 0 ==> k == 0
            &&& forall|i: int, j: int|
                0 <= i && i + limit <= j < admitted.len() ==> stale(#[trigger] admitted[i], #[trigger] admitted[j])
        }),
    decreases times.len(),
{
    let (window, admitted) = history(limit, times);
    if times.len() == 0 {
        assert(window =~= admitted.skip(0));
        0
    } else {
        let earlier = times.drop_last();
        let now = times.last();
        assert(in_order(earlier));
        let (w, a) = history(limit, earlier);
        let k = lemma_history(limit, earlier);
        let d = lemma_live_is_suffix(w, now);
        assert(live(w, now) =~= a.skip(k + d));
        if earlier.len() > 0 {
            assert(earlier.last() <= now);
        }
        assert forall|i: int| 0 <= i < k + d implies stale(#[trigger] a[i], now) by {
            if i >= k {
                assert(a[i] == w[i - k]);
            }
        }
        if admits(w, limit, now) {
            assert(admitted == a.push(now));
            assert(window =~= admitted.skip(k + d));
            assert forall|i: int, j: int| 0 <= i && i + limit <= j < admitted.len() implies stale(
                #[trigger] admitted[i],
                #[trigger] admitted[j],
            ) by {
                if j == a.len() {
                    assert(i < k + d);
                    assert(admitted[i] == a[i]);
                } else {
                    assert(admitted[i] == a[i] && admitted[j] == a[j]);
                }
            }
        }
        k + d
    }
}

/// Law: under a limit of `limit` requests per window, of any admitted requests
/// the `limit`-th after another comes more than a window later. So no window of
/// 60 seconds holds more than `limit` admitted requests.
pub proof fn law_rate_limit(limit: u32, times: Seq<u64>, i: int, j: int)
    requires
        in_order(times),
        0 <= i,
        i + limit <= j < history(limit, times).1.len(),
    ensures
        history(limit, times).1[j] - history(limit, times).1[i] > WINDOW_NS,
{
    let k = lemma_history(limit, times);
    let admitted = history(limit, times).1;
    assert(stale(admitted[i], admitted[j]));
}

/// Law: a request is refused only where as many requests as the limit allows
/// were admitted within the window that ends with it.
pub proof fn law_refused_only_when_full(limit: u32, times: Seq<u64>, now: u64)
    requires
        in_order(times.push(now)),
        !admits(history(limit, times).0, limit, now),
    ensures
        history(limit, times).1.len() >= limit,
        forall|i: int|
            history(limit, times).1.len() - limit <= i < history(limit, times).1.len() ==> now - #[trigger] history(
                limit,
                times,
            ).1[i] <= WINDOW_NS,
{
    let (window, admitted) = history(limit, times);
    assert(in_order(times)) by {
        assert forall|i: int, j: int| 0 <= i <= j < times.len() implies times[i] <= times[j] by {
            assert(times.push(now)[i] <= times.push(now)[j]);
        }
    }
    let k = lemma_history(limit, times);
    let d = lemma_live_is_suffix(window, now);
    assert forall|i: int| admitted.len() - limit <= i < admitted.len() implies now - #[trigger] admitted[i]
        <= WINDOW_NS by {
        let first = k + d;
        assert(live(window, now).len() == admitted.len() - first);
        assert(i >= first);
        assert(admitted[first] == window[d]);
        assert(admitted[first] <= admitted[i]);
    }
}

// ── Decisions ───────────────────────────────────────────

/// How a path is guarded.
pub enum RouteClass {
    Public,
    Admin,
    Keyed,
}

/// How a path is guarded: the health check, the Stripe webhook, the discovery
/// files and the GitHub login are public, and what lies under `/v1/admin/` is for
/// the administrator.
pub open spec fn route_class(path: Seq<char>) -> RouteClass {
    if path == "/v1/health"@ || path == "/v1/billing/webhook"@ || "/v1/cuntext/"@.is_prefix_of(path) || path
        == "/v1/llms.cuntext"@ || "/v1/auth/"@.is_prefix_of(path) {
        RouteClass::Public
    } else if "/v1/admin/"@.is_prefix_of(path) {
        RouteClass::Admin
    } else {
        RouteClass::Keyed
    }
}

fn class_of(path: &str) -> (r: RouteClass)
    ensures
        r == route_class(path@),
{
    if same(path, "/v1/health") || same(path, "/v1/billing/webhook") || starts_with(path, "/v1/cuntext/") || same(
        path,
        "/v1/llms.cuntext",
    ) || starts_with(path, "/v1/auth/") {
        RouteClass::Public
    } else if starts_with(path, "/v1/admin/") {
        RouteClass::Admin
    } else {
        RouteClass::Keyed
    }
}

/// Whether a path spends credits.
pub open spec fn spends(path: Seq<char>) -> bool {
    "/execute"@.is_suffix_of(path) || "/execute/async"@.is_suffix_of(path) || "/execute/stream"@.is_suffix_of(path)
        || path == "/v1/swarm"@
}

fn is_compute(path: &str) -> (r: bool)
    ensures
        r == spends(path@),
{
    ends_with(path, "/execute") || ends_with(path, "/execute/async") || ends_with(path, "/execute/stream") || same(
        path,
        "/v1/swarm",
    )
}

/// The key that a request carries: the one in its `x-api-key` header or, for the
/// tool endpoint, whose clients are configured by an address alone, the one in
/// its query.
pub open spec fn carried_key(path: Seq<char>, header: Option<Seq<char>>, query: Option<Seq<char>>) -> Option<Seq<char>> {
    match header {
        Some(k) => Some(k),
        None => if path == "/v1/mcp"@ {
            query
        } else {
            None
        },
    }
}

/// The key that a request carries.
pub fn request_key(path: &str, header: Option<String>, query: Option<String>) -> (r: Option<String>)
    ensures
        maybe_owned(r) == carried_key(path@, maybe_owned(header), maybe_owned(query)),
{
    match header {
        Some(k) => Some(k),
        None => if same(path, "/v1/mcp") {
            query
        } else {
            None
        },
    }
}

/// What the path and headers of a request lead to.
pub enum Entry {
    Pass,
    Deny(Response),
    /// The request carries this API key, which is to be looked up.
    Key(String),
}

/// What the path and headers of a request lead to, as mathematics.
pub enum EntryV {
    Pass,
    Deny(ResponseV),
    Key(Seq<char>),
}

impl View for Entry {
    type V = EntryV;

    open spec fn view(&self) -> EntryV {
        match self {
            Entry::Pass => EntryV::Pass,
            Entry::Deny(r) => EntryV::Deny(r@),
            Entry::Key(k) => EntryV::Key(k@),
        }
    }
}

/// The first decision: public paths pass, admin paths pass with the configured
/// admin key, and every other path needs an API key.
pub open spec fn entry(
    path: Seq<char>,
    admin_key: Seq<char>,
    admin_header: Option<Seq<char>>,
    api_key: Option<Seq<char>>,
) -> EntryV {
    match route_class(path) {
        RouteClass::Public => EntryV::Pass,
        RouteClass::Admin => if admin_key.len() == 0 {
            EntryV::Deny(ResponseV::Json(SERVICE_UNAVAILABLE, error_object("Admin access not configured"@)))
        } else if admin_header == Some(admin_key) {
            EntryV::Pass
        } else {
            EntryV::Deny(ResponseV::Json(FORBIDDEN, error_object("Invalid admin key"@)))
        },
        RouteClass::Keyed => match api_key {
            Some(k) => EntryV::Key(k),
            None => EntryV::Deny(ResponseV::Json(UNAUTHORIZED, error_object("Missing x-api-key header"@))),
        },
    }
}

/// The first decision, on the path, the configured admin key (empty where none
/// is), the admin key of the request and the API key of the request.
pub fn enter(path: &str, admin_key: &str, admin_header: Option<&str>, api_key: Option<String>) -> (r: Entry)
    ensures
        r@ == entry(path@, admin_key@, maybe(admin_header), maybe_owned(api_key)),
{
    match class_of(path) {
        RouteClass::Public => Entry::Pass,
        RouteClass::Admin => {
            if admin_key.is_empty() {
                return Entry::Deny(Response::Json(SERVICE_UNAVAILABLE, error_json("Admin access not configured")));
            }
            match admin_header {
                Some(h) => if same(h, admin_key) {
                    Entry::Pass
                } else {
                    Entry::Deny(Response::Json(FORBIDDEN, error_json("Invalid admin key")))
                },
                None => Entry::Deny(Response::Json(FORBIDDEN, error_json("Invalid admin key"))),
            }
        },
        RouteClass::Keyed => match api_key {
            Some(k) => Entry::Key(k),
            None => Entry::Deny(Response::Json(UNAUTHORIZED, error_json("Missing x-api-key header"))),
        },
    }
}

/// What a key leads to.
pub enum Verdict {
    Pass,
    Deny(Response),
    /// The request spends credits of a limited plan; those used are to be
    /// looked up.
    Spend,
}

/// What a key leads to, as mathematics.
pub enum VerdictV {
    Pass,
    Deny(ResponseV),
    Spend,
}

impl View for Verdict {
    type V = VerdictV;

    open spec fn view(&self) -> VerdictV {
        match self {
            Verdict::Pass => VerdictV::Pass,
            Verdict::Deny(r) => VerdictV::Deny(r@),
            Verdict::Spend => VerdictV::Spend,
        }
    }
}

/// The answer to a request over the rate limit.
pub open spec fn rate_limited(tier: Seq<char>) -> ResponseV {
    ResponseV::Json(
        TOO_MANY_REQUESTS,
        JsonV::Obj(
            map![
                "error"@ => JsonV::Str("Rate limit exceeded"@),
                "plan"@ => JsonV::Str(tier),
                "limit"@ => JsonV::Int(limits_of(plan_of(tier)).requests_per_minute as int),
                "window"@ => JsonV::Str("60s"@),
                "upgrade"@ => JsonV::Str("https://compute.deep-ml.com/billing"@),
            ],
        ),
    )
}

/// The second decision, for a known key: the rate limit of its plan, and whether
/// credits are to be checked.
pub open spec fn verdict(path: Seq<char>, tier: Seq<char>, window: Seq<u64>, now: u64) -> VerdictV {
    let limits = limits_of(plan_of(tier));
    if !admits(window, limits.requests_per_minute, now) {
        VerdictV::Deny(rate_limited(tier))
    } else if spends(path) && limits.credits_per_day != u32::MAX {
        VerdictV::Spend
    } else {
        VerdictV::Pass
    }
}

/// The answer to a request with a key that is not known.
pub open spec fn unknown_key() -> ResponseV {
    ResponseV::Json(UNAUTHORIZED, error_object("Invalid API key"@))
}

/// The second decision, on what is known of the key that the request carries.
/// An unknown key is refused and leaves no trace.
pub fn identify(limiter: &mut RateLimiter, path: &str, key: &str, info: Option<&ApiKeyInfo>, now: u64) -> (r: Verdict)
    ensures
        match info {
            None => {
                &&& r@ == VerdictV::Deny(unknown_key())
                &&& final(limiter)@ == old(limiter)@
            },
            Some(i) => {
                &&& r@ == verdict(path@, i.tier@, window_of(old(limiter)@, key@), now)
                &&& final(limiter)@ == old(limiter)@.insert(
                    key@,
                    window_after(
                        window_of(old(limiter)@, key@),
                        limits_of(plan_of(i.tier@)).requests_per_minute,
                        now,
                    ),
                )
            },
        },
{
    match info {
        None => Verdict::Deny(Response::Json(UNAUTHORIZED, error_json("Invalid API key"))),
        Some(i) => {
            let limits: PlanLimits = PlanLimits::for_tier(i.tier.as_str());
            if !limiter.check(key, limits.requests_per_minute, now) {
                let mut f: Fields = Fields::new();
                f.put_text("error", "Rate limit exceeded");
                f.put_text("plan", i.tier.as_str());
                f.put_u64("limit", limits.requests_per_minute as u64);
                f.put_text("window", "60s");
                f.put_text("upgrade", "https://compute.deep-ml.com/billing");
                return Verdict::Deny(Response::Json(TOO_MANY_REQUESTS, f.done()));
            }
            if is_compute(path) && !limits.is_unlimited(limits.credits_per_day) {
                Verdict::Spend
            } else {
                Verdict::Pass
            }
        },
    }
}

/// The answer to a request without credits left.
pub open spec fn out_of_credits(tier: Seq<char>, used: u32) -> ResponseV {
    ResponseV::Json(
        TOO_MANY_REQUESTS,
        JsonV::Obj(
            map![
                "error"@ => JsonV::Str("Daily credit limit reached"@),
                "plan"@ => JsonV::Str(plan_name(plan_of(tier))),
                "credits_used"@ => JsonV::Int(used as int),
                "credits_limit"@ => JsonV::Int(limits_of(plan_of(tier)).credits_per_day as int),
                "resets"@ => JsonV::Str("midnight UTC"@),
                "upgrade"@ => JsonV::Str("https://compute.deep-ml.com/dashboard"@),
            ],
        ),
    )
}

/// The third decision: a request that spends credits passes while the key has
/// used fewer than its plan gives in a day.
pub open spec fn spending(tier: Seq<char>, credits_used: u32) -> Option<ResponseV> {
    if credits_used >= limits_of(plan_of(tier)).credits_per_day {
        Some(out_of_credits(tier, credits_used))
    } else {
        None
    }
}

/// The third decision, on the credits used today. `None` lets the request pass.
pub fn spend(tier: &str, credits_used: u32) -> (r: Option<Response>)
    ensures
        match r {
            Some(x) => Some(x@) == spending(tier@, credits_used),
            None => spending(tier@, credits_used) is None,
        },
{
    let limits: PlanLimits = PlanLimits::for_tier(tier);
    if credits_used >= limits.credits_per_day {
        let mut f: Fields = Fields::new();
        f.put_text("error", "Daily credit limit reached");
        f.put_text("plan", PlanLimits::tier_display(tier));
        f.put_u64("credits_used", credits_used as u64);
        f.put_u64("credits_limit", limits.credits_per_day as u64);
        f.put_text("resets", "midnight UTC");
        f.put_text("upgrade", "https://compute.deep-ml.com/dashboard");
        Some(Response::Json(TOO_MANY_REQUESTS, f.done()))
    } else {
        None
    }
}

/// The answer that keeps a request out, through all three decisions: on its path
/// and keys, on the plan of its API key (none where the key is unknown) with the
/// window of that key, and on the credits that the key has used. `None` lets the
/// request pass.
pub open spec fn refusal(
    path: Seq<char>,
    admin_key: Seq<char>,
    admin_header: Option<Seq<char>>,
    api_key: Option<Seq<char>>,
    tier: Option<Seq<char>>,
    window: Seq<u64>,
    now: u64,
    credits_used: u32,
) -> Option<ResponseV> {
    match entry(path, admin_key, admin_header, api_key) {
        EntryV::Pass => None,
        EntryV::Deny(r) => Some(r),
        EntryV::Key(_) => match tier {
            None => Some(unknown_key()),
            Some(t) => match verdict(path, t, window, now) {
                VerdictV::Pass => None,
                VerdictV::Deny(r) => Some(r),
                VerdictV::Spend => spending(t, credits_used),
            },
        },
    }
}

/// Law: a request passes if and only if its path is public, or it presents the
/// configured admin key for an admin path, or it carries a known API key for any
/// other path, is within the rate of the key's plan and, where it spends
/// credits, comes before the plan's credits of the day are used up.
pub proof fn law_who_passes(
    path: Seq<char>,
    admin_key: Seq<char>,
    admin_header: Option<Seq<char>>,
    api_key: Option<Seq<char>>,
    tier: Option<Seq<char>>,
    window: Seq<u64>,
    now: u64,
    credits_used: u32,
)
    ensures
        refusal(path, admin_key, admin_header, api_key, tier, window, now, credits_used) is None <==> match route_class(
            path,
        ) {
            RouteClass::Public => true,
            RouteClass::Admin => admin_key.len() > 0 && admin_header == Some(admin_key),
            RouteClass::Keyed => {
                &&& api_key is Some
                &&& tier is Some
                &&& admits(window, limits_of(plan_of(tier->Some_0)).requests_per_minute, now)
                &&& spends(path) ==> {
                    ||| limits_of(plan_of(tier->Some_0)).credits_per_day == u32::MAX
                    ||| credits_used < limits_of(plan_of(tier->Some_0)).credits_per_day
                }
            },
        },
{
}

/// Law: no path is guarded by the admin key and public at once: a request for
/// an admin path passes only where an admin key is configured and presented.
pub proof fn law_admin_needs_its_key(
    path: Seq<char>,
    admin_key: Seq<char>,
    admin_header: Option<Seq<char>>,
    api_key: Option<Seq<char>>,
)
    requires
        "/v1/admin/"@.is_prefix_of(path),
        entry(path, admin_key, admin_header, api_key) is Pass,
    ensures
        admin_key.len() > 0,
        admin_header == Some(admin_key),
{
    reveal_strlit("/v1/health");
    reveal_strlit("/v1/billing/webhook");
    reveal_strlit("/v1/cuntext/");
    reveal_strlit("/v1/llms.cuntext");
    reveal_strlit("/v1/auth/");
    reveal_strlit("/v1/admin/");
    let p = "/v1/admin/"@;
    assert(path[4] == p[4] && path[5] == p[5]);
    assert(p[4] == 'a' && p[5] == 'd');
    assert("/v1/health"@[4] == 'h');
    assert("/v1/billing/webhook"@[4] == 'b');
    assert("/v1/cuntext/"@[4] == 'c');
    assert("/v1/llms.cuntext"@[4] == 'l');
    assert("/v1/auth/"@[5] == 'u');
    if "/v1/cuntext/"@.is_prefix_of(path) {
        assert(path[4] == "/v1/cuntext/"@[4]);
    }
    if "/v1/auth/"@.is_prefix_of(path) {
        assert(path[5] == "/v1/auth/"@[5]);
    }
}

/// Law: the greatest plan is never asked for credits.
pub proof fn law_scale_is_never_out_of_credits(path: Seq<char>, tier: Seq<char>, window: Seq<u64>, now: u64)
    requires
        plan_name(plan_of(tier)) == "scale"@,
    ensures
        !(verdict(path, tier, window, now) is Spend),
{
    reveal_strlit("hobby");
    reveal_strlit("builder");
    reveal_strlit("scale");
    assert("hobby"@[0] == 'h' && "builder"@[0] == 'b' && "scale"@[0] == 's');
}

} // verus!
