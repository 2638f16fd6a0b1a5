//! Laws on who may do what: the entry of a request, a login and a checkout.
use vstd::prelude::*;
use vstd::string::*;
use crate::api::auth::{
    admits, carried_key, entry, live, route_class, spending, spends, unknown_key, verdict, window_after, window_of,
    Entry, EntryV, Verdict, VerdictV,
};
use crate::api::billing::checkout_opened;
use crate::api::checkout::{checkout_step, CheckoutEvent, CheckoutPlan, CheckoutState, CheckoutWork, CheckoutWorkV};
use crate::api::login::{login_step, LoginEvent, LoginPlan, LoginState, LoginStateV, LoginWork, LoginWorkV};
use crate::api::routes::{configured_or, login_answer};
use crate::billing::{
    checkout_form, customer_form, limits_of, plan_name, plan_of, StripeRequest, StripeRequestV,
};
use crate::db::ApiKeyInfo;
use crate::http::{Next, NextV, ResponseV};
use crate::json::{field, Json, JsonV};
use crate::store::no_lists;
use crate::text::maybe_owned;

verus! {

/// Law: the health, the webhook of the billing, the fragments and the login are open to
/// all, what lies below the administration is the administrator's, and everything else
/// needs a key.
pub proof fn law_paths_have_their_class(path: Seq<char>)
    ensures
        path == "/v1/health"@
            || path == "/v1/billing/webhook"@
            || path == "/v1/llms.cuntext"@
            || "/v1/cuntext/"@.is_prefix_of(path)
            || "/v1/auth/"@.is_prefix_of(path)
            <==> route_class(path) is Public,
        "/v1/admin/"@.is_prefix_of(path) <==> route_class(path) is Admin,
{
    reveal_strlit("/v1/health");
    reveal_strlit("/v1/billing/webhook");
    reveal_strlit("/v1/llms.cuntext");
    reveal_strlit("/v1/cuntext/");
    reveal_strlit("/v1/auth/");
    reveal_strlit("/v1/admin/");
    if "/v1/admin/"@.is_prefix_of(path) {
        assert(path[4] == "/v1/admin/"@[4] && path[5] == "/v1/admin/"@[5]);
    }
    if "/v1/cuntext/"@.is_prefix_of(path) {
        assert(path[4] == "/v1/cuntext/"@[4]);
    }
    if "/v1/auth/"@.is_prefix_of(path) {
        assert(path[5] == "/v1/auth/"@[5]);
    }
}

/// Law: what executes code spends credits, and nothing else does.
pub proof fn law_paths_that_execute_spend(path: Seq<char>)
    ensures
        spends(path)
            <==> path == "/v1/swarm"@
                || "/execute"@.is_suffix_of(path)
                || "/execute/async"@.is_suffix_of(path)
                || "/execute/stream"@.is_suffix_of(path),
{
}

/// Law: the key of a request is that of its header; only a call of the tools may have
/// it in the query instead.
pub proof fn law_key_is_in_the_header(path: Seq<char>, h: Seq<char>, q: Option<Seq<char>>)
    ensures
        carried_key(path, Some(h), q) == Some(h),
        carried_key("/v1/mcp"@, None, q) == q,
        path != "/v1/mcp"@ ==> carried_key(path, None, q) is None,
{
}

/// Law: an open path is passed; one of the administration with the administrator's key,
/// which must be configured; any other goes on with its key. What is refused is
/// answered with its own status and reason.
pub proof fn law_entry_by_class(
    path: Seq<char>,
    admin: Seq<char>,
    header: Option<Seq<char>>,
    key: Option<Seq<char>>,
    k: Seq<char>,
)
    ensures
        route_class(path) is Public ==> entry(path, admin, header, key) is Pass,
        route_class(path) is Admin && admin.len() == 0 ==> (
            entry(path, admin, header, key) matches EntryV::Deny(ResponseV::Json(503, v))
                && field(v, "error"@) == Some(JsonV::Str("Admin access not configured"@))
        ),
        route_class(path) is Admin && admin.len() > 0 && header == Some(admin)
            ==> entry(path, admin, header, key) is Pass,
        route_class(path) is Admin && admin.len() > 0 && header != Some(admin) ==> (
            entry(path, admin, header, key) matches EntryV::Deny(ResponseV::Json(403, v))
                && field(v, "error"@) == Some(JsonV::Str("Invalid admin key"@))
        ),
        route_class(path) is Keyed && key == Some(k) ==> entry(path, admin, header, key) == EntryV::Key(k),
        route_class(path) is Keyed && key is None ==> (
            entry(path, admin, header, key) matches EntryV::Deny(ResponseV::Json(401, v))
                && field(v, "error"@) == Some(JsonV::Str("Missing x-api-key header"@))
        ),
{
}

/// Law: a key that asked too often within a minute is refused with status 429, its plan
/// and its limit; one that would execute code goes on to its credits, unless its plan
/// has no limit on them; any other passes. An unknown key is refused with status 401.
pub proof fn law_verdict_on_a_key(path: Seq<char>, tier: Seq<char>, window: Seq<u64>, now: u64)
    ensures
        !admits(window, limits_of(plan_of(tier)).requests_per_minute, now) ==> (
            verdict(path, tier, window, now) matches VerdictV::Deny(ResponseV::Json(429, v))
                && field(v, "error"@) == Some(JsonV::Str("Rate limit exceeded"@))
                && field(v, "plan"@) == Some(JsonV::Str(tier))
                && field(v, "limit"@) == Some(JsonV::Int(limits_of(plan_of(tier)).requests_per_minute as int))
                && field(v, "window"@) == Some(JsonV::Str("60s"@))
                && field(v, "upgrade"@) == Some(JsonV::Str("https://compute.deep-ml.com/billing"@))
        ),
        admits(window, limits_of(plan_of(tier)).requests_per_minute, now)
            && spends(path)
            && !(plan_of(tier) is Scale)
            ==> verdict(path, tier, window, now) is Spend,
        admits(window, limits_of(plan_of(tier)).requests_per_minute, now)
            && (!spends(path) || plan_of(tier) is Scale)
            ==> verdict(path, tier, window, now) is Pass,
        unknown_key() matches ResponseV::Json(401, v) && field(v, "error"@) == Some(JsonV::Str("Invalid API key"@)),
{
    reveal_strlit("error");
    reveal_strlit("plan");
    reveal_strlit("limit");
    reveal_strlit("window");
    reveal_strlit("upgrade");
    assert("error"@.len() == 5);
    assert("plan"@.len() == 4);
    assert("limit"@.len() == 5);
    assert("window"@.len() == 6);
    assert("upgrade"@.len() == 7);
    assert("error"@[0] != "limit"@[0]);
}

/// Law: a key may spend the credits of its plan within a day; when they are used up it
/// is refused with status 429, its plan and both figures.
pub proof fn law_credits_are_spent_to_the_limit(tier: Seq<char>, used: u32)
    ensures
        used < limits_of(plan_of(tier)).credits_per_day ==> spending(tier, used) is None,
        used >= limits_of(plan_of(tier)).credits_per_day ==> (
            spending(tier, used) matches Some(ResponseV::Json(429, v))
                && field(v, "error"@) == Some(JsonV::Str("Daily credit limit reached"@))
                && field(v, "plan"@) == Some(JsonV::Str(plan_name(plan_of(tier))))
                && field(v, "credits_used"@) == Some(JsonV::Int(used as int))
                && field(v, "credits_limit"@) == Some(JsonV::Int(limits_of(plan_of(tier)).credits_per_day as int))
                && field(v, "resets"@) == Some(JsonV::Str("midnight UTC"@))
                && field(v, "upgrade"@) == Some(JsonV::Str("https://compute.deep-ml.com/dashboard"@))
        ),
{
    reveal_strlit("error");
    reveal_strlit("plan");
    reveal_strlit("credits_used");
    reveal_strlit("credits_limit");
    reveal_strlit("resets");
    reveal_strlit("upgrade");
    assert("error"@.len() == 5);
    assert("plan"@.len() == 4);
    assert("credits_used"@.len() == 12);
    assert("credits_limit"@.len() == 13);
    assert("resets"@.len() == 6);
    assert("upgrade"@.len() == 7);
}

/// Law: of the requests of a key those that are older than a minute leave its
/// window, from the oldest on, and the others stay in their order.
pub proof fn law_window_is_the_last_minute(window: Seq<u64>, now: u64, k: int)
    requires
        0 <= k <= window.len(),
        forall|i: int| 0 <= i < k ==> now - #[trigger] window[i] > 60_000_000_000,
        k < window.len() ==> now - window[k] <= 60_000_000_000,
    ensures
        live(window, now) == window.skip(k),
    decreases k,
{
    if k == 0 {
        assert(window.skip(0) =~= window);
    } else {
        let rest = window.skip(1);
        assert(now - window[0] > 60_000_000_000);
        assert forall|i: int| 0 <= i < k - 1 implies now - #[trigger] rest[i] > 60_000_000_000 by {
            assert(rest[i] == window[i + 1]);
        }
        law_window_is_the_last_minute(rest, now, k - 1);
        assert(rest.skip(k - 1) =~= window.skip(k));
    }
}

/// Law: a request is admitted while fewer than the limit were admitted within the last
/// minute; it is then counted, and one that is refused is not.
pub proof fn law_admitted_requests_are_counted(
    window: Seq<u64>,
    limit: u32,
    now: u64,
    windows: Map<Seq<char>, Seq<u64>>,
    key: Seq<char>,
)
    ensures
        admits(window, limit, now) <==> live(window, now).len() < limit,
        admits(window, limit, now) ==> window_after(window, limit, now) == live(window, now).push(now),
        !admits(window, limit, now) ==> window_after(window, limit, now) == live(window, now),
        windows.contains_key(key) ==> window_of(windows, key) == windows[key],
        !windows.contains_key(key) ==> window_of(windows, key).len() == 0,
{
}

/// Law: an entry and a verdict are known by what they carry.
pub proof fn law_entries_keep_what_they_carry(a: Entry, v: Verdict)
    ensures
        a is Pass ==> a@ is Pass,
        a matches Entry::Deny(r) ==> a@ == EntryV::Deny(r@),
        a matches Entry::Key(k) ==> a@ == EntryV::Key(k@),
        v is Pass ==> v@ is Pass,
        v is Spend ==> v@ is Spend,
        v matches Verdict::Deny(r) ==> v@ == VerdictV::Deny(r@),
{
}

/// Law: a user whom GitHub names logs in with the active key of that name.
pub proof fn law_login_finds_the_key(
    plan: LoginPlan,
    t: Json,
    u: Json,
    token: Seq<char>,
    name: Seq<char>,
    k: ApiKeyInfo,
)
    requires
        field(t@, "access_token"@) == Some(JsonV::Str(token)),
        field(u@, "login"@) == Some(JsonV::Str(name)),
        k.is_active,
    ensures
        ({
            &&& login_step(plan, LoginStateV::Exchanging, LoginEvent::Exchanged(Ok(t))) matches NextV::Do(s0, w0)
            &&& w0 == LoginWorkV::Ask(token)
            &&& login_step(plan, s0, LoginEvent::Told(Ok(u))) matches NextV::Do(s1, w1)
            &&& w1 == LoginWorkV::Find(name)
            &&& login_step(plan, s1, LoginEvent::Found(Some(k))) matches NextV::Answer(r)
            &&& r == login_answer(
                configured_or(maybe_owned(plan.frontend_url), "http://localhost:3000"@),
                maybe_owned(plan.state),
                Some((name, k.key@)),
            )
        }),
{
}

/// Law: a user without an active key gets a new one of the free tier, under the name
/// that GitHub gives.
pub proof fn law_login_creates_a_key(
    plan: LoginPlan,
    t: Json,
    u: Json,
    token: Seq<char>,
    name: Seq<char>,
    k: ApiKeyInfo,
    made: String,
)
    requires
        field(t@, "access_token"@) == Some(JsonV::Str(token)),
        field(u@, "login"@) == Some(JsonV::Str(name)),
        !k.is_active,
    ensures
        ({
            &&& login_step(plan, LoginStateV::Exchanging, LoginEvent::Exchanged(Ok(t))) matches NextV::Do(s0, w0)
            &&& w0 == LoginWorkV::Ask(token)
            &&& login_step(plan, s0, LoginEvent::Told(Ok(u))) matches NextV::Do(s1, w1)
            &&& w1 == LoginWorkV::Find(name)
            &&& login_step(plan, s1, LoginEvent::Found(None)) matches NextV::Do(s2, w2)
            &&& w2 == LoginWorkV::Create(name, "free"@)
            &&& login_step(plan, s2, LoginEvent::Created(Some(made))) matches NextV::Answer(r)
            &&& r == login_answer(
                configured_or(maybe_owned(plan.frontend_url), "http://localhost:3000"@),
                maybe_owned(plan.state),
                Some((name, made@)),
            )
        }),
        ({
            &&& login_step(plan, LoginStateV::Exchanging, LoginEvent::Exchanged(Ok(t))) matches NextV::Do(s0, w0)
            &&& w0 == LoginWorkV::Ask(token)
            &&& login_step(plan, s0, LoginEvent::Told(Ok(u))) matches NextV::Do(s1, w1)
            &&& w1 == LoginWorkV::Find(name)
            &&& login_step(plan, s1, LoginEvent::Found(Some(k))) matches NextV::Do(s2, w2)
            &&& w2 == LoginWorkV::Create(name, "free"@)
            &&& login_step(plan, s2, LoginEvent::Created(Some(made))) matches NextV::Answer(r)
            &&& r == login_answer(
                configured_or(maybe_owned(plan.frontend_url), "http://localhost:3000"@),
                maybe_owned(plan.state),
                Some((name, made@)),
            )
        }),
        ({
            &&& login_step(plan, LoginStateV::Exchanging, LoginEvent::Exchanged(Ok(t))) matches NextV::Do(s0, w0)
            &&& w0 == LoginWorkV::Ask(token)
            &&& login_step(plan, s0, LoginEvent::Told(Ok(u))) matches NextV::Do(s1, w1)
            &&& w1 == LoginWorkV::Find(name)
            &&& login_step(plan, s1, LoginEvent::Found(None)) matches NextV::Do(s2, w2)
            &&& w2 == LoginWorkV::Create(name, "free"@)
            &&& login_step(plan, s2, LoginEvent::Created(None)) matches NextV::Answer(r)
            &&& r == login_answer(
                configured_or(maybe_owned(plan.frontend_url), "http://localhost:3000"@),
                maybe_owned(plan.state),
                None,
            )
        }),
{
}

/// Law: without a token or a name from GitHub the login fails.
pub proof fn law_login_fails_without_github(
    plan: LoginPlan,
    t: Json,
    u: Json,
    bad: Json,
    token: Seq<char>,
    why: String,
)
    requires
        field(t@, "access_token"@) == Some(JsonV::Str(token)),
        !(field(bad@, "access_token"@) matches Some(JsonV::Str(_))),
        !(field(u@, "login"@) matches Some(JsonV::Str(_))),
    ensures
        ({
            &&& login_step(plan, LoginStateV::Exchanging, LoginEvent::Exchanged(Err(why))) matches NextV::Answer(r)
            &&& r == login_answer(
                configured_or(maybe_owned(plan.frontend_url), "http://localhost:3000"@),
                maybe_owned(plan.state),
                None,
            )
        }),
        ({
            &&& login_step(plan, LoginStateV::Exchanging, LoginEvent::Exchanged(Ok(bad))) matches NextV::Answer(r)
            &&& r == login_answer(
                configured_or(maybe_owned(plan.frontend_url), "http://localhost:3000"@),
                maybe_owned(plan.state),
                None,
            )
        }),
        ({
            &&& login_step(plan, LoginStateV::Exchanging, LoginEvent::Exchanged(Ok(t))) matches NextV::Do(s0, w0)
            &&& w0 == LoginWorkV::Ask(token)
            &&& login_step(plan, s0, LoginEvent::Told(Ok(u))) matches NextV::Answer(r)
            &&& r == login_answer(
                configured_or(maybe_owned(plan.frontend_url), "http://localhost:3000"@),
                maybe_owned(plan.state),
                None,
            )
        }),
        ({
            &&& login_step(plan, LoginStateV::Exchanging, LoginEvent::Exchanged(Ok(t))) matches NextV::Do(s0, w0)
            &&& w0 == LoginWorkV::Ask(token)
            &&& login_step(plan, s0, LoginEvent::Told(Err(why))) matches NextV::Answer(r)
            &&& r == login_answer(
                configured_or(maybe_owned(plan.frontend_url), "http://localhost:3000"@),
                maybe_owned(plan.state),
                None,
            )
        }),
{
}

/// Law: the states and the works of a login are known by what they carry.
pub proof fn law_login_works_keep_their_names(s: LoginState, w: LoginWork)
    ensures
        s is Exchanging ==> s@ is Exchanging,
        s is Asking ==> s@ is Asking,
        s matches LoginState::Finding(n) ==> s@ == LoginStateV::Finding(n@),
        s matches LoginState::Creating(n) ==> s@ == LoginStateV::Creating(n@),
        w matches LoginWork::Exchange(j) ==> w@ == LoginWorkV::Exchange(j@),
        w matches LoginWork::Ask(t) ==> w@ == LoginWorkV::Ask(t@),
        w matches LoginWork::Find(t) ==> w@ == LoginWorkV::Find(t@),
        w matches LoginWork::Create(n, t) ==> w@ == LoginWorkV::Create(n@, t@),
        w is Wait ==> w@ is Wait,
{
}

/// Law: the checkout of a key that is a customer is opened for that customer, at the
/// price of the plan, and its address is answered.
pub proof fn law_checkout_of_a_known_customer(plan: CheckoutPlan, id: String, j: Json, url: Seq<char>)
    requires
        field(j@, "url"@) == Some(JsonV::Str(url)),
    ensures
        ({
            &&& checkout_step(plan, CheckoutState::Finding, CheckoutEvent::Found(Some(id))) matches NextV::Do(s0, w0)
            &&& w0 == CheckoutWorkV::Send(
                StripeRequestV {
                    url: "https://api.stripe.com/v1/checkout/sessions"@,
                    secret_key: plan.stripe.secret_key@,
                    form: checkout_form(id@, plan.price_id@, plan.success_url@, plan.cancel_url@, plan.api_key@),
                },
            )
            &&& checkout_step(plan, s0, CheckoutEvent::Replied(Ok(j))) matches NextV::Answer(r)
            &&& r == checkout_opened(Some(url), plan.plan@)
        }),
{
}

/// Law: the checkout of a key that is none first makes a customer of the key, with the
/// name of the key and the address that was given, and is then opened for that
/// customer.
pub proof fn law_checkout_of_a_new_customer(
    plan: CheckoutPlan,
    i: ApiKeyInfo,
    c: Json,
    id: Seq<char>,
    j: Json,
    url: Seq<char>,
)
    requires
        field(c@, "id"@) == Some(JsonV::Str(id)),
        field(j@, "url"@) == Some(JsonV::Str(url)),
    ensures
        ({
            &&& checkout_step(plan, CheckoutState::Finding, CheckoutEvent::Found(None)) matches NextV::Do(s0, w0)
            &&& w0 == CheckoutWorkV::Identify
            &&& checkout_step(plan, s0, CheckoutEvent::Identified(Some(i))) matches NextV::Do(s1, w1)
            &&& w1 == CheckoutWorkV::Send(
                StripeRequestV {
                    url: "https://api.stripe.com/v1/customers"@,
                    secret_key: plan.stripe.secret_key@,
                    form: customer_form(plan.api_key@, maybe_owned(plan.email), Some(i.name@)),
                },
            )
            &&& checkout_step(plan, s1, CheckoutEvent::Replied(Ok(c))) matches NextV::Do(s2, w2)
            &&& w2 == CheckoutWorkV::Send(
                StripeRequestV {
                    url: "https://api.stripe.com/v1/checkout/sessions"@,
                    secret_key: plan.stripe.secret_key@,
                    form: checkout_form(id, plan.price_id@, plan.success_url@, plan.cancel_url@, plan.api_key@),
                },
            )
            &&& checkout_step(plan, s2, CheckoutEvent::Replied(Ok(j))) matches NextV::Answer(r)
            &&& r == checkout_opened(Some(url), plan.plan@)
        }),
{
}

/// Law: an unknown key is refused with status 401, and a reply of Stripe that has not
/// what it should is answered with status 500.
pub proof fn law_checkout_fails(plan: CheckoutPlan, i: ApiKeyInfo, id: String, bad: Json, why: String)
    requires
        !(field(bad@, "id"@) matches Some(JsonV::Str(_))),
        !(field(bad@, "url"@) matches Some(JsonV::Str(_))),
    ensures
        ({
            &&& checkout_step(plan, CheckoutState::Finding, CheckoutEvent::Found(None)) matches NextV::Do(s0, w0)
            &&& w0 == CheckoutWorkV::Identify
            &&& checkout_step(plan, s0, CheckoutEvent::Identified(None)) matches NextV::Answer(r)
            &&& r == ResponseV::Status(401)
        }),
        ({
            &&& checkout_step(plan, CheckoutState::Finding, CheckoutEvent::Found(None)) matches NextV::Do(s0, w0)
            &&& w0 == CheckoutWorkV::Identify
            &&& checkout_step(plan, s0, CheckoutEvent::Identified(Some(i))) matches NextV::Do(s1, w1)
            &&& w1 == CheckoutWorkV::Send(
                StripeRequestV {
                    url: "https://api.stripe.com/v1/customers"@,
                    secret_key: plan.stripe.secret_key@,
                    form: customer_form(plan.api_key@, maybe_owned(plan.email), Some(i.name@)),
                },
            )
            &&& checkout_step(plan, s1, CheckoutEvent::Replied(Ok(bad))) matches NextV::Answer(r)
            &&& r == ResponseV::Status(500)
        }),
        ({
            &&& checkout_step(plan, CheckoutState::Finding, CheckoutEvent::Found(None)) matches NextV::Do(s0, w0)
            &&& w0 == CheckoutWorkV::Identify
            &&& checkout_step(plan, s0, CheckoutEvent::Identified(Some(i))) matches NextV::Do(s1, w1)
            &&& w1 == CheckoutWorkV::Send(
                StripeRequestV {
                    url: "https://api.stripe.com/v1/customers"@,
                    secret_key: plan.stripe.secret_key@,
                    form: customer_form(plan.api_key@, maybe_owned(plan.email), Some(i.name@)),
                },
            )
            &&& checkout_step(plan, s1, CheckoutEvent::Replied(Err(why))) matches NextV::Answer(r)
            &&& r == ResponseV::Status(500)
        }),
        ({
            &&& checkout_step(plan, CheckoutState::Finding, CheckoutEvent::Found(Some(id))) matches NextV::Do(s0, w0)
            &&& w0 == CheckoutWorkV::Send(
                StripeRequestV {
                    url: "https://api.stripe.com/v1/checkout/sessions"@,
                    secret_key: plan.stripe.secret_key@,
                    form: checkout_form(id@, plan.price_id@, plan.success_url@, plan.cancel_url@, plan.api_key@),
                },
            )
            &&& checkout_step(plan, s0, CheckoutEvent::Replied(Ok(bad))) matches NextV::Answer(r)
            &&& r == ResponseV::Status(500)
        }),
        ({
            &&& checkout_step(plan, CheckoutState::Finding, CheckoutEvent::Found(Some(id))) matches NextV::Do(s0, w0)
            &&& w0 == CheckoutWorkV::Send(
                StripeRequestV {
                    url: "https://api.stripe.com/v1/checkout/sessions"@,
                    secret_key: plan.stripe.secret_key@,
                    form: checkout_form(id@, plan.price_id@, plan.success_url@, plan.cancel_url@, plan.api_key@),
                },
            )
            &&& checkout_step(plan, s0, CheckoutEvent::Replied(Err(why))) matches NextV::Answer(r)
            &&& r == ResponseV::Status(500)
        }),
{
}

/// Law: the works of a checkout, and what is sent to Stripe, are known by what they
/// carry.
pub proof fn law_checkout_works_keep_their_names(w: CheckoutWork, q: StripeRequest)
    ensures
        w is Wait ==> w@ is Wait,
        w is Find ==> w@ is Find,
        w is Identify ==> w@ is Identify,
        w matches CheckoutWork::Send(s) ==> w@ == CheckoutWorkV::Send(s@),
        q@.url == q.url@,
        q@.secret_key == q.secret_key@,
        q@.form.len() == q.form@.len(),
        forall|i: int| 0 <= i < q.form@.len() ==> #[trigger] q@.form[i] == (q.form@[i].0@, q.form@[i].1@),
{
}

/// Law: the next state and work, or the answer, are known by what they carry.
pub proof fn law_next_works_keep_what_they_carry(n: Next<LoginState, LoginWork>)
    ensures
        n matches Next::Do(s, w) ==> n@ == NextV::<LoginStateV, LoginWorkV>::Do(s@, w@),
        n matches Next::Answer(r) ==> n@ == NextV::<LoginStateV, LoginWorkV>::Answer(r@),
{
}

/// Law: at first no request of any key is counted.
pub proof fn law_no_request_is_counted_at_first(key: Seq<char>)
    ensures
        !no_lists().contains_key(key),
{
}

} // verus!
