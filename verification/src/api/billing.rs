//! Checkout, customer portal, Stripe webhooks and usage.
use vstd::prelude::*;
use vstd::string::*;
use crate::billing::{limits_of, plan_name, plan_of, webhook_event, PlanLimits, StripeClient};
use crate::db::ApiKeyInfo;
use crate::http::{
    error_json, error_object, Response, ResponseV, BAD_REQUEST, INTERNAL_SERVER_ERROR, NOT_FOUND, OK, SERVICE_UNAVAILABLE,
    UNAUTHORIZED,
};
use crate::json::{
    field_text, json_parse, parse_json, pointer, pointer_text, slices, text_or_empty, Fields, Json, JsonV,
};
use crate::text::{labelled, maybe, maybe_owned, same};
use crate::api::routes::{configured_or, MEGABYTE};

verus! {

/// A request for a subscription.
pub struct CheckoutRequest {
    /// `builder` or `scale`, or an older name of one of them.
    pub plan: String,
    pub email: Option<String>,
    pub success_url: Option<String>,
    pub cancel_url: Option<String>,
}

/// A request for the customer portal.
pub struct PortalRequest {
    pub return_url: Option<String>,
}

/// A request for usage.
pub struct UsageQuery {
    pub date: Option<String>,
}

/// The tier that a price buys, by the configured prices (empty where none is).
pub open spec fn plan_of_price(price_id: Seq<char>, pro: Seq<char>, enterprise: Seq<char>) -> Option<Seq<char>> {
    if pro.len() > 0 && price_id == pro {
        Some("pro"@)
    } else if enterprise.len() > 0 && price_id == enterprise {
        Some("enterprise"@)
    } else {
        None
    }
}

/// The tier that a price buys.
pub fn price_to_plan(price_id: &str, pro: &str, enterprise: &str) -> (r: Option<&'static str>)
    ensures
        maybe(r) == plan_of_price(price_id@, pro@, enterprise@),
{
    if !pro.is_empty() && same(price_id, pro) {
        return Some("pro");
    }
    if !enterprise.is_empty() && same(price_id, enterprise) {
        return Some("enterprise");
    }
    None
}

// ── Checkout ────────────────────────────────────────────

/// Whether a plan can be bought as `builder`.
pub open spec fn buys_builder(plan: Seq<char>) -> bool {
    plan == "builder"@ || plan == "pro"@
}

/// Whether a plan can be bought as `scale`.
pub open spec fn buys_scale(plan: Seq<char>) -> bool {
    plan == "scale"@ || plan == "enterprise"@
}

/// A request for a subscription that may go on: its key and the price; or why it
/// may not.
pub open spec fn checkout_entry(
    api_key: Option<Seq<char>>,
    plan: Seq<char>,
    stripe_configured: bool,
    pro: Option<Seq<char>>,
    enterprise: Option<Seq<char>>,
) -> Result<(Seq<char>, Seq<char>), ResponseV> {
    match api_key {
        None => Err(ResponseV::Status(UNAUTHORIZED)),
        Some(key) => if !buys_builder(plan) && !buys_scale(plan) {
            Err(ResponseV::Json(OK, error_object("plan must be 'builder' or 'scale'"@)))
        } else if !stripe_configured {
            Err(ResponseV::Status(SERVICE_UNAVAILABLE))
        } else {
            match (if buys_builder(plan) {
                pro
            } else {
                enterprise
            }) {
                Some(price) => Ok((key, price)),
                None => Err(ResponseV::Status(SERVICE_UNAVAILABLE)),
            }
        },
    }
}

/// Admits a request for a subscription, given whether Stripe is configured and
/// the prices that are.
pub fn admit_checkout(
    api_key: Option<String>,
    plan: &str,
    stripe_configured: bool,
    pro: Option<String>,
    enterprise: Option<String>,
) -> (r: Result<(String, String), Response>)
    ensures
        match r {
            Ok((key, price)) => checkout_entry(
                maybe_owned(api_key),
                plan@,
                stripe_configured,
                maybe_owned(pro),
                maybe_owned(enterprise),
            ) == Ok::<(Seq<char>, Seq<char>), ResponseV>((key@, price@)),
            Err(x) => checkout_entry(
                maybe_owned(api_key),
                plan@,
                stripe_configured,
                maybe_owned(pro),
                maybe_owned(enterprise),
            ) == Err::<(Seq<char>, Seq<char>), ResponseV>(x@),
        },
{
    match api_key {
        None => Err(Response::Status(UNAUTHORIZED)),
        Some(key) => {
            let builder: bool = same(plan, "builder") || same(plan, "pro");
            let scale: bool = same(plan, "scale") || same(plan, "enterprise");
            if !builder && !scale {
                return Err(Response::Json(OK, error_json("plan must be 'builder' or 'scale'")));
            }
            if !stripe_configured {
                return Err(Response::Status(SERVICE_UNAVAILABLE));
            }
            let price: Option<String> = if builder {
                pro
            } else {
                enterprise
            };
            match price {
                Some(p) => Ok((key, p)),
                None => Err(Response::Status(SERVICE_UNAVAILABLE)),
            }
        },
    }
}

/// An address asked for, or a page of this service.
pub open spec fn page(asked: Option<Seq<char>>, base: Option<Seq<char>>, path: Seq<char>) -> Seq<char> {
    match asked {
        Some(url) => url,
        None => configured_or(base, "http://localhost:8080"@) + path,
    }
}

fn page_url(asked: Option<String>, base: Option<&str>, path: &str) -> (r: String)
    ensures
        r@ == page(maybe_owned(asked), maybe(base), path@),
{
    match asked {
        Some(url) => url,
        None => match base {
            Some(b) => labelled(b, path),
            None => labelled("http://localhost:8080", path),
        },
    }
}

/// Where a checkout leads on success.
pub fn success_page(asked: Option<String>, base: Option<&str>) -> (r: String)
    ensures
        r@ == page(maybe_owned(asked), maybe(base), "/billing/success"@),
{
    page_url(asked, base, "/billing/success")
}

/// Where a checkout leads when it is cancelled.
pub fn cancel_page(asked: Option<String>, base: Option<&str>) -> (r: String)
    ensures
        r@ == page(maybe_owned(asked), maybe(base), "/billing/cancel"@),
{
    page_url(asked, base, "/billing/cancel")
}

/// Where the customer portal leads back to.
pub fn return_page(asked: Option<String>, base: Option<&str>) -> (r: String)
    ensures
        r@ == page(maybe_owned(asked), maybe(base), "/billing"@),
{
    page_url(asked, base, "/billing")
}

/// The answer to a checkout, given the address that Stripe gave.
pub open spec fn checkout_opened(url: Option<Seq<char>>, plan: Seq<char>) -> ResponseV {
    match url {
        Some(u) => ResponseV::Json(OK, JsonV::Obj(map!["checkout_url"@ => JsonV::Str(u), "plan"@ => JsonV::Str(plan)])),
        None => ResponseV::Status(INTERNAL_SERVER_ERROR),
    }
}

/// The answer to a checkout.
pub fn create_checkout(url: Option<&str>, plan: &str) -> (r: Response)
    ensures
        r@ == checkout_opened(maybe(url), plan@),
{
    match url {
        Some(u) => {
            let mut f: Fields = Fields::new();
            f.put_text("checkout_url", u);
            f.put_text("plan", plan);
            Response::Json(OK, f.done())
        },
        None => Response::Status(INTERNAL_SERVER_ERROR),
    }
}

/// Admits a request for the portal: it needs an API key, Stripe, and a customer.
pub fn admit_portal(keyed: bool, stripe_configured: bool, customer: Option<String>) -> (r: Result<String, Response>)
    ensures
        if !keyed {
            r matches Err(x) && x@ == ResponseV::Status(UNAUTHORIZED)
        } else if !stripe_configured {
            r matches Err(x) && x@ == ResponseV::Status(SERVICE_UNAVAILABLE)
        } else {
            match customer {
                Some(c) => r matches Ok(id) && id == c,
                None => r matches Err(x) && x@ == ResponseV::Status(NOT_FOUND),
            }
        },
{
    if !keyed {
        return Err(Response::Status(UNAUTHORIZED));
    }
    if !stripe_configured {
        return Err(Response::Status(SERVICE_UNAVAILABLE));
    }
    match customer {
        Some(c) => Ok(c),
        None => Err(Response::Status(NOT_FOUND)),
    }
}

/// The answer to a request for the portal, given the address that Stripe gave.
pub fn create_portal(url: Option<&str>) -> (r: Response)
    ensures
        r@ == match url {
            Some(u) => ResponseV::Json(OK, JsonV::Obj(map!["portal_url"@ => JsonV::Str(u@)])),
            None => ResponseV::Status(INTERNAL_SERVER_ERROR),
        },
{
    match url {
        Some(u) => {
            let mut f: Fields = Fields::new();
            f.put_text("portal_url", u);
            Response::Json(OK, f.done())
        },
        None => Response::Status(INTERNAL_SERVER_ERROR),
    }
}

// ── Webhooks ────────────────────────────────────────────

/// The event of a webhook. Without a secret nothing is checked, and what is no
/// JSON counts as `null`.
pub open spec fn received(body: Seq<u8>, signature: Seq<char>, secret: Seq<char>) -> Option<JsonV> {
    if secret.len() == 0 {
        match json_parse(body) {
            Ok(v) => Some(v),
            Err(_) => Some(JsonV::Null),
        }
    } else {
        match webhook_event(body, signature, secret) {
            Ok(v) => Some(v),
            Err(_) => None,
        }
    }
}

/// The event of a webhook; without one the request is a bad one.
pub fn receive_webhook(body: &[u8], signature: &str, secret: &str) -> (r: Result<Json, Response>)
    ensures
        match r {
            Ok(event) => received(body@, signature@, secret@) == Some(event@),
            Err(x) => received(body@, signature@, secret@) is None && x@ == ResponseV::Status(BAD_REQUEST),
        },
{
    if secret.is_empty() {
        match parse_json(body) {
            Ok(v) => Ok(v),
            Err(_) => Ok(Json::Null),
        }
    } else {
        match StripeClient::verify_webhook(body, signature, secret) {
            Ok(v) => Ok(v),
            Err(_) => Err(Response::Status(BAD_REQUEST)),
        }
    }
}

/// What an event asks for.
pub enum WebhookAction {
    Nothing,
    /// The subscription of a key is to be stored.
    Store { api_key: String, customer_id: String, subscription_id: String, plan: String, status: String },
    /// A payment of this customer failed; the plan stays for a while.
    PaymentFailed(String),
}

/// What an event asks for, as mathematics.
pub enum WebhookActionV {
    Nothing,
    Store {
        api_key: Seq<char>,
        customer_id: Seq<char>,
        subscription_id: Seq<char>,
        plan: Seq<char>,
        status: Seq<char>,
    },
    PaymentFailed(Seq<char>),
}

impl View for WebhookAction {
    type V = WebhookActionV;

    open spec fn view(&self) -> WebhookActionV {
        match self {
            WebhookAction::Nothing => WebhookActionV::Nothing,
            WebhookAction::Store { api_key, customer_id, subscription_id, plan, status } => WebhookActionV::Store {
                api_key: api_key@,
                customer_id: customer_id@,
                subscription_id: subscription_id@,
                plan: plan@,
                status: status@,
            },
            WebhookAction::PaymentFailed(c) => WebhookActionV::PaymentFailed(c@),
        }
    }
}

/// The tier that a subscription gives: that of its first price, or the free one.
pub open spec fn subscribed_plan(sub: JsonV, pro: Seq<char>, enterprise: Seq<char>) -> Seq<char> {
    match pointer_text(sub, seq!["items"@, "data"@, "0"@, "price"@, "id"@]) {
        Some(price) => match plan_of_price(price, pro, enterprise) {
            Some(plan) => plan,
            None => "free"@,
        },
        None => "free"@,
    }
}

/// What a change of a subscription asks for: nothing, where it does not name a
/// key and a customer.
pub open spec fn subscription_change(event: JsonV, status: Seq<char>, pro: Seq<char>, enterprise: Seq<char>) -> WebhookActionV {
    match pointer(event, seq!["data"@, "object"@]) {
        None => WebhookActionV::Nothing,
        Some(sub) => {
            let customer_id = text_or_empty(field_text(sub, "customer"@));
            let api_key = text_or_empty(pointer_text(sub, seq!["metadata"@, "greed_api_key"@]));
            if api_key.len() > 0 && customer_id.len() > 0 {
                WebhookActionV::Store {
                    api_key,
                    customer_id,
                    subscription_id: text_or_empty(field_text(sub, "id"@)),
                    plan: if status == "cancelled"@ {
                        "free"@
                    } else {
                        subscribed_plan(sub, pro, enterprise)
                    },
                    status,
                }
            } else {
                WebhookActionV::Nothing
            }
        },
    }
}

/// What an event asks for.
pub open spec fn event_action(event: JsonV, pro: Seq<char>, enterprise: Seq<char>) -> WebhookActionV {
    let kind = text_or_empty(field_text(event, "type"@));
    if kind == "customer.subscription.created"@ || kind == "customer.subscription.updated"@ {
        subscription_change(event, "active"@, pro, enterprise)
    } else if kind == "customer.subscription.deleted"@ {
        subscription_change(event, "cancelled"@, pro, enterprise)
    } else if kind == "invoice.payment_failed"@ {
        WebhookActionV::PaymentFailed(text_or_empty(pointer_text(event, seq!["data"@, "object"@, "customer"@])))
    } else {
        WebhookActionV::Nothing
    }
}

/// What a change of a subscription asks for.
fn handle_subscription_change(event: &Json, status: &str, pro: &str, enterprise: &str) -> (r: WebhookAction)
    ensures
        r@ == subscription_change(event@, status@, pro@, enterprise@),
{
    let object: Vec<&str> = vec!["data", "object"];
    assert(slices(object@) =~= seq!["data"@, "object"@]);
    match event.pointer(&object) {
        None => WebhookAction::Nothing,
        Some(sub) => {
            let customer_id: String = sub.get_text("customer");
            let subscription_id: String = sub.get_text("id");
            let key_path: Vec<&str> = vec!["metadata", "greed_api_key"];
            assert(slices(key_path@) =~= seq!["metadata"@, "greed_api_key"@]);
            let api_key: String = sub.pointer_text(&key_path);
            let price_path: Vec<&str> = vec!["items", "data", "0", "price", "id"];
            assert(slices(price_path@) =~= seq!["items"@, "data"@, "0"@, "price"@, "id"@]);
            let bought: &str = match sub.pointer(&price_path) {
                Some(p) => match p.as_str() {
                    Some(price) => match price_to_plan(price, pro, enterprise) {
                        Some(plan) => plan,
                        None => "free",
                    },
                    None => "free",
                },
                None => "free",
            };
            let plan: &str = if same(status, "cancelled") {
                "free"
            } else {
                bought
            };
            if !api_key.as_str().is_empty() && !customer_id.as_str().is_empty() {
                WebhookAction::Store {
                    api_key,
                    customer_id,
                    subscription_id,
                    plan: plan.to_owned(),
                    status: status.to_owned(),
                }
            } else {
                WebhookAction::Nothing
            }
        },
    }
}

/// What an event asks for, by the configured prices (empty where none is).
pub fn stripe_webhook(event: &Json, pro: &str, enterprise: &str) -> (r: WebhookAction)
    ensures
        r@ == event_action(event@, pro@, enterprise@),
{
    let kind: String = event.get_text("type");
    let k: &str = kind.as_str();
    if same(k, "customer.subscription.created") || same(k, "customer.subscription.updated") {
        handle_subscription_change(event, "active", pro, enterprise)
    } else if same(k, "customer.subscription.deleted") {
        handle_subscription_change(event, "cancelled", pro, enterprise)
    } else if same(k, "invoice.payment_failed") {
        let path: Vec<&str> = vec!["data", "object", "customer"];
        assert(slices(path@) =~= seq!["data"@, "object"@, "customer"@]);
        WebhookAction::PaymentFailed(event.pointer_text(&path))
    } else {
        WebhookAction::Nothing
    }
}

/// Law: a cancelled subscription leaves its key on the free tier, whatever it
/// had bought, and every stored tier is one that a price buys or the free one.
pub proof fn law_stored_plans(event: JsonV, status: Seq<char>, pro: Seq<char>, enterprise: Seq<char>)
    ensures
        subscription_change(event, status, pro, enterprise) matches WebhookActionV::Store {
            api_key,
            customer_id,
            subscription_id,
            plan,
            status: stored,
        } ==> {
            &&& stored == status
            &&& status == "cancelled"@ ==> plan == "free"@
            &&& plan == "free"@ || plan == "pro"@ || plan == "enterprise"@
            &&& api_key.len() > 0 && customer_id.len() > 0
        },
{
}

// ── Usage ───────────────────────────────────────────────

/// The credits of a plan and a day, as JSON.
pub open spec fn credits_value(limits: PlanLimits, used: u32) -> JsonV {
    let unlimited = limits.credits_per_day == u32::MAX;
    JsonV::Obj(
        map![
            "used"@ => JsonV::Int(used as int),
            "limit"@ => if unlimited {
                JsonV::Null
            } else {
                JsonV::Int(limits.credits_per_day as int)
            },
            "remaining"@ => if unlimited {
                JsonV::Null
            } else if used >= limits.credits_per_day {
                JsonV::Int(0)
            } else {
                JsonV::Int(limits.credits_per_day - used)
            },
            "resets"@ => JsonV::Str("midnight UTC"@),
        ],
    )
}

/// The storage of a plan, as JSON.
pub open spec fn storage_value(limits: PlanLimits, used: u64) -> JsonV {
    JsonV::Obj(
        map![
            "used_mb"@ => JsonV::Int(used as int / MEGABYTE as int),
            "limit_mb"@ => if limits.checkpoint_storage_bytes == u64::MAX {
                JsonV::Null
            } else {
                JsonV::Int(limits.checkpoint_storage_bytes as int / MEGABYTE as int)
            },
            "retention_days"@ => JsonV::Int(limits.checkpoint_retention_days as int),
        ],
    )
}

/// The other limits of a plan, as JSON.
pub open spec fn limits_value(limits: PlanLimits) -> JsonV {
    JsonV::Obj(
        map![
            "requests_per_minute"@ => JsonV::Int(limits.requests_per_minute as int),
            "concurrent_sessions"@ => JsonV::Int(limits.concurrent_sessions as int),
            "max_execution_secs"@ => JsonV::Int(limits.max_execution_secs as int),
        ],
    )
}

/// The usage of a key on a day, as JSON.
pub open spec fn usage_value(
    date: Seq<char>,
    tier: Seq<char>,
    billing_status: Option<Seq<char>>,
    credits_used: u32,
    storage_used: u64,
) -> JsonV {
    let limits = limits_of(plan_of(tier));
    JsonV::Obj(
        map![
            "date"@ => JsonV::Str(date),
            "plan"@ => JsonV::Str(plan_name(plan_of(tier))),
            "billing_status"@ => JsonV::Str(configured_or(billing_status, "none"@)),
            "credits"@ => credits_value(limits, credits_used),
            "storage"@ => storage_value(limits, storage_used),
            "limits"@ => limits_value(limits),
        ],
    )
}

fn credits_json(limits: PlanLimits, used: u32) -> (r: Json)
    ensures
        r@ == credits_value(limits, used),
{
    let mut f: Fields = Fields::new();
    f.put_u64("used", used as u64);
    if limits.is_unlimited(limits.credits_per_day) {
        f.put("limit", Json::Null);
        f.put("remaining", Json::Null);
    } else {
        f.put_u64("limit", limits.credits_per_day as u64);
        let left: u64 = if used >= limits.credits_per_day {
            0
        } else {
            (limits.credits_per_day - used) as u64
        };
        f.put_u64("remaining", left);
    }
    f.put_text("resets", "midnight UTC");
    f.done()
}

fn storage_json(limits: PlanLimits, used: u64) -> (r: Json)
    ensures
        r@ == storage_value(limits, used),
{
    let mut f: Fields = Fields::new();
    f.put_u64("used_mb", used / MEGABYTE);
    if limits.checkpoint_storage_bytes == u64::MAX {
        f.put("limit_mb", Json::Null);
    } else {
        f.put_u64("limit_mb", limits.checkpoint_storage_bytes / MEGABYTE);
    }
    f.put_u64("retention_days", limits.checkpoint_retention_days as u64);
    f.done()
}

fn limits_json(limits: PlanLimits) -> (r: Json)
    ensures
        r@ == limits_value(limits),
{
    let mut f: Fields = Fields::new();
    f.put_u64("requests_per_minute", limits.requests_per_minute as u64);
    f.put_u64("concurrent_sessions", limits.concurrent_sessions as u64);
    f.put_u64("max_execution_secs", limits.max_execution_secs as u64);
    f.done()
}

/// The answer to a request for usage, given whether it carries a key and what is
/// known of the key and stored under it.
pub fn get_usage(
    keyed: bool,
    info: Option<&ApiKeyInfo>,
    date: &str,
    billing_status: Option<&str>,
    credits_used: u32,
    storage_used: u64,
) -> (r: Response)
    ensures
        r@ == match (keyed, info) {
            (true, Some(i)) => ResponseV::Json(
                OK,
                usage_value(date@, i.tier@, maybe(billing_status), credits_used, storage_used),
            ),
            _ => ResponseV::Status(UNAUTHORIZED),
        },
{
    if !keyed {
        return Response::Status(UNAUTHORIZED);
    }
    match info {
        None => Response::Status(UNAUTHORIZED),
        Some(i) => {
            let limits: PlanLimits = PlanLimits::for_tier(i.tier.as_str());
            let mut f: Fields = Fields::new();
            f.put_text("date", date);
            f.put_text("plan", PlanLimits::tier_display(i.tier.as_str()));
            match billing_status {
                Some(s) => f.put_text("billing_status", s),
                None => f.put_text("billing_status", "none"),
            }
            f.put("credits", credits_json(limits, credits_used));
            f.put("storage", storage_json(limits, storage_used));
            f.put("limits", limits_json(limits));
            Response::Json(OK, f.done())
        },
    }
}

} // verus!
