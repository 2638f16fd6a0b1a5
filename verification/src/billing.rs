//! Plans and their limits, credits, and what is sent to and received from
//! Stripe.
use vstd::prelude::*;
use vstd::string::*;
use vstd::utf8::{decode_utf8, encode_utf8, valid_utf8};
use crate::codec::{hex_digit, hex_encode, hex_text, hmac_sha256, hmac_sha256_code, utf8_text};
use crate::json::{field_text, json_parse, json_text, parse_json, print_json, read_view, Json, JsonV};
use crate::text::{chars, lemma_split_after, lemma_split_plain, maybe, same, split, split_text, starts_with, substring, texts};

verus! {

/// A plan.
pub enum Plan {
    Hobby,
    Builder,
    Scale,
}

/// What a plan allows.
#[derive(Clone, Copy, Debug, PartialEq, Eq, Structural)]
pub struct PlanLimits {
    /// Requests per minute, in a sliding window.
    pub requests_per_minute: u32,
    /// Credits per day; one credit is one second of execution.
    pub credits_per_day: u32,
    /// Sessions at one time.
    pub concurrent_sessions: u32,
    /// Wall time of one execution, in seconds.
    pub max_execution_secs: u32,
    /// Checkpoint storage, in bytes.
    pub checkpoint_storage_bytes: u64,
    /// Days after which a checkpoint is deleted.
    pub checkpoint_retention_days: u32,
}

/// Seconds that a worker has beyond the wall time of an execution.
pub const EXECUTION_GRACE_SECS: u32 = 5;

/// The plan that a tier stands for. The older names `pro` and `enterprise`
/// count as the newer `builder` and `scale`; `free` and every unknown name
/// count as `hobby`.
pub open spec fn plan_of(tier: Seq<char>) -> Plan {
    if tier == "pro"@ || tier == "builder"@ {
        Plan::Builder
    } else if tier == "enterprise"@ || tier == "scale"@ {
        Plan::Scale
    } else {
        Plan::Hobby
    }
}

/// The limits of a plan.
pub open spec fn limits_of(plan: Plan) -> PlanLimits {
    match plan {
        Plan::Hobby => PlanLimits {
            requests_per_minute: 60,
            credits_per_day: 50,
            concurrent_sessions: 2,
            max_execution_secs: 30,
            checkpoint_storage_bytes: 209_715_200,
            checkpoint_retention_days: 3,
        },
        Plan::Builder => PlanLimits {
            requests_per_minute: 300,
            credits_per_day: 500,
            concurrent_sessions: 10,
            max_execution_secs: 120,
            checkpoint_storage_bytes: 5_368_709_120,
            checkpoint_retention_days: 30,
        },
        Plan::Scale => PlanLimits {
            requests_per_minute: 2_000,
            credits_per_day: u32::MAX,
            concurrent_sessions: 100,
            max_execution_secs: 600,
            checkpoint_storage_bytes: 53_687_091_200,
            checkpoint_retention_days: 90,
        },
    }
}

/// The name under which a plan is shown.
pub open spec fn plan_name(plan: Plan) -> Seq<char> {
    match plan {
        Plan::Hobby => "hobby"@,
        Plan::Builder => "builder"@,
        Plan::Scale => "scale"@,
    }
}

/// The plan that a tier stands for.
fn plan_for(tier: &str) -> (r: Plan)
    ensures
        r == plan_of(tier@),
{
    if same(tier, "pro") || same(tier, "builder") {
        Plan::Builder
    } else if same(tier, "enterprise") || same(tier, "scale") {
        Plan::Scale
    } else {
        Plan::Hobby
    }
}

impl PlanLimits {
    /// The limits of the plan that a tier stands for.
    pub fn for_tier(tier: &str) -> (r: PlanLimits)
        ensures
            r == limits_of(plan_of(tier@)),
    {
        match plan_for(tier) {
            Plan::Hobby => PlanLimits {
                requests_per_minute: 60,
                credits_per_day: 50,
                concurrent_sessions: 2,
                max_execution_secs: 30,
                checkpoint_storage_bytes: 200 * 1024 * 1024,
                checkpoint_retention_days: 3,
            },
            Plan::Builder => PlanLimits {
                requests_per_minute: 300,
                credits_per_day: 500,
                concurrent_sessions: 10,
                max_execution_secs: 120,
                checkpoint_storage_bytes: 5 * 1024 * 1024 * 1024,
                checkpoint_retention_days: 30,
            },
            Plan::Scale => PlanLimits {
                requests_per_minute: 2_000,
                credits_per_day: u32::MAX,
                concurrent_sessions: 100,
                max_execution_secs: 600,
                checkpoint_storage_bytes: 50 * 1024 * 1024 * 1024,
                checkpoint_retention_days: 90,
            },
        }
    }

    /// Whether a key with so many sessions may have another one.
    pub fn admits_session(&self, active: usize) -> (r: bool)
        ensures
            r == (active < self.concurrent_sessions),
    {
        active < self.concurrent_sessions as usize
    }

    /// Seconds that a worker has to answer an execution under the plan of a tier:
    /// the wall time of the plan, and a little more for the worker to say so itself.
    pub fn execution_timeout(tier: &str) -> (r: u32)
        ensures
            r == limits_of(plan_of(tier@)).max_execution_secs + EXECUTION_GRACE_SECS,
    {
        PlanLimits::for_tier(tier).max_execution_secs + EXECUTION_GRACE_SECS
    }

    /// Whether a limit stands for no limit at all.
    pub fn is_unlimited(&self, field: u32) -> (r: bool)
        ensures
            r == (field == u32::MAX),
    {
        field == u32::MAX
    }

    /// The name under which a tier is shown.
    pub fn tier_display(tier: &str) -> (r: &'static str)
        ensures
            r@ == plan_name(plan_of(tier@)),
    {
        match plan_for(tier) {
            Plan::Hobby => "hobby",
            Plan::Builder => "builder",
            Plan::Scale => "scale",
        }
    }
}

/// The name of a plan stands for that plan.
pub proof fn lemma_plan_name(plan: Plan)
    ensures
        plan_of(plan_name(plan)) == plan,
{
    reveal_strlit("hobby");
    reveal_strlit("builder");
    reveal_strlit("scale");
    reveal_strlit("pro");
    reveal_strlit("enterprise");
    assert("hobby"@.len() == 5 && "builder"@.len() == 7 && "scale"@.len() == 5 && "pro"@.len() == 3
        && "enterprise"@.len() == 10);
    assert("hobby"@[0] == 'h' && "scale"@[0] == 's');
}

/// Law: a tier and the name under which it is shown stand for the same plan, so
/// they have the same limits, and showing a shown name changes nothing.
pub proof fn law_tier_display(tier: Seq<char>)
    ensures
        plan_of(plan_name(plan_of(tier))) == plan_of(tier),
        plan_name(plan_of(plan_name(plan_of(tier)))) == plan_name(plan_of(tier)),
{
    lemma_plan_name(plan_of(tier));
}

/// The credits that a time of execution costs: its seconds, rounded up. Where
/// that is more than a `u32` holds it is the greatest `u32`.
pub open spec fn credits_of(duration_ms: int) -> int {
    let credits = if duration_ms <= 0 {
        0
    } else {
        (duration_ms + 999) / 1000
    };
    if credits > u32::MAX {
        u32::MAX as int
    } else {
        credits
    }
}

/// The credits that a time of execution costs.
pub fn credits_for(duration_ms: i64) -> (r: u32)
    ensures
        r == credits_of(duration_ms as int),
{
    if duration_ms <= 0 {
        0
    } else {
        let whole: i64 = duration_ms / 1000;
        let credits: i64 = if duration_ms % 1000 == 0 {
            whole
        } else {
            whole + 1
        };
        if credits > u32::MAX as i64 {
            u32::MAX
        } else {
            credits as u32
        }
    }
}

/// Law: credits are the least number of whole seconds that covers the time, as
/// long as a `u32` holds it; idle time costs nothing.
pub proof fn law_credit_is_a_second(duration_ms: int)
    requires
        0 <= duration_ms <= 1000 * u32::MAX,
    ensures
        1000 * credits_of(duration_ms) >= duration_ms,
        1000 * (credits_of(duration_ms) - 1) < duration_ms || duration_ms == 0,
        credits_of(0) == 0,
{
}

// ── Stripe ──────────────────────────────────────────────

/// A form to post to Stripe.
pub struct StripeRequest {
    pub url: String,
    /// The user of the basic authentication; its password is empty.
    pub secret_key: String,
    pub form: Vec<(String, String)>,
}

/// A request to Stripe as mathematics.
#[verifier::ext_equal]
pub struct StripeRequestV {
    pub url: Seq<char>,
    pub secret_key: Seq<char>,
    pub form: Seq<(Seq<char>, Seq<char>)>,
}

/// The contents of the fields of a form.
pub open spec fn form_view(form: Seq<(String, String)>) -> Seq<(Seq<char>, Seq<char>)> {
    Seq::new(form.len(), |i: int| (form[i].0@, form[i].1@))
}

impl View for StripeRequest {
    type V = StripeRequestV;

    open spec fn view(&self) -> StripeRequestV {
        StripeRequestV { url: self.url@, secret_key: self.secret_key@, form: form_view(self.form@) }
    }
}

/// Adds a field to a form.
fn add_field(form: &mut Vec<(String, String)>, name: &str, value: &str)
    ensures
        form_view(final(form)@) == form_view(old(form)@).push((name@, value@)),
{
    let ghost before = form_view(form@);
    form.push((name.to_owned(), value.to_owned()));
    assert(form_view(form@) =~= before.push((name@, value@)));
}

/// A form with no field.
fn empty_form() -> (r: Vec<(String, String)>)
    ensures
        form_view(r@) == Seq::<(Seq<char>, Seq<char>)>::empty(),
{
    let r: Vec<(String, String)> = Vec::new();
    assert(form_view(r@) =~= Seq::<(Seq<char>, Seq<char>)>::empty());
    r
}

/// The form that creates a customer.
pub open spec fn customer_form(api_key: Seq<char>, email: Option<Seq<char>>, name: Option<Seq<char>>) -> Seq<
    (Seq<char>, Seq<char>),
> {
    let first = seq![("metadata[greed_api_key]"@, api_key)];
    let second = match email {
        Some(e) => first.push(("email"@, e)),
        None => first,
    };
    match name {
        Some(n) => second.push(("name"@, n)),
        None => second,
    }
}

/// The form that opens a checkout.
pub open spec fn checkout_form(
    customer: Seq<char>,
    price: Seq<char>,
    success_url: Seq<char>,
    cancel_url: Seq<char>,
    api_key: Seq<char>,
) -> Seq<(Seq<char>, Seq<char>)> {
    seq![
        ("customer"@, customer),
        ("mode"@, "subscription"@),
        ("line_items[0][price]"@, price),
        ("line_items[0][quantity]"@, "1"@),
        ("success_url"@, success_url),
        ("cancel_url"@, cancel_url),
        ("metadata[greed_api_key]"@, api_key),
        ("subscription_data[metadata][greed_api_key]"@, api_key),
    ]
}

/// Access to Stripe under a secret key.
pub struct StripeClient {
    pub secret_key: String,
}

impl StripeClient {
    pub fn new(secret_key: String) -> (r: StripeClient)
        ensures
            r.secret_key == secret_key,
    {
        StripeClient { secret_key }
    }

    /// The request that creates a customer for an API key.
    pub fn create_customer(&self, api_key: &str, email: Option<&str>, name: Option<&str>) -> (r: StripeRequest)
        ensures
            r@ == (StripeRequestV {
                url: "https://api.stripe.com/v1/customers"@,
                secret_key: self.secret_key@,
                form: customer_form(api_key@, maybe(email), maybe(name)),
            }),
    {
        let mut form: Vec<(String, String)> = empty_form();
        add_field(&mut form, "metadata[greed_api_key]", api_key);
        assert(form_view(form@) =~= seq![("metadata[greed_api_key]"@, api_key@)]);
        match email {
            Some(e) => add_field(&mut form, "email", e),
            None => {},
        }
        match name {
            Some(n) => add_field(&mut form, "name", n),
            None => {},
        }
        StripeRequest {
            url: "https://api.stripe.com/v1/customers".to_owned(),
            secret_key: self.secret_key.clone(),
            form,
        }
    }

    /// The request that opens a checkout for a subscription.
    pub fn create_checkout_session(
        &self,
        stripe_customer_id: &str,
        price_id: &str,
        success_url: &str,
        cancel_url: &str,
        api_key: &str,
    ) -> (r: StripeRequest)
        ensures
            r@ == (StripeRequestV {
                url: "https://api.stripe.com/v1/checkout/sessions"@,
                secret_key: self.secret_key@,
                form: checkout_form(stripe_customer_id@, price_id@, success_url@, cancel_url@, api_key@),
            }),
    {
        let mut form: Vec<(String, String)> = empty_form();
        add_field(&mut form, "customer", stripe_customer_id);
        add_field(&mut form, "mode", "subscription");
        add_field(&mut form, "line_items[0][price]", price_id);
        add_field(&mut form, "line_items[0][quantity]", "1");
        add_field(&mut form, "success_url", success_url);
        add_field(&mut form, "cancel_url", cancel_url);
        add_field(&mut form, "metadata[greed_api_key]", api_key);
        add_field(&mut form, "subscription_data[metadata][greed_api_key]", api_key);
        assert(form_view(form@) =~= checkout_form(stripe_customer_id@, price_id@, success_url@, cancel_url@, api_key@));
        StripeRequest {
            url: "https://api.stripe.com/v1/checkout/sessions".to_owned(),
            secret_key: self.secret_key.clone(),
            form,
        }
    }

    /// The request that opens the portal in which a customer manages the
    /// subscription.
    pub fn create_portal_session(&self, stripe_customer_id: &str, return_url: &str) -> (r: StripeRequest)
        ensures
            r@ == (StripeRequestV {
                url: "https://api.stripe.com/v1/billing_portal/sessions"@,
                secret_key: self.secret_key@,
                form: seq![("customer"@, stripe_customer_id@), ("return_url"@, return_url@)],
            }),
    {
        let mut form: Vec<(String, String)> = empty_form();
        add_field(&mut form, "customer", stripe_customer_id);
        add_field(&mut form, "return_url", return_url);
        assert(form_view(form@) =~= seq![("customer"@, stripe_customer_id@), ("return_url"@, return_url@)]);
        StripeRequest {
            url: "https://api.stripe.com/v1/billing_portal/sessions".to_owned(),
            secret_key: self.secret_key.clone(),
            form,
        }
    }

    /// The identifier in Stripe's reply to the creation of a customer.
    pub fn customer_reply(body: &Json) -> (r: Result<String, String>)
        ensures
            result_view(r) == reply_field(body@, "id"@),
    {
        read_reply(body, "id")
    }

    /// The address in Stripe's reply to the opening of a checkout or a portal.
    pub fn session_reply(body: &Json) -> (r: Result<String, String>)
        ensures
            result_view(r) == reply_field(body@, "url"@),
    {
        read_reply(body, "url")
    }

    /// Checks the signature of a webhook and parses its event.
    pub fn verify_webhook(payload: &[u8], sig_header: &str, secret: &str) -> (r: Result<Json, String>)
        ensures
            read_view(r) == webhook_event(payload@, sig_header@, secret@),
    {
        let timestamp: String = signature_field(sig_header, "t=");
        let signature: String = signature_field(sig_header, "v1=");
        if timestamp.as_str().is_empty() || signature.as_str().is_empty() {
            return Err("Invalid Stripe-Signature header".to_owned());
        }
        let mut signed: String = timestamp.clone();
        signed.append(".");
        match utf8_text(payload) {
            Some(t) => signed.append(t),
            None => signed.append(""),
        }
        proof {
            reveal_strlit("");
            assert(""@ =~= Seq::<char>::empty());
        }
        let computed: String = match hmac_sha256_code(secret.as_bytes(), signed.as_str().as_bytes()) {
            Some(code) => hex_encode(&code),
            None => String::new(),
        };
        if !same(computed.as_str(), signature.as_str()) {
            return Err("Webhook signature mismatch".to_owned());
        }
        parse_json(payload)
    }
}

/// A result of texts, by its contents.
pub open spec fn result_view(r: Result<String, String>) -> Result<Seq<char>, Seq<char>> {
    match r {
        Ok(s) => Ok(s@),
        Err(e) => Err(e@),
    }
}

/// The string that a reply of Stripe holds under `key`, or an error that quotes
/// the reply.
pub open spec fn reply_field(body: JsonV, key: Seq<char>) -> Result<Seq<char>, Seq<char>> {
    match field_text(body, key) {
        Some(s) => Ok(s),
        None => Err("Stripe error: "@ + json_text(body)),
    }
}

fn read_reply(body: &Json, key: &str) -> (r: Result<String, String>)
    ensures
        result_view(r) == reply_field(body@, key@),
{
    match body.get_string(key) {
        Some(s) => Ok(s),
        None => {
            let mut e: String = "Stripe error: ".to_owned();
            let text: String = print_json(body);
            e.append(text.as_str());
            Err(e)
        },
    }
}

/// What follows `prefix` in the last of `parts` that starts with it.
pub open spec fn last_after(parts: Seq<Seq<char>>, prefix: Seq<char>) -> Seq<char>
    decreases parts.len(),
{
    if parts.len() == 0 {
        Seq::empty()
    } else if prefix.is_prefix_of(parts.last()) {
        parts.last().skip(prefix.len() as int)
    } else {
        last_after(parts.drop_last(), prefix)
    }
}

/// What follows `prefix` in the last comma-separated part of a signature header
/// that starts with it.
fn signature_field(header: &str, prefix: &str) -> (r: String)
    ensures
        r@ == last_after(split(header@, ','), prefix@),
{
    let parts: Vec<String> = split_text(header, ',');
    let p: Vec<char> = chars(prefix);
    let ghost all = texts(parts@);
    let mut n: usize = parts.len();
    assert(all.take(n as int) =~= all);
    while n > 0
        invariant
            n <= parts@.len(),
            all == texts(parts@),
            p@ == prefix@,
            last_after(all, prefix@) == last_after(all.take(n as int), prefix@),
            all == split(header@, ','),
        decreases n,
    {
        proof {
            assert(all.take(n as int).drop_last() =~= all.take(n - 1));
            assert(all.take(n as int).last() == parts@[n - 1]@);
        }
        if starts_with(parts[n - 1].as_str(), prefix) {
            let a: Vec<char> = chars(parts[n - 1].as_str());
            let rest: String = substring(&a, p.len(), a.len());
            assert(rest@ =~= a@.skip(p@.len() as int));
            return rest;
        }
        n -= 1;
    }
    assert(all.take(0) =~= Seq::<Seq<char>>::empty());
    String::new()
}

/// The text of a webhook's payload, empty where it is not UTF-8.
pub open spec fn payload_text(payload: Seq<u8>) -> Seq<char> {
    if valid_utf8(payload) {
        decode_utf8(payload)
    } else {
        Seq::empty()
    }
}

/// The signature of a payload at a time, under a secret: the HMAC-SHA256 of the
/// time, a dot and the payload, in hexadecimal.
pub open spec fn webhook_signature(timestamp: Seq<char>, payload: Seq<u8>, secret: Seq<char>) -> Seq<char> {
    hex_text(hmac_sha256(encode_utf8(secret), encode_utf8(timestamp + "."@ + payload_text(payload)))@)
}

/// The event in a webhook, or why it is refused.
pub open spec fn webhook_event(payload: Seq<u8>, header: Seq<char>, secret: Seq<char>) -> Result<JsonV, Seq<char>> {
    let timestamp = last_after(split(header, ','), "t="@);
    let signature = last_after(split(header, ','), "v1="@);
    if timestamp.len() == 0 || signature.len() == 0 {
        Err("Invalid Stripe-Signature header"@)
    } else if webhook_signature(timestamp, payload, secret) != signature {
        Err("Webhook signature mismatch"@)
    } else {
        json_parse(payload)
    }
}

/// Law: a webhook whose header carries a time and the signature of its payload
/// at that time is taken, and yields what its payload parses to.
pub proof fn law_signed_webhook_is_taken(timestamp: Seq<char>, payload: Seq<u8>, secret: Seq<char>)
    requires
        timestamp.len() > 0,
        !timestamp.contains(','),
    ensures
        webhook_event(
            payload,
            "t="@ + timestamp + ",v1="@ + webhook_signature(timestamp, payload, secret),
            secret,
        ) == json_parse(payload),
{
    reveal_strlit("t=");
    reveal_strlit("v1=");
    reveal_strlit(",v1=");
    let sig = webhook_signature(timestamp, payload, secret);
    let header = "t="@ + timestamp + ",v1="@ + sig;
    let a = "t="@ + timestamp;
    let b = "v1="@ + sig;
    assert(header =~= a + seq![','] + b);
    assert forall|i: int| 0 <= i < a.len() implies a[i] != ',' by {
        if i >= 2 {
            assert(a[i] == timestamp[i - 2]);
            assert(timestamp.contains(timestamp[i - 2]));
        }
    }
    assert forall|i: int| 0 <= i < b.len() implies b[i] != ',' by {
        if i >= 3 {
            assert(b[i] == sig[i - 3]);
            lemma_hex_has_no_comma(
                hmac_sha256(encode_utf8(secret), encode_utf8(timestamp + "."@ + payload_text(payload)))@,
                i - 3,
            );
        }
    }
    lemma_split_plain(a, ',');
    lemma_split_after(a, ',', b);
    let parts = split(header, ',');
    assert(parts =~= seq![a, b]);
    assert(parts.last() == b && parts.drop_last() =~= seq![a]);
    assert("v1="@.is_prefix_of(b)) by {
        assert(b.subrange(0, 3) =~= "v1="@);
    }
    assert(b.skip(3) =~= sig);
    assert(!"t="@.is_prefix_of(b)) by {
        assert(b[0] == 'v');
    }
    assert("t="@.is_prefix_of(a)) by {
        assert(a.subrange(0, 2) =~= "t="@);
    }
    assert(a.skip(2) =~= timestamp);
    reveal_with_fuel(last_after, 3);
    assert(seq![a].last() == a);
}

proof fn lemma_hex_has_no_comma(bytes: Seq<u8>, i: int)
    requires
        0 <= i < hex_text(bytes).len(),
    ensures
        hex_text(bytes)[i] != ',',
{
    let b = bytes[i / 2] as int;
    assert(0 <= b / 16 < 16 && 0 <= b % 16 < 16);
    assert(hex_text(bytes)[i] == hex_digit(b / 16) || hex_text(bytes)[i] == hex_digit(b % 16));
}

/// Law: a webhook is taken only where its header carries the signature of its
/// payload under the secret.
pub proof fn law_forged_webhook_is_refused(payload: Seq<u8>, header: Seq<char>, secret: Seq<char>)
    requires
        webhook_event(payload, header, secret) is Ok,
    ensures
        last_after(split(header, ','), "v1="@) == webhook_signature(
            last_after(split(header, ','), "t="@),
            payload,
            secret,
        ),
{
}

} // verus!
