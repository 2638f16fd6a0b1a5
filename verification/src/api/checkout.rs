//! How a checkout for a subscription is carried out: which work follows which
//! event. Whoever runs the machine does the work and hands back what came of it.
use vstd::prelude::*;
use crate::api::billing::{checkout_opened, create_checkout};
use crate::billing::{checkout_form, customer_form, reply_field, StripeClient, StripeRequest, StripeRequestV};
use crate::db::ApiKeyInfo;
use crate::http::{Next, NextV, Response, ResponseV, INTERNAL_SERVER_ERROR, UNAUTHORIZED};
use crate::json::Json;
use crate::text::maybe_owned;

verus! {

/// A checkout that was admitted.
pub struct CheckoutPlan {
    pub stripe: StripeClient,
    pub api_key: String,
    pub price_id: String,
    /// The plan as it was asked for.
    pub plan: String,
    pub email: Option<String>,
    pub success_url: String,
    pub cancel_url: String,
}

/// How far a checkout has come.
#[derive(Clone, Copy, PartialEq, Eq, Structural)]
pub enum CheckoutState {
    Finding,
    Identifying,
    Creating,
    Opening,
}

impl View for CheckoutState {
    type V = CheckoutState;

    open spec fn view(&self) -> CheckoutState {
        *self
    }
}

/// What happened to a checkout.
pub enum CheckoutEvent {
    /// The customer that is stored for the key.
    Found(Option<String>),
    /// What is known of the key.
    Identified(Option<ApiKeyInfo>),
    /// Stripe's reply, or why there is none.
    Replied(Result<Json, String>),
}

/// What is to be done for a checkout.
pub enum CheckoutWork {
    /// Nothing yet.
    Wait,
    /// Look up the customer of the key.
    Find,
    /// Look up the key.
    Identify,
    /// Send this to Stripe.
    Send(StripeRequest),
}

/// What is to be done for a checkout, as mathematics.
pub enum CheckoutWorkV {
    Wait,
    Find,
    Identify,
    Send(StripeRequestV),
}

impl View for CheckoutWork {
    type V = CheckoutWorkV;

    open spec fn view(&self) -> CheckoutWorkV {
        match self {
            CheckoutWork::Wait => CheckoutWorkV::Wait,
            CheckoutWork::Find => CheckoutWorkV::Find,
            CheckoutWork::Identify => CheckoutWorkV::Identify,
            CheckoutWork::Send(r) => CheckoutWorkV::Send(r@),
        }
    }
}

/// The string that a reply of Stripe holds under `key`.
pub open spec fn replied(reply: Result<Json, String>, key: Seq<char>) -> Option<Seq<char>> {
    match reply {
        Ok(j) => match reply_field(j@, key) {
            Ok(s) => Some(s),
            Err(_) => None,
        },
        Err(_) => None,
    }
}

/// The request that creates the customer of a checkout, under the name of its key.
pub open spec fn customer_request(plan: CheckoutPlan, name: Seq<char>) -> StripeRequestV {
    StripeRequestV {
        url: "https://api.stripe.com/v1/customers"@,
        secret_key: plan.stripe.secret_key@,
        form: customer_form(plan.api_key@, maybe_owned(plan.email), Some(name)),
    }
}

/// The request that opens a checkout for a customer.
pub open spec fn opening_request(plan: CheckoutPlan, customer: Seq<char>) -> StripeRequestV {
    StripeRequestV {
        url: "https://api.stripe.com/v1/checkout/sessions"@,
        secret_key: plan.stripe.secret_key@,
        form: checkout_form(customer, plan.price_id@, plan.success_url@, plan.cancel_url@, plan.api_key@),
    }
}

/// What follows an event: the checkout is opened for the customer of the key, or
/// for a new one, which takes a known key.
pub open spec fn checkout_step(plan: CheckoutPlan, s: CheckoutState, e: CheckoutEvent) -> NextV<
    CheckoutState,
    CheckoutWorkV,
> {
    match (s, e) {
        (CheckoutState::Finding, CheckoutEvent::Found(customer)) => match customer {
            Some(id) => NextV::Do(CheckoutState::Opening, CheckoutWorkV::Send(opening_request(plan, id@))),
            None => NextV::Do(CheckoutState::Identifying, CheckoutWorkV::Identify),
        },
        (CheckoutState::Identifying, CheckoutEvent::Identified(info)) => match info {
            Some(i) => NextV::Do(CheckoutState::Creating, CheckoutWorkV::Send(customer_request(plan, i.name@))),
            None => NextV::Answer(ResponseV::Status(UNAUTHORIZED)),
        },
        (CheckoutState::Creating, CheckoutEvent::Replied(reply)) => match replied(reply, "id"@) {
            Some(id) => NextV::Do(CheckoutState::Opening, CheckoutWorkV::Send(opening_request(plan, id))),
            None => NextV::Answer(ResponseV::Status(INTERNAL_SERVER_ERROR)),
        },
        (CheckoutState::Opening, CheckoutEvent::Replied(reply)) => NextV::Answer(
            checkout_opened(replied(reply, "url"@), plan.plan@),
        ),
        _ => NextV::Do(s, CheckoutWorkV::Wait),
    }
}

/// The first state and work of a checkout.
pub fn checkout_begin() -> (r: (CheckoutState, CheckoutWork))
    ensures
        r == (CheckoutState::Finding, CheckoutWork::Find),
{
    (CheckoutState::Finding, CheckoutWork::Find)
}

/// The request that opens a checkout for a customer.
fn open_checkout(plan: &CheckoutPlan, customer: &str) -> (r: StripeRequest)
    ensures
        r@ == opening_request(*plan, customer@),
{
    plan.stripe.create_checkout_session(
        customer,
        plan.price_id.as_str(),
        plan.success_url.as_str(),
        plan.cancel_url.as_str(),
        plan.api_key.as_str(),
    )
}

/// What follows an event.
pub fn checkout_next(plan: &CheckoutPlan, s: CheckoutState, e: CheckoutEvent) -> (r: Next<CheckoutState, CheckoutWork>)
    ensures
        r@ == checkout_step(*plan, s, e),
{
    match (s, e) {
        (CheckoutState::Finding, CheckoutEvent::Found(customer)) => match customer {
            Some(id) => Next::Do(CheckoutState::Opening, CheckoutWork::Send(open_checkout(plan, id.as_str()))),
            None => Next::Do(CheckoutState::Identifying, CheckoutWork::Identify),
        },
        (CheckoutState::Identifying, CheckoutEvent::Identified(info)) => match info {
            Some(i) => {
                let email: Option<&str> = match &plan.email {
                    Some(e) => Some(e.as_str()),
                    None => None,
                };
                let request: StripeRequest = plan.stripe.create_customer(
                    plan.api_key.as_str(),
                    email,
                    Some(i.name.as_str()),
                );
                Next::Do(CheckoutState::Creating, CheckoutWork::Send(request))
            },
            None => Next::Answer(Response::Status(UNAUTHORIZED)),
        },
        (CheckoutState::Creating, CheckoutEvent::Replied(reply)) => {
            let id: Result<String, String> = match &reply {
                Ok(j) => StripeClient::customer_reply(j),
                Err(_) => Err(String::new()),
            };
            match id {
                Ok(id) => Next::Do(CheckoutState::Opening, CheckoutWork::Send(open_checkout(plan, id.as_str()))),
                Err(_) => Next::Answer(Response::Status(INTERNAL_SERVER_ERROR)),
            }
        },
        (CheckoutState::Opening, CheckoutEvent::Replied(reply)) => {
            let url: Result<String, String> = match &reply {
                Ok(j) => StripeClient::session_reply(j),
                Err(_) => Err(String::new()),
            };
            match url {
                Ok(u) => Next::Answer(create_checkout(Some(u.as_str()), plan.plan.as_str())),
                Err(_) => Next::Answer(create_checkout(None, plan.plan.as_str())),
            }
        },
        (s, _) => Next::Do(s, CheckoutWork::Wait),
    }
}

/// Law: a key that has a customer gets no second one: from the customer that is
/// stored the checkout is opened at once, and a customer is created only where
/// none is stored.
pub proof fn law_one_customer_per_key(plan: CheckoutPlan, s: CheckoutState, e: CheckoutEvent)
    ensures
        checkout_step(plan, CheckoutState::Finding, e) matches NextV::Do(CheckoutState::Identifying, _) ==> e
            == CheckoutEvent::Found(None),
        checkout_step(plan, s, e) matches NextV::Do(CheckoutState::Creating, CheckoutWorkV::Send(_)) ==> s
            == CheckoutState::Identifying,
        e matches CheckoutEvent::Found(Some(id)) ==> checkout_step(plan, CheckoutState::Finding, e) == NextV::Do(
            CheckoutState::Opening,
            CheckoutWorkV::Send(opening_request(plan, id@)),
        ),
{
}

} // verus!
