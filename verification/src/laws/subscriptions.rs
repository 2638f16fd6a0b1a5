//! Laws on subscriptions and usage: a key is on the plan that it pays for.
use vstd::prelude::*;
use vstd::string::*;
use vstd::utf8::{decode_utf8, encode_utf8, valid_utf8};
use crate::api::billing::{
    checkout_entry, checkout_opened, event_action, page, plan_of_price, received, usage_value, WebhookAction,
    WebhookActionV,
};
use crate::billing::{
    checkout_form, credits_of, customer_form, last_after, limits_of, payload_text, plan_name, plan_of, reply_field,
    webhook_event, webhook_signature, Plan,
};
use crate::codec::{hex_text, hmac_sha256};
use crate::http::ResponseV;
use crate::json::{field, json_parse, json_text, pointer, pointer_text, JsonV};
use crate::laws::{has_just, law_pointer_goes_by_name};
use crate::text::split;

verus! {

/// The text under a name of a value that lies under another name.
pub open spec fn inner_text(v: JsonV, outer: Seq<char>, inner: Seq<char>) -> Option<Seq<char>> {
    match field(v, outer) {
        Some(JsonV::Obj(m)) => match field(JsonV::Obj(m), inner) {
            Some(JsonV::Str(s)) => Some(s),
            _ => None,
        },
        _ => None,
    }
}

/// Whether the first item of a subscription has this price.
pub open spec fn first_price(sub: JsonV, price: Seq<char>) -> bool {
    field(sub, "items"@) matches Some(items) && field(items, "data"@) matches Some(JsonV::Arr(list)) && list.len() > 0
        && inner_text(list[0], "price"@, "id"@) == Some(price)
}

/// The subscription that an event is about.
pub open spec fn subject(event: JsonV) -> Option<JsonV> {
    match field(event, "data"@) {
        Some(data) => field(data, "object"@),
        None => None,
    }
}

/// Law: what lies under two names is reached by them, and so is the price of
/// the first item.
pub proof fn law_pointers_reach_inside(v: JsonV, outer: Seq<char>, inner: Seq<char>, price: Seq<char>)
    ensures
        v is Obj && (field(v, outer) matches Some(m) && m is Obj) ==> pointer(v, seq![outer, inner]) == field(
            field(v, outer)->Some_0,
            inner,
        ),
        v is Obj && (field(v, outer) matches Some(m) && m is Obj) ==> pointer_text(v, seq![outer, inner]) == inner_text(
            v,
            outer,
            inner,
        ),
        field(v, outer) is None && v is Obj ==> pointer(v, seq![outer, inner]) is None,
        first_price(v, price) ==> pointer_text(v, seq!["items"@, "data"@, "0"@, "price"@, "id"@]) == Some(price),
{
    let none = Seq::<Seq<char>>::empty();
    law_pointer_goes_by_name(v, none, v, outer);
    assert(none.push(outer) =~= seq![outer]);
    assert(seq![outer, inner].drop_last() =~= seq![outer]);
    if let Some(m) = field(v, outer) {
        if v is Obj {
            law_pointer_goes_by_name(v, seq![outer], m, inner);
            assert(seq![outer].push(inner) =~= seq![outer, inner]);
        }
    }
    if first_price(v, price) {
        let t1 = seq!["items"@];
        let t2 = t1.push("data"@);
        let t3 = t2.push("0"@);
        let t4 = t3.push("price"@);
        let t5 = t4.push("id"@);
        let items = field(v, "items"@)->Some_0;
        let list = field(items, "data"@)->Some_0;
        let first = list->Arr_0[0];
        law_pointer_goes_by_name(v, none, v, "items"@);
        assert(none.push("items"@) =~= t1);
        law_pointer_goes_by_name(v, t1, items, "data"@);
        law_pointer_goes_by_name(v, t2, list, "0"@);
        law_pointer_goes_by_name(v, t3, first, "price"@);
        let at = field(first, "price"@)->Some_0;
        law_pointer_goes_by_name(v, t4, at, "id"@);
        assert(t5 =~= seq!["items"@, "data"@, "0"@, "price"@, "id"@]);
    }
}

/// Law: below a name that an object has not there is nothing.
pub proof fn law_pointers_end_where_nothing_is(v: JsonV, name: Seq<char>, rest: Seq<Seq<char>>)
    requires
        v is Obj,
        field(v, name) is None,
    ensures
        pointer(v, seq![name] + rest) is None,
    decreases rest.len(),
{
    if rest.len() == 0 {
        let none = Seq::<Seq<char>>::empty();
        law_pointer_goes_by_name(v, none, v, name);
        assert(none.push(name) =~= seq![name]);
        assert(seq![name] + rest =~= seq![name]);
    } else {
        law_pointers_end_where_nothing_is(v, name, rest.drop_last());
        assert((seq![name] + rest).drop_last() =~= seq![name] + rest.drop_last());
    }
}

/// Law: an event that a subscription was created or updated, and that names a key and a
/// customer, stores the subscription of that key as active, on the plan that the price
/// of its first item buys: the price that is configured for a plan buys that plan, and
/// any other buys none.
pub proof fn law_subscription_buys_what_its_price_buys(
    event: JsonV,
    kind: Seq<char>,
    sub: JsonV,
    customer: Seq<char>,
    key: Seq<char>,
    price: Seq<char>,
    pro: Seq<char>,
    enterprise: Seq<char>,
)
    requires
        field(event, "type"@) == Some(JsonV::Str(kind)),
        subject(event) == Some(sub),
        field(sub, "customer"@) == Some(JsonV::Str(customer)),
        customer.len() > 0,
        inner_text(sub, "metadata"@, "greed_api_key"@) == Some(key),
        key.len() > 0,
        kind == "customer.subscription.created"@ || kind == "customer.subscription.updated"@,
        first_price(sub, price),
        pro.len() > 0,
        enterprise.len() > 0,
        pro != enterprise,
    ensures
        price == enterprise ==> (
            event_action(event, pro, enterprise)
                matches WebhookActionV::Store { api_key, customer_id, subscription_id, plan, status }
                && api_key == key
                && customer_id == customer
                && status == "active"@
                && plan == "enterprise"@
        ),
        price == pro ==> (
            event_action(event, pro, enterprise)
                matches WebhookActionV::Store { api_key, customer_id, subscription_id, plan, status }
                && api_key == key
                && customer_id == customer
                && status == "active"@
                && plan == "pro"@
        ),
        price != pro && price != enterprise ==> (
            event_action(event, pro, enterprise)
                matches WebhookActionV::Store { api_key, customer_id, subscription_id, plan, status }
                && api_key == key
                && customer_id == customer
                && status == "active"@
                && plan == "free"@
        ),
        field(sub, "id"@) matches Some(JsonV::Str(id)) ==> (
            event_action(event, pro, enterprise) matches WebhookActionV::Store { subscription_id, .. }
                && subscription_id == id
        ),
{
    assert(event is Obj && sub is Obj);
    law_pointers_reach_inside(event, "data"@, "object"@, price);
    law_pointers_reach_inside(sub, "metadata"@, "greed_api_key"@, price);
    reveal_strlit("customer.subscription.created");
    reveal_strlit("customer.subscription.updated");
    reveal_strlit("customer.subscription.deleted");
    reveal_strlit("invoice.payment_failed");
    assert("customer.subscription.created"@.len() == 29);
    assert("customer.subscription.updated"@.len() == 29);
    assert("customer.subscription.deleted"@.len() == 29);
    assert("invoice.payment_failed"@.len() == 22);
    assert("customer.subscription.created"@[22] != "customer.subscription.updated"@[22]);
    assert("customer.subscription.created"@[22] != "customer.subscription.deleted"@[22]);
    assert("customer.subscription.updated"@[22] != "customer.subscription.deleted"@[22]);
    reveal_strlit("free");
    reveal_strlit("pro");
    reveal_strlit("enterprise");
    reveal_strlit("active");
    reveal_strlit("cancelled");
    assert("free"@.len() == 4);
    assert("pro"@.len() == 3);
    assert("enterprise"@.len() == 10);
    assert("active"@.len() == 6);
    assert("cancelled"@.len() == 9);
    law_pointers_reach_inside(sub, "items"@, "data"@, price);
}

/// Law: a price that is not configured buys nothing: where no price is configured for a
/// plan, no subscription is stored on it.
pub proof fn law_unconfigured_price_buys_nothing(
    event: JsonV,
    kind: Seq<char>,
    sub: JsonV,
    customer: Seq<char>,
    key: Seq<char>,
    price: Seq<char>,
    pro: Seq<char>,
    enterprise: Seq<char>,
)
    requires
        field(event, "type"@) == Some(JsonV::Str(kind)),
        subject(event) == Some(sub),
        field(sub, "customer"@) == Some(JsonV::Str(customer)),
        customer.len() > 0,
        inner_text(sub, "metadata"@, "greed_api_key"@) == Some(key),
        key.len() > 0,
        kind == "customer.subscription.created"@ || kind == "customer.subscription.updated"@,
        first_price(sub, price),
    ensures
        pro.len() == 0 && enterprise.len() == 0 ==> (
            event_action(event, pro, enterprise)
                matches WebhookActionV::Store { api_key, customer_id, subscription_id, plan, status }
                && api_key == key
                && customer_id == customer
                && status == "active"@
                && plan == "free"@
        ),
        pro.len() == 0 && enterprise.len() > 0 && price == enterprise ==> (
            event_action(event, pro, enterprise)
                matches WebhookActionV::Store { api_key, customer_id, subscription_id, plan, status }
                && api_key == key
                && customer_id == customer
                && status == "active"@
                && plan == "enterprise"@
        ),
        enterprise.len() == 0 && pro.len() > 0 && price == pro ==> (
            event_action(event, pro, enterprise)
                matches WebhookActionV::Store { api_key, customer_id, subscription_id, plan, status }
                && api_key == key
                && customer_id == customer
                && status == "active"@
                && plan == "pro"@
        ),
        event_action(event, pro, enterprise) matches WebhookActionV::Store { plan, .. }
            && (plan == "pro"@ ==> price == pro && pro.len() > 0)
            && (plan == "enterprise"@ ==> price == enterprise && enterprise.len() > 0),
{
    assert(event is Obj && sub is Obj);
    law_pointers_reach_inside(event, "data"@, "object"@, price);
    law_pointers_reach_inside(sub, "metadata"@, "greed_api_key"@, price);
    reveal_strlit("customer.subscription.created");
    reveal_strlit("customer.subscription.updated");
    reveal_strlit("customer.subscription.deleted");
    reveal_strlit("invoice.payment_failed");
    assert("customer.subscription.created"@.len() == 29);
    assert("customer.subscription.updated"@.len() == 29);
    assert("customer.subscription.deleted"@.len() == 29);
    assert("invoice.payment_failed"@.len() == 22);
    assert("customer.subscription.created"@[22] != "customer.subscription.updated"@[22]);
    assert("customer.subscription.created"@[22] != "customer.subscription.deleted"@[22]);
    assert("customer.subscription.updated"@[22] != "customer.subscription.deleted"@[22]);
    reveal_strlit("free");
    reveal_strlit("pro");
    reveal_strlit("enterprise");
    reveal_strlit("active");
    reveal_strlit("cancelled");
    assert("free"@.len() == 4);
    assert("pro"@.len() == 3);
    assert("enterprise"@.len() == 10);
    assert("active"@.len() == 6);
    assert("cancelled"@.len() == 9);
}

/// Law: an event that a subscription was created or updated, and that names a key and a
/// customer but no price, stores the subscription as active, on no plan.
pub proof fn law_subscription_without_a_price_buys_nothing(
    event: JsonV,
    kind: Seq<char>,
    sub: JsonV,
    customer: Seq<char>,
    key: Seq<char>,
    price: Seq<char>,
    pro: Seq<char>,
    enterprise: Seq<char>,
)
    requires
        field(event, "type"@) == Some(JsonV::Str(kind)),
        subject(event) == Some(sub),
        field(sub, "customer"@) == Some(JsonV::Str(customer)),
        customer.len() > 0,
        inner_text(sub, "metadata"@, "greed_api_key"@) == Some(key),
        key.len() > 0,
        kind == "customer.subscription.created"@ || kind == "customer.subscription.updated"@,
        field(sub, "items"@) is None,
    ensures
        (
            event_action(event, pro, enterprise)
                matches WebhookActionV::Store { api_key, customer_id, subscription_id, plan, status }
                && api_key == key
                && customer_id == customer
                && status == "active"@
                && plan == "free"@
        ),
{
    assert(event is Obj && sub is Obj);
    law_pointers_reach_inside(event, "data"@, "object"@, price);
    law_pointers_reach_inside(sub, "metadata"@, "greed_api_key"@, price);
    reveal_strlit("customer.subscription.created");
    reveal_strlit("customer.subscription.updated");
    reveal_strlit("customer.subscription.deleted");
    reveal_strlit("invoice.payment_failed");
    assert("customer.subscription.created"@.len() == 29);
    assert("customer.subscription.updated"@.len() == 29);
    assert("customer.subscription.deleted"@.len() == 29);
    assert("invoice.payment_failed"@.len() == 22);
    assert("customer.subscription.created"@[22] != "customer.subscription.updated"@[22]);
    assert("customer.subscription.created"@[22] != "customer.subscription.deleted"@[22]);
    assert("customer.subscription.updated"@[22] != "customer.subscription.deleted"@[22]);
    reveal_strlit("free");
    reveal_strlit("pro");
    reveal_strlit("enterprise");
    reveal_strlit("active");
    reveal_strlit("cancelled");
    assert("free"@.len() == 4);
    assert("pro"@.len() == 3);
    assert("enterprise"@.len() == 10);
    assert("active"@.len() == 6);
    assert("cancelled"@.len() == 9);
    law_pointers_end_where_nothing_is(sub, "items"@, seq!["data"@, "0"@, "price"@, "id"@]);
    assert(seq!["items"@] + seq!["data"@, "0"@, "price"@, "id"@] =~= seq!["items"@, "data"@, "0"@, "price"@, "id"@]);
}

/// Law: a subscription without any item is stored as active, on no plan.
pub proof fn law_empty_list_of_items_buys_nothing(
    event: JsonV,
    kind: Seq<char>,
    sub: JsonV,
    customer: Seq<char>,
    key: Seq<char>,
    price: Seq<char>,
    pro: Seq<char>,
    enterprise: Seq<char>,
    items: JsonV,
)
    requires
        field(event, "type"@) == Some(JsonV::Str(kind)),
        subject(event) == Some(sub),
        field(sub, "customer"@) == Some(JsonV::Str(customer)),
        customer.len() > 0,
        inner_text(sub, "metadata"@, "greed_api_key"@) == Some(key),
        key.len() > 0,
        kind == "customer.subscription.created"@ || kind == "customer.subscription.updated"@,
        field(sub, "items"@) == Some(items),
        field(items, "data"@) == Some(JsonV::Arr(Seq::empty())),
    ensures
        (
            event_action(event, pro, enterprise)
                matches WebhookActionV::Store { api_key, customer_id, subscription_id, plan, status }
                && api_key == key
                && customer_id == customer
                && status == "active"@
                && plan == "free"@
        ),
{
    assert(event is Obj && sub is Obj);
    law_pointers_reach_inside(event, "data"@, "object"@, price);
    law_pointers_reach_inside(sub, "metadata"@, "greed_api_key"@, price);
    reveal_strlit("customer.subscription.created");
    reveal_strlit("customer.subscription.updated");
    reveal_strlit("customer.subscription.deleted");
    reveal_strlit("invoice.payment_failed");
    assert("customer.subscription.created"@.len() == 29);
    assert("customer.subscription.updated"@.len() == 29);
    assert("customer.subscription.deleted"@.len() == 29);
    assert("invoice.payment_failed"@.len() == 22);
    assert("customer.subscription.created"@[22] != "customer.subscription.updated"@[22]);
    assert("customer.subscription.created"@[22] != "customer.subscription.deleted"@[22]);
    assert("customer.subscription.updated"@[22] != "customer.subscription.deleted"@[22]);
    reveal_strlit("free");
    reveal_strlit("pro");
    reveal_strlit("enterprise");
    reveal_strlit("active");
    reveal_strlit("cancelled");
    assert("free"@.len() == 4);
    assert("pro"@.len() == 3);
    assert("enterprise"@.len() == 10);
    assert("active"@.len() == 6);
    assert("cancelled"@.len() == 9);
    let path = seq!["items"@, "data"@];
    law_pointers_reach_inside(sub, "items"@, "data"@, price);
    assert(pointer(sub, path) == Some(JsonV::Arr(Seq::empty())));
    assert(path.push("0"@).drop_last() =~= path);
    assert(pointer(sub, path.push("0"@)) is None);
    let more = path.push("0"@).push("price"@);
    assert(more.drop_last() =~= path.push("0"@));
    assert(pointer(sub, more) is None);
    assert(more.push("id"@).drop_last() =~= more);
    assert(pointer(sub, more.push("id"@)) is None);
    assert(more.push("id"@) =~= seq!["items"@, "data"@, "0"@, "price"@, "id"@]);
    assert(pointer_text(sub, seq!["items"@, "data"@, "0"@, "price"@, "id"@]) is None);
}

/// Law: an event with an empty customer, or without a key or with an empty one, stores
/// nothing.
pub proof fn law_nameless_events_store_nothing(
    event: JsonV,
    kind: Seq<char>,
    sub: JsonV,
    pro: Seq<char>,
    enterprise: Seq<char>,
)
    requires
        field(event, "type"@) == Some(JsonV::Str(kind)),
        subject(event) == Some(sub),
    ensures
        field(sub, "customer"@) == Some(JsonV::Str(Seq::empty()))
            ==> !(event_action(event, pro, enterprise) is Store),
        inner_text(sub, "metadata"@, "greed_api_key"@) == Some(Seq::<char>::empty())
            ==> !(event_action(event, pro, enterprise) is Store),
        sub is Obj
            && (
                field(sub, "metadata"@) matches Some(m)
                    && m is Obj
                    && !(field(m, "greed_api_key"@) matches Some(JsonV::Str(_)))
            )
            ==> !(event_action(event, pro, enterprise) is Store),
        event_action(event, pro, enterprise) matches WebhookActionV::Store { subscription_id, .. }
            ==> (field(sub, "id"@) matches Some(JsonV::Str(id)) ==> subscription_id == id)
                && (!(field(sub, "id"@) matches Some(JsonV::Str(_))) ==> subscription_id.len() == 0),
        event_action(event, pro, enterprise) matches WebhookActionV::Store { api_key, customer_id, .. }
            ==> api_key.len() > 0 && field(sub, "customer"@) == Some(JsonV::Str(customer_id)),
{
    law_pointers_reach_inside(event, "data"@, "object"@, kind);
    law_pointers_reach_inside(sub, "metadata"@, "greed_api_key"@, kind);
    reveal_strlit("customer.subscription.created");
    reveal_strlit("customer.subscription.updated");
    reveal_strlit("customer.subscription.deleted");
    reveal_strlit("invoice.payment_failed");
    assert("customer.subscription.created"@.len() == 29);
    assert("customer.subscription.updated"@.len() == 29);
    assert("customer.subscription.deleted"@.len() == 29);
    assert("invoice.payment_failed"@.len() == 22);
    assert("customer.subscription.created"@[22] != "customer.subscription.updated"@[22]);
    assert("customer.subscription.created"@[22] != "customer.subscription.deleted"@[22]);
    assert("customer.subscription.updated"@[22] != "customer.subscription.deleted"@[22]);
}

/// Law: a price buys the plan that it is configured for, and a price that is configured
/// for none buys none.
pub proof fn law_prices_buy_their_plan(price: Seq<char>, pro: Seq<char>, enterprise: Seq<char>)
    ensures
        price == pro && pro.len() > 0 ==> plan_of_price(price, pro, enterprise) == Some("pro"@),
        price == enterprise && enterprise.len() > 0 && price != pro
            ==> plan_of_price(price, pro, enterprise) == Some("enterprise"@),
        (price != pro || pro.len() == 0) && (price != enterprise || enterprise.len() == 0)
            ==> plan_of_price(price, pro, enterprise) is None,
{
}

/// Law: that a subscription was created and that it was updated store the same for the
/// same subscription.
pub proof fn law_created_and_updated_store_the_same(
    created: JsonV,
    updated: JsonV,
    pro: Seq<char>,
    enterprise: Seq<char>,
)
    requires
        field(created, "type"@) == Some(JsonV::Str("customer.subscription.created"@)),
        field(updated, "type"@) == Some(JsonV::Str("customer.subscription.updated"@)),
        field(created, "data"@) == field(updated, "data"@),
    ensures
        event_action(created, pro, enterprise) == event_action(updated, pro, enterprise),
{
    let none = Seq::<Seq<char>>::empty();
    let path = seq!["data"@, "object"@];
    law_pointer_goes_by_name(created, none, created, "data"@);
    law_pointer_goes_by_name(updated, none, updated, "data"@);
    assert(none.push("data"@) =~= seq!["data"@]);
    assert(path.drop_last() =~= seq!["data"@]);
    assert(pointer(created, path) == pointer(updated, path));
    reveal_strlit("customer.subscription.created");
    reveal_strlit("customer.subscription.updated");
    reveal_strlit("customer.subscription.deleted");
    reveal_strlit("invoice.payment_failed");
    assert("customer.subscription.created"@.len() == 29);
    assert("customer.subscription.updated"@.len() == 29);
    assert("customer.subscription.deleted"@.len() == 29);
    assert("invoice.payment_failed"@.len() == 22);
    assert("customer.subscription.created"@[22] != "customer.subscription.updated"@[22]);
    assert("customer.subscription.created"@[22] != "customer.subscription.deleted"@[22]);
    assert("customer.subscription.updated"@[22] != "customer.subscription.deleted"@[22]);
}

/// Law: an event that a subscription was deleted stores it as cancelled, on no plan,
/// whatever its price.
pub proof fn law_deleted_subscription_is_cancelled(
    event: JsonV,
    kind: Seq<char>,
    sub: JsonV,
    customer: Seq<char>,
    key: Seq<char>,
    price: Seq<char>,
    pro: Seq<char>,
    enterprise: Seq<char>,
)
    requires
        field(event, "type"@) == Some(JsonV::Str(kind)),
        subject(event) == Some(sub),
        field(sub, "customer"@) == Some(JsonV::Str(customer)),
        customer.len() > 0,
        inner_text(sub, "metadata"@, "greed_api_key"@) == Some(key),
        key.len() > 0,
        kind == "customer.subscription.deleted"@,
    ensures
        (
            event_action(event, pro, enterprise)
                matches WebhookActionV::Store { api_key, customer_id, subscription_id, plan, status }
                && api_key == key
                && customer_id == customer
                && status == "cancelled"@
                && plan == "free"@
        ),
{
    assert(event is Obj && sub is Obj);
    law_pointers_reach_inside(event, "data"@, "object"@, price);
    law_pointers_reach_inside(sub, "metadata"@, "greed_api_key"@, price);
    reveal_strlit("customer.subscription.created");
    reveal_strlit("customer.subscription.updated");
    reveal_strlit("customer.subscription.deleted");
    reveal_strlit("invoice.payment_failed");
    assert("customer.subscription.created"@.len() == 29);
    assert("customer.subscription.updated"@.len() == 29);
    assert("customer.subscription.deleted"@.len() == 29);
    assert("invoice.payment_failed"@.len() == 22);
    assert("customer.subscription.created"@[22] != "customer.subscription.updated"@[22]);
    assert("customer.subscription.created"@[22] != "customer.subscription.deleted"@[22]);
    assert("customer.subscription.updated"@[22] != "customer.subscription.deleted"@[22]);
    reveal_strlit("free");
    reveal_strlit("pro");
    reveal_strlit("enterprise");
    reveal_strlit("active");
    reveal_strlit("cancelled");
    assert("free"@.len() == 4);
    assert("pro"@.len() == 3);
    assert("enterprise"@.len() == 10);
    assert("active"@.len() == 6);
    assert("cancelled"@.len() == 9);
}

/// Law: an event that names no key, no customer or no subscription stores nothing, and
/// neither does an event of another kind; that a payment failed is told with its
/// customer.
pub proof fn law_other_events_store_nothing(
    event: JsonV,
    kind: Seq<char>,
    sub: JsonV,
    customer: Seq<char>,
    pro: Seq<char>,
    enterprise: Seq<char>,
)
    requires
        field(event, "type"@) == Some(JsonV::Str(kind)),
    ensures
        event_action(event, pro, enterprise) is Store
            ==> kind == "customer.subscription.created"@
                || kind == "customer.subscription.updated"@
                || kind == "customer.subscription.deleted"@,
        subject(event) == Some(sub) && !(field(sub, "customer"@) matches Some(JsonV::Str(_)))
            ==> !(event_action(event, pro, enterprise) is Store),
        subject(event) == Some(sub) && sub is Obj && field(sub, "metadata"@) is None
            ==> !(event_action(event, pro, enterprise) is Store),
        field(event, "data"@) is None ==> !(event_action(event, pro, enterprise) is Store),
        kind == "invoice.payment_failed"@
            && subject(event) == Some(sub)
            && field(sub, "customer"@) == Some(JsonV::Str(customer))
            ==> event_action(event, pro, enterprise) == WebhookActionV::PaymentFailed(customer),
        event_action(event, pro, enterprise) is PaymentFailed ==> kind == "invoice.payment_failed"@,
{
    law_pointers_reach_inside(event, "data"@, "object"@, kind);
    law_pointers_reach_inside(sub, "metadata"@, "greed_api_key"@, kind);
    if subject(event) == Some(sub) {
        let path = seq!["data"@, "object"@];
        assert(pointer(event, path) == Some(sub));
        law_pointer_goes_by_name(event, path, sub, "customer"@);
        assert(path.push("customer"@) =~= seq!["data"@, "object"@, "customer"@]);
    }
    reveal_strlit("customer.subscription.created");
    reveal_strlit("customer.subscription.updated");
    reveal_strlit("customer.subscription.deleted");
    reveal_strlit("invoice.payment_failed");
    assert("customer.subscription.created"@.len() == 29);
    assert("customer.subscription.updated"@.len() == 29);
    assert("customer.subscription.deleted"@.len() == 29);
    assert("invoice.payment_failed"@.len() == 22);
    assert("customer.subscription.created"@[22] != "customer.subscription.updated"@[22]);
    assert("customer.subscription.created"@[22] != "customer.subscription.deleted"@[22]);
    assert("customer.subscription.updated"@[22] != "customer.subscription.deleted"@[22]);
}

/// Law: what is to be done after an event is known by what its fields say.
pub proof fn law_actions_keep_their_names(a: WebhookAction)
    ensures
        a matches WebhookAction::Store { api_key, customer_id, subscription_id, plan, status }
            ==> a@ == (
                WebhookActionV::Store {
                    api_key: api_key@,
                    customer_id: customer_id@,
                    subscription_id: subscription_id@,
                    plan: plan@,
                    status: status@,
                }
            ),
        a matches WebhookAction::PaymentFailed(c) ==> a@ == WebhookActionV::PaymentFailed(c@),
        a is Nothing ==> a@ is Nothing,
{
}

/// Law: with a secret only a signed body is taken, as what it says; without one every
/// body is, and one that is no JSON as `null`.
pub proof fn law_events_are_taken_when_signed(
    body: Seq<u8>,
    signature: Seq<char>,
    secret: Seq<char>,
    v: JsonV,
    e: Seq<char>,
)
    ensures
        secret.len() == 0 && json_parse(body) == Ok::<JsonV, Seq<char>>(v)
            ==> received(body, signature, secret) == Some(v),
        secret.len() == 0 && json_parse(body) is Err ==> received(body, signature, secret) == Some(JsonV::Null),
        secret.len() > 0 && webhook_event(body, signature, secret) == Ok::<JsonV, Seq<char>>(v)
            ==> received(body, signature, secret) == Some(v),
        secret.len() > 0 && webhook_event(body, signature, secret) == Err::<JsonV, Seq<char>>(e)
            ==> received(body, signature, secret) is None,
{
}

/// Law: the signature of a webhook is that of its time and its body, under the secret;
/// a header has its time and its signature, and of several the last counts.
pub proof fn law_signature_is_of_time_and_body(
    t: Seq<char>,
    body: Seq<u8>,
    secret: Seq<char>,
    header: Seq<char>,
)
    ensures
        webhook_signature(t, body, secret) == hex_text(
            hmac_sha256(encode_utf8(secret), encode_utf8(t + "."@ + payload_text(body)))@,
        ),
        valid_utf8(body) ==> payload_text(body) == decode_utf8(body),
        !valid_utf8(body) ==> payload_text(body).len() == 0,
        webhook_event(body, header, secret) is Ok
            ==> webhook_event(body, header, secret) == json_parse(body)
                && last_after(split(header, ','), "v1="@) == webhook_signature(
                    last_after(split(header, ','), "t="@),
                    body,
                    secret,
                )
                && last_after(split(header, ','), "t="@).len() > 0,
        last_after(split(header, ','), "t="@).len() > 0
            && last_after(split(header, ','), "v1="@).len() > 0
            && last_after(split(header, ','), "v1="@) == webhook_signature(
                last_after(split(header, ','), "t="@),
                body,
                secret,
            )
            ==> webhook_event(body, header, secret) == json_parse(body),
        last_after(split(header, ','), "t="@).len() == 0 || last_after(split(header, ','), "v1="@).len() == 0
            ==> webhook_event(body, header, secret) == Err::<JsonV, Seq<char>>("Invalid Stripe-Signature header"@),
        last_after(split(header, ','), "t="@).len() > 0
            && last_after(split(header, ','), "v1="@).len() > 0
            && last_after(split(header, ','), "v1="@) != webhook_signature(
                last_after(split(header, ','), "t="@),
                body,
                secret,
            )
            ==> webhook_event(body, header, secret) == Err::<JsonV, Seq<char>>("Webhook signature mismatch"@),
{
}

/// Law: what stands behind a prefix is taken from the last part that has it.
pub proof fn law_last_part_counts(parts: Seq<Seq<char>>, prefix: Seq<char>, value: Seq<char>, other: Seq<char>)
    ensures
        last_after(parts.push(prefix + value), prefix) == value,
        !prefix.is_prefix_of(other) ==> last_after(parts.push(other), prefix) == last_after(parts, prefix),
        last_after(Seq::empty(), prefix).len() == 0,
{
    let all = prefix + value;
    assert(parts.push(all).drop_last() =~= parts);
    assert(parts.push(other).drop_last() =~= parts);
    assert(all.subrange(0, prefix.len() as int) =~= prefix);
    assert(all.skip(prefix.len() as int) =~= value);
}

/// Law: a plan is bought at the price that is configured for it: the names of a plan
/// ask for its own price and for no other.
pub proof fn law_plans_are_bought_by_their_price(
    key: Seq<char>,
    plan: Seq<char>,
    pro: Seq<char>,
    enterprise: Seq<char>,
    configured: bool,
    a: Option<Seq<char>>,
    b: Option<Seq<char>>,
)
    ensures
        plan == "builder"@ || plan == "pro"@
            ==> checkout_entry(Some(key), plan, true, Some(pro), b) == Ok::<(Seq<char>, Seq<char>), ResponseV>(
                (key, pro),
            ),
        plan == "scale"@ || plan == "enterprise"@
            ==> checkout_entry(Some(key), plan, true, a, Some(enterprise)) == Ok::<(Seq<char>, Seq<char>), ResponseV>(
                (key, enterprise),
            ),
        (plan == "builder"@ || plan == "pro"@) && a is None
            ==> checkout_entry(Some(key), plan, configured, a, b) == Err::<(Seq<char>, Seq<char>), ResponseV>(
                ResponseV::Status(503),
            ),
        (plan == "scale"@ || plan == "enterprise"@) && b is None
            ==> checkout_entry(Some(key), plan, configured, a, b) == Err::<(Seq<char>, Seq<char>), ResponseV>(
                ResponseV::Status(503),
            ),
        plan != "builder"@ && plan != "pro"@ && plan != "scale"@ && plan != "enterprise"@ ==> (
            checkout_entry(Some(key), plan, configured, a, b) matches Err(ResponseV::Json(200, v))
                && field(v, "error"@) == Some(JsonV::Str("plan must be 'builder' or 'scale'"@))
        ),
        (plan == "builder"@ || plan == "pro"@ || plan == "scale"@ || plan == "enterprise"@)
            ==> checkout_entry(Some(key), plan, false, a, b) == Err::<(Seq<char>, Seq<char>), ResponseV>(
                ResponseV::Status(503),
            ),
        checkout_entry(None, plan, configured, a, b) == Err::<(Seq<char>, Seq<char>), ResponseV>(
            ResponseV::Status(401),
        ),
{
    reveal_strlit("builder");
    reveal_strlit("pro");
    reveal_strlit("scale");
    reveal_strlit("enterprise");
    assert("builder"@.len() == 7);
    assert("pro"@.len() == 3);
    assert("scale"@.len() == 5);
    assert("enterprise"@.len() == 10);
}

/// Law: a page is the one that was asked for, or else the path below the configured
/// address, or below the local one where none is configured.
pub proof fn law_pages_are_as_asked(url: Seq<char>, base: Seq<char>, any: Option<Seq<char>>, path: Seq<char>)
    ensures
        page(Some(url), any, path) == url,
        page(None, Some(base), path) == base + path,
        page(None, None, path) == "http://localhost:8080"@ + path,
{
}

/// Law: a checkout that was opened is answered with its address and its plan, and one
/// that was not with status 500.
pub proof fn law_checkout_is_answered_by_name(url: Seq<char>, plan: Seq<char>)
    ensures
        checkout_opened(Some(url), plan) matches ResponseV::Json(200, v)
            && field(v, "checkout_url"@) == Some(JsonV::Str(url))
            && field(v, "plan"@) == Some(JsonV::Str(plan))
            && has_just(v, set!["checkout_url"@, "plan"@]),
        checkout_opened(None, plan) == ResponseV::Status(500),
{
    reveal_strlit("checkout_url");
    reveal_strlit("plan");
    assert("checkout_url"@.len() == 12);
    assert("plan"@.len() == 4);
    assert(checkout_opened(Some(url), plan)->Json_1->Obj_0.dom() =~= set!["checkout_url"@, "plan"@]);
}

/// Law: the forms that are sent to Stripe have each value under its own name: a
/// customer has the key, the address and the name, a checkout the customer, the price,
/// both pages and the key.
pub proof fn law_forms_name_what_they_send(
    key: Seq<char>,
    email: Seq<char>,
    name: Seq<char>,
    customer: Seq<char>,
    price: Seq<char>,
    success: Seq<char>,
    cancel: Seq<char>,
)
    ensures
        customer_form(key, None, None) == seq![("metadata[greed_api_key]"@, key)],
        customer_form(key, Some(email), None) == seq![("metadata[greed_api_key]"@, key), ("email"@, email)],
        customer_form(key, None, Some(name)) == seq![("metadata[greed_api_key]"@, key), ("name"@, name)],
        customer_form(key, Some(email), Some(name)) == seq![
            ("metadata[greed_api_key]"@, key),
            ("email"@, email),
            ("name"@, name),
        ],
        checkout_form(customer, price, success, cancel, key).contains(("customer"@, customer)),
        checkout_form(customer, price, success, cancel, key).contains(("mode"@, "subscription"@)),
        checkout_form(customer, price, success, cancel, key).contains(("line_items[0][price]"@, price)),
        checkout_form(customer, price, success, cancel, key).contains(("line_items[0][quantity]"@, "1"@)),
        checkout_form(customer, price, success, cancel, key).contains(("success_url"@, success)),
        checkout_form(customer, price, success, cancel, key).contains(("cancel_url"@, cancel)),
        checkout_form(customer, price, success, cancel, key).contains(("metadata[greed_api_key]"@, key)),
        checkout_form(customer, price, success, cancel, key).contains(
            ("subscription_data[metadata][greed_api_key]"@, key),
        ),
        checkout_form(customer, price, success, cancel, key).len() == 8,
{
    let f = checkout_form(customer, price, success, cancel, key);
    assert(f[0] == ("customer"@, customer));
    assert(f[1] == ("mode"@, "subscription"@));
    assert(f[2] == ("line_items[0][price]"@, price));
    assert(f[3] == ("line_items[0][quantity]"@, "1"@));
    assert(f[4] == ("success_url"@, success));
    assert(f[5] == ("cancel_url"@, cancel));
    assert(f[6] == ("metadata[greed_api_key]"@, key));
    assert(f[7] == ("subscription_data[metadata][greed_api_key]"@, key));
}

/// Law: what Stripe answers is read by name, and what is not there is told with the
/// whole answer.
pub proof fn law_replies_are_read_by_name(body: JsonV, key: Seq<char>, s: Seq<char>)
    ensures
        field(body, key) == Some(JsonV::Str(s)) ==> reply_field(body, key) == Ok::<Seq<char>, Seq<char>>(s),
        !(field(body, key) matches Some(JsonV::Str(_)))
            ==> reply_field(body, key) == Err::<Seq<char>, Seq<char>>("Stripe error: "@ + json_text(body)),
{
}

/// Law: each tier has the limits of its plan: the free tier and any unknown one those
/// of the hobby plan, `pro` and `builder` those of the builder plan, `enterprise` and
/// `scale` those of the scale plan.
pub proof fn law_tiers_have_their_limits(tier: Seq<char>)
    ensures
        tier == "pro"@ || tier == "builder"@ ==> plan_of(tier) is Builder,
        tier == "enterprise"@ || tier == "scale"@ ==> plan_of(tier) is Scale,
        tier != "pro"@ && tier != "builder"@ && tier != "enterprise"@ && tier != "scale"@ ==> plan_of(tier) is Hobby,
        plan_name(Plan::Hobby) == "hobby"@
            && plan_name(Plan::Builder) == "builder"@
            && plan_name(Plan::Scale) == "scale"@,
        limits_of(Plan::Hobby).requests_per_minute == 60
            && limits_of(Plan::Builder).requests_per_minute == 300
            && limits_of(Plan::Scale).requests_per_minute == 2000,
        limits_of(Plan::Hobby).credits_per_day == 50
            && limits_of(Plan::Builder).credits_per_day == 500
            && limits_of(Plan::Scale).credits_per_day == 0xffff_ffff,
        limits_of(Plan::Hobby).concurrent_sessions == 2
            && limits_of(Plan::Builder).concurrent_sessions == 10
            && limits_of(Plan::Scale).concurrent_sessions == 100,
        limits_of(Plan::Hobby).max_execution_secs == 30
            && limits_of(Plan::Builder).max_execution_secs == 120
            && limits_of(Plan::Scale).max_execution_secs == 600,
        limits_of(Plan::Hobby).checkpoint_storage_bytes == 200 * 1024 * 1024
            && limits_of(Plan::Builder).checkpoint_storage_bytes == 5 * 1024 * 1024 * 1024
            && limits_of(Plan::Scale).checkpoint_storage_bytes == 50 * 1024 * 1024 * 1024,
        limits_of(Plan::Hobby).checkpoint_retention_days == 3
            && limits_of(Plan::Builder).checkpoint_retention_days == 30
            && limits_of(Plan::Scale).checkpoint_retention_days == 90,
{
    reveal_strlit("pro");
    reveal_strlit("builder");
    reveal_strlit("enterprise");
    reveal_strlit("scale");
    assert("pro"@.len() == 3);
    assert("builder"@.len() == 7);
    assert("enterprise"@.len() == 10);
    assert("scale"@.len() == 5);
}

/// Law: the usage of a key is answered by name: its plan and its standing, the credits
/// it used, may use and has left today, the storage in megabytes, and the limits of its
/// plan. A plan without a limit on credits has none left to tell.
pub proof fn law_usage_is_answered_by_name(
    date: Seq<char>,
    tier: Seq<char>,
    standing: Option<Seq<char>>,
    used: u32,
    stored: u64,
)
    ensures
        field(usage_value(date, tier, standing, used, stored), "date"@) == Some(JsonV::Str(date)),
        field(usage_value(date, tier, standing, used, stored), "plan"@) == Some(JsonV::Str(plan_name(plan_of(tier)))),
        standing matches Some(s)
            ==> field(usage_value(date, tier, standing, used, stored), "billing_status"@) == Some(JsonV::Str(s)),
        standing is None
            ==> field(usage_value(date, tier, standing, used, stored), "billing_status"@) == Some(
                JsonV::Str("none"@),
            ),
        field(usage_value(date, tier, standing, used, stored), "credits"@) matches Some(c)
            && field(c, "used"@) == Some(JsonV::Int(used as int))
            && field(c, "resets"@) == Some(JsonV::Str("midnight UTC"@))
            && (
                plan_of(tier) is Scale
                    ==> field(c, "limit"@) == Some(JsonV::Null) && field(c, "remaining"@) == Some(JsonV::Null)
            )
            && (
                !(plan_of(tier) is Scale)
                    ==> field(c, "limit"@) == Some(JsonV::Int(limits_of(plan_of(tier)).credits_per_day as int))
                        && (
                            field(c, "remaining"@) matches Some(JsonV::Int(n))
                                && n >= 0
                                && (
                                    used <= limits_of(plan_of(tier)).credits_per_day
                                        ==> used + n == limits_of(plan_of(tier)).credits_per_day
                                )
                                && (used > limits_of(plan_of(tier)).credits_per_day ==> n == 0)
                        )
            ),
        field(usage_value(date, tier, standing, used, stored), "storage"@) matches Some(g)
            && field(g, "used_mb"@) == Some(JsonV::Int(stored as int / 1048576))
            && field(g, "limit_mb"@) == Some(
                JsonV::Int(limits_of(plan_of(tier)).checkpoint_storage_bytes as int / 1048576),
            )
            && field(g, "retention_days"@) == Some(
                JsonV::Int(limits_of(plan_of(tier)).checkpoint_retention_days as int),
            ),
        field(usage_value(date, tier, standing, used, stored), "limits"@) matches Some(l)
            && field(l, "requests_per_minute"@) == Some(
                JsonV::Int(limits_of(plan_of(tier)).requests_per_minute as int),
            )
            && field(l, "concurrent_sessions"@) == Some(
                JsonV::Int(limits_of(plan_of(tier)).concurrent_sessions as int),
            )
            && field(l, "max_execution_secs"@) == Some(
                JsonV::Int(limits_of(plan_of(tier)).max_execution_secs as int),
            ),
{
    reveal_strlit("date");
    reveal_strlit("plan");
    reveal_strlit("billing_status");
    reveal_strlit("credits");
    reveal_strlit("storage");
    reveal_strlit("limits");
    assert("date"@.len() == 4);
    assert("plan"@.len() == 4);
    assert("billing_status"@.len() == 14);
    assert("credits"@.len() == 7);
    assert("storage"@.len() == 7);
    assert("limits"@.len() == 6);
    assert("date"@[0] != "plan"@[0]);
    assert("credits"@[0] != "storage"@[0]);
    reveal_strlit("used");
    reveal_strlit("limit");
    reveal_strlit("remaining");
    reveal_strlit("resets");
    assert("used"@.len() == 4);
    assert("limit"@.len() == 5);
    assert("remaining"@.len() == 9);
    assert("resets"@.len() == 6);
    reveal_strlit("used_mb");
    reveal_strlit("limit_mb");
    reveal_strlit("retention_days");
    assert("used_mb"@.len() == 7);
    assert("limit_mb"@.len() == 8);
    assert("retention_days"@.len() == 14);
    reveal_strlit("requests_per_minute");
    reveal_strlit("concurrent_sessions");
    reveal_strlit("max_execution_secs");
    assert("requests_per_minute"@.len() == 19);
    assert("concurrent_sessions"@.len() == 19);
    assert("max_execution_secs"@.len() == 18);
    assert("requests_per_minute"@[0] != "concurrent_sessions"@[0]);
}

/// Law: longer work costs no less, work that took no time costs nothing, and each
/// started second costs one credit.
pub proof fn law_longer_work_costs_no_less(a: int, b: int)
    requires
        a <= b,
    ensures
        credits_of(a) <= credits_of(b),
        a <= 0 ==> credits_of(a) == 0,
        0 < a <= 1000 * 0xffff_ffff ==> 1000 * (credits_of(a) - 1) < a <= 1000 * credits_of(a),
        a > 1000 * 0xffff_ffff ==> credits_of(a) == 0xffff_ffff,
{
}

} // verus!
