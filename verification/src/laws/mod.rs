//! What the service promises, law by law, over what goes in and what comes out.
use vstd::prelude::*;
use vstd::string::*;
use crate::api::swarm::text_or_null;
use crate::json::{
    arr_view, field, field_i64, field_strings, field_text, field_u64, is_text_list, obj_view, opt_int, opt_text,
    pointer, read_view, slices, strings_among, text_array, text_of, text_or_empty, Json, JsonV,
};
use crate::text::{dec, lemma_dec_injective, maybe_owned};

pub mod answers;
pub mod courses;
pub mod entries;
pub mod executions;
pub mod records;
pub mod runs;
pub mod sessions;
pub mod stragglers;
pub mod subscriptions;
pub mod swarms;
pub mod texts;
pub mod tools;
pub mod waits;
pub mod workers;
pub mod workspaces;

verus! {

/// A text as JSON, `null` in its absence.
pub open spec fn or_null(s: Option<Seq<char>>) -> JsonV {
    match s {
        Some(t) => JsonV::Str(t),
        None => JsonV::Null,
    }
}

/// A list of texts as JSON.
pub open spec fn string_list(v: Seq<Seq<char>>) -> JsonV {
    JsonV::Arr(v.map_values(|s: Seq<char>| JsonV::Str(s)))
}

/// Whether a value is an object with just these fields.
pub open spec fn has_just(v: JsonV, keys: Set<Seq<char>>) -> bool {
    v is Obj && v->Obj_0.dom() == keys
}

/// Law: an object gives under each name what it holds under it, and nothing else has
/// fields.
pub proof fn law_fields_by_name(v: JsonV, m: Map<Seq<char>, JsonV>, key: Seq<char>)
    ensures
        m.contains_key(key) ==> field(JsonV::Obj(m), key) == Some(m[key]),
        !m.contains_key(key) ==> field(JsonV::Obj(m), key) is None,
        !(v is Obj) ==> field(v, key) is None,
        field(v, key) matches Some(JsonV::Str(s)) ==> field_text(v, key) == Some(s),
        !(field(v, key) matches Some(JsonV::Str(_))) ==> field_text(v, key) is None,
        field(v, key) matches Some(JsonV::Int(n))
            ==> (0 <= n <= u64::MAX ==> field_u64(v, key) == Some(n as u64))
                && (!(0 <= n <= u64::MAX) ==> field_u64(v, key) is None),
        field(v, key) matches Some(JsonV::Int(n))
            ==> (i64::MIN <= n <= i64::MAX ==> field_i64(v, key) == Some(n as i64))
                && (!(i64::MIN <= n <= i64::MAX) ==> field_i64(v, key) is None),
        !(field(v, key) matches Some(JsonV::Int(_))) ==> field_u64(v, key) is None && field_i64(v, key) is None,
{
}

/// Law: of a list of texts every one is taken, in order.
pub proof fn law_strings_of_a_list(v: Seq<Seq<char>>)
    ensures
        string_list(v) is Arr,
        strings_among(string_list(v)->Arr_0) == v,
        text_array(v) == string_list(v),
    decreases v.len(),
{
    let items = string_list(v)->Arr_0;
    assert(text_array(v)->Arr_0 =~= items);
    let pick = |x: JsonV| text_of(x);
    if v.len() == 0 {
        assert(items =~= Seq::empty());
        assert(items.filter_map(pick) =~= v);
    } else {
        law_strings_of_a_list(v.drop_last());
        let front = string_list(v.drop_last())->Arr_0;
        assert(items.take(v.len() - 1) =~= front);
        assert(items.take(v.len() as int) =~= items);
        items.lemma_filter_map_take_succ(pick, v.len() - 1);
        assert(items.filter_map(pick) =~= v);
    }
}

/// Law: a text is answered as a string and its absence as `null`.
pub proof fn law_absent_texts_are_null(s: Option<String>, t: Option<Seq<char>>, n: Option<i64>)
    ensures
        opt_text(s) == or_null(maybe_owned(s)),
        text_or_null(t) == or_null(t),
        n matches Some(i) ==> opt_int(n) == JsonV::Int(i as int),
        n is None ==> opt_int(n) == JsonV::Null,
        t is Some ==> text_or_empty(t) == t->Some_0,
        t is None ==> text_or_empty(t).len() == 0,
{
}

/// Law: a pointer leads through objects by name and into a list by place.
pub proof fn law_pointer_goes_by_name(v: JsonV, tokens: Seq<Seq<char>>, at: JsonV, key: Seq<char>)
    requires
        pointer(v, tokens) == Some(at),
    ensures
        pointer(v, Seq::<Seq<char>>::empty()) == Some(v),
        at is Obj ==> pointer(v, tokens.push(key)) == field(at, key),
        at matches JsonV::Arr(items) ==> (items.len() > 0 ==> pointer(v, tokens.push("0"@)) == Some(items[0])),
        !(at is Obj) && !(at is Arr) ==> pointer(v, tokens.push(key)) is None,
{
    assert(tokens.push(key).drop_last() =~= tokens);
    assert(tokens.push("0"@).drop_last() =~= tokens);
    if let JsonV::Arr(items) = at {
        if items.len() > 0 {
            reveal_strlit("0");
            reveal_with_fuel(dec, 2);
            assert(dec(0) =~= "0"@);
            let i = choose|i: int| 0 <= i < items.len() && #[trigger] dec(i as nat) == "0"@;
            assert(0 <= 0 < items.len() && dec(0int as nat) == "0"@);
            lemma_dec_injective(i as nat, 0);
        }
    }
}

/// Law: a JSON value is known by what it is: a number by its value, a text by its
/// characters, a list by its items.
pub proof fn law_json_is_known_by_what_it_is(j: Json)
    ensures
        j is Null ==> j@ == JsonV::Null,
        j matches Json::Bool(b) ==> j@ == JsonV::Bool(b),
        j matches Json::UInt(n) ==> j@ == JsonV::Int(n as int),
        j matches Json::NegInt(n) ==> j@ == JsonV::Int(n as int),
        j matches Json::Float(n) ==> j@ == JsonV::Float(n),
        j matches Json::Str(t) ==> j@ == JsonV::Str(t@),
        j matches Json::Arr(v) ==> j@ == JsonV::Arr(arr_view(v@)),
        j matches Json::Obj(v) ==> j@ == JsonV::Obj(obj_view(v@)),
{
}

/// Law: a list has each of its items at its place.
pub proof fn law_lists_keep_their_items(items: Seq<Json>, i: int)
    requires
        0 <= i < items.len(),
    ensures
        arr_view(items).len() == items.len(),
        arr_view(items)[i] == items[i]@,
        arr_view(Seq::empty()).len() == 0,
    decreases items.len(),
{
    if i < items.len() - 1 {
        law_lists_keep_their_items(items.drop_last(), i);
    } else if items.len() > 1 {
        law_lists_keep_their_items(items.drop_last(), 0);
    } else {
        assert(items.drop_last() =~= Seq::empty());
        reveal_with_fuel(arr_view, 2);
    }
}

/// Law: of two fields of an object with one name the later counts.
pub proof fn law_later_fields_count(fields: Seq<(String, Json)>, last: (String, Json), key: Seq<char>)
    ensures
        field(JsonV::Obj(obj_view(fields.push(last))), last.0@) == Some(last.1@),
        key != last.0@
            ==> field(JsonV::Obj(obj_view(fields.push(last))), key) == field(JsonV::Obj(obj_view(fields)), key),
        field(JsonV::Obj(obj_view(Seq::empty())), key) is None,
{
    assert(fields.push(last).drop_last() =~= fields);
}

/// Law: only a text is read as a text, and only a list as a list of texts: of its items
/// the texts are taken.
pub proof fn law_texts_are_read_as_texts(
    v: JsonV,
    key: Seq<char>,
    items: Seq<JsonV>,
    s: Seq<&str>,
    r: Result<Json, String>,
)
    ensures
        v matches JsonV::Str(t) ==> text_of(v) == Some(t),
        !(v is Str) ==> text_of(v) is None,
        field(v, key) == Some(JsonV::Arr(items)) ==> field_strings(v, key) == Some(strings_among(items)),
        !(field(v, key) matches Some(JsonV::Arr(_))) ==> field_strings(v, key) is None,
        is_text_list(JsonV::Arr(items)) <==> forall|i: int| 0 <= i < items.len() ==> #[trigger] items[i] is Str,
        !(v is Arr) ==> !is_text_list(v),
        slices(s).len() == s.len(),
        forall|i: int| 0 <= i < s.len() ==> #[trigger] slices(s)[i] == s[i]@,
        r matches Ok(j) ==> read_view(r) == Ok::<JsonV, Seq<char>>(j@),
        r matches Err(e) ==> read_view(r) == Err::<JsonV, Seq<char>>(e@),
{
}

/// Law: of the items of a list those that are no texts are left out.
pub proof fn law_other_items_are_left_out(items: Seq<JsonV>, last: JsonV)
    ensures
        !(last is Str) ==> strings_among(items.push(last)) == strings_among(items),
        last matches JsonV::Str(t) ==> strings_among(items.push(last)) == strings_among(items).push(t),
        strings_among(Seq::empty()).len() == 0,
{
    let pick = |x: JsonV| text_of(x);
    let all = items.push(last);
    all.lemma_filter_map_take_succ(pick, items.len() as int);
    assert(all.take(items.len() as int) =~= items);
    assert(all.take(all.len() as int) =~= all);
}

} // verus!
