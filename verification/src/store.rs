//! The concurrent map of the `dashmap` crate, and its use for lists of numbers.
use vstd::prelude::*;
use std::collections::VecDeque;
use crate::text::texts;

verus! {

/// `dashmap::DashMap`. Names for what a map holds stand with the functions that
/// use it.
#[verifier::external_type_specification]
#[verifier::external_body]
#[verifier::reject_recursive_types(K)]
#[verifier::reject_recursive_types(V)]
#[verifier::reject_recursive_types(S)]
pub struct ExDashMap<K, V, S>(dashmap::DashMap<K, V, S>);

/// The lists that a map holds.
pub uninterp spec fn lists_in(map: dashmap::DashMap<String, VecDeque<u64>>) -> Map<Seq<char>, Seq<u64>>;

/// No list at all.
pub open spec fn no_lists() -> Map<Seq<char>, Seq<u64>> {
    Map::empty()
}

/// `DashMap::new`: an empty map.
#[verifier::external_body]
pub(crate) fn new_lists() -> (r: dashmap::DashMap<String, VecDeque<u64>>)
    ensures
        lists_in(r) == no_lists(),
{
    dashmap::DashMap::new()
}

/// `DashMap::remove`: takes a list out, where there is one.
#[verifier::external_body]
pub(crate) fn take_list(map: &mut dashmap::DashMap<String, VecDeque<u64>>, key: &str) -> (r: Option<VecDeque<u64>>)
    ensures
        lists_in(*final(map)) == lists_in(*old(map)).remove(key@),
        r is Some == lists_in(*old(map)).contains_key(key@),
        r is Some ==> r->Some_0@ == lists_in(*old(map))[key@],
{
    map.remove(key).map(|entry| entry.1)
}

/// `DashMap::insert`: puts a list in.
#[verifier::external_body]
pub(crate) fn put_list(map: &mut dashmap::DashMap<String, VecDeque<u64>>, key: String, list: VecDeque<u64>)
    ensures
        lists_in(*final(map)) == lists_in(*old(map)).insert(key@, list@),
{
    map.insert(key, list);
}

/// `DashMap::get`: how long a list is, where there is one.
#[verifier::external_body]
pub(crate) fn list_len(map: &dashmap::DashMap<String, VecDeque<u64>>, key: &str) -> (r: Option<usize>)
    ensures
        r is Some == lists_in(*map).contains_key(key@),
        r is Some ==> r->Some_0 == lists_in(*map)[key@].len(),
{
    map.get(key).map(|entry| entry.value().len())
}

/// `DashMap::iter`: the keys of all lists, each once, in some order.
#[verifier::external_body]
pub(crate) fn list_keys(map: &dashmap::DashMap<String, VecDeque<u64>>) -> (r: Vec<String>)
    ensures
        texts(r@).no_duplicates(),
        texts(r@).to_set() == lists_in(*map).dom(),
{
    map.iter().map(|entry| entry.key().clone()).collect()
}

} // verus!
