//! Identifiers: random ones, and the keys and names made from them.
use vstd::prelude::*;
use vstd::string::*;
use crate::text::{first_chars, without_char};

verus! {

/// Whether `c` is a lower-case hexadecimal digit.
pub open spec fn hex_char(c: char) -> bool {
    '0' <= c <= '9' || 'a' <= c <= 'f'
}

/// Whether a hyphen stands at `i` in the text of a UUID.
pub open spec fn hyphen_at(i: int) -> bool {
    i == 8 || i == 13 || i == 18 || i == 23
}

/// Whether `s` is a random UUID in lower case with hyphens.
pub open spec fn uuid_text(s: Seq<char>) -> bool {
    &&& s.len() == 36
    &&& forall|i: int| 0 <= i < 36 && hyphen_at(i) ==> #[trigger] s[i] == '-'
    &&& forall|i: int| 0 <= i < 36 && !hyphen_at(i) ==> hex_char(#[trigger] s[i])
    &&& s[14] == '4'
    &&& s[19] == '8' || s[19] == '9' || s[19] == 'a' || s[19] == 'b'
}

/// `uuid::Uuid::new_v4` as text: a random UUID of version 4, in lower case with
/// hyphens. Which one is left to chance.
#[verifier::external_body]
pub(crate) fn random_uuid() -> (r: String)
    ensures
        uuid_text(r@),
{
    uuid::Uuid::new_v4().to_string()
}

/// A new identifier.
pub fn new_id() -> (r: String)
    ensures
        uuid_text(r@),
{
    random_uuid()
}

/// A key: a prefix and the identifier without its hyphens.
pub open spec fn key_text(prefix: Seq<char>, id: Seq<char>) -> Seq<char> {
    prefix + bare(id)
}

/// An identifier without its hyphens.
pub open spec fn bare(id: Seq<char>) -> Seq<char> {
    id.filter(|c: char| c != '-')
}

/// The key for an identifier.
pub fn key_from(prefix: &str, id: &str) -> (r: String)
    ensures
        r@ == key_text(prefix@, id@),
{
    let mut s: String = prefix.to_owned();
    let rest: String = without_char(id, '-');
    s.append(rest.as_str());
    s
}

/// Law: a key made from a random identifier is its prefix and 32 hexadecimal
/// digits.
pub proof fn law_key_shape(prefix: Seq<char>, id: Seq<char>)
    requires
        uuid_text(id),
    ensures
        key_text(prefix, id).len() == prefix.len() + 32,
        key_text(prefix, id).take(prefix.len() as int) == prefix,
        forall|i: int| prefix.len() <= i < key_text(prefix, id).len() ==> hex_char(#[trigger] key_text(prefix, id)[i]),
{
    let rest = bare(id);
    lemma_filter_segments(id);
    assert(key_text(prefix, id).take(prefix.len() as int) =~= prefix);
    assert forall|i: int| prefix.len() <= i < key_text(prefix, id).len() implies hex_char(#[trigger] key_text(prefix, id)[i]) by {
        assert(key_text(prefix, id)[i] == rest[i - prefix.len()]);
    }
}

proof fn lemma_filter_segments(id: Seq<char>)
    requires
        uuid_text(id),
    ensures
        bare(id).len() == 32,
        forall|i: int| 0 <= i < 32 ==> hex_char(#[trigger] bare(id)[i]),
{
    let p = |c: char| c != '-';
    lemma_filter_count(id, 36);
    assert(id.take(36) =~= id);
    let rest = id.filter(p);
    assert forall|i: int| 0 <= i < rest.len() implies hex_char(#[trigger] rest[i]) by {
        assert(rest.contains(rest[i]));
        id.lemma_filter_contains_rev(p, rest[i]);
        id.lemma_filter_pred(p, i);
        let k = choose|k: int| 0 <= k < id.len() && id[k] == rest[i];
        assert(!hyphen_at(k));
    }
}

/// How many of the first `n` places of a UUID hold no hyphen.
spec fn digits_before(n: int) -> int {
    n - (if n > 8 { 1int } else { 0 }) - (if n > 13 { 1int } else { 0 }) - (if n > 18 { 1int } else { 0 }) - (if n
        > 23 { 1int } else { 0 })
}

proof fn lemma_filter_count(id: Seq<char>, n: int)
    requires
        uuid_text(id),
        0 <= n <= 36,
    ensures
        id.take(n).filter(|c: char| c != '-').len() == digits_before(n),
    decreases n,
{
    reveal(Seq::filter);
    let p = |c: char| c != '-';
    if n > 0 {
        lemma_filter_count(id, n - 1);
        assert(id.take(n).drop_last() =~= id.take(n - 1));
        assert(id.take(n).last() == id[n - 1]);
        assert(hyphen_at(n - 1) == (id[n - 1] == '-'));
    } else {
        assert(id.take(0) =~= Seq::<char>::empty());
    }
}

/// The name of a file or a label: a prefix and the first eight characters of an
/// identifier.
pub open spec fn short_name_text(prefix: Seq<char>, id: Seq<char>) -> Seq<char> {
    prefix + id.take(8)
}

/// A prefix and the first eight characters of an identifier.
pub fn short_name(prefix: &str, id: &str) -> (r: String)
    requires
        id@.len() >= 8,
    ensures
        r@ == short_name_text(prefix@, id@),
{
    let mut s: String = prefix.to_owned();
    let head: String = first_chars(id, 8);
    s.append(head.as_str());
    s
}

} // verus!
