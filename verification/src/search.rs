//! The search repository's own logic: suggestion prefixes, the entity-card query, the
//! normalisation of sender filters, and the section a hit points into.

use vstd::prelude::*;
use vstd::utf8::encode_utf8;
use crate::text::{concat, lowercase, to_lowercase, trim, trimmed};

verus! {

/// The LIKE prefix of a suggestion lookup: the lower-cased prefix, then `%`.
pub fn suggestion_prefix(prefix: &str) -> (r: String)
    ensures
        r@ == lowercase(prefix@) + "%"@,
{
    let lower = to_lowercase(prefix);
    concat(lower.as_str(), "%")
}

/// The normalised query of an entity card: trimmed and lower-cased.
pub open spec fn entity_query_spec(query: Seq<char>) -> Seq<char> {
    lowercase(trimmed(query))
}

/// The query and prefix pattern of an entity-card lookup; none for a normalised query
/// shorter than three bytes, which finds no card.
pub fn entity_card_query(query: &str) -> (r: Option<(String, String)>)
    ensures
        r is None <==> encode_utf8(entity_query_spec(query@)).len() < 3,
        r matches Some(p) ==> p.0@ == entity_query_spec(query@) && p.1@ == entity_query_spec(query@) + "%"@,
{
    let t = trim(query);
    let normalized = to_lowercase(t.as_str());
    if normalized.as_str().as_bytes().len() < 3 {
        return None;
    }
    let prefix = concat(normalized.as_str(), "%");
    Some((normalized, prefix))
}

/// Whether a sender filter value is an address (it holds `@`), which is canonicalised as an
/// e-mail address; any other value is a name or domain, compared trimmed and lower-cased.
pub fn sender_filter_is_address(value: &str) -> (r: bool)
    ensures
        r == value@.contains('@'),
{
    let v = crate::text::chars_of(value);
    let mut i: usize = 0;
    while i < v.len()
        invariant
            i <= v@.len(),
            v@ == value@,
            forall|j: int| 0 <= j < i ==> v@[j] != '@',
        decreases v@.len() - i,
    {
        if v[i] == '@' {
            return true;
        }
        i = i + 1;
    }
    false
}

/// A sender filter that names no address: trimmed and lower-cased.
pub fn plain_sender_filter(value: &str) -> (r: String)
    ensures
        r@ == lowercase(trimmed(value@)),
{
    let t = trim(value);
    to_lowercase(t.as_str())
}

/// The section a search hit points into: present only when both its kind and key are.
pub fn hit_section<K>(kind: Option<K>, key: Option<String>) -> (r: Option<(K, String)>)
    ensures
        r is Some <==> (kind is Some && key is Some),
        r matches Some(p) ==> kind == Some(p.0) && key == Some(p.1),
{
    match (kind, key) {
        (Some(k), Some(s)) => Some((k, s)),
        _ => None,
    }
}

/// The mention count of an entity suggestion, clamped into `0..=i32::MAX`.
pub fn suggestion_mention_count(count: i64) -> (r: i32)
    ensures
        r == (if count < 0 { 0 } else if count > i32::MAX { i32::MAX as int } else { count as int }),
{
    if count < 0 {
        0
    } else if count > 2147483647i64 {
        2147483647i32
    } else {
        count as i32
    }
}

} // verus!
