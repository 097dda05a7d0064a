//! Reading JSON documents through serde_json, over plain values.
use vstd::prelude::*;
use vstd::string::StringExecFns;

verus! {

/// The members of the JSON object written in `b`, each key mapped to the exact
/// text of its value; `None` when `b` is not one JSON object.
pub uninterp spec fn json_object_members(b: Seq<u8>) -> Option<Map<Seq<char>, Seq<u8>>>;

/// The boolean written in `b`; `None` when `b` is not one JSON boolean.
pub uninterp spec fn json_bool(b: Seq<u8>) -> Option<bool>;

/// The string written in `b`; `None` when `b` is not one JSON string.
pub uninterp spec fn json_string(b: Seq<u8>) -> Option<Seq<char>>;

/// The JSON string literal that denotes `s`.
pub uninterp spec fn json_quoted(s: Seq<char>) -> Seq<char>;

/// A JSON object's members as key and value text, as the parser hands them out.
pub type Members = Vec<(String, Vec<u8>)>;

/// The members listed in `v` are those of `m`, with the same value texts.
pub open spec fn members_of(v: Seq<(String, Vec<u8>)>, m: Map<Seq<char>, Seq<u8>>) -> bool {
    &&& forall|k: Seq<char>| #[trigger] m.contains_key(k) ==> exists|i: int| 0 <= i < v.len() && v[i].0@ == k
    &&& forall|i: int| 0 <= i < v.len() ==> #[trigger] m.contains_key(v[i].0@) && m[v[i].0@] == v[i].1@
}

/// Relies on serde_json::from_slice into a `BTreeMap<String, Box<RawValue>>`:
/// it succeeds exactly when the bytes are one JSON object, and keeps the raw
/// text of each member's value.
#[verifier::external_body]
pub(crate) fn parse_object_members(b: &[u8]) -> (r: Option<Members>)
    ensures
        match r {
            Some(v) => json_object_members(b@) matches Some(m) && members_of(v@, m),
            None => json_object_members(b@) is None,
        },
{
    let m = serde_json::from_slice::<std::collections::BTreeMap<String, Box<serde_json::value::RawValue>>>(b).ok()?;
    Some(m.into_iter().map(|(k, v)| (k, v.get().as_bytes().to_vec())).collect())
}

/// Relies on serde_json::from_slice into a `bool`: it succeeds exactly when the
/// bytes are one JSON boolean.
#[verifier::external_body]
pub(crate) fn parse_bool(b: &[u8]) -> (r: Option<bool>)
    ensures
        r == json_bool(b@),
{
    serde_json::from_slice::<bool>(b).ok()
}

/// Relies on serde_json::from_slice into a `String`: it succeeds exactly when the
/// bytes are one JSON string, and unescapes it.
#[verifier::external_body]
pub(crate) fn parse_string(b: &[u8]) -> (r: Option<String>)
    ensures
        match r {
            Some(s) => json_string(b@) == Some(s@),
            None => json_string(b@) is None,
        },
{
    serde_json::from_slice::<String>(b).ok()
}

/// Relies on serde_json::to_string on a `str`, which writes it as a JSON string
/// literal (serialising a `str` has no error case).
#[verifier::external_body]
pub(crate) fn quote(s: &str) -> (r: String)
    ensures
        r@ == json_quoted(s@),
{
    serde_json::to_string(s).unwrap_or_default()
}

/// The position of the member named `key` in `v`, if there is one.
pub fn find_member(v: &Members, key: &str) -> (r: Option<usize>)
    ensures
        match r {
            Some(i) => i < v@.len() && v@[i as int].0@ == key@,
            None => forall|i: int| 0 <= i < v@.len() ==> #[trigger] v@[i].0@ != key@,
        },
{
    let k = String::from_str(key);
    let mut i: usize = 0;
    while i < v.len()
        invariant
            i <= v@.len(),
            k@ == key@,
            forall|j: int| 0 <= j < i ==> #[trigger] v@[j].0@ != key@,
        decreases v@.len() - i,
    {
        if v[i].0 == k {
            return Some(i);
        }
        i = i + 1;
    }
    None
}

/// The value text of the member named `key`, given the members `v` of an object `m`.
pub(crate) fn member(v: &Members, key: &str, Ghost(m): Ghost<Map<Seq<char>, Seq<u8>>>) -> (r: Option<Vec<u8>>)
    requires
        members_of(v@, m),
    ensures
        match r {
            Some(t) => m.contains_key(key@) && m[key@] == t@,
            None => !m.contains_key(key@),
        },
{
    match find_member(v, key) {
        Some(i) => {
            let t = v[i].1.clone();
            assert(t@ =~= v@[i as int].1@);
            assert(m.contains_key(v@[i as int].0@));
            Some(t)
        },
        None => None,
    }
}

} // verus!
