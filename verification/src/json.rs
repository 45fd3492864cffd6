//! Message payloads are JSON text. Building a flat object of string fields
//! and reading one string field back are calls into `serde_json`.

use vstd::prelude::*;

verus! {

/// The views of a list of string pairs.
pub open spec fn pairs_view(fields: Seq<(String, String)>) -> Seq<(Seq<char>, Seq<char>)> {
    fields.map_values(|p: (String, String)| (p.0@, p.1@))
}

/// No key occurs twice in `fields`.
pub open spec fn distinct_keys(fields: Seq<(Seq<char>, Seq<char>)>) -> bool {
    forall|i: int, j: int|
        0 <= i < fields.len() && 0 <= j < fields.len() && i != j ==> fields[i].0 != fields[j].0
}

/// The value stored under `key` in a list of pairs with distinct keys.
pub open spec fn lookup(fields: Seq<(Seq<char>, Seq<char>)>, key: Seq<char>) -> Option<Seq<char>> {
    if exists|i: int| 0 <= i < fields.len() && fields[i].0 == key {
        Some(fields[choose|i: int| 0 <= i < fields.len() && fields[i].0 == key].1)
    } else {
        None
    }
}

/// In a list of pairs with distinct keys, the value stored under the key
/// at position `i` is the value at position `i`.
pub proof fn lemma_lookup_at(fields: Seq<(Seq<char>, Seq<char>)>, i: int)
    requires
        distinct_keys(fields),
        0 <= i < fields.len(),
    ensures
        lookup(fields, fields[i].0) == Some(fields[i].1),
{
    let key = fields[i].0;
    assert(exists|j: int| 0 <= j < fields.len() && fields[j].0 == key);
    let j = choose|j: int| 0 <= j < fields.len() && fields[j].0 == key;
    assert(j == i);
}

/// The compact JSON text of the object whose members are `fields`, each
/// value a JSON string, as `serde_json` writes it.
pub uninterp spec fn json_object_text(fields: Seq<(Seq<char>, Seq<char>)>) -> Seq<char>;

/// What reading member `key` of the JSON text `text` as a string gives with
/// `serde_json`: `None` when the text is not an object, has no such member,
/// or the member is not a string.
pub uninterp spec fn json_str_field(text: Seq<char>, key: Seq<char>) -> Option<Seq<char>>;

/// Writes a JSON object of string members: the pairs go into a
/// `serde_json::Map` as `Value::String`s and `serde_json::Value::Object(..)`
/// is printed with its `Display` (compact form). The contract names the
/// text and claims that reading any key back with `serde_json` gives the
/// value written under it, and nothing for a key that was not written.
#[verifier::external_body]
pub(crate) fn json_object(fields: &Vec<(String, String)>) -> (res: String)
    requires
        distinct_keys(pairs_view(fields@)),
    ensures
        res@ == json_object_text(pairs_view(fields@)),
        forall|key: Seq<char>| #[trigger] json_str_field(res@, key) == lookup(pairs_view(fields@), key),
{
    let map: serde_json::Map<String, serde_json::Value> = fields.iter().map(
        |p| (p.0.clone(), serde_json::Value::String(p.1.clone())),
    ).collect();
    serde_json::Value::Object(map).to_string()
}

/// Reads member `key` of the JSON text `text` as a string, through
/// `serde_json::from_str::<serde_json::Value>` and `Value::get`; a member
/// that is not a `Value::String` counts as absent, as with `Value::as_str`.
#[verifier::external_body]
pub(crate) fn json_field(text: &str, key: &str) -> (res: Option<String>)
    ensures
        match json_str_field(text@, key@) {
            Some(v) => res matches Some(s) && s@ == v,
            None => res is None,
        },
{
    match serde_json::from_str::<serde_json::Value>(text) {
        Ok(v) => match v.get(key) {
            Some(serde_json::Value::String(s)) => Some(s.clone()),
            _ => None,
        },
        Err(_) => None,
    }
}

} // verus!
