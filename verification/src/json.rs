//! The trusted surface over `serde_json`: the opaque JSON value type, names
//! for what a value holds, and the two calls the decoder makes into it.

use vstd::prelude::*;

verus! {

#[verifier::external_type_specification]
#[verifier::external_body]
pub struct ExValue(serde_json::Value);

/// The text a JSON value holds when it is a string, and nothing otherwise.
/// This names what `serde_json::Value::as_str` returns.
pub uninterp spec fn json_text(v: serde_json::Value) -> Option<Seq<char>>;

/// The field map a JSON value holds when it is an object, and nothing
/// otherwise. This names what `serde_json::Value::as_object` returns.
pub uninterp spec fn json_object(v: serde_json::Value) -> Option<
    Map<Seq<char>, serde_json::Value>,
>;

/// The map that a sequence of key-value entries describes; a later entry
/// with the same key wins.
pub open spec fn map_of_pairs(s: Seq<(String, serde_json::Value)>) -> Map<
    Seq<char>,
    serde_json::Value,
>
    decreases s.len(),
{
    if s.len() == 0 {
        Map::empty()
    } else {
        map_of_pairs(s.drop_last()).insert(s.last().0@, s.last().1)
    }
}

/// Relies on `serde_json::Value::as_str`: it returns the contained text when
/// the value is a JSON string, and nothing otherwise.
#[verifier::external_body]
pub(crate) fn value_text(v: &serde_json::Value) -> (r: Option<String>)
    ensures
        match r {
            Some(s) => json_text(*v) == Some(s@),
            None => json_text(*v) is None,
        },
{
    v.as_str().map(|s| s.to_owned())
}

/// Relies on `serde_json::Value::as_object`: it returns the contained map
/// when the value is a JSON object, and nothing otherwise; the map's keys are
/// unique, so its entries, listed in iteration order, carry exactly the
/// object's fields.
#[verifier::external_body]
pub(crate) fn value_object_entries(v: &serde_json::Value) -> (r: Option<
    Vec<(String, serde_json::Value)>,
>)
    ensures
        match r {
            Some(es) => json_object(*v) == Some(map_of_pairs(es@)),
            None => json_object(*v) is None,
        },
{
    v.as_object().map(|m| m.iter().map(|(k, x)| (k.clone(), x.clone())).collect())
}

} // verus!
