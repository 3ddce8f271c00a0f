//! The boundary with `serde_json`.
//!
//! A decoded document stays a `serde_json::Value`. Verus cannot look inside
//! one, so the contracts speak of [`json_of`], the tree that the value holds,
//! and each accessor below says what `serde_json` returns in terms of that
//! tree. Nothing in this module is proved: it is the list of what the rest of
//! the crate assumes about `serde_json`.

use vstd::prelude::*;

verus! {

/// `serde_json::Value`, declared so that it can be named in signatures. Its
/// inside is not visible to the verifier.
#[verifier::external_type_specification]
#[verifier::external_body]
pub struct ExValue(serde_json::Value);

/// A JSON document as a mathematical tree.
///
/// A number is described by what `serde_json` hands out for it: `integer` is
/// what `as_i64` gives, the value of a number that is held as an integer in
/// the range of `i64`; `bits` is the bit pattern of the double that `as_f64`
/// gives, which every number has.
pub ghost enum Json {
    Null,
    Bool(bool),
    Number { integer: Option<i64>, bits: u64 },
    Text(Seq<char>),
    Array(Seq<Json>),
    Object(Map<Seq<char>, Json>),
}

impl Json {
    /// The member `key` of an object; `None` for a missing key and for
    /// anything that is not an object.
    pub open spec fn member(self, key: Seq<char>) -> Option<Json> {
        match self {
            Json::Object(members) if members.contains_key(key) => Some(members[key]),
            _ => None,
        }
    }

    /// The elements of an array.
    pub open spec fn items(self) -> Option<Seq<Json>> {
        match self {
            Json::Array(items) => Some(items),
            _ => None,
        }
    }

    /// The value of a number that is held as an integer in the range of
    /// `i64`.
    pub open spec fn integer(self) -> Option<i64> {
        match self {
            Json::Number { integer, .. } => integer,
            _ => None,
        }
    }

    /// The bits of the double that stands for a number.
    pub open spec fn double_bits(self) -> Option<u64> {
        match self {
            Json::Number { bits, .. } => Some(bits),
            _ => None,
        }
    }

    /// The characters of a string.
    pub open spec fn text(self) -> Option<Seq<char>> {
        match self {
            Json::Text(chars) => Some(chars),
            _ => None,
        }
    }
}

/// The tree that a decoded value holds.
pub uninterp spec fn json_of(value: serde_json::Value) -> Json;

/// What `serde_json::from_str` makes of a text: the document, or the message
/// of the error it reports.
pub uninterp spec fn parsed_json(text: Seq<char>) -> Result<Json, Seq<char>>;

/// `serde_json::from_str` at `serde_json::Value`. The decoder is a function of
/// the text alone; its result is named [`parsed_json`], and an error is handed
/// on as the message that its `Display` writes.
#[verifier::external_body]
pub(crate) fn parse_json(text: &str) -> (r: Result<serde_json::Value, String>)
    ensures
        match r {
            Ok(value) => parsed_json(text@) == Ok::<Json, Seq<char>>(json_of(value)),
            Err(message) => parsed_json(text@) == Err::<Json, Seq<char>>(message@),
        },
{
    match serde_json::from_str(text) {
        Ok(value) => Ok(value),
        Err(error) => Err(error.to_string()),
    }
}

/// `Value::get` with a string key: the member of that name where the value is
/// an object that has one, `None` otherwise.
#[verifier::external_body]
pub(crate) fn value_get<'a>(value: &'a serde_json::Value, key: &str) -> (r: Option<
    &'a serde_json::Value,
>)
    ensures
        match r {
            Some(member) => json_of(*value).member(key@) == Some(json_of(*member)),
            None => json_of(*value).member(key@) is None,
        },
{
    value.get(key)
}

/// `Value::as_array`: the elements where the value is an array, in order.
#[verifier::external_body]
pub(crate) fn value_as_array(value: &serde_json::Value) -> (r: Option<&Vec<serde_json::Value>>)
    ensures
        match r {
            Some(elements) => json_of(*value).items() == Some(
                elements@.map_values(|element: serde_json::Value| json_of(element)),
            ),
            None => json_of(*value).items() is None,
        },
{
    value.as_array()
}

/// `Value::as_i64`: the number where the value is an integer in the range of
/// `i64`.
#[verifier::external_body]
pub(crate) fn value_as_i64(value: &serde_json::Value) -> (r: Option<i64>)
    ensures
        r == json_of(*value).integer(),
{
    value.as_i64()
}

/// `Value::as_f64`, carried by `to_bits`: the double for any number, `None`
/// for anything else. Every number has a double as `serde_json` is built
/// here, with its default features and so without `arbitrary_precision`.
#[verifier::external_body]
pub(crate) fn value_as_double_bits(value: &serde_json::Value) -> (r: Option<u64>)
    ensures
        r == json_of(*value).double_bits(),
{
    value.as_f64().map(|double| double.to_bits())
}

/// `Value::as_str`: the characters where the value is a string.
#[verifier::external_body]
pub(crate) fn value_as_str<'a>(value: &'a serde_json::Value) -> (r: Option<&'a str>)
    ensures
        match r {
            Some(text) => json_of(*value).text() == Some(text@),
            None => json_of(*value).text() is None,
        },
{
    value.as_str()
}

} // verus!
