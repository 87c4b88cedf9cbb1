//! JSON values as `serde_json` parses and holds them, seen through a
//! mathematical model.

use vstd::prelude::*;

verus! {

/// `serde_json::Value`, of which the verifier sees nothing: what one holds is
/// known only through `json_view`.
#[verifier::external_type_specification]
#[verifier::external_body]
pub struct ExJsonValue(serde_json::Value);

/// What a JSON value holds.
pub enum Json {
    /// `null`.
    Null,
    /// `true` or `false`.
    Bool(bool),
    /// A number. Numbers are not told apart: nothing here reads one.
    Number,
    /// A string, unescaped.
    Text(Seq<char>),
    /// An array, in order.
    Array(Seq<Json>),
    /// An object, by key. Of members that share a key the parser keeps one.
    Object(Map<Seq<char>, Json>),
}

/// What a `serde_json::Value` holds: its variant, and under it the same of
/// every value inside.
pub uninterp spec fn json_view(value: serde_json::Value) -> Json;

/// The value that `text` is the JSON for, or `None` where `text` is no JSON
/// document.
pub uninterp spec fn json_parsed(text: Seq<char>) -> Option<Json>;

/// Calls `serde_json::from_str` for a `Value`. Trusted: a `Value` is returned
/// exactly where `json_parsed` has a value, and holds it.
#[verifier::external_body]
pub(crate) fn parse_json(text: &str) -> (r: Option<serde_json::Value>)
    ensures
        match r {
            Some(value) => json_parsed(text@) == Some(json_view(value)),
            None => json_parsed(text@) is None,
        },
{
    match serde_json::from_str::<serde_json::Value>(text) {
        Ok(value) => Some(value),
        Err(_) => None,
    }
}

/// Calls `Value::get` with a string key. Trusted: the member under `key` where
/// `value` is an object that has one, else `None`.
#[verifier::external_body]
pub(crate) fn json_member<'a>(value: &'a serde_json::Value, key: &str) -> (r: Option<
    &'a serde_json::Value,
>)
    ensures
        match r {
            Some(member) => json_view(*value) matches Json::Object(fields) && fields.contains_key(
                key@,
            ) && fields[key@] == json_view(*member),
            None => !(json_view(*value) matches Json::Object(fields) && fields.contains_key(key@)),
        },
{
    value.get(key)
}

/// Calls `Value::as_array`. Trusted: the elements where `value` is an array,
/// else `None`.
#[verifier::external_body]
pub(crate) fn json_items<'a>(value: &'a serde_json::Value) -> (r: Option<
    &'a Vec<serde_json::Value>,
>)
    ensures
        match r {
            Some(items) => json_view(*value) matches Json::Array(elements) && elements.len()
                == items@.len() && forall|i: int|
                0 <= i < items@.len() ==> #[trigger] json_view(items@[i]) == elements[i],
            None => !(json_view(*value) is Array),
        },
{
    value.as_array()
}

/// Calls `Value::as_str`. Trusted: the text where `value` is a string, else
/// `None`.
#[verifier::external_body]
pub(crate) fn json_text<'a>(value: &'a serde_json::Value) -> (r: Option<&'a str>)
    ensures
        match r {
            Some(text) => json_view(*value) == Json::Text(text@),
            None => !(json_view(*value) is Text),
        },
{
    value.as_str()
}

/// Calls `Value::is_null`. Trusted: whether `value` is JSON `null`.
#[verifier::external_body]
pub(crate) fn json_is_null(value: &serde_json::Value) -> (r: bool)
    ensures
        r == (json_view(*value) is Null),
{
    value.is_null()
}

/// Calls `Value::is_object`. Trusted: whether `value` is a JSON object.
#[verifier::external_body]
pub(crate) fn json_is_object(value: &serde_json::Value) -> (r: bool)
    ensures
        r == (json_view(*value) is Object),
{
    value.is_object()
}

} // verus!
