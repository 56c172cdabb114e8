use vstd::prelude::*;

verus! {

/// A parsed JSON document, as serde_json represents it. The library
/// never looks inside such a value directly: everything it reads is
/// brought out through the wrappers below, whose results are pinned
/// by the named functions beside them.
#[verifier::external_type_specification]
#[verifier::external_body]
pub struct ExValue(serde_json::Value);

/// The error serde_json reports for input that is not valid JSON.
#[verifier::external_type_specification]
#[verifier::external_body]
pub struct ExJsonError(serde_json::Error);

/// The JSON document some text parses to, if it is valid JSON: what
/// serde_json::from_str returns, a function of the text alone.
pub uninterp spec fn doc_of(s: Seq<char>) -> Option<serde_json::Value>;

/// The value under a key of a JSON value, if the value is an object
/// with that key: what serde_json::Value::get returns, a function of
/// the value and the key alone.
pub uninterp spec fn value_field(v: serde_json::Value, key: Seq<char>) -> Option<
    serde_json::Value,
>;

/// The elements of a JSON value, if it is an array: what
/// serde_json::Value::as_array returns, a function of the value alone.
pub uninterp spec fn value_elems(v: serde_json::Value) -> Option<Seq<serde_json::Value>>;

/// The text of a JSON value, if it is a string: what
/// serde_json::Value::as_str returns, a function of the value alone.
pub uninterp spec fn value_text(v: serde_json::Value) -> Option<Seq<char>>;

/// Whether a JSON value is null: what serde_json::Value::is_null
/// returns, a function of the value alone.
pub uninterp spec fn value_null(v: serde_json::Value) -> bool;

/// Relies on serde_json::from_str: parses a JSON document from text,
/// failing exactly when the text is not valid JSON; the result
/// depends on the text alone.
#[verifier::external_body]
pub(crate) fn parse_json(s: &str) -> (r: Result<serde_json::Value, serde_json::Error>)
    ensures
        match r {
            Ok(v) => doc_of(s@) == Some(v),
            Err(_) => doc_of(s@) is None,
        },
{
    serde_json::from_str(s)
}

/// Relies on serde_json::Value::get: the value under a key when this
/// value is an object with that key, and nothing otherwise.
#[verifier::external_body]
pub(crate) fn json_get<'a>(v: &'a serde_json::Value, key: &str) -> (r: Option<
    &'a serde_json::Value,
>)
    ensures
        match r {
            Some(f) => value_field(*v, key@) == Some(*f),
            None => value_field(*v, key@) is None,
        },
{
    v.get(key)
}

/// Relies on serde_json::Value::as_array: the elements when this
/// value is an array, and nothing otherwise.
#[verifier::external_body]
pub(crate) fn json_as_array(v: &serde_json::Value) -> (r: Option<&Vec<serde_json::Value>>)
    ensures
        match r {
            Some(a) => value_elems(*v) == Some(a@),
            None => value_elems(*v) is None,
        },
{
    v.as_array()
}

/// Relies on serde_json::Value::as_str: the text when this value is
/// a string, and nothing otherwise.
#[verifier::external_body]
pub(crate) fn json_as_str<'a>(v: &'a serde_json::Value) -> (r: Option<&'a str>)
    ensures
        match r {
            Some(s) => value_text(*v) == Some(s@),
            None => value_text(*v) is None,
        },
{
    v.as_str()
}

/// Relies on serde_json::Value::is_null: whether this value is JSON
/// null.
#[verifier::external_body]
pub(crate) fn json_is_null(v: &serde_json::Value) -> (r: bool)
    ensures
        r == value_null(*v),
{
    v.is_null()
}

} // verus!
