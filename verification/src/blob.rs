//! The argument object of one invocation, as the caller sent it.
//!
//! The object itself is a `serde_json::Map`. This module states what the
//! dispatcher reads of it: which keys it holds, and for each key a value
//! reduced to what decoding looks at.

use vstd::prelude::*;

verus! {

/// `serde_json::Map`, the type of a JSON object. Nothing is said of what is
/// inside a value of it but through [`blob_entries`].
#[verifier::external_type_specification]
#[verifier::external_body]
#[verifier::reject_recursive_types(K)]
#[verifier::reject_recursive_types(V)]
pub struct ExJsonMap<K, V>(serde_json::Map<K, V>);

/// `serde_json::Value`, the type of a JSON value. It is only carried
/// through: the dispatcher reads values as [`ParamValue`].
#[verifier::external_type_specification]
#[verifier::external_body]
pub struct ExJsonValue(serde_json::Value);

/// The untyped argument object of one invocation.
pub type ParamBlob = serde_json::Map<String, serde_json::Value>;

/// One argument value, reduced to what decoding looks at.
#[derive(Debug)]
pub enum ParamValue {
    Null,
    Bool(bool),
    /// A number; the integer it stands for where it is one that fits `i64`.
    Number(Option<i64>),
    Text(String),
    Array,
    Object,
}

/// The mathematical value of a [`ParamValue`].
pub enum ParamValueView {
    Null,
    Bool(bool),
    Number(Option<i64>),
    Text(Seq<char>),
    Array,
    Object,
}

impl View for ParamValue {
    type V = ParamValueView;

    open spec fn view(&self) -> ParamValueView {
        match self {
            ParamValue::Null => ParamValueView::Null,
            ParamValue::Bool(b) => ParamValueView::Bool(*b),
            ParamValue::Number(n) => ParamValueView::Number(*n),
            ParamValue::Text(s) => ParamValueView::Text(s@),
            ParamValue::Array => ParamValueView::Array,
            ParamValue::Object => ParamValueView::Object,
        }
    }
}

/// What an argument object holds: for each key that is present, the value
/// under it, reduced as [`ParamValue`] says. This is the name under which the
/// contracts speak of the contents of a `serde_json::Map`; what `blob_new`
/// and `blob_get` state of it is all that is assumed.
pub uninterp spec fn blob_entries(blob: serde_json::Map<String, serde_json::Value>) -> Map<
    Seq<char>,
    ParamValueView,
>;

/// The contents of an argument object without keys.
pub open spec fn no_entries() -> Map<Seq<char>, ParamValueView> {
    Map::empty()
}

/// `serde_json::Map::new`: a new argument object holds no key.
#[verifier::external_body]
pub(crate) fn blob_new() -> (r: ParamBlob)
    ensures
        blob_entries(r) == no_entries(),
{
    serde_json::Map::new()
}

/// `serde_json::Map::get`: the value under `key`, if the object holds that
/// key. The value is handed out by kind: a string with its text, a boolean
/// with its truth value, a number with the `i64` it stands for if any
/// (`serde_json::Number::as_i64`), and null, arrays and objects as such.
#[verifier::external_body]
pub(crate) fn blob_get(blob: &ParamBlob, key: &str) -> (r: Option<ParamValue>)
    ensures
        r is Some == blob_entries(*blob).contains_key(key@),
        r matches Some(v) ==> v@ == blob_entries(*blob)[key@],
{
    match blob.get(key) {
        None => None,
        Some(serde_json::Value::Null) => Some(ParamValue::Null),
        Some(serde_json::Value::Bool(b)) => Some(ParamValue::Bool(*b)),
        Some(serde_json::Value::Number(n)) => Some(ParamValue::Number(n.as_i64())),
        Some(serde_json::Value::String(s)) => Some(ParamValue::Text(s.clone())),
        Some(serde_json::Value::Array(_)) => Some(ParamValue::Array),
        Some(serde_json::Value::Object(_)) => Some(ParamValue::Object),
    }
}

} // verus!
