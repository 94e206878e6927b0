use vstd::prelude::*;
use crate::naming::opt_view;

verus! {

#[verifier::external_type_specification]
#[verifier::external_body]
pub struct ExJsonValue(serde_json::Value);

#[verifier::external_type_specification]
#[verifier::external_body]
pub struct ExJsonError(serde_json::Error);

#[verifier::external_type_specification]
#[verifier::external_body]
#[verifier::reject_recursive_types(K)]
#[verifier::reject_recursive_types(V)]
pub struct ExJsonMap<K, V>(serde_json::Map<K, V>);

/// Whether a text is a single well-formed JSON document.
pub uninterp spec fn json_accepts(text: Seq<char>) -> bool;

/// The value a well-formed JSON text parses to.
pub uninterp spec fn parsed_json(text: Seq<char>) -> serde_json::Value;

/// The entries of a JSON object, by key.
pub uninterp spec fn object_entries(m: serde_json::Map<String, serde_json::Value>) -> Map<
    Seq<char>,
    serde_json::Value,
>;

/// The entries of an empty object.
pub open spec fn no_entries() -> Map<Seq<char>, serde_json::Value> {
    Map::empty()
}

/// The value under `key` in a JSON value; null where there is none.
pub uninterp spec fn json_index(v: serde_json::Value, key: Seq<char>) -> serde_json::Value;

/// Whether a JSON value is null.
pub uninterp spec fn json_null(v: serde_json::Value) -> bool;

/// The text of a JSON string; `None` for any other value.
pub uninterp spec fn json_text(v: serde_json::Value) -> Option<Seq<char>>;

/// The JSON string holding a text.
pub uninterp spec fn json_string(s: Seq<char>) -> serde_json::Value;

/// The JSON object holding the given entries.
pub uninterp spec fn json_object(entries: Map<Seq<char>, serde_json::Value>) -> serde_json::Value;

/// Relies on serde_json::from_str into a `Value`: it succeeds exactly on
/// well-formed JSON text, and the value depends on the text alone; an empty
/// text ends before any value and is refused.
#[verifier::external_body]
pub(crate) fn parse_json(text: &str) -> (r: Result<serde_json::Value, serde_json::Error>)
    ensures
        r.is_ok() == json_accepts(text@),
        r is Ok ==> r->Ok_0 == parsed_json(text@),
        text@.len() == 0 ==> r is Err,
{
    serde_json::from_str(text)
}

/// Relies on serde_json's `Index<&str> for Value`: the value under `key`,
/// or null where the key is missing or `v` is no object; it never panics.
#[verifier::external_body]
pub(crate) fn json_field<'a>(v: &'a serde_json::Value, key: &str) -> (r: &'a serde_json::Value)
    ensures
        *r == json_index(*v, key@),
{
    &v[key]
}

/// Relies on serde_json::Value::is_null.
#[verifier::external_body]
pub(crate) fn json_is_null(v: &serde_json::Value) -> (r: bool)
    ensures
        r == json_null(*v),
{
    v.is_null()
}

/// Relies on serde_json::Value::as_str: the text of a JSON string, `None`
/// for any other value.
#[verifier::external_body]
pub(crate) fn json_as_string(v: &serde_json::Value) -> (r: Option<String>)
    ensures
        opt_view(r) == json_text(*v),
{
    v.as_str().map(|s| s.to_string())
}

/// Relies on serde_json::Map::new: the new object has no keys.
#[verifier::external_body]
pub(crate) fn empty_object() -> (r: serde_json::Map<String, serde_json::Value>)
    ensures
        object_entries(r) == no_entries(),
{
    serde_json::Map::new()
}

/// Relies on serde_json::Map::insert: the key holds `value` afterwards and
/// no other entry changes.
#[verifier::external_body]
pub(crate) fn insert_field(
    m: &mut serde_json::Map<String, serde_json::Value>,
    key: &str,
    value: serde_json::Value,
)
    ensures
        object_entries(*final(m)) == object_entries(*old(m)).insert(key@, value),
{
    m.insert(key.to_string(), value);
}

/// Relies on serde_json's `From<String> for Value`: a JSON string.
#[verifier::external_body]
pub(crate) fn string_value(s: String) -> (r: serde_json::Value)
    ensures
        r == json_string(s@),
{
    serde_json::Value::from(s)
}

/// Relies on serde_json's `From<Map<String, Value>> for Value`: a JSON object.
#[verifier::external_body]
pub(crate) fn object_value(m: serde_json::Map<String, serde_json::Value>) -> (r: serde_json::Value)
    ensures
        r == json_object(object_entries(m)),
{
    serde_json::Value::from(m)
}

} // verus!
