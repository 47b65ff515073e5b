//! JSON objects as the secret store returns them, read through serde_json.
use vstd::prelude::*;

verus! {

#[verifier::external_type_specification]
#[verifier::external_body]
pub struct ExValue(serde_json::Value);

#[verifier::external_type_specification]
#[verifier::external_body]
#[verifier::reject_recursive_types(K)]
#[verifier::reject_recursive_types(V)]
pub struct ExObject<K, V>(serde_json::Map<K, V>);

#[verifier::external_type_specification]
#[verifier::external_body]
pub struct ExJsonError(serde_json::Error);

/// A JSON object: keys to values.
pub type Object = serde_json::Map<String, serde_json::Value>;

/// The keys that a JSON object holds.
pub uninterp spec fn object_keys(m: serde_json::Map<String, serde_json::Value>) -> Set<Seq<char>>;

/// The entries of a JSON object whose value is a JSON string, with that string.
pub uninterp spec fn object_strings(m: serde_json::Map<String, serde_json::Value>) -> Map<Seq<char>, Seq<char>>;

/// Each value of a JSON object written out as JSON text.
pub uninterp spec fn object_rendered(m: serde_json::Map<String, serde_json::Value>) -> Map<Seq<char>, Seq<char>>;

/// The keys of a JSON object whose value is itself a JSON object.
pub uninterp spec fn object_objects(m: serde_json::Map<String, serde_json::Value>) -> Set<Seq<char>>;

/// The JSON object that a text holds, if it is the text of one.
pub uninterp spec fn parsed_object(text: Seq<char>) -> Option<serde_json::Map<String, serde_json::Value>>;

/// The text is that of one JSON object.
pub open spec fn is_object_text(text: Seq<char>) -> bool {
    parsed_object(text) is Some
}

/// The keys of a JSON object, in the order in which the object lists them.
pub uninterp spec fn object_key_order(m: serde_json::Map<String, serde_json::Value>) -> Seq<Seq<char>>;

/// The JSON object stored under a key of a JSON object.
pub uninterp spec fn object_field(m: serde_json::Map<String, serde_json::Value>, key: Seq<char>) -> serde_json::Map<String, serde_json::Value>;

/// Relies on serde_json::from_str: the text parsed as one JSON object, or the
/// parser's error when it is not valid JSON or not an object. The outcome
/// depends on the text alone.
#[verifier::external_body]
pub(crate) fn parse_object(text: &str) -> (r: Result<Object, serde_json::Error>)
    ensures
        r is Ok <==> is_object_text(text@),
        r matches Ok(m) ==> parsed_object(text@) == Some(m),
{
    serde_json::from_str(text)
}

/// Relies on serde_json::Map::contains_key.
#[verifier::external_body]
pub(crate) fn has_key(m: &Object, key: &str) -> (r: bool)
    ensures
        r == object_keys(*m).contains(key@),
{
    m.contains_key(key)
}

/// Relies on serde_json::Map::keys: each key once, in the map's own order.
#[verifier::external_body]
pub(crate) fn keys(m: &Object) -> (r: Vec<String>)
    ensures
        r@.map_values(|k: String| k@).no_duplicates(),
        r@.map_values(|k: String| k@).to_set() == object_keys(*m),
        r@.map_values(|k: String| k@) == object_key_order(*m),
{
    m.keys().cloned().collect()
}

/// Relies on serde_json::Map::get and serde_json::Value::as_str: the string
/// stored under `key`, if the value there is a JSON string.
#[verifier::external_body]
pub(crate) fn string_at(m: &Object, key: &str) -> (r: Option<String>)
    ensures
        r.is_some() == object_strings(*m).contains_key(key@),
        r.is_some() ==> r.unwrap()@ == object_strings(*m)[key@],
        r.is_some() ==> object_keys(*m).contains(key@),
{
    m.get(key).and_then(|v| v.as_str()).map(|s| s.to_string())
}

/// Relies on serde_json::Map::get and serde_json::Value::as_object: the
/// object stored under `key`, if the value there is a JSON object.
#[verifier::external_body]
pub(crate) fn object_at(m: &Object, key: &str) -> (r: Option<Object>)
    ensures
        r.is_some() == object_objects(*m).contains(key@),
        r.is_some() ==> object_keys(*m).contains(key@),
        r matches Some(d) ==> d == object_field(*m, key@),
{
    m.get(key).and_then(|v| v.as_object()).cloned()
}

/// Relies on serde_json::Map::get and the JSON text that serde_json writes for
/// a value: the value under `key` written out as JSON.
#[verifier::external_body]
pub(crate) fn rendered_at(m: &Object, key: &str) -> (r: Option<String>)
    ensures
        r.is_some() == object_keys(*m).contains(key@),
        r.is_some() ==> r.unwrap()@ == object_rendered(*m)[key@],
{
    m.get(key).map(|v| v.to_string())
}

} // verus!
