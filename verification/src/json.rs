//! A mathematical model of the JSON-shaped documents the external tool
//! emits, and trusted access to `serde_json` (and, for chart metadata, to
//! `serde_yaml`) through it. The model keeps strings, arrays, objects and
//! booleans exactly; numeric values are registered but not modelled, since
//! no decoded field of this layer is numeric.

use vstd::prelude::*;

verus! {

/// A JSON document: the model the decoding contracts are stated over.
pub ghost enum Json {
    Null,
    Bool(bool),
    Number,
    Str(Seq<char>),
    Arr(Seq<Json>),
    Obj(Map<Seq<char>, Json>),
}

#[verifier::external_type_specification]
#[verifier::external_body]
pub struct ExJsonValue(serde_json::Value);

/// The document a `serde_json::Value` holds.
pub uninterp spec fn json_model(v: serde_json::Value) -> Json;

/// The document a JSON text denotes, `None` when the text is malformed;
/// it depends on the text alone.
pub uninterp spec fn json_of(s: Seq<char>) -> Option<Json>;

/// The document a YAML text denotes when read into a JSON-shaped value,
/// `None` when the text is malformed or does not fit that shape; it
/// depends on the text alone.
pub uninterp spec fn yaml_of(s: Seq<char>) -> Option<Json>;

/// Relies on `serde_json::from_str::<Value>`: whether a text parses, and
/// which document it denotes, are functions of the text alone.
#[verifier::external_body]
pub fn parse_json(s: &str) -> (r: Option<serde_json::Value>)
    ensures
        match r {
            Some(v) => json_of(s@) == Some(json_model(v)),
            None => json_of(s@) is None,
        },
{
    serde_json::from_str::<serde_json::Value>(s).ok()
}

/// Relies on `serde_yaml::from_str::<serde_json::Value>`: whether a YAML
/// text reads as a JSON-shaped document, and which one, are functions of
/// the text alone.
#[verifier::external_body]
pub fn parse_yaml(s: &str) -> (r: Option<serde_json::Value>)
    ensures
        match r {
            Some(v) => yaml_of(s@) == Some(json_model(v)),
            None => yaml_of(s@) is None,
        },
{
    serde_yaml::from_str::<serde_json::Value>(s).ok()
}

/// Relies on `serde_json::Value::as_array`.
#[verifier::external_body]
pub fn json_as_array(v: &serde_json::Value) -> (r: Option<&Vec<serde_json::Value>>)
    ensures
        match r {
            Some(a) => json_model(*v) == Json::Arr(a@.map_values(|e: serde_json::Value| json_model(e))),
            None => !(json_model(*v) is Arr),
        },
{
    v.as_array()
}

/// Relies on `serde_json::Value::as_str`.
#[verifier::external_body]
pub fn json_as_str(v: &serde_json::Value) -> (r: Option<&str>)
    ensures
        match r {
            Some(s) => json_model(*v) == Json::Str(s@),
            None => !(json_model(*v) is Str),
        },
{
    v.as_str()
}

/// Relies on `serde_json::Value::as_bool`.
#[verifier::external_body]
pub fn json_as_bool(v: &serde_json::Value) -> (r: Option<bool>)
    ensures
        match r {
            Some(b) => json_model(*v) == Json::Bool(b),
            None => !(json_model(*v) is Bool),
        },
{
    v.as_bool()
}

/// Relies on `serde_json::Value::is_null`.
#[verifier::external_body]
pub fn json_is_null(v: &serde_json::Value) -> (r: bool)
    ensures
        r == (json_model(*v) is Null),
{
    v.is_null()
}

/// Relies on `serde_json::Value::is_object`.
#[verifier::external_body]
pub fn json_is_object(v: &serde_json::Value) -> (r: bool)
    ensures
        r == (json_model(*v) is Obj),
{
    v.is_object()
}

/// Relies on `serde_json::Value::get` with a string index: looks a key up
/// when the value is an object, and returns nothing otherwise.
#[verifier::external_body]
pub fn json_get<'a>(v: &'a serde_json::Value, key: &str) -> (r: Option<&'a serde_json::Value>)
    ensures
        match json_model(*v) {
            Json::Obj(m) => match r {
                Some(x) => m.contains_key(key@) && json_model(*x) == m[key@],
                None => !m.contains_key(key@),
            },
            _ => r is None,
        },
{
    v.get(key)
}

/// Relies on `serde_json::Value::as_object` and `serde_json::Map::iter`:
/// hands an object's entries out as pairs; the map keeps each key once.
#[verifier::external_body]
pub fn json_object_entries(v: &serde_json::Value) -> (r: Option<Vec<(String, serde_json::Value)>>)
    ensures
        match r {
            Some(ps) => json_model(*v) matches Json::Obj(m) && ps@.map_values(
                |p: (String, serde_json::Value)| p.0@,
            ).no_duplicates() && (forall|i: int|
                0 <= i < ps@.len() ==> m.contains_key(#[trigger] ps@[i].0@) && m[ps@[i].0@]
                    == json_model(ps@[i].1)) && (forall|k: Seq<char>|
                m.contains_key(k) ==> exists|i: int|
                    0 <= i < ps@.len() && #[trigger] ps@[i].0@ == k),
            None => !(json_model(*v) is Obj),
        },
{
    v.as_object().map(|m| m.iter().map(|(k, val)| (k.clone(), val.clone())).collect())
}

} // verus!
