use vstd::prelude::*;

verus! {

#[verifier::external_type_specification]
#[verifier::external_body]
pub struct ExValue(serde_json::Value);

/// Whether serde_json accepts the bytes as one well-formed JSON document;
/// the outcome depends on the bytes alone.
pub uninterp spec fn json_well_formed(s: Seq<u8>) -> bool;

/// What serde_json makes of a manifest document: `Some` exactly when the
/// bytes are a JSON array of strings, and then those strings in order.
pub uninterp spec fn manifest_entries(s: Seq<u8>) -> Option<Seq<Seq<u8>>>;

/// What serde_json makes of a configuration document: `Some` exactly when
/// the bytes are a JSON object holding exactly the five known fields —
/// path (a string), parameters (an object), vertices and instances
/// (unsigned integers), fov (a number) — and then the path's text and the
/// two counts, in that order.
pub uninterp spec fn config_fields(s: Seq<u8>) -> Option<(Seq<u8>, u64, u64)>;

/// Relies on serde_json::from_slice::<serde_json::Value>: parses one JSON
/// document from bytes, returning its tree on success.
#[verifier::external_body]
pub(crate) fn parse_value(bytes: &Vec<u8>) -> (r: Option<serde_json::Value>)
    ensures
        r is Some <==> json_well_formed(bytes@),
{
    serde_json::from_slice(bytes).ok()
}

/// Relies on serde_json::from_slice::<Vec<String>>: parses a JSON array of
/// strings; the result is a function of the bytes alone.
#[verifier::external_body]
pub(crate) fn parse_string_array(bytes: &Vec<u8>) -> (r: Option<Vec<Vec<u8>>>)
    ensures
        r is Some <==> manifest_entries(bytes@) is Some,
        r matches Some(v) ==> v.deep_view() == manifest_entries(bytes@).unwrap(),
{
    match serde_json::from_slice::<Vec<String>>(bytes) {
        Ok(entries) => Some(entries.into_iter().map(|s| s.into_bytes()).collect()),
        Err(_) => None,
    }
}

/// Relies on serde_json::from_slice::<serde_json::Value>, Value::as_object,
/// Map::len, Map::get, Value::as_str, Value::as_u64, Value::is_number and
/// Value::is_object: reads the five-field configuration schema out of one
/// JSON document.  Every step is a function of the bytes alone, so the
/// whole extraction is named; a document that parses into fields is in
/// particular well-formed JSON.
#[verifier::external_body]
pub(crate) fn parse_config_fields(bytes: &Vec<u8>) -> (r: Option<(Vec<u8>, u64, u64)>)
    ensures
        r is Some <==> config_fields(bytes@) is Some,
        r matches Some(f) ==> Some((f.0@, f.1, f.2)) == config_fields(bytes@),
        r is Some ==> json_well_formed(bytes@),
{
    let value: serde_json::Value = serde_json::from_slice(bytes).ok()?;
    let object = value.as_object()?;
    if object.len() != 5 || !object.get("fov")?.is_number() || !object.get("parameters")?.is_object()
    {
        return None;
    }
    let path = object.get("path")?.as_str()?.as_bytes().to_vec();
    Some((path, object.get("vertices")?.as_u64()?, object.get("instances")?.as_u64()?))
}

} // verus!
