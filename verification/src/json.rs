use vstd::prelude::*;

verus! {

/// A mathematical model of a JSON document. Numbers are not inspected by any
/// consumer in this crate, so their value is not modelled.
pub enum JsonData {
    Null,
    Bool(bool),
    Num,
    Str(Seq<char>),
    Arr(Seq<JsonData>),
    Obj(Map<Seq<char>, JsonData>),
}

#[verifier::external_type_specification]
#[verifier::external_body]
pub struct ExJsonValue(serde_json::Value);

#[verifier::external_type_specification]
#[verifier::external_body]
pub struct ExJsonError(serde_json::Error);

/// The document that a text parses to, when it is well-formed JSON.
pub uninterp spec fn parsed_json(s: Seq<char>) -> Option<JsonData>;

/// The document held by a `serde_json::Value`.
pub uninterp spec fn json_model(v: serde_json::Value) -> JsonData;

/// Relies on `serde_json::from_str::<serde_json::Value>`: a deterministic
/// parse of a JSON document from text, `Ok` exactly on well-formed JSON.
#[verifier::external_body]
pub(crate) fn parse_json_value(s: &str) -> (r: Result<serde_json::Value, serde_json::Error>)
    ensures
        r is Ok <==> parsed_json(s@) is Some,
        r matches Ok(v) ==> json_model(v) == parsed_json(s@).unwrap(),
{
    serde_json::from_str::<serde_json::Value>(s)
}

/// Relies on `serde_json::Value::get` with a string key: `Some` exactly when
/// the value is an object holding that key, and then the named member.
#[verifier::external_body]
pub(crate) fn json_get<'a>(v: &'a serde_json::Value, key: &str) -> (r: Option<
    &'a serde_json::Value,
>)
    ensures
        r is Some <==> (json_model(*v) matches JsonData::Obj(m) && m.contains_key(key@)),
        r matches Some(f) ==> json_model(*f) == json_model(*v)->Obj_0[key@],
{
    v.get(key)
}

/// Relies on `serde_json::Value::as_str`: `Some` exactly when the value is a
/// JSON string, and then its characters.
#[verifier::external_body]
pub(crate) fn json_as_str<'a>(v: &'a serde_json::Value) -> (r: Option<&'a str>)
    ensures
        r is Some <==> json_model(*v) is Str,
        r matches Some(s) ==> s@ == json_model(*v)->Str_0,
{
    v.as_str()
}

/// Relies on `serde_json::Value::as_array`: `Some` exactly when the value is
/// a JSON array, and then its elements in order.
#[verifier::external_body]
pub(crate) fn json_as_array<'a>(v: &'a serde_json::Value) -> (r: Option<
    &'a Vec<serde_json::Value>,
>)
    ensures
        r is Some <==> json_model(*v) is Arr,
        r matches Some(a) ==> (a@.map_values(|x: serde_json::Value| json_model(x)) == json_model(
            *v,
        )->Arr_0),
{
    v.as_array()
}

/// Relies on `serde_json::Error`'s `Display` implementation: a
/// human-readable parser diagnostic.
#[verifier::external_body]
pub(crate) fn json_error_text(e: &serde_json::Error) -> (r: String) {
    format!("{}", e)
}

} // verus!
