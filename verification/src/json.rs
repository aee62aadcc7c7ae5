use vstd::prelude::*;

verus! {

#[verifier::external_type_specification]
#[verifier::external_body]
pub struct ExValue(serde_json::Value);

#[verifier::external_type_specification]
#[verifier::external_body]
#[verifier::reject_recursive_types(K)]
#[verifier::reject_recursive_types(V)]
pub struct ExMap<K, V>(serde_json::Map<K, V>);

/// The document a text parses to, if it is well-formed JSON.
pub uninterp spec fn json_of(s: Seq<char>) -> Option<serde_json::Value>;

/// The key/value entries behind an object value, in the object's own order.
pub uninterp spec fn obj_entries(m: serde_json::Map<String, serde_json::Value>) -> Seq<
    (Seq<char>, serde_json::Value),
>;

/// The value the first entry with the given key carries, if any; an object
/// never holds two entries with one key, so this is the value behind the key.
pub open spec fn obj_lookup(
    entries: Seq<(Seq<char>, serde_json::Value)>,
    key: Seq<char>,
) -> Option<serde_json::Value>
    decreases entries.len(),
{
    if entries.len() == 0 {
        None
    } else if entries[0].0 == key {
        Some(entries[0].1)
    } else {
        obj_lookup(entries.skip(1), key)
    }
}

/// The object behind a value, if the value is an object.
pub uninterp spec fn object_of(v: serde_json::Value) -> Option<
    serde_json::Map<String, serde_json::Value>,
>;

/// The text behind a value, if the value is a string.
pub uninterp spec fn str_of(v: serde_json::Value) -> Option<Seq<char>>;

/// The integer behind a value, if the value is a non-negative integer number.
pub uninterp spec fn u64_of(v: serde_json::Value) -> Option<u64>;

/// The elements behind a value, if the value is an array.
pub uninterp spec fn array_of(v: serde_json::Value) -> Option<Seq<serde_json::Value>>;

/// Whether a value is the JSON null.
pub uninterp spec fn null_of(v: serde_json::Value) -> bool;

/// Relies on serde_json::from_str: parsing is a function of the text alone,
/// and succeeds exactly when the parser accepts the text as one JSON
/// document (one nested beyond the parser's recursion limit is refused).
#[verifier::external_body]
pub fn parse_json(s: &str) -> (r: Result<serde_json::Value, String>)
    ensures
        r is Ok <==> json_of(s@) is Some,
        r matches Ok(v) ==> json_of(s@) == Some(v),
{
    serde_json::from_str::<serde_json::Value>(s).map_err(|e| e.to_string())
}

/// Relies on serde_json::Value::as_object: returns the backing map exactly
/// when the value is an object.
#[verifier::external_body]
pub(crate) fn value_as_object<'a>(v: &'a serde_json::Value) -> (r: Option<
    &'a serde_json::Map<String, serde_json::Value>,
>)
    ensures
        r is Some <==> object_of(*v) is Some,
        r matches Some(m) ==> object_of(*v) == Some(*m),
{
    v.as_object()
}

/// Relies on serde_json::Value::as_str: returns the backing text exactly
/// when the value is a string.
#[verifier::external_body]
pub(crate) fn value_as_str<'a>(v: &'a serde_json::Value) -> (r: Option<&'a str>)
    ensures
        r is Some <==> str_of(*v) is Some,
        r matches Some(s) ==> str_of(*v) == Some(s@),
{
    v.as_str()
}

/// Relies on serde_json::Value::as_u64: returns the number exactly when the
/// value is an integer representable as u64.
#[verifier::external_body]
pub(crate) fn value_as_u64(v: &serde_json::Value) -> (r: Option<u64>)
    ensures
        r == u64_of(*v),
{
    v.as_u64()
}

/// Relies on serde_json::Value::as_array: returns the backing vector exactly
/// when the value is an array.
#[verifier::external_body]
pub(crate) fn value_as_array<'a>(v: &'a serde_json::Value) -> (r: Option<
    &'a Vec<serde_json::Value>,
>)
    ensures
        r is Some <==> array_of(*v) is Some,
        r matches Some(a) ==> array_of(*v) == Some(a@),
{
    v.as_array()
}

/// Relies on serde_json::Value::is_null.
#[verifier::external_body]
pub(crate) fn value_is_null(v: &serde_json::Value) -> (r: bool)
    ensures
        r == null_of(*v),
{
    v.is_null()
}

/// Relies on serde_json::Map::get: looks a key up among the object's entries.
#[verifier::external_body]
pub(crate) fn map_get<'a>(
    m: &'a serde_json::Map<String, serde_json::Value>,
    key: &str,
) -> (r: Option<&'a serde_json::Value>)
    ensures
        r is Some <==> obj_lookup(obj_entries(*m), key@) is Some,
        r matches Some(v) ==> obj_lookup(obj_entries(*m), key@) == Some(*v),
{
    m.get(key)
}

/// Relies on serde_json::Map::len: the number of entries, which is the
/// number of distinct keys.
#[verifier::external_body]
pub(crate) fn map_len(m: &serde_json::Map<String, serde_json::Value>) -> (r: usize)
    ensures
        r as nat == obj_entries(*m).len(),
{
    m.len()
}

/// Relies on serde_json::Map::iter: yields the object's first entry exactly
/// when the object is non-empty.
#[verifier::external_body]
pub(crate) fn map_first<'a>(m: &'a serde_json::Map<String, serde_json::Value>) -> (r: Option<
    (&'a String, &'a serde_json::Value),
>)
    ensures
        r is Some <==> obj_entries(*m).len() > 0,
        r matches Some(p) ==> obj_entries(*m).len() > 0 && p.0@ == obj_entries(*m)[0].0 && *p.1
            == obj_entries(*m)[0].1,
{
    m.iter().next()
}

} // verus!
