//! JSON values as `serde_json` holds them, and what verified code may rely on
//! when it builds one.

use vstd::prelude::*;

verus! {

/// `serde_json::Value`, as a type that verified code may hold and pass on.
#[verifier::external_type_specification]
#[verifier::external_body]
pub struct ExJsonValue(serde_json::Value);

/// `serde_json::Map`, as a type that verified code may hold and pass on.
#[verifier::external_type_specification]
#[verifier::external_body]
#[verifier::reject_recursive_types(K)]
#[verifier::reject_recursive_types(V)]
pub struct ExJsonMap<K, V>(serde_json::Map<K, V>);

/// The mathematical content of a JSON value.
pub enum JsonShape {
    Null,
    Bool(bool),
    /// A number without fraction or exponent.
    Integer(int),
    /// A number held as a binary floating-point value, by its bits.
    Real(u64),
    Text(Seq<char>),
    List(Seq<JsonShape>),
    Object(Map<Seq<char>, JsonShape>),
}

/// The content of a `serde_json::Value`.
pub uninterp spec fn json_shape(v: serde_json::Value) -> JsonShape;

/// The members of a `serde_json::Map`, by key.
pub uninterp spec fn json_members(m: serde_json::Map<String, serde_json::Value>) -> Map<Seq<char>, JsonShape>;

/// The text that a `serde_json::Value` is written as: compact JSON, as
/// `Display` of `Value` gives it.
pub uninterp spec fn json_rendering(v: serde_json::Value) -> Seq<char>;

/// `Clone::clone` of `serde_json::Value`: the clone has the content of the
/// value it was made from.
pub assume_specification[ <serde_json::Value as Clone>::clone ](v: &serde_json::Value) -> (r: serde_json::Value)
    ensures
        json_shape(r) == json_shape(*v),
;

/// Builds `serde_json::Value::Null`.
#[verifier::external_body]
pub(crate) fn json_null() -> (v: serde_json::Value)
    ensures
        json_shape(v) == JsonShape::Null,
{
    serde_json::Value::Null
}

/// Builds `serde_json::Value::Bool` around `b`.
#[verifier::external_body]
pub(crate) fn json_bool(b: bool) -> (v: serde_json::Value)
    ensures
        json_shape(v) == JsonShape::Bool(b),
{
    serde_json::Value::Bool(b)
}

/// Builds `serde_json::Value::String` around `s`.
#[verifier::external_body]
pub(crate) fn json_text(s: String) -> (v: serde_json::Value)
    ensures
        json_shape(v) == JsonShape::Text(s@),
{
    serde_json::Value::String(s)
}

/// Builds `serde_json::Value::Number` from a signed integer, through
/// `From<i64> for Number`, which keeps the integer as it is.
#[verifier::external_body]
pub(crate) fn json_signed(i: i64) -> (v: serde_json::Value)
    ensures
        json_shape(v) == JsonShape::Integer(i as int),
{
    serde_json::Value::Number(i.into())
}

/// Builds `serde_json::Value::Number` from an unsigned integer, through
/// `From<u64> for Number`, which keeps the integer as it is.
#[verifier::external_body]
pub(crate) fn json_unsigned(u: u64) -> (v: serde_json::Value)
    ensures
        json_shape(v) == JsonShape::Integer(u as int),
{
    serde_json::Value::Number(u.into())
}

/// Calls `serde_json::Map::with_capacity`, which gives a map without members.
#[verifier::external_body]
pub(crate) fn json_map_with_capacity(
    capacity: usize,
) -> (m: serde_json::Map<String, serde_json::Value>)
    ensures
        json_members(m) =~= Map::empty(),
{
    serde_json::Map::with_capacity(capacity)
}

/// Calls `serde_json::Map::insert`: afterwards `key` stands for `value`,
/// whether or not the key was present, and every other member is unchanged.
#[verifier::external_body]
pub(crate) fn json_map_insert(
    m: &mut serde_json::Map<String, serde_json::Value>,
    key: String,
    value: serde_json::Value,
)
    ensures
        json_members(*final(m)) == json_members(*old(m)).insert(key@, json_shape(value)),
{
    m.insert(key, value);
}

/// Builds `serde_json::Value::Object` around `m`.
#[verifier::external_body]
pub(crate) fn json_object(m: serde_json::Map<String, serde_json::Value>) -> (v: serde_json::Value)
    ensures
        json_shape(v) == JsonShape::Object(json_members(m)),
{
    serde_json::Value::Object(m)
}

/// Writes a JSON value through `Display` of `serde_json::Value`, which
/// gives its compact JSON text; the text depends on the value alone.
#[verifier::external_body]
pub(crate) fn json_to_text(v: &serde_json::Value) -> (text: String)
    ensures
        text@ == json_rendering(*v),
{
    v.to_string()
}

} // verus!
