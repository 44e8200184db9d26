//! JSON values: what a `serde_json::Value` holds, and how one is read and put together.

use crate::error::GeocodeMcpError;
use crate::text::{parse_u64, parsed_u64, string_of};
use vstd::prelude::*;

verus! {

/// `serde_json::Value`. What it holds is given by [`json`].
#[verifier::external_type_specification]
#[verifier::external_body]
pub struct ExValue(serde_json::Value);

/// `serde_json::Map`. What it holds is given by [`members`].
#[verifier::external_type_specification]
#[verifier::external_body]
#[verifier::reject_recursive_types(K)]
#[verifier::reject_recursive_types(V)]
pub struct ExMap<K, V>(serde_json::Map<K, V>);

/// A JSON number: an integer that is not negative, a negative integer, or a floating-point
/// number given by its IEEE 754 bits.
pub enum JsonNumber {
    /// An integer from zero to `u64::MAX`.
    Unsigned(u64),
    /// An integer below zero.
    Negative(i64),
    /// The bits of a finite double-precision number.
    Bits(u64),
}

/// A JSON value.
pub enum Json {
    /// `null`.
    Null,
    /// `true` or `false`.
    Bool(bool),
    /// A number.
    Number(JsonNumber),
    /// A string.
    Text(Seq<char>),
    /// An array.
    Array(Seq<Json>),
    /// An object.
    Object(Map<Seq<char>, Json>),
}

/// The levels of arrays and objects inside one another that `serde_json` reads from a text. One
/// level more is an error.
pub const MAX_LEVELS: u64 = 127;

/// The JSON value that a `serde_json::Value` holds.
pub uninterp spec fn json(v: serde_json::Value) -> Json;

/// The members that a `serde_json::Map` holds, by name.
pub uninterp spec fn members(m: serde_json::Map<String, serde_json::Value>) -> Map<
    Seq<char>,
    Json,
>;

/// The text that a JSON number displays as once it has become a double-precision number.
pub uninterp spec fn double_text(n: JsonNumber) -> Seq<char>;

/// The text that `serde_json::to_string_pretty` writes of a JSON value.
pub uninterp spec fn pretty_text(v: Json) -> Seq<char>;

/// The JSON value that `serde_json::from_str` reads from a text, if it reads one.
pub uninterp spec fn parsed_text(s: Seq<char>) -> Option<Json>;

/// Whether `v` has arrays and objects no more than `levels` deep inside one another, and no
/// floating-point numbers.
pub open spec fn is_exact(v: Json, levels: nat) -> bool
    decreases levels,
{
    match v {
        Json::Number(n) => !(n is Bits),
        Json::Array(a) => levels > 0 && forall|i: int|
            0 <= i < a.len() ==> is_exact(#[trigger] a[i], (levels - 1) as nat),
        Json::Object(m) => levels > 0 && forall|key: Seq<char>|
            m.contains_key(key) ==> is_exact(#[trigger] m[key], (levels - 1) as nat),
        _ => true,
    }
}

/// The member `key` of `v`, where `v` is an object that has one.
pub open spec fn member(v: Json, key: Seq<char>) -> Option<Json> {
    match v {
        Json::Object(m) => if m.contains_key(key) {
            Some(m[key])
        } else {
            None
        },
        _ => None,
    }
}

/// The text of `v`, where `v` is a string.
pub open spec fn as_text(v: Json) -> Option<Seq<char>> {
    match v {
        Json::Text(s) => Some(s),
        _ => None,
    }
}

/// The number that `v` is, where `v` is an integer that is not negative.
pub open spec fn as_unsigned(v: Json) -> Option<u64> {
    match v {
        Json::Number(JsonNumber::Unsigned(n)) => Some(n),
        _ => None,
    }
}

/// The text of `v` as a double-precision number, where `v` is a number.
pub open spec fn as_double_text(v: Json) -> Option<Seq<char>> {
    match v {
        Json::Number(n) => Some(double_text(n)),
        _ => None,
    }
}

/// The text of the member `key` of `v`, where there is one and it is a string.
pub open spec fn text_member(v: Json, key: Seq<char>) -> Option<Seq<char>> {
    match member(v, key) {
        Some(m) => as_text(m),
        None => None,
    }
}

/// The text of the member `key` of `v` as a double-precision number, where there is one and
/// it is a number.
pub open spec fn double_member(v: Json, key: Seq<char>) -> Option<Seq<char>> {
    match member(v, key) {
        Some(m) => as_double_text(m),
        None => None,
    }
}

/// The `u64` that `v` gives: an integer that is not negative, or a string that spells one.
pub open spec fn as_count(v: Json) -> Option<u64> {
    match v {
        Json::Number(JsonNumber::Unsigned(n)) => Some(n),
        Json::Text(s) => parsed_u64(s),
        _ => None,
    }
}

/// The JSON of an optional string: `null` where there is none.
pub open spec fn optional_text(s: Option<Seq<char>>) -> Json {
    match s {
        Some(s) => Json::Text(s),
        None => Json::Null,
    }
}

/// What each value of a row holds.
pub open spec fn items(values: Seq<serde_json::Value>) -> Seq<Json> {
    values.map_values(|v: serde_json::Value| json(v))
}

/// `Value::get` with a string: the member of that name where the value is an object that has
/// it, and otherwise `None`.
#[verifier::external_body]
pub(crate) fn get<'a>(v: &'a serde_json::Value, key: &str) -> (m: Option<&'a serde_json::Value>)
    ensures
        match m {
            Some(m) => member(json(*v), key@) == Some(json(*m)),
            None => member(json(*v), key@) is None,
        },
{
    v.get(key)
}

/// `Value::as_str`: the text of a string value, and `None` for any other value.
#[verifier::external_body]
pub(crate) fn as_str<'a>(v: &'a serde_json::Value) -> (s: Option<&'a str>)
    ensures
        crate::text::text_of(s) == as_text(json(*v)),
{
    v.as_str()
}

/// `Value::as_u64`: the number of a value that is an integer from zero to `u64::MAX`, and
/// `None` for any other value.
#[verifier::external_body]
pub(crate) fn as_u64(v: &serde_json::Value) -> (n: Option<u64>)
    ensures
        n == as_unsigned(json(*v)),
{
    v.as_u64()
}

/// `Value::as_f64`, whose number is handed on as the text that it displays as: every number
/// has one, and no other value has. (With the feature `arbitrary_precision`, which this package
/// leaves off, a number could be too large to have one.)
#[verifier::external_body]
pub(crate) fn as_double(v: &serde_json::Value) -> (s: Option<String>)
    ensures
        match s {
            Some(s) => json(*v) matches Json::Number(n) && s@ == double_text(n),
            None => !(json(*v) is Number),
        },
{
    v.as_f64().map(|n| n.to_string())
}

/// `Value::Null`.
#[verifier::external_body]
pub(crate) fn null() -> (v: serde_json::Value)
    ensures
        json(v) == Json::Null,
{
    serde_json::Value::Null
}

/// `Value::String`: the value that is the string `s`.
#[verifier::external_body]
pub(crate) fn string(s: String) -> (v: serde_json::Value)
    ensures
        json(v) == Json::Text(s@),
{
    serde_json::Value::String(s)
}

/// `Value::from` of a `u64`: the value that is the number `n`.
#[verifier::external_body]
pub(crate) fn unsigned(n: u64) -> (v: serde_json::Value)
    ensures
        json(v) == Json::Number(JsonNumber::Unsigned(n)),
{
    serde_json::Value::from(n)
}

/// `Value::Array`: the array of `values`, in their order.
#[verifier::external_body]
pub(crate) fn array(values: Vec<serde_json::Value>) -> (v: serde_json::Value)
    ensures
        json(v) == Json::Array(items(values@)),
{
    serde_json::Value::Array(values)
}

/// `Value::Object`: the object with the members of `m`.
#[verifier::external_body]
pub(crate) fn object(m: serde_json::Map<String, serde_json::Value>) -> (v: serde_json::Value)
    ensures
        json(v) == Json::Object(members(m)),
{
    serde_json::Value::Object(m)
}

/// `Map::new`: a map without members.
#[verifier::external_body]
pub(crate) fn no_members() -> (m: serde_json::Map<String, serde_json::Value>)
    ensures
        (members(m) == Map::<Seq<char>, Json>::empty()),
{
    serde_json::Map::new()
}

/// `Map::insert`: `m` gets the member `key`, in place of one of that name if it had one, which
/// is handed back.
#[verifier::external_body]
pub(crate) fn insert(
    m: &mut serde_json::Map<String, serde_json::Value>,
    key: String,
    v: serde_json::Value,
) -> (replaced: Option<serde_json::Value>)
    ensures
        members(*final(m)) == members(*old(m)).insert(key@, json(v)),
        match replaced {
            Some(r) => members(*old(m)).contains_key(key@) && members(*old(m))[key@] == json(r),
            None => !members(*old(m)).contains_key(key@),
        },
{
    m.insert(key, v)
}

/// `serde_json::to_string_pretty` of a value: what it writes depends on what the value holds
/// and on nothing else, since a `serde_json::Map` keeps its members sorted by name. (With the
/// feature `preserve_order`, which this package leaves off, it would keep them as they came.)
/// It does not fail: every member name of a value is a string, and it writes to memory. What it
/// writes is read back as the same value, up to the nesting at which reading gives up. Nothing
/// is said of reading a floating-point number back, which need not give the same one.
#[verifier::external_body]
pub(crate) fn to_string_pretty(v: &serde_json::Value) -> (s: Result<String, serde_json::Error>)
    ensures
        s matches Ok(s) && s@ == pretty_text(json(*v)),
        is_exact(json(*v), MAX_LEVELS as nat) ==> (s matches Ok(s) && parsed_text(s@) == Some(
            json(*v),
        )),
{
    serde_json::to_string_pretty(v)
}

/// `serde_json::from_str` into a value: whether it reads one, and what that holds, depends on
/// the text alone.
#[verifier::external_body]
fn from_str(s: &str) -> (r: Result<serde_json::Value, serde_json::Error>)
    ensures
        match r {
            Ok(v) => parsed_text(s@) == Some(json(v)),
            Err(_) => parsed_text(s@) is None,
        },
{
    serde_json::from_str(s)
}

/// Reads the JSON value of a text, such as the text of a tool result.
pub fn parse_value(s: &str) -> (r: Result<serde_json::Value, GeocodeMcpError>)
    ensures
        match r {
            Ok(v) => parsed_text(s@) == Some(json(v)),
            Err(e) => parsed_text(s@) is None && e@ is Json,
        },
{
    match from_str(s) {
        Ok(v) => Ok(v),
        Err(e) => Err(GeocodeMcpError::Json(e)),
    }
}

/// The string value of `s`.
pub(crate) fn text(s: &str) -> (v: serde_json::Value)
    ensures
        json(v) == Json::Text(s@),
{
    string(s.to_string())
}

/// Gives `m` the member `key`.
pub(crate) fn put(
    m: &mut serde_json::Map<String, serde_json::Value>,
    key: &str,
    v: serde_json::Value,
)
    ensures
        members(*final(m)) == members(*old(m)).insert(key@, json(v)),
{
    let _ = insert(m, key.to_string(), v);
}

/// The value of an optional string: `null` where there is none.
pub fn optional_string(s: Option<String>) -> (v: serde_json::Value)
    ensures
        json(v) == optional_text(string_of(s)),
{
    match s {
        Some(s) => string(s),
        None => null(),
    }
}

/// The text of the member `key` of `v`, where there is one and it is a string.
pub fn string_argument<'a>(v: &'a serde_json::Value, key: &str) -> (s: Option<&'a str>)
    ensures
        crate::text::text_of(s) == text_member(json(*v), key@),
{
    match get(v, key) {
        Some(m) => as_str(m),
        None => None,
    }
}

/// The member `key` of `v` as the text of a double-precision number, where there is one and
/// it is a number.
pub fn double_argument(v: &serde_json::Value, key: &str) -> (s: Option<String>)
    ensures
        string_of(s) == double_member(json(*v), key@),
{
    match get(v, key) {
        Some(m) => as_double(m),
        None => None,
    }
}

/// Extract a u64 from a JSON value, accepting both numbers and numeric strings.
pub fn value_as_u64(v: &serde_json::Value) -> (n: Option<u64>)
    ensures
        n == as_count(json(*v)),
{
    match as_u64(v) {
        Some(n) => Some(n),
        None => match as_str(v) {
            Some(s) => parse_u64(s),
            None => None,
        },
    }
}

} // verus!
