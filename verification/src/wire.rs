//! The trusted boundary of the library.
//!
//! Everything the library takes from outside crates passes through this
//! module: the JSON codec of `rustc_serialize` and the wall clock of `time`.
//! Each wrapper holds one outside call; its contract speaks over the model of
//! a JSON document, `JsonVal`, through the three named functions `json_view`,
//! `json_parse` and `json_write`.

use vstd::prelude::*;

use rustc_serialize::base64::FromBase64;
use rustc_serialize::json::Json;

verus! {

/// The model of a JSON document.
///
/// A floating-point number is modelled without its value: the library never
/// builds one, and never reads one.
pub enum JsonVal {
    /// `null`.
    Null,
    /// `true` or `false`.
    Boolean(bool),
    /// A non-negative integer.
    U64(u64),
    /// A negative integer.
    I64(i64),
    /// A number that is no integer; its value is not modelled.
    Float,
    /// A string.
    Str(Seq<char>),
    /// An array.
    Array(Seq<JsonVal>),
    /// An object: a map from key to value.
    Object(Map<Seq<char>, JsonVal>),
}

/// Whether a modelled document holds a floating-point number anywhere.
pub open spec fn has_float(v: JsonVal) -> bool
    decreases v,
{
    match v {
        JsonVal::Float => true,
        JsonVal::Array(a) => exists|i: int| 0 <= i < a.len() && has_float(#[trigger] a[i]),
        JsonVal::Object(m) => exists|k: Seq<char>|
            #[trigger] m.dom().contains(k) && has_float(m[k]),
        _ => false,
    }
}

/// The model of the map that a sequence of key/value pairs builds, a later
/// pair overriding an earlier one with the same key.
pub open spec fn pairs_view(s: Seq<(String, Json)>) -> Map<Seq<char>, JsonVal>
    decreases s.len(),
{
    if s.len() == 0 {
        Map::empty()
    } else {
        pairs_view(s.drop_last()).insert(s.last().0@, json_view(s.last().1))
    }
}

#[verifier::external_type_specification]
#[verifier::external_body]
pub struct ExJson(Json);

/// What a `rustc_serialize::json::Json` value holds.
pub uninterp spec fn json_view(j: Json) -> JsonVal;

/// What `rustc_serialize::json::Json::from_str` reads out of a text: the
/// parsed document, or nothing where the text is no JSON.
pub uninterp spec fn json_parse(s: Seq<char>) -> Option<JsonVal>;

/// The text that `rustc_serialize` writes for a document (compact form, keys
/// in sorted order).
pub uninterp spec fn json_write(v: JsonVal) -> Seq<char>;

/// Relies on `rustc_serialize::json::Json::from_str`: parsing is a function
/// of the text alone.
#[verifier::external_body]
pub(crate) fn json_from_str(s: &str) -> (r: Option<Json>)
    ensures
        r matches Some(j) ==> json_parse(s@) == Some(json_view(j)),
        r is Some <==> json_parse(s@) is Some,
{
    Json::from_str(s).ok()
}

/// Relies on the `Display` impl of `rustc_serialize::json::Json`, which
/// writes the compact form; on a document without floating-point numbers the
/// text is a function of the document alone.
#[verifier::external_body]
pub(crate) fn json_to_string(j: &Json) -> (r: String)
    requires
        !has_float(json_view(*j)),
    ensures
        r@ == json_write(json_view(*j)),
{
    j.to_string()
}

/// Relies on `rustc_serialize::json::Json::find`: the value under the key,
/// where the document is an object that has it.
#[verifier::external_body]
pub(crate) fn json_find<'a>(j: &'a Json, key: &str) -> (r: Option<&'a Json>)
    ensures
        (match json_view(*j) {
            JsonVal::Object(m) => {
                if m.dom().contains(key@) {
                    r matches Some(v) && json_view(*v) == m[key@]
                } else {
                    r is None
                }
            },
            _ => r is None,
        }),
{
    j.find(key)
}

/// Relies on `rustc_serialize::json::Json::as_string`.
#[verifier::external_body]
pub(crate) fn json_as_string<'a>(j: &'a Json) -> (r: Option<&'a str>)
    ensures
        (match json_view(*j) {
            JsonVal::Str(s) => r matches Some(t) && t@ == s,
            _ => r is None,
        }),
{
    j.as_string()
}

/// Relies on `rustc_serialize::json::Json::as_u64`, which also accepts a
/// non-negative value stored as a negative-capable integer.
#[verifier::external_body]
pub(crate) fn json_as_u64(j: &Json) -> (r: Option<u64>)
    ensures
        r == (match json_view(*j) {
            JsonVal::U64(n) => Some(n),
            JsonVal::I64(n) => if n >= 0 {
                Some(n as u64)
            } else {
                None
            },
            _ => None,
        }),
{
    j.as_u64()
}

/// Relies on `rustc_serialize::json::Json::as_i64`, which refuses a stored
/// non-negative value of `i64::MAX` or above.
#[verifier::external_body]
pub(crate) fn json_as_i64(j: &Json) -> (r: Option<i64>)
    ensures
        r == (match json_view(*j) {
            JsonVal::I64(n) => Some(n),
            JsonVal::U64(n) => if n < (i64::MAX as u64) {
                Some(n as i64)
            } else {
                None
            },
            _ => None,
        }),
{
    j.as_i64()
}

/// Relies on `rustc_serialize::json::Json::as_boolean`.
#[verifier::external_body]
pub(crate) fn json_as_boolean(j: &Json) -> (r: Option<bool>)
    ensures
        r == (match json_view(*j) {
            JsonVal::Boolean(b) => Some(b),
            _ => None,
        }),
{
    j.as_boolean()
}

/// Relies on `rustc_serialize::json::Json::as_array`.
#[verifier::external_body]
pub(crate) fn json_as_array<'a>(j: &'a Json) -> (r: Option<&'a Vec<Json>>)
    ensures
        (match json_view(*j) {
            JsonVal::Array(a) => r matches Some(v) && v@.len() == a.len() && (forall|i: int|
                0 <= i < a.len() ==> json_view(#[trigger] v@[i]) == a[i]),
            _ => r is None,
        }),
{
    j.as_array()
}

/// Relies on `rustc_serialize::json::Json::is_null`.
#[verifier::external_body]
pub(crate) fn json_is_null(j: &Json) -> (r: bool)
    ensures
        r == (json_view(*j) is Null),
{
    j.is_null()
}

/// Relies on the `Json::Null` constructor.
#[verifier::external_body]
pub(crate) fn json_null() -> (r: Json)
    ensures
        json_view(r) == JsonVal::Null,
{
    Json::Null
}

/// Relies on the `Json::Boolean` constructor.
#[verifier::external_body]
pub(crate) fn json_bool(b: bool) -> (r: Json)
    ensures
        json_view(r) == JsonVal::Boolean(b),
{
    Json::Boolean(b)
}

/// Relies on the `Json::U64` constructor.
#[verifier::external_body]
pub(crate) fn json_u64(n: u64) -> (r: Json)
    ensures
        json_view(r) == JsonVal::U64(n),
{
    Json::U64(n)
}

/// Relies on the `Json::String` constructor.
#[verifier::external_body]
pub(crate) fn json_string(s: &str) -> (r: Json)
    ensures
        json_view(r) == JsonVal::Str(s@),
{
    Json::String(s.to_string())
}

/// Relies on the `Json::Array` constructor.
#[verifier::external_body]
pub(crate) fn json_array(items: Vec<Json>) -> (r: Json)
    ensures
        json_view(r) == JsonVal::Array(
            Seq::new(items@.len(), |i: int| json_view(items@[i])),
        ),
{
    Json::Array(items)
}

/// Relies on the `Json::Object` constructor and `BTreeMap`'s `FromIterator`,
/// where a later pair wins over an earlier one with the same key.
#[verifier::external_body]
pub(crate) fn json_object(pairs: Vec<(String, Json)>) -> (r: Json)
    ensures
        json_view(r) == JsonVal::Object(pairs_view(pairs@)),
{
    Json::Object(pairs.into_iter().collect())
}

/// Relies on the `Clone` derive of `rustc_serialize::json::Json` (a
/// structural copy) and on `BTreeMap::iter` of std, which walks the entries
/// in key order: the entries of an object, each key once, with its value.
#[verifier::external_body]
pub(crate) fn json_object_entries(j: &Json) -> (r: Option<Vec<(String, Json)>>)
    ensures
        (match json_view(*j) {
            JsonVal::Object(m) => r matches Some(v) && (forall|i: int|
                0 <= i < v@.len() ==> m.dom().contains(#[trigger] v@[i].0@) && json_view(
                    v@[i].1,
                ) == m[v@[i].0@]) && (forall|k: Seq<char>|
                #[trigger] m.dom().contains(k) ==> exists|i: int|
                    0 <= i < v@.len() && #[trigger] v@[i].0@ == k) && (forall|i: int, l: int|
                0 <= i < v@.len() && 0 <= l < v@.len() && i != l ==> #[trigger] v@[i].0@
                    != #[trigger] v@[l].0@),
            _ => r is None,
        }),
{
    match j.as_object() {
        Some(m) => Some(m.iter().map(|(k, v)| (k.clone(), v.clone())).collect()),
        None => None,
    }
}

/// What the `time` crate reads out of a text beginning
/// `YYYY-MM-DDThh:mm:ss`, taken as UTC (anything after the seconds, such as
/// a fraction or a zone suffix, is ignored): the instant in seconds since
/// the epoch, or nothing where the text does not start with that form.
pub uninterp spec fn epoch_of_datetime_text(s: Seq<char>) -> Option<i64>;

/// Relies on `time::strptime` with the `%Y-%m-%dT%H:%M:%S` format and
/// `Tm::to_timespec`, which for an offset of zero runs the reverse calendar
/// arithmetic (`timegm`): both are functions of the text alone.
#[verifier::external_body]
pub(crate) fn parse_datetime_epoch(s: &str) -> (r: Option<i64>)
    ensures
        r == epoch_of_datetime_text(s@),
{
    match time::strptime(s, "%Y-%m-%dT%H:%M:%S") {
        Ok(tm) => Some(tm.to_timespec().sec),
        Err(_) => None,
    }
}

/// Relies on `<str as PartialEq>::eq` of std: character equality.
#[verifier::external_body]
pub(crate) fn str_eq(a: &str, b: &str) -> (r: bool)
    ensures
        r == (a@ == b@),
{
    a == b
}

/// What `rustc_serialize`'s `FromBase64` reads out of a text: the decoded
/// bytes, or nothing where the text is no base64.
pub uninterp spec fn base64_of(s: Seq<char>) -> Option<Seq<u8>>;

/// Relies on `rustc_serialize::base64::FromBase64` for `str`: decoding is a
/// function of the text alone.
#[verifier::external_body]
pub(crate) fn from_base64(s: &str) -> (r: Option<Vec<u8>>)
    ensures
        r matches Some(v) ==> base64_of(s@) == Some(v@),
        r is Some <==> base64_of(s@) is Some,
{
    s.from_base64().ok()
}

/// Relies on `time::get_time` of the `time` crate: the wall clock in seconds
/// since the epoch. Nothing is promised of the value.
#[verifier::external_body]
pub(crate) fn timestamp_now() -> i64 {
    time::get_time().sec
}

} // verus!
