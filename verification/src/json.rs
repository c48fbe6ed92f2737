//! JSON documents: the mathematical value that a `serde_json::Value` stands
//! for, and the few operations of `serde_json` that the library reads and
//! builds documents with.
//!
//! Parsing and printing are `serde_json`'s. Everything here that touches a
//! `serde_json` item states what that item does and is believed, not proved.

use vstd::prelude::*;

verus! {

#[verifier::external_type_specification]
#[verifier::external_body]
pub struct ExValue(serde_json::Value);

#[verifier::external_type_specification]
#[verifier::external_body]
#[verifier::reject_recursive_types(K)]
#[verifier::reject_recursive_types(V)]
pub struct ExJsonMap<K, V>(serde_json::Map<K, V>);

/// A JSON value.
///
/// A number is an integer (`Int`) where `serde_json` holds it as one: an
/// integer from `i64::MIN` to `u64::MAX`. Any other number is a double
/// (`Real`), given by its 64 bits.
pub enum Json {
    Null,
    Bool(bool),
    Int(int),
    Real(u64),
    Text(Seq<char>),
    Array(Seq<Json>),
    Object(Map<Seq<char>, Json>),
}

impl Json {
    /// The member `key` of an object; `None` for a missing key and for
    /// anything that is not an object.
    pub open spec fn member(self, key: Seq<char>) -> Option<Json> {
        match self {
            Json::Object(m) => if m.dom().contains(key) {
                Some(m[key])
            } else {
                None
            },
            _ => None,
        }
    }

    pub open spec fn as_bool(self) -> Option<bool> {
        match self {
            Json::Bool(b) => Some(b),
            _ => None,
        }
    }

    /// The integer, if the value is one between `lo` and `hi`.
    pub open spec fn as_int(self, lo: int, hi: int) -> Option<int> {
        match self {
            Json::Int(i) => if lo <= i <= hi {
                Some(i)
            } else {
                None
            },
            _ => None,
        }
    }

    pub open spec fn as_u64(self) -> Option<u64> {
        match self.as_int(0, u64::MAX as int) {
            Some(i) => Some(i as u64),
            None => None,
        }
    }

    pub open spec fn as_i64(self) -> Option<i64> {
        match self.as_int(i64::MIN as int, i64::MAX as int) {
            Some(i) => Some(i as i64),
            None => None,
        }
    }

    pub open spec fn as_u32(self) -> Option<u32> {
        match self.as_int(0, u32::MAX as int) {
            Some(i) => Some(i as u32),
            None => None,
        }
    }

    pub open spec fn as_i32(self) -> Option<i32> {
        match self.as_int(i32::MIN as int, i32::MAX as int) {
            Some(i) => Some(i as i32),
            None => None,
        }
    }

    pub open spec fn as_u16(self) -> Option<u16> {
        match self.as_int(0, u16::MAX as int) {
            Some(i) => Some(i as u16),
            None => None,
        }
    }

    pub open spec fn as_u8(self) -> Option<u8> {
        match self.as_int(0, u8::MAX as int) {
            Some(i) => Some(i as u8),
            None => None,
        }
    }

    pub open spec fn as_text(self) -> Option<Seq<char>> {
        match self {
            Json::Text(s) => Some(s),
            _ => None,
        }
    }

    pub open spec fn as_array(self) -> Option<Seq<Json>> {
        match self {
            Json::Array(items) => Some(items),
            _ => None,
        }
    }

    /// The bits of the double that a number is read as.
    pub open spec fn as_double_bits(self) -> Option<u64> {
        match self {
            Json::Int(i) => Some(int_double_bits(i)),
            Json::Real(bits) => Some(bits),
            _ => None,
        }
    }

    /// An object with the one member `key`.
    pub open spec fn single(key: Seq<char>, value: Json) -> Json {
        Json::Object(Map::empty().insert(key, value))
    }
}

/// The JSON value that a document of `serde_json` holds.
pub uninterp spec fn value_json(v: serde_json::Value) -> Json;

/// The members that an object map of `serde_json` holds.
pub uninterp spec fn object_members(m: serde_json::Map<String, serde_json::Value>) -> Map<Seq<char>, Json>;

/// What `serde_json::from_slice` makes of a text: the value that it reads,
/// or the description of the fault that it finds.
pub uninterp spec fn json_parse(text: Seq<u8>) -> Result<Json, Seq<char>>;

/// The compact text that `serde_json` prints for a value.
pub uninterp spec fn json_text(j: Json) -> Seq<char>;

/// The bits of the double nearest to an integer, as the cast of an integer
/// to a double gives it.
pub uninterp spec fn int_double_bits(i: int) -> u64;

/// The values of a list of documents, item by item.
pub open spec fn values_json(items: Seq<serde_json::Value>) -> Seq<Json> {
    Seq::new(items.len(), |i: int| value_json(items[i]))
}

/// `Value::as_bool` gives the boolean of a `Bool`, else `None`.
pub assume_specification[ serde_json::Value::as_bool ](v: &serde_json::Value) -> (r: Option<bool>)
    ensures
        r == value_json(*v).as_bool(),
;

/// `Value::as_u64` gives a number that is an integer from 0 to `u64::MAX`,
/// else `None`.
pub assume_specification[ serde_json::Value::as_u64 ](v: &serde_json::Value) -> (r: Option<u64>)
    ensures
        r == value_json(*v).as_u64(),
;

/// `Value::as_i64` gives a number that is an integer from `i64::MIN` to
/// `i64::MAX`, else `None`.
pub assume_specification[ serde_json::Value::as_i64 ](v: &serde_json::Value) -> (r: Option<i64>)
    ensures
        r == value_json(*v).as_i64(),
;

/// `Value::as_str` lends the text of a `String`, else `None`.
pub assume_specification<'a>[ serde_json::Value::as_str ](v: &'a serde_json::Value) -> (r: Option<&'a str>)
    ensures
        match r {
            Some(s) => value_json(*v).as_text() == Some(s@),
            None => value_json(*v).as_text() is None,
        },
;

/// `Value::as_array` lends the items of an `Array`, else `None`.
pub assume_specification<'a>[ serde_json::Value::as_array ](v: &'a serde_json::Value) -> (r: Option<&'a Vec<serde_json::Value>>)
    ensures
        match r {
            Some(items) => value_json(*v).as_array() == Some(values_json(items@)),
            None => value_json(*v).as_array() is None,
        },
;

/// `Value::is_null` tells `Null` from the rest.
pub assume_specification[ serde_json::Value::is_null ](v: &serde_json::Value) -> (r: bool)
    ensures
        r == (value_json(*v) is Null),
;

/// `Map::new` makes an object without members.
pub assume_specification[ serde_json::Map::<String, serde_json::Value>::new ]() -> (r: serde_json::Map<String, serde_json::Value>)
    ensures
        object_members(r) == (Map::<Seq<char>, Json>::empty()),
;

/// `Map::insert` sets one member and leaves the others.
pub assume_specification[ serde_json::Map::<String, serde_json::Value>::insert ](m: &mut serde_json::Map<String, serde_json::Value>, k: String, v: serde_json::Value) -> (r: Option<serde_json::Value>)
    ensures
        object_members(*final(m)) == object_members(*old(m)).insert(k@, value_json(v)),
        match r {
            Some(x) => object_members(*old(m)).dom().contains(k@) && object_members(*old(m))[k@] == value_json(x),
            None => !object_members(*old(m)).dom().contains(k@),
        },
;

/// `Value::get` with a text key: the member of an object under that key,
/// `None` where the key is missing or the value is no object.
#[verifier::external_body]
pub(crate) fn member<'a>(v: &'a serde_json::Value, key: &str) -> (r: Option<&'a serde_json::Value>)
    ensures
        match r {
            Some(x) => value_json(*v).member(key@) == Some(value_json(*x)),
            None => value_json(*v).member(key@) is None,
        },
{
    v.get(key)
}

/// `Value::as_f64` gives every number as a double, else `None`; the double
/// is handed on as its bits.
#[verifier::external_body]
pub(crate) fn double_bits(v: &serde_json::Value) -> (r: Option<u64>)
    ensures
        r == match value_json(*v) {
            Json::Int(i) => Some(int_double_bits(i)),
            Json::Real(bits) => Some(bits),
            _ => None,
        },
{
    match v.as_f64() {
        Some(x) => Some(x.to_bits()),
        None => None,
    }
}

/// `Value::from` of a boolean is a `Bool`.
#[verifier::external_body]
pub(crate) fn bool_value(b: bool) -> (v: serde_json::Value)
    ensures
        value_json(v) == Json::Bool(b),
{
    serde_json::Value::from(b)
}

/// `Value::from` of an unsigned integer is that number.
#[verifier::external_body]
pub(crate) fn unsigned_value(n: u64) -> (v: serde_json::Value)
    ensures
        value_json(v) == Json::Int(n as int),
{
    serde_json::Value::from(n)
}

/// `Value::from` of a signed integer is that number.
#[verifier::external_body]
pub(crate) fn signed_value(n: i64) -> (v: serde_json::Value)
    ensures
        value_json(v) == Json::Int(n as int),
{
    serde_json::Value::from(n)
}

/// `Value::from` of a text is a `String` with that text.
#[verifier::external_body]
pub(crate) fn text_value(s: &str) -> (v: serde_json::Value)
    ensures
        value_json(v) == Json::Text(s@),
{
    serde_json::Value::from(s)
}

/// `Value::from` of an object map is an `Object` with its members.
#[verifier::external_body]
pub(crate) fn object_value(m: serde_json::Map<String, serde_json::Value>) -> (v: serde_json::Value)
    ensures
        value_json(v) == Json::Object(object_members(m)),
{
    serde_json::Value::from(m)
}

/// `serde_json::from_slice` reads a whole text as one value; what it
/// returns depends on the text alone. A fault is handed on as the
/// description that it gives of itself.
#[verifier::external_body]
pub(crate) fn parse_document(text: &[u8]) -> (r: Result<serde_json::Value, String>)
    ensures
        match r {
            Ok(v) => json_parse(text@) == Ok::<Json, Seq<char>>(value_json(v)),
            Err(e) => json_parse(text@) == Err::<Json, Seq<char>>(e@),
        },
{
    match serde_json::from_slice::<serde_json::Value>(text) {
        Ok(v) => Ok(v),
        Err(e) => Err(e.to_string()),
    }
}

/// The `Display` of a `Value` prints it compactly; the text depends on the
/// value alone.
#[verifier::external_body]
pub(crate) fn print(v: &serde_json::Value) -> (r: String)
    ensures
        r@ == json_text(value_json(*v)),
{
    v.to_string()
}

/// Equality of two texts, as `str` compares them: character by character.
#[verifier::external_body]
pub(crate) fn same_text(a: &str, b: &str) -> (r: bool)
    ensures
        r == (a@ == b@),
{
    a == b
}

/// The object `{key: value}`.
pub fn single(key: &str, value: serde_json::Value) -> (v: serde_json::Value)
    ensures
        value_json(v) == Json::single(key@, value_json(value)),
{
    let mut members = serde_json::Map::new();
    members.insert(String::from_str(key), value);
    object_value(members)
}

} // verus!
