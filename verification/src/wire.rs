//! Reading typed values out of JSON documents and writing them back.
//!
//! `Decode` says, as a function on JSON values, which documents a type
//! accepts and what each of them means; `Encode` says which document stands
//! for a value, and that reading it gives the value back.

use vstd::prelude::*;
use crate::json::{bool_value, member, signed_value, text_value, unsigned_value, value_json, values_json, Json};

verus! {

/// A type that can be read from a JSON value.
pub trait Decode: Sized + DeepView {
    /// The value that `j` is read as; `None` where `j` has not the shape of
    /// this type.
    spec fn decoded(j: Json) -> Option<Self::V>;

    fn from_json(v: &serde_json::Value) -> (r: Option<Self>)
        ensures
            r.deep_view() == Self::decoded(value_json(*v)),
    ;
}

/// A type that can be written as a JSON value and read back from it.
pub trait Encode: Decode {
    /// The JSON value that stands for `x`.
    spec fn encoded(x: Self::V) -> Json;

    fn to_json(&self) -> (v: serde_json::Value)
        ensures
            value_json(v) == Self::encoded(self.deep_view()),
    ;

    /// Reading what was written gives the value back.
    proof fn round_trip(x: Self::V)
        ensures
            Self::decoded(Self::encoded(x)) == Some(x),
    ;
}

/// The member `key` of `j`, read as a `T`.
pub open spec fn decoded_member<T: Decode>(j: Json, key: Seq<char>) -> Option<T::V> {
    match j.member(key) {
        Some(x) => T::decoded(x),
        None => None,
    }
}

/// The member `key` of `j`, read as a `T`, where the member may be missing
/// or `null`: both read as `Some(None)`. A member that is there and is not
/// a `T` reads as `None`.
pub open spec fn decoded_optional<T: Decode>(j: Json, key: Seq<char>) -> Option<Option<T::V>> {
    match j.member(key) {
        None => Some(None),
        Some(Json::Null) => Some(None),
        Some(x) => match T::decoded(x) {
            Some(t) => Some(Some(t)),
            None => None,
        },
    }
}

/// The items of a list, each read as a `T`; `None` where one of them is
/// not a `T`.
pub open spec fn decoded_items<T: Decode>(items: Seq<Json>) -> Option<Seq<T::V>> {
    if forall|i: int| 0 <= i < items.len() ==> (#[trigger] T::decoded(items[i])) is Some {
        Some(Seq::new(items.len(), |i: int| T::decoded(items[i])->0))
    } else {
        None
    }
}

/// Reads the member `key` of an object.
pub fn field<T: Decode>(v: &serde_json::Value, key: &str) -> (r: Option<T>)
    ensures
        r.deep_view() == decoded_member::<T>(value_json(*v), key@),
{
    match member(v, key) {
        Some(x) => T::from_json(x),
        None => None,
    }
}

/// Reads the member `key` of an object, where it may be missing or `null`.
pub fn optional_field<T: Decode>(v: &serde_json::Value, key: &str) -> (r: Option<Option<T>>)
    ensures
        r.deep_view() == decoded_optional::<T>(value_json(*v), key@),
{
    match member(v, key) {
        None => Some(None),
        Some(x) => {
            if x.is_null() {
                Some(None)
            } else {
                match T::from_json(x) {
                    Some(t) => Some(Some(t)),
                    None => None,
                }
            }
        },
    }
}

impl Decode for bool {
    open spec fn decoded(j: Json) -> Option<bool> {
        j.as_bool()
    }

    fn from_json(v: &serde_json::Value) -> (r: Option<bool>) {
        v.as_bool()
    }
}

impl Encode for bool {
    open spec fn encoded(x: bool) -> Json {
        Json::Bool(x)
    }

    fn to_json(&self) -> (v: serde_json::Value) {
        bool_value(*self)
    }

    proof fn round_trip(x: bool) {
    }
}

impl Decode for u32 {
    open spec fn decoded(j: Json) -> Option<u32> {
        j.as_u32()
    }

    fn from_json(v: &serde_json::Value) -> (r: Option<u32>) {
        match v.as_u64() {
            Some(n) => if n <= 0xffff_ffff {
                Some(n as u32)
            } else {
                None
            },
            None => None,
        }
    }
}

impl Encode for u32 {
    open spec fn encoded(x: u32) -> Json {
        Json::Int(x as int)
    }

    fn to_json(&self) -> (v: serde_json::Value) {
        unsigned_value(*self as u64)
    }

    proof fn round_trip(x: u32) {
    }
}

impl Decode for u16 {
    open spec fn decoded(j: Json) -> Option<u16> {
        j.as_u16()
    }

    fn from_json(v: &serde_json::Value) -> (r: Option<u16>) {
        match v.as_u64() {
            Some(n) => if n <= 0xffff {
                Some(n as u16)
            } else {
                None
            },
            None => None,
        }
    }
}

impl Decode for u8 {
    open spec fn decoded(j: Json) -> Option<u8> {
        j.as_u8()
    }

    fn from_json(v: &serde_json::Value) -> (r: Option<u8>) {
        let r = match v.as_u64() {
            Some(n) => if n <= 0xff {
                Some(n as u8)
            } else {
                None
            },
            None => None,
        };
        proof {
            assert(r.deep_view() == r);
            assert(<u8 as Decode>::decoded(value_json(*v)) == value_json(*v).as_u8());
        }
        r
    }
}

impl Decode for i32 {
    open spec fn decoded(j: Json) -> Option<i32> {
        j.as_i32()
    }

    fn from_json(v: &serde_json::Value) -> (r: Option<i32>) {
        match v.as_i64() {
            Some(n) => if -0x8000_0000 <= n && n <= 0x7fff_ffff {
                Some(n as i32)
            } else {
                None
            },
            None => None,
        }
    }
}

impl Encode for i32 {
    open spec fn encoded(x: i32) -> Json {
        Json::Int(x as int)
    }

    fn to_json(&self) -> (v: serde_json::Value) {
        signed_value(*self as i64)
    }

    proof fn round_trip(x: i32) {
    }
}

impl Decode for String {
    open spec fn decoded(j: Json) -> Option<Seq<char>> {
        j.as_text()
    }

    fn from_json(v: &serde_json::Value) -> (r: Option<String>) {
        match v.as_str() {
            Some(s) => Some(String::from_str(s)),
            None => None,
        }
    }
}

impl Encode for String {
    open spec fn encoded(x: Seq<char>) -> Json {
        Json::Text(x)
    }

    fn to_json(&self) -> (v: serde_json::Value) {
        text_value(self.as_str())
    }

    proof fn round_trip(x: Seq<char>) {
    }
}

impl<T: Decode> Decode for Vec<T> {
    open spec fn decoded(j: Json) -> Option<Seq<T::V>> {
        match j.as_array() {
            Some(items) => decoded_items::<T>(items),
            None => None,
        }
    }

    fn from_json(v: &serde_json::Value) -> (r: Option<Vec<T>>) {
        match v.as_array() {
            None => None,
            Some(items) => {
                let ghost js = values_json(items@);
                let mut out: Vec<T> = Vec::new();
                let mut i: usize = 0;
                while i < items.len()
                    invariant
                        i <= items.len(),
                        js == values_json(items@),
                        value_json(*v).as_array() == Some(js),
                        out.len() == i,
                        forall|k: int| 0 <= k < i ==> T::decoded(js[k]) == Some(#[trigger] out@[k].deep_view()),
                    decreases items.len() - i,
                {
                    match T::from_json(&items[i]) {
                        Some(t) => {
                            out.push(t);
                        },
                        None => {
                            assert(T::decoded(js[i as int]) is None);
                            return None;
                        },
                    }
                    i += 1;
                }
                proof {
                    assert forall|k: int| 0 <= k < js.len() implies (#[trigger] T::decoded(js[k])) is Some by {
                        assert(T::decoded(js[k]) == Some(out@[k].deep_view()));
                    }
                    assert(out.deep_view() =~= decoded_items::<T>(js)->0);
                }
                Some(out)
            },
        }
    }
}

} // verus!
