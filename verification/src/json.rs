//! A plain JSON tree.
//!
//! Inbound protocol frames reach the library as values of this type: the
//! surrounding program parses the wire text and hands over the tree, and every
//! rule about a frame's shape is then stated and proved here. A number is
//! carried as its three standard projections, so the logic reads exactly what
//! the wire-level accessors would have returned.

use vstd::prelude::*;

use crate::text::str_eq;

verus! {

/// One JSON value.
#[derive(Debug)]
pub enum JsonValue {
    Null,
    Bool(bool),
    /// A JSON number, carried as its three standard projections: the exact
    /// unsigned and signed readings when the number is an integer in range,
    /// and the bit pattern of its closest double-precision value.
    Num { u_val: Option<u64>, i_val: Option<i64>, f64_bits: u64 },
    Str(String),
    Array(Vec<JsonValue>),
    Object(Vec<(String, JsonValue)>),
}

/// The value of the first entry named `key`.
pub open spec fn entry_lookup(es: Seq<(String, JsonValue)>, key: Seq<char>) -> Option<JsonValue>
    decreases es.len(),
{
    if es.len() == 0 {
        None
    } else if es[0].0@ == key {
        Some(es[0].1)
    } else {
        entry_lookup(es.drop_first(), key)
    }
}

impl JsonValue {
    /// The member named `key` of an object; `None` on any other shape.
    pub open spec fn spec_get(self, key: Seq<char>) -> Option<JsonValue> {
        match self {
            JsonValue::Object(es) => entry_lookup(es@, key),
            _ => None,
        }
    }

    /// Look up a member of an object.
    pub fn get<'a>(&'a self, key: &str) -> (r: Option<&'a JsonValue>)
        ensures
            match r {
                Some(v) => self.spec_get(key@) == Some(*v),
                None => self.spec_get(key@) is None,
            },
    {
        match self {
            JsonValue::Object(es) => {
                proof {
                    assert(es@.skip(0) =~= es@);
                }
                let mut i: usize = 0;
                while i < es.len()
                    invariant
                        0 <= i <= es@.len(),
                        self == JsonValue::Object(*es),
                        forall|k: int| 0 <= k < i ==> es@[k].0@ != key@,
                        entry_lookup(es@, key@) == entry_lookup(es@.skip(i as int), key@),
                    decreases es@.len() - i,
                {
                    let pair = &es[i];
                    if str_eq(pair.0.as_str(), key) {
                        proof {
                            assert(es@.skip(i as int)[0] == es@[i as int]);
                        }
                        return Some(&es[i].1);
                    }
                    proof {
                        assert(es@.skip(i as int).drop_first() =~= es@.skip(i + 1));
                        assert(es@.skip(i as int)[0] == es@[i as int]);
                    }
                    i = i + 1;
                }
                proof {
                    assert(es@.skip(i as int).len() == 0);
                }
                None
            },
            _ => None,
        }
    }

    /// The string inside a `Str` value.
    pub open spec fn spec_as_str(self) -> Option<Seq<char>> {
        match self {
            JsonValue::Str(s) => Some(s@),
            _ => None,
        }
    }

    /// Read a string value.
    pub fn as_str<'a>(&'a self) -> (r: Option<&'a str>)
        ensures
            match r {
                Some(s) => self.spec_as_str() == Some(s@),
                None => self.spec_as_str() is None,
            },
    {
        match self {
            JsonValue::Str(s) => Some(s.as_str()),
            _ => None,
        }
    }

    /// The boolean inside a `Bool` value.
    pub open spec fn spec_as_bool(self) -> Option<bool> {
        match self {
            JsonValue::Bool(b) => Some(b),
            _ => None,
        }
    }

    /// Read a boolean value.
    pub fn as_bool(&self) -> (r: Option<bool>)
        ensures
            r == self.spec_as_bool(),
    {
        match self {
            JsonValue::Bool(b) => Some(*b),
            _ => None,
        }
    }

    /// The unsigned reading of a number value.
    pub open spec fn spec_as_u64(self) -> Option<u64> {
        match self {
            JsonValue::Num { u_val, .. } => u_val,
            _ => None,
        }
    }

    /// Read a number as a `u64`.
    pub fn as_u64(&self) -> (r: Option<u64>)
        ensures
            r == self.spec_as_u64(),
    {
        match self {
            JsonValue::Num { u_val, .. } => *u_val,
            _ => None,
        }
    }

    /// The signed reading of a number value.
    pub open spec fn spec_as_i64(self) -> Option<i64> {
        match self {
            JsonValue::Num { i_val, .. } => i_val,
            _ => None,
        }
    }

    /// Read a number as an `i64`.
    pub fn as_i64(&self) -> (r: Option<i64>)
        ensures
            r == self.spec_as_i64(),
    {
        match self {
            JsonValue::Num { i_val, .. } => *i_val,
            _ => None,
        }
    }

    /// The double-precision bit pattern of a number value.
    pub open spec fn spec_as_f64_bits(self) -> Option<u64> {
        match self {
            JsonValue::Num { f64_bits, .. } => Some(f64_bits),
            _ => None,
        }
    }

    /// Read a number as the bit pattern of its double-precision value.
    pub fn as_f64_bits(&self) -> (r: Option<u64>)
        ensures
            r == self.spec_as_f64_bits(),
    {
        match self {
            JsonValue::Num { f64_bits, .. } => Some(*f64_bits),
            _ => None,
        }
    }

    /// The elements of an `Array` value.
    pub open spec fn spec_as_array(self) -> Option<Seq<JsonValue>> {
        match self {
            JsonValue::Array(items) => Some(items@),
            _ => None,
        }
    }

    /// Read the elements of an array.
    pub fn as_array<'a>(&'a self) -> (r: Option<&'a Vec<JsonValue>>)
        ensures
            match r {
                Some(items) => self.spec_as_array() == Some(items@),
                None => self.spec_as_array() is None,
            },
    {
        match self {
            JsonValue::Array(items) => Some(items),
            _ => None,
        }
    }

}

} // verus!
