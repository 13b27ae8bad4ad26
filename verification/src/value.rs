//! MessagePack values carried inside commands.
use vstd::prelude::*;

verus! {

/// A MessagePack value, as the host reads it from a command payload.
///
/// Integers keep MessagePack's two families apart: `PosInt` holds values
/// from zero up, `NegInt` holds negative values. Floating-point numbers are
/// held as their IEEE-754 bit patterns.
#[derive(Debug)]
pub enum Value {
    Nil,
    Boolean(bool),
    PosInt(u64),
    NegInt(i64),
    F32Bits(u32),
    F64Bits(u64),
    String(String),
    Binary(Vec<u8>),
    Array(Vec<Value>),
    /// A MessagePack map: key/value pairs in order.
    Dict(Vec<(Value, Value)>),
    Ext(i8, Vec<u8>),
}

/// The integer value that `v` holds, if it is an integer.
pub open spec fn int_of(v: Value) -> Option<int> {
    match v {
        Value::PosInt(n) => Some(n as int),
        Value::NegInt(n) => Some(n as int),
        _ => None,
    }
}

/// `v` is a string value with text `s`.
pub open spec fn is_text(v: Value, s: Seq<char>) -> bool {
    v matches Value::String(t) && t@ == s
}

/// `v` is the integer `n`, in the family MessagePack gives it.
pub open spec fn is_integer(v: Value, n: int) -> bool {
    if n >= 0 {
        v matches Value::PosInt(m) && m == n
    } else {
        v matches Value::NegInt(m) && m == n
    }
}

impl Value {
    /// The integer value of `n`.
    pub fn from_i64(n: i64) -> (v: Value)
        ensures
            is_integer(v, n as int),
            int_of(v) == Some(n as int),
    {
        if n < 0 {
            Value::NegInt(n)
        } else {
            Value::PosInt(n as u64)
        }
    }

    /// The integer value of `n`.
    pub fn from_u64(n: u64) -> (v: Value)
        ensures
            is_integer(v, n as int),
            int_of(v) == Some(n as int),
    {
        Value::PosInt(n)
    }

    /// A string value with the text of `s`.
    pub fn from_str(s: &str) -> (v: Value)
        ensures
            is_text(v, s@),
    {
        Value::String(s.to_owned())
    }
}

} // verus!
