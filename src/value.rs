//! The JSON-like value model that the predicates work on.
use vstd::prelude::*;

use crate::double::{is_nan_bits, is_zero_bits};

verus! {

/// A JSON number, kept in the representation it was written in.
#[derive(Clone, Copy, Debug)]
pub enum Number {
    /// A non-negative integer.
    PosInt(u64),
    /// A negative integer.
    NegInt(i64),
    /// A floating-point number, held by the 64 bits of its IEEE-754 binary64
    /// encoding.
    Float(u64),
}

/// A JSON-like value.
#[derive(Debug)]
pub enum Value {
    Null,
    Bool(bool),
    Number(Number),
    String(String),
    /// Elements in order.
    Array(Vec<Value>),
    /// Entries of an object, each a key and its value. The order of the
    /// entries carries no meaning; where a key appears more than once, its
    /// last entry gives its value.
    Object(Vec<(String, Value)>),
}

/// The bits of the double that an integer converts to (Rust's `as`, rounding
/// to the nearest double).
pub uninterp spec fn int_as_double_bits(n: int) -> u64;

/// The floating-point projection of a number, by its bits: integers convert
/// to the nearest double, floating-point numbers are themselves.
pub open spec fn projection(n: Number) -> u64 {
    match n {
        Number::PosInt(u) => int_as_double_bits(u as int),
        Number::NegInt(i) => int_as_double_bits(i as int),
        Number::Float(bits) => bits,
    }
}

/// Relies on `serde_json::Number::from(u64)` and `serde_json::Number::as_f64`:
/// the integer converted with `as` to the nearest double, here given by its
/// bits. Zero converts to +0.0 and any other integer to a nonzero finite
/// double.
#[verifier::external_body]
fn unsigned_as_double_bits(n: u64) -> (r: u64)
    ensures
        r == int_as_double_bits(n as int),
        is_zero_bits(r) == (n == 0),
        !is_nan_bits(r),
{
    serde_json::Number::from(n).as_f64().unwrap_or_default().to_bits()
}

/// Relies on `serde_json::Number::from(i64)` and `serde_json::Number::as_f64`:
/// the integer converted with `as` to the nearest double, here given by its
/// bits. Zero converts to +0.0 and any other integer to a nonzero finite
/// double.
#[verifier::external_body]
fn signed_as_double_bits(n: i64) -> (r: u64)
    ensures
        r == int_as_double_bits(n as int),
        is_zero_bits(r) == (n == 0),
        !is_nan_bits(r),
{
    serde_json::Number::from(n).as_f64().unwrap_or_default().to_bits()
}

impl Number {
    /// The bits of the double that this number projects to.
    pub fn as_double_bits(&self) -> (r: u64)
        ensures
            r == projection(*self),
            *self matches Number::PosInt(u) ==> is_zero_bits(r) == (u == 0) && !is_nan_bits(r),
            *self matches Number::NegInt(i) ==> is_zero_bits(r) == (i == 0) && !is_nan_bits(r),
    {
        match self {
            Number::PosInt(u) => unsigned_as_double_bits(*u),
            Number::NegInt(i) => signed_as_double_bits(*i),
            Number::Float(bits) => *bits,
        }
    }
}

} // verus!
