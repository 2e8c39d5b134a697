//! Exact decimal numbers.
//!
//! The exchange sends every monetary and quantity field as a JSON string, and
//! this library keeps it that way: a [`Decimal`] wraps the exact textual form
//! and never rounds through native floating point.  The stored text is fixed
//! at construction and no operation rewrites it.

use vstd::prelude::*;

use crate::digits::dec_chars;
use crate::digits::int_chars;
use crate::digits::i64_to_string;
use crate::digits::u64_to_string;

verus! {

/// A decimal number with full precision.
#[derive(Debug, Clone)]
pub struct Decimal(String);

impl View for Decimal {
    type V = Seq<char>;

    closed spec fn view(&self) -> Seq<char> {
        self.0@
    }
}

impl Decimal {
    /// Wraps decimal text exactly as it came off the wire.
    pub fn from_text(text: String) -> (d: Decimal)
        ensures
            d@ == text@,
    {
        Decimal(text)
    }

    /// The stored text, unmodified.
    pub fn text(&self) -> (r: &str)
        ensures
            r@ == self@,
    {
        self.0.as_str()
    }

    /// The base-10 rendering of an unsigned value.
    pub fn from_u64(x: u64) -> (d: Decimal)
        ensures
            d@ == dec_chars(x as nat),
    {
        Decimal(u64_to_string(x))
    }

    /// The base-10 rendering of a signed value.
    pub fn from_i64(x: i64) -> (d: Decimal)
        ensures
            d@ == int_chars(x as int),
    {
        Decimal(i64_to_string(x))
    }

    /// The base-10 rendering of a `usize` value.
    pub fn from_usize(x: usize) -> (d: Decimal)
        ensures
            d@ == dec_chars(x as nat),
    {
        Decimal::from_u64(x as u64)
    }

    /// The base-10 rendering of an `isize` value.
    pub fn from_isize(x: isize) -> (d: Decimal)
        ensures
            d@ == int_chars(x as int),
    {
        Decimal::from_i64(x as i64)
    }

    /// The base-10 rendering of a `u32` value.
    pub fn from_u32(x: u32) -> (d: Decimal)
        ensures
            d@ == dec_chars(x as nat),
    {
        Decimal::from_u64(x as u64)
    }

    /// The base-10 rendering of an `i32` value.
    pub fn from_i32(x: i32) -> (d: Decimal)
        ensures
            d@ == int_chars(x as int),
    {
        Decimal::from_i64(x as i64)
    }

    /// The base-10 rendering of a `u16` value.
    pub fn from_u16(x: u16) -> (d: Decimal)
        ensures
            d@ == dec_chars(x as nat),
    {
        Decimal::from_u64(x as u64)
    }

    /// The base-10 rendering of an `i16` value.
    pub fn from_i16(x: i16) -> (d: Decimal)
        ensures
            d@ == int_chars(x as int),
    {
        Decimal::from_i64(x as i64)
    }

    /// The base-10 rendering of a `u8` value.
    pub fn from_u8(x: u8) -> (d: Decimal)
        ensures
            d@ == dec_chars(x as nat),
    {
        Decimal::from_u64(x as u64)
    }

    /// The base-10 rendering of an `i8` value.
    pub fn from_i8(x: i8) -> (d: Decimal)
        ensures
            d@ == int_chars(x as int),
    {
        Decimal::from_i64(x as i64)
    }
}

} // verus!
