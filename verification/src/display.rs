//! The displayable capability: a value that can produce a text slice.
//!
//! Exactly two kinds of value are displayable: static text, which renders as
//! itself, and unsigned integers of the four supported widths, which render
//! through the decimal formatter.

use vstd::prelude::*;
use crate::format::{format_u16, format_u32, format_u64, format_u8, spec_decimal};

verus! {

/// A value that can be rendered as text for the output primitive.
pub enum Displayable {
    /// Static text: renders as itself, unchanged.
    Text(&'static str),
    /// An 8-bit unsigned integer, rendered in decimal.
    U8(u8),
    /// A 16-bit unsigned integer, rendered in decimal.
    U16(u16),
    /// A 32-bit unsigned integer, rendered in decimal.
    U32(u32),
    /// A 64-bit unsigned integer, rendered in decimal.
    U64(u64),
}

impl Displayable {
    /// The text this value renders to.
    pub open spec fn spec_text(&self) -> Seq<char> {
        match self {
            Displayable::Text(s) => s@,
            Displayable::U8(n) => spec_decimal(*n as nat),
            Displayable::U16(n) => spec_decimal(*n as nat),
            Displayable::U32(n) => spec_decimal(*n as nat),
            Displayable::U64(n) => spec_decimal(*n as nat),
        }
    }

    /// Renders this value: static text passes through unchanged, integers
    /// become their minimal decimal representation.
    pub fn to_text(&self) -> (r: String)
        ensures
            r@ == self.spec_text(),
    {
        match self {
            Displayable::Text(s) => (*s).to_owned(),
            Displayable::U8(n) => format_u8(*n),
            Displayable::U16(n) => format_u16(*n),
            Displayable::U32(n) => format_u32(*n),
            Displayable::U64(n) => format_u64(*n),
        }
    }
}

} // verus!
