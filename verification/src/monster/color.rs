//! Display colours, as plain values that a renderer maps to its own.

use vstd::prelude::*;

verus! {

/// A terminal colour: one of the named colours or a 24-bit value.
#[derive(Clone, Copy, Debug, PartialEq, Eq, Structural)]
pub enum Color {
    Black,
    Red,
    Green,
    Yellow,
    Cyan,
    Gray,
    DarkGray,
    LightBlue,
    White,
    Rgb(u8, u8, u8),
}

} // verus!
