//! The palette from which the engine picks accents for methods, status codes and
//! notifications. The program around the library maps each entry to a real colour.

use vstd::prelude::*;

verus! {

/// A colour of the palette.
#[derive(Clone, Copy, Debug, PartialEq, Eq, Structural)]
pub enum Colour {
    Black,
    White,
    LightBlue,
    Orange,
    Red,
    Green,
    LightGreen,
    DarkGreen,
    /// A colour given by its red, green and blue parts.
    Rgb(u8, u8, u8),
}

} // verus!
