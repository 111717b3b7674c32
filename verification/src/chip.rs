//! The two colours of a chip, the small rounded label that shows a method, a
//! status or a time.

use crate::colour::Colour;
use vstd::prelude::*;

verus! {

/// The colours of a chip: what it is filled with, and what its text and its
/// outline are drawn in.
#[derive(Clone, Copy, Debug, PartialEq, Eq, Structural)]
pub struct PipColour {
    pub background: Colour,
    pub foreground: Colour,
}

/// A value that says how a chip is coloured.
pub trait ToChipColours {
    /// The background and the foreground of the chip.
    spec fn colours(&self) -> (Colour, Colour);

    /// Computes [`ToChipColours::colours`].
    fn from(&self) -> (colours: (Colour, Colour))
        ensures
            colours == self.colours(),
    ;
}

impl ToChipColours for Colour {
    /// A single colour is the background, with black on it.
    open spec fn colours(&self) -> (Colour, Colour) {
        (*self, Colour::Black)
    }

    fn from(&self) -> (colours: (Colour, Colour)) {
        (*self, Colour::Black)
    }
}

impl ToChipColours for (Colour, Colour) {
    /// A pair is the background and the foreground.
    open spec fn colours(&self) -> (Colour, Colour) {
        *self
    }

    fn from(&self) -> (colours: (Colour, Colour)) {
        *self
    }
}

impl ToChipColours for Option<(Colour, Colour)> {
    /// Without a choice a chip is black with white on it.
    open spec fn colours(&self) -> (Colour, Colour) {
        match self {
            Some(pair) => *pair,
            None => (Colour::Black, Colour::White),
        }
    }

    fn from(&self) -> (colours: (Colour, Colour)) {
        match self {
            Some(pair) => *pair,
            None => (Colour::Black, Colour::White),
        }
    }
}

impl PipColour {
    /// The colours that `colour` says.
    pub fn of<C: ToChipColours>(colour: &C) -> (pip: Self)
        ensures
            pip.background == colour.colours().0,
            pip.foreground == colour.colours().1,
    {
        let (background, foreground) = colour.from();
        PipColour { background, foreground }
    }
}

} // verus!
