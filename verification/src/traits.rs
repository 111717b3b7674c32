//! Conversions that the engine offers on types of its own and on foreign ones.

use crate::colour::Colour;
use vstd::prelude::*;

verus! {

/// A value that has an accent colour, which may depend on the theme.
pub trait ToColour {
    /// The colour of the value.
    spec fn colour(&self, dark_mode: bool) -> Colour;

    /// Computes [`ToColour::colour`].
    fn to_colour(&self, dark_mode: bool) -> (colour: Colour)
        ensures
            colour == self.colour(dark_mode),
    ;
}

/// A foreign value, such as a tuple, that can be written as one line of text.
pub trait ToStringForeign {
    /// The line that stands for the value.
    spec fn line(&self) -> Seq<char>;

    /// Writes [`ToStringForeign::line`].
    fn to_string(&self) -> (line: String)
        ensures
            line@ == self.line(),
    ;
}

/// The line of a pair of a name and a value: `name=value`.
pub open spec fn pair_line(pair: (Seq<char>, Seq<char>)) -> Seq<char> {
    pair.0 + "="@ + pair.1
}

impl ToStringForeign for (String, String) {
    /// A pair of a name and a value is written as `name=value`.
    open spec fn line(&self) -> Seq<char> {
        pair_line((self.0@, self.1@))
    }

    fn to_string(&self) -> (line: String) {
        crate::text::join3(self.0.as_str(), "=", self.1.as_str())
    }
}

} // verus!
