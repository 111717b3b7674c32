//! The size classes of the window, by which the layout is chosen.

use vstd::prelude::*;

verus! {

/// A size class, from small to extreme.
#[allow(clippy::upper_case_acronyms)]
#[derive(Clone, Copy, Debug, PartialEq, Eq, Structural)]
pub enum BreakpointSize {
    SMALL,
    MEDIUM,
    LARGE,
    EXTREME,
}

impl BreakpointSize {
    /// The place of the class in the order of the classes.
    pub open spec fn rank(self) -> nat {
        match self {
            BreakpointSize::SMALL => 0,
            BreakpointSize::MEDIUM => 1,
            BreakpointSize::LARGE => 2,
            BreakpointSize::EXTREME => 3,
        }
    }

    /// The class of a length in whole points: small below 600, medium below 800,
    /// large below 1000, extreme from there on.
    pub open spec fn of_length(length: u32) -> BreakpointSize {
        if length < 600 {
            BreakpointSize::SMALL
        } else if length < 800 {
            BreakpointSize::MEDIUM
        } else if length < 1000 {
            BreakpointSize::LARGE
        } else {
            BreakpointSize::EXTREME
        }
    }

    /// The smaller of two classes.
    pub open spec fn smaller(x: BreakpointSize, y: BreakpointSize) -> BreakpointSize {
        if x.rank() < y.rank() {
            x
        } else {
            y
        }
    }

    /// Computes [`BreakpointSize::rank`].
    pub fn order(&self) -> (rank: u8)
        ensures
            rank == self.rank(),
    {
        match self {
            BreakpointSize::SMALL => 0,
            BreakpointSize::MEDIUM => 1,
            BreakpointSize::LARGE => 2,
            BreakpointSize::EXTREME => 3,
        }
    }

    /// Computes [`BreakpointSize::of_length`].
    pub fn from_length(length: u32) -> (size: Self)
        ensures
            size == BreakpointSize::of_length(length),
    {
        if length < 600 {
            BreakpointSize::SMALL
        } else if length < 800 {
            BreakpointSize::MEDIUM
        } else if length < 1000 {
            BreakpointSize::LARGE
        } else {
            BreakpointSize::EXTREME
        }
    }

    /// The smaller of the two classes: a window is as small as its smaller side.
    pub fn compare(x: BreakpointSize, y: BreakpointSize) -> (size: Self)
        ensures
            size == BreakpointSize::smaller(x, y),
    {
        if x.order() < y.order() {
            x
        } else {
            y
        }
    }
}

/// The model of a [`Breakpoint`].
pub struct BreakpointView {
    pub x: u32,
    pub y: u32,
    pub size: BreakpointSize,
}

impl BreakpointView {
    /// The class of a window is that of its smaller side.
    pub open spec fn valid(self) -> bool {
        self.size == BreakpointSize::smaller(
            BreakpointSize::of_length(self.x),
            BreakpointSize::of_length(self.y),
        )
    }
}

/// A window of a width and a height in whole points, with the class of its
/// smaller side.
pub struct Breakpoint {
    x: u32,
    y: u32,
    size: BreakpointSize,
}

impl View for Breakpoint {
    type V = BreakpointView;

    closed spec fn view(&self) -> BreakpointView {
        BreakpointView { x: self.x, y: self.y, size: self.size }
    }
}

impl Breakpoint {
    #[verifier::type_invariant]
    spec fn kept_valid(self) -> bool {
        self@.valid()
    }

    /// The window of width `x` and height `y`.
    pub fn new(x: u32, y: u32) -> (breakpoint: Self)
        ensures
            breakpoint@.x == x,
            breakpoint@.y == y,
            breakpoint@.valid(),
    {
        let size = BreakpointSize::compare(
            BreakpointSize::from_length(x),
            BreakpointSize::from_length(y),
        );
        Breakpoint { x, y, size }
    }

    /// The class of the window. Every window is valid.
    pub fn size(&self) -> (size: BreakpointSize)
        ensures
            size == self@.size,
            self@.valid(),
    {
        proof {
            use_type_invariant(self);
        }
        self.size
    }

    /// The classes of the width and of the height.
    pub fn sizes(&self) -> (sizes: (BreakpointSize, BreakpointSize))
        ensures
            sizes == (BreakpointSize::of_length(self@.x), BreakpointSize::of_length(self@.y)),
    {
        (BreakpointSize::from_length(self.x), BreakpointSize::from_length(self.y))
    }
}

} // verus!
