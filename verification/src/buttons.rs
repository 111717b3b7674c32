//! What the buttons of the menu show.

use vstd::prelude::*;

verus! {

/// The side towards which a panel folds away.
#[derive(Clone, Copy, Debug, PartialEq, Eq, Structural)]
pub enum MinimiserDirection {
    LeftToRight,
    RightToLeft,
}

/// A double chevron that points to one side.
#[derive(Clone, Copy, Debug, PartialEq, Eq, Structural)]
pub enum Chevron {
    Left,
    Right,
}

impl MinimiserDirection {
    /// The chevron on the button that folds a panel away or brings it back. A
    /// panel that folds to the left shows, while it is folded, the chevron to the
    /// right, and else the one to the left; a panel that folds to the right shows
    /// the opposite.
    pub open spec fn chevron(self, minimised: bool) -> Chevron {
        match self {
            MinimiserDirection::LeftToRight => if minimised {
                Chevron::Right
            } else {
                Chevron::Left
            },
            MinimiserDirection::RightToLeft => if minimised {
                Chevron::Left
            } else {
                Chevron::Right
            },
        }
    }

    /// Computes [`MinimiserDirection::chevron`].
    pub fn icon(&self, minimised: bool) -> (chevron: Chevron)
        ensures
            chevron == self.chevron(minimised),
    {
        let (minimise, expand) = match self {
            MinimiserDirection::LeftToRight => (Chevron::Right, Chevron::Left),
            MinimiserDirection::RightToLeft => (Chevron::Left, Chevron::Right),
        };
        if minimised {
            minimise
        } else {
            expand
        }
    }
}

} // verus!
