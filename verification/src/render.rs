//! Scene-wide rendering policies that are decided without arithmetic on
//! coordinates.

use vstd::prelude::*;

verus! {

/// Which axes a scene is mirrored along.
#[derive(Clone, Copy, Debug, PartialEq, Eq, Structural)]
pub enum FlipStrategy {
    /// Nothing is mirrored.
    NoFlip,
    /// The y axis is negated.
    Horizontal,
    /// The x axis is negated.
    Vertical,
    /// Both axes are negated.
    HorizontalAndVertical,
}

impl FlipStrategy {
    /// The factors by which the strategy scales the x axis and the y axis.
    pub open spec fn factors(self) -> (int, int) {
        match self {
            FlipStrategy::NoFlip => (1, 1),
            FlipStrategy::Horizontal => (1, -1),
            FlipStrategy::Vertical => (-1, 1),
            FlipStrategy::HorizontalAndVertical => (-1, -1),
        }
    }

    /// The factors of the scale that carries out the flip: `1` keeps an axis,
    /// `-1` mirrors it.
    pub fn axis_factors(&self) -> (scale: (i8, i8))
        ensures
            scale.0 == self.factors().0,
            scale.1 == self.factors().1,
    {
        match self {
            FlipStrategy::NoFlip => (1, 1),
            FlipStrategy::Horizontal => (1, -1),
            FlipStrategy::Vertical => (-1, 1),
            FlipStrategy::HorizontalAndVertical => (-1, -1),
        }
    }
}

} // verus!
