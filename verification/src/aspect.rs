//! Aspect ratios: the proportion of width to height, held as an exact
//! positive rational (width units per height unit).

use vstd::prelude::*;
use crate::rational::{Rat, Rational, rat_eq};

verus! {

/// An exact aspect ratio: `num` width units for every `den` height units.
///
/// Well-formed values are positive (numerator and denominator at least 1),
/// so dividing by a ratio is always defined.
#[derive(Clone, Copy, Debug, PartialEq, Eq, Structural)]
pub struct AspectRatio {
    pub ratio: Rational,
}

impl View for AspectRatio {
    type V = Rat;

    open spec fn view(&self) -> Rat {
        self.ratio@
    }
}

impl AspectRatio {
    /// A positive ratio value.
    pub open spec fn wf(self) -> bool {
        self.ratio.wf() && self.ratio@.num >= 1
    }

    /// The ratio of a `width` by `height` shape, reduced to lowest terms.
    pub fn new(width: u32, height: u32) -> (r: AspectRatio)
        requires
            width >= 1,
            height >= 1,
        ensures
            r.wf(),
            rat_eq(r@, Rat { num: width as int, den: height as int }),
            r@.num <= width,
            r@.den <= height,
    {
        AspectRatio { ratio: Rational::new(width, height) }
    }

    /// The ratio value: width units per height unit.
    pub fn ratio(&self) -> (r: Rational)
        ensures
            r == self.ratio,
    {
        self.ratio
    }

    /// The widescreen 16:9 ratio.
    pub fn sixteen_nine() -> (r: AspectRatio)
        ensures
            r.wf(),
            rat_eq(r@, Rat { num: 16, den: 9 }),
            r@.num <= 16,
            r@.den <= 9,
    {
        AspectRatio::new(16, 9)
    }

    /// The standard 4:3 ratio.
    pub fn four_three() -> (r: AspectRatio)
        ensures
            r.wf(),
            rat_eq(r@, Rat { num: 4, den: 3 }),
            r@.num <= 4,
            r@.den <= 3,
    {
        AspectRatio::new(4, 3)
    }

    /// The ultrawide 21:9 ratio.
    pub fn ultrawide() -> (r: AspectRatio)
        ensures
            r.wf(),
            rat_eq(r@, Rat { num: 21, den: 9 }),
            r@.num <= 21,
            r@.den <= 9,
    {
        AspectRatio::new(21, 9)
    }
}

} // verus!
