//! The closed set of common 4:3 resolutions, named by height.
//!
//! 1080 is left out: a 4:3 resolution of that height has no conventional
//! definition.

use vstd::prelude::*;
use crate::aspect::AspectRatio;
use crate::rational::{Rat, rat_eq, rat_mul, rat_whole, lemma_rat_eq_trans, lemma_rat_mul_congruence};
use crate::resolutions::{AspectRatioMode, Resolution, r1440p, r360p, r480p, r720p};

verus! {

/// Common resolutions that need no aspect ratio spelled out: each names a
/// height, and all of them are 4:3.
#[derive(Clone, Copy, Debug, PartialEq, Eq, Hash, Structural)]
#[non_exhaustive]
pub enum CommonResolutions {
    R360p,
    R480p,
    R720p,
    R1440p,
}

impl CommonResolutions {
    /// The height in pixels that the variant names.
    pub open spec fn height_spec(self) -> int {
        match self {
            CommonResolutions::R360p => 360,
            CommonResolutions::R480p => 480,
            CommonResolutions::R720p => 720,
            CommonResolutions::R1440p => 1440,
        }
    }

    /// The pre-defined [`CommonResolutions`] variants, in declaration order.
    pub fn iter() -> (v: Vec<CommonResolutions>)
        ensures
            v@.len() == 4,
            v@[0] == CommonResolutions::R360p,
            v@[1] == CommonResolutions::R480p,
            v@[2] == CommonResolutions::R720p,
            v@[3] == CommonResolutions::R1440p,
    {
        let mut v: Vec<CommonResolutions> = Vec::new();
        v.push(CommonResolutions::R360p);
        v.push(CommonResolutions::R480p);
        v.push(CommonResolutions::R720p);
        v.push(CommonResolutions::R1440p);
        v
    }

    /// The resolution the variant names: the named height under 4:3.
    pub fn to_resolution(self) -> (r: Resolution)
        ensures
            r.wf(),
            r.height@ == rat_whole(self.height_spec()),
            (match r.aspect_ratio {
                AspectRatioMode::Fixed(ar) => rat_eq(ar@, Rat { num: 4, den: 3 }),
                AspectRatioMode::Dynamic => false,
            }),
            rat_eq(r.width@, rat_mul(rat_whole(self.height_spec()), Rat { num: 4, den: 3 })),
            r.width@.num >= 1,
            r.width@.num <= self.height_spec() * 4,
            r.width@.den <= 3,
    {
        let ratio = AspectRatio::four_three();
        let r = match self {
            CommonResolutions::R360p => r360p(ratio),
            CommonResolutions::R480p => r480p(ratio),
            CommonResolutions::R720p => r720p(ratio),
            CommonResolutions::R1440p => r1440p(ratio),
        };
        proof {
            let h = self.height_spec();
            lemma_rat_mul_congruence(h, 1, ratio@.num, ratio@.den, 4, 3);
            lemma_rat_eq_trans(
                r.width@.num,
                r.width@.den,
                h * ratio@.num,
                1 * ratio@.den,
                h * 4,
                1int * 3,
            );
        }
        r
    }
}

} // verus!
