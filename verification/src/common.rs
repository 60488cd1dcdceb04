//! The closed set of common 16:9 resolutions, named by height.

use vstd::prelude::*;
use crate::aspect::AspectRatio;
use crate::rational::{Rat, rat_eq, rat_mul, rat_whole, lemma_rat_eq_trans, lemma_rat_mul_congruence};
use crate::resolutions::{AspectRatioMode, Resolution, r1080p, r1440p, r360p, r720p};

verus! {

/// Common resolutions that need no aspect ratio spelled out: each names a
/// height, and all of them are 16:9.
#[derive(Clone, Copy, Debug, PartialEq, Eq, Hash, Structural)]
#[non_exhaustive]
pub enum CommonResolutions {
    R360p,
    R720p,
    R1080p,
    R1440p,
}

impl CommonResolutions {
    /// The height in pixels that the variant names.
    pub open spec fn height_spec(self) -> int {
        match self {
            CommonResolutions::R360p => 360,
            CommonResolutions::R720p => 720,
            CommonResolutions::R1080p => 1080,
            CommonResolutions::R1440p => 1440,
        }
    }

    /// The pre-defined [`CommonResolutions`] variants, in declaration order.
    pub fn iter() -> (v: Vec<CommonResolutions>)
        ensures
            v@.len() == 4,
            v@[0] == CommonResolutions::R360p,
            v@[1] == CommonResolutions::R720p,
            v@[2] == CommonResolutions::R1080p,
            v@[3] == CommonResolutions::R1440p,
    {
        let mut v: Vec<CommonResolutions> = Vec::new();
        v.push(CommonResolutions::R360p);
        v.push(CommonResolutions::R720p);
        v.push(CommonResolutions::R1080p);
        v.push(CommonResolutions::R1440p);
        v
    }

    /// The resolution the variant names: the named height under 16:9.
    pub fn to_resolution(self) -> (r: Resolution)
        ensures
            r.wf(),
            r.height@ == rat_whole(self.height_spec()),
            (match r.aspect_ratio {
                AspectRatioMode::Fixed(ar) => rat_eq(ar@, Rat { num: 16, den: 9 }),
                AspectRatioMode::Dynamic => false,
            }),
            rat_eq(r.width@, rat_mul(rat_whole(self.height_spec()), Rat { num: 16, den: 9 })),
            r.width@.num >= 1,
            r.width@.num <= self.height_spec() * 16,
            r.width@.den <= 9,
    {
        let ratio = AspectRatio::sixteen_nine();
        let r = match self {
            CommonResolutions::R360p => r360p(ratio),
            CommonResolutions::R720p => r720p(ratio),
            CommonResolutions::R1080p => r1080p(ratio),
            CommonResolutions::R1440p => r1440p(ratio),
        };
        proof {
            let h = self.height_spec();
            lemma_rat_mul_congruence(h, 1, ratio@.num, ratio@.den, 16, 9);
            lemma_rat_eq_trans(
                r.width@.num,
                r.width@.den,
                h * ratio@.num,
                1 * ratio@.den,
                h * 16,
                1int * 9,
            );
        }
        r
    }
}

} // verus!
