//! The resolution type and its aspect-ratio arithmetic: construction from a
//! height or width under a ratio, ratio-preserving and free mutation, scaling
//! by a 2D factor, scale factors between resolutions, and integer-scale and
//! ratio-fit tests.

use vstd::prelude::*;
use crate::aspect::AspectRatio;
use crate::rational::{
    Rat, Rational, rat_ceil, rat_div, rat_div_matches, rat_eq, rat_is_whole, rat_lt, rat_mul,
    rat_whole, fits_div, fits_mul, lemma_div_matches_rearrange, lemma_mul_le, lemma_u32_mul_fits,
    div_matches_parts,
};

verus! {

/// How a resolution reports its aspect ratio: derived live from the current
/// width and height, or pinned to a stored value.
#[derive(Clone, Copy, Debug, PartialEq, Eq, Structural)]
pub enum AspectRatioMode {
    Dynamic,
    Fixed(AspectRatio),
}

impl AspectRatioMode {
    /// Whether the ratio is derived from the current width and height.
    pub fn is_dynamic(&self) -> (r: bool)
        ensures
            r == (*self is Dynamic),
    {
        matches!(self, AspectRatioMode::Dynamic)
    }
}

/// A two-dimensional scale factor: an exact rational per axis.
#[derive(Clone, Copy, Debug, PartialEq, Eq, Structural)]
pub struct Scale2 {
    pub x: Rational,
    pub y: Rational,
}

impl Scale2 {
    /// Both axis factors are defined values.
    pub open spec fn wf(self) -> bool {
        self.x.wf() && self.y.wf()
    }

    /// A scale factor with independent axis factors.
    pub fn new(x: Rational, y: Rational) -> (r: Scale2)
        ensures
            r.x == x,
            r.y == y,
    {
        Scale2 { x, y }
    }

    /// The isotropic scale factor `v` on both axes.
    pub fn splat(v: Rational) -> (r: Scale2)
        ensures
            r.x == v,
            r.y == v,
    {
        Scale2 { x: v, y: v }
    }
}

/// A whole-pixel width and height, as handed to a windowing system.
#[derive(Clone, Copy, Debug, PartialEq, Eq, Structural)]
pub struct PixelPair {
    pub x: u32,
    pub y: u32,
}

impl PixelPair {
    /// The pair `(x, y)`.
    pub fn new(x: u32, y: u32) -> (r: PixelPair)
        ensures
            r.x == x,
            r.y == y,
    {
        PixelPair { x, y }
    }
}

/// A display resolution: an exact rational width and height, and the mode
/// that says which aspect ratio it reports.
#[derive(Clone, Copy, Debug, PartialEq, Eq, Structural)]
pub struct Resolution {
    pub width: Rational,
    pub height: Rational,
    pub aspect_ratio: AspectRatioMode,
}

impl Resolution {
    /// Width and height are defined values, and a pinned ratio is positive.
    pub open spec fn wf(self) -> bool {
        &&& self.width.wf()
        &&& self.height.wf()
        &&& match self.aspect_ratio {
            AspectRatioMode::Dynamic => true,
            AspectRatioMode::Fixed(ar) => ar.wf(),
        }
    }

    /// The ratio this resolution reports: the stored value when pinned, else
    /// the current `width / height`.
    pub open spec fn ratio_spec(self) -> Rat {
        match self.aspect_ratio {
            AspectRatioMode::Dynamic => rat_div(self.width@, self.height@),
            AspectRatioMode::Fixed(ar) => ar@,
        }
    }

    /// Whether the reported ratio is defined: a derived ratio needs a positive
    /// width and height.
    pub open spec fn ratio_defined(self) -> bool {
        match self.aspect_ratio {
            AspectRatioMode::Dynamic => self.width@.num >= 1 && self.height@.num >= 1,
            AspectRatioMode::Fixed(_) => true,
        }
    }

    /// Whether the reported ratio can be carried by an [`AspectRatio`] before
    /// reduction: the machine limit on deriving a ratio from width and height.
    pub open spec fn ratio_fits(self) -> bool {
        match self.aspect_ratio {
            AspectRatioMode::Dynamic => self.width@.num * self.height@.den <= u32::MAX
                && self.width@.den * self.height@.num <= u32::MAX,
            AspectRatioMode::Fixed(_) => true,
        }
    }

    /// A resolution with a live, derived aspect ratio.
    pub fn new(width: Rational, height: Rational) -> (r: Resolution)
        requires
            width.wf(),
            height.wf(),
        ensures
            r.wf(),
            r.width == width,
            r.height == height,
            r.aspect_ratio is Dynamic,
    {
        Resolution { width, height, aspect_ratio: AspectRatioMode::Dynamic }
    }

    /// The resolution of the given height under a pinned ratio: the width is
    /// exactly `height * ratio`.
    pub fn from_height(height: Rational, aspect_ratio: AspectRatio) -> (r: Resolution)
        requires
            height.wf(),
            aspect_ratio.wf(),
            fits_mul(height@, aspect_ratio@),
        ensures
            r.wf(),
            r.height == height,
            r.aspect_ratio == AspectRatioMode::Fixed(aspect_ratio),
            rat_eq(r.width@, rat_mul(height@, aspect_ratio@)),
            (r.width@.num == 0) == (height@.num == 0),
            r.width@.num <= height@.num * aspect_ratio@.num,
            r.width@.den <= height@.den * aspect_ratio@.den,
    {
        Resolution {
            width: height.mul(aspect_ratio.ratio()),
            height,
            aspect_ratio: AspectRatioMode::Fixed(aspect_ratio),
        }
    }

    /// The resolution of the given width under a pinned ratio: the height is
    /// exactly `width / ratio`.
    pub fn from_width(width: Rational, aspect_ratio: AspectRatio) -> (r: Resolution)
        requires
            width.wf(),
            aspect_ratio.wf(),
            fits_div(width@, aspect_ratio@),
        ensures
            r.wf(),
            r.width == width,
            r.aspect_ratio == AspectRatioMode::Fixed(aspect_ratio),
            rat_eq(r.height@, rat_div(width@, aspect_ratio@)),
            (r.height@.num == 0) == (width@.num == 0),
            r.height@.num <= width@.num * aspect_ratio@.den,
            r.height@.den <= width@.den * aspect_ratio@.num,
    {
        Resolution {
            width,
            height: width.div(aspect_ratio.ratio()),
            aspect_ratio: AspectRatioMode::Fixed(aspect_ratio),
        }
    }

    /// The reported aspect ratio: the stored value when pinned, else the
    /// ratio derived from the current width and height.
    ///
    /// A derived ratio is only defined for a positive width and height, so a
    /// resolution in dynamic mode with a zero side is ruled out by the
    /// precondition rather than failing at run time.
    pub fn aspect_ratio(&self) -> (r: AspectRatio)
        requires
            self.wf(),
            self.ratio_defined(),
            self.ratio_fits(),
        ensures
            r.wf(),
            rat_eq(r@, self.ratio_spec()),
            (match self.aspect_ratio {
                AspectRatioMode::Fixed(ar) => r == ar,
                AspectRatioMode::Dynamic => true,
            }),
    {
        match self.aspect_ratio {
            AspectRatioMode::Fixed(ar) => ar,
            AspectRatioMode::Dynamic => {
                proof {
                    lemma_u32_mul_fits(self.width.num as int, self.height.den as int);
                    lemma_u32_mul_fits(self.width.den as int, self.height.num as int);
                }
                let n = (self.width.num as u64) * (self.height.den as u64);
                let d = (self.width.den as u64) * (self.height.num as u64);
                AspectRatio::new(n as u32, d as u32)
            },
        }
    }

    /// The stored height.
    pub fn height(&self) -> (r: Rational)
        ensures
            r == self.height,
    {
        self.height
    }

    /// The stored width.
    pub fn width(&self) -> (r: Rational)
        ensures
            r == self.width,
    {
        self.width
    }

    /// Whether this resolution and `target_resolution` are a whole-number
    /// scale of one another; see [`has_integer_scale`].
    pub fn has_integer_scale(&self, target_resolution: &Resolution) -> (r: bool)
        requires
            self.wf(),
            target_resolution.wf(),
            self.ratio_defined(),
            target_resolution.ratio_defined(),
        ensures
            r == integer_scale_spec(*self, *target_resolution),
    {
        has_integer_scale(self, target_resolution)
    }

    /// The per-axis factor that scales this resolution onto
    /// `target_resolution`; see [`get_scale_factor`].
    pub fn scale_factor(&self, target_resolution: &Resolution) -> (r: Scale2)
        requires
            self.wf(),
            target_resolution.wf(),
            self.ratio_defined(),
            target_resolution.ratio_defined(),
            self.width@.num >= 1,
            self.height@.num >= 1,
            fits_div(target_resolution.width@, self.width@),
            fits_div(target_resolution.height@, self.height@),
        ensures
            r.wf(),
            rat_eq(r.y@, rat_div(target_resolution.height@, self.height@)),
            ratios_match(*self, *target_resolution) ==> r.x == r.y,
            !ratios_match(*self, *target_resolution) ==> rat_eq(
                r.x@,
                rat_div(target_resolution.width@, self.width@),
            ),
    {
        get_scale_factor(self, target_resolution)
    }

    /// Sets the height. When `maintain_aspect_ratio` is set, the width is
    /// recomputed as `height * ratio` under the reported ratio (and left
    /// untouched when it already matches); otherwise the width stays and the
    /// resolution falls back to a live, derived ratio.
    pub fn change_height(self, height: Rational, maintain_aspect_ratio: bool) -> (r: Resolution)
        requires
            self.wf(),
            height.wf(),
            maintain_aspect_ratio ==> self.ratio_defined() && fits_mul(height@, self.ratio_spec()),
        ensures
            r.wf(),
            r.height == height,
            maintain_aspect_ratio ==> r.aspect_ratio == self.aspect_ratio && rat_eq(
                r.width@,
                rat_mul(height@, self.ratio_spec()),
            ),
            maintain_aspect_ratio && rat_div_matches(self.width@, height@, self.ratio_spec())
                ==> r.width == self.width,
            !maintain_aspect_ratio ==> r.aspect_ratio is Dynamic && r.width == self.width,
    {
        let mut res = self;
        if maintain_aspect_ratio {
            proof {
                lemma_ratio_spec_wf(self);
            }
            let rp = self.ratio_parts();
            if !div_matches_parts(
                self.width.num as u64,
                self.width.den as u64,
                height.num as u64,
                height.den as u64,
                rp.0,
                rp.1,
            ) {
                let wn = (height.num as u64) * rp.0;
                let wd = (height.den as u64) * rp.1;
                proof {
                    lemma_mul_le(height@.den, u32::MAX as int, self.ratio_spec().den, u64::MAX as int);
                }
                res.width = Rational::new(wn as u32, wd as u32);
            } else {
                proof {
                    lemma_div_matches_rearrange(
                        self.width@.num,
                        self.width@.den,
                        height@.num,
                        height@.den,
                        self.ratio_spec().num,
                        self.ratio_spec().den,
                    );
                }
            }
        } else {
            res.aspect_ratio = AspectRatioMode::Dynamic;
        }
        res.height = height;
        res
    }

    /// Sets the width. When `maintain_aspect_ratio` is set, the height is
    /// recomputed as `width / ratio` under the reported ratio (and left
    /// untouched when it already matches); otherwise the height stays and the
    /// resolution falls back to a live, derived ratio.
    pub fn change_width(self, width: Rational, maintain_aspect_ratio: bool) -> (r: Resolution)
        requires
            self.wf(),
            width.wf(),
            maintain_aspect_ratio ==> self.ratio_defined() && fits_div(width@, self.ratio_spec()),
        ensures
            r.wf(),
            r.width == width,
            maintain_aspect_ratio ==> r.aspect_ratio == self.aspect_ratio && rat_eq(
                r.height@,
                rat_div(width@, self.ratio_spec()),
            ),
            maintain_aspect_ratio && rat_div_matches(width@, self.height@, self.ratio_spec())
                ==> r.height == self.height,
            !maintain_aspect_ratio ==> r.aspect_ratio is Dynamic && r.height == self.height,
    {
        let mut res = self;
        if maintain_aspect_ratio {
            proof {
                lemma_ratio_spec_wf(self);
            }
            let rp = self.ratio_parts();
            if !div_matches_parts(
                width.num as u64,
                width.den as u64,
                self.height.num as u64,
                self.height.den as u64,
                rp.0,
                rp.1,
            ) {
                let hn = (width.num as u64) * rp.1;
                let hd = (width.den as u64) * rp.0;
                proof {
                    lemma_mul_le(width@.den, u32::MAX as int, self.ratio_spec().num, u64::MAX as int);
                }
                res.height = Rational::new(hn as u32, hd as u32);
            } else {
                proof {
                    lemma_div_matches_rearrange(
                        width@.num,
                        width@.den,
                        self.height@.num,
                        self.height@.den,
                        self.ratio_spec().num,
                        self.ratio_spec().den,
                    );
                }
            }
        } else {
            res.aspect_ratio = AspectRatioMode::Dynamic;
        }
        res.width = width;
        res
    }

    /// Pins the ratio to `ratio` and recomputes the width as
    /// `height * ratio`; the height is untouched.
    pub fn change_ratio(self, ratio: AspectRatio) -> (r: Resolution)
        requires
            self.wf(),
            ratio.wf(),
            fits_mul(self.height@, ratio@),
        ensures
            r.wf(),
            r.height == self.height,
            r.aspect_ratio == AspectRatioMode::Fixed(ratio),
            rat_eq(r.width@, rat_mul(self.height@, ratio@)),
    {
        Resolution {
            width: self.height.mul(ratio.ratio()),
            height: self.height,
            aspect_ratio: AspectRatioMode::Fixed(ratio),
        }
    }

    /// Whether a hypothetical ratio gives this resolution's height a
    /// whole-pixel width; see [`resolution_fits_aspect_ratio`].
    pub fn can_fit(&self, aspect_ratio: &AspectRatio) -> (r: bool)
        requires
            self.wf(),
            aspect_ratio.wf(),
        ensures
            r == rat_is_whole(rat_mul(self.height@, aspect_ratio@)),
    {
        resolution_fits_aspect_ratio(self, aspect_ratio)
    }

    /// Whether scaling by `scalar` keeps the pinned ratio: always, for a
    /// live ratio; for a pinned one, exactly when the scaled shape still
    /// matches it.
    pub open spec fn scale_keeps_ratio(self, scalar: Scale2) -> bool {
        match self.aspect_ratio {
            AspectRatioMode::Dynamic => true,
            AspectRatioMode::Fixed(ar) => rat_div_matches(
                rat_mul(self.width@, scalar.x@),
                rat_mul(self.height@, scalar.y@),
                ar@,
            ),
        }
    }

    /// Scales the width by `scalar.x` and the height by `scalar.y`, but only
    /// when that leaves the reported ratio unchanged; an anisotropic scale of
    /// a shaped resolution gives no result.
    pub fn scale_and_keep_aspect_ratio(self, scalar: Scale2) -> (r: Option<Resolution>)
        requires
            self.wf(),
            scalar.wf(),
            self.ratio_defined(),
            fits_mul(self.width@, scalar.x@),
            fits_mul(self.height@, scalar.y@),
        ensures
            (r is Some) == rat_div_matches(
                rat_mul(self.width@, scalar.x@),
                rat_mul(self.height@, scalar.y@),
                self.ratio_spec(),
            ),
            (match r {
                Some(res) => res.wf() && rat_eq(res.width@, rat_mul(self.width@, scalar.x@))
                    && rat_eq(res.height@, rat_mul(self.height@, scalar.y@)) && res.aspect_ratio
                    == self.aspect_ratio,
                None => true,
            }),
    {
        proof {
            lemma_u32_mul_fits(self.width.num as int, scalar.x.num as int);
            lemma_u32_mul_fits(self.width.den as int, scalar.x.den as int);
            lemma_u32_mul_fits(self.height.num as int, scalar.y.num as int);
            lemma_u32_mul_fits(self.height.den as int, scalar.y.den as int);
        }
        let wn = (self.width.num as u64) * (scalar.x.num as u64);
        let wd = (self.width.den as u64) * (scalar.x.den as u64);
        let hn = (self.height.num as u64) * (scalar.y.num as u64);
        let hd = (self.height.den as u64) * (scalar.y.den as u64);
        let rp = self.ratio_parts();
        if !div_matches_parts(wn, wd, hn, hd, rp.0, rp.1) {
            return None;
        }
        Some(
            Resolution {
                width: Rational::new(wn as u32, wd as u32),
                height: Rational::new(hn as u32, hd as u32),
                aspect_ratio: self.aspect_ratio,
            },
        )
    }

    /// Scales the width by `scalar.x` and the height by `scalar.y`. A pinned
    /// ratio that no longer matches the scaled shape is dropped for a live,
    /// derived one rather than left stale.
    pub fn scale(self, scalar: Scale2) -> (r: Resolution)
        requires
            self.wf(),
            scalar.wf(),
            fits_mul(self.width@, scalar.x@),
            fits_mul(self.height@, scalar.y@),
        ensures
            r.wf(),
            rat_eq(r.width@, rat_mul(self.width@, scalar.x@)),
            rat_eq(r.height@, rat_mul(self.height@, scalar.y@)),
            r.width@.num <= self.width@.num * scalar.x@.num,
            r.width@.den <= self.width@.den * scalar.x@.den,
            r.height@.num <= self.height@.num * scalar.y@.num,
            r.height@.den <= self.height@.den * scalar.y@.den,
            r.aspect_ratio == (if self.scale_keeps_ratio(scalar) {
                self.aspect_ratio
            } else {
                AspectRatioMode::Dynamic
            }),
    {
        proof {
            lemma_u32_mul_fits(self.width.num as int, scalar.x.num as int);
            lemma_u32_mul_fits(self.width.den as int, scalar.x.den as int);
            lemma_u32_mul_fits(self.height.num as int, scalar.y.num as int);
            lemma_u32_mul_fits(self.height.den as int, scalar.y.den as int);
        }
        let wn = (self.width.num as u64) * (scalar.x.num as u64);
        let wd = (self.width.den as u64) * (scalar.x.den as u64);
        let hn = (self.height.num as u64) * (scalar.y.num as u64);
        let hd = (self.height.den as u64) * (scalar.y.den as u64);
        let mode = match self.aspect_ratio {
            AspectRatioMode::Dynamic => AspectRatioMode::Dynamic,
            AspectRatioMode::Fixed(ar) => {
                let rr = ar.ratio();
                if div_matches_parts(wn, wd, hn, hd, rr.num as u64, rr.den as u64) {
                    AspectRatioMode::Fixed(ar)
                } else {
                    AspectRatioMode::Dynamic
                }
            },
        };
        Resolution {
            width: Rational::new(wn as u32, wd as u32),
            height: Rational::new(hn as u32, hd as u32),
            aspect_ratio: mode,
        }
    }

    /// The whole-pixel pair for this resolution: each side rounded up, so a
    /// fractional width or height never under-allocates pixels.
    pub fn to_pixel_pair(&self) -> (p: PixelPair)
        requires
            self.wf(),
        ensures
            p.x == rat_ceil(self.width@),
            p.y == rat_ceil(self.height@),
    {
        PixelPair { x: self.width.ceil(), y: self.height.ceil() }
    }

    /// The reported ratio as a raw numerator and denominator pair.
    fn ratio_parts(&self) -> (p: (u64, u64))
        requires
            self.wf(),
        ensures
            p.0 as int == self.ratio_spec().num,
            p.1 as int == self.ratio_spec().den,
    {
        match self.aspect_ratio {
            AspectRatioMode::Fixed(ar) => {
                let rr = ar.ratio();
                (rr.num as u64, rr.den as u64)
            },
            AspectRatioMode::Dynamic => {
                proof {
                    lemma_u32_mul_fits(self.width.num as int, self.height.den as int);
                    lemma_u32_mul_fits(self.width.den as int, self.height.num as int);
                }
                (
                    (self.width.num as u64) * (self.height.den as u64),
                    (self.width.den as u64) * (self.height.num as u64),
                )
            },
        }
    }
}

/// A defined reported ratio is positive, with parts a `u64` can carry.
proof fn lemma_ratio_spec_wf(r: Resolution)
    requires
        r.wf(),
        r.ratio_defined(),
    ensures
        r.ratio_spec().num >= 1,
        r.ratio_spec().den >= 1,
        r.ratio_spec().num <= u64::MAX,
        r.ratio_spec().den <= u64::MAX,
{
    match r.aspect_ratio {
        AspectRatioMode::Dynamic => {
            lemma_u32_mul_fits(r.width@.num, r.height@.den);
            lemma_u32_mul_fits(r.width@.den, r.height@.num);
        },
        AspectRatioMode::Fixed(_) => {},
    }
}

/// Whether the two resolutions report the same aspect-ratio value.
pub open spec fn ratios_match(a: Resolution, b: Resolution) -> bool {
    rat_eq(a.ratio_spec(), b.ratio_spec())
}

/// Whether `a` is a whole-number multiple of `b` (as values).
pub open spec fn rat_whole_multiple(a: Rat, b: Rat) -> bool {
    b.num != 0 && rat_is_whole(rat_div(a, b))
}

/// What [`has_integer_scale`] decides: the reported ratios are equal, and
/// the larger height is a whole-number multiple of the smaller.
pub open spec fn integer_scale_spec(to: Resolution, from: Resolution) -> bool {
    &&& ratios_match(to, from)
    &&& if rat_lt(from.height@, to.height@) {
        rat_whole_multiple(to.height@, from.height@)
    } else {
        rat_whole_multiple(from.height@, to.height@)
    }
}

/// Whether the two resolutions report the same aspect-ratio value.
fn ratios_equal(to: &Resolution, from: &Resolution) -> (r: bool)
    requires
        to.wf(),
        from.wf(),
    ensures
        r == ratios_match(*to, *from),
{
    let pa = to.ratio_parts();
    let pb = from.ratio_parts();
    proof {
        lemma_mul_le(pa.0 as int, u64::MAX as int, pb.1 as int, u64::MAX as int);
        lemma_mul_le(pb.0 as int, u64::MAX as int, pa.1 as int, u64::MAX as int);
    }
    (pa.0 as u128) * (pb.1 as u128) == (pb.0 as u128) * (pa.1 as u128)
}

/// Whether one resolution is a whole-number scale of the other: false unless
/// the reported ratios are equal, else true exactly when the larger height is
/// a whole-number multiple of the smaller.
pub fn has_integer_scale(to: &Resolution, from: &Resolution) -> (r: bool)
    requires
        to.wf(),
        from.wf(),
        to.ratio_defined(),
        from.ratio_defined(),
    ensures
        r == integer_scale_spec(*to, *from),
{
    if !ratios_equal(to, from) {
        return false;
    }
    let (big, small) = if from.height.lt(&to.height) {
        (to.height, from.height)
    } else {
        (from.height, to.height)
    };
    if small.num == 0 {
        return false;
    }
    proof {
        lemma_u32_mul_fits(big.num as int, small.den as int);
        lemma_u32_mul_fits(big.den as int, small.num as int);
    }
    let n = (big.num as u64) * (small.den as u64);
    let d = (big.den as u64) * (small.num as u64);
    n % d == 0
}

/// The per-axis factor that scales `to` onto `from`: an isotropic factor of
/// the height ratio when the reported ratios are equal, else the independent
/// width and height ratios.
pub fn get_scale_factor(to: &Resolution, from: &Resolution) -> (r: Scale2)
    requires
        to.wf(),
        from.wf(),
        to.ratio_defined(),
        from.ratio_defined(),
        to.width@.num >= 1,
        to.height@.num >= 1,
        fits_div(from.width@, to.width@),
        fits_div(from.height@, to.height@),
    ensures
        r.wf(),
        rat_eq(r.y@, rat_div(from.height@, to.height@)),
        ratios_match(*to, *from) ==> r.x == r.y,
        !ratios_match(*to, *from) ==> rat_eq(r.x@, rat_div(from.width@, to.width@)),
{
    if !ratios_equal(to, from) {
        Scale2 { x: from.width.div(to.width), y: from.height.div(to.height) }
    } else {
        let f = from.height.div(to.height);
        Scale2 { x: f, y: f }
    }
}

/// Whether the resolution's height gives a whole-pixel width under the given
/// (hypothetical) ratio; the resolution's own ratio plays no part.
pub fn resolution_fits_aspect_ratio(resolution: &Resolution, aspect_ratio: &AspectRatio) -> (r:
    bool)
    requires
        resolution.wf(),
        aspect_ratio.wf(),
    ensures
        r == rat_is_whole(rat_mul(resolution.height@, aspect_ratio@)),
{
    fits_aspect_ratio(resolution.height, aspect_ratio)
}

/// Whether `height * ratio` is a whole number, so the width it implies has no
/// fractional pixel part.
pub fn fits_aspect_ratio(height: Rational, aspect_ratio: &AspectRatio) -> (r: bool)
    requires
        height.wf(),
        aspect_ratio.wf(),
    ensures
        r == rat_is_whole(rat_mul(height@, aspect_ratio@)),
{
    let rr = aspect_ratio.ratio();
    proof {
        lemma_u32_mul_fits(height.num as int, rr.num as int);
        lemma_u32_mul_fits(height.den as int, rr.den as int);
    }
    let n = (height.num as u64) * (rr.num as u64);
    let d = (height.den as u64) * (rr.den as u64);
    n % d == 0
}

/// The integer-scale test is symmetric: which of the two resolutions is
/// handed over first does not change what [`has_integer_scale`] decides.
pub proof fn lemma_integer_scale_symmetric(a: Resolution, b: Resolution)
    requires
        a.wf(),
        b.wf(),
    ensures
        integer_scale_spec(a, b) == integer_scale_spec(b, a),
{
    let ah = a.height@;
    let bh = b.height@;
    if !rat_lt(bh, ah) && !rat_lt(ah, bh) {
        assert(ah.num * bh.den == bh.num * ah.den);
        assert(bh.den * ah.num == ah.den * bh.num) by (nonlinear_arith)
            requires
                ah.num * bh.den == bh.num * ah.den,
        ;
        assert((ah.num == 0) == (bh.num == 0)) by (nonlinear_arith)
            requires
                ah.num * bh.den == bh.num * ah.den,
                ah.den >= 1,
                bh.den >= 1,
                ah.num >= 0,
                bh.num >= 0,
        ;
    }
}

/// In the isotropic case the scale factor is an exact round trip: the factor
/// that takes `a` onto `b` and the factor that takes `b` onto `a` multiply
/// out to exactly one, as [`get_scale_factor`] reports them on each axis.
pub proof fn lemma_scale_factor_round_trip(a: Resolution, b: Resolution)
    requires
        a.wf(),
        b.wf(),
        ratios_match(a, b),
        a.height@.num >= 1,
        b.height@.num >= 1,
    ensures
        rat_eq(rat_mul(rat_div(b.height@, a.height@), rat_div(a.height@, b.height@)), rat_whole(1)),
{
    let an = a.height@.num;
    let ad = a.height@.den;
    let bn = b.height@.num;
    let bd = b.height@.den;
    assert((bn * ad) * (an * bd) * 1 == 1 * ((bd * an) * (ad * bn))) by (nonlinear_arith);
}

/// The 360-pixel-high resolution under the given ratio.
pub fn r360p(aspect_ratio: AspectRatio) -> (r: Resolution)
    requires
        aspect_ratio.wf(),
        360 * aspect_ratio@.num <= u32::MAX,
    ensures
        r.wf(),
        r.height@ == rat_whole(360),
        r.aspect_ratio == AspectRatioMode::Fixed(aspect_ratio),
        rat_eq(r.width@, rat_mul(rat_whole(360), aspect_ratio@)),
        r.width@.num >= 1,
        r.width@.num <= 360 * aspect_ratio@.num,
        r.width@.den <= aspect_ratio@.den,
{
    Resolution::from_height(Rational::from_int(360), aspect_ratio)
}

/// The 480-pixel-high resolution under the given ratio.
pub fn r480p(aspect_ratio: AspectRatio) -> (r: Resolution)
    requires
        aspect_ratio.wf(),
        480 * aspect_ratio@.num <= u32::MAX,
    ensures
        r.wf(),
        r.height@ == rat_whole(480),
        r.aspect_ratio == AspectRatioMode::Fixed(aspect_ratio),
        rat_eq(r.width@, rat_mul(rat_whole(480), aspect_ratio@)),
        r.width@.num >= 1,
        r.width@.num <= 480 * aspect_ratio@.num,
        r.width@.den <= aspect_ratio@.den,
{
    Resolution::from_height(Rational::from_int(480), aspect_ratio)
}

/// The 720-pixel-high resolution under the given ratio.
pub fn r720p(aspect_ratio: AspectRatio) -> (r: Resolution)
    requires
        aspect_ratio.wf(),
        720 * aspect_ratio@.num <= u32::MAX,
    ensures
        r.wf(),
        r.height@ == rat_whole(720),
        r.aspect_ratio == AspectRatioMode::Fixed(aspect_ratio),
        rat_eq(r.width@, rat_mul(rat_whole(720), aspect_ratio@)),
        r.width@.num >= 1,
        r.width@.num <= 720 * aspect_ratio@.num,
        r.width@.den <= aspect_ratio@.den,
{
    Resolution::from_height(Rational::from_int(720), aspect_ratio)
}

/// The 1080-pixel-high resolution under the given ratio.
pub fn r1080p(aspect_ratio: AspectRatio) -> (r: Resolution)
    requires
        aspect_ratio.wf(),
        1080 * aspect_ratio@.num <= u32::MAX,
    ensures
        r.wf(),
        r.height@ == rat_whole(1080),
        r.aspect_ratio == AspectRatioMode::Fixed(aspect_ratio),
        rat_eq(r.width@, rat_mul(rat_whole(1080), aspect_ratio@)),
        r.width@.num >= 1,
        r.width@.num <= 1080 * aspect_ratio@.num,
        r.width@.den <= aspect_ratio@.den,
{
    Resolution::from_height(Rational::from_int(1080), aspect_ratio)
}

/// The 1440-pixel-high resolution under the given ratio.
pub fn r1440p(aspect_ratio: AspectRatio) -> (r: Resolution)
    requires
        aspect_ratio.wf(),
        1440 * aspect_ratio@.num <= u32::MAX,
    ensures
        r.wf(),
        r.height@ == rat_whole(1440),
        r.aspect_ratio == AspectRatioMode::Fixed(aspect_ratio),
        rat_eq(r.width@, rat_mul(rat_whole(1440), aspect_ratio@)),
        r.width@.num >= 1,
        r.width@.num <= 1440 * aspect_ratio@.num,
        r.width@.den <= aspect_ratio@.den,
{
    Resolution::from_height(Rational::from_int(1440), aspect_ratio)
}

} // verus!
