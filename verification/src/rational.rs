//! Exact nonnegative rational numbers with `u32` numerator and denominator.
//!
//! A [`Rational`] stands for the value `num / den` with `den >= 1`. Every
//! constructor divides out the greatest common divisor, so values built from
//! the same mathematical number through different routes compare equal with
//! `==` as well as by cross-multiplication.

use vstd::prelude::*;
use vstd::arithmetic::div_mod::{lemma_fundamental_div_mod, lemma_mod_multiples_basic};

verus! {

/// Mathematical value of a rational number: an unbounded numerator and
/// denominator. A `Rat` with `den >= 1` stands for the number `num / den`.
pub ghost struct Rat {
    pub num: int,
    pub den: int,
}

/// The whole number `n` as a rational value.
pub open spec fn rat_whole(n: int) -> Rat {
    Rat { num: n, den: 1 }
}

/// Exact equality of the values `a` and `b` by cross-multiplication.
pub open spec fn rat_eq(a: Rat, b: Rat) -> bool {
    a.num * b.den == b.num * a.den
}

/// Strict order on values with positive denominators.
pub open spec fn rat_lt(a: Rat, b: Rat) -> bool {
    a.num * b.den < b.num * a.den
}

/// The product of the values `a` and `b`.
pub open spec fn rat_mul(a: Rat, b: Rat) -> Rat {
    Rat { num: a.num * b.num, den: a.den * b.den }
}

/// The quotient of the values `a` and `b`; meaningful only when `b.num != 0`.
pub open spec fn rat_div(a: Rat, b: Rat) -> Rat {
    Rat { num: a.num * b.den, den: a.den * b.num }
}

/// Whether the value `a` is a whole number (no fractional part).
pub open spec fn rat_is_whole(a: Rat) -> bool {
    a.num % a.den == 0
}

/// The least whole number that is at least `a` (for `a.den >= 1`).
pub open spec fn rat_ceil(a: Rat) -> int {
    if a.num % a.den == 0 {
        a.num / a.den
    } else {
        a.num / a.den + 1
    }
}

/// Whether the product of the values `a` and `b` can be carried exactly by a
/// `Rational` before reduction: the machine limit on the arithmetic here.
pub open spec fn fits_mul(a: Rat, b: Rat) -> bool {
    a.num * b.num <= u32::MAX && a.den * b.den <= u32::MAX
}

/// Whether the quotient of the values `a` and `b` can be carried exactly by a
/// `Rational` before reduction: the machine limit on the arithmetic here.
pub open spec fn fits_div(a: Rat, b: Rat) -> bool {
    a.num * b.den <= u32::MAX && a.den * b.num <= u32::MAX
}

/// The product of two values bounded by `u32::MAX` fits in a `u64`.
pub proof fn lemma_u32_mul_fits(a: int, b: int)
    by (nonlinear_arith)
    requires
        0 <= a <= u32::MAX,
        0 <= b <= u32::MAX,
    ensures
        0 <= a * b,
        a * b < 0x1_0000_0000_0000_0000,
        (a * b == 0) <==> (a == 0 || b == 0),
{
}

/// Whether the quotient `a / b` is defined and equals `c`.
pub open spec fn rat_div_matches(a: Rat, b: Rat, c: Rat) -> bool {
    b.num != 0 && rat_eq(rat_div(a, b), c)
}

/// The product of two nonnegative values is bounded by the product of their
/// bounds.
pub proof fn lemma_mul_le(a: int, amax: int, b: int, bmax: int)
    by (nonlinear_arith)
    requires
        0 <= a <= amax,
        0 <= b <= bmax,
    ensures
        0 <= a * b <= amax * bmax,
        (1 <= a && 1 <= b) ==> 1 <= a * b,
{
}

/// Value equality of rationals is transitive across a middle value `bn/bd`
/// with a nonzero denominator (all given in cross-multiplied form).
pub proof fn lemma_rat_eq_trans(an: int, ad: int, bn: int, bd: int, cn: int, cd: int)
    by (nonlinear_arith)
    requires
        an * bd == bn * ad,
        bn * cd == cn * bd,
        bd != 0,
    ensures
        an * cd == cn * ad,
{
}

/// Multiplying both sides of a value equality `bn/bd == cn/cd` by `an/ad`
/// keeps the two products value-equal (in cross-multiplied form).
pub proof fn lemma_rat_mul_congruence(an: int, ad: int, bn: int, bd: int, cn: int, cd: int)
    by (nonlinear_arith)
    requires
        bn * cd == cn * bd,
    ensures
        (an * bn) * (ad * cd) == (an * cn) * (ad * bd),
{
}

/// Rearrangements of the cross-multiplied form of `a / b == c`: `a` equals
/// `b * c`, and `b` equals `a / c`.
pub proof fn lemma_div_matches_rearrange(an: int, ad: int, bn: int, bd: int, cn: int, cd: int)
    by (nonlinear_arith)
    requires
        (an * bd) * cd == cn * (ad * bn),
    ensures
        an * (bd * cd) == (bn * cn) * ad,
        bn * (ad * cn) == (an * cd) * bd,
{
}

/// Whether `(an/ad) / (bn/bd)` is defined and equals `cn/cd`, over raw
/// numerator and denominator parts.
pub fn div_matches_parts(an: u64, ad: u64, bn: u64, bd: u64, cn: u64, cd: u64) -> (r: bool)
    requires
        an <= u32::MAX,
        ad <= u32::MAX,
        bn <= u32::MAX,
        bd <= u32::MAX,
    ensures
        r == rat_div_matches(
            Rat { num: an as int, den: ad as int },
            Rat { num: bn as int, den: bd as int },
            Rat { num: cn as int, den: cd as int },
        ),
{
    proof {
        lemma_mul_le(an as int, u32::MAX as int, bd as int, u32::MAX as int);
        lemma_mul_le(ad as int, u32::MAX as int, bn as int, u32::MAX as int);
        lemma_mul_le(
            (an * bd) as int,
            u32::MAX as int * u32::MAX as int,
            cd as int,
            u64::MAX as int,
        );
        lemma_mul_le(
            cn as int,
            u64::MAX as int,
            (ad * bn) as int,
            u32::MAX as int * u32::MAX as int,
        );
    }
    bn != 0 && ((an * bd) as u128) * (cd as u128) == (cn as u128) * ((ad * bn) as u128)
}

/// Greatest common divisor by Euclid's algorithm.
pub open spec fn gcd_spec(a: nat, b: nat) -> nat
    decreases b,
{
    if b == 0 {
        a
    } else {
        gcd_spec(b, a % b)
    }
}

/// `gcd_spec(a, b)` divides both arguments and is positive when `b` is.
proof fn lemma_gcd_divides(a: nat, b: nat)
    ensures
        b >= 1 ==> gcd_spec(a, b) >= 1,
        a >= 1 && b == 0 ==> gcd_spec(a, b) >= 1,
        gcd_spec(a, b) >= 1 ==> a as int % (gcd_spec(a, b) as int) == 0,
        gcd_spec(a, b) >= 1 ==> b as int % (gcd_spec(a, b) as int) == 0,
    decreases b,
{
    if b == 0 {
        if a >= 1 {
            lemma_mod_multiples_basic(1, a as int);
        }
    } else {
        lemma_gcd_divides(b, a % b);
        let g = gcd_spec(b, a % b) as int;
        assert(g >= 1);
        lemma_fundamental_div_mod(a as int, b as int);
        lemma_fundamental_div_mod(b as int, g);
        lemma_fundamental_div_mod((a % b) as int, g);
        let q = a as int / b as int;
        let kb = b as int / g;
        let kr = (a % b) as int / g;
        assert(a as int == g * (q * kb + kr)) by (nonlinear_arith)
            requires
                a as int == b as int * q + (a % b) as int,
                b as int == g * kb,
                (a % b) as int == g * kr,
        ;
        lemma_mod_multiples_basic(q * kb + kr, g);
    }
}

/// Greatest common divisor of `a` and `b` by Euclid's algorithm.
pub fn gcd(a: u32, b: u32) -> (g: u32)
    ensures
        g == gcd_spec(a as nat, b as nat),
    decreases b,
{
    if b == 0 {
        a
    } else {
        gcd(b, a % b)
    }
}

/// An exact nonnegative rational number: the value `num / den`.
///
/// Well-formed values keep `den >= 1`; the constructors also divide out the
/// greatest common divisor, so equal values built along different routes are
/// also equal field by field.
#[derive(Clone, Copy, Debug, PartialEq, Eq, Structural)]
pub struct Rational {
    pub num: u32,
    pub den: u32,
}

impl View for Rational {
    type V = Rat;

    open spec fn view(&self) -> Rat {
        Rat { num: self.num as int, den: self.den as int }
    }
}

impl Rational {
    /// A positive denominator, so the value `num / den` is defined.
    pub open spec fn wf(self) -> bool {
        self.den >= 1
    }

    /// The value `num / den`, reduced to lowest terms.
    pub fn new(num: u32, den: u32) -> (r: Rational)
        requires
            den >= 1,
        ensures
            r.wf(),
            rat_eq(r@, Rat { num: num as int, den: den as int }),
            r@.num <= num,
            r@.den <= den,
            (r@.num == 0) == (num == 0),
    {
        proof {
            lemma_gcd_divides(num as nat, den as nat);
        }
        let g = gcd(num, den);
        let r = Rational { num: num / g, den: den / g };
        proof {
            lemma_fundamental_div_mod(num as int, g as int);
            lemma_fundamental_div_mod(den as int, g as int);
            let kn = num as int / g as int;
            let kd = den as int / g as int;
            assert(kn * den as int == num as int * kd && kd >= 1 && kn <= num as int
                && kd <= den as int && (kn == 0 <==> num == 0)) by (nonlinear_arith)
                requires
                    g >= 1,
                    den >= 1,
                    num as int == g as int * kn,
                    den as int == g as int * kd,
            ;
        }
        r
    }

    /// The whole number `n` as a rational, held exactly as `n / 1`.
    pub fn from_int(n: u32) -> (r: Rational)
        ensures
            r.wf(),
            r@ == rat_whole(n as int),
    {
        Rational { num: n, den: 1 }
    }

    /// Whether this value equals `other`, by cross-multiplication.
    pub fn eq_value(&self, other: &Rational) -> (r: bool)
        ensures
            r == rat_eq(self@, other@),
    {
        proof {
            lemma_u32_mul_fits(self.num as int, other.den as int);
            lemma_u32_mul_fits(other.num as int, self.den as int);
        }
        (self.num as u64) * (other.den as u64) == (other.num as u64) * (self.den as u64)
    }

    /// Whether this value is strictly below `other` (for well-formed values).
    pub fn lt(&self, other: &Rational) -> (r: bool)
        ensures
            r == rat_lt(self@, other@),
    {
        proof {
            lemma_u32_mul_fits(self.num as int, other.den as int);
            lemma_u32_mul_fits(other.num as int, self.den as int);
        }
        (self.num as u64) * (other.den as u64) < (other.num as u64) * (self.den as u64)
    }

    /// The exact product of this value and `other`, reduced to lowest terms.
    pub fn mul(self, other: Rational) -> (r: Rational)
        requires
            self.wf(),
            other.wf(),
            fits_mul(self@, other@),
        ensures
            r.wf(),
            rat_eq(r@, rat_mul(self@, other@)),
            (r@.num == 0) == (self@.num == 0 || other@.num == 0),
            r@.num <= self@.num * other@.num,
            r@.den <= self@.den * other@.den,
    {
        proof {
            lemma_u32_mul_fits(self.num as int, other.num as int);
            lemma_u32_mul_fits(self.den as int, other.den as int);
        }
        let n = (self.num as u64) * (other.num as u64);
        let d = (self.den as u64) * (other.den as u64);
        Rational::new(n as u32, d as u32)
    }

    /// The exact quotient of this value by `other`, reduced to lowest terms.
    pub fn div(self, other: Rational) -> (r: Rational)
        requires
            self.wf(),
            other.wf(),
            other@.num >= 1,
            fits_div(self@, other@),
        ensures
            r.wf(),
            rat_eq(r@, rat_div(self@, other@)),
            (r@.num == 0) == (self@.num == 0),
            r@.num <= self@.num * other@.den,
            r@.den <= self@.den * other@.num,
    {
        proof {
            lemma_u32_mul_fits(self.num as int, other.den as int);
            lemma_u32_mul_fits(self.den as int, other.num as int);
        }
        let n = (self.num as u64) * (other.den as u64);
        let d = (self.den as u64) * (other.num as u64);
        Rational::new(n as u32, d as u32)
    }

    /// The least whole number at least this value, rounding fractions up.
    pub fn ceil(&self) -> (c: u32)
        requires
            self.wf(),
        ensures
            c == rat_ceil(self@),
    {
        let q = self.num / self.den;
        if self.num % self.den == 0 {
            q
        } else {
            proof {
                lemma_fundamental_div_mod(self.num as int, self.den as int);
                assert(q + 1 <= u32::MAX) by (nonlinear_arith)
                    requires
                        self.den >= 1,
                        self.num as int == self.den as int * (q as int) + (
                        self.num as int % self.den as int),
                        self.num as int % self.den as int != 0,
                        0 <= self.num as int % self.den as int,
                        (self.num as int % self.den as int) < (self.den as int),
                        self.num <= u32::MAX,
                        q as int == self.num as int / self.den as int,
                        q >= 0,
                ;
            }
            q + 1
        }
    }
}

} // verus!
