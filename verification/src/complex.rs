//! Complex-plane arithmetic on bit-pattern doubles.

use vstd::prelude::*;

use crate::fbits;
use crate::fbits::{add_bits, mul_bits, sub_bits};

verus! {

/// A point of the complex plane; each component is the bit pattern of a
/// double.
#[derive(Clone, Copy, Debug, PartialEq, Eq, Structural)]
pub struct Imaginary {
    pub re: u64,
    pub im: u64,
}

impl Imaginary {
    /// The complex square `(re² − im², 2·re·im)`, evaluated in double
    /// arithmetic exactly as written.
    pub open spec fn spec_square(self) -> Imaginary {
        Imaginary {
            re: sub_bits(mul_bits(self.re, self.re), mul_bits(self.im, self.im)),
            im: mul_bits(mul_bits(fbits::B_TWO, self.re), self.im),
        }
    }

    /// Squares the point.
    pub fn square(self) -> (r: Imaginary)
        ensures
            r == self.spec_square(),
    {
        let re: u64 = fbits::f_sub(
            fbits::f_mul(self.re, self.re),
            fbits::f_mul(self.im, self.im),
        );
        let im: u64 = fbits::f_mul(fbits::f_mul(fbits::B_TWO, self.re), self.im);
        Imaginary { re, im }
    }

    /// The squared distance from the origin, `re² + im²`.
    pub open spec fn spec_squared_distance(self) -> u64 {
        add_bits(mul_bits(self.re, self.re), mul_bits(self.im, self.im))
    }

    /// Squared distance from the origin; avoids the square root. For finite
    /// components the result is never negative and never a NaN: each square
    /// carries a clear sign bit, and the sum of two nonnegative non-NaN
    /// values does too (it may still round to positive infinity).
    pub fn squared_distance(self) -> (d: u64)
        ensures
            d == self.spec_squared_distance(),
            fbits::spec_is_finite(self.re) && fbits::spec_is_finite(self.im) ==> d
                & fbits::SIGN_MASK == 0 && !fbits::spec_is_nan(d),
    {
        fbits::f_add(fbits::f_mul(self.re, self.re), fbits::f_mul(self.im, self.im))
    }

    /// Componentwise sum.
    pub open spec fn spec_add(self, rhs: Imaginary) -> Imaginary {
        Imaginary { re: add_bits(self.re, rhs.re), im: add_bits(self.im, rhs.im) }
    }

    /// Adds componentwise.
    pub fn add(self, rhs: Imaginary) -> (r: Imaginary)
        ensures
            r == self.spec_add(rhs),
    {
        Imaginary { re: fbits::f_add(self.re, rhs.re), im: fbits::f_add(self.im, rhs.im) }
    }

    /// Squaring follows the analytic complex-square formula: the real part is
    /// `re² − im²` and the imaginary part is `2·re·im`, each operation the
    /// IEEE-754 double step on the components' bit patterns.
    pub proof fn lemma_square_is_analytic(self)
        ensures
            self.spec_square().re == sub_bits(
                mul_bits(self.re, self.re),
                mul_bits(self.im, self.im),
            ),
            self.spec_square().im == mul_bits(mul_bits(fbits::B_TWO, self.re), self.im),
    {
    }

    /// Componentwise scaling by a real factor.
    pub open spec fn spec_mul(self, rhs: u64) -> Imaginary {
        Imaginary { re: mul_bits(self.re, rhs), im: mul_bits(self.im, rhs) }
    }

    /// Scales both components by the real factor `rhs`.
    pub fn mul(self, rhs: u64) -> (r: Imaginary)
        ensures
            r == self.spec_mul(rhs),
    {
        Imaginary { re: fbits::f_mul(self.re, rhs), im: fbits::f_mul(self.im, rhs) }
    }
}

} // verus!
