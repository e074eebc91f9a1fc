//! Double-precision values, carried as their IEEE-754 bit patterns.
//!
//! The engine works on 64-bit binary floating-point values, but never on the
//! machine's own floating-point registers: a value is held as the `u64` bit
//! pattern of the double it denotes, and every rounding step goes through a
//! software implementation of IEEE-754 arithmetic. Each rounding operation is
//! a deterministic function of the operand bit patterns, named below by an
//! uninterpreted spec function, so every caller's contract pins its result
//! exactly as a composition of those names; the comparison and the integer
//! conversions are plain bit logic and are implemented and verified here.

use vstd::prelude::*;

use const_soft_float::soft_f64::SoftF64;

verus! {

/// Sign bit of a double's bit pattern.
pub const SIGN_MASK: u64 = 0x8000_0000_0000_0000;
/// Significand (fraction) field of a double's bit pattern.
pub const FRAC_MASK: u64 = 0x000F_FFFF_FFFF_FFFF;

/// Bit pattern of 0.0.
pub const B_ZERO: u64 = 0x0000_0000_0000_0000;
/// Bit pattern of 0.5.
pub const B_HALF: u64 = 0x3FE0_0000_0000_0000;
/// Bit pattern of 1.0.
pub const B_ONE: u64 = 0x3FF0_0000_0000_0000;
/// Bit pattern of 2.0.
pub const B_TWO: u64 = 0x4000_0000_0000_0000;
/// Bit pattern of 255.0.
pub const B_255: u64 = 0x406F_E000_0000_0000;
/// Bit pattern of the quiet NaN that this module's own functions produce.
pub const B_QNAN: u64 = 0x7FF8_0000_0000_0000;
/// Bit pattern of positive infinity.
pub const B_INF: u64 = 0x7FF0_0000_0000_0000;
/// Bit pattern of negative infinity.
pub const B_NEG_INF: u64 = 0xFFF0_0000_0000_0000;
/// Bit pattern of 2^64, used to rescale subnormal values.
pub const B_TWO_POW_64: u64 = 0x43F0_0000_0000_0000;

/// The double sum, `a + b`, as a function of the operand bit patterns.
pub uninterp spec fn add_bits(a: u64, b: u64) -> u64;

/// The double difference, `a - b`, as a function of the operand bit patterns.
pub uninterp spec fn sub_bits(a: u64, b: u64) -> u64;

/// The double product, `a * b`, as a function of the operand bit patterns.
pub uninterp spec fn mul_bits(a: u64, b: u64) -> u64;

/// The double quotient, `a / b`, as a function of the operand bit patterns.
pub uninterp spec fn div_bits(a: u64, b: u64) -> u64;

/// The correctly rounded double square root of `a`.
pub uninterp spec fn sqrt_bits(a: u64) -> u64;

/// The bit pattern denotes a NaN: all exponent bits set and a nonzero
/// fraction.
pub open spec fn spec_is_nan(b: u64) -> bool {
    (b >> 52) & 0x7FF == 0x7FF && b & FRAC_MASK != 0
}

/// The bit pattern denotes a finite double: not all exponent bits set, so
/// neither a NaN nor an infinity.
pub open spec fn spec_is_finite(b: u64) -> bool {
    (b >> 52) & 0x7FF != 0x7FF
}

/// The IEEE-754 comparison `a < b` on bit patterns: false whenever an operand
/// is a NaN or the two are equal (the two zeros are equal); otherwise the
/// order of sign-magnitude values — bit patterns compare directly for two
/// positives, and reversed for two negatives.
pub open spec fn lt_bits(a: u64, b: u64) -> bool {
    if spec_is_nan(a) || spec_is_nan(b) {
        false
    } else if a & !SIGN_MASK == 0 && b & !SIGN_MASK == 0 {
        false
    } else if (a & SIGN_MASK) == (b & SIGN_MASK) {
        if a & SIGN_MASK == 0 {
            a < b
        } else {
            b < a
        }
    } else {
        a & SIGN_MASK != 0
    }
}

/// Relies on `SoftF64::add` of const_soft_float, the compiler_builtins port of
/// IEEE-754 double addition: round-to-nearest-even, deterministic in the
/// operand bit patterns. One fact its source gives directly is stated besides
/// the name: the sum of two nonnegative non-NaN values is nonnegative and not
/// a NaN — every such path returns the larger operand's sign, and a NaN can
/// only arise from subtracting infinities.
#[verifier::external_body]
pub(crate) fn f_add(a: u64, b: u64) -> (r: u64)
    ensures
        r == add_bits(a, b),
        a & SIGN_MASK == 0 && b & SIGN_MASK == 0 && !spec_is_nan(a) && !spec_is_nan(b) ==> r
            & SIGN_MASK == 0 && !spec_is_nan(r),
{
    SoftF64::from_bits(a).add(SoftF64::from_bits(b)).to_bits()
}

/// Relies on `SoftF64::sub` of const_soft_float, IEEE-754 double subtraction.
#[verifier::external_body]
pub(crate) fn f_sub(a: u64, b: u64) -> (r: u64)
    ensures
        r == sub_bits(a, b),
{
    SoftF64::from_bits(a).sub(SoftF64::from_bits(b)).to_bits()
}

/// Relies on `SoftF64::mul` of const_soft_float, IEEE-754 double
/// multiplication. Three facts its source gives directly are stated besides
/// the name: the exact product of a finite value and 1.0 rounds to that value
/// unchanged; a nonnegative finite value times +0.0 takes the zero path and
/// returns +0.0 (the result sign is the XOR of the operand signs); and a
/// finite value times itself has that XOR sign, which is clear, and never
/// takes a NaN path.
#[verifier::external_body]
pub(crate) fn f_mul(a: u64, b: u64) -> (r: u64)
    ensures
        r == mul_bits(a, b),
        spec_is_finite(a) && b == B_ONE ==> r == a,
        spec_is_finite(a) && a & SIGN_MASK == 0 && b == B_ZERO ==> r == B_ZERO,
        spec_is_finite(a) && b == a ==> r & SIGN_MASK == 0 && !spec_is_nan(r),
{
    SoftF64::from_bits(a).mul(SoftF64::from_bits(b)).to_bits()
}

/// Relies on `SoftF64::div` of const_soft_float, IEEE-754 double division.
#[verifier::external_body]
pub(crate) fn f_div(a: u64, b: u64) -> (r: u64)
    ensures
        r == div_bits(a, b),
{
    SoftF64::from_bits(a).div(SoftF64::from_bits(b)).to_bits()
}

/// Relies on `SoftF64::sqrt` of const_soft_float, the libm port of the
/// correctly rounded double square root.
#[verifier::external_body]
pub(crate) fn f_sqrt(a: u64) -> (r: u64)
    ensures
        r == sqrt_bits(a),
{
    SoftF64::from_bits(a).sqrt().to_bits()
}

/// The IEEE-754 `<` on bit patterns. Unlike the rounding operations above,
/// the comparison is a few lines of integer logic, so it is implemented and
/// verified here rather than taken on trust.
pub(crate) fn f_lt(a: u64, b: u64) -> (r: bool)
    ensures
        r == lt_bits(a, b),
{
    let a_exp: u64 = (a >> 52) & 0x7FF;
    let b_exp: u64 = (b >> 52) & 0x7FF;
    if (a_exp == 0x7FF && a & FRAC_MASK != 0) || (b_exp == 0x7FF && b & FRAC_MASK != 0) {
        return false;
    }
    if a & !SIGN_MASK == 0 && b & !SIGN_MASK == 0 {
        return false;
    }
    if (a & SIGN_MASK) == (b & SIGN_MASK) {
        if a & SIGN_MASK == 0 {
            a < b
        } else {
            b < a
        }
    } else {
        a & SIGN_MASK != 0
    }
}

/// Position of the highest set bit of `v`, scanning down from bit `p`;
/// 0 when no bit at or below `p` is set.
pub open spec fn spec_msb64(v: u64, p: u64) -> u64
    decreases p,
{
    if p == 0 {
        0
    } else if (v >> p) & 1 == 1 {
        p
    } else {
        spec_msb64(v, (p - 1) as u64)
    }
}

/// Highest set bit position of `v` at or below `from` (0 when `v` has none).
pub(crate) fn msb64(v: u64, from: u64) -> (r: u64)
    requires
        from <= 63,
    ensures
        r == spec_msb64(v, from),
        r <= from,
{
    let mut p: u64 = from;
    while p > 0 && (v >> p) & 1 == 0
        invariant
            from <= 63,
            p <= from,
            spec_msb64(v, from) == spec_msb64(v, p),
        decreases p,
    {
        p = p - 1;
    }
    proof {
        if p == 0 {
            assert(spec_msb64(v, 0) == 0);
        } else {
            assert((v >> p) & 1 == 0 || (v >> p) & 1 == 1) by (bit_vector);
            assert(spec_msb64(v, p) == p);
        }
    }
    p
}

/// The bit pattern of the double equal to the integer `v`.
///
/// Every `u32` is exactly representable as a double, so this encoding is
/// exact: for `v != 0` the exponent field is `1023 + p` where `p` is the
/// highest set bit of `v`, and the remaining bits of `v` fill the top of the
/// significand field.
pub open spec fn spec_bits_of_u32(v: u32) -> u64 {
    if v == 0 {
        0
    } else {
        let p = spec_msb64(v as u64, 31);
        (((1023 + p) as u64) << 52) | (((v as u64) << ((52 - p) as u64)) & FRAC_MASK)
    }
}

/// Encodes the integer `v` as the bit pattern of the equal double.
pub fn bits_of_u32(v: u32) -> (r: u64)
    ensures
        r == spec_bits_of_u32(v),
{
    if v == 0 {
        return 0;
    }
    let p = msb64(v as u64, 31);
    (((1023 + p) as u64) << 52) | (((v as u64) << ((52 - p) as u64)) & FRAC_MASK)
}

/// When `v` is nonzero and has no set bit above `from`, its highest set bit
/// position `p` satisfies `v >> p == 1`.
proof fn lemma_msb64_is_top(v: u64, from: u64)
    requires
        from <= 63,
        v != 0,
        v >> from <= 1,
    ensures
        v >> spec_msb64(v, from) == 1,
        spec_msb64(v, from) <= from,
    decreases from,
{
    if from == 0 {
        assert(v >> 0u64 == v) by (bit_vector);
    } else if (v >> from) & 1 == 1 {
        assert(v >> from <= 1 && (v >> from) & 1 == 1 ==> v >> from == 1) by (bit_vector);
    } else {
        assert((v >> from) & 1 != 1 && v >> from <= 1 ==> v >> ((from - 1) as u64) <= 1)
            by (bit_vector)
            requires
                1 <= from <= 63,
        ;
        lemma_msb64_is_top(v, (from - 1) as u64);
    }
}

/// The integer encoding is faithful: the bit pattern `spec_bits_of_u32(v)` is
/// nonnegative, finite, and converts back to `v` under the saturating cast.
pub proof fn lemma_bits_of_u32_roundtrip(v: u32)
    ensures
        spec_bits_of_u32(v) & SIGN_MASK == 0,
        spec_is_finite(spec_bits_of_u32(v)),
        spec_bits_to_u64_sat(spec_bits_of_u32(v)) == v as u64,
{
    if v == 0 {
        assert((0u64 >> 52) & 0x7FF == 0 && 0u64 & SIGN_MASK == 0 && 0u64 & FRAC_MASK == 0)
            by (bit_vector);
    } else {
        let vv = v as u64;
        assert(vv >> 31 <= 1) by (bit_vector)
            requires
                vv < 0x1_0000_0000,
        ;
        lemma_msb64_is_top(vv, 31);
        let p = spec_msb64(vv, 31);
        let bits = (((1023 + p) as u64) << 52) | ((vv << ((52 - p) as u64)) & FRAC_MASK);
        assert(bits == spec_bits_of_u32(v));
        assert({
            &&& bits & SIGN_MASK == 0
            &&& (bits >> 52) & 0x7FF == 1023 + p
            &&& ((1u64 << 52) | (bits & FRAC_MASK)) >> ((52 - p) as u64) == vv
        }) by (bit_vector)
            requires
                p <= 31 && vv >> p == 1 && bits == (((1023 + p) as u64) << 52) | ((vv << ((52
                    - p) as u64)) & FRAC_MASK),
        ;
    }
}

/// The `u64` that the double with bit pattern `b` converts to under Rust's
/// saturating `as` cast: truncation toward zero, negative values and NaN give
/// 0, values of 2^64 or more give `u64::MAX`.
pub open spec fn spec_bits_to_u64_sat(b: u64) -> u64 {
    let exp = (b >> 52) & 0x7FF;
    let frac = b & FRAC_MASK;
    if exp == 0x7FF && frac != 0 {
        0
    } else if b & SIGN_MASK != 0 {
        0
    } else if exp == 0x7FF {
        u64::MAX
    } else if exp < 1023 {
        0
    } else if exp >= 1087 {
        u64::MAX
    } else {
        let p = (exp - 1023) as u64;
        let m = (1u64 << 52) | frac;
        if p <= 52 {
            m >> ((52 - p) as u64)
        } else {
            m << ((p - 52) as u64)
        }
    }
}

/// Converts a double's bit pattern to `u64` with Rust's `as` cast semantics.
pub fn bits_to_u64_sat(b: u64) -> (r: u64)
    ensures
        r == spec_bits_to_u64_sat(b),
{
    let exp: u64 = (b >> 52) & 0x7FF;
    let frac: u64 = b & FRAC_MASK;
    if exp == 0x7FF && frac != 0 {
        0
    } else if b & SIGN_MASK != 0 {
        0
    } else if exp == 0x7FF {
        u64::MAX
    } else if exp < 1023 {
        0
    } else if exp >= 1087 {
        u64::MAX
    } else {
        let p: u64 = exp - 1023;
        let m: u64 = (1u64 << 52) | frac;
        if p <= 52 {
            m >> ((52 - p) as u64)
        } else {
            m << ((p - 52) as u64)
        }
    }
}

/// The `usize` that the double with bit pattern `b` converts to under Rust's
/// saturating `as` cast.
pub open spec fn spec_bits_to_usize_sat(b: u64) -> usize {
    let v = spec_bits_to_u64_sat(b);
    if v > usize::MAX as u64 {
        usize::MAX
    } else {
        v as usize
    }
}

/// Converts a double's bit pattern to `usize` with Rust's `as` cast semantics.
pub fn bits_to_usize_sat(b: u64) -> (r: usize)
    ensures
        r == spec_bits_to_usize_sat(b),
{
    let v: u64 = bits_to_u64_sat(b);
    if v > usize::MAX as u64 {
        usize::MAX
    } else {
        v as usize
    }
}

/// The `u8` that the double with bit pattern `b` converts to under Rust's
/// saturating `as` cast: truncation toward zero, negative values and NaN give
/// 0, values of 256 or more give 255.
pub open spec fn spec_bits_to_u8_sat(b: u64) -> u8 {
    let v = spec_bits_to_u64_sat(b);
    if v > 255 {
        255
    } else {
        v as u8
    }
}

/// Converts a double's bit pattern to `u8` with Rust's `as` cast semantics.
pub fn bits_to_u8_sat(b: u64) -> (r: u8)
    ensures
        r == spec_bits_to_u8_sat(b),
{
    let v: u64 = bits_to_u64_sat(b);
    if v > 255 {
        255
    } else {
        v as u8
    }
}

/// The bit pattern of the double `(r >> 11) * 2^-53`.
///
/// This is exactly the value that rand's `Standard` distribution derives for a
/// double in `[0, 1)` from one 64-bit draw: the top 53 bits of the draw,
/// scaled by 2^-53. Both steps are exact, so the encoding below is too: for a
/// nonzero significand `k` with highest set bit `p`, the exponent field is
/// `1023 + p - 53`.
pub open spec fn spec_unit_from_u64(r: u64) -> u64 {
    let k = r >> 11;
    if k == 0 {
        0
    } else {
        let p = spec_msb64(k, 52);
        (((970 + p) as u64) << 52) | ((k << ((52 - p) as u64)) & FRAC_MASK)
    }
}

/// Builds the bit pattern of a uniform double in `[0, 1)` from a raw 64-bit
/// random draw, exactly as rand's `Standard` distribution does.
pub fn unit_from_u64(r: u64) -> (u: u64)
    ensures
        u == spec_unit_from_u64(r),
{
    let k: u64 = r >> 11;
    if k == 0 {
        return 0;
    }
    let p = msb64(k, 52);
    (((970 + p) as u64) << 52) | ((k << ((52 - p) as u64)) & FRAC_MASK)
}

/// One digit of the fraction of a base-2 logarithm per step: the running
/// value `y` in `[1, 4)` is squared; when the square reaches 2 the digit with
/// weight `w / 2` is set and the square is halved back into range.
pub open spec fn spec_log2_frac(acc: u64, y: u64, w: u64, n: nat) -> u64
    decreases n,
{
    if n == 0 {
        acc
    } else {
        let y2 = mul_bits(y, y);
        let w2 = div_bits(w, B_TWO);
        if lt_bits(y2, B_TWO) {
            spec_log2_frac(acc, y2, w2, (n - 1) as nat)
        } else {
            spec_log2_frac(add_bits(acc, w2), div_bits(y2, B_TWO), w2, (n - 1) as nat)
        }
    }
}

/// Number of fraction digits the base-2 logarithm extracts.
pub const LOG2_DIGITS: u64 = 52;

/// The deterministic base-2 logarithm of the double with bit pattern `a`.
///
/// The platform's own logarithm is not a deterministic function across
/// machines, so the engine uses this one: the integer part is read off the
/// exponent field, and 52 fraction digits are extracted by repeated squaring
/// over the software arithmetic. NaN and negative inputs give a quiet NaN,
/// zero gives negative infinity, positive infinity gives itself, and
/// subnormal inputs are first rescaled by 2^64 (which is exact).
pub open spec fn spec_log2(a: u64) -> u64 {
    let exp = (a >> 52) & 0x7FF;
    let frac = a & FRAC_MASK;
    if exp == 0x7FF && frac != 0 {
        B_QNAN
    } else if a == B_ZERO || a == SIGN_MASK {
        B_NEG_INF
    } else if a & SIGN_MASK != 0 {
        B_QNAN
    } else if a == B_INF {
        B_INF
    } else if exp == 0 {
        spec_log2_normal(mul_bits(a, B_TWO_POW_64), -64)
    } else {
        spec_log2_normal(a, 0)
    }
}

/// Base-2 logarithm of a positive, normal double, with `eoff` added to the
/// unbiased exponent.
pub open spec fn spec_log2_normal(a: u64, eoff: int) -> u64 {
    let e = ((a >> 52) & 0x7FF) - 1023 + eoff;
    let ebits = if e >= 0 {
        spec_bits_of_u32(e as u32)
    } else {
        spec_bits_of_u32((-e) as u32) | SIGN_MASK
    };
    let m = (a & FRAC_MASK) | B_ONE;
    spec_log2_frac(ebits, m, B_ONE, LOG2_DIGITS as nat)
}

/// Computes the deterministic base-2 logarithm on bit patterns.
pub fn f_log2(a: u64) -> (r: u64)
    ensures
        r == spec_log2(a),
{
    let exp: u64 = (a >> 52) & 0x7FF;
    let frac: u64 = a & FRAC_MASK;
    if exp == 0x7FF && frac != 0 {
        return B_QNAN;
    }
    if a == B_ZERO || a == SIGN_MASK {
        return B_NEG_INF;
    }
    if a & SIGN_MASK != 0 {
        return B_QNAN;
    }
    if a == B_INF {
        return B_INF;
    }
    let na: u64 = if exp == 0 {
        f_mul(a, B_TWO_POW_64)
    } else {
        a
    };
    let eoff: i64 = if exp == 0 {
        -64
    } else {
        0
    };
    let nexp: u64 = (na >> 52) & 0x7FF;
    proof {
        assert((na >> 52) & 0x7FF <= 0x7FF) by (bit_vector);
    }
    let e: i64 = nexp as i64 - 1023 + eoff;
    let ebits: u64 = if e >= 0 {
        bits_of_u32(e as u32)
    } else {
        bits_of_u32((-e) as u32) | SIGN_MASK
    };
    let m: u64 = (na & FRAC_MASK) | B_ONE;
    let mut acc: u64 = ebits;
    let mut y: u64 = m;
    let mut w: u64 = B_ONE;
    let mut i: u64 = 0;
    while i < LOG2_DIGITS
        invariant
            i <= LOG2_DIGITS,
            spec_log2_frac(ebits, m, B_ONE, LOG2_DIGITS as nat) == spec_log2_frac(
                acc,
                y,
                w,
                (LOG2_DIGITS - i) as nat,
            ),
        decreases LOG2_DIGITS - i,
    {
        let y2: u64 = f_mul(y, y);
        let w2: u64 = f_div(w, B_TWO);
        if f_lt(y2, B_TWO) {
            y = y2;
        } else {
            acc = f_add(acc, w2);
            y = f_div(y2, B_TWO);
        }
        w = w2;
        i = i + 1;
    }
    acc
}

} // verus!
