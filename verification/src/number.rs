//! Numbers as a request writes them, and how one is cut to the pixel grid.
//!
//! A coordinate arrives as a JSON number: a whole number, or a number with a
//! fraction or an exponent. The second kind is held as the 64 bits of its
//! IEEE 754 double, so that every step from the wire to the pixel is integer
//! arithmetic.

use vstd::prelude::*;
use vstd::arithmetic::div_mod::{
    lemma_basic_div, lemma_div_by_multiple, lemma_div_is_ordered, lemma_fundamental_div_mod,
    lemma_mod_bound, lemma_multiply_divide_lt,
};
use vstd::arithmetic::mul::{lemma_mul_inequality, lemma_mul_is_commutative};
use vstd::arithmetic::power2::{
    lemma2_to64, lemma2_to64_rest, lemma_pow2_adds, lemma_pow2_pos, lemma_pow2_strictly_increases,
    pow2,
};
use vstd::bits::lemma_u64_shr_is_div;

verus! {

/// A JSON number.
#[derive(Clone, Copy, Debug, PartialEq, Eq, Structural)]
pub enum Number {
    /// A whole number from zero up.
    Unsigned(u64),
    /// A whole number, written with a minus sign.
    Negative(i64),
    /// A number written with a fraction or an exponent: the bits of the
    /// double nearest to it (sign, 11 bits of exponent, 52 bits of fraction).
    Real(u64),
}

/// The exponent field of a double: bits 52 to 62.
pub open spec fn double_exponent(bits: u64) -> nat {
    ((bits / 0x10_0000_0000_0000) % 2048) as nat
}

/// The fraction field of a double: the low 52 bits.
pub open spec fn double_fraction(bits: u64) -> nat {
    (bits % 0x10_0000_0000_0000) as nat
}

/// Whether the sign bit of a double is set.
pub open spec fn double_negative(bits: u64) -> bool {
    bits >= 0x8000_0000_0000_0000
}

/// Whether the bits are those of a not-a-number.
pub open spec fn double_is_nan(bits: u64) -> bool {
    double_exponent(bits) == 2047 && double_fraction(bits) != 0
}

/// The magnitude of a double, rounded down to a whole number.
///
/// A double with exponent field `e > 0` and fraction field `f` has the
/// magnitude `(2^52 + f) * 2^(e - 1075)`; with `e == 0` it lies below 1.
/// An infinity is read like a finite double with the largest exponent, which
/// gives a whole number above every machine integer.
pub open spec fn double_whole_magnitude(bits: u64) -> nat {
    let e = double_exponent(bits);
    let m = 0x10_0000_0000_0000 + double_fraction(bits);
    if e == 0 {
        0
    } else if e >= 1075 {
        m * pow2((e - 1075) as nat)
    } else {
        m / pow2((1075 - e) as nat)
    }
}

/// The nearest value to `n` that an `i32` can hold.
pub open spec fn clamp_to_i32(n: int) -> int {
    if n < i32::MIN {
        i32::MIN as int
    } else if n > i32::MAX {
        i32::MAX as int
    } else {
        n
    }
}

impl Number {
    /// The number with its fraction cut off: the whole number next to it in
    /// the direction of zero. Not-a-number counts as 0.
    pub open spec fn whole_part(self) -> int {
        match self {
            Number::Unsigned(u) => u as int,
            Number::Negative(i) => i as int,
            Number::Real(bits) => if double_is_nan(bits) {
                0
            } else if double_negative(bits) {
                -(double_whole_magnitude(bits) as int)
            } else {
                double_whole_magnitude(bits) as int
            },
        }
    }

    /// The pixel coordinate that the number stands for: its whole part, or
    /// the end of the `i32` range on the side where the whole part lies
    /// outside it.
    pub open spec fn pixel_spec(self) -> int {
        clamp_to_i32(self.whole_part())
    }

    /// Cuts the number to the pixel grid: truncation toward zero, saturating
    /// at the ends of the `i32` range.
    pub fn pixel(&self) -> (p: i32)
        ensures
            p == self.pixel_spec(),
    {
        match *self {
            Number::Unsigned(u) => if u > 0x7fff_ffff {
                i32::MAX
            } else {
                u as i32
            },
            Number::Negative(i) => if i < -0x8000_0000 {
                i32::MIN
            } else if i > 0x7fff_ffff {
                i32::MAX
            } else {
                i as i32
            },
            Number::Real(bits) => truncate_double(bits),
        }
    }
}

/// The whole magnitude of a double is its magnitude rounded down: for a
/// double below 2^52, whose magnitude is `m / 2^s` with the significand `m`
/// and `s` from 1 to 1074, the whole magnitude `w` is the one whole number
/// with `w <= m / 2^s < w + 1`.
pub proof fn lemma_whole_magnitude_rounds_down(bits: u64)
    requires
        0 < double_exponent(bits) < 1075,
    ensures
        ({
            let m = 0x10_0000_0000_0000 + double_fraction(bits);
            let scale = pow2((1075 - double_exponent(bits)) as nat);
            let w = double_whole_magnitude(bits);
            w * scale <= m < (w + 1) * scale
        }),
{
    let m = (0x10_0000_0000_0000 + double_fraction(bits)) as int;
    let s = (1075 - double_exponent(bits)) as nat;
    let scale = pow2(s) as int;
    lemma_pow2_pos(s);
    lemma_fundamental_div_mod(m, scale);
    lemma_mod_bound(m, scale);
    let w = m / scale;
    assert(w * scale == scale * w) by (nonlinear_arith);
    assert((w + 1) * scale == scale * w + scale) by (nonlinear_arith);
}

/// Splitting a double with shifts and masks gives its three fields.
proof fn lemma_double_fields(bits: u64)
    ensures
        (bits >> 52) & 0x7ff == double_exponent(bits),
        bits & 0xf_ffff_ffff_ffff == double_fraction(bits),
        (bits >> 63 == 1) == double_negative(bits),
        0x10_0000_0000_0000 | (bits & 0xf_ffff_ffff_ffff) == 0x10_0000_0000_0000 + double_fraction(
            bits,
        ),
        double_exponent(bits) < 2048,
        double_fraction(bits) < 0x10_0000_0000_0000,
{
    assert((bits >> 52) & 0x7ff == (bits / 0x10_0000_0000_0000) % 2048) by (bit_vector);
    assert(bits & 0xf_ffff_ffff_ffff == bits % 0x10_0000_0000_0000) by (bit_vector);
    assert((bits >> 63 == 1) == (bits >= 0x8000_0000_0000_0000)) by (bit_vector);
    assert(0x10_0000_0000_0000 | (bits & 0xf_ffff_ffff_ffff) == 0x10_0000_0000_0000 + (bits
        % 0x10_0000_0000_0000)) by (bit_vector);
}

/// A double below 1 in magnitude has the whole magnitude 0.
proof fn lemma_small_double(bits: u64)
    requires
        double_exponent(bits) < 1023,
    ensures
        double_whole_magnitude(bits) == 0,
{
    let e = double_exponent(bits);
    if e > 0 {
        let s = (1075 - e) as nat;
        let m = 0x10_0000_0000_0000 + double_fraction(bits);
        lemma2_to64_rest();
        if s > 53 {
            lemma_pow2_strictly_increases(53, s);
        }
        lemma_basic_div(m as int, pow2(s) as int);
    }
}

/// A double of exponent 31 or more has a whole magnitude of at least 2^31.
proof fn lemma_large_double(bits: u64)
    requires
        double_exponent(bits) >= 1054,
    ensures
        double_whole_magnitude(bits) >= 0x8000_0000,
{
    let e = double_exponent(bits);
    let m = 0x10_0000_0000_0000 + double_fraction(bits);
    lemma2_to64();
    lemma2_to64_rest();
    if e >= 1075 {
        let p = pow2((e - 1075) as nat);
        lemma_pow2_pos((e - 1075) as nat);
        lemma_mul_inequality(1, p as int, m as int);
        lemma_mul_is_commutative(m as int, p as int);
    } else {
        let s = (1075 - e) as nat;
        lemma_pow2_pos(s);
        lemma_pow2_adds(31, s);
        if 31 + s < 52 {
            lemma_pow2_strictly_increases(31 + s, 52);
        }
        assert(pow2(31) * pow2(s) <= m);
        lemma_div_is_ordered((pow2(31) * pow2(s)) as int, m as int, pow2(s) as int);
        lemma_div_by_multiple(pow2(31) as int, pow2(s) as int);
    }
}

/// Between the two, shifting the significand right gives the whole magnitude,
/// and it is below 2^31.
proof fn lemma_middle_double(bits: u64, m: u64, shift: u64)
    requires
        1023 <= double_exponent(bits) < 1054,
        m == 0x10_0000_0000_0000 + double_fraction(bits),
        shift == 1075 - double_exponent(bits),
    ensures
        m >> shift == double_whole_magnitude(bits),
        double_whole_magnitude(bits) < 0x8000_0000,
{
    let s = shift as nat;
    lemma2_to64();
    lemma2_to64_rest();
    lemma_u64_shr_is_div(m, shift);
    lemma_pow2_pos(s);
    lemma_pow2_adds(s, 31);
    if 53 < s + 31 {
        lemma_pow2_strictly_increases(53, s + 31);
    }
    assert(m < pow2(s) * pow2(31));
    lemma_multiply_divide_lt(m as int, pow2(s) as int, pow2(31) as int);
}

/// Cuts a double, given by its bits, to the pixel grid.
fn truncate_double(bits: u64) -> (p: i32)
    ensures
        p == Number::Real(bits).pixel_spec(),
{
    let exponent: u64 = (bits >> 52) & 0x7ff;
    let fraction: u64 = bits & 0xf_ffff_ffff_ffff;
    let negative = (bits >> 63) == 1;
    proof {
        lemma_double_fields(bits);
    }
    if exponent == 2047 && fraction != 0 {
        return 0;
    }
    if exponent < 1023 {
        proof {
            lemma_small_double(bits);
        }
        return 0;
    }
    if exponent >= 1054 {
        proof {
            lemma_large_double(bits);
        }
        return if negative {
            i32::MIN
        } else {
            i32::MAX
        };
    }
    let significand: u64 = 0x10_0000_0000_0000 | fraction;
    let shift: u64 = 1075 - exponent;
    let magnitude: u64 = significand >> shift;
    proof {
        lemma_middle_double(bits, significand, shift);
    }
    if negative {
        (0 - (magnitude as i64)) as i32
    } else {
        magnitude as i32
    }
}

} // verus!
