//! Floating-point values held as their IEEE-754 bit patterns, and the
//! equality that `==` on the floating-point values themselves has: a NaN
//! equals nothing, not even itself, and the two zeros (+0.0 and -0.0) are
//! equal.
use vstd::prelude::*;

verus! {

/// The bit pattern of a double-precision NaN: all exponent bits set and a
/// non-zero fraction.
pub open spec fn is_nan_f64(bits: u64) -> bool {
    (bits & 0x7ff0_0000_0000_0000) == 0x7ff0_0000_0000_0000 && (bits & 0x000f_ffff_ffff_ffff) != 0
}

/// The bit pattern of +0.0 or -0.0.
pub open spec fn is_zero_f64(bits: u64) -> bool {
    (bits & 0x7fff_ffff_ffff_ffff) == 0
}

/// `==` on the doubles with bit patterns `a` and `b`.
pub open spec fn f64_eq(a: u64, b: u64) -> bool {
    !is_nan_f64(a) && !is_nan_f64(b) && (a == b || (is_zero_f64(a) && is_zero_f64(b)))
}

/// `==` on two optional doubles, given by their bit patterns.
pub open spec fn opt_f64_eq(a: Option<u64>, b: Option<u64>) -> bool {
    match (a, b) {
        (Some(x), Some(y)) => f64_eq(x, y),
        (None, None) => true,
        _ => false,
    }
}

/// The bit pattern of a single-precision NaN.
pub open spec fn is_nan_f32(bits: u32) -> bool {
    (bits & 0x7f80_0000) == 0x7f80_0000 && (bits & 0x007f_ffff) != 0
}

/// The bit pattern of +0.0 or -0.0 in single precision.
pub open spec fn is_zero_f32(bits: u32) -> bool {
    (bits & 0x7fff_ffff) == 0
}

/// `==` on the singles with bit patterns `a` and `b`.
pub open spec fn f32_eq(a: u32, b: u32) -> bool {
    !is_nan_f32(a) && !is_nan_f32(b) && (a == b || (is_zero_f32(a) && is_zero_f32(b)))
}

pub fn f64_bits_eq(a: u64, b: u64) -> (r: bool)
    ensures
        r == f64_eq(a, b),
{
    let a_nan = (a & 0x7ff0_0000_0000_0000) == 0x7ff0_0000_0000_0000 && (a & 0x000f_ffff_ffff_ffff) != 0;
    let b_nan = (b & 0x7ff0_0000_0000_0000) == 0x7ff0_0000_0000_0000 && (b & 0x000f_ffff_ffff_ffff) != 0;
    let both_zero = (a & 0x7fff_ffff_ffff_ffff) == 0 && (b & 0x7fff_ffff_ffff_ffff) == 0;
    !a_nan && !b_nan && (a == b || both_zero)
}

pub fn opt_f64_bits_eq(a: Option<u64>, b: Option<u64>) -> (r: bool)
    ensures
        r == opt_f64_eq(a, b),
{
    match (a, b) {
        (Some(x), Some(y)) => f64_bits_eq(x, y),
        (None, None) => true,
        _ => false,
    }
}

pub fn f32_bits_eq(a: u32, b: u32) -> (r: bool)
    ensures
        r == f32_eq(a, b),
{
    let a_nan = (a & 0x7f80_0000) == 0x7f80_0000 && (a & 0x007f_ffff) != 0;
    let b_nan = (b & 0x7f80_0000) == 0x7f80_0000 && (b & 0x007f_ffff) != 0;
    let both_zero = (a & 0x7fff_ffff) == 0 && (b & 0x7fff_ffff) == 0;
    !a_nan && !b_nan && (a == b || both_zero)
}

} // verus!
