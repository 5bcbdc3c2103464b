//! Scalar tracking values as IEEE 754 double bit patterns.
//!
//! The library never computes with floating point itself: every scalar
//! (blend-shape weight, head pose coordinate, evaluated parameter value)
//! is carried as the 64-bit pattern of the IEEE 754 double that holds it.
//! Callers convert with `f64::to_bits` / `f64::from_bits` at the boundary.
//! Range clamping, the one piece of value logic the protocol needs, is done
//! here on the bit patterns and verified.

use vstd::prelude::*;

verus! {

/// Bit pattern of the double 1.0, the weight attached to every injected
/// parameter value.
pub const WEIGHT_ONE_BITS: u64 = 0x3FF0000000000000;

/// Bit pattern of the double 1000000.0, the upper clamping bound for
/// evaluated parameter values.
pub const CLAMP_MAX_BITS: u64 = 0x412E848000000000;

/// Bit pattern of the double -1000000.0, the lower clamping bound.
pub const CLAMP_MIN_BITS: u64 = 0xC12E848000000000;

/// Sign bit of an IEEE 754 double bit pattern.
pub open spec fn bits_sign(b: u64) -> bool {
    b >> 63 == 1
}

/// Magnitude (exponent and mantissa, everything but the sign bit) of an
/// IEEE 754 double bit pattern. For two finite doubles of the same sign,
/// the order of the magnitudes as integers is the order of the absolute
/// values of the doubles.
pub open spec fn bits_mag(b: u64) -> u64 {
    b & 0x7FFF_FFFF_FFFF_FFFF
}

/// Whether the bit pattern is an IEEE 754 NaN: exponent all ones and a
/// non-zero mantissa.
pub open spec fn bits_is_nan(b: u64) -> bool {
    b & 0x7FF0_0000_0000_0000 == 0x7FF0_0000_0000_0000 && b & 0x000F_FFFF_FFFF_FFFF != 0
}

/// Whether the bit pattern lies in the clamping range [-1000000.0, 1000000.0]:
/// not a NaN, and of magnitude at most that of the bound.
pub open spec fn bits_in_range(b: u64) -> bool {
    !bits_is_nan(b) && bits_mag(b) <= CLAMP_MAX_BITS
}

/// What clamping a double to [-1000000.0, 1000000.0] does to its bit pattern:
/// a NaN stays itself (as with `f64::clamp`), a value beyond a bound (an
/// infinity included) becomes the bound of its sign, everything else stays.
pub open spec fn spec_clamp_bits(b: u64) -> u64 {
    if bits_is_nan(b) {
        b
    } else if bits_mag(b) > CLAMP_MAX_BITS {
        if bits_sign(b) {
            CLAMP_MIN_BITS
        } else {
            CLAMP_MAX_BITS
        }
    } else {
        b
    }
}

/// Clamp the double held in `b` to [-1000000.0, 1000000.0], on the bit
/// pattern alone.
pub fn clamp_bits(b: u64) -> (r: u64)
    ensures
        r == spec_clamp_bits(b),
{
    let exp_and_mantissa: u64 = b & 0x7FFF_FFFF_FFFF_FFFF;
    let is_nan: bool = (b & 0x7FF0_0000_0000_0000 == 0x7FF0_0000_0000_0000) && (b
        & 0x000F_FFFF_FFFF_FFFF != 0);
    if is_nan {
        b
    } else if exp_and_mantissa > CLAMP_MAX_BITS {
        if b >> 63 == 1 {
            CLAMP_MIN_BITS
        } else {
            CLAMP_MAX_BITS
        }
    } else {
        b
    }
}

/// A clamped value is in range whenever the input was not a NaN; a NaN
/// passes through unchanged.
pub proof fn lemma_clamp_bits_in_range(b: u64)
    ensures
        !bits_is_nan(b) ==> bits_in_range(spec_clamp_bits(b)),
        bits_is_nan(b) ==> spec_clamp_bits(b) == b,
{
    assert(!bits_is_nan(CLAMP_MAX_BITS) && bits_mag(CLAMP_MAX_BITS) <= CLAMP_MAX_BITS) by (bit_vector);
    assert(!bits_is_nan(CLAMP_MIN_BITS) && bits_mag(CLAMP_MIN_BITS) <= CLAMP_MAX_BITS) by (bit_vector);
}

/// A value already in range is left unchanged by clamping.
pub proof fn lemma_clamp_bits_identity(b: u64)
    requires
        bits_in_range(b),
    ensures
        spec_clamp_bits(b) == b,
{
}

} // verus!
