//! Pixel dimensions of a raster export.
//!
//! A scale factor arrives as the IEEE 754 single-precision encoding of a
//! number. Every finite such number is a whole significand times a power of
//! two, so the scaled extent of a region and its ceiling are computed here
//! exactly, on whole numbers, and no product is ever rounded before the
//! ceiling is taken. The number meant is the one the encoding denotes: the
//! encoding nearest to one tenth, for instance, denotes a number slightly
//! above one tenth, and ten times that number rounds up to two.

use vstd::prelude::*;
use vstd::arithmetic::power2::{
    lemma2_to64,
    lemma2_to64_rest,
    lemma_pow2_pos,
    lemma_pow2_strictly_increases,
    pow2,
};
use vstd::bits::lemma_u64_shl_is_mul;
use crate::diagram::Viewport;
use crate::error::{CommandError, ErrorKind};
use crate::messages::INVALID_SCALE;

verus! {

/// Whether the single-precision number that `bits` encodes is a usable
/// scale factor, that is, positive and finite: its sign bit is clear, its
/// exponent field is not all ones (which would make it an infinity or a
/// NaN), and it is not zero.
pub open spec fn usable_scale(bits: u32) -> bool {
    &&& bits & 0x8000_0000 == 0
    &&& exponent_field(bits) != 0xff
    &&& bits & 0x7fff_ffff != 0
}

/// The eight bits of the exponent field.
pub open spec fn exponent_field(bits: u32) -> u32 {
    (bits >> 23) & 0xff
}

/// The twenty-three bits of the fraction field.
pub open spec fn fraction_field(bits: u32) -> u32 {
    bits & 0x007f_ffff
}

/// The whole number `m` for which the finite number that `bits` encodes has
/// the magnitude `m * 2^e`, `e` being `binary_exponent(bits)`: the fraction
/// field, with the implicit leading bit unless the number is subnormal.
pub open spec fn significand(bits: u32) -> nat {
    if exponent_field(bits) == 0 {
        fraction_field(bits) as nat
    } else {
        (fraction_field(bits) + 0x0080_0000) as nat
    }
}

/// The power of two by which the significand is scaled.
pub open spec fn binary_exponent(bits: u32) -> int {
    if exponent_field(bits) == 0 {
        -149
    } else {
        exponent_field(bits) - 150
    }
}

/// `pixels` is the least whole number that is not below `extent` times the
/// number that `bits` encodes.
pub open spec fn is_scaled_ceiling(extent: nat, bits: u32, pixels: nat) -> bool {
    let exact = extent * significand(bits);
    let e = binary_exponent(bits);
    if e >= 0 {
        pixels == exact * pow2(e as nat)
    } else {
        (pixels - 1) * pow2((-e) as nat) < exact <= pixels * pow2((-e) as nat)
    }
}

/// `extent` times the number that `bits` encodes, rounded up to a whole
/// number.
pub open spec fn scaled_ceiling(extent: nat, bits: u32) -> nat {
    let exact = extent * significand(bits);
    let e = binary_exponent(bits);
    if e >= 0 {
        exact * pow2(e as nat)
    } else {
        ((exact + pow2((-e) as nat) - 1) / (pow2((-e) as nat) as int)) as nat
    }
}

/// The quotient that `scaled_ceiling` computes is the ceiling it is named
/// after: the least whole number not below the exact product.
pub proof fn scaled_ceiling_is_least(extent: nat, bits: u32)
    ensures
        is_scaled_ceiling(extent, bits, scaled_ceiling(extent, bits)),
{
    let exact = extent * significand(bits);
    let e = binary_exponent(bits);
    if e < 0 {
        let unit = pow2((-e) as nat) as int;
        lemma_pow2_pos((-e) as nat);
        let shifted = exact + unit - 1;
        let pixels = shifted / unit;
        assert(shifted == unit * pixels + shifted % unit && 0 <= shifted % unit < unit
            && pixels >= 0) by (nonlinear_arith)
            requires
                unit > 0,
                shifted >= 0,
                pixels == shifted / unit,
        ;
        assert((pixels - 1) * unit == unit * pixels - unit && pixels * unit == unit * pixels)
            by (nonlinear_arith);
    }
}

/// No other whole number is the ceiling.
pub proof fn scaled_ceiling_is_unique(extent: nat, bits: u32, pixels: nat)
    requires
        is_scaled_ceiling(extent, bits, pixels),
    ensures
        pixels == scaled_ceiling(extent, bits),
{
    scaled_ceiling_is_least(extent, bits);
    let exact = extent * significand(bits);
    let e = binary_exponent(bits);
    if e < 0 {
        let unit = pow2((-e) as nat) as int;
        lemma_pow2_pos((-e) as nat);
        let other = scaled_ceiling(extent, bits) as int;
        assert(pixels == other) by (nonlinear_arith)
            requires
                unit > 0,
                (pixels - 1) * unit < exact <= pixels * unit,
                (other - 1) * unit < exact <= other * unit,
        ;
    }
}

/// The pixel dimensions of a raster export of `region` at the scale that
/// `bits` encodes: width and height of the region, each times the scale
/// and rounded up. There are none when the scale is not positive and
/// finite, when the region has no extent, and when a dimension does not fit
/// in thirty-two bits.
pub open spec fn raster_size(region: Viewport, bits: u32) -> Option<(nat, nat)> {
    if usable_scale(bits) && region.width > 0 && region.height > 0 {
        let width = scaled_ceiling(region.width as nat, bits);
        let height = scaled_ceiling(region.height as nat, bits);
        if width <= u32::MAX && height <= u32::MAX {
            Some((width, height))
        } else {
            None
        }
    } else {
        None
    }
}

/// Decides from its IEEE 754 encoding whether a scale factor is positive and
/// finite.
pub fn scale_is_usable(bits: u32) -> (usable: bool)
    ensures
        usable == usable_scale(bits),
{
    assert((0 < bits && bits < 0x7f80_0000) <==> (bits & 0x8000_0000 == 0 && (bits >> 23) & 0xff
        != 0xff && bits & 0x7fff_ffff != 0)) by (bit_vector);
    0 < bits && bits < 0x7f80_0000
}

/// Two to the power of `exponent`.
fn power_of_two(exponent: u32) -> (power: u64)
    requires
        exponent < 64,
    ensures
        power == pow2(exponent as nat),
        power >= 1,
{
    proof {
        lemma_pow2_strictly_increases(exponent as nat, 64);
        lemma_pow2_pos(exponent as nat);
        lemma2_to64();
        lemma_u64_shl_is_mul(1, exponent as u64);
    }
    1u64 << (exponent as u64)
}

/// `extent` times the scale that `bits` encodes, rounded up, where that
/// fits in thirty-two bits.
fn scaled_extent(extent: u32, bits: u32) -> (pixels: Option<u32>)
    requires
        extent > 0,
        usable_scale(bits),
    ensures
        match pixels {
            Some(pixels) => pixels == scaled_ceiling(extent as nat, bits),
            None => scaled_ceiling(extent as nat, bits) > u32::MAX,
        },
{
    let exponent: u32 = (bits >> 23) & 0xff;
    let fraction: u32 = bits & 0x007f_ffff;
    assert(exponent <= 0xff && fraction < 0x0080_0000) by (bit_vector)
        requires
            exponent == (bits >> 23) & 0xff,
            fraction == bits & 0x007f_ffff,
    ;
    assert(exponent == 0 ==> fraction != 0) by (bit_vector)
        requires
            exponent == (bits >> 23) & 0xff,
            fraction == bits & 0x007f_ffff,
            bits & 0x7fff_ffff != 0,
    ;
    let mantissa: u64 = if exponent == 0 {
        fraction as u64
    } else {
        fraction as u64 + 0x0080_0000
    };
    assert(mantissa == significand(bits));
    assert(1 <= mantissa < 0x0100_0000);
    assert(1 <= extent * mantissa < 0x0100_0000_0000_0000) by (nonlinear_arith)
        requires
            1 <= extent <= 0xffff_ffff,
            1 <= mantissa < 0x0100_0000,
    ;
    let exact: u64 = extent as u64 * mantissa;
    if exponent >= 150 {
        let up: u32 = exponent - 150;
        assert(binary_exponent(bits) == up);
        if up >= 32 {
            proof {
                lemma2_to64();
                if up > 32 {
                    lemma_pow2_strictly_increases(32, up as nat);
                }
                assert(exact * pow2(up as nat) > u32::MAX) by (nonlinear_arith)
                    requires
                        exact >= 1,
                        pow2(up as nat) >= 0x1_0000_0000,
                ;
            }
            return None;
        }
        let unit = power_of_two(up);
        proof {
            lemma2_to64();
            if up < 31 {
                lemma_pow2_strictly_increases(up as nat, 31);
            }
            assert(exact * unit < 0x1_0000_0000_0000_0000_0000_0000) by (nonlinear_arith)
                requires
                    exact < 0x0100_0000_0000_0000,
                    unit <= 0x8000_0000,
            ;
        }
        let scaled: u128 = exact as u128 * unit as u128;
        if scaled > u32::MAX as u128 {
            None
        } else {
            Some(scaled as u32)
        }
    } else {
        let down: u32 = if exponent == 0 {
            149
        } else {
            150 - exponent
        };
        assert(binary_exponent(bits) == -down);
        if down >= 64 {
            proof {
                lemma2_to64();
                if down > 64 {
                    lemma_pow2_strictly_increases(64, down as nat);
                }
                let unit = pow2(down as nat) as int;
                let shifted = exact + unit - 1;
                assert(shifted / unit == 1) by (nonlinear_arith)
                    requires
                        unit > 0,
                        unit <= shifted < 2 * unit,
                ;
            }
            return Some(1);
        }
        let unit = power_of_two(down);
        proof {
            lemma2_to64_rest();
            if down < 63 {
                lemma_pow2_strictly_increases(down as nat, 63);
            }
        }
        let scaled: u64 = (exact + (unit - 1)) / unit;
        if scaled > u32::MAX as u64 {
            None
        } else {
            Some(scaled as u32)
        }
    }
}

/// Computes the pixel dimensions of a raster export of `region` at the
/// scale that `scale_bits` encodes.
pub fn raster_dimensions(region: &Viewport, scale_bits: u32) -> (dimensions: Result<
    (u32, u32),
    CommandError,
>)
    ensures
        match raster_size(*region, scale_bits) {
            Some((width, height)) => dimensions matches Ok(pixels) && pixels.0 == width && pixels.1
                == height,
            None => dimensions matches Err(error) && error.kind == ErrorKind::RasterError
                && error.message@ == INVALID_SCALE@,
        },
{
    if scale_is_usable(scale_bits) && region.width > 0 && region.height > 0 {
        let width = scaled_extent(region.width as u32, scale_bits);
        let height = scaled_extent(region.height as u32, scale_bits);
        match (width, height) {
            (Some(width), Some(height)) => {
                return Ok((width, height));
            },
            _ => {},
        }
    }
    Err(CommandError::fixed(ErrorKind::RasterError, INVALID_SCALE))
}

} // verus!
