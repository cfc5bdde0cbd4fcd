//! Value mapper: translates a logical percentage into a hardware command
//! byte by linear interpolation, with polarity inversion for dimmers whose
//! hardware treats a higher byte as a dimmer light.

use vstd::prelude::*;
use vstd::arithmetic::div_mod::{lemma_div_is_ordered, lemma_div_multiples_vanish};
use vstd::arithmetic::mul::lemma_mul_inequality;

verus! {

/// Linear interpolation of `value` from `[in_min, in_max]` into
/// `[out_min, out_max]`, integer-truncated.
pub open spec fn map_spec(value: int, in_min: int, in_max: int, out_min: int, out_max: int) -> int {
    out_min + (value - in_min) * (out_max - out_min) / (in_max - in_min)
}

/// The mapped value never leaves the output range.
proof fn lemma_map_spec_in_range(value: int, in_min: int, in_max: int, out_min: int, out_max: int)
    requires
        in_min <= value <= in_max,
        in_min < in_max,
        out_min <= out_max,
    ensures
        out_min <= map_spec(value, in_min, in_max, out_min, out_max) <= out_max,
{
    let num = (value - in_min) * (out_max - out_min);
    let den = in_max - in_min;
    lemma_mul_inequality(0, value - in_min, out_max - out_min);
    lemma_div_is_ordered(0, num, den);
    assert(0int / den == 0) by (nonlinear_arith)
        requires den > 0;
    lemma_mul_inequality(value - in_min, in_max - in_min, out_max - out_min);
    lemma_div_is_ordered(num, den * (out_max - out_min), den);
    lemma_div_multiples_vanish(out_max - out_min, den);
}

/// Maps `value` from the range `[in_min, in_max]` onto `[out_min, out_max]`
/// by linear interpolation, truncating the intermediate division.
pub fn map(value: u32, in_min: u32, in_max: u32, out_min: u32, out_max: u32) -> (r: u32)
    requires
        in_min <= value <= in_max,
        in_min < in_max,
        out_min <= out_max,
    ensures
        r == map_spec(value as int, in_min as int, in_max as int, out_min as int, out_max as int),
        out_min <= r <= out_max,
{
    proof {
        lemma_map_spec_in_range(
            value as int,
            in_min as int,
            in_max as int,
            out_min as int,
            out_max as int,
        );
    }
    let a = (value - in_min) as u64;
    let b = (out_max - out_min) as u64;
    proof {
        assert(a * b <= 0xFFFF_FFFFu64 * 0xFFFF_FFFFu64) by (nonlinear_arith)
            requires a <= 0xFFFF_FFFFu64 && b <= 0xFFFF_FFFFu64;
    }
    let num = a * b;
    let q = num / (in_max - in_min) as u64;
    out_min + q as u32
}

/// Polarity inversion: the serial dimmer hardware treats `255` as fully off,
/// so a brighter logical value must become a smaller command byte.
pub fn invert_and_map(value: u8) -> (r: u8)
    ensures
        r == 255 - value,
{
    255 - value
}

/// Monotonicity of the brightness mapping: on the percentage scale, a larger
/// brightness never maps to a smaller hardware value.
pub proof fn lemma_map_monotonic(b1: int, b2: int, out_min: int, out_max: int)
    requires
        0 <= b1 <= b2 <= 100,
        out_min <= out_max,
    ensures
        map_spec(b1, 0, 100, out_min, out_max) <= map_spec(b2, 0, 100, out_min, out_max),
{
    lemma_mul_inequality(b1, b2, out_max - out_min);
    lemma_div_is_ordered(b1 * (out_max - out_min), b2 * (out_max - out_min), 100);
}

/// The brightness mapping hits both ends of the hardware range exactly:
/// `0` maps to `out_min` and `100` maps to `out_max`.
pub proof fn lemma_map_endpoints(out_min: int, out_max: int)
    requires
        out_min <= out_max,
    ensures
        map_spec(0, 0, 100, out_min, out_max) == out_min,
        map_spec(100, 0, 100, out_min, out_max) == out_max,
{
    let d = out_max - out_min;
    assert(0 * d == 0) by (nonlinear_arith);
    assert(0int / 100int == 0) by (nonlinear_arith);
    lemma_div_multiples_vanish(d, 100);
    assert(100 * d == d * 100) by (nonlinear_arith);
}

} // verus!
