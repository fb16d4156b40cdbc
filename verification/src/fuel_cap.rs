//! Fuel caps, float order on bit patterns, and the min-select that composes caps.
//!
//! A cap is a fuel flow held as the IEEE-754 bit pattern of an `f64`. The comparisons here are
//! the float comparisons, stated on the patterns: a NaN is never below, above or equal to
//! anything, and the two zeros are equal.
use vstd::prelude::*;

verus! {

/// The bit pattern of `+inf`: the answer when no leg is armed.
pub const CAP_NONE_BITS: u64 = 0x7FF0_0000_0000_0000u64;

/// The bit pattern of `1e-9`, the floor a sensed cap's fuel is read at.
pub const FUEL_FLOOR_BITS: u64 = 0x3E11_2E0B_E826_D695u64;

/// The sign bit of an `f64`.
pub const SIGN_BIT: u64 = 0x8000_0000_0000_0000u64;

/// `b` is the pattern of a NaN: every exponent bit set and a non-zero fraction.
pub open spec fn is_nan_bits(b: u64) -> bool {
    b & 0x7FFF_FFFF_FFFF_FFFFu64 > CAP_NONE_BITS
}

/// The position of a non-NaN pattern on the real line, as an integer with the float's order:
/// the magnitude bits, negated when the sign bit is set (so both zeros sit at `0`).
pub open spec fn float_key(b: u64) -> int {
    if b < SIGN_BIT {
        b as int
    } else {
        -((b - SIGN_BIT) as int)
    }
}

/// The float `a < b` on patterns.
pub open spec fn float_lt(a: u64, b: u64) -> bool {
    !is_nan_bits(a) && !is_nan_bits(b) && float_key(a) < float_key(b)
}

/// The float `a <= b` on patterns.
pub open spec fn float_le(a: u64, b: u64) -> bool {
    !is_nan_bits(a) && !is_nan_bits(b) && float_key(a) <= float_key(b)
}

/// The float `a == b` on patterns.
pub open spec fn float_eq(a: u64, b: u64) -> bool {
    !is_nan_bits(a) && !is_nan_bits(b) && float_key(a) == float_key(b)
}

fn is_nan(b: u64) -> (r: bool)
    ensures
        r == is_nan_bits(b),
{
    b & 0x7FFF_FFFF_FFFF_FFFFu64 > CAP_NONE_BITS
}

fn key(b: u64) -> (k: i128)
    ensures
        k == float_key(b),
{
    if b < SIGN_BIT {
        b as i128
    } else {
        -((b - SIGN_BIT) as i128)
    }
}

/// The float `a < b`.
pub fn lt_bits(a: u64, b: u64) -> (r: bool)
    ensures
        r == float_lt(a, b),
{
    !is_nan(a) && !is_nan(b) && key(a) < key(b)
}

/// The float `a <= b`.
pub fn le_bits(a: u64, b: u64) -> (r: bool)
    ensures
        r == float_le(a, b),
{
    !is_nan(a) && !is_nan(b) && key(a) <= key(b)
}

/// The float `a == b`.
pub fn eq_bits(a: u64, b: u64) -> (r: bool)
    ensures
        r == float_eq(a, b),
{
    !is_nan(a) && !is_nan(b) && key(a) == key(b)
}

/// Two caps composed the way the plant composes them: the first unless the second lies strictly
/// below it (so the first of equals, and the first when either is a NaN).
pub open spec fn min_select(first: u64, second: u64) -> u64 {
    if float_lt(second, first) {
        second
    } else {
        first
    }
}

/// The min-select of two caps.
pub fn select_min(first: u64, second: u64) -> (out: u64)
    ensures
        out == min_select(first, second),
{
    if lt_bits(second, first) {
        second
    } else {
        first
    }
}

/// The min-select answers one of its two caps and keeps the first unless the second is strictly
/// lower; on two non-NaN caps it lies at or below both.
pub proof fn min_select_is_the_lower_cap(first: u64, second: u64)
    ensures
        min_select(first, second) == first || min_select(first, second) == second,
        min_select(first, second) == first <==> !float_lt(second, first),
        !is_nan_bits(first) && !is_nan_bits(second) ==> float_le(min_select(first, second), first)
            && float_le(min_select(first, second), second),
{
}

/// The floor a sensed cap's fuel is read at, as a spec value: `max(1e-9, x)` with the float
/// maximum's NaN rule (a NaN argument yields the other one).
pub open spec fn spec_fuel_floor(x: u64) -> u64 {
    if float_lt(FUEL_FLOOR_BITS, x) {
        x
    } else {
        FUEL_FLOOR_BITS
    }
}

/// `max(1e-9, x)` on the pattern of `x`: `x` above the floor, the floor otherwise (at or below it,
/// negative, or a NaN).
pub fn fuel_floor(x: u64) -> (y: u64)
    ensures
        y == spec_fuel_floor(x),
{
    if lt_bits(FUEL_FLOOR_BITS, x) {
        x
    } else {
        FUEL_FLOOR_BITS
    }
}

} // verus!
