//! Mapping a value from one numeric range onto another, and resolving
//! range bounds to concrete endpoints.

use vstd::prelude::*;

verus! {

/// Division as the machine performs it on signed values: the quotient
/// truncates toward zero.
pub open spec fn spec_trunc_div(x: int, d: int) -> int {
    if x == 0 {
        0
    } else if x > 0 && d > 0 {
        x / d
    } else if x < 0 && d < 0 {
        (x * -1) / (d * -1)
    } else if x < 0 {
        ((x * -1) / d) * -1
    } else {
        (x / (d * -1)) * -1
    }
}

/// What `map_range` computes: where `source_value` sits in `from_range`,
/// transported linearly onto `to_range`. Either range may be ascending or
/// descending and the value may lie outside the source range; the division
/// truncates toward zero as machine division does.
pub open spec fn spec_map_range(source_value: i64, from_range: (i64, i64), to_range: (i64, i64))
    -> int {
    to_range.0 + spec_trunc_div((source_value - from_range.0) * (to_range.1 - to_range.0),
        from_range.1 - from_range.0)
}

/// Map `source_value` from `from_range` linearly onto `to_range`. The
/// source range must not be empty (the machine would divide by zero); the
/// remaining bounds only keep each intermediate value within the machine
/// word, exactly where the computation would otherwise overflow.
pub fn map_range(source_value: i64, from_range: (i64, i64), to_range: (i64, i64)) -> (r: i64)
    requires
        from_range.0 != from_range.1,
        i64::MIN <= source_value - from_range.0 <= i64::MAX,
        i64::MIN <= to_range.1 - to_range.0 <= i64::MAX,
        i64::MIN <= from_range.1 - from_range.0 <= i64::MAX,
        i64::MIN <= (source_value - from_range.0) * (to_range.1 - to_range.0) <= i64::MAX,
        i64::MIN <= spec_trunc_div((source_value - from_range.0) * (to_range.1 - to_range.0),
            from_range.1 - from_range.0) <= i64::MAX,
        i64::MIN <= spec_map_range(source_value, from_range, to_range) <= i64::MAX,
    ensures
        r == spec_map_range(source_value, from_range, to_range),
{
    let numerator = (source_value - from_range.0) * (to_range.1 - to_range.0);
    let denominator = from_range.1 - from_range.0;
    let quotient = numerator.checked_div(denominator).unwrap();
    to_range.0 + quotient
}

/// `map_range` over 32-bit values, exactly as computing through 64-bit
/// signed arithmetic and casting the result back would behave: the result
/// is the 64-bit value truncated to 32 bits.
pub fn map_range_u32(source_value: u32, from_range: (u32, u32), to_range: (u32, u32)) -> (r: u32)
    requires
        from_range.0 != from_range.1,
        i64::MIN <= (source_value - from_range.0) * (to_range.1 - to_range.0) <= i64::MAX,
        i64::MIN <= spec_trunc_div((source_value - from_range.0) * (to_range.1 - to_range.0),
            from_range.1 - from_range.0) <= i64::MAX,
        i64::MIN <= spec_map_range(source_value as i64, (from_range.0 as i64, from_range.1 as i64),
            (to_range.0 as i64, to_range.1 as i64)) <= i64::MAX,
    ensures
        r == spec_map_range(source_value as i64, (from_range.0 as i64, from_range.1 as i64), (
        to_range.0 as i64, to_range.1 as i64)) as u32,
{
    let r = map_range(source_value as i64, (from_range.0 as i64, from_range.1 as i64), (
        to_range.0 as i64,
        to_range.1 as i64,
    ));
    r as u32
}

/// One endpoint of a range: included, excluded, or absent.
#[derive(Clone, Copy, Debug, PartialEq, Eq, Structural)]
pub enum RangeBound<T> {
    Included(T),
    Excluded(T),
    Unbounded,
}

/// What `get_range_bounds` resolves: an excluded start stands for itself
/// and any other start falls back to `lower_unbounded`; an endpoint with a
/// value stands for itself and an unbounded end falls back to
/// `upper_unbounded`.
pub open spec fn spec_range_bounds<T>(
    range: (RangeBound<T>, RangeBound<T>),
    lower_unbounded: T,
    upper_unbounded: T,
) -> (T, T) {
    let start = match range.0 {
        RangeBound::Excluded(v) => v,
        _ => lower_unbounded,
    };
    let end = match range.1 {
        RangeBound::Included(v) => v,
        RangeBound::Excluded(v) => v,
        RangeBound::Unbounded => upper_unbounded,
    };
    (start, end)
}

/// Resolve a pair of range bounds to concrete endpoints, substituting the
/// given fallbacks where a bound carries no value.
pub fn get_range_bounds<T: Copy>(
    range: (RangeBound<T>, RangeBound<T>),
    lower_unbounded: T,
    upper_unbounded: T,
) -> (r: (T, T))
    ensures
        r == spec_range_bounds(range, lower_unbounded, upper_unbounded),
{
    let start = match range.0 {
        RangeBound::Excluded(v) => v,
        _ => lower_unbounded,
    };
    let end = match range.1 {
        RangeBound::Included(v) => v,
        RangeBound::Excluded(v) => v,
        RangeBound::Unbounded => upper_unbounded,
    };
    (start, end)
}

} // verus!
