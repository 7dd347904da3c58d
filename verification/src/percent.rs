//! Percentages and a monitor's native values.
//!
//! A control reports values in a range `[min, max]` of its own. Callers see
//! it as a percentage. Both directions round down. A range with
//! `max <= min` is degenerate: the control is not there.

use vstd::prelude::*;

verus! {

/// `v` moved into `[low, high]`.
pub open spec fn clamped(v: int, low: int, high: int) -> int {
    if v < low {
        low
    } else if v > high {
        high
    } else {
        v
    }
}

/// The range stands for a control that is not there.
pub open spec fn degenerate(min: u16, max: u16) -> bool {
    max <= min
}

/// The percentage that a native value stands for; 0 in a degenerate range.
pub open spec fn percentage_of(min: u16, max: u16, raw: u16) -> int {
    if max <= min {
        0
    } else {
        (clamped(raw as int, min as int, max as int) - min) * 100 / (max - min)
    }
}

/// The native value that a percentage stands for in a range with
/// `min < max`. Percentages above 100 count as 100.
pub open spec fn raw_of(min: u16, max: u16, percentage: u8) -> int
    recommends
        min < max,
{
    min + clamped(percentage as int, 0, 100) * (max - min) / 100
}

/// A percentage lies between 0 and 100.
pub proof fn lemma_percentage_bounds(min: u16, max: u16, raw: u16)
    ensures
        0 <= percentage_of(min, max, raw) <= 100,
{
    if max > min {
        let x = clamped(raw as int, min as int, max as int) - min;
        let d = max - min;
        assert(0 <= x * 100 / d <= 100) by (nonlinear_arith)
            requires
                0 <= x <= d,
                d > 0,
        ;
    }
}

/// A native value computed from a percentage lies within the range.
pub proof fn lemma_raw_bounds(min: u16, max: u16, percentage: u8)
    requires
        min < max,
    ensures
        min <= raw_of(min, max, percentage) <= max,
{
    let p = clamped(percentage as int, 0, 100);
    let d = max - min;
    assert(0 <= p * d / 100 <= d) by (nonlinear_arith)
        requires
            0 <= p <= 100,
            d > 0,
    ;
}

/// The ends of the range are 0 and 100 percent, in both directions.
pub proof fn lemma_range_ends(min: u16, max: u16)
    requires
        min < max,
    ensures
        percentage_of(min, max, min) == 0,
        percentage_of(min, max, max) == 100,
        raw_of(min, max, 0) == min,
        raw_of(min, max, 100) == max,
{
    let d = max - min;
    assert(d * 100 / d == 100) by (nonlinear_arith)
        requires
            d > 0,
    ;
    assert(100int * d / 100 == d) by (nonlinear_arith);
    assert(0int * d / 100 == 0) by (nonlinear_arith);
    assert(0int * 100 / d == 0) by (nonlinear_arith)
        requires
            d > 0,
    ;
}

/// Reading a native value as a percentage and writing that percentage back
/// never raises the value, and lowers it by less than one hundredth of the
/// range plus one.
pub proof fn lemma_round_trip(min: u16, max: u16, raw: u16)
    requires
        min < max,
        min <= raw <= max,
    ensures
        0 <= percentage_of(min, max, raw) <= 100,
        raw_of(min, max, percentage_of(min, max, raw) as u8) <= raw,
        (raw - raw_of(min, max, percentage_of(min, max, raw) as u8)) * 100 < (max - min) + 100,
{
    lemma_percentage_bounds(min, max, raw);
    let x = raw - min;
    let d = max - min;
    let p = x * 100 / d;
    let y = p * d / 100;
    assert(p == percentage_of(min, max, raw));
    assert(clamped(p as u8 as int, 0, 100) == p);
    assert(p * d <= x * 100 && x * 100 < p * d + d) by (nonlinear_arith)
        requires
            p == x * 100 / d,
            d > 0,
            x >= 0,
    ;
    assert(y * 100 <= p * d && p * d < y * 100 + 100) by (nonlinear_arith)
        requires
            y == p * d / 100,
            p >= 0,
            d > 0,
    ;
}

/// In a range of at most one hundred steps, reading a native value as a
/// percentage and writing it back gives the value or the one below it.
pub proof fn lemma_round_trip_within_one(min: u16, max: u16, raw: u16)
    requires
        min < max,
        max - min <= 100,
        min <= raw <= max,
    ensures
        raw - 1 <= raw_of(min, max, percentage_of(min, max, raw) as u8) <= raw,
{
    lemma_round_trip(min, max, raw);
}

/// Writing a percentage and reading it back gives the percentage or the one
/// below it, in a range of at least one hundred steps.
pub proof fn lemma_percentage_round_trip(min: u16, max: u16, percentage: u8)
    requires
        min < max,
        max - min >= 100,
        percentage <= 100,
    ensures
        min <= raw_of(min, max, percentage) <= max,
        percentage - 1 <= percentage_of(min, max, raw_of(min, max, percentage) as u16)
            <= percentage,
{
    lemma_raw_bounds(min, max, percentage);
    let d = max - min;
    let p = percentage as int;
    let y = p * d / 100;
    let q = y * 100 / d;
    assert(y * 100 <= p * d && p * d < y * 100 + 100) by (nonlinear_arith)
        requires
            y == p * d / 100,
            p >= 0,
            d > 0,
    ;
    assert(0 <= y <= d);
    assert(q * d <= y * 100 && y * 100 < q * d + d) by (nonlinear_arith)
        requires
            q == y * 100 / d,
            d > 0,
            y >= 0,
    ;
    assert(q <= p && p - 1 <= q) by (nonlinear_arith)
        requires
            q * d <= y * 100,
            y * 100 <= p * d,
            p * d < y * 100 + 100,
            y * 100 < q * d + d,
            d >= 100,
    ;
    assert(clamped(raw_of(min, max, percentage) as u16 as int, min as int, max as int) - min
        == y);
}

/// The percentage that the native value `raw` stands for.
///
/// The value is first moved into the range. A degenerate range gives 0.
pub fn to_percentage(min: u16, max: u16, raw: u16) -> (p: u8)
    ensures
        p == percentage_of(min, max, raw),
        p <= 100,
        degenerate(min, max) ==> p == 0,
{
    if max <= min {
        return 0;
    }
    let current: u16 = if raw < min {
        min
    } else if raw > max {
        max
    } else {
        raw
    };
    let x: u32 = (current - min) as u32;
    let d: u32 = (max - min) as u32;
    proof {
        lemma_percentage_bounds(min, max, raw);
    }
    let p: u32 = x * 100 / d;
    p as u8
}

/// The native value that `percentage` stands for, or `None` in a degenerate
/// range. Percentages above 100 count as 100.
pub fn to_raw(min: u16, max: u16, percentage: u8) -> (r: Option<u16>)
    ensures
        degenerate(min, max) <==> r.is_none(),
        r matches Some(raw) ==> raw == raw_of(min, max, percentage) && min <= raw <= max,
{
    if max <= min {
        return None;
    }
    let p: u32 = if percentage > 100 {
        100
    } else {
        percentage as u32
    };
    let d: u32 = (max - min) as u32;
    proof {
        lemma_raw_bounds(min, max, percentage);
        assert(p * d <= 100 * 65535) by (nonlinear_arith)
            requires
                0 <= p <= 100,
                0 <= d <= 65535,
        ;
    }
    let step: u32 = p * d / 100;
    Some((min as u32 + step) as u16)
}

} // verus!
