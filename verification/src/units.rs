//! Fixed-point arithmetic shared by the snapshot accessors and the series.
//!
//! A derived value is a `u64` in thousandths of its unit. Totals and
//! quotients that exceed `u64::MAX` saturate there; a quotient by zero has
//! no value.

use vstd::prelude::*;

verus! {

/// Thousandths per unit.
pub const MILLI: u64 = 1000;

/// Bytes per KiB.
pub const KIB: u64 = 1024;

/// Bytes per MiB.
pub const MIB: u64 = 1_048_576;

/// `x` clamped into the range of `u64`.
pub open spec fn saturate(x: int) -> u64 {
    if x < 0 {
        0
    } else if x > u64::MAX {
        u64::MAX
    } else {
        x as u64
    }
}

/// `num * scale / den`, rounded down and saturated; `None` when `den` is zero.
pub open spec fn scaled_ratio(num: int, scale: int, den: int) -> Option<u64> {
    if den == 0 {
        None
    } else {
        Some(saturate(num * scale / den))
    }
}

/// A byte count in thousandths of a MiB.
pub open spec fn milli_mib(bytes: int) -> u64 {
    saturate(bytes * 1000 / 1_048_576)
}

/// A byte count in whole KiB, expressed in thousandths.
pub open spec fn milli_kib(bytes: int) -> u64 {
    saturate((bytes / 1024) * 1000)
}

/// Clamping a running total before the next addition loses nothing, as long
/// as what is added is not negative.
pub proof fn lemma_saturate_absorbs(acc: int, x: int)
    requires
        0 <= acc,
        0 <= x,
    ensures
        saturate(saturate(acc) + x) == saturate(acc + x),
{
}

/// Sum of two counters, saturating at `u64::MAX`.
pub fn saturating_sum(a: u64, b: u64) -> (r: u64)
    ensures
        r == saturate(a + b),
{
    if b > u64::MAX - a {
        u64::MAX
    } else {
        a + b
    }
}

/// `num * scale / den`, rounded down and saturated at `u64::MAX`; `None`
/// when `den` is zero. The product is formed without overflow.
pub fn ratio(num: u64, scale: u64, den: u64) -> (r: Option<u64>)
    ensures
        r == scaled_ratio(num as int, scale as int, den as int),
{
    if den == 0 {
        return None;
    }
    assert(num as int * scale as int <= u64::MAX as int * u64::MAX as int) by (nonlinear_arith)
        requires
            0 <= num as int <= u64::MAX as int,
            0 <= scale as int <= u64::MAX as int,
    ;
    assert(0 <= num as int * scale as int) by (nonlinear_arith)
        requires
            0 <= num as int,
            0 <= scale as int,
    ;
    let product: u128 = (num as u128) * (scale as u128);
    let quotient: u128 = product / (den as u128);
    if quotient > u64::MAX as u128 {
        Some(u64::MAX)
    } else {
        Some(quotient as u64)
    }
}

/// A byte count converted to thousandths of a MiB.
pub fn bytes_to_milli_mib(bytes: u64) -> (r: u64)
    ensures
        r == milli_mib(bytes as int),
{
    match ratio(bytes, MILLI, MIB) {
        Some(v) => v,
        None => 0,
    }
}

/// A byte count converted to whole KiB, in thousandths.
pub fn bytes_to_milli_kib(bytes: u64) -> (r: u64)
    ensures
        r == milli_kib(bytes as int),
{
    let whole: u64 = bytes / KIB;
    assert(whole <= 18_014_398_509_481_983);
    whole * MILLI
}

} // verus!
