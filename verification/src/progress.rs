//! The arithmetic of progress: a transfer rate over a sampling window, and
//! the share of a declared size that has arrived.

use vstd::prelude::*;

verus! {

/// A rate is sampled once more than this many microseconds have passed
/// since the last sample.
pub const SAMPLE_WINDOW_US: u64 = 500_000;

/// `n`, or the largest `u64` where `n` is larger.
pub open spec fn saturated(n: int) -> u64 {
    if n > u64::MAX {
        u64::MAX
    } else if n < 0 {
        0
    } else {
        n as u64
    }
}

/// Bytes per second, rounded down, of `bytes` received within `elapsed_us`
/// microseconds. A window of no length counts as one microsecond.
pub open spec fn rate(bytes: u64, elapsed_us: u64) -> u64 {
    if elapsed_us == 0 {
        saturated(bytes * 1_000_000)
    } else {
        saturated(bytes * 1_000_000 / (elapsed_us as int))
    }
}

/// Thousandths of a percent, rounded down, that `downloaded` is of `size`;
/// unknown where no size was declared.
pub open spec fn millipercent(downloaded: u64, size: u64) -> Option<u64> {
    if size == 0 {
        None
    } else {
        Some(saturated(downloaded * 100_000 / (size as int)))
    }
}

/// Computes `rate`.
pub fn transfer_rate(bytes: u64, elapsed_us: u64) -> (r: u64)
    ensures
        r == rate(bytes, elapsed_us),
{
    let scaled: u128 = (bytes as u128) * 1_000_000;
    let quotient: u128 = if elapsed_us == 0 {
        scaled
    } else {
        scaled / (elapsed_us as u128)
    };
    if quotient > u64::MAX as u128 {
        u64::MAX
    } else {
        quotient as u64
    }
}

/// Computes `millipercent`.
pub fn share_of(downloaded: u64, size: u64) -> (r: Option<u64>)
    ensures
        r == millipercent(downloaded, size),
{
    if size == 0 {
        return None;
    }
    let quotient: u128 = (downloaded as u128) * 100_000 / (size as u128);
    if quotient > u64::MAX as u128 {
        Some(u64::MAX)
    } else {
        Some(quotient as u64)
    }
}

/// `a + b`, or the largest `u64` where the sum is larger.
pub fn saturating_sum(a: u64, b: u64) -> (r: u64)
    ensures
        r == saturated(a + b),
{
    if a > u64::MAX - b {
        u64::MAX
    } else {
        a + b
    }
}

} // verus!
