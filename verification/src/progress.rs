//! Progress accounting. Tasks report how many pixels they finished; the
//! running total is compared against the pixel count of the whole image and
//! the caller's callback fires whenever the total crosses another 1/128 of
//! it, or once the total comes within one percent of done. The total never
//! decreases, so the reported fraction is monotonic.

use vstd::prelude::*;

verus! {

/// The whole image is split into this many progress notches.
pub const PROGRESS_NOTCHES: u64 = 128;

/// Absolute difference of two mathematical integers.
pub open spec fn spec_abs_diff(a: int, b: int) -> int {
    if a >= b {
        a - b
    } else {
        b - a
    }
}

/// The total is within one percent of the whole image.
pub open spec fn spec_near_done(total: int, denom: int) -> bool {
    100 * spec_abs_diff(denom, total) / denom < 1
}

/// Whether a report that moves the total from `total` to `total + add` out
/// of `denom` pixels should invoke the progress callback: it crossed a
/// 1/128 notch, or it is within one percent of completion.
pub open spec fn spec_progress_fires(total: int, add: int, denom: int) -> bool {
    let quantum = denom / (PROGRESS_NOTCHES as int);
    total / quantum != (total + add) / quantum || spec_near_done(total + add, denom)
}

/// Add one task's pixel count to the running total; the returned flag says
/// whether to invoke the progress callback. The new total never shrinks.
pub fn progress_update(total: u64, add: u64, denom: u64) -> (r: (u64, bool))
    requires
        denom >= PROGRESS_NOTCHES,
        denom <= u64::MAX / 100,
        total + add <= u64::MAX / 100,
    ensures
        r.0 == total + add,
        r.0 >= total,
        r.1 == spec_progress_fires(total as int, add as int, denom as int),
{
    let quantum: u64 = denom / PROGRESS_NOTCHES;
    let new_total: u64 = total + add;
    let before: u64 = total / quantum;
    let after: u64 = new_total / quantum;
    let diff: u64 = if denom >= new_total {
        denom - new_total
    } else {
        new_total - denom
    };
    (new_total, before != after || 100 * diff / denom < 1)
}

} // verus!
