//! Gates in time: the spacing between two calls of one operation, and the
//! boundary of the lock.

use crate::arith::fits_i64;
use vstd::prelude::*;

verus! {

/// Whether `window` seconds have passed between `since` and `now`, where the
/// time between the two is representable.
pub open spec fn window_elapsed(since: i64, now: i64, window: i64) -> Option<bool> {
    if fits_i64(now - since) {
        Some(now - since >= window)
    } else {
        None
    }
}

/// Whether `window` seconds have passed between `since` and `now`. `None`
/// where the time between the two is not representable in 64 bits.
pub fn cooldown_elapsed(since: i64, now: i64, window: i64) -> (elapsed: Option<bool>)
    ensures
        elapsed == window_elapsed(since, now, window),
{
    match now.checked_sub(since) {
        Some(seconds) => Some(seconds >= window),
        None => None,
    }
}

/// Whether a position that matures at `unlock_at` has matured at `now`. The
/// second of maturity itself counts as matured.
pub fn has_matured(unlock_at: i64, now: i64) -> (matured: bool)
    ensures
        matured == (now >= unlock_at),
{
    now >= unlock_at
}

} // verus!
