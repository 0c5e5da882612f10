//! The delay before pending payments are forwarded. It is drawn at random so
//! that timing tells an observer less about where this node sits on a route.

use crate::trusted::random_between;
use vstd::prelude::*;

verus! {

/// The end of the range that the delay is drawn from: five times the minimum,
/// or the largest number of milliseconds that can be held if that is less.
pub open spec fn delay_limit(min_millis: u64) -> int {
    if 5 * min_millis <= u64::MAX {
        5 * min_millis
    } else {
        u64::MAX as int
    }
}

/// Whether `delay` may be drawn for a minimum: at least the minimum and short
/// of the limit, or the minimum itself where nothing lies between them.
pub open spec fn delay_allowed(min_millis: u64, delay: u64) -> bool {
    if min_millis < delay_limit(min_millis) {
        min_millis <= delay < delay_limit(min_millis)
    } else {
        delay == min_millis
    }
}

/// Draws the delay, in milliseconds, for a minimum that the protocol engine gave.
pub fn forwarding_delay(min_millis: u64) -> (delay: u64)
    ensures
        delay_allowed(min_millis, delay),
{
    let limit: u64 = if min_millis <= u64::MAX / 5 {
        min_millis * 5
    } else {
        u64::MAX
    };
    if min_millis < limit {
        random_between(min_millis, limit)
    } else {
        min_millis
    }
}

} // verus!
