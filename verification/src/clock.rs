//! Wall-clock time, as far as pacing needs it.
//!
//! Three activities share one control loop: executing instructions,
//! counting the timers down and showing the screen. Each of them is due
//! when the time since it last ran has reached its own interval.

use std::time::{Duration, Instant};
use vstd::prelude::*;

verus! {

/// `std::time::Instant`, a point in time on the monotonic clock. Nothing is
/// known of what a value holds.
#[verifier::external_type_specification]
#[verifier::external_body]
pub struct ExInstant(Instant);

/// `std::time::Instant::now`: the current point in time. Nothing is claimed
/// of the result.
pub assume_specification[ Instant::now ]() -> (now: Instant)
;

/// `std::time::Instant::elapsed`: the time that has passed since `instant`.
/// Nothing is claimed of the result.
pub assume_specification[ Instant::elapsed ](instant: &Instant) -> (elapsed: Duration)
;

/// `std::time::Duration::as_micros`: the whole microseconds in `duration`.
/// Nothing is claimed of the result.
pub assume_specification[ Duration::as_micros ](duration: &Duration) -> (micros: u128)
;

/// The number of microseconds in a second.
pub const MICROS_PER_SECOND: u128 = 1_000_000;

/// Whether an activity that runs `per_second` times a second is due when
/// `elapsed_us` microseconds have passed since it last ran: whether these
/// are at least the `per_second`-th part of a second. An activity that
/// runs zero times a second is never due.
pub open spec fn due_after(elapsed_us: u128, per_second: u64) -> bool {
    elapsed_us * per_second >= MICROS_PER_SECOND
}

/// Whether an activity that runs `per_second` times a second is due when
/// `elapsed_us` microseconds have passed since it last ran.
pub fn is_due(elapsed_us: u128, per_second: u64) -> (due: bool)
    ensures
        due == due_after(elapsed_us, per_second),
{
    if per_second == 0 {
        return false;
    }
    if elapsed_us >= MICROS_PER_SECOND {
        // a whole second is enough at any rate
        assert(elapsed_us * per_second >= MICROS_PER_SECOND) by (nonlinear_arith)
            requires
                elapsed_us >= MICROS_PER_SECOND,
                per_second >= 1,
        ;
        return true;
    }
    assert(elapsed_us * per_second <= 1_000_000 * 0x1_0000_0000_0000_0000) by (nonlinear_arith)
        requires
            elapsed_us < 1_000_000,
            per_second < 0x1_0000_0000_0000_0000,
    ;
    elapsed_us * (per_second as u128) >= MICROS_PER_SECOND
}

} // verus!
