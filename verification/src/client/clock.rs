use vstd::prelude::*;

use crate::instant::{trunc_rem, UtcInstant};

verus! {

/// The time left until a target, in hours, minutes and seconds. Each part
/// keeps the sign of the span, so a target in the past shows negative parts.
#[derive(Clone, Copy, Debug, Default, PartialEq, Eq, Structural)]
pub struct TimeRemaining {
    pub hours: i64,
    pub minutes: i64,
    pub seconds: i64,
}

/// `x % 60` as machine integers compute it: the remainder keeps the sign of `x`.
fn rem_60(x: i64) -> (r: i64)
    ensures
        r == trunc_rem(x as int, 60),
        -60 < r < 60,
{
    if x >= 0 {
        ((x as u64) % 60) as i64
    } else {
        let m: u64 = (-(x as i128)) as u64;
        let r: u64 = m % 60;
        proof {
            assert(-(x as int) == m);
        }
        -(r as i64)
    }
}

impl TimeRemaining {
    /// The time from `now` until `target`: whole hours, and the minutes and
    /// seconds past them.
    pub fn until(target: &UtcInstant, now: &UtcInstant) -> (remaining: TimeRemaining)
        requires
            target.valid(),
            now.valid(),
        ensures
            remaining.hours == target.spec_hours_since(*now),
            remaining.minutes == trunc_rem(target.spec_minutes_since(*now), 60),
            remaining.seconds == trunc_rem(target.spec_seconds_since(*now), 60),
    {
        TimeRemaining {
            hours: target.hours_since(now),
            minutes: rem_60(target.minutes_since(now)),
            seconds: rem_60(target.seconds_since(now)),
        }
    }
}

} // verus!
