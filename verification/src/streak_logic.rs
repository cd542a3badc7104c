use vstd::prelude::*;

use crate::instant::{trunc_div, UtcInstant, NANOS_PER_SEC, SECS_PER_DAY};
use crate::rewards_program::{
    bucket_of, first_streak_of, law_bucket_monotone, law_bucket_table, law_first_streak_of_bucket,
    mining_ratio_index_of, threshold_table, RewardsProgram, BUCKET_COUNT,
};

verus! {

/// What a member's streak looks like at a given moment. The mining ratio that
/// goes with it is a function of `bucket` alone.
#[derive(Clone, Copy, Debug, Default, PartialEq, Eq, Structural)]
pub struct StreakState {
    pub streak_missed: i32,
    pub streak_current: i32,
    pub streak_bucket: i32,
    pub bucket: i32,
    pub days_since_last_scan: i32,
}

/// A member's recorded streak and the moment of their last scan.
#[derive(Clone, Copy, Debug)]
pub struct StreakLogic {
    pub streak_current: i32,
    pub streak_bucket: i32,
    pub last_scan: Option<UtcInstant>,
}

/// The state of a member who never scanned.
pub open spec fn initial_streak_state() -> StreakState {
    StreakState {
        streak_missed: 0,
        streak_current: 0,
        streak_bucket: 0,
        bucket: 0,
        days_since_last_scan: 0,
    }
}

/// The bucket a member falls back to after missing `missed` days: one bucket
/// down per missed day, never below bucket 0.
pub open spec fn penalty_bucket(streak_bucket: int, missed: int) -> int {
    let b = bucket_of(streak_bucket) - missed;
    if b < 0 {
        0
    } else {
        b
    }
}

/// Whole days from midnight of the day of `last` to `at`.
pub open spec fn days_since_scan_day(last: UtcInstant, at: UtcInstant) -> int {
    at.spec_days_since(last.spec_day_start())
}

/// The streak state for `days` days since the day of the last scan.
pub open spec fn streak_state_after(streak_current: int, streak_bucket: int, days: int) -> StreakState {
    if days == 0 {
        StreakState {
            streak_missed: 0,
            streak_current: streak_current as i32,
            streak_bucket: streak_bucket as i32,
            bucket: bucket_of(streak_bucket) as i32,
            days_since_last_scan: 0,
        }
    } else if days == 1 {
        StreakState {
            streak_missed: 0,
            streak_current: (streak_current + 1) as i32,
            streak_bucket: (streak_bucket + 1) as i32,
            bucket: bucket_of(streak_bucket + 1) as i32,
            days_since_last_scan: 1,
        }
    } else {
        let b = penalty_bucket(streak_bucket, days - 1);
        StreakState {
            streak_missed: (days - 1) as i32,
            streak_current: 0,
            streak_bucket: first_streak_of(b) as i32,
            bucket: b as i32,
            days_since_last_scan: days as i32,
        }
    }
}

impl StreakLogic {
    pub fn new(streak_current: i32, streak_bucket: i32, last_scan: Option<UtcInstant>) -> (logic: Self)
        ensures
            logic.streak_current == streak_current,
            logic.streak_bucket == streak_bucket,
            logic.last_scan == last_scan,
    {
        StreakLogic { streak_bucket, streak_current, last_scan }
    }

    /// The inputs on which the evaluation stays within the integer range and
    /// the bucket table: the instants are representable, a streak that grows
    /// is below the maximum, and a penalty lands inside the table.
    pub open spec fn evaluate_defined(self, at: UtcInstant) -> bool {
        &&& at.valid()
        &&& match self.last_scan {
            None => true,
            Some(last) => {
                let days = days_since_scan_day(last, at);
                &&& last.valid()
                &&& days == 1 ==> self.streak_current < i32::MAX && self.streak_bucket < i32::MAX
                &&& days != 0 && days != 1 ==> penalty_bucket(self.streak_bucket as int, days - 1)
                    < BUCKET_COUNT
            },
        }
    }

    /// The streak state at `at`.
    pub open spec fn spec_evaluate(self, at: UtcInstant) -> StreakState {
        match self.last_scan {
            None => initial_streak_state(),
            Some(last) => streak_state_after(
                self.streak_current as int,
                self.streak_bucket as int,
                days_since_scan_day(last, at),
            ),
        }
    }

    /// Evaluates the streak at `at`: a scan on the day of the last scan keeps
    /// the streak, a scan on the next day extends it by one, and every further
    /// day costs a bucket and resets the current streak.
    pub fn evaluate(&self, at: &UtcInstant) -> (state: StreakState)
        requires
            self.evaluate_defined(*at),
        ensures
            state == self.spec_evaluate(*at),
    {
        match self.last_scan {
            None => StreakState {
                streak_missed: 0,
                streak_current: 0,
                streak_bucket: 0,
                bucket: 0,
                days_since_last_scan: 0,
            },
            Some(last) => {
                let start = last.day_start();
                let days = at.days_since(&start) as i32;
                if days == 0 {
                    let bucket = RewardsProgram::find_bucket(non_negative(self.streak_bucket));
                    StreakState {
                        streak_current: self.streak_current,
                        streak_bucket: self.streak_bucket,
                        streak_missed: 0,
                        bucket: bucket as i32,
                        days_since_last_scan: days,
                    }
                } else if days == 1 {
                    let bucket = RewardsProgram::find_bucket(non_negative(self.streak_bucket + 1));
                    StreakState {
                        streak_current: self.streak_current + 1,
                        streak_bucket: self.streak_bucket + 1,
                        streak_missed: 0,
                        bucket: bucket as i32,
                        days_since_last_scan: days,
                    }
                } else {
                    let streak_missed = days - 1;
                    // find our current bucket and compensate for days missed
                    let current = RewardsProgram::find_bucket(non_negative(self.streak_bucket)) as i32;
                    let lowered = current - streak_missed;
                    let bucket = if lowered < 0 {
                        0
                    } else {
                        lowered
                    };
                    // realign the streak to the beginning of the bucket
                    let streak_bucket = RewardsProgram::find_streak_bucket(bucket as u32);
                    StreakState {
                        streak_current: 0,
                        streak_missed,
                        streak_bucket: streak_bucket as i32,
                        bucket,
                        days_since_last_scan: days,
                    }
                }
            },
        }
    }
}

/// A streak as a day count; a negative streak counts as none.
fn non_negative(streak: i32) -> (days: u32)
    ensures
        bucket_of(days as int) == bucket_of(streak as int),
        streak >= 0 ==> days == streak,
{
    if streak < 0 {
        0
    } else {
        streak as u32
    }
}

/// The reported bucket is always the bucket of the reported streak.
pub proof fn law_bucket_matches_streak_bucket(logic: StreakLogic, at: UtcInstant)
    requires
        logic.evaluate_defined(at),
    ensures
        logic.spec_evaluate(at).bucket == bucket_of(logic.spec_evaluate(at).streak_bucket as int),
{
    if let Some(last) = logic.last_scan {
        let days = days_since_scan_day(last, at);
        if days != 0 && days != 1 {
            law_first_streak_of_bucket(penalty_bucket(logic.streak_bucket as int, days - 1));
        }
    }
}

/// Missing days resets the current streak and lowers the bucket by one per
/// missed day (down to bucket 0); the days since the last scan are then one
/// more than the days missed.
pub proof fn law_missed_days_penalty(logic: StreakLogic, at: UtcInstant)
    requires
        logic.evaluate_defined(at),
        logic.spec_evaluate(at).streak_missed > 0,
    ensures
        logic.spec_evaluate(at).streak_current == 0,
        logic.spec_evaluate(at).bucket == penalty_bucket(
            logic.streak_bucket as int,
            logic.spec_evaluate(at).streak_missed as int,
        ),
        logic.spec_evaluate(at).days_since_last_scan == logic.spec_evaluate(at).streak_missed + 1,
        logic.spec_evaluate(at).bucket <= bucket_of(logic.streak_bucket as int),
{
}

/// Only the day of the last scan counts, not its time of day.
pub proof fn law_time_of_last_scan_irrelevant(
    streak_current: i32,
    streak_bucket: i32,
    last1: UtcInstant,
    last2: UtcInstant,
    at: UtcInstant,
)
    requires
        last1.day() == last2.day(),
    ensures
        (StreakLogic { streak_current, streak_bucket, last_scan: Some(last1) }).spec_evaluate(at)
            == (StreakLogic { streak_current, streak_bucket, last_scan: Some(last2) }).spec_evaluate(
            at,
        ),
{
}

/// From the day of the last scan on, the days since the last scan are the
/// number of UTC calendar days between the two (a leap second aside).
pub proof fn law_days_are_calendar_days(last: UtcInstant, at: UtcInstant)
    requires
        last.valid(),
        at.valid(),
        at.day() >= last.day(),
        at.nanos < NANOS_PER_SEC,
    ensures
        days_since_scan_day(last, at) == at.day() - last.day(),
{
    let start = last.spec_day_start();
    let x = at.secs - last.day() * SECS_PER_DAY;
    let n = x * NANOS_PER_SEC + at.nanos;
    let d = at.day() - last.day();
    let r = at.second_of_day();
    vstd::arithmetic::div_mod::lemma_fundamental_div_mod(at.secs as int, SECS_PER_DAY as int);
    assert(x == d * SECS_PER_DAY + r);
    assert(0 <= r < SECS_PER_DAY);
    assert(start.second_of_day() == 0) by {
        vstd::arithmetic::div_mod::lemma_mod_multiples_basic(last.day(), SECS_PER_DAY as int);
    }
    assert(at.spec_nanos_since(start) == n);
    lemma_split_day_nanos(x, d, r, at.nanos as int, n);
    vstd::arithmetic::div_mod::lemma_fundamental_div_mod_converse(
        n,
        SECS_PER_DAY * NANOS_PER_SEC,
        d,
        r * NANOS_PER_SEC + at.nanos,
    );
    assert(trunc_div(n, SECS_PER_DAY * NANOS_PER_SEC) == d);
}

/// A scan on the day after the day of the last scan extends the streak by
/// one day; one on the same day keeps it; one two or more days later counts
/// every day in between as missed.
pub proof fn law_streak_by_calendar_day(logic: StreakLogic, last: UtcInstant, at: UtcInstant)
    requires
        logic.last_scan == Some(last),
        logic.evaluate_defined(at),
        at.day() >= last.day(),
        at.nanos < NANOS_PER_SEC,
    ensures
        at.day() == last.day() ==> logic.spec_evaluate(at).streak_current == logic.streak_current
            && logic.spec_evaluate(at).streak_bucket == logic.streak_bucket
            && logic.spec_evaluate(at).streak_missed == 0,
        at.day() == last.day() + 1 ==> logic.spec_evaluate(at).streak_current
            == logic.streak_current + 1 && logic.spec_evaluate(at).streak_bucket
            == logic.streak_bucket + 1 && logic.spec_evaluate(at).streak_missed == 0,
        at.day() >= last.day() + 2 ==> logic.spec_evaluate(at).streak_current == 0
            && logic.spec_evaluate(at).streak_missed == at.day() - last.day() - 1,
{
    law_days_are_calendar_days(last, at);
}

/// Each missed day costs exactly one bucket and nothing more: after `m >= 1`
/// missed days, a recorded streak in table bucket `b` (the bucket whose
/// threshold it exceeds and whose next threshold it does not) is reported in
/// bucket `max(0, b - m)`, with the current streak reset to 0, the streak
/// realigned to the first streak of that bucket (one past its threshold, 0
/// for bucket 0), and one day more since the last scan than days missed.
pub proof fn law_each_missed_day_costs_one_bucket(logic: StreakLogic, at: UtcInstant, b: int)
    requires
        logic.evaluate_defined(at),
        logic.spec_evaluate(at).streak_missed >= 1,
        0 <= b <= 10,
        b == 0 || threshold_table()[b] < logic.streak_bucket,
        b == 10 || logic.streak_bucket <= threshold_table()[b + 1],
    ensures
        logic.spec_evaluate(at).bucket == (if b - logic.spec_evaluate(at).streak_missed >= 0 {
            b - logic.spec_evaluate(at).streak_missed
        } else {
            0
        }),
        logic.spec_evaluate(at).streak_current == 0,
        logic.spec_evaluate(at).days_since_last_scan == logic.spec_evaluate(at).streak_missed + 1,
        logic.spec_evaluate(at).bucket == 0 ==> logic.spec_evaluate(at).streak_bucket == 0,
        logic.spec_evaluate(at).bucket > 0 ==> logic.spec_evaluate(at).streak_bucket
            == threshold_table()[logic.spec_evaluate(at).bucket as int] + 1,
{
    law_bucket_table(logic.streak_bucket as int);
    let last = logic.last_scan->0;
    let d = days_since_scan_day(last, at);
    lemma_days_since_bounded(last, at);
    let p = penalty_bucket(logic.streak_bucket as int, d - 1);
    law_first_streak_of_bucket(p);
}

/// Once a day has passed since the last scan, waiting longer never raises
/// the bucket (nor the entry of the mining-ratio table that goes with it),
/// and never lowers the days since the last scan or the days missed.
pub proof fn law_waiting_never_raises_bucket(logic: StreakLogic, at1: UtcInstant, at2: UtcInstant)
    requires
        logic.last_scan is Some,
        logic.evaluate_defined(at1),
        logic.evaluate_defined(at2),
        at1.not_after(at2),
        logic.spec_evaluate(at1).days_since_last_scan >= 1,
    ensures
        logic.spec_evaluate(at2).days_since_last_scan >= logic.spec_evaluate(
            at1,
        ).days_since_last_scan,
        logic.spec_evaluate(at2).streak_missed >= logic.spec_evaluate(at1).streak_missed,
        logic.spec_evaluate(at2).bucket <= logic.spec_evaluate(at1).bucket,
        mining_ratio_index_of(logic.spec_evaluate(at2).bucket as int) <= mining_ratio_index_of(
            logic.spec_evaluate(at1).bucket as int,
        ),
{
    let last = logic.last_scan->0;
    let sb = logic.streak_bucket as int;
    let d1 = days_since_scan_day(last, at1);
    if d1 < 1 {
        // a day count below 1 is reported as it is
        lemma_days_since_bounded(last, at1);
        assert(false);
    }
    lemma_days_since_monotone(last, at1, at2);
    law_bucket_monotone(sb, sb + 1);
}

/// Whole days from midnight of the last scan's day to a valid instant lie
/// within 200 million either way.
proof fn lemma_days_since_bounded(last: UtcInstant, at: UtcInstant)
    requires
        last.valid(),
        at.valid(),
    ensures
        -200_000_000 <= days_since_scan_day(last, at) <= 200_000_000,
{
    let start = last.spec_day_start();
    lemma_day_start(last);
    let v = at.spec_nanos_since(start);
    let dd: int = 86_400_000_000_000;
    assert(-17_000_000_000_000_000_000_000 <= v <= 17_000_000_000_000_000_000_000);
    let m = if v >= 0 {
        v
    } else {
        -v
    };
    vstd::arithmetic::div_mod::lemma_fundamental_div_mod(m, dd);
    vstd::arithmetic::div_mod::lemma_mod_pos_bound(m, dd);
    assert(0 <= m / dd <= 200_000_000);
}

/// Midnight of an instant's day: its second of the day is 0, it comes no
/// later than the instant and less than a day before it, and it takes no
/// leap second into a span that starts there.
proof fn lemma_day_start(last: UtcInstant)
    requires
        last.valid(),
    ensures
        last.spec_day_start().second_of_day() == 0,
        last.spec_day_start().nanos == 0,
        last.secs - SECS_PER_DAY < last.spec_day_start().secs <= last.secs,
        forall|at: UtcInstant|
            #[trigger] at.spec_nanos_since(last.spec_day_start()) == (at.secs
                - last.spec_day_start().secs) * NANOS_PER_SEC + at.nanos,
{
    vstd::arithmetic::div_mod::lemma_fundamental_div_mod(last.secs as int, SECS_PER_DAY as int);
    let start = last.spec_day_start();
    assert(start.secs == last.day() * SECS_PER_DAY);
    assert(start.second_of_day() == 0) by {
        vstd::arithmetic::div_mod::lemma_mod_multiples_basic(last.day(), SECS_PER_DAY as int);
    }
    assert forall|at: UtcInstant|
        #[trigger] at.spec_nanos_since(start) == (at.secs - start.secs) * NANOS_PER_SEC
            + at.nanos by {
        assert(at.leap_adjust(start) == 0);
    }
}

/// From midnight of the last scan's day, an instant at least a day away is
/// no further than any instant that does not come before it.
proof fn lemma_days_since_monotone(last: UtcInstant, at1: UtcInstant, at2: UtcInstant)
    requires
        last.valid(),
        at1.valid(),
        at2.valid(),
        at1.not_after(at2),
        days_since_scan_day(last, at1) >= 1,
    ensures
        days_since_scan_day(last, at1) <= days_since_scan_day(last, at2),
        days_since_scan_day(last, at2) <= 200_000_000,
{
    let start = last.spec_day_start();
    lemma_day_start(last);
    lemma_days_since_bounded(last, at2);
    let dd = SECS_PER_DAY * NANOS_PER_SEC;
    let s1 = at1.secs - start.secs;
    let s2 = at2.secs - start.secs;
    let v1 = at1.spec_nanos_since(start);
    let v2 = at2.spec_nanos_since(start);
    assert(v1 == s1 * NANOS_PER_SEC + at1.nanos);
    assert(v2 == s2 * NANOS_PER_SEC + at2.nanos);
    let d1 = days_since_scan_day(last, at1);
    if v1 < 0 {
        vstd::arithmetic::div_mod::lemma_div_pos_is_pos(-v1, dd);
        assert(false);
    }
    assert(d1 == v1 / dd);
    vstd::arithmetic::div_mod::lemma_fundamental_div_mod(v1, dd);
    vstd::arithmetic::div_mod::lemma_mod_pos_bound(v1, dd);
    let k = d1 * SECS_PER_DAY;
    assert(d1 * dd == k * NANOS_PER_SEC) by (nonlinear_arith)
        requires
            k == d1 * SECS_PER_DAY,
            dd == SECS_PER_DAY * NANOS_PER_SEC,
    ;
    assert(k * NANOS_PER_SEC <= v2) by {
        if at1.secs < at2.secs {
            lemma_whole_seconds_below(k, s1, at1.nanos as int);
            assert((s1 + 1) * NANOS_PER_SEC <= s2 * NANOS_PER_SEC) by (nonlinear_arith)
                requires
                    s1 + 1 <= s2,
            ;
        }
    }
    vstd::arithmetic::div_mod::lemma_div_is_ordered(d1 * dd, v2, dd);
    vstd::arithmetic::div_mod::lemma_div_multiples_vanish(d1, dd);
}

/// A whole number `k` of seconds that an instant `s` seconds and `nanos`
/// nanoseconds (a leap second at most) past a point reaches is at most one
/// second past `s`.
proof fn lemma_whole_seconds_below(k: int, s: int, nanos: int)
    by (nonlinear_arith)
    requires
        k * NANOS_PER_SEC <= s * NANOS_PER_SEC + nanos,
        0 <= nanos < 2 * NANOS_PER_SEC,
    ensures
        k * NANOS_PER_SEC <= (s + 1) * NANOS_PER_SEC,
{
    assert(k < s + 2);
}

/// Splits a span of `x` seconds and `nanos` nanoseconds, `x` being `d` whole
/// days and `r` seconds, into whole days and a remainder below one day.
proof fn lemma_split_day_nanos(x: int, d: int, r: int, nanos: int, n: int)
    by (nonlinear_arith)
    requires
        n == x * NANOS_PER_SEC + nanos,
        x == d * SECS_PER_DAY + r,
        0 <= r < SECS_PER_DAY,
        0 <= nanos < NANOS_PER_SEC,
        d >= 0,
    ensures
        n == d * (SECS_PER_DAY * NANOS_PER_SEC) + (r * NANOS_PER_SEC + nanos),
        0 <= r * NANOS_PER_SEC + nanos < SECS_PER_DAY * NANOS_PER_SEC,
        n >= 0,
{
}

} // verus!
