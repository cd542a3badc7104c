use vstd::prelude::*;

verus! {

/// Seconds in a UTC day.
pub const SECS_PER_DAY: i64 = 86_400;

/// Nanoseconds in a second.
pub const NANOS_PER_SEC: i128 = 1_000_000_000;

/// The earliest UTC timestamp (in seconds) that a date-time can hold.
pub const MIN_TIMESTAMP: i64 = -8_334_601_315_200;

/// The latest UTC timestamp (in seconds) that a date-time can hold.
pub const MAX_TIMESTAMP: i64 = 8_210_266_876_799;

/// A UTC date-time, held as seconds since the Unix epoch and the nanoseconds
/// past that second. `nanos` reaches past one second only on a leap second.
#[derive(Clone, Copy, Debug, PartialEq, Eq, Structural)]
pub struct UtcInstant {
    pub secs: i64,
    pub nanos: u32,
}

/// Division that rounds toward zero, as integer division does on machine integers.
pub open spec fn trunc_div(x: int, d: int) -> int
    recommends
        d > 0,
{
    if x >= 0 {
        x / d
    } else {
        -((-x) / d)
    }
}

/// The remainder that goes with `trunc_div`: it takes the sign of `x`.
pub open spec fn trunc_rem(x: int, d: int) -> int
    recommends
        d > 0,
{
    x - trunc_div(x, d) * d
}

impl UtcInstant {
    /// The instant lies in the range of representable date-times.
    pub open spec fn valid(self) -> bool {
        &&& MIN_TIMESTAMP <= self.secs <= MAX_TIMESTAMP
        &&& self.nanos < 2 * NANOS_PER_SEC
    }

    /// `self` comes no later than `other`: date-times are ordered by their
    /// second and then by the nanoseconds past it.
    pub open spec fn not_after(self, other: UtcInstant) -> bool {
        self.secs < other.secs || (self.secs == other.secs && self.nanos <= other.nanos)
    }

    /// The UTC day of the instant, counted from the epoch.
    pub open spec fn day(self) -> int {
        (self.secs as int) / (SECS_PER_DAY as int)
    }

    /// The second of the UTC day, `0 ..= 86399`.
    pub open spec fn second_of_day(self) -> int {
        (self.secs as int) % (SECS_PER_DAY as int)
    }

    /// Midnight (0:00 UTC) of the instant's day.
    pub open spec fn spec_day_start(self) -> UtcInstant {
        UtcInstant { secs: (self.day() * SECS_PER_DAY) as i64, nanos: 0 }
    }

    /// The extra second that a leap second on one side adds to a difference.
    pub open spec fn leap_adjust(self, earlier: UtcInstant) -> int {
        if self.second_of_day() > earlier.second_of_day() && earlier.nanos >= NANOS_PER_SEC {
            1
        } else if self.second_of_day() < earlier.second_of_day() && self.nanos >= NANOS_PER_SEC {
            -1
        } else {
            0
        }
    }

    /// The signed time from `earlier` to `self`, in nanoseconds.
    pub open spec fn spec_nanos_since(self, earlier: UtcInstant) -> int {
        (self.secs - earlier.secs + self.leap_adjust(earlier)) * NANOS_PER_SEC + self.nanos
            - earlier.nanos
    }

    /// Whole seconds from `earlier` to `self`, rounded toward zero.
    pub open spec fn spec_seconds_since(self, earlier: UtcInstant) -> int {
        trunc_div(self.spec_nanos_since(earlier), NANOS_PER_SEC as int)
    }

    /// Whole minutes from `earlier` to `self`, rounded toward zero.
    pub open spec fn spec_minutes_since(self, earlier: UtcInstant) -> int {
        trunc_div(self.spec_nanos_since(earlier), 60 * NANOS_PER_SEC)
    }

    /// Whole hours from `earlier` to `self`, rounded toward zero.
    pub open spec fn spec_hours_since(self, earlier: UtcInstant) -> int {
        trunc_div(self.spec_nanos_since(earlier), 3600 * NANOS_PER_SEC)
    }

    /// Whole days from `earlier` to `self`, rounded toward zero.
    pub open spec fn spec_days_since(self, earlier: UtcInstant) -> int {
        trunc_div(self.spec_nanos_since(earlier), SECS_PER_DAY * NANOS_PER_SEC)
    }

    /// The instant one day later; a leap second is left behind on the way.
    pub open spec fn spec_one_day_later(self) -> UtcInstant {
        UtcInstant {
            secs: (self.secs + SECS_PER_DAY) as i64,
            nanos: if self.nanos >= NANOS_PER_SEC {
                (self.nanos - NANOS_PER_SEC) as u32
            } else {
                self.nanos
            },
        }
    }

    /// The second of the UTC day.
    pub fn second_of_day_exec(&self) -> (s: i64)
        requires
            self.valid(),
        ensures
            s == self.second_of_day(),
            0 <= s < SECS_PER_DAY,
    {
        if self.secs >= 0 {
            ((self.secs as u64) % (SECS_PER_DAY as u64)) as i64
        } else {
            let m: u64 = (-(self.secs + 1)) as u64;
            let r: u64 = m % (SECS_PER_DAY as u64);
            proof {
                let q = m as int / SECS_PER_DAY as int;
                assert(m as int == q * SECS_PER_DAY + r);
                assert(self.secs == -(q + 1) * SECS_PER_DAY + (SECS_PER_DAY - 1 - r));
                vstd::arithmetic::div_mod::lemma_fundamental_div_mod_converse(
                    self.secs as int,
                    SECS_PER_DAY as int,
                    -(q + 1),
                    SECS_PER_DAY - 1 - r,
                );
            }
            (SECS_PER_DAY - 1) - (r as i64)
        }
    }

    /// Midnight (0:00 UTC) of the instant's day.
    pub fn day_start(&self) -> (start: UtcInstant)
        requires
            self.valid(),
        ensures
            start == self.spec_day_start(),
            start.valid(),
            start.second_of_day() == 0,
    {
        let s = self.second_of_day_exec();
        proof {
            vstd::arithmetic::div_mod::lemma_fundamental_div_mod(
                self.secs as int,
                SECS_PER_DAY as int,
            );
            vstd::arithmetic::div_mod::lemma_mod_multiples_basic(
                self.day(),
                SECS_PER_DAY as int,
            );
        }
        UtcInstant { secs: self.secs - s, nanos: 0 }
    }

    /// The signed time from `earlier` to `self`, in nanoseconds.
    pub fn nanos_since(&self, earlier: &UtcInstant) -> (n: i128)
        requires
            self.valid(),
            earlier.valid(),
        ensures
            n == self.spec_nanos_since(*earlier),
    {
        let sa = self.second_of_day_exec();
        let sb = earlier.second_of_day_exec();
        let adjust: i64 = if sa > sb && earlier.nanos as i128 >= NANOS_PER_SEC {
            1
        } else if sa < sb && self.nanos as i128 >= NANOS_PER_SEC {
            -1
        } else {
            0
        };
        let secs: i128 = (self.secs as i128) - (earlier.secs as i128) + (adjust as i128);
        secs * NANOS_PER_SEC + (self.nanos as i128) - (earlier.nanos as i128)
    }

    /// Whole days from `earlier` to `self`, rounded toward zero.
    pub fn days_since(&self, earlier: &UtcInstant) -> (d: i64)
        requires
            self.valid(),
            earlier.valid(),
        ensures
            d == self.spec_days_since(*earlier),
            -200_000_000 <= d <= 200_000_000,
    {
        let n = self.nanos_since(earlier);
        truncated_quotient(n, 86_400_000_000_000)
    }

    /// Whole hours from `earlier` to `self`, rounded toward zero.
    pub fn hours_since(&self, earlier: &UtcInstant) -> (h: i64)
        requires
            self.valid(),
            earlier.valid(),
        ensures
            h == self.spec_hours_since(*earlier),
    {
        let n = self.nanos_since(earlier);
        truncated_quotient(n, 3_600_000_000_000)
    }

    /// Whole minutes from `earlier` to `self`, rounded toward zero.
    pub fn minutes_since(&self, earlier: &UtcInstant) -> (m: i64)
        requires
            self.valid(),
            earlier.valid(),
        ensures
            m == self.spec_minutes_since(*earlier),
    {
        let n = self.nanos_since(earlier);
        truncated_quotient(n, 60_000_000_000)
    }

    /// Whole seconds from `earlier` to `self`, rounded toward zero.
    pub fn seconds_since(&self, earlier: &UtcInstant) -> (s: i64)
        requires
            self.valid(),
            earlier.valid(),
        ensures
            s == self.spec_seconds_since(*earlier),
    {
        let n = self.nanos_since(earlier);
        truncated_quotient(n, 1_000_000_000)
    }

    /// The instant one day later.
    pub fn one_day_later(&self) -> (later: UtcInstant)
        requires
            self.valid(),
            self.secs + SECS_PER_DAY <= MAX_TIMESTAMP,
        ensures
            later == self.spec_one_day_later(),
            later.valid(),
    {
        let nanos = if self.nanos as i128 >= NANOS_PER_SEC {
            self.nanos - 1_000_000_000
        } else {
            self.nanos
        };
        UtcInstant { secs: self.secs + SECS_PER_DAY, nanos }
    }
}

/// `n / d` rounded toward zero, for the spans that valid instants can be apart.
fn truncated_quotient(n: i128, d: i128) -> (q: i64)
    requires
        d >= 1_000_000_000,
        -17_000_000_000_000_000_000_000 <= n <= 17_000_000_000_000_000_000_000,
    ensures
        q == trunc_div(n as int, d as int),
        d >= 86_400_000_000_000 ==> -200_000_000 <= q <= 200_000_000,
{
    let m: u128 = if n >= 0 { n as u128 } else { (-n) as u128 };
    let q: u128 = m / (d as u128);
    proof {
        vstd::arithmetic::div_mod::lemma_div_is_ordered_by_denominator(
            m as int,
            1_000_000_000,
            d as int,
        );
        assert(m as int / 1_000_000_000 <= 17_000_000_000_000);
        if d >= 86_400_000_000_000 {
            vstd::arithmetic::div_mod::lemma_div_is_ordered_by_denominator(
                m as int,
                86_400_000_000_000,
                d as int,
            );
            assert(m as int / 86_400_000_000_000 <= 200_000_000);
        }
    }
    if n >= 0 {
        q as i64
    } else {
        -(q as i64)
    }
}

} // verus!
