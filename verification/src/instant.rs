//! Instants on the UTC timeline, as whole seconds since the Unix epoch plus a
//! sub-second part, and the arithmetic on them that the flight logic needs.
//!
//! Moments are ordered and the time between two of them is counted as
//! `chrono` orders and counts its `DateTime<Utc>`, a leap second included.

use vstd::arithmetic::div_mod::lemma_mod_multiples_vanish;
use vstd::prelude::*;

verus! {

/// Nanoseconds in one second.
pub const NANOS_PER_SECOND: i64 = 1_000_000_000;

/// Nanoseconds in one minute.
pub const NANOS_PER_MINUTE: i64 = 60_000_000_000;

/// Nanoseconds in one hour.
pub const NANOS_PER_HOUR: i64 = 3_600_000_000_000;

/// The first second of the calendar: midnight of January 1 of the year -262143.
pub const MIN_SECONDS: i64 = -8_334_601_228_800;

/// The last second of the calendar: the end of December 31 of the year 262142.
pub const MAX_SECONDS: i64 = 8_210_266_876_799;

/// Whether `secs` seconds since the epoch and `nanos` nanoseconds after them
/// name a moment of the calendar. The sub-second part stays below one second,
/// except within a leap second, which is written as the last second of a
/// minute with a sub-second part of one second or more.
pub open spec fn on_calendar(secs: int, nanos: int) -> bool {
    &&& MIN_SECONDS <= secs <= MAX_SECONDS
    &&& 0 <= nanos
    &&& (nanos < NANOS_PER_SECOND || (nanos < 2 * NANOS_PER_SECOND && secs % 60 == 59))
}

/// Seconds in one day.
pub const SECONDS_PER_DAY: i64 = 86_400;

/// The second of its day in which the moment `secs` seconds after the epoch
/// lies, counted from midnight.
pub open spec fn second_of_day(secs: int) -> int {
    secs % (SECONDS_PER_DAY as int)
}

/// Whether a sub-second part of `nanos` nanoseconds writes a leap second.
pub open spec fn in_leap_second(nanos: int) -> bool {
    nanos >= NANOS_PER_SECOND
}

/// Whether the moment `a` comes after the moment `b`, each given as seconds
/// and nanoseconds: by the seconds first, then by the nanoseconds.
pub open spec fn comes_after(a_secs: int, a_nanos: int, b_secs: int, b_nanos: int) -> bool {
    a_secs > b_secs || (a_secs == b_secs && a_nanos > b_nanos)
}

/// The second that the calendar adds to or takes from the time between two
/// moments on account of a leap second: one more where the earlier moment
/// is written within a leap second and the later lies in a later second of
/// its day, one less the other way round. Only the seconds of the day are
/// compared, whatever the days.
pub open spec fn leap_adjustment(a_secs: int, a_nanos: int, b_secs: int, b_nanos: int) -> int {
    if second_of_day(a_secs) > second_of_day(b_secs) && in_leap_second(b_nanos) {
        1
    } else if second_of_day(a_secs) < second_of_day(b_secs) && in_leap_second(a_nanos) {
        -1
    } else {
        0
    }
}

/// The time from the moment `b` to the moment `a` in nanoseconds, negative
/// where `a` is the earlier, as the calendar counts it: the difference of
/// the seconds, the adjustment for a leap second, and the difference of the
/// sub-second parts.
pub open spec fn elapsed_nanos(a_secs: int, a_nanos: int, b_secs: int, b_nanos: int) -> int {
    (a_secs - b_secs + leap_adjustment(a_secs, a_nanos, b_secs, b_nanos)) * NANOS_PER_SECOND + (
    a_nanos - b_nanos)
}

/// A length of time in nanoseconds, cut to whole minutes toward zero.
pub open spec fn whole_minutes(nanos: int) -> int {
    if nanos >= 0 {
        nanos / (NANOS_PER_MINUTE as int)
    } else {
        -((-nanos) / (NANOS_PER_MINUTE as int))
    }
}

/// A length of time in nanoseconds, cut to whole hours toward zero.
pub open spec fn whole_hours(nanos: int) -> int {
    if nanos >= 0 {
        nanos / (NANOS_PER_HOUR as int)
    } else {
        -((-nanos) / (NANOS_PER_HOUR as int))
    }
}

/// A moment of the calendar in UTC.
#[derive(Clone, Copy, Debug)]
pub struct Instant {
    pub(crate) secs: i64,
    pub(crate) nanos: u32,
}

impl Instant {
    /// Whole seconds since the Unix epoch.
    pub closed spec fn secs(self) -> int {
        self.secs as int
    }

    /// Nanoseconds since the last whole second.
    pub closed spec fn nanos(self) -> int {
        self.nanos as int
    }

    /// Every instant that executable code holds lies on the calendar.
    #[verifier::type_invariant]
    pub closed spec fn well_formed(self) -> bool {
        on_calendar(self.secs as int, self.nanos as int)
    }

    /// The time from `earlier` to this instant in nanoseconds, negative
    /// where this instant is the earlier, as the calendar counts it.
    pub open spec fn since(self, earlier: Instant) -> int {
        elapsed_nanos(self.secs(), self.nanos(), earlier.secs(), earlier.nanos())
    }

    /// What `well_formed` says, over the public accessors.
    pub proof fn lemma_well_formed(self)
        ensures
            self.well_formed() <==> on_calendar(self.secs(), self.nanos()),
            i64::MIN <= self.secs() <= i64::MAX,
            0 <= self.nanos() <= u32::MAX,
    {
    }

    /// The instant `secs` seconds after the epoch and `nanos` nanoseconds
    /// after that; none where this is no moment of the calendar.
    pub fn new(secs: i64, nanos: u32) -> (made: Option<Instant>)
        ensures
            made is Some <==> on_calendar(secs as int, nanos as int),
            made matches Some(i) ==> i.secs() == secs && i.nanos() == nanos && i.well_formed(),
    {
        if secs < MIN_SECONDS || secs > MAX_SECONDS {
            return None;
        }
        if nanos >= 2_000_000_000 {
            return None;
        }
        if nanos >= 1_000_000_000 && !ends_a_minute(secs) {
            return None;
        }
        Some(Instant { secs, nanos })
    }

    /// Whole seconds since the Unix epoch.
    pub fn seconds(&self) -> (s: i64)
        ensures
            s == self.secs(),
    {
        self.secs
    }

    /// Nanoseconds since the last whole second.
    pub fn subsec_nanos(&self) -> (n: u32)
        ensures
            n == self.nanos(),
    {
        self.nanos
    }

    /// The time from `earlier` to this instant in nanoseconds, negative
    /// where this instant is the earlier, as the calendar counts it.
    pub fn nanos_since(&self, earlier: &Instant) -> (elapsed: i128)
        ensures
            elapsed == self.since(*earlier),
            -20_000_000_000_000_000_000_000 <= elapsed <= 20_000_000_000_000_000_000_000,
    {
        proof {
            use_type_invariant(self);
            use_type_invariant(earlier);
        }
        nanos_between(self.secs, self.nanos, earlier.secs, earlier.nanos)
    }
}

/// The second of its day in which the moment `secs` seconds after the epoch
/// lies.
fn day_second(secs: i64) -> (second: i64)
    requires
        -8_640_000_000_000 <= secs <= 8_640_000_000_000,
    ensures
        second == second_of_day(secs as int),
        0 <= second < SECONDS_PER_DAY,
{
    // A hundred million days: the seconds of the calendar, and those within
    // a few days of it, lie less than that from the epoch.
    let shifted: i64 = secs + 8_640_000_000_000;
    proof {
        lemma_mod_multiples_vanish(100_000_000, secs as int, 86_400);
        assert(shifted as int == 86_400 * 100_000_000 + secs);
    }
    shifted % SECONDS_PER_DAY
}

/// The time from the moment `b` to the moment `a` in nanoseconds, as the
/// calendar counts it, for moments of the calendar and those within a few
/// days of it.
pub(crate) fn nanos_between(a_secs: i64, a_nanos: u32, b_secs: i64, b_nanos: u32) -> (elapsed: i128)
    requires
        -8_640_000_000_000 <= a_secs <= 8_640_000_000_000,
        -8_640_000_000_000 <= b_secs <= 8_640_000_000_000,
    ensures
        elapsed == elapsed_nanos(a_secs as int, a_nanos as int, b_secs as int, b_nanos as int),
        -20_000_000_000_000_000_000_000 <= elapsed <= 20_000_000_000_000_000_000_000,
{
    let a_second = day_second(a_secs);
    let b_second = day_second(b_secs);
    let adjustment: i128 = if a_second > b_second && b_nanos >= 1_000_000_000 {
        1
    } else if a_second < b_second && a_nanos >= 1_000_000_000 {
        -1
    } else {
        0
    };
    let seconds: i128 = a_secs as i128 - b_secs as i128 + adjustment;
    seconds * 1_000_000_000 + (a_nanos as i128 - b_nanos as i128)
}

/// Whether `secs` is the last second of a minute.
fn ends_a_minute(secs: i64) -> (b: bool)
    ensures
        b == (secs as int % 60 == 59),
{
    if secs >= 0 {
        secs % 60 == 59
    } else {
        let back: i64 = -(secs + 1);
        assert(secs as int == -(back as int) - 1);
        assert((secs as int) % 60 == 59 <==> (back as int) % 60 == 0) by {
            let q = (back as int) / 60;
            let r = (back as int) % 60;
            assert(back as int == 60 * q + r);
            if r == 0 {
                assert(secs as int == 60 * (-q - 1) + 59);
            } else {
                assert(secs as int == 60 * (-q - 1) + (59 - r));
            }
        }
        back % 60 == 0
    }
}

} // verus!
