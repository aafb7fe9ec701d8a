//! What a view model says about time: how long until arrival, whether the
//! landing is near, and the arrival as shown to the operator.

use crate::clock::{display_at, local_offset, local_text, parse_utc, parsed_utc, utc_now};
use crate::decimal::{append_decimal, decimal_text};
use crate::flight_status::{as_text, text_of, FlightStatusView, FlightStatusViewModel};
use crate::instant::{elapsed_nanos, whole_hours, whole_minutes, Instant};
use vstd::prelude::*;
use vstd::string::StringExecFns;

verus! {

/// The pattern of the arrival display: month, day, year, twelve-hour time
/// and zone, as in "Nov 18, 2025 at 2:30 PM EST".
pub open spec fn arrival_pattern() -> Seq<char> {
    "%b %-d, %Y at %-I:%M %p %Z"@
}

/// The pattern of the arrival display.
pub fn arrival_display_pattern() -> (pattern: &'static str)
    ensures
        pattern@ == arrival_pattern(),
{
    "%b %-d, %Y at %-I:%M %p %Z"
}

/// The words for a time of `nanos` nanoseconds that is left, `nanos` not
/// negative: whole hours and the minutes beyond them, or the minutes alone
/// within the first hour.
pub open spec fn remaining_text(nanos: int) -> Seq<char> {
    let hours = whole_hours(nanos);
    let minutes = whole_minutes(nanos) % 60;
    if hours > 0 {
        decimal_text(hours as nat) + "h "@ + decimal_text(minutes as nat) + "m"@
    } else {
        decimal_text(minutes as nat) + "m"@
    }
}

/// The words for an arrival that lies `left` nanoseconds ahead: "Arrived"
/// once the arrival is past, else the time that is left.
pub open spec fn countdown_text(left: int) -> Seq<char> {
    if left < 0 {
        "Arrived"@
    } else {
        remaining_text(left)
    }
}

/// Whether an arrival that lies `left` nanoseconds ahead is more than zero
/// and at most `threshold` whole minutes away.
pub open spec fn landing_is_near(left: int, threshold: int) -> bool {
    0 < whole_minutes(left) <= threshold
}

impl FlightStatusView {
    /// The time from `now` to the estimated arrival in nanoseconds, as the
    /// calendar counts it, where the estimate is there and reads as a
    /// timestamp.
    pub open spec fn until_estimated_arrival(self, now: Instant) -> Option<int> {
        match self.estimated_arrival {
            Some(text) => match parsed_utc(text) {
                Some((secs, nanos)) => Some(elapsed_nanos(secs, nanos, now.secs(), now.nanos())),
                None => None,
            },
            None => None,
        }
    }

    /// Whether the estimated arrival is there and reads as a timestamp.
    pub open spec fn has_readable_estimate(self) -> bool {
        self.estimated_arrival matches Some(text) && parsed_utc(text) is Some
    }

    /// The time left until arrival, seen from `now`: "Arrived" once the
    /// flight has landed or its estimate lies in the past, none without a
    /// readable estimate.
    pub open spec fn time_remaining(self, now: Instant) -> Option<Seq<char>> {
        if self.actual_arrival is Some {
            Some("Arrived"@)
        } else {
            match self.until_estimated_arrival(now) {
                Some(left) => Some(countdown_text(left)),
                None => None,
            }
        }
    }

    /// Whether, seen from `now`, the flight has not landed and its
    /// estimated arrival is more than zero and at most `threshold` whole
    /// minutes away.
    pub open spec fn is_approaching_landing(self, threshold: int, now: Instant) -> bool {
        &&& self.actual_arrival is None
        &&& self.until_estimated_arrival(now) matches Some(left)
        &&& landing_is_near(left, threshold)
    }

    /// The effective arrival as it is displayed in a zone `offset` seconds
    /// ahead of UTC; none where there is no effective arrival or its text
    /// does not read as a timestamp.
    pub open spec fn local_arrival(self, offset: int) -> Option<Seq<char>> {
        match self.arrival_time() {
            Some(text) => match parsed_utc(text) {
                Some((secs, nanos)) => Some(local_text(secs, nanos, offset, arrival_pattern())),
                None => None,
            },
            None => None,
        }
    }
}

/// The words for `left` nanoseconds that remain.
fn render_remaining(left: i128) -> (text: String)
    requires
        0 <= left <= 20_000_000_000_000_000_000_000_000_000,
    ensures
        text@ == remaining_text(left as int),
{
    let hours: u64 = (left / 3_600_000_000_000) as u64;
    let minutes: u64 = ((left / 60_000_000_000) % 60) as u64;
    let mut text = String::new();
    if hours > 0 {
        append_decimal(&mut text, hours);
        text.append("h ");
    }
    append_decimal(&mut text, minutes);
    text.append("m");
    proof {
        assert(text@ =~= remaining_text(left as int));
    }
    text
}

/// The words for the time from `now` to `arrival`, as "2h 30m" or "45m":
/// whole hours and the minutes beyond them, both cut and not rounded;
/// "Arrived" once `arrival` is past.
pub fn countdown(arrival: &Instant, now: &Instant) -> (text: String)
    ensures
        text@ == countdown_text(arrival.since(*now)),
{
    let left = arrival.nanos_since(now);
    if left < 0 {
        String::from_str("Arrived")
    } else {
        render_remaining(left)
    }
}

/// Whether `arrival` is more than zero and at most `threshold_minutes` whole
/// minutes after `now`.
pub fn landing_within(arrival: &Instant, now: &Instant, threshold_minutes: i64) -> (near: bool)
    ensures
        near == landing_is_near(arrival.since(*now), threshold_minutes as int),
{
    let left = arrival.nanos_since(now);
    if left < 0 {
        false
    } else {
        let minutes: i128 = left / 60_000_000_000;
        let threshold: i128 = threshold_minutes as i128;
        minutes > 0 && minutes <= threshold
    }
}

impl FlightStatusViewModel {
    /// The estimated arrival as a moment, where the text is there and reads
    /// as a timestamp.
    fn estimated_arrival_instant(&self) -> (read: Option<Instant>)
        ensures
            read is Some <==> self@.has_readable_estimate(),
            read matches Some(i) ==> forall|now: Instant|
                #[trigger] self@.until_estimated_arrival(now) == Some(i.since(now)),
            read is None ==> forall|now: Instant|
                #[trigger] self@.until_estimated_arrival(now) is None,
    {
        match as_text(&self.estimated_arrival) {
            Some(text) => parse_utc(text),
            None => None,
        }
    }

    /// The time left until arrival, seen from `now`, as "2h 30m" or "45m";
    /// "Arrived" once the flight has landed or its estimated arrival is
    /// past; none without an estimated arrival that reads as a timestamp.
    pub fn time_remaining_at(&self, now: &Instant) -> (left: Option<String>)
        ensures
            text_of(left) == self@.time_remaining(*now),
    {
        if self.actual_arrival.is_some() {
            return Some(String::from_str("Arrived"));
        }
        match self.estimated_arrival_instant() {
            Some(arrival) => Some(countdown(&arrival, now)),
            None => None,
        }
    }

    /// The time left until arrival, seen from the current time.
    pub fn time_remaining(&self) -> (left: Option<String>)
        ensures
            self@.actual_arrival is Some ==> text_of(left) == Some("Arrived"@),
            self@.actual_arrival is None && !self@.has_readable_estimate() ==> left is None,
            exists|now: Instant| #[trigger]
                now.well_formed() && text_of(left) == self@.time_remaining(now),
    {
        let now = utc_now();
        let left = self.time_remaining_at(&now);
        proof {
            assert(now.well_formed() && text_of(left) == self@.time_remaining(now));
        }
        left
    }

    /// Whether, seen from `now`, the flight has not landed and its estimated
    /// arrival is more than zero and at most `threshold_minutes` whole
    /// minutes away.
    pub fn is_approaching_landing_at(&self, threshold_minutes: i64, now: &Instant) -> (near: bool)
        ensures
            near == self@.is_approaching_landing(threshold_minutes as int, *now),
    {
        if self.actual_arrival.is_some() {
            return false;
        }
        match self.estimated_arrival_instant() {
            Some(arrival) => landing_within(&arrival, now, threshold_minutes),
            None => false,
        }
    }

    /// Whether, seen from the current time, the flight is approaching its
    /// landing.
    pub fn is_approaching_landing(&self, threshold_minutes: i64) -> (near: bool)
        ensures
            self@.actual_arrival is Some ==> !near,
            !self@.has_readable_estimate() ==> !near,
            exists|now: Instant| #[trigger]
                now.well_formed() && near == self@.is_approaching_landing(
                    threshold_minutes as int,
                    now,
                ),
    {
        let now = utc_now();
        let near = self.is_approaching_landing_at(threshold_minutes, &now);
        proof {
            assert(now.well_formed() && near == self@.is_approaching_landing(
                threshold_minutes as int,
                now,
            ));
        }
        near
    }

    /// The effective arrival in the time zone of the machine, as in
    /// "Nov 18, 2025 at 2:30 PM EST": the actual arrival where there is
    /// one, else the estimated one, read as a moment in UTC and written as
    /// the zone of the machine reads it. None where there is no effective
    /// arrival or its text does not read as a timestamp.
    pub fn formatted_arrival_time(&self) -> (shown: Option<String>)
        ensures
            shown is Some <==> (self@.arrival_time() matches Some(text) && parsed_utc(text) is Some),
            shown is Some ==> exists|offset: int|
                -86_400 < offset < 86_400 && text_of(shown) == #[trigger] self@.local_arrival(
                    offset,
                ),
    {
        match self.arrival_time() {
            Some(text) => match parse_utc(text) {
                Some(at) => {
                    proof {
                        use_type_invariant(&at);
                    }
                    let offset = local_offset(&at);
                    let shown = Some(display_at(&at, offset, arrival_display_pattern()));
                    proof {
                        assert(text_of(shown) == self@.local_arrival(offset as int));
                    }
                    shown
                },
                None => None,
            },
            None => None,
        }
    }
}

} // verus!
