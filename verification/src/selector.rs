//! Which of the records that a flight number brought back matters now.

use crate::clock::utc_now;
use crate::flight_record::FlightRecord;
use crate::instant::{
    comes_after, elapsed_nanos, in_leap_second, nanos_between, Instant, NANOS_PER_SECOND,
};
use vstd::prelude::*;

verus! {

/// How far the anchor lies behind the current time: two hours, in seconds.
pub const ANCHOR_SECONDS: i64 = 7_200;

/// The seconds of the anchor, the moment two hours before `now`. A `now`
/// within a leap second counts as the second that follows it.
pub open spec fn anchor_secs(now: Instant) -> int {
    if in_leap_second(now.nanos()) {
        now.secs() + 1 - ANCHOR_SECONDS
    } else {
        now.secs() - ANCHOR_SECONDS
    }
}

/// The nanoseconds of the anchor, the moment two hours before `now`.
pub open spec fn anchor_nanos(now: Instant) -> int {
    if in_leap_second(now.nanos()) {
        now.nanos() - NANOS_PER_SECOND
    } else {
        now.nanos()
    }
}

/// Whether the record has an estimated arrival.
pub open spec fn has_estimate(flight: FlightRecord) -> bool {
    flight.estimated_on is Some
}

/// How far the estimated arrival of the record lies from the anchor of
/// `now`, in nanoseconds, for a record that has one: the time from the
/// earlier of the two to the later, as the calendar counts it.
pub open spec fn offset_from(flight: FlightRecord, now: Instant) -> int {
    let at = flight.estimated_on->0;
    if comes_after(at.secs(), at.nanos(), anchor_secs(now), anchor_nanos(now)) {
        elapsed_nanos(at.secs(), at.nanos(), anchor_secs(now), anchor_nanos(now))
    } else {
        elapsed_nanos(anchor_secs(now), anchor_nanos(now), at.secs(), at.nanos())
    }
}

/// Whether `i` is the index of the record to select at `now`: among the
/// records with an estimated arrival the one closest to the anchor, the
/// earliest in the list of those equally close; the first record where none
/// has an estimated arrival.
pub open spec fn is_selected(flights: Seq<FlightRecord>, now: Instant, i: int) -> bool {
    &&& 0 <= i < flights.len()
    &&& if exists|j: int| 0 <= j < flights.len() && has_estimate(#[trigger] flights[j]) {
        &&& has_estimate(flights[i])
        &&& forall|j: int|
            0 <= j < flights.len() && has_estimate(#[trigger] flights[j]) ==> offset_from(
                flights[i],
                now,
            ) <= offset_from(flights[j], now)
        &&& forall|j: int|
            0 <= j < i && has_estimate(#[trigger] flights[j]) ==> offset_from(flights[i], now)
                < offset_from(flights[j], now)
    } else {
        i == 0
    }
}

/// At most one index is selected.
pub proof fn lemma_selected_is_unique(flights: Seq<FlightRecord>, now: Instant, i: int, j: int)
    requires
        is_selected(flights, now, i),
        is_selected(flights, now, j),
    ensures
        i == j,
{
    if exists|k: int| 0 <= k < flights.len() && has_estimate(#[trigger] flights[k]) {
        if i < j {
            assert(has_estimate(flights[i]));
            assert(offset_from(flights[j], now) < offset_from(flights[i], now));
            assert(offset_from(flights[i], now) <= offset_from(flights[j], now));
        } else if j < i {
            assert(has_estimate(flights[j]));
            assert(offset_from(flights[i], now) < offset_from(flights[j], now));
            assert(offset_from(flights[j], now) <= offset_from(flights[i], now));
        }
    }
}

/// The index of the record to select at `now` in a list that is not empty.
pub open spec fn selected_index(flights: Seq<FlightRecord>, now: Instant) -> int {
    choose|i: int| is_selected(flights, now, i)
}

/// How far `at` lies from the anchor of `now`, in nanoseconds.
fn offset_of(at: &Instant, now: &Instant) -> (offset: i128)
    ensures
        forall|flight: FlightRecord|
            flight.estimated_on == Some(*at) ==> offset == #[trigger] offset_from(flight, *now),
{
    proof {
        use_type_invariant(at);
        use_type_invariant(now);
        at.lemma_well_formed();
        now.lemma_well_formed();
    }
    let at_secs = at.seconds();
    let at_nanos = at.subsec_nanos();
    let leap = now.subsec_nanos() >= 1_000_000_000;
    let target_secs: i64 = if leap {
        now.seconds() + 1 - ANCHOR_SECONDS
    } else {
        now.seconds() - ANCHOR_SECONDS
    };
    let target_nanos: u32 = if leap {
        now.subsec_nanos() - 1_000_000_000
    } else {
        now.subsec_nanos()
    };
    if at_secs > target_secs || (at_secs == target_secs && at_nanos > target_nanos) {
        nanos_between(at_secs, at_nanos, target_secs, target_nanos)
    } else {
        nanos_between(target_secs, target_nanos, at_secs, at_nanos)
    }
}

/// The index of the record that matters at `now`: none for an empty list;
/// else, of the records with an estimated arrival, the one whose estimate
/// is closest to two hours before `now`, the earliest in the list where
/// several are equally close; the first record where none has an estimated
/// arrival.
pub fn select_relevant_index_at(flights: &[FlightRecord], now: &Instant) -> (chosen: Option<usize>)
    ensures
        chosen is None <==> flights@.len() == 0,
        chosen matches Some(i) ==> is_selected(flights@, *now, i as int) && i == selected_index(
            flights@,
            *now,
        ),
{
    if flights.len() == 0 {
        return None;
    }
    let mut best: Option<(usize, i128)> = None;
    let mut i: usize = 0;
    while i < flights.len()
        invariant
            0 <= i <= flights@.len(),
            best is None ==> forall|j: int| 0 <= j < i ==> !has_estimate(#[trigger] flights@[j]),
            best matches Some((b, d)) ==> {
                &&& b < i
                &&& has_estimate(flights@[b as int])
                &&& d == offset_from(flights@[b as int], *now)
                &&& forall|j: int|
                    0 <= j < i && has_estimate(#[trigger] flights@[j]) ==> d <= offset_from(
                        flights@[j],
                        *now,
                    )
                &&& forall|j: int|
                    0 <= j < b && has_estimate(#[trigger] flights@[j]) ==> d < offset_from(
                        flights@[j],
                        *now,
                    )
            },
        decreases flights@.len() - i,
    {
        if let Some(at) = &flights[i].estimated_on {
            let off = offset_of(at, now);
            assert(off == offset_from(flights@[i as int], *now));
            match best {
                None => {
                    best = Some((i, off));
                },
                Some((_, least)) => {
                    if off < least {
                        best = Some((i, off));
                    }
                },
            }
        }
        i += 1;
    }
    let chosen: usize = match best {
        Some((b, _)) => {
            proof {
                assert(has_estimate(flights@[b as int]));
            }
            b
        },
        None => 0,
    };
    proof {
        assert(is_selected(flights@, *now, chosen as int));
        lemma_selected_is_unique(flights@, *now, chosen as int, selected_index(flights@, *now));
    }
    Some(chosen)
}

/// The record that matters at `now`: none for an empty list; else the
/// record among those with an estimated arrival whose estimate is closest
/// to two hours before `now`, the earliest in the list where several are
/// equally close; the first record where none has an estimated arrival.
pub fn select_relevant_flight_at<'a>(flights: &'a [FlightRecord], now: &Instant) -> (chosen: Option<
    &'a FlightRecord,
>)
    ensures
        chosen is None <==> flights@.len() == 0,
        chosen matches Some(flight) ==> {
            let i = selected_index(flights@, *now);
            is_selected(flights@, *now, i) && *flight == flights@[i]
        },
        flights@.len() > 0 && (forall|j: int|
            0 <= j < flights@.len() ==> !has_estimate(#[trigger] flights@[j])) ==> chosen
            == Some(&flights@[0]),
{
    match select_relevant_index_at(flights, now) {
        Some(i) => Some(&flights[i]),
        None => None,
    }
}

/// The record that matters at the current time.
pub fn select_relevant_flight<'a>(flights: &'a [FlightRecord]) -> (chosen: Option<&'a FlightRecord>)
    ensures
        chosen is None <==> flights@.len() == 0,
        chosen matches Some(flight) ==> exists|now: Instant| #[trigger]
            now.well_formed() && is_selected(flights@, now, selected_index(flights@, now))
                && *flight == flights@[selected_index(flights@, now)],
        flights@.len() > 0 && (forall|j: int|
            0 <= j < flights@.len() ==> !has_estimate(#[trigger] flights@[j])) ==> chosen
            == Some(&flights@[0]),
{
    let now = utc_now();
    let chosen = select_relevant_flight_at(flights, &now);
    proof {
        if let Some(flight) = chosen {
            assert(now.well_formed() && is_selected(flights@, now, selected_index(flights@, now))
                && *flight == flights@[selected_index(flights@, now)]);
        }
    }
    chosen
}

} // verus!
