//! One cycle of the update pipeline: from the records that a poll brought
//! back to the view model to show next.

use crate::api_converter::{flight_to_view_model, record_view};
use crate::clock::utc_now;
use crate::flight_record::FlightRecord;
use crate::flight_status::{FlightStatusView, FlightStatusViewModel};
use crate::instant::Instant;
use crate::selector::{select_relevant_flight_at, selected_index};
use vstd::prelude::*;

verus! {

/// The steps in one round of the progress simulation.
pub const SIMULATION_STEPS: u64 = 11;

/// The progress shown at `step` of the simulation: from 0 to 100 in steps
/// of ten, then over again.
pub open spec fn simulated_progress(step: int) -> int {
    (step % (SIMULATION_STEPS as int)) * 10
}

/// What the view model of the first poll holds: the record that matters at
/// `now`, as it is reported; none where the poll brought nothing.
pub open spec fn initial_view(flights: Seq<FlightRecord>, now: Instant) -> Option<
    FlightStatusView,
> {
    if flights.len() == 0 {
        None
    } else {
        Some(record_view(flights[selected_index(flights, now)]))
    }
}

/// What the view model of a later poll holds: that of a first poll, with
/// the simulated progress of `step` in place of the reported one.
pub open spec fn updated_view(flights: Seq<FlightRecord>, now: Instant, step: int) -> Option<
    FlightStatusView,
> {
    match initial_view(flights, now) {
        Some(view) => Some(
            FlightStatusView { progress_percent: Some(simulated_progress(step) as i64), ..view },
        ),
        None => None,
    }
}

/// The view of an optional view model.
pub open spec fn view_of(model: Option<FlightStatusViewModel>) -> Option<FlightStatusView> {
    match model {
        Some(m) => Some(m@),
        None => None,
    }
}

/// The step that follows `step` in the simulation: the next one, and the
/// first one after the last.
pub open spec fn following_step(step: int) -> int {
    (step + 1) % (SIMULATION_STEPS as int)
}

/// The step that follows `step` in the simulation. A step beyond the round
/// counts as the step of the round that shows the same progress.
pub fn next_step(step: u64) -> (next: u64)
    ensures
        next == following_step((step % SIMULATION_STEPS) as int),
        next < SIMULATION_STEPS,
        simulated_progress(next as int) == simulated_progress(step as int + 1),
{
    let within = step % SIMULATION_STEPS;
    proof {
        vstd::arithmetic::div_mod::lemma_add_mod_noop(step as int, 1, 11);
        vstd::arithmetic::div_mod::lemma_mod_twice((step as int) + 1, 11);
    }
    (within + 1) % SIMULATION_STEPS
}

/// The progress shown at `step` of the simulation.
pub fn simulated_progress_at(step: u64) -> (percent: i64)
    ensures
        percent == simulated_progress(step as int),
        0 <= percent <= 100,
{
    ((step % SIMULATION_STEPS) * 10) as i64
}

/// The view model to show after the first poll, seen from `now`: that of
/// the record that matters; none where the poll brought no record.
pub fn initial_view_model_at(flights: &[FlightRecord], now: &Instant) -> (model: Option<
    FlightStatusViewModel,
>)
    ensures
        view_of(model) == initial_view(flights@, *now),
{
    match select_relevant_flight_at(flights, now) {
        Some(flight) => Some(flight_to_view_model(flight)),
        None => None,
    }
}

/// The view model to show after the first poll, seen from the current time.
pub fn initial_view_model(flights: &[FlightRecord]) -> (model: Option<FlightStatusViewModel>)
    ensures
        model is None <==> flights@.len() == 0,
        exists|now: Instant| #[trigger]
            now.well_formed() && view_of(model) == initial_view(flights@, now),
{
    let now = utc_now();
    let model = initial_view_model_at(flights, &now);
    proof {
        assert(now.well_formed() && view_of(model) == initial_view(flights@, now));
    }
    model
}

/// The view model to publish after a later poll, seen from `now`: that of
/// the record that matters, its progress replaced by the simulated progress
/// of `step`; none, and so nothing to publish, where the poll brought no
/// record.
pub fn updated_view_model_at(flights: &[FlightRecord], now: &Instant, step: u64) -> (model: Option<
    FlightStatusViewModel,
>)
    ensures
        view_of(model) == updated_view(flights@, *now, step as int),
{
    match initial_view_model_at(flights, now) {
        Some(reported) => Some(reported.with_progress(Some(simulated_progress_at(step)))),
        None => None,
    }
}

/// The view model to publish after a later poll, seen from the current
/// time.
pub fn updated_view_model(flights: &[FlightRecord], step: u64) -> (model: Option<
    FlightStatusViewModel,
>)
    ensures
        model is None <==> flights@.len() == 0,
        exists|now: Instant| #[trigger]
            now.well_formed() && view_of(model) == updated_view(
                flights@,
                now,
                step as int,
            ),
{
    let now = utc_now();
    let model = updated_view_model_at(flights, &now, step);
    proof {
        assert(now.well_formed() && view_of(model) == updated_view(
            flights@,
            now,
            step as int,
        ));
    }
    model
}

} // verus!
