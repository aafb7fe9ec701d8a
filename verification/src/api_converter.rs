//! From a provider's flight record to a status and to a view model.

use crate::clock::{rfc3339, rfc3339_text};
use crate::flight_record::{AirportRef, FlightRecord};
use crate::flight_status::{text_of, FlightStatus, FlightStatusView, FlightStatusViewModel};
use crate::instant::Instant;
use vstd::prelude::*;
use vstd::std_specs::convert::FromSpecImpl;

verus! {

/// The RFC 3339 text of an optional moment.
pub open spec fn stamp_text(at: Option<Instant>) -> Option<Seq<char>> {
    match at {
        Some(i) => Some(rfc3339_text(i.secs(), i.nanos())),
        None => None,
    }
}

/// The code shown for an optional airport.
pub open spec fn airport_code(airport: Option<AirportRef>) -> Option<Seq<char>> {
    match airport {
        Some(a) => a.preferred_code(),
        None => None,
    }
}

/// What the view model of a record holds.
pub open spec fn record_view(flight: FlightRecord) -> FlightStatusView {
    FlightStatusView {
        flight_number: flight.ident@,
        status: flight.status(),
        scheduled_departure: stamp_text(flight.scheduled_off),
        scheduled_arrival: stamp_text(flight.scheduled_on),
        estimated_departure: stamp_text(flight.estimated_off),
        estimated_arrival: stamp_text(flight.estimated_on),
        actual_departure: stamp_text(flight.actual_off),
        actual_arrival: stamp_text(flight.actual_on),
        progress_percent: flight.progress_percent,
        origin_airport: airport_code(flight.origin),
        destination_airport: airport_code(flight.destination),
    }
}

/// A view model made from a record shows the actual departure and arrival
/// wherever the record has them, whatever it estimates, and the estimated
/// ones where it has no actual ones.
pub proof fn lemma_view_model_prefers_actual_times(flight: FlightRecord)
    ensures
        flight.actual_off is Some ==> record_view(flight).departure_time() == stamp_text(
            flight.actual_off,
        ),
        flight.actual_off is None ==> record_view(flight).departure_time() == stamp_text(
            flight.estimated_off,
        ),
        flight.actual_on is Some ==> record_view(flight).arrival_time() == stamp_text(
            flight.actual_on,
        ),
        flight.actual_on is None ==> record_view(flight).arrival_time() == stamp_text(
            flight.estimated_on,
        ),
{
}

/// The status of a flight record. The rules are tried in order and the
/// first that applies decides: a cancelled flight is cancelled whatever
/// else is reported; a flight that has left and not arrived is en route; a
/// flight with a departure or arrival delay above zero is delayed; any
/// other flight is on time.
pub fn determine_flight_status(flight: &FlightRecord) -> (status: FlightStatus)
    ensures
        status == flight.status(),
        flight.cancelled ==> status == FlightStatus::Cancelled,
        !flight.cancelled && flight.actual_off is Some && flight.actual_on is None ==> status
            == FlightStatus::EnRoute,
        status == FlightStatus::Delayed <==> !flight.cancelled && !flight.airborne() && (
        (flight.departure_delay matches Some(delay) && delay > 0) || (
        flight.arrival_delay matches Some(delay) && delay > 0)),
        status == FlightStatus::OnTime <==> !flight.cancelled && !flight.airborne()
            && !flight.late(),
{
    if flight.cancelled {
        return FlightStatus::Cancelled;
    }
    if flight.actual_off.is_some() && flight.actual_on.is_none() {
        return FlightStatus::EnRoute;
    }
    if let Some(delay) = flight.departure_delay {
        if delay > 0 {
            return FlightStatus::Delayed;
        }
    }
    if let Some(delay) = flight.arrival_delay {
        if delay > 0 {
            return FlightStatus::Delayed;
        }
    }
    FlightStatus::OnTime
}

/// The RFC 3339 text of a moment, none for none.
pub fn datetime_to_string(dt: Option<&Instant>) -> (text: Option<String>)
    ensures
        text_of(text) == match dt {
            Some(i) => Some(rfc3339_text(i.secs(), i.nanos())),
            None => None,
        },
{
    match dt {
        Some(at) => {
            proof {
                use_type_invariant(at);
            }
            Some(rfc3339(at))
        },
        None => None,
    }
}

/// The code shown for an optional airport: its IATA code where it has one,
/// else its ICAO code.
pub fn preferred_airport_code(airport: &Option<AirportRef>) -> (code: Option<String>)
    ensures
        text_of(code) == airport_code(*airport),
{
    match airport {
        Some(a) => match &a.code_iata {
            Some(iata) => Some(iata.clone()),
            None => match &a.code_icao {
                Some(icao) => Some(icao.clone()),
                None => None,
            },
        },
        None => None,
    }
}

/// The view model of a flight record: its identifier and status, its six
/// timestamps as RFC 3339 text, its progress, and the codes of its origin
/// and destination.
pub fn flight_to_view_model(flight: &FlightRecord) -> (model: FlightStatusViewModel)
    ensures
        model@ == record_view(*flight),
{
    FlightStatusViewModel {
        flight_number: flight.ident.clone(),
        status: determine_flight_status(flight),
        scheduled_departure: datetime_to_string(flight.scheduled_off.as_ref()),
        scheduled_arrival: datetime_to_string(flight.scheduled_on.as_ref()),
        estimated_departure: datetime_to_string(flight.estimated_off.as_ref()),
        estimated_arrival: datetime_to_string(flight.estimated_on.as_ref()),
        actual_departure: datetime_to_string(flight.actual_off.as_ref()),
        actual_arrival: datetime_to_string(flight.actual_on.as_ref()),
        progress_percent: flight.progress_percent,
        origin_airport: preferred_airport_code(&flight.origin),
        destination_airport: preferred_airport_code(&flight.destination),
    }
}

impl<'a> From<&'a FlightRecord> for FlightStatusViewModel {
    /// The view model of a flight record, as `flight_to_view_model` makes it.
    fn from(flight: &'a FlightRecord) -> (model: Self)
        ensures
            model@ == record_view(*flight),
    {
        flight_to_view_model(flight)
    }
}

impl<'a> FromSpecImpl<&'a FlightRecord> for FlightStatusViewModel {
    /// A view model is told from another by what it holds, which `from`
    /// states of its result; of the value itself nothing is claimed.
    open spec fn obeys_from_spec() -> bool {
        false
    }

    open spec fn from_spec(flight: &'a FlightRecord) -> Self {
        choose|model: FlightStatusViewModel| model@ == record_view(*flight)
    }
}

} // verus!
