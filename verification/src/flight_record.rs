//! One instance of a flight as the data provider reports it.

use crate::flight_status::{text_of, FlightStatus};
use crate::instant::Instant;
use vstd::prelude::*;

verus! {

/// The codes by which an airport is known.
#[derive(Debug, Clone)]
pub struct AirportRef {
    pub code_iata: Option<String>,
    pub code_icao: Option<String>,
}

impl AirportRef {
    /// The code shown for this airport: the IATA code where there is one,
    /// else the ICAO code.
    pub open spec fn preferred_code(self) -> Option<Seq<char>> {
        if self.code_iata is Some {
            text_of(self.code_iata)
        } else {
            text_of(self.code_icao)
        }
    }
}

/// One provider-reported instance of a flight: a specific day's operation
/// of a flight number. Delays are in seconds, positive when late.
#[derive(Debug, Clone)]
pub struct FlightRecord {
    pub ident: String,
    pub fa_flight_id: String,
    pub cancelled: bool,
    pub origin: Option<AirportRef>,
    pub destination: Option<AirportRef>,
    pub departure_delay: Option<i64>,
    pub arrival_delay: Option<i64>,
    pub scheduled_off: Option<Instant>,
    pub estimated_off: Option<Instant>,
    pub actual_off: Option<Instant>,
    pub scheduled_on: Option<Instant>,
    pub estimated_on: Option<Instant>,
    pub actual_on: Option<Instant>,
    pub progress_percent: Option<i64>,
}

impl FlightRecord {
    /// The flight has left the ground and not come down again.
    pub open spec fn airborne(self) -> bool {
        self.actual_off is Some && self.actual_on is None
    }

    /// One of the two delays is reported and above zero.
    pub open spec fn late(self) -> bool {
        ||| self.departure_delay matches Some(delay) && delay > 0
        ||| self.arrival_delay matches Some(delay) && delay > 0
    }

    /// The status of the record. The first rule that applies decides:
    /// cancelled, then airborne, then late, else on time.
    pub open spec fn status(self) -> FlightStatus {
        if self.cancelled {
            FlightStatus::Cancelled
        } else if self.airborne() {
            FlightStatus::EnRoute
        } else if self.late() {
            FlightStatus::Delayed
        } else {
            FlightStatus::OnTime
        }
    }
}

} // verus!
