//! The categorical status of a flight and the display-ready view model.

use vstd::prelude::*;
use vstd::string::StringExecFns;

verus! {

/// The categorical status of one flight instance.
#[derive(Debug, Clone, Copy, PartialEq, Eq, Structural)]
pub enum FlightStatus {
    OnTime,
    Delayed,
    Cancelled,
    EnRoute,
}

impl Default for FlightStatus {
    fn default() -> (status: Self)
        ensures
            status == FlightStatus::OnTime,
    {
        FlightStatus::OnTime
    }
}

impl FlightStatus {
    /// The words shown for this status.
    pub open spec fn label(self) -> Seq<char> {
        match self {
            FlightStatus::OnTime => "On Time"@,
            FlightStatus::Delayed => "Delayed"@,
            FlightStatus::Cancelled => "Cancelled"@,
            FlightStatus::EnRoute => "En Route"@,
        }
    }

    /// The words shown for this status.
    pub fn to_string(&self) -> (text: String)
        ensures
            text@ == self.label(),
    {
        match self {
            FlightStatus::OnTime => String::from_str("On Time"),
            FlightStatus::Delayed => String::from_str("Delayed"),
            FlightStatus::Cancelled => String::from_str("Cancelled"),
            FlightStatus::EnRoute => String::from_str("En Route"),
        }
    }
}

/// The text of an optional string.
pub open spec fn text_of(field: Option<String>) -> Option<Seq<char>> {
    match field {
        Some(s) => Some(s@),
        None => None,
    }
}

/// The display-ready snapshot of one flight. Timestamps are ISO 8601 text.
#[derive(Debug, Clone)]
pub struct FlightStatusViewModel {
    pub flight_number: String,
    pub status: FlightStatus,
    pub scheduled_departure: Option<String>,
    pub scheduled_arrival: Option<String>,
    pub estimated_departure: Option<String>,
    pub estimated_arrival: Option<String>,
    pub actual_departure: Option<String>,
    pub actual_arrival: Option<String>,
    pub progress_percent: Option<i64>,
    pub origin_airport: Option<String>,
    pub destination_airport: Option<String>,
}

/// What a view model holds, with each string as the sequence of its characters.
pub struct FlightStatusView {
    pub flight_number: Seq<char>,
    pub status: FlightStatus,
    pub scheduled_departure: Option<Seq<char>>,
    pub scheduled_arrival: Option<Seq<char>>,
    pub estimated_departure: Option<Seq<char>>,
    pub estimated_arrival: Option<Seq<char>>,
    pub actual_departure: Option<Seq<char>>,
    pub actual_arrival: Option<Seq<char>>,
    pub progress_percent: Option<i64>,
    pub origin_airport: Option<Seq<char>>,
    pub destination_airport: Option<Seq<char>>,
}

impl View for FlightStatusViewModel {
    type V = FlightStatusView;

    open spec fn view(&self) -> FlightStatusView {
        FlightStatusView {
            flight_number: self.flight_number@,
            status: self.status,
            scheduled_departure: text_of(self.scheduled_departure),
            scheduled_arrival: text_of(self.scheduled_arrival),
            estimated_departure: text_of(self.estimated_departure),
            estimated_arrival: text_of(self.estimated_arrival),
            actual_departure: text_of(self.actual_departure),
            actual_arrival: text_of(self.actual_arrival),
            progress_percent: self.progress_percent,
            origin_airport: text_of(self.origin_airport),
            destination_airport: text_of(self.destination_airport),
        }
    }
}

impl FlightStatusView {
    /// The view of a view model that was given nothing: an empty flight
    /// number, on time, every optional field absent.
    pub open spec fn empty() -> FlightStatusView {
        FlightStatusView {
            flight_number: Seq::empty(),
            status: FlightStatus::OnTime,
            scheduled_departure: None,
            scheduled_arrival: None,
            estimated_departure: None,
            estimated_arrival: None,
            actual_departure: None,
            actual_arrival: None,
            progress_percent: None,
            origin_airport: None,
            destination_airport: None,
        }
    }

    /// The effective departure: the actual one where present, else the
    /// estimated one.
    pub open spec fn departure_time(self) -> Option<Seq<char>> {
        if self.actual_departure is Some {
            self.actual_departure
        } else {
            self.estimated_departure
        }
    }

    /// The effective arrival: the actual one where present, else the
    /// estimated one.
    pub open spec fn arrival_time(self) -> Option<Seq<char>> {
        if self.actual_arrival is Some {
            self.actual_arrival
        } else {
            self.estimated_arrival
        }
    }

    /// The progress shown: the reported percentage, or zero where none is
    /// reported.
    pub open spec fn progress_percentage(self) -> int {
        match self.progress_percent {
            Some(p) => p as int,
            None => 0,
        }
    }
}

impl Default for FlightStatusViewModel {
    fn default() -> (model: Self)
        ensures
            model@ == FlightStatusView::empty(),
    {
        FlightStatusViewModel {
            flight_number: String::new(),
            status: FlightStatus::OnTime,
            scheduled_departure: None,
            scheduled_arrival: None,
            estimated_departure: None,
            estimated_arrival: None,
            actual_departure: None,
            actual_arrival: None,
            progress_percent: None,
            origin_airport: None,
            destination_airport: None,
        }
    }
}

/// The string slice inside an optional string.
pub(crate) fn as_text(field: &Option<String>) -> (text: Option<&str>)
    ensures
        match text {
            Some(s) => text_of(*field) == Some(s@),
            None => field is None,
        },
{
    match field {
        Some(s) => Some(s.as_str()),
        None => None,
    }
}

impl FlightStatusViewModel {
    /// The effective departure: the actual one where present, else the
    /// estimated one, else none.
    pub fn departure_time(&self) -> (time: Option<&str>)
        ensures
            match time {
                Some(s) => self@.departure_time() == Some(s@),
                None => self@.departure_time() is None,
            },
    {
        match as_text(&self.actual_departure) {
            Some(s) => Some(s),
            None => as_text(&self.estimated_departure),
        }
    }

    /// The effective arrival: the actual one where present, else the
    /// estimated one, else none.
    pub fn arrival_time(&self) -> (time: Option<&str>)
        ensures
            match time {
                Some(s) => self@.arrival_time() == Some(s@),
                None => self@.arrival_time() is None,
            },
    {
        match as_text(&self.actual_arrival) {
            Some(s) => Some(s),
            None => as_text(&self.estimated_arrival),
        }
    }

    /// The progress shown, in percent: the reported percentage as it stands,
    /// or zero where none is reported.
    pub fn progress_percentage(&self) -> (percent: i64)
        ensures
            percent == self@.progress_percentage(),
    {
        match self.progress_percent {
            Some(p) => p,
            None => 0,
        }
    }
}

} // verus!
