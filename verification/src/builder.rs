//! A builder for view models: set what is known, leave the rest to the
//! defaults, then build.

use crate::flight_status::{text_of, FlightStatus, FlightStatusView, FlightStatusViewModel};
use vstd::prelude::*;
use vstd::std_specs::convert::FromSpecImpl;
use vstd::string::StringExecFns;

verus! {

/// Why a view model could not be built.
#[derive(Debug, Clone)]
pub enum FlightStatusViewModelBuilderError {
    /// A field without a default was not set.
    UninitializedField(String),
    /// What was set does not make a valid view model.
    ValidationError(String),
}

/// A view model in the making. A field that was not set is `None`.
#[derive(Debug, Clone)]
pub struct FlightStatusViewModelBuilder {
    pub flight_number: Option<String>,
    pub status: Option<FlightStatus>,
    pub scheduled_departure: Option<Option<String>>,
    pub scheduled_arrival: Option<Option<String>>,
    pub estimated_departure: Option<Option<String>>,
    pub estimated_arrival: Option<Option<String>>,
    pub actual_departure: Option<Option<String>>,
    pub actual_arrival: Option<Option<String>>,
    pub progress_percent: Option<Option<i64>>,
    pub origin_airport: Option<Option<String>>,
    pub destination_airport: Option<Option<String>>,
}

/// The text of an optional string that may not have been set.
pub open spec fn set_text_of(field: Option<Option<String>>) -> Option<Option<Seq<char>>> {
    match field {
        Some(value) => Some(text_of(value)),
        None => None,
    }
}

/// What a builder holds, with each string as the sequence of its characters.
pub struct FlightStatusBuilderView {
    pub flight_number: Option<Seq<char>>,
    pub status: Option<FlightStatus>,
    pub scheduled_departure: Option<Option<Seq<char>>>,
    pub scheduled_arrival: Option<Option<Seq<char>>>,
    pub estimated_departure: Option<Option<Seq<char>>>,
    pub estimated_arrival: Option<Option<Seq<char>>>,
    pub actual_departure: Option<Option<Seq<char>>>,
    pub actual_arrival: Option<Option<Seq<char>>>,
    pub progress_percent: Option<Option<i64>>,
    pub origin_airport: Option<Option<Seq<char>>>,
    pub destination_airport: Option<Option<Seq<char>>>,
}

impl View for FlightStatusViewModelBuilder {
    type V = FlightStatusBuilderView;

    open spec fn view(&self) -> FlightStatusBuilderView {
        FlightStatusBuilderView {
            flight_number: text_of(self.flight_number),
            status: self.status,
            scheduled_departure: set_text_of(self.scheduled_departure),
            scheduled_arrival: set_text_of(self.scheduled_arrival),
            estimated_departure: set_text_of(self.estimated_departure),
            estimated_arrival: set_text_of(self.estimated_arrival),
            actual_departure: set_text_of(self.actual_departure),
            actual_arrival: set_text_of(self.actual_arrival),
            progress_percent: self.progress_percent,
            origin_airport: set_text_of(self.origin_airport),
            destination_airport: set_text_of(self.destination_airport),
        }
    }
}

/// The value of a field that may not have been set: absent by default.
pub open spec fn or_absent<T>(field: Option<Option<T>>) -> Option<T> {
    match field {
        Some(value) => value,
        None => None,
    }
}

impl FlightStatusBuilderView {
    /// A builder in which nothing was set.
    pub open spec fn unset() -> FlightStatusBuilderView {
        FlightStatusBuilderView {
            flight_number: None,
            status: None,
            scheduled_departure: None,
            scheduled_arrival: None,
            estimated_departure: None,
            estimated_arrival: None,
            actual_departure: None,
            actual_arrival: None,
            progress_percent: None,
            origin_airport: None,
            destination_airport: None,
        }
    }

    /// A builder in which every field was set to what `model` holds.
    pub open spec fn of(model: FlightStatusView) -> FlightStatusBuilderView {
        FlightStatusBuilderView {
            flight_number: Some(model.flight_number),
            status: Some(model.status),
            scheduled_departure: Some(model.scheduled_departure),
            scheduled_arrival: Some(model.scheduled_arrival),
            estimated_departure: Some(model.estimated_departure),
            estimated_arrival: Some(model.estimated_arrival),
            actual_departure: Some(model.actual_departure),
            actual_arrival: Some(model.actual_arrival),
            progress_percent: Some(model.progress_percent),
            origin_airport: Some(model.origin_airport),
            destination_airport: Some(model.destination_airport),
        }
    }

    /// The view model that this builder builds: each field as it was set,
    /// and where it was not, an empty flight number, on time, or absent.
    pub open spec fn built(self) -> FlightStatusView {
        FlightStatusView {
            flight_number: match self.flight_number {
                Some(number) => number,
                None => Seq::empty(),
            },
            status: match self.status {
                Some(status) => status,
                None => FlightStatus::OnTime,
            },
            scheduled_departure: or_absent(self.scheduled_departure),
            scheduled_arrival: or_absent(self.scheduled_arrival),
            estimated_departure: or_absent(self.estimated_departure),
            estimated_arrival: or_absent(self.estimated_arrival),
            actual_departure: or_absent(self.actual_departure),
            actual_arrival: or_absent(self.actual_arrival),
            progress_percent: or_absent(self.progress_percent),
            origin_airport: or_absent(self.origin_airport),
            destination_airport: or_absent(self.destination_airport),
        }
    }
}

impl Default for FlightStatusViewModelBuilder {
    fn default() -> (builder: Self)
        ensures
            builder@ == FlightStatusBuilderView::unset(),
    {
        FlightStatusViewModelBuilder {
            flight_number: None,
            status: None,
            scheduled_departure: None,
            scheduled_arrival: None,
            estimated_departure: None,
            estimated_arrival: None,
            actual_departure: None,
            actual_arrival: None,
            progress_percent: None,
            origin_airport: None,
            destination_airport: None,
        }
    }
}

impl FlightStatusViewModelBuilder {
    /// Sets the flight number.
    pub fn flight_number(&mut self, value: &str) -> (builder: &mut Self)
        ensures
            builder@ == (FlightStatusBuilderView { flight_number: Some(value@), ..old(self)@ }),
            *final(self) == *final(builder),
    {
        self.flight_number = Some(String::from_str(value));
        self
    }

    /// Sets the status.
    pub fn status(&mut self, value: FlightStatus) -> (builder: &mut Self)
        ensures
            builder@ == (FlightStatusBuilderView { status: Some(value), ..old(self)@ }),
            *final(self) == *final(builder),
    {
        self.status = Some(value);
        self
    }

    /// Sets the scheduled departure, which may be absent.
    pub fn scheduled_departure(&mut self, value: Option<String>) -> (builder: &mut Self)
        ensures
            builder@ == (FlightStatusBuilderView {
                scheduled_departure: Some(text_of(value)),
                ..old(self)@
            }),
            *final(self) == *final(builder),
    {
        self.scheduled_departure = Some(value);
        self
    }

    /// Sets the scheduled arrival, which may be absent.
    pub fn scheduled_arrival(&mut self, value: Option<String>) -> (builder: &mut Self)
        ensures
            builder@ == (FlightStatusBuilderView {
                scheduled_arrival: Some(text_of(value)),
                ..old(self)@
            }),
            *final(self) == *final(builder),
    {
        self.scheduled_arrival = Some(value);
        self
    }

    /// Sets the estimated departure, which may be absent.
    pub fn estimated_departure(&mut self, value: Option<String>) -> (builder: &mut Self)
        ensures
            builder@ == (FlightStatusBuilderView {
                estimated_departure: Some(text_of(value)),
                ..old(self)@
            }),
            *final(self) == *final(builder),
    {
        self.estimated_departure = Some(value);
        self
    }

    /// Sets the estimated arrival, which may be absent.
    pub fn estimated_arrival(&mut self, value: Option<String>) -> (builder: &mut Self)
        ensures
            builder@ == (FlightStatusBuilderView {
                estimated_arrival: Some(text_of(value)),
                ..old(self)@
            }),
            *final(self) == *final(builder),
    {
        self.estimated_arrival = Some(value);
        self
    }

    /// Sets the actual departure, which may be absent.
    pub fn actual_departure(&mut self, value: Option<String>) -> (builder: &mut Self)
        ensures
            builder@ == (FlightStatusBuilderView {
                actual_departure: Some(text_of(value)),
                ..old(self)@
            }),
            *final(self) == *final(builder),
    {
        self.actual_departure = Some(value);
        self
    }

    /// Sets the actual arrival, which may be absent.
    pub fn actual_arrival(&mut self, value: Option<String>) -> (builder: &mut Self)
        ensures
            builder@ == (FlightStatusBuilderView {
                actual_arrival: Some(text_of(value)),
                ..old(self)@
            }),
            *final(self) == *final(builder),
    {
        self.actual_arrival = Some(value);
        self
    }

    /// Sets the progress in percent, which may be absent.
    pub fn progress_percent(&mut self, value: Option<i64>) -> (builder: &mut Self)
        ensures
            builder@ == (FlightStatusBuilderView { progress_percent: Some(value), ..old(self)@ }),
            *final(self) == *final(builder),
    {
        self.progress_percent = Some(value);
        self
    }

    /// Sets the code of the origin airport, which may be absent.
    pub fn origin_airport(&mut self, value: Option<String>) -> (builder: &mut Self)
        ensures
            builder@ == (FlightStatusBuilderView {
                origin_airport: Some(text_of(value)),
                ..old(self)@
            }),
            *final(self) == *final(builder),
    {
        self.origin_airport = Some(value);
        self
    }

    /// Sets the code of the destination airport, which may be absent.
    pub fn destination_airport(&mut self, value: Option<String>) -> (builder: &mut Self)
        ensures
            builder@ == (FlightStatusBuilderView {
                destination_airport: Some(text_of(value)),
                ..old(self)@
            }),
            *final(self) == *final(builder),
    {
        self.destination_airport = Some(value);
        self
    }

    /// Builds the view model: each field as it was set, and where it was
    /// not, an empty flight number, on time, or absent. This never fails.
    pub fn build(&self) -> (made: Result<FlightStatusViewModel, FlightStatusViewModelBuilderError>)
        ensures
            made matches Ok(model) && model@ == self@.built(),
    {
        Ok(
            FlightStatusViewModel {
                flight_number: match &self.flight_number {
                    Some(number) => number.clone(),
                    None => String::new(),
                },
                status: match self.status {
                    Some(status) => status,
                    None => FlightStatus::OnTime,
                },
                scheduled_departure: clone_or_absent(&self.scheduled_departure),
                scheduled_arrival: clone_or_absent(&self.scheduled_arrival),
                estimated_departure: clone_or_absent(&self.estimated_departure),
                estimated_arrival: clone_or_absent(&self.estimated_arrival),
                actual_departure: clone_or_absent(&self.actual_departure),
                actual_arrival: clone_or_absent(&self.actual_arrival),
                progress_percent: match self.progress_percent {
                    Some(progress) => progress,
                    None => None,
                },
                origin_airport: clone_or_absent(&self.origin_airport),
                destination_airport: clone_or_absent(&self.destination_airport),
            },
        )
    }
}

/// A copy of a field that may not have been set: absent by default.
fn clone_or_absent(field: &Option<Option<String>>) -> (copy: Option<String>)
    ensures
        text_of(copy) == or_absent(set_text_of(*field)),
{
    match field {
        Some(Some(text)) => Some(text.clone()),
        _ => None,
    }
}

impl From<FlightStatusViewModel> for FlightStatusViewModelBuilder {
    /// A builder in which every field is set to what `view_model` holds.
    fn from(view_model: FlightStatusViewModel) -> (builder: Self)
        ensures
            builder@ == FlightStatusBuilderView::of(view_model@),
    {
        let mut builder = FlightStatusViewModelBuilder::default();
        builder.flight_number(view_model.flight_number.as_str());
        builder.status(view_model.status);
        builder.scheduled_departure(view_model.scheduled_departure);
        builder.scheduled_arrival(view_model.scheduled_arrival);
        builder.estimated_departure(view_model.estimated_departure);
        builder.estimated_arrival(view_model.estimated_arrival);
        builder.actual_departure(view_model.actual_departure);
        builder.actual_arrival(view_model.actual_arrival);
        builder.progress_percent(view_model.progress_percent);
        builder.origin_airport(view_model.origin_airport);
        builder.destination_airport(view_model.destination_airport);
        builder
    }
}

impl FromSpecImpl<FlightStatusViewModel> for FlightStatusViewModelBuilder {
    /// A builder is told from another by what it holds, which `from` states
    /// of its result; of the value itself nothing is claimed.
    open spec fn obeys_from_spec() -> bool {
        false
    }

    open spec fn from_spec(view_model: FlightStatusViewModel) -> Self {
        choose|builder: FlightStatusViewModelBuilder|
            builder@ == FlightStatusBuilderView::of(view_model@)
    }
}

impl FlightStatusViewModel {
    /// This view model with its progress replaced by `progress` and every
    /// other field as it is.
    pub fn with_progress(self, progress: Option<i64>) -> (model: FlightStatusViewModel)
        ensures
            model@ == (FlightStatusView { progress_percent: progress, ..self@ }),
    {
        let mut builder = FlightStatusViewModelBuilder::from(self);
        builder.progress_percent(progress);
        builder.build().unwrap()
    }
}

} // verus!
