//! Flight-status derivation and the temporal view model of a tracked flight:
//! which of the reported records matters now, what its status is, and what
//! the display says about its times and its progress.

pub mod api_converter;
pub mod builder;
pub mod clock;
pub mod config;
pub mod decimal;
pub mod flight_record;
pub mod flight_status;
pub mod instant;
pub mod pipeline;
pub mod selector;
pub mod temporal;
pub mod ui;

pub use api_converter::{determine_flight_status, flight_to_view_model};
pub use builder::{FlightStatusViewModelBuilder, FlightStatusViewModelBuilderError};
pub use config::{Config, ConfigurationError};
pub use flight_record::{AirportRef, FlightRecord};
pub use flight_status::{FlightStatus, FlightStatusViewModel};
pub use instant::Instant;
pub use selector::{select_relevant_flight, select_relevant_flight_at};
