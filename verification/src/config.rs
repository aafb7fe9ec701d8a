//! What the tracker needs to know before it starts.

use vstd::prelude::*;
use vstd::string::StringExecFns;

verus! {

/// What is missing from the configuration.
#[derive(Debug, Clone, Copy, PartialEq, Eq, Structural)]
pub enum ConfigurationError {
    MissingFlightNumber,
    MissingApiKey,
}

impl ConfigurationError {
    /// The message for the operator.
    pub open spec fn message(self) -> Seq<char> {
        match self {
            ConfigurationError::MissingFlightNumber =>
                "Flight number is required. Provide via --flight-number flag or FLIGHT_NUMBER environment variable"@,
            ConfigurationError::MissingApiKey =>
                "FlightAware API key is required. Provide via --api-key flag or FLIGHTAWARE_API_KEY environment variable"@,
        }
    }

    /// The message for the operator.
    pub fn to_string(&self) -> (text: String)
        ensures
            text@ == self.message(),
    {
        match self {
            ConfigurationError::MissingFlightNumber => String::from_str(
                "Flight number is required. Provide via --flight-number flag or FLIGHT_NUMBER environment variable",
            ),
            ConfigurationError::MissingApiKey => String::from_str(
                "FlightAware API key is required. Provide via --api-key flag or FLIGHTAWARE_API_KEY environment variable",
            ),
        }
    }
}

/// The flight to track, the key for the data provider, and the seconds
/// between two polls.
#[derive(Debug)]
pub struct Config {
    pub flight_number: String,
    pub flight_aware_api_key: String,
    pub refresh_interval: u64,
}

impl Config {
    /// The configuration made of the three options. A missing flight number
    /// is reported before a missing key.
    pub fn from_options(
        flight_number: Option<String>,
        api_key: Option<String>,
        refresh_interval: u64,
    ) -> (made: Result<Config, ConfigurationError>)
        ensures
            match made {
                Ok(config) => flight_number == Some(config.flight_number) && api_key == Some(
                    config.flight_aware_api_key,
                ) && config.refresh_interval == refresh_interval,
                Err(ConfigurationError::MissingFlightNumber) => flight_number is None,
                Err(ConfigurationError::MissingApiKey) => flight_number is Some && api_key is None,
            },
    {
        let flight_number = match flight_number {
            Some(number) => number,
            None => {
                return Err(ConfigurationError::MissingFlightNumber);
            },
        };
        let flight_aware_api_key = match api_key {
            Some(key) => key,
            None => {
                return Err(ConfigurationError::MissingApiKey);
            },
        };
        Ok(Config { flight_number, flight_aware_api_key, refresh_interval })
    }
}

} // verus!
