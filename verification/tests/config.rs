use flui::{Config, ConfigurationError};

#[test]
fn test_config_from_options_with_both_values() {
    let result = Config::from_options(Some("AA100".to_string()), Some("test-api-key".to_string()), 5);

    assert!(result.is_ok());
    let config = result.unwrap();
    assert_eq!(config.flight_number, "AA100");
    assert_eq!(config.flight_aware_api_key, "test-api-key");
    assert_eq!(config.refresh_interval, 5);
}

#[test]
fn test_config_from_options_missing_flight_number() {
    let result = Config::from_options(None, Some("test-api-key".to_string()), 5);

    assert!(result.is_err());
    match result.unwrap_err() {
        ConfigurationError::MissingFlightNumber => (),
        _ => panic!("Expected MissingFlightNumber error"),
    }
}

#[test]
fn test_config_from_options_missing_api_key() {
    let result = Config::from_options(Some("AA100".to_string()), None, 5);

    assert!(result.is_err());
    match result.unwrap_err() {
        ConfigurationError::MissingApiKey => (),
        _ => panic!("Expected MissingApiKey error"),
    }
}

#[test]
fn test_config_from_options_missing_both() {
    let result = Config::from_options(None, None, 5);

    assert!(result.is_err());
    match result.unwrap_err() {
        ConfigurationError::MissingFlightNumber => (),
        _ => panic!("Expected MissingFlightNumber error"),
    }
}

#[test]
fn test_configuration_error_display_flight_number() {
    let error = ConfigurationError::MissingFlightNumber;
    let message = error.to_string();
    assert!(message.contains("Flight number is required"));
    assert!(message.contains("--flight-number"));
    assert!(message.contains("FLIGHT_NUMBER"));
}

#[test]
fn test_configuration_error_display_api_key() {
    let error = ConfigurationError::MissingApiKey;
    let message = error.to_string();
    assert!(message.contains("FlightAware API key is required"));
    assert!(message.contains("--api-key"));
    assert!(message.contains("FLIGHTAWARE_API_KEY"));
}

#[test]
fn configuration_error_messages_are_exact() {
    assert_eq!(
        ConfigurationError::MissingFlightNumber.to_string(),
        "Flight number is required. Provide via --flight-number flag or FLIGHT_NUMBER environment variable"
    );
    assert_eq!(
        ConfigurationError::MissingApiKey.to_string(),
        "FlightAware API key is required. Provide via --api-key flag or FLIGHTAWARE_API_KEY environment variable"
    );
}

#[test]
fn config_keeps_the_refresh_interval_as_given() {
    let config = Config::from_options(Some("X".to_string()), Some("K".to_string()), 0).unwrap();
    assert_eq!(config.refresh_interval, 0);
    let config =
        Config::from_options(Some(String::new()), Some(String::new()), u64::MAX).unwrap();
    assert_eq!(config.refresh_interval, u64::MAX);
    assert_eq!(config.flight_number, "");
    assert_eq!(config.flight_aware_api_key, "");
}
