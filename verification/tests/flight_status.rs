use chrono::{Duration, Utc};
use flui::{FlightStatus, FlightStatusViewModel, FlightStatusViewModelBuilder};

fn text(s: &str) -> Option<String> {
    Some(s.to_string())
}

#[test]
fn test_flight_status_display() {
    assert_eq!(FlightStatus::OnTime.to_string(), "On Time");
    assert_eq!(FlightStatus::Delayed.to_string(), "Delayed");
    assert_eq!(FlightStatus::Cancelled.to_string(), "Cancelled");
    assert_eq!(FlightStatus::EnRoute.to_string(), "En Route");
}

#[test]
fn test_flight_status_view_model_departure_time_actual() {
    let view_model = FlightStatusViewModel {
        flight_number: "AA100".to_string(),
        status: FlightStatus::EnRoute,
        scheduled_departure: Some("10:00".to_string()),
        scheduled_arrival: Some("14:00".to_string()),
        estimated_departure: Some("10:15".to_string()),
        estimated_arrival: Some("14:20".to_string()),
        actual_departure: Some("10:20".to_string()),
        actual_arrival: None,
        progress_percent: Some(50),
        origin_airport: None,
        destination_airport: None,
    };

    assert_eq!(view_model.departure_time(), Some("10:20"));
}

#[test]
fn test_flight_status_view_model_departure_time_estimated() {
    let view_model = FlightStatusViewModel {
        flight_number: "AA100".to_string(),
        status: FlightStatus::OnTime,
        scheduled_departure: Some("10:00".to_string()),
        scheduled_arrival: Some("14:00".to_string()),
        estimated_departure: Some("10:15".to_string()),
        estimated_arrival: Some("14:20".to_string()),
        actual_departure: None,
        actual_arrival: None,
        progress_percent: Some(50),
        origin_airport: None,
        destination_airport: None,
    };

    assert_eq!(view_model.departure_time(), Some("10:15"));
}

#[test]
fn test_flight_status_view_model_arrival_time_actual() {
    let view_model = FlightStatusViewModel {
        flight_number: "AA100".to_string(),
        status: FlightStatus::OnTime,
        scheduled_departure: Some("10:00".to_string()),
        scheduled_arrival: Some("14:00".to_string()),
        estimated_departure: Some("10:15".to_string()),
        estimated_arrival: Some("14:20".to_string()),
        actual_departure: Some("10:20".to_string()),
        actual_arrival: Some("14:25".to_string()),
        progress_percent: Some(100),
        origin_airport: None,
        destination_airport: None,
    };

    assert_eq!(view_model.arrival_time(), Some("14:25"));
}

#[test]
fn test_flight_status_view_model_arrival_time_estimated() {
    let view_model = FlightStatusViewModel {
        flight_number: "AA100".to_string(),
        status: FlightStatus::Delayed,
        scheduled_departure: Some("10:00".to_string()),
        scheduled_arrival: Some("14:00".to_string()),
        estimated_departure: Some("10:15".to_string()),
        estimated_arrival: Some("14:20".to_string()),
        actual_departure: None,
        actual_arrival: None,
        progress_percent: Some(50),
        origin_airport: None,
        destination_airport: None,
    };

    assert_eq!(view_model.arrival_time(), Some("14:20"));
}

#[test]
fn test_flight_status_view_model_no_times() {
    let view_model = FlightStatusViewModel {
        flight_number: "AA100".to_string(),
        status: FlightStatus::Cancelled,
        scheduled_departure: Some("10:00".to_string()),
        scheduled_arrival: Some("14:00".to_string()),
        estimated_departure: None,
        estimated_arrival: None,
        actual_departure: None,
        actual_arrival: None,
        progress_percent: Some(50),
        origin_airport: None,
        destination_airport: None,
    };

    assert_eq!(view_model.departure_time(), None);
    assert_eq!(view_model.arrival_time(), None);
}

#[test]
fn test_progress_percentage_some() {
    let view_model = FlightStatusViewModel {
        flight_number: "AA100".to_string(),
        status: FlightStatus::EnRoute,
        scheduled_departure: Some("10:00".to_string()),
        scheduled_arrival: Some("14:00".to_string()),
        estimated_departure: Some("10:15".to_string()),
        estimated_arrival: Some("14:20".to_string()),
        actual_departure: Some("10:20".to_string()),
        actual_arrival: None,
        progress_percent: Some(45),
        origin_airport: None,
        destination_airport: None,
    };

    assert_eq!(view_model.progress_percentage() as f64, 45.0);
}

#[test]
fn test_progress_percentage_none() {
    let view_model = FlightStatusViewModel {
        flight_number: "AA100".to_string(),
        status: FlightStatus::Cancelled,
        scheduled_departure: Some("10:00".to_string()),
        scheduled_arrival: Some("14:00".to_string()),
        estimated_departure: None,
        estimated_arrival: None,
        actual_departure: None,
        actual_arrival: None,
        progress_percent: None,
        origin_airport: None,
        destination_airport: None,
    };

    assert_eq!(view_model.progress_percentage() as f64, 0.0);
}

#[test]
fn test_formatted_arrival_time() {
    let view_model = FlightStatusViewModel {
        flight_number: "AA100".to_string(),
        status: FlightStatus::OnTime,
        scheduled_departure: Some("2025-11-16T10:00:00Z".to_string()),
        scheduled_arrival: Some("2025-11-16T14:00:00Z".to_string()),
        estimated_departure: Some("2025-11-16T10:00:00Z".to_string()),
        estimated_arrival: Some("2025-11-16T14:00:00Z".to_string()),
        actual_departure: None,
        actual_arrival: None,
        progress_percent: Some(0),
        origin_airport: None,
        destination_airport: None,
    };

    let formatted = view_model.formatted_arrival_time();
    assert!(formatted.is_some());

    // The formatted string should contain the year
    let formatted_str = formatted.unwrap();
    assert!(formatted_str.contains("2025"));

    // Should contain "at" separator
    assert!(formatted_str.contains("at"));
}

#[test]
fn test_formatted_arrival_time_none() {
    let view_model = FlightStatusViewModel {
        flight_number: "AA100".to_string(),
        status: FlightStatus::Cancelled,
        scheduled_departure: None,
        scheduled_arrival: None,
        estimated_departure: None,
        estimated_arrival: None,
        actual_departure: None,
        actual_arrival: None,
        progress_percent: None,
        origin_airport: None,
        destination_airport: None,
    };

    assert!(view_model.formatted_arrival_time().is_none());
}

#[test]
fn test_builder_basic() {
    let view_model = FlightStatusViewModelBuilder::default()
        .flight_number("AA100")
        .status(FlightStatus::OnTime)
        .scheduled_departure(Some("2025-11-16T10:00:00Z".to_string()))
        .scheduled_arrival(Some("2025-11-16T14:00:00Z".to_string()))
        .estimated_departure(Some("2025-11-16T10:00:00Z".to_string()))
        .estimated_arrival(Some("2025-11-16T14:00:00Z".to_string()))
        .actual_departure(None)
        .actual_arrival(None)
        .progress_percent(Some(0))
        .build()
        .unwrap();

    assert_eq!(view_model.flight_number, "AA100");
    assert_eq!(view_model.status, FlightStatus::OnTime);
    assert_eq!(view_model.progress_percent, Some(0));
}

#[test]
fn test_builder_with_none_values() {
    let view_model = FlightStatusViewModelBuilder::default()
        .flight_number("DL456")
        .status(FlightStatus::Cancelled)
        .scheduled_departure(None)
        .scheduled_arrival(None)
        .estimated_departure(None)
        .estimated_arrival(None)
        .actual_departure(None)
        .actual_arrival(None)
        .progress_percent(None)
        .build()
        .unwrap();

    assert_eq!(view_model.flight_number, "DL456");
    assert_eq!(view_model.status, FlightStatus::Cancelled);
    assert!(view_model.formatted_arrival_time().is_none());
}

#[test]
fn test_builder_with_defaults() {
    // Builder sets Option fields to None by default, only requires non-Option fields
    let view_model = FlightStatusViewModelBuilder::default()
        .flight_number("UA789")
        .status(FlightStatus::Delayed)
        .build()
        .unwrap();

    assert_eq!(view_model.flight_number, "UA789");
    assert_eq!(view_model.status, FlightStatus::Delayed);
    // All Option fields should be None when not set
    assert!(view_model.scheduled_departure.is_none());
    assert!(view_model.scheduled_arrival.is_none());
}

#[test]
fn test_time_remaining_arrived() {
    let view_model = FlightStatusViewModel {
        flight_number: "AA100".to_string(),
        status: FlightStatus::OnTime,
        scheduled_departure: Some("2025-11-16T10:00:00Z".to_string()),
        scheduled_arrival: Some("2025-11-16T14:00:00Z".to_string()),
        estimated_departure: Some("2025-11-16T10:00:00Z".to_string()),
        estimated_arrival: Some("2025-11-16T14:00:00Z".to_string()),
        actual_departure: Some("2025-11-16T10:05:00Z".to_string()),
        actual_arrival: Some("2025-11-16T14:10:00Z".to_string()),
        progress_percent: Some(100),
        origin_airport: None,
        destination_airport: None,
    };

    assert_eq!(view_model.time_remaining(), Some("Arrived".to_string()));
}

#[test]
fn test_time_remaining_none() {
    let view_model = FlightStatusViewModel {
        flight_number: "AA100".to_string(),
        status: FlightStatus::OnTime,
        scheduled_departure: Some("2025-11-16T10:00:00Z".to_string()),
        scheduled_arrival: Some("2025-11-16T14:00:00Z".to_string()),
        estimated_departure: Some("2025-11-16T10:00:00Z".to_string()),
        estimated_arrival: None,
        actual_departure: None,
        actual_arrival: None,
        progress_percent: Some(0),
        origin_airport: None,
        destination_airport: None,
    };

    assert_eq!(view_model.time_remaining(), None);
}

#[test]
fn test_is_approaching_landing_true() {
    // Flight arriving in 20 minutes
    let arrival_time = Utc::now() + Duration::minutes(20);

    let view_model = FlightStatusViewModel {
        flight_number: "AA100".to_string(),
        status: FlightStatus::EnRoute,
        scheduled_departure: Some("2025-11-16T10:00:00Z".to_string()),
        scheduled_arrival: Some(arrival_time.to_rfc3339()),
        estimated_departure: Some("2025-11-16T10:00:00Z".to_string()),
        estimated_arrival: Some(arrival_time.to_rfc3339()),
        actual_departure: Some("2025-11-16T10:05:00Z".to_string()),
        actual_arrival: None,
        progress_percent: Some(85),
        origin_airport: None,
        destination_airport: None,
    };

    assert!(view_model.is_approaching_landing(30));
    assert!(view_model.is_approaching_landing(20));
}

#[test]
fn test_is_approaching_landing_false_too_far() {
    // Flight arriving in 45 minutes
    let arrival_time = Utc::now() + Duration::minutes(45);

    let view_model = FlightStatusViewModel {
        flight_number: "AA100".to_string(),
        status: FlightStatus::EnRoute,
        scheduled_departure: Some("2025-11-16T10:00:00Z".to_string()),
        scheduled_arrival: Some(arrival_time.to_rfc3339()),
        estimated_departure: Some("2025-11-16T10:00:00Z".to_string()),
        estimated_arrival: Some(arrival_time.to_rfc3339()),
        actual_departure: Some("2025-11-16T10:05:00Z".to_string()),
        actual_arrival: None,
        progress_percent: Some(50),
        origin_airport: None,
        destination_airport: None,
    };

    assert!(!view_model.is_approaching_landing(30));
}

#[test]
fn test_is_approaching_landing_false_already_arrived() {
    let view_model = FlightStatusViewModel {
        flight_number: "AA100".to_string(),
        status: FlightStatus::OnTime,
        scheduled_departure: Some("2025-11-16T10:00:00Z".to_string()),
        scheduled_arrival: Some("2025-11-16T14:00:00Z".to_string()),
        estimated_departure: Some("2025-11-16T10:00:00Z".to_string()),
        estimated_arrival: Some("2025-11-16T14:00:00Z".to_string()),
        actual_departure: Some("2025-11-16T10:05:00Z".to_string()),
        actual_arrival: Some("2025-11-16T14:10:00Z".to_string()),
        progress_percent: Some(100),
        origin_airport: None,
        destination_airport: None,
    };

    assert!(!view_model.is_approaching_landing(30));
}

#[test]
fn default_view_model_is_empty_and_on_time() {
    let view_model = FlightStatusViewModel::default();
    assert_eq!(view_model.flight_number, "");
    assert_eq!(view_model.status, FlightStatus::OnTime);
    assert_eq!(FlightStatus::default(), FlightStatus::OnTime);
    assert!(view_model.estimated_arrival.is_none());
    assert!(view_model.progress_percent.is_none());
    assert_eq!(view_model.departure_time(), None);
    assert_eq!(view_model.progress_percentage(), 0);
}

#[test]
fn effective_times_prefer_actual_over_estimated() {
    let mut view_model = FlightStatusViewModel::default();
    view_model.estimated_departure = text("2025-11-16T10:15:00Z");
    view_model.estimated_arrival = text("2025-11-16T14:20:00Z");
    assert_eq!(view_model.departure_time(), Some("2025-11-16T10:15:00Z"));
    assert_eq!(view_model.arrival_time(), Some("2025-11-16T14:20:00Z"));
    view_model.actual_departure = text("2025-11-16T10:20:00Z");
    view_model.actual_arrival = text("2025-11-16T14:25:00Z");
    assert_eq!(view_model.departure_time(), Some("2025-11-16T10:20:00Z"));
    assert_eq!(view_model.arrival_time(), Some("2025-11-16T14:25:00Z"));
    view_model.estimated_departure = None;
    view_model.estimated_arrival = None;
    assert_eq!(view_model.departure_time(), Some("2025-11-16T10:20:00Z"));
    assert_eq!(view_model.arrival_time(), Some("2025-11-16T14:25:00Z"));
}

#[test]
fn progress_percentage_is_not_clamped() {
    let mut view_model = FlightStatusViewModel::default();
    view_model.progress_percent = Some(250);
    assert_eq!(view_model.progress_percentage(), 250);
    view_model.progress_percent = Some(-3);
    assert_eq!(view_model.progress_percentage(), -3);
    view_model.progress_percent = Some(0);
    assert_eq!(view_model.progress_percentage() as f64, 0.0);
}

#[test]
fn builder_from_view_model_copies_every_field() {
    let original = FlightStatusViewModel {
        flight_number: "HA824".to_string(),
        status: FlightStatus::EnRoute,
        scheduled_departure: text("a"),
        scheduled_arrival: text("b"),
        estimated_departure: text("c"),
        estimated_arrival: text("d"),
        actual_departure: text("e"),
        actual_arrival: None,
        progress_percent: Some(37),
        origin_airport: text("HNL"),
        destination_airport: text("KLAX"),
    };
    let rebuilt = FlightStatusViewModelBuilder::from(original.clone()).build().unwrap();
    assert_eq!(rebuilt.flight_number, "HA824");
    assert_eq!(rebuilt.status, FlightStatus::EnRoute);
    assert_eq!(rebuilt.scheduled_departure, text("a"));
    assert_eq!(rebuilt.scheduled_arrival, text("b"));
    assert_eq!(rebuilt.estimated_departure, text("c"));
    assert_eq!(rebuilt.estimated_arrival, text("d"));
    assert_eq!(rebuilt.actual_departure, text("e"));
    assert_eq!(rebuilt.actual_arrival, None);
    assert_eq!(rebuilt.progress_percent, Some(37));
    assert_eq!(rebuilt.origin_airport, text("HNL"));
    assert_eq!(rebuilt.destination_airport, text("KLAX"));
}

#[test]
fn with_progress_replaces_only_the_progress() {
    let original = FlightStatusViewModel {
        flight_number: "HA824".to_string(),
        status: FlightStatus::Delayed,
        scheduled_departure: text("a"),
        scheduled_arrival: text("b"),
        estimated_departure: text("c"),
        estimated_arrival: text("d"),
        actual_departure: text("e"),
        actual_arrival: text("f"),
        progress_percent: Some(37),
        origin_airport: text("HNL"),
        destination_airport: text("KLAX"),
    };
    let changed = original.clone().with_progress(Some(80));
    assert_eq!(changed.progress_percent, Some(80));
    assert_eq!(changed.flight_number, original.flight_number);
    assert_eq!(changed.status, original.status);
    assert_eq!(changed.scheduled_departure, original.scheduled_departure);
    assert_eq!(changed.scheduled_arrival, original.scheduled_arrival);
    assert_eq!(changed.estimated_departure, original.estimated_departure);
    assert_eq!(changed.estimated_arrival, original.estimated_arrival);
    assert_eq!(changed.actual_departure, original.actual_departure);
    assert_eq!(changed.actual_arrival, original.actual_arrival);
    assert_eq!(changed.origin_airport, original.origin_airport);
    assert_eq!(changed.destination_airport, original.destination_airport);
    let cleared = original.clone().with_progress(None);
    assert_eq!(cleared.progress_percent, None);
    assert_eq!(cleared.flight_number, "HA824");
}

#[test]
fn builder_setters_keep_what_was_set_before() {
    let mut builder = FlightStatusViewModelBuilder::default();
    builder.origin_airport(text("HNL"));
    builder.destination_airport(text("LAX"));
    builder.progress_percent(Some(10));
    builder.progress_percent(Some(20));
    let view_model = builder.build().unwrap();
    assert_eq!(view_model.flight_number, "");
    assert_eq!(view_model.status, FlightStatus::OnTime);
    assert_eq!(view_model.origin_airport, text("HNL"));
    assert_eq!(view_model.destination_airport, text("LAX"));
    assert_eq!(view_model.progress_percent, Some(20));
}
