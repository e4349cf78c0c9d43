use pluslife_notifier::messages::{DetectionResult, Event, TestData, TestState};

#[test]
fn event_from_str() {
    let name: String = serde_json::from_str("\"TEST_STARTED\"").unwrap();
    assert_eq!(Event::TestStarted, Event::from_wire_name(&name).unwrap());
    let name: String = serde_json::from_str("\"NEW_DATA\"").unwrap();
    assert_eq!(Event::NewData, Event::from_wire_name(&name).unwrap());
}

#[test]
fn every_event_is_found_by_its_wire_name() {
    let events = [
        (Event::TestStarted, "TEST_STARTED"),
        (Event::ContinueTest, "CONTINUE_TEST"),
        (Event::TestFinished, "TEST_FINISHED"),
        (Event::NewData, "NEW_DATA"),
        (Event::DeviceReady, "DEVICE_READY"),
        (Event::AlreadyTesting, "ALREADY_TESTING"),
    ];
    for (event, name) in events {
        assert_eq!(event.wire_name(), name);
        assert_eq!(Event::from_wire_name(name), Some(event));
    }
}

#[test]
fn a_text_that_names_no_event_is_refused() {
    assert_eq!(Event::from_wire_name("test_started"), None);
    assert_eq!(Event::from_wire_name("TEST_STARTED "), None);
    assert_eq!(Event::from_wire_name(""), None);
    assert_eq!(Event::from_wire_name("NEW_DATUM"), None);
}

#[test]
fn test_states_are_found_by_their_wire_names() {
    assert_eq!(TestState::from_wire_name("IDLE"), Some(TestState::Idle));
    assert_eq!(TestState::from_wire_name("TESTING"), Some(TestState::Testing));
    assert_eq!(TestState::from_wire_name("DONE"), Some(TestState::Done));
    assert_eq!(TestState::from_wire_name("Done"), None);
}

#[test]
fn detection_results_are_found_by_their_wire_names() {
    assert_eq!(DetectionResult::from_wire_name("POSITIVE"), Some(DetectionResult::Positive));
    assert_eq!(DetectionResult::from_wire_name("NEGATIVE"), Some(DetectionResult::Negative));
    assert_eq!(DetectionResult::from_wire_name("INVALID"), Some(DetectionResult::Invalid));
    assert_eq!(DetectionResult::from_wire_name("Positive"), None);
}

#[test]
fn detection_results_are_written_by_their_names() {
    assert_eq!(DetectionResult::Positive.to_string(), "Positive");
    assert_eq!(DetectionResult::Negative.to_string(), "Negative");
    assert_eq!(DetectionResult::Invalid.to_string(), "Invalid");
}

#[test]
fn empty_data_has_no_samples() {
    let data = TestData::empty();
    assert!(data.samples.is_empty());
    assert!(data.temperature_samples.is_empty());
}
