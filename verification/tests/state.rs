use pluslife_notifier::graph::Canvas;
use pluslife_notifier::messages::{
    DegreesC, DetectionResult, Device, Event, Message, SubgroupResult, TemperatureSample, Test,
    TestData, TestResult, TestSample, TestState,
};
use pluslife_notifier::state::{Chart, CompletedTest, IncompleteTest, State, Update};
use pluslife_notifier::Error;

fn sample(channel: usize, time: u16, value: u32) -> TestSample {
    TestSample {
        current_data_index: 0,
        first_channel_result: value,
        number_of_channels: 1,
        sample_stream_number: 166,
        sample_type: 1,
        sampling_temperature: DegreesC(0x4042_8000_0000_0000),
        sampling_time: time,
        starting_channel: channel,
        total_number_of_samples: 1,
    }
}

fn data(samples: Vec<TestSample>) -> TestData {
    TestData {
        samples,
        temperature_samples: vec![TemperatureSample {
            time: jiff::Timestamp::UNIX_EPOCH,
            temp: DegreesC(0x4042_8000_0000_0000),
        }],
    }
}

fn result(overall: DetectionResult) -> TestResult {
    TestResult {
        detection_type: 1,
        detection_flow_number: 166,
        detection_result: overall,
        number_of_channels: 7,
        starting_channel: 0,
        channel_results: vec![overall],
        number_of_subgroups: 1,
        subgroup_results: vec![SubgroupResult {
            name: "IC".to_string(),
            result: DetectionResult::Negative,
        }],
    }
}

fn message(event: Event, data: TestData, result: Option<TestResult>) -> Message {
    Message {
        version: 1,
        event,
        device: Device {
            hardware_version: "1".to_string(),
            software_version: "2".to_string(),
            device_model: "PlusLife".to_string(),
            serial_number: 42,
            configuration: "default".to_string(),
            current_temp: None,
            target_temp: Some(DegreesC(0)),
        },
        test: Test { data, state: TestState::Testing, result },
    }
}

fn completed() -> CompletedTest {
    CompletedTest {
        overall: DetectionResult::Positive,
        subgroup_results: Vec::new(),
        graph_png: vec![1, 2, 3],
    }
}

#[test]
fn a_test_starts_in_progress_without_data() {
    assert_eq!(State::started(), State::IncompleteTest(IncompleteTest::new(TestData::empty())));
}

#[test]
fn events_with_data_replace_the_data() {
    for event in [Event::NewData, Event::DeviceReady, Event::TestStarted] {
        let before = State::IncompleteTest(IncompleteTest::new(data(vec![sample(0, 1, 1)])));
        let next = data(vec![sample(1, 5, 9), sample(2, 6, 8)]);
        let update = before.update(message(event, next.clone(), None));
        match update {
            Update::Settled(Ok(State::IncompleteTest(test))) => assert_eq!(test.data, next),
            other => panic!("{:?}", other),
        }
    }
}

#[test]
fn the_data_is_replaced_and_not_added_to() {
    let mut state = State::started();
    for samples in [vec![sample(0, 1, 1), sample(0, 2, 2)], vec![sample(3, 4, 5)], Vec::new()] {
        let next = data(samples);
        state = match state.update(message(Event::NewData, next.clone(), None)) {
            Update::Settled(Ok(state)) => state,
            other => panic!("{:?}", other),
        };
        assert_eq!(state, State::IncompleteTest(IncompleteTest { data: next }));
    }
}

#[test]
fn finishing_without_a_result_ends_the_session() {
    let update = State::started().update(message(Event::TestFinished, data(Vec::new()), None));
    match update {
        Update::Settled(Err(error)) => {
            assert_eq!(error, Error::TestFinishedMissingResult);
            assert!(error.get_state().is_none());
            assert_eq!(error.into_state(), Err(Error::TestFinishedMissingResult));
        }
        other => panic!("{:?}", other),
    }
}

#[test]
fn events_out_of_place_keep_the_state() {
    for event in [Event::AlreadyTesting, Event::ContinueTest] {
        let before = State::IncompleteTest(IncompleteTest::new(data(vec![sample(0, 1, 1)])));
        let update = before.clone().update(message(event, data(Vec::new()), None));
        match update {
            Update::Settled(Err(error)) => {
                assert_eq!(error.get_state(), Some(&before));
                assert!(matches!(&error, Error::UnexpectedMessage(_, sent) if sent.event == event));
                assert_eq!(error.into_state(), Ok(before));
            }
            other => panic!("{:?}", other),
        }
    }
}

#[test]
fn a_completed_test_refuses_every_event_and_stays_as_it_is() {
    for event in [
        Event::TestStarted,
        Event::ContinueTest,
        Event::TestFinished,
        Event::NewData,
        Event::DeviceReady,
        Event::AlreadyTesting,
    ] {
        let before = State::CompletedTest(completed());
        let sent = message(event, data(vec![sample(0, 1, 1)]), Some(result(DetectionResult::Invalid)));
        match before.clone().update(sent) {
            Update::Settled(Err(Error::UnexpectedMessage(kept, sent))) => {
                assert_eq!(kept, before);
                assert_eq!(sent.event, event);
            }
            other => panic!("{:?}", other),
        }
    }
}

#[test]
fn finishing_with_a_result_waits_for_the_chart() {
    let last = data(vec![sample(0, 600, 5), sample(0, 1200, 9), sample(0, 1800, 5)]);
    let update = State::started()
        .update(message(Event::TestFinished, last, Some(result(DetectionResult::Positive))));
    let completion = match update {
        Update::Draw(completion) => completion,
        other => panic!("{:?}", other),
    };
    assert_eq!(completion.overall, DetectionResult::Positive);
    assert_eq!(completion.subgroup_results.len(), 1);
    assert_eq!(completion.graph.lines[0].points, vec![(600, 0), (1200, 4), (1800, 0)]);
    assert_eq!(completion.graph.max_value, 4);

    let done = completion.finish(Ok(Canvas::blank())).unwrap();
    assert_eq!(done.overall, DetectionResult::Positive);
    assert_eq!(done.subgroup_results[0].name, "IC");
    assert_eq!(done.graph_png, Canvas::blank().encode());
}

#[test]
fn a_chart_that_cannot_be_drawn_fails_the_completion() {
    let update = State::started().update(message(
        Event::TestFinished,
        data(Vec::new()),
        Some(result(DetectionResult::Negative)),
    ));
    let completion = match update {
        Update::Draw(completion) => completion,
        other => panic!("{:?}", other),
    };
    let failed = completion.finish(Err("backend".to_string()));
    assert_eq!(failed, Err(Error::Plotting("backend".to_string())));
    assert!(Error::Plotting("backend".to_string()).get_state().is_none());
}

#[test]
fn finishing_with_a_stray_channel_is_an_error_without_a_state() {
    let update = State::started().update(message(
        Event::TestFinished,
        data(vec![sample(7, 1, 1)]),
        Some(result(DetectionResult::Positive)),
    ));
    match update {
        Update::Settled(Err(error)) => {
            assert_eq!(error, Error::TooManyChannels(7));
            assert!(error.get_state().is_none());
        }
        other => panic!("{:?}", other),
    }
}

#[test]
fn complete_takes_the_result_and_charts_the_data() {
    let completion = IncompleteTest::new(TestData::empty())
        .complete(result(DetectionResult::Invalid), data(vec![sample(2, 10, 100)]))
        .unwrap();
    assert_eq!(completion.overall, DetectionResult::Invalid);
    assert_eq!(completion.graph.lines[2].points, vec![(10, 0)]);
    let refused = IncompleteTest::new(TestData::empty())
        .complete(result(DetectionResult::Invalid), data(vec![sample(8, 10, 100)]));
    assert!(matches!(refused, Err(Error::TooManyChannels(8))));
}

#[test]
fn there_is_no_chart_before_the_first_sample() {
    assert!(matches!(State::started().current_graph_png(), Ok(Chart::NoData)));
}

#[test]
fn a_test_in_progress_has_its_chart_drawn_on_demand() {
    let state = State::IncompleteTest(IncompleteTest::new(data(vec![sample(1, 10, 7), sample(1, 20, 3)])));
    match state.current_graph_png() {
        Ok(Chart::Draw(graph)) => assert_eq!(graph.lines[1].points, vec![(10, 4), (20, 0)]),
        other => panic!("{:?}", other),
    }
    let state = State::IncompleteTest(IncompleteTest::new(data(vec![sample(70, 10, 7)])));
    assert!(matches!(state.current_graph_png(), Err(Error::TooManyChannels(70))));
}

#[test]
fn a_completed_test_shows_the_chart_it_was_finished_with() {
    match State::CompletedTest(completed()).current_graph_png() {
        Ok(Chart::Png(file)) => assert_eq!(file, vec![1, 2, 3]),
        other => panic!("{:?}", other),
    }
}

#[test]
fn only_two_errors_carry_a_state() {
    let state = State::started();
    assert_eq!(Error::MissingTestFinished(state.clone()).get_state(), Some(&state));
    assert_eq!(Error::MissingTestFinished(state.clone()).into_state(), Ok(state));
    for error in [
        Error::TestFinishedMissingResult,
        Error::TooManyChannels(3),
        Error::InvalidEnvVar { name: "A".to_string(), cause: "b".to_string() },
        Error::Io("x".to_string()),
        Error::Serde("x".to_string()),
        Error::Plotting("x".to_string()),
        Error::Reqwest("x".to_string()),
    ] {
        assert!(error.get_state().is_none());
        assert!(error.into_state().is_err());
    }
}
