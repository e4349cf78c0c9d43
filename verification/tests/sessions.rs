use pluslife_notifier::address::EmailAddress;
use pluslife_notifier::graph::Canvas;
use pluslife_notifier::messages::{
    DegreesC, DetectionResult, Device, Event, Message, SubgroupResult, Test, TestData, TestResult,
    TestSample, TestState,
};
use pluslife_notifier::notifier::notify;
use pluslife_notifier::sessions::{
    GraphReply, Handled, Mail, Page, Period, Reception, Reply, ServerState, Session, Sessions,
};
use pluslife_notifier::state::{CompletedTest, IncompleteTest, State};
use pluslife_notifier::websockets::{Broadcast, WebsocketMessage};
use pluslife_notifier::Error;

fn address(text: &str) -> EmailAddress {
    EmailAddress::parse(text).unwrap()
}

fn sample(channel: usize, time: u16, value: u32) -> TestSample {
    TestSample {
        current_data_index: 0,
        first_channel_result: value,
        number_of_channels: 1,
        sample_stream_number: 166,
        sample_type: 1,
        sampling_temperature: DegreesC(0),
        sampling_time: time,
        starting_channel: channel,
        total_number_of_samples: 1,
    }
}

fn data(samples: Vec<TestSample>) -> TestData {
    TestData { samples, temperature_samples: Vec::new() }
}

fn result() -> TestResult {
    TestResult {
        detection_type: 1,
        detection_flow_number: 166,
        detection_result: DetectionResult::Positive,
        number_of_channels: 7,
        starting_channel: 0,
        channel_results: Vec::new(),
        number_of_subgroups: 1,
        subgroup_results: vec![SubgroupResult {
            name: "IC".to_string(),
            result: DetectionResult::Negative,
        }],
    }
}

fn message(event: Event, data: TestData, result: Option<TestResult>) -> Message {
    Message {
        version: 1,
        event,
        device: Device {
            hardware_version: "1".to_string(),
            software_version: "2".to_string(),
            device_model: "PlusLife".to_string(),
            serial_number: 42,
            configuration: "default".to_string(),
            current_temp: None,
            target_temp: None,
        },
        test: Test { data, state: TestState::Testing, result },
    }
}

fn handled(reception: Reception) -> Handled {
    match reception {
        Reception::Handled(handled) => handled,
        other => panic!("{:?}", other),
    }
}

fn settings() -> [Result<String, String>; 5] {
    [
        Ok("https://example.org".to_string()),
        Ok("results@example.org".to_string()),
        Ok("mg.example.org".to_string()),
        Ok("key".to_string()),
        Ok("1h 30m".to_string()),
    ]
}

fn server(settings: [Result<String, String>; 5]) -> Result<ServerState, Error> {
    let [base_url, sender_email, mailgun_domain, mailgun_api_key, cleanup_period] = settings;
    ServerState::try_from_env(base_url, sender_email, mailgun_domain, mailgun_api_key, cleanup_period)
}

fn fault(at: usize, value: Result<String, String>) -> Error {
    let mut given = settings();
    given[at] = value;
    server(given).unwrap_err()
}

fn invalid(name: &str, cause: &str) -> Error {
    Error::InvalidEnvVar { name: name.to_string(), cause: cause.to_string() }
}

#[test]
fn a_new_session_is_in_progress_without_data() {
    let mut sessions = Sessions::new();
    assert_eq!(sessions.len(), 0);
    let id = sessions.create(address("patient@example.com"));
    assert_eq!(sessions.len(), 1);
    let session = sessions.get(&id).unwrap();
    assert_eq!(session.id, id);
    assert_eq!(session.email_to_notify.as_str(), "patient@example.com");
    assert_eq!(session.state, State::started());
    assert_eq!(uuid::Uuid::from_u128(id).get_version_num(), 4);
    assert_eq!((id >> 76) & 0xf, 4);
    assert_eq!((id >> 62) & 0x3, 2);
}

#[test]
fn new_sessions_get_identifiers_of_their_own() {
    let mut sessions = Sessions::new();
    let first = sessions.create(address("one@example.com"));
    let second = sessions.create(address("two@example.com"));
    assert_ne!(first, second);
    assert_eq!(sessions.len(), 2);
    assert_eq!(sessions.get(&first).unwrap().email_to_notify.as_str(), "one@example.com");
    assert_eq!(sessions.get(&second).unwrap().email_to_notify.as_str(), "two@example.com");
}

#[test]
fn a_session_can_be_filed_under_a_given_identifier() {
    let mut sessions = Sessions::new();
    sessions.create_with(5, jiff::Timestamp::UNIX_EPOCH, address("patient@example.com"));
    let session = sessions.get(&5).unwrap();
    assert_eq!(session.id, 5);
    assert_eq!(session.created, jiff::Timestamp::UNIX_EPOCH);
    assert!(sessions.get(&6).is_none());
}

#[test]
fn the_default_registry_is_empty() {
    let sessions = Sessions::default();
    assert_eq!(sessions.len(), 0);
    assert!(sessions.get(&0).is_none());
}

#[test]
fn a_removed_session_is_gone() {
    let mut sessions = Sessions::new();
    let kept = sessions.create(address("kept@example.com"));
    let expired = sessions.create(address("expired@example.com"));
    let removed = sessions.remove(&expired).unwrap();
    assert_eq!(removed.id, expired);
    assert!(sessions.get(&expired).is_none());
    assert!(sessions.get(&kept).is_some());
    assert_eq!(sessions.len(), 1);
    assert!(sessions.remove(&expired).is_none());
    assert_eq!(sessions.len(), 1);
}

#[test]
fn inserting_takes_the_place_of_the_session_that_was_there() {
    let mut sessions = Sessions::new();
    sessions.create_with(1, jiff::Timestamp::UNIX_EPOCH, address("old@example.com"));
    sessions.insert(
        1,
        Session {
            state: State::started(),
            created: jiff::Timestamp::UNIX_EPOCH,
            email_to_notify: address("new@example.com"),
            id: 1,
        },
    );
    assert_eq!(sessions.len(), 1);
    assert_eq!(sessions.get(&1).unwrap().email_to_notify.as_str(), "new@example.com");
}

#[test]
fn a_webhook_for_an_unknown_session_changes_nothing() {
    let mut sessions = Sessions::new();
    let known = sessions.create(address("patient@example.com"));
    let answer = handled(sessions.receive_data(known ^ 1, message(Event::NewData, data(Vec::new()), None)));
    assert_eq!(answer.reply, Reply::UnknownId);
    assert!(answer.broadcast.is_none());
    assert!(answer.mail.is_none());
    assert_eq!(sessions.len(), 1);
    assert_eq!(sessions.get(&known).unwrap().state, State::started());
}

#[test]
fn the_session_holds_the_data_of_the_latest_webhook() {
    let mut sessions = Sessions::new();
    let id = sessions.create(address("patient@example.com"));
    let sent = [
        (Event::TestStarted, Vec::new()),
        (Event::DeviceReady, vec![sample(0, 1, 1)]),
        (Event::NewData, vec![sample(0, 1, 1), sample(1, 2, 2)]),
        (Event::NewData, vec![sample(3, 9, 9)]),
    ];
    for (event, samples) in sent {
        let answer = handled(sessions.receive_data(id, message(event, data(samples.clone()), None)));
        assert_eq!(answer.reply, Reply::Received);
        assert!(answer.mail.is_none());
        assert!(answer.broadcast.is_some());
        assert_eq!(
            sessions.get(&id).unwrap().state,
            State::IncompleteTest(IncompleteTest { data: data(samples) })
        );
    }
    assert_eq!(sessions.get(&id).unwrap().email_to_notify.as_str(), "patient@example.com");
    assert_eq!(sessions.len(), 1);
}

#[test]
fn viewers_are_told_of_the_new_state() {
    let mut sessions = Sessions::new();
    let id = sessions.create(address("patient@example.com"));
    let answer = handled(sessions.receive_data(id, message(Event::DeviceReady, data(Vec::new()), None)));
    match answer.broadcast {
        Some(Ok(Broadcast::Ready(told))) => {
            assert_eq!(told, WebsocketMessage { graph_png_base64: None, results: None })
        }
        other => panic!("{:?}", other),
    }
    let answer = handled(sessions.receive_data(
        id,
        message(Event::NewData, data(vec![sample(0, 10, 3), sample(0, 20, 8)]), None),
    ));
    match answer.broadcast {
        Some(Ok(Broadcast::Draw(graph))) => {
            assert_eq!(graph.lines[0].points, vec![(10, 0), (20, 5)])
        }
        other => panic!("{:?}", other),
    }
    let answer = handled(sessions.receive_data(id, message(Event::NewData, data(vec![sample(8, 1, 1)]), None)));
    assert_eq!(answer.reply, Reply::Received);
    assert!(matches!(answer.broadcast, Some(Err(Error::TooManyChannels(8)))));
}

#[test]
fn finishing_without_a_result_drops_the_session_and_mails_the_error() {
    let mut sessions = Sessions::new();
    let other = sessions.create(address("other@example.com"));
    let id = sessions.create(address("patient@example.com"));
    let answer = handled(sessions.receive_data(id, message(Event::TestFinished, data(Vec::new()), None)));
    assert_eq!(answer.reply, Reply::Failed);
    assert!(answer.broadcast.is_none());
    match answer.mail {
        Some(Mail::Failure { id: failed, error, recipient }) => {
            assert_eq!(failed, id);
            assert_eq!(error, Error::TestFinishedMissingResult);
            assert_eq!(recipient.as_str(), "patient@example.com");
        }
        other => panic!("{:?}", other),
    }
    assert!(sessions.get(&id).is_none());
    assert!(sessions.get(&other).is_some());
    assert_eq!(sessions.len(), 1);
}

#[test]
fn an_event_out_of_place_keeps_the_session_as_it_was() {
    let mut sessions = Sessions::new();
    let id = sessions.create(address("patient@example.com"));
    handled(sessions.receive_data(id, message(Event::NewData, data(vec![sample(0, 1, 1)]), None)));
    for event in [Event::AlreadyTesting, Event::ContinueTest] {
        let answer = handled(sessions.receive_data(id, message(event, data(Vec::new()), None)));
        assert_eq!(answer.reply, Reply::Failed);
        assert!(answer.mail.is_none());
        assert!(matches!(answer.broadcast, Some(Ok(Broadcast::Draw(_)))));
        assert_eq!(
            sessions.get(&id).unwrap().state,
            State::IncompleteTest(IncompleteTest { data: data(vec![sample(0, 1, 1)]) })
        );
    }
}

#[test]
fn a_completed_session_in_the_registry_refuses_events_and_stays() {
    let mut sessions = Sessions::new();
    let done = CompletedTest {
        overall: DetectionResult::Negative,
        subgroup_results: Vec::new(),
        graph_png: vec![1],
    };
    sessions.insert(
        3,
        Session {
            state: State::CompletedTest(done.clone()),
            created: jiff::Timestamp::UNIX_EPOCH,
            email_to_notify: address("patient@example.com"),
            id: 3,
        },
    );
    let answer = handled(sessions.receive_data(3, message(Event::TestFinished, data(Vec::new()), None)));
    assert_eq!(answer.reply, Reply::Failed);
    assert!(answer.mail.is_none());
    match answer.broadcast {
        Some(Ok(Broadcast::Ready(told))) => assert_eq!(told, WebsocketMessage::completed(&done)),
        other => panic!("{:?}", other),
    }
    assert_eq!(sessions.get(&3).unwrap().state, State::CompletedTest(done));
}

#[test]
fn a_session_is_put_back_under_its_own_identifier() {
    let mut sessions = Sessions::new();
    sessions.insert(
        10,
        Session {
            state: State::started(),
            created: jiff::Timestamp::UNIX_EPOCH,
            email_to_notify: address("patient@example.com"),
            id: 11,
        },
    );
    handled(sessions.receive_data(10, message(Event::NewData, data(Vec::new()), None)));
    assert!(sessions.get(&10).is_none());
    assert_eq!(sessions.get(&11).unwrap().id, 11);
}

#[test]
fn a_session_that_is_being_finished_is_not_in_the_registry() {
    let mut sessions = Sessions::new();
    let id = sessions.create(address("patient@example.com"));
    let first = sessions.receive_data(id, message(Event::TestFinished, data(vec![sample(0, 1, 1)]), Some(result())));
    assert!(matches!(first, Reception::Draw(_)));
    assert!(sessions.get(&id).is_none());
    let second = handled(sessions.receive_data(id, message(Event::NewData, data(vec![sample(1, 2, 2)]), None)));
    assert_eq!(second.reply, Reply::UnknownId);
    assert!(second.broadcast.is_none());
    assert!(second.mail.is_none());
    assert_eq!(sessions.len(), 0);
    let finishing = match first {
        Reception::Draw(finishing) => finishing,
        other => panic!("{:?}", other),
    };
    assert_eq!(finishing.completion.graph.lines[0].points, vec![(1, 0)]);
    assert!(finishing.completion.graph.lines[1].points.is_empty());
}

#[test]
fn a_chart_that_cannot_be_drawn_ends_the_session_with_a_notice() {
    let mut sessions = Sessions::new();
    let id = sessions.create(address("patient@example.com"));
    let finishing = match sessions.receive_data(id, message(Event::TestFinished, data(Vec::new()), Some(result()))) {
        Reception::Draw(finishing) => finishing,
        other => panic!("{:?}", other),
    };
    let answer = finishing.finish(Err("no backend".to_string()));
    assert_eq!(answer.reply, Reply::Failed);
    assert!(answer.broadcast.is_none());
    match answer.mail {
        Some(Mail::Failure { id: failed, error, recipient }) => {
            assert_eq!(failed, id);
            assert_eq!(error, Error::Plotting("no backend".to_string()));
            assert_eq!(recipient.as_str(), "patient@example.com");
        }
        other => panic!("{:?}", other),
    }
    assert!(sessions.get(&id).is_none());
}

#[test]
fn a_stray_channel_at_the_end_drops_the_session() {
    let mut sessions = Sessions::new();
    let id = sessions.create(address("patient@example.com"));
    let answer = handled(sessions.receive_data(
        id,
        message(Event::TestFinished, data(vec![sample(0, 1, 1), sample(7, 2, 2)]), Some(result())),
    ));
    assert_eq!(answer.reply, Reply::Failed);
    assert!(matches!(answer.mail, Some(Mail::Failure { error: Error::TooManyChannels(7), .. })));
    assert!(sessions.get(&id).is_none());
}

#[test]
fn a_test_from_creation_to_result() {
    let mut server = server(settings()).unwrap();
    let id = server.create_session(address("patient@example.com"));

    let answer = handled(server.sessions.receive_data(
        id,
        message(Event::NewData, data(vec![sample(0, 600, 1234)]), None),
    ));
    assert_eq!(answer.reply, Reply::Received);

    let graph = match server.sessions.graph_data(&id) {
        GraphReply::Draw(graph) => graph,
        other => panic!("{:?}", other),
    };
    assert_eq!(graph.lines[0].points, vec![(600, 0)]);
    let page = Page::drawn(Ok(Canvas::blank()));
    assert_eq!(page.status, 200);
    assert_eq!(page.content_type, "image/png");
    assert!(!page.body.is_empty());
    assert_eq!(&page.body[1..4], "PNG".as_bytes());

    let finishing = match server.sessions.receive_data(
        id,
        message(Event::TestFinished, data(vec![sample(0, 600, 1234)]), Some(result())),
    ) {
        Reception::Draw(finishing) => finishing,
        other => panic!("{:?}", other),
    };
    assert!(server.sessions.get(&id).is_none());
    assert_eq!(server.sessions.len(), 0);

    let answer = finishing.finish(Ok(Canvas::blank()));
    assert_eq!(answer.reply, Reply::Received);
    let told = match answer.broadcast {
        Some(Ok(Broadcast::Ready(told))) => told,
        other => panic!("{:?}", other),
    };
    let results = told.results.unwrap();
    assert_eq!(results.overall, DetectionResult::Positive);
    assert_eq!(
        results.subgroup_results,
        vec![SubgroupResult { name: "Control".to_string(), result: DetectionResult::Negative }]
    );
    assert!(told.graph_png_base64.is_some());

    let (completed_test, recipient) = match answer.mail {
        Some(Mail::Result { completed_test, recipient }) => (completed_test, recipient),
        other => panic!("{:?}", other),
    };
    assert_eq!(recipient.as_str(), "patient@example.com");
    assert_eq!(completed_test.graph_png, Canvas::blank().encode());
    let request = notify(
        &server.sender_email,
        &server.mailgun_domain,
        &server.mailgun_api_key,
        completed_test,
        recipient,
    );
    assert_eq!(request.fields[1].value, "patient@example.com");
    assert_eq!(request.parts[0].bytes, Canvas::blank().encode());

    let answer = handled(server.sessions.receive_data(id, message(Event::NewData, data(Vec::new()), None)));
    assert_eq!(answer.reply, Reply::UnknownId);
}

#[test]
fn the_answers_to_the_device() {
    assert_eq!((Reply::Received.status(), Reply::Received.body()), (200, "Received"));
    assert_eq!((Reply::Failed.status(), Reply::Failed.body()), (400, "Failed to process data"));
    assert_eq!((Reply::UnknownId.status(), Reply::UnknownId.body()), (404, "Unknown ID"));
}

#[test]
fn the_chart_of_an_unknown_session() {
    match Sessions::new().graph_data(&1) {
        GraphReply::Page(page) => {
            assert_eq!(page.status, 404);
            assert_eq!(page.content_type, "text/plain");
            assert_eq!(
                page.body,
                "This test ID was not recognised. Either it has not been registered, or the test has already finished.".as_bytes()
            );
        }
        other => panic!("{:?}", other),
    }
}

#[test]
fn the_chart_of_a_session_without_samples() {
    let mut sessions = Sessions::new();
    let id = sessions.create(address("patient@example.com"));
    match sessions.graph_data(&id) {
        GraphReply::Page(page) => assert_eq!(
            page,
            Page {
                status: 404,
                content_type: "text/plain",
                body: "No data has been received for this test yet. Please refresh the page when you expect there to be data.".as_bytes().to_vec(),
            }
        ),
        other => panic!("{:?}", other),
    }
}

#[test]
fn the_chart_of_a_session_with_a_stray_channel() {
    let mut sessions = Sessions::new();
    let id = sessions.create(address("patient@example.com"));
    handled(sessions.receive_data(id, message(Event::NewData, data(vec![sample(7, 1, 1)]), None)));
    match sessions.graph_data(&id) {
        GraphReply::Page(page) => {
            assert_eq!(page, Page::text(500, "Sorry, an error occurred"));
            assert_eq!(page.status, 500);
            assert_eq!(page.body, "Sorry, an error occurred".as_bytes());
        }
        other => panic!("{:?}", other),
    }
}

#[test]
fn the_chart_of_a_completed_session() {
    let mut sessions = Sessions::new();
    sessions.insert(
        3,
        Session {
            state: State::CompletedTest(CompletedTest {
                overall: DetectionResult::Negative,
                subgroup_results: Vec::new(),
                graph_png: vec![4, 5, 6],
            }),
            created: jiff::Timestamp::UNIX_EPOCH,
            email_to_notify: address("patient@example.com"),
            id: 3,
        },
    );
    match sessions.graph_data(&3) {
        GraphReply::Page(page) => {
            assert_eq!(page, Page { status: 200, content_type: "image/png", body: vec![4, 5, 6] })
        }
        other => panic!("{:?}", other),
    }
}

#[test]
fn a_chart_that_cannot_be_drawn_is_an_error_page() {
    assert_eq!(Page::drawn(Err("no".to_string())), Page::text(500, "Sorry, an error occurred"));
    assert_eq!(Page::drawn(Ok(Canvas::blank())), Page::png(Canvas::blank().encode()));
}

#[test]
fn a_browser_on_the_webhook_address() {
    let mut sessions = Sessions::new();
    let id = sessions.create(address("patient@example.com"));
    assert_eq!(
        sessions.get_data_dummy(&id),
        (
            200,
            "This link is only intended to be used as a webhook. In the virus.sucks app, open 'Settings' and put it in the 'Webhook URL' field."
        )
    );
    assert_eq!(sessions.get_data_dummy(&(id ^ 1)), (404, "Unknown ID"));
}

#[test]
fn the_server_starts_with_its_settings_and_no_sessions() {
    let server = server(settings()).unwrap();
    assert_eq!(server.sessions.len(), 0);
    assert_eq!(server.base_url, "https://example.org");
    assert_eq!(server.sender_email.as_str(), "results@example.org");
    assert_eq!(server.mailgun_domain, "mg.example.org");
    assert_eq!(server.mailgun_api_key, "key");
    assert_eq!(server.cleanup_period, Period { secs: 5400, nanos: 0 });
}

#[test]
fn spans_of_time_are_read_to_the_nanosecond() {
    let mut given = settings();
    given[4] = Ok("2s + 5ms".to_string());
    assert_eq!(server(given).unwrap().cleanup_period, Period { secs: 2, nanos: 5_000_000 });
    let mut given = settings();
    given[4] = Ok("90".to_string());
    assert_eq!(server(given).unwrap().cleanup_period, Period { secs: 90, nanos: 0 });
}

#[test]
fn a_setting_that_could_not_be_read_is_named() {
    let names = ["BASE_URL", "SENDER_EMAIL", "MAILGUN_DOMAIN", "MAILGUN_API_KEY", "CLEANUP_PERIOD"];
    for (at, name) in names.iter().enumerate() {
        assert_eq!(
            fault(at, Err("environment variable not found".to_string())),
            invalid(name, "environment variable not found")
        );
    }
}

#[test]
fn the_first_setting_at_fault_is_named() {
    let given = [
        Ok("https://example.org".to_string()),
        Ok("no address".to_string()),
        Err("missing".to_string()),
        Ok("key".to_string()),
        Ok("soon".to_string()),
    ];
    match server(given).unwrap_err() {
        Error::InvalidEnvVar { name, .. } => assert_eq!(name, "SENDER_EMAIL"),
        other => panic!("{:?}", other),
    }
    let given = [
        Err("gone".to_string()),
        Ok("no address".to_string()),
        Err("missing".to_string()),
        Ok("key".to_string()),
        Ok("soon".to_string()),
    ];
    assert_eq!(server(given).unwrap_err(), invalid("BASE_URL", "gone"));
}

#[test]
fn a_sender_that_is_no_address_is_refused() {
    assert_eq!(
        fault(1, Ok("results.example.org".to_string())),
        invalid("SENDER_EMAIL", "Missing separator character '@'.")
    );
}

#[test]
fn a_period_that_is_no_span_of_time_is_refused() {
    match fault(4, Ok("soon".to_string())) {
        Error::InvalidEnvVar { name, cause } => {
            assert_eq!(name, "CLEANUP_PERIOD");
            assert!(cause.starts_with("Failed to parse duration soon: "));
            assert!(cause.len() > "Failed to parse duration soon: ".len());
        }
        other => panic!("{:?}", other),
    }
    assert_eq!(fault(4, Ok(String::new())), invalid("CLEANUP_PERIOD", "Failed to parse duration : Empty input"));
}

#[test]
fn creating_a_session_leaves_the_settings_alone() {
    let mut server = server(settings()).unwrap();
    let id = server.create_session(address("patient@example.com"));
    assert_eq!(server.sessions.len(), 1);
    assert_eq!(server.sessions.get(&id).unwrap().state, State::started());
    assert_eq!(server.base_url, "https://example.org");
    assert_eq!(server.cleanup_period, Period { secs: 5400, nanos: 0 });
}
