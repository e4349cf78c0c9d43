//! The device's webhook payload and the values it is made of.

use vstd::prelude::*;
use vstd::string::StringExecFns;

use crate::text::same_text;

verus! {

/// `jiff::Timestamp`, an instant with nanosecond precision. The library stores
/// and forwards instants without looking inside them.
#[verifier::external_type_specification]
#[verifier::external_body]
pub struct ExTimestamp(jiff::Timestamp);

/// `Clone` for `jiff::Timestamp`, which is `Copy`: the clone is the instant
/// itself.
pub assume_specification[ <jiff::Timestamp as Clone>::clone ](instant: &jiff::Timestamp) -> (copy:
    jiff::Timestamp)
    ensures
        copy == *instant,
;

/// One webhook body.
#[derive(Debug, PartialEq)]
pub struct Message {
    pub version: u8,
    pub event: Event,
    pub device: Device,
    pub test: Test,
}

/// What the device says has happened.
#[derive(Clone, Copy, Debug, PartialEq, Eq)]
pub enum Event {
    TestStarted,
    ContinueTest,
    TestFinished,
    NewData,
    DeviceReady,
    AlreadyTesting,
}

/// The device that sent the webhook.
#[derive(Debug, PartialEq)]
pub struct Device {
    pub hardware_version: String,
    pub software_version: String,
    pub device_model: String,
    pub serial_number: u64,
    pub configuration: String,
    pub current_temp: Option<DegreesC>,
    pub target_temp: Option<DegreesC>,
}

/// The test run as the device sees it at the time of the webhook.
#[derive(Debug, PartialEq)]
pub struct Test {
    pub data: TestData,
    pub state: TestState,
    pub result: Option<TestResult>,
}

/// Everything measured so far. The device sends the whole of it each time.
#[derive(Clone, Debug, PartialEq)]
pub struct TestData {
    pub samples: Vec<TestSample>,
    pub temperature_samples: Vec<TemperatureSample>,
}

/// One reading of one channel.
#[derive(Clone, Debug, PartialEq)]
pub struct TestSample {
    /// Index of the sample within the test run.
    pub current_data_index: u8,
    /// The value read.
    pub first_channel_result: u32,
    pub number_of_channels: usize,
    pub sample_stream_number: u8,
    pub sample_type: u8,
    pub sampling_temperature: DegreesC,
    /// Tenths of a second since the start of the test.
    pub sampling_time: u16,
    /// The channel the value was read on.
    pub starting_channel: usize,
    pub total_number_of_samples: u8,
}

/// One reading of the device's temperature.
#[derive(Clone, Debug, PartialEq)]
pub struct TemperatureSample {
    pub time: jiff::Timestamp,
    pub temp: DegreesC,
}

/// The device's own idea of where the test stands.
#[derive(Clone, Copy, Debug, PartialEq, Eq)]
pub enum TestState {
    Idle,
    Testing,
    Done,
}

/// The outcome the device reports when a test has finished.
#[derive(Debug, PartialEq)]
pub struct TestResult {
    pub detection_type: i64,
    pub detection_flow_number: i64,
    pub detection_result: DetectionResult,
    pub number_of_channels: u8,
    pub starting_channel: usize,
    pub channel_results: Vec<DetectionResult>,
    pub number_of_subgroups: usize,
    pub subgroup_results: Vec<SubgroupResult>,
}

/// The outcome for one named group of channels.
#[derive(Clone, Debug, PartialEq)]
pub struct SubgroupResult {
    pub name: String,
    pub result: DetectionResult,
}

/// What was detected, overall or in one subgroup.
#[derive(Clone, Copy, Debug, PartialEq, Eq)]
pub enum DetectionResult {
    Positive,
    Negative,
    Invalid,
}

/// A temperature in degrees Celsius, held as the bit pattern of its IEEE 754
/// binary64 value. The library stores and forwards temperatures without
/// computing on them.
#[derive(Clone, Copy, Debug, PartialEq, Eq)]
pub struct DegreesC(pub u64);

impl Event {
    /// The name of the event in a webhook body.
    pub open spec fn wire(self) -> Seq<char> {
        match self {
            Event::TestStarted => "TEST_STARTED"@,
            Event::ContinueTest => "CONTINUE_TEST"@,
            Event::TestFinished => "TEST_FINISHED"@,
            Event::NewData => "NEW_DATA"@,
            Event::DeviceReady => "DEVICE_READY"@,
            Event::AlreadyTesting => "ALREADY_TESTING"@,
        }
    }

    /// The name of the event in a webhook body.
    pub fn wire_name(&self) -> (name: &'static str)
        ensures
            name@ == self.wire(),
    {
        match self {
            Event::TestStarted => "TEST_STARTED",
            Event::ContinueTest => "CONTINUE_TEST",
            Event::TestFinished => "TEST_FINISHED",
            Event::NewData => "NEW_DATA",
            Event::DeviceReady => "DEVICE_READY",
            Event::AlreadyTesting => "ALREADY_TESTING",
        }
    }

    /// The event that a webhook body names, and `None` for any text that is
    /// not the name of an event.
    pub fn from_wire_name(name: &str) -> (event: Option<Event>)
        ensures
            match event {
                Some(event) => name@ == event.wire(),
                None => forall|event: Event| name@ != #[trigger] event.wire(),
            },
    {
        if same_text(name, "TEST_STARTED") {
            Some(Event::TestStarted)
        } else if same_text(name, "CONTINUE_TEST") {
            Some(Event::ContinueTest)
        } else if same_text(name, "TEST_FINISHED") {
            Some(Event::TestFinished)
        } else if same_text(name, "NEW_DATA") {
            Some(Event::NewData)
        } else if same_text(name, "DEVICE_READY") {
            Some(Event::DeviceReady)
        } else if same_text(name, "ALREADY_TESTING") {
            Some(Event::AlreadyTesting)
        } else {
            None
        }
    }
}

impl TestState {
    /// The name of the state in a webhook body.
    pub open spec fn wire(self) -> Seq<char> {
        match self {
            TestState::Idle => "IDLE"@,
            TestState::Testing => "TESTING"@,
            TestState::Done => "DONE"@,
        }
    }

    /// The state that a webhook body names, and `None` for any text that is
    /// not the name of a state.
    pub fn from_wire_name(name: &str) -> (state: Option<TestState>)
        ensures
            match state {
                Some(state) => name@ == state.wire(),
                None => forall|state: TestState| name@ != #[trigger] state.wire(),
            },
    {
        if same_text(name, "IDLE") {
            Some(TestState::Idle)
        } else if same_text(name, "TESTING") {
            Some(TestState::Testing)
        } else if same_text(name, "DONE") {
            Some(TestState::Done)
        } else {
            None
        }
    }
}

impl DetectionResult {
    /// The name of the result in a webhook body.
    pub open spec fn wire(self) -> Seq<char> {
        match self {
            DetectionResult::Positive => "POSITIVE"@,
            DetectionResult::Negative => "NEGATIVE"@,
            DetectionResult::Invalid => "INVALID"@,
        }
    }

    /// The result that a webhook body names, and `None` for any text that is
    /// not the name of a result.
    pub fn from_wire_name(name: &str) -> (result: Option<DetectionResult>)
        ensures
            match result {
                Some(result) => name@ == result.wire(),
                None => forall|result: DetectionResult| name@ != #[trigger] result.wire(),
            },
    {
        if same_text(name, "POSITIVE") {
            Some(DetectionResult::Positive)
        } else if same_text(name, "NEGATIVE") {
            Some(DetectionResult::Negative)
        } else if same_text(name, "INVALID") {
            Some(DetectionResult::Invalid)
        } else {
            None
        }
    }

    /// The word that stands for the result in a text for people.
    pub open spec fn name(self) -> Seq<char> {
        match self {
            DetectionResult::Positive => "Positive"@,
            DetectionResult::Negative => "Negative"@,
            DetectionResult::Invalid => "Invalid"@,
        }
    }

    /// The result as text for people: the name of the variant.
    pub fn to_string(&self) -> (text: String)
        ensures
            text@ == self.name(),
    {
        match self {
            DetectionResult::Positive => String::from_str("Positive"),
            DetectionResult::Negative => String::from_str("Negative"),
            DetectionResult::Invalid => String::from_str("Invalid"),
        }
    }
}

impl TestData {
    /// The data of a test for which nothing has been measured yet.
    pub fn empty() -> (data: TestData)
        ensures
            data.samples@ == Seq::<TestSample>::empty(),
            data.temperature_samples@ == Seq::<TemperatureSample>::empty(),
    {
        TestData { samples: Vec::new(), temperature_samples: Vec::new() }
    }
}

} // verus!
