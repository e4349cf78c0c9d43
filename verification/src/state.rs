//! The protocol of one test run: in progress, then completed.
//!
//! A run starts in progress with no data. The device's events either replace
//! the data, finish the run, or are out of place. Finishing needs the chart of
//! the final data as a PNG file, and drawing is not done here: `update` stops
//! at a `Completion` that holds the chart to draw, and `Completion::finish`
//! takes what the drawing backend made of it.

use vstd::prelude::*;

use crate::graph::{chart_of, png_rgb8, stray_channel, Canvas, GraphData, HEIGHT, WIDTH};
use crate::messages::{DetectionResult, Event, Message, SubgroupResult, TestData, TestResult};
use crate::Error;

verus! {

/// Where a test run stands.
#[derive(Clone, Debug, PartialEq)]
pub enum State {
    /// The device is still measuring.
    IncompleteTest(IncompleteTest),
    /// The device has reported its result. Nothing follows this state.
    CompletedTest(CompletedTest),
}

/// A run in progress, with everything measured so far.
#[derive(Clone, Debug, PartialEq)]
pub struct IncompleteTest {
    pub data: TestData,
}

/// A finished run: the result, and the chart of its samples as a PNG file.
#[derive(Clone, Debug, PartialEq)]
pub struct CompletedTest {
    pub overall: DetectionResult,
    pub subgroup_results: Vec<SubgroupResult>,
    pub graph_png: Vec<u8>,
}

/// A run that the device has finished and whose chart is yet to be drawn.
#[derive(Debug)]
pub struct Completion {
    pub overall: DetectionResult,
    pub subgroup_results: Vec<SubgroupResult>,
    /// The chart to draw.
    pub graph: GraphData,
}

/// How far `State::update` got with a message.
#[derive(Debug)]
pub enum Update {
    /// The message is dealt with: the new state, or the error.
    Settled(Result<State, Error>),
    /// The run is finished as soon as its chart is drawn.
    Draw(Completion),
}

/// The chart that a state has to show.
#[derive(Debug)]
pub enum Chart {
    /// Nothing has been measured yet.
    NoData,
    /// The chart as a PNG file, drawn when the run was finished.
    Png(Vec<u8>),
    /// The chart of the data so far, yet to be drawn.
    Draw(GraphData),
}

impl Event {
    /// Events that carry a new snapshot of the data of a run in progress.
    pub open spec fn replaces_data(self) -> bool {
        self is NewData || self is DeviceReady || self is TestStarted
    }
}

/// The state of a run that has just started.
pub open spec fn is_started(state: State) -> bool {
    state matches State::IncompleteTest(test) && test.data.samples@.len() == 0
        && test.data.temperature_samples@.len() == 0
}

/// What a message leads to where no chart has to be drawn for it, and `None`
/// where one has to be: for `TestFinished` with a result, in a run in progress,
/// with every sample on a channel that the chart has a line for.
///
/// In a run in progress, `NewData`, `DeviceReady` and `TestStarted` replace the
/// data. `TestFinished` without a result is an error that ends the session, and
/// so is a sample on a channel without a line. `AlreadyTesting` and
/// `ContinueTest` are out of place, and so is every event once the run is
/// completed: those errors carry the state as it was, to be restored.
pub open spec fn settled(state: State, message: Message) -> Option<Result<State, Error>> {
    match state {
        State::CompletedTest(_) => Some(Err(Error::UnexpectedMessage(state, Box::new(message)))),
        State::IncompleteTest(_) => match message.event {
            Event::TestFinished => match message.test.result {
                None => Some(Err(Error::TestFinishedMissingResult)),
                Some(_) => match stray_channel(message.test.data.samples@) {
                    Some(channel) => Some(Err(Error::TooManyChannels(channel))),
                    None => None,
                },
            },
            Event::NewData | Event::DeviceReady | Event::TestStarted => Some(
                Ok(State::IncompleteTest(IncompleteTest { data: message.test.data })),
            ),
            Event::AlreadyTesting | Event::ContinueTest => Some(
                Err(Error::UnexpectedMessage(state, Box::new(message))),
            ),
        },
    }
}

impl Completion {
    /// This is the completion of a run with the given result and final data.
    pub open spec fn completes(self, result: TestResult, data: TestData) -> bool {
        &&& self.overall == result.detection_result
        &&& self.subgroup_results == result.subgroup_results
        &&& self.graph@ == chart_of(data.samples@)
    }

    /// The completed run, from what the drawing backend made of the chart.
    ///
    /// With a painted canvas the run is completed, and its chart is the canvas
    /// as a PNG file. Where the backend could not draw, the error is `Plotting`
    /// with the backend's reason.
    pub fn finish(self, drawing: Result<Canvas, String>) -> (done: Result<CompletedTest, Error>)
        ensures
            match drawing {
                Ok(canvas) => done matches Ok(test) && test.overall == self.overall
                    && test.subgroup_results == self.subgroup_results && test.graph_png@
                    == png_rgb8(WIDTH, HEIGHT, canvas@) && test.graph_png@.len() >= 8,
                Err(reason) => done matches Err(error) && error == Error::Plotting(reason),
            },
    {
        match GraphData::plot_to_buffer(drawing) {
            Ok(graph_png) => Ok(
                CompletedTest {
                    overall: self.overall,
                    subgroup_results: self.subgroup_results,
                    graph_png,
                },
            ),
            Err(error) => Err(error),
        }
    }
}

impl IncompleteTest {
    /// A run in progress with the given data.
    pub fn new(data: TestData) -> (test: IncompleteTest)
        ensures
            test == (IncompleteTest { data }),
    {
        IncompleteTest { data }
    }

    /// Finishes the run with the device's result and final data, up to the
    /// drawing of the chart. It fails with `TooManyChannels` where a sample is
    /// on a channel that the chart has no line for.
    pub fn complete(self, result: TestResult, data: TestData) -> (completion: Result<
        Completion,
        Error,
    >)
        ensures
            match completion {
                Ok(completion) => stray_channel(data.samples@) is None && completion.completes(
                    result,
                    data,
                ),
                Err(error) => stray_channel(data.samples@) is Some && error
                    == Error::TooManyChannels(stray_channel(data.samples@).unwrap()),
            },
    {
        match data.chart() {
            Ok(graph) => Ok(
                Completion {
                    overall: result.detection_result,
                    subgroup_results: result.subgroup_results,
                    graph,
                },
            ),
            Err(error) => Err(error),
        }
    }
}

impl State {
    /// The state of a run that has just started: in progress, with no data.
    pub fn started() -> (state: State)
        ensures
            is_started(state),
    {
        State::IncompleteTest(IncompleteTest::new(TestData::empty()))
    }

    /// Feeds one message of the device to the state.
    ///
    /// Where `settled` gives an outcome, that is the outcome. Otherwise the
    /// run is finished but for its chart: the `Completion` holds the result of
    /// the message and the chart of its data.
    pub fn update(self, message: Message) -> (update: Update)
        ensures
            match settled(self, message) {
                Some(outcome) => update == Update::Settled(outcome),
                None => update matches Update::Draw(completion) && completion.completes(
                    message.test.result.unwrap(),
                    message.test.data,
                ),
            },
    {
        match self {
            State::IncompleteTest(incomplete_test) => match message.event {
                Event::TestFinished => {
                    if let Some(result) = message.test.result {
                        match incomplete_test.complete(result, message.test.data) {
                            Ok(completion) => Update::Draw(completion),
                            Err(error) => Update::Settled(Err(error)),
                        }
                    } else {
                        Update::Settled(Err(Error::TestFinishedMissingResult))
                    }
                },
                Event::NewData => Update::Settled(Ok(State::incomplete(message.test.data))),
                Event::DeviceReady => Update::Settled(Ok(State::incomplete(message.test.data))),
                Event::TestStarted => Update::Settled(Ok(State::incomplete(message.test.data))),
                Event::AlreadyTesting | Event::ContinueTest => Update::Settled(
                    Err(
                        Error::UnexpectedMessage(
                            State::IncompleteTest(incomplete_test),
                            Box::new(message),
                        ),
                    ),
                ),
            },
            State::CompletedTest(completed_test) => Update::Settled(
                Err(Error::UnexpectedMessage(State::CompletedTest(completed_test), Box::new(message))),
            ),
        }
    }

    fn incomplete(data: TestData) -> (state: State)
        ensures
            state == State::IncompleteTest(IncompleteTest { data }),
    {
        State::IncompleteTest(IncompleteTest::new(data))
    }

    /// The chart that this state has to show.
    ///
    /// A completed run shows the chart it was finished with. A run in progress
    /// has none before the first sample; after that it is the chart of its
    /// data, to be drawn, or `TooManyChannels` where a sample is on a channel
    /// without a line.
    pub fn current_graph_png(&self) -> (chart: Result<Chart, Error>)
        ensures
            match *self {
                State::CompletedTest(test) => chart matches Ok(Chart::Png(file)) && file@
                    == test.graph_png@,
                State::IncompleteTest(test) => if test.data.samples@.len() == 0 {
                    chart matches Ok(Chart::NoData)
                } else {
                    match stray_channel(test.data.samples@) {
                        Some(channel) => chart matches Err(error) && error
                            == Error::TooManyChannels(channel),
                        None => chart matches Ok(Chart::Draw(graph)) && graph@ == chart_of(
                            test.data.samples@,
                        ),
                    }
                },
            },
    {
        match self {
            State::IncompleteTest(test) => {
                if test.data.samples.len() == 0 {
                    Ok(Chart::NoData)
                } else {
                    match test.data.chart() {
                        Ok(graph) => Ok(Chart::Draw(graph)),
                        Err(error) => Err(error),
                    }
                }
            },
            State::CompletedTest(test) => Ok(Chart::Png(test.graph_png.clone())),
        }
    }
}

/// Once a run is completed, every message is refused with an error that
/// carries the completed state, unchanged, as the one to go back to.
pub proof fn lemma_completed_is_final(test: CompletedTest, message: Message)
    ensures
        settled(State::CompletedTest(test), message) matches Some(Err(error)) && error.restorable()
            == Some(State::CompletedTest(test)),
{
}

/// In a run in progress, an event that replaces the data leaves the run in
/// progress with exactly the data of the message, whatever it held before.
pub proof fn lemma_replacing_event(test: IncompleteTest, message: Message)
    requires
        message.event.replaces_data(),
    ensures
        settled(State::IncompleteTest(test), message) == Some(
            Ok::<State, Error>(State::IncompleteTest(IncompleteTest { data: message.test.data })),
        ),
{
}

/// `TestFinished` without a result, in a run in progress, is an error that
/// leaves no state to go back to.
pub proof fn lemma_finished_without_result(test: IncompleteTest, message: Message)
    requires
        message.event is TestFinished,
        message.test.result is None,
    ensures
        settled(State::IncompleteTest(test), message) matches Some(Err(error)) && error
            == Error::TestFinishedMissingResult && error.restorable() is None,
{
}

/// `TestFinished` with a result, in a run in progress whose final samples are
/// all on channels that have a line, is not settled before the chart is drawn:
/// it leads to the completion of the run and to nothing else.
pub proof fn lemma_finished_with_result(test: IncompleteTest, message: Message)
    requires
        message.event is TestFinished,
        message.test.result is Some,
        stray_channel(message.test.data.samples@) is None,
    ensures
        settled(State::IncompleteTest(test), message) is None,
{
}

} // verus!
