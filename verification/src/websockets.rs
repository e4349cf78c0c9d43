//! What live viewers of a session are told, and who they are.
//!
//! Every viewer of a session gets the same message whenever the session's
//! state has been looked at anew: the chart so far, and the result once there
//! is one. Nobody keeps track of viewers that have gone: a message to a closed
//! connection fails on its own, and the next message is tried all the same.

use base64::Engine;
use vstd::prelude::*;

use crate::graph::{chart_of, png_rgb8, stray_channel, Canvas, GraphData, HEIGHT, WIDTH};
use crate::messages::{DetectionResult, SubgroupResult};
use crate::notifier::{normalise_result_name, shown_name};
use crate::state::{CompletedTest, State};
use crate::Error;

verus! {

/// The text that the standard base64 alphabet, with padding, gives for the
/// bytes: what `base64::prelude::BASE64_STANDARD` encodes them to.
pub uninterp spec fn base64_standard(bytes: Seq<u8>) -> Seq<char>;

/// Encodes bytes with `base64::prelude::BASE64_STANDARD`.
///
/// Trusted: the text is the one named by `base64_standard`.
#[verifier::external_body]
fn encode_base64(bytes: &Vec<u8>) -> (text: String)
    ensures
        text@ == base64_standard(bytes@),
{
    base64::prelude::BASE64_STANDARD.encode(bytes)
}

/// The message that viewers get.
#[derive(Debug, PartialEq)]
pub struct WebsocketMessage {
    /// The chart as a PNG file in base64, once there is a sample to chart.
    pub graph_png_base64: Option<String>,
    /// The result, once the test is completed.
    pub results: Option<Results>,
}

/// The result of a completed test as viewers get it.
#[derive(Debug, PartialEq)]
pub struct Results {
    pub overall: DetectionResult,
    /// The subgroups, each under the name it is shown by.
    pub subgroup_results: Vec<SubgroupResult>,
}

/// A result as a mathematical value: the overall result, and each subgroup's
/// name and result.
pub struct ResultsView {
    pub overall: DetectionResult,
    pub subgroup_results: Seq<(Seq<char>, DetectionResult)>,
}

/// A message as a mathematical value.
pub struct MessageView {
    pub graph_png_base64: Option<Seq<char>>,
    pub results: Option<ResultsView>,
}

impl View for Results {
    type V = ResultsView;

    open spec fn view(&self) -> ResultsView {
        ResultsView {
            overall: self.overall,
            subgroup_results: self.subgroup_results@.map_values(
                |result: SubgroupResult| (result.name@, result.result),
            ),
        }
    }
}

impl View for WebsocketMessage {
    type V = MessageView;

    open spec fn view(&self) -> MessageView {
        MessageView {
            graph_png_base64: match self.graph_png_base64 {
                Some(text) => Some(text@),
                None => None,
            },
            results: match self.results {
                Some(results) => Some(results@),
                None => None,
            },
        }
    }
}

/// The subgroups as viewers get them: in their order, each under the name it
/// is shown by.
pub open spec fn shown_results(results: Seq<SubgroupResult>) -> Seq<(Seq<char>, DetectionResult)> {
    results.map_values(|result: SubgroupResult| (shown_name(result.name@), result.result))
}

/// What viewers are to be told, as far as it is known without drawing.
#[derive(Debug)]
pub enum Broadcast {
    /// The message, ready to be sent.
    Ready(WebsocketMessage),
    /// The message is the chart of the data so far, which is yet to be drawn.
    Draw(GraphData),
}

/// The message for a state that needs no drawing, or `None` where the chart of
/// a test in progress has to be drawn first.
///
/// A completed test is told with its chart and its result. A test without a
/// sample is told with neither.
pub open spec fn ready_message(state: State) -> Option<MessageView> {
    match state {
        State::CompletedTest(test) => Some(
            MessageView {
                graph_png_base64: Some(base64_standard(test.graph_png@)),
                results: Some(
                    ResultsView {
                        overall: test.overall,
                        subgroup_results: shown_results(test.subgroup_results@),
                    },
                ),
            },
        ),
        State::IncompleteTest(test) => if test.data.samples@.len() == 0 {
            Some(MessageView { graph_png_base64: None, results: None })
        } else {
            None
        },
    }
}

/// `broadcast` is what viewers are to be told of `state`.
///
/// Where `ready_message` gives the message, that is it. Otherwise the test is
/// in progress and has samples: the answer is the chart to draw, or
/// `TooManyChannels` where a sample is on a channel without a line.
pub open spec fn tells(broadcast: Result<Broadcast, Error>, state: State) -> bool {
    match ready_message(state) {
        Some(message) => broadcast matches Ok(Broadcast::Ready(ready)) && ready@ == message,
        None => match stray_channel(state->IncompleteTest_0.data.samples@) {
            Some(channel) => broadcast matches Err(error) && error == Error::TooManyChannels(
                channel,
            ),
            None => broadcast matches Ok(Broadcast::Draw(graph)) && graph@ == chart_of(
                state->IncompleteTest_0.data.samples@,
            ),
        },
    }
}

/// The message that tells of a chart alone.
pub open spec fn chart_message(file: Seq<u8>) -> MessageView {
    MessageView { graph_png_base64: Some(base64_standard(file)), results: None }
}

impl WebsocketMessage {
    /// What viewers are to be told of a state: the message where it can be
    /// had without drawing, else the chart to draw.
    pub fn try_from(state: &State) -> (broadcast: Result<Broadcast, Error>)
        ensures
            tells(broadcast, *state),
    {
        match state {
            State::IncompleteTest(incomplete_test) => {
                if incomplete_test.data.samples.len() == 0 {
                    Ok(Broadcast::Ready(WebsocketMessage { graph_png_base64: None, results: None }))
                } else {
                    match incomplete_test.data.chart() {
                        Ok(graph) => Ok(Broadcast::Draw(graph)),
                        Err(error) => Err(error),
                    }
                }
            },
            State::CompletedTest(completed_test) => Ok(
                Broadcast::Ready(WebsocketMessage::completed(completed_test)),
            ),
        }
    }

    /// The message that tells of a completed test: its chart, and its result
    /// with every subgroup under the name it is shown by.
    pub fn completed(completed_test: &CompletedTest) -> (message: WebsocketMessage)
        ensures
            Some(message@) == ready_message(State::CompletedTest(*completed_test)),
    {
        let mut subgroup_results: Vec<SubgroupResult> = Vec::new();
        let mut i: usize = 0;
        while i < completed_test.subgroup_results.len()
            invariant
                0 <= i <= completed_test.subgroup_results@.len(),
                subgroup_results@.len() == i,
                forall|k: int|
                    0 <= k < i ==> (#[trigger] subgroup_results@[k]).name@ == shown_name(
                        completed_test.subgroup_results@[k].name@,
                    ) && subgroup_results@[k].result == completed_test.subgroup_results@[k].result,
            decreases completed_test.subgroup_results@.len() - i,
        {
            let result = &completed_test.subgroup_results[i];
            subgroup_results.push(
                SubgroupResult {
                    name: normalise_result_name(result.name.as_str()).to_owned(),
                    result: result.result,
                },
            );
            i += 1;
        }
        let results = Results { overall: completed_test.overall, subgroup_results };
        proof {
            assert(results@.subgroup_results =~= shown_results(completed_test.subgroup_results@));
        }
        WebsocketMessage {
            graph_png_base64: Some(encode_base64(&completed_test.graph_png)),
            results: Some(results),
        }
    }

    /// The message that tells of the chart of a test in progress.
    pub fn from_chart(file: &Vec<u8>) -> (message: WebsocketMessage)
        ensures
            message@ == chart_message(file@),
    {
        WebsocketMessage { graph_png_base64: Some(encode_base64(file)), results: None }
    }

    /// The message for a test in progress, from what the drawing backend made
    /// of its chart: the chart as a PNG file, or `Plotting` with the backend's
    /// reason where it could not draw.
    pub fn drawn(drawing: Result<Canvas, String>) -> (message: Result<WebsocketMessage, Error>)
        ensures
            match drawing {
                Ok(canvas) => message matches Ok(told) && told@ == chart_message(
                    png_rgb8(WIDTH, HEIGHT, canvas@),
                ),
                Err(reason) => message matches Err(error) && error == Error::Plotting(reason),
            },
    {
        match GraphData::plot_to_buffer(drawing) {
            Ok(file) => Ok(WebsocketMessage::from_chart(&file)),
            Err(error) => Err(error),
        }
    }
}

/// One viewer: the connection that messages to it go out on.
#[derive(Debug)]
pub struct SessionSocket<W> {
    pub socket: W,
}

/// The viewers of one session, in the order in which they came.
#[derive(Debug)]
pub struct SessionSockets<W> {
    websockets: Vec<SessionSocket<W>>,
}

impl<W> View for SessionSockets<W> {
    type V = Seq<SessionSocket<W>>;

    closed spec fn view(&self) -> Seq<SessionSocket<W>> {
        self.websockets@
    }
}

impl<W> SessionSocket<W> {
    /// The viewer on the given connection.
    pub fn new(websocket: W) -> (viewer: SessionSocket<W>)
        ensures
            viewer.socket == websocket,
    {
        SessionSocket { socket: websocket }
    }

    /// What this viewer is to be told of a state: as
    /// `WebsocketMessage::try_from` has it.
    pub fn notify(&self, state: &State) -> (broadcast: Result<Broadcast, Error>)
        ensures
            tells(broadcast, *state),
    {
        WebsocketMessage::try_from(state)
    }
}

impl<W> SessionSockets<W> {
    /// No viewers.
    pub fn new() -> (viewers: SessionSockets<W>)
        ensures
            viewers@.len() == 0,
    {
        SessionSockets { websockets: Vec::new() }
    }

    /// What the viewers are to be told of a state, and `None` where there is
    /// nobody to tell: then nothing is worked out.
    pub fn notify(&self, state: &State) -> (broadcast: Option<Result<Broadcast, Error>>)
        ensures
            self@.len() == 0 <==> broadcast is None,
            broadcast matches Some(broadcast) ==> tells(broadcast, *state),
    {
        if self.websockets.len() == 0 {
            None
        } else {
            Some(WebsocketMessage::try_from(state))
        }
    }

    /// Takes a new viewer in, after those that are there. The answer is the
    /// number of viewers there are now.
    pub fn push(&mut self, websocket: W) -> (count: usize)
        ensures
            final(self)@ == old(self)@.push(SessionSocket { socket: websocket }),
            count == old(self)@.len() + 1,
    {
        self.websockets.push(SessionSocket::new(websocket));
        self.websockets.len()
    }

    /// The viewers, for messages to be sent to each.
    pub fn sockets(&self) -> (viewers: &Vec<SessionSocket<W>>)
        ensures
            viewers@ == self@,
    {
        &self.websockets
    }
}

} // verus!
