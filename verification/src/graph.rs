//! From samples to a chart: one line per channel, each zeroed at its own
//! lowest value, and the raster that the drawing ends up in.

use vstd::prelude::*;

use crate::messages::{TestData, TestSample};
use crate::Error;

verus! {

/// Width of the chart in pixels.
pub const WIDTH: u32 = 800;

/// Height of the chart in pixels.
pub const HEIGHT: u32 = 600;

/// The number of lines a chart has: one per channel of the device.
pub const CHANNELS: usize = 7;

/// The value axis never ends below this, however small the values are.
pub const VALUE_AXIS_FLOOR: i64 = 5000;

/// A colour as red, green and blue.
#[derive(Clone, Copy, Debug, PartialEq, Eq)]
pub struct Color(pub u8, pub u8, pub u8);

/// One line of a chart. A point is a time in tenths of a second and a value.
#[derive(Clone, Debug, PartialEq)]
pub struct Line {
    pub color: Color,
    pub points: Vec<(u16, i64)>,
}

/// A chart before it is drawn.
///
/// Times are in tenths of a second since the start of the test. Over no
/// samples at all the four bounds are the neutral values of their folds:
/// `min_time` is `u16::MAX`, `max_time` is 0, `min_value` is `i64::MAX` and
/// `max_value` is `i64::MIN`.
#[derive(Clone, Debug, PartialEq)]
pub struct GraphData {
    pub min_time: u16,
    pub max_time: u16,
    pub min_value: i64,
    pub max_value: i64,
    pub lines: Vec<Line>,
}

/// A line as a mathematical value.
pub struct LineView {
    pub color: Color,
    pub points: Seq<(u16, i64)>,
}

/// A chart as a mathematical value.
pub struct GraphView {
    pub min_time: u16,
    pub max_time: u16,
    pub min_value: i64,
    pub max_value: i64,
    pub lines: Seq<LineView>,
}

impl View for Line {
    type V = LineView;

    open spec fn view(&self) -> LineView {
        LineView { color: self.color, points: self.points@ }
    }
}

impl View for GraphData {
    type V = GraphView;

    open spec fn view(&self) -> GraphView {
        GraphView {
            min_time: self.min_time,
            max_time: self.max_time,
            min_value: self.min_value,
            max_value: self.max_value,
            lines: self.lines@.map_values(|line: Line| line@),
        }
    }
}

/// The colour of the line of `channel`.
pub open spec fn palette(channel: int) -> Color {
    if channel == 0 {
        Color(166, 206, 227)
    } else if channel == 1 {
        Color(32, 120, 180)
    } else if channel == 2 {
        Color(178, 223, 138)
    } else if channel == 3 {
        Color(52, 160, 45)
    } else if channel == 4 {
        Color(166, 206, 227)
    } else if channel == 5 {
        Color(252, 154, 154)
    } else {
        Color(254, 192, 112)
    }
}

/// The point that a sample contributes to its line.
pub open spec fn point_of(sample: TestSample) -> (u16, i64) {
    (sample.sampling_time, sample.first_channel_result as i64)
}

/// The points of the samples read on `channel`, in the order of the samples.
pub open spec fn channel_points(samples: Seq<TestSample>, channel: int) -> Seq<(u16, i64)>
    decreases samples.len(),
{
    if samples.len() == 0 {
        Seq::empty()
    } else if samples.last().starting_channel == channel {
        channel_points(samples.drop_last(), channel).push(point_of(samples.last()))
    } else {
        channel_points(samples.drop_last(), channel)
    }
}

/// The channel of the first sample that the chart has no line for, if there
/// is such a sample.
pub open spec fn stray_channel(samples: Seq<TestSample>) -> Option<usize>
    decreases samples.len(),
{
    if samples.len() == 0 {
        None
    } else {
        match stray_channel(samples.drop_last()) {
            Some(channel) => Some(channel),
            None => if samples.last().starting_channel >= CHANNELS {
                Some(samples.last().starting_channel)
            } else {
                None
            },
        }
    }
}

/// The earliest sampling time, `u16::MAX` over no samples.
pub open spec fn earliest(samples: Seq<TestSample>) -> u16
    decreases samples.len(),
{
    if samples.len() == 0 {
        u16::MAX
    } else if samples.last().sampling_time < earliest(samples.drop_last()) {
        samples.last().sampling_time
    } else {
        earliest(samples.drop_last())
    }
}

/// The latest sampling time, 0 over no samples.
pub open spec fn latest(samples: Seq<TestSample>) -> u16
    decreases samples.len(),
{
    if samples.len() == 0 {
        0
    } else if samples.last().sampling_time > latest(samples.drop_last()) {
        samples.last().sampling_time
    } else {
        latest(samples.drop_last())
    }
}

/// The lowest value read, `i64::MAX` over no samples.
pub open spec fn lowest(samples: Seq<TestSample>) -> i64
    decreases samples.len(),
{
    if samples.len() == 0 {
        i64::MAX
    } else if point_of(samples.last()).1 < lowest(samples.drop_last()) {
        point_of(samples.last()).1
    } else {
        lowest(samples.drop_last())
    }
}

/// The highest value read, `i64::MIN` over no samples.
pub open spec fn highest(samples: Seq<TestSample>) -> i64
    decreases samples.len(),
{
    if samples.len() == 0 {
        i64::MIN
    } else if point_of(samples.last()).1 > highest(samples.drop_last()) {
        point_of(samples.last()).1
    } else {
        highest(samples.drop_last())
    }
}

/// The chart of `samples` as they were read: a line per channel in channel
/// order, each in its colour and holding the channel's points.
pub open spec fn graph_of(samples: Seq<TestSample>) -> GraphView {
    GraphView {
        min_time: earliest(samples),
        max_time: latest(samples),
        min_value: lowest(samples),
        max_value: highest(samples),
        lines: Seq::new(
            CHANNELS as nat,
            |channel: int|
                LineView { color: palette(channel), points: channel_points(samples, channel) },
        ),
    }
}

/// A stray channel in a prefix of the samples is the stray channel of them
/// all: later samples do not change which one came first.
pub proof fn lemma_stray_channel_prefix(samples: Seq<TestSample>, upto: int)
    requires
        0 <= upto <= samples.len(),
        stray_channel(samples.take(upto)) is Some,
    ensures
        stray_channel(samples) == stray_channel(samples.take(upto)),
    decreases samples.len() - upto,
{
    if upto == samples.len() {
        assert(samples.take(upto) =~= samples);
    } else {
        assert(samples.take(upto + 1).drop_last() =~= samples.take(upto));
        lemma_stray_channel_prefix(samples, upto + 1);
    }
}

/// `stray_channel` in terms of the samples themselves: it is `None` exactly
/// when every sample is on a channel that has a line.
pub proof fn lemma_stray_channel_none(samples: Seq<TestSample>)
    ensures
        stray_channel(samples) is None <==> forall|i: int|
            0 <= i < samples.len() ==> (#[trigger] samples[i]).starting_channel < CHANNELS,
    decreases samples.len(),
{
    if samples.len() > 0 {
        let front = samples.drop_last();
        lemma_stray_channel_none(front);
        if stray_channel(samples) is None {
            assert forall|i: int| 0 <= i < samples.len() implies (#[trigger] samples[i]).starting_channel
                < CHANNELS by {
                if i < front.len() {
                    assert(front[i] == samples[i]);
                }
            }
        }
        if forall|i: int| 0 <= i < samples.len() ==> (#[trigger] samples[i]).starting_channel < CHANNELS {
            assert forall|i: int| 0 <= i < front.len() implies (#[trigger] front[i]).starting_channel
                < CHANNELS by {
                assert(front[i] == samples[i]);
            }
            assert(samples.last() == samples[samples.len() - 1]);
        }
    }
}

/// The least value among the points, 0 where there are none.
pub open spec fn least_value(points: Seq<(u16, i64)>) -> i64
    decreases points.len(),
{
    if points.len() == 0 {
        0
    } else if points.len() == 1 {
        points[0].1
    } else if points.last().1 < least_value(points.drop_last()) {
        points.last().1
    } else {
        least_value(points.drop_last())
    }
}

/// The greatest value among the points, and at least 0.
pub open spec fn crest(points: Seq<(u16, i64)>) -> i64
    decreases points.len(),
{
    if points.len() == 0 {
        0
    } else if points.last().1 > crest(points.drop_last()) {
        points.last().1
    } else {
        crest(points.drop_last())
    }
}

/// The greatest value on any of the lines, and at least 0.
pub open spec fn peak(lines: Seq<LineView>) -> i64
    decreases lines.len(),
{
    if lines.len() == 0 {
        0
    } else if crest(lines.last().points) > peak(lines.drop_last()) {
        crest(lines.last().points)
    } else {
        peak(lines.drop_last())
    }
}

/// The line with its own least value taken off every point. Times and colour
/// stay as they are.
pub open spec fn zeroed(line: LineView) -> LineView {
    LineView {
        color: line.color,
        points: Seq::new(
            line.points.len(),
            |j: int| (line.points[j].0, (line.points[j].1 - least_value(line.points)) as i64),
        ),
    }
}

/// The chart with every line zeroed on its own, and the value range set anew:
/// from 0 to the greatest value that is left on any line.
pub open spec fn normalised(graph: GraphView) -> GraphView {
    GraphView {
        min_time: graph.min_time,
        max_time: graph.max_time,
        min_value: 0,
        max_value: peak(graph.lines.map_values(|line: LineView| zeroed(line))),
        lines: graph.lines.map_values(|line: LineView| zeroed(line)),
    }
}

/// Where the value axis of the chart ends: at twice the greatest value, and
/// never below the floor.
pub open spec fn axis_top(max_value: int) -> int {
    if 2 * max_value > VALUE_AXIS_FLOOR {
        2 * max_value
    } else {
        VALUE_AXIS_FLOOR as int
    }
}

impl GraphView {
    /// Every value is within `i64` of the least value of its line, so that
    /// zeroing the line stays within `i64`.
    pub open spec fn normalisable(self) -> bool {
        forall|i: int, j: int|
            0 <= i < self.lines.len() && 0 <= j < self.lines[i].points.len() ==> (
            #[trigger] self.lines[i].points[j]).1 - least_value(self.lines[i].points) <= i64::MAX
    }
}

/// The least value of a line is one of its values, and none is below it.
pub proof fn lemma_least_value(points: Seq<(u16, i64)>)
    ensures
        forall|j: int| 0 <= j < points.len() ==> least_value(points) <= (#[trigger] points[j]).1,
        points.len() > 0 ==> exists|j: int|
            0 <= j < points.len() && (#[trigger] points[j]).1 == least_value(points),
    decreases points.len(),
{
    if points.len() > 1 {
        let front = points.drop_last();
        lemma_least_value(front);
        assert forall|j: int| 0 <= j < points.len() implies least_value(points) <= (
        #[trigger] points[j]).1 by {
            if j < front.len() {
                assert(front[j] == points[j]);
            }
        }
        let at = choose|j: int| 0 <= j < front.len() && (#[trigger] front[j]).1 == least_value(front);
        assert(front[at] == points[at]);
        assert(points[points.len() - 1] == points.last());
    } else if points.len() == 1 {
        assert(points[0].1 == least_value(points));
    }
}

/// The crest of a line is 0 or one of its values, and no value is above it.
pub proof fn lemma_crest(points: Seq<(u16, i64)>)
    ensures
        crest(points) >= 0,
        forall|j: int| 0 <= j < points.len() ==> (#[trigger] points[j]).1 <= crest(points),
        crest(points) == 0 || exists|j: int|
            0 <= j < points.len() && (#[trigger] points[j]).1 == crest(points),
    decreases points.len(),
{
    if points.len() > 0 {
        let front = points.drop_last();
        lemma_crest(front);
        assert forall|j: int| 0 <= j < points.len() implies (#[trigger] points[j]).1 <= crest(
            points,
        ) by {
            if j < front.len() {
                assert(front[j] == points[j]);
            }
        }
        if crest(points) != 0 {
            if crest(points) == points.last().1 {
                assert(points[points.len() - 1] == points.last());
            } else {
                let at = choose|j: int| 0 <= j < front.len() && (#[trigger] front[j]).1 == crest(front);
                assert(front[at] == points[at]);
            }
        }
    }
}

/// The peak of a chart is 0 or a value on one of its lines, and no value is
/// above it.
pub proof fn lemma_peak(lines: Seq<LineView>)
    ensures
        peak(lines) >= 0,
        forall|i: int, j: int|
            0 <= i < lines.len() && 0 <= j < lines[i].points.len() ==> (
            #[trigger] lines[i].points[j]).1 <= peak(lines),
        peak(lines) == 0 || exists|i: int, j: int|
            0 <= i < lines.len() && 0 <= j < lines[i].points.len() && (
            #[trigger] lines[i].points[j]).1 == peak(lines),
    decreases lines.len(),
{
    if lines.len() > 0 {
        let front = lines.drop_last();
        lemma_peak(front);
        lemma_crest(lines.last().points);
        assert(lines[lines.len() - 1] == lines.last());
        assert forall|i: int, j: int|
            0 <= i < lines.len() && 0 <= j < lines[i].points.len() implies (
        #[trigger] lines[i].points[j]).1 <= peak(lines) by {
            if i < front.len() {
                assert(front[i] == lines[i]);
            }
        }
        if peak(lines) != 0 {
            if peak(lines) == crest(lines.last().points) {
                let at = choose|j: int|
                    0 <= j < lines.last().points.len() && (#[trigger] lines.last().points[j]).1
                        == crest(lines.last().points);
                assert(lines[lines.len() - 1].points[at].1 == peak(lines));
            } else {
                let (line, at) = choose|i: int, j: int|
                    0 <= i < front.len() && 0 <= j < front[i].points.len() && (
                    #[trigger] front[i].points[j]).1 == peak(front);
                assert(front[line] == lines[line]);
                assert(lines[line].points[at].1 == peak(lines));
            }
        }
    }
}

/// What zeroing does to the range of a chart, whatever the chart.
///
/// The reported least value is 0. No value that is left is below 0 or above
/// the reported greatest value. A line that has points has one at 0. And the
/// reported greatest value is the value of some point, unless the chart has
/// no point at all, where it is 0.
pub proof fn lemma_normalised_range(graph: GraphView)
    requires
        graph.normalisable(),
    ensures
        normalised(graph).min_value == 0,
        normalised(graph).lines.len() == graph.lines.len(),
        forall|i: int, j: int|
            0 <= i < graph.lines.len() && 0 <= j < graph.lines[i].points.len() ==> 0 <= (
            #[trigger] normalised(graph).lines[i].points[j]).1 <= normalised(graph).max_value,
        forall|i: int|
            0 <= i < graph.lines.len() && graph.lines[i].points.len() > 0 ==> exists|j: int|
                0 <= j < graph.lines[i].points.len() && (#[trigger] normalised(
                    graph,
                ).lines[i].points[j]).1 == 0,
        (forall|i: int| 0 <= i < graph.lines.len() ==> (#[trigger] graph.lines[i]).points.len() == 0)
            ==> normalised(graph).max_value == 0,
        (exists|i: int| 0 <= i < graph.lines.len() && (#[trigger] graph.lines[i]).points.len() > 0)
            ==> exists|i: int, j: int|
            0 <= i < graph.lines.len() && 0 <= j < graph.lines[i].points.len() && (
            #[trigger] normalised(graph).lines[i].points[j]).1 == normalised(graph).max_value,
{
    let after = normalised(graph);
    lemma_peak(after.lines);
    assert forall|i: int, j: int|
        0 <= i < graph.lines.len() && 0 <= j < graph.lines[i].points.len() implies 0 <= (
    #[trigger] after.lines[i].points[j]).1 <= after.max_value by {
        lemma_least_value(graph.lines[i].points);
        assert(graph.lines[i].points[j].1 - least_value(graph.lines[i].points) <= i64::MAX);
    }
    assert forall|i: int| 0 <= i < graph.lines.len() && graph.lines[i].points.len() > 0 implies exists|
        j: int,
    |
        0 <= j < graph.lines[i].points.len() && (#[trigger] after.lines[i].points[j]).1 == 0 by {
        lemma_least_value(graph.lines[i].points);
        let at = choose|j: int|
            0 <= j < graph.lines[i].points.len() && (#[trigger] graph.lines[i].points[j]).1
                == least_value(graph.lines[i].points);
        assert(after.lines[i].points[at].1 == 0);
    }
    if exists|i: int| 0 <= i < graph.lines.len() && (#[trigger] graph.lines[i]).points.len() > 0 {
        let line = choose|i: int| 0 <= i < graph.lines.len() && (#[trigger] graph.lines[i]).points.len() > 0;
        if after.max_value == 0 {
            let at = choose|j: int|
                0 <= j < graph.lines[line].points.len() && (#[trigger] after.lines[line].points[j]).1
                    == 0;
            assert(after.lines[line].points[at].1 == after.max_value);
        }
    }
}

/// The chart of samples can always be zeroed: its values lie between 0 and
/// `u32::MAX`.
pub proof fn lemma_graph_of_normalisable(samples: Seq<TestSample>)
    ensures
        graph_of(samples).normalisable(),
{
    let graph = graph_of(samples);
    assert forall|i: int, j: int|
        0 <= i < graph.lines.len() && 0 <= j < graph.lines[i].points.len() implies (
    #[trigger] graph.lines[i].points[j]).1 - least_value(graph.lines[i].points) <= i64::MAX by {
        lemma_channel_points_range(samples, i);
        lemma_least_value(graph.lines[i].points);
        if graph.lines[i].points.len() > 0 {
            let at = choose|k: int|
                0 <= k < graph.lines[i].points.len() && (#[trigger] graph.lines[i].points[k]).1
                    == least_value(graph.lines[i].points);
            assert(0 <= graph.lines[i].points[at].1);
        }
    }
}

/// The values on a line of samples lie between 0 and `u32::MAX`.
pub proof fn lemma_channel_points_range(samples: Seq<TestSample>, channel: int)
    ensures
        forall|j: int|
            0 <= j < channel_points(samples, channel).len() ==> 0 <= (#[trigger] channel_points(
                samples,
                channel,
            )[j]).1 <= u32::MAX,
    decreases samples.len(),
{
    if samples.len() > 0 {
        let front = channel_points(samples.drop_last(), channel);
        lemma_channel_points_range(samples.drop_last(), channel);
        assert forall|j: int| 0 <= j < channel_points(samples, channel).len() implies 0 <= (
        #[trigger] channel_points(samples, channel)[j]).1 <= u32::MAX by {
            if j < front.len() {
                assert(channel_points(samples, channel)[j] == front[j]);
            }
        }
    }
}

impl Line {
    /// A line of the given colour without points.
    pub fn new(color: Color) -> (line: Line)
        ensures
            line@ == (LineView { color, points: Seq::empty() }),
    {
        Line { color, points: Vec::new() }
    }
}

/// Seven empty lines in the colours of the palette.
fn empty_lines() -> (lines: Vec<Line>)
    ensures
        lines@.len() == CHANNELS,
        forall|channel: int|
            0 <= channel < CHANNELS ==> (#[trigger] lines@[channel])@ == (LineView {
                color: palette(channel),
                points: Seq::empty(),
            }),
{
    let mut lines: Vec<Line> = Vec::new();
    lines.push(Line::new(Color(166, 206, 227)));
    lines.push(Line::new(Color(32, 120, 180)));
    lines.push(Line::new(Color(178, 223, 138)));
    lines.push(Line::new(Color(52, 160, 45)));
    lines.push(Line::new(Color(166, 206, 227)));
    lines.push(Line::new(Color(252, 154, 154)));
    lines.push(Line::new(Color(254, 192, 112)));
    lines
}

/// The size of a raster in bytes: three for each pixel.
pub const RASTER_BYTES: usize = 1_440_000;

/// The PNG file that `png::Encoder` writes for an image of `width` by `height`
/// pixels, eight bits each of red, green and blue, with the encoder's default
/// compression and filter.
pub uninterp spec fn png_rgb8(width: u32, height: u32, pixels: Seq<u8>) -> Seq<u8>;

/// The eight bytes that every PNG file starts with.
pub open spec fn png_signature() -> Seq<u8> {
    seq![137u8, 80u8, 78u8, 71u8, 13u8, 10u8, 26u8, 10u8]
}

/// Encodes a raster as a PNG file with `png::Encoder`, set to RGB colour and a
/// depth of eight bits, writing the header and then the image data.
///
/// Trusted: the file is the one named by `png_rgb8`, and it starts with the PNG
/// signature, which the encoder writes before anything else. The encoder
/// refuses a width or height of 0 and image data of any other size than three
/// bytes per pixel; those are left out.
#[verifier::external_body]
fn encode_rgb8(width: u32, height: u32, pixels: &Vec<u8>) -> (file: Vec<u8>)
    requires
        width > 0,
        height > 0,
        pixels@.len() == width * height * 3,
    ensures
        file@ == png_rgb8(width, height, pixels@),
        file@.len() >= 8,
        file@.subrange(0, 8) == png_signature(),
{
    let mut file = Vec::new();
    let mut encoder = png::Encoder::new(&mut file, width, height);
    encoder.set_color(png::ColorType::Rgb);
    encoder.set_depth(png::BitDepth::Eight);
    encoder
        .write_header()
        .expect("PNG configuration should be valid and writes should succeed")
        .write_image_data(pixels)
        .expect("PNG configuration should be valid and writes should succeed");
    file
}

/// A raster of the chart's size: `WIDTH` by `HEIGHT` pixels, row by row, three
/// bytes for each pixel.
///
/// The drawing backend paints on the pixels of a blank canvas and hands them
/// back; a canvas cannot be had with any other number of bytes.
#[derive(Debug)]
pub struct Canvas {
    pixels: Vec<u8>,
}

impl View for Canvas {
    type V = Seq<u8>;

    closed spec fn view(&self) -> Seq<u8> {
        self.pixels@
    }
}

impl Canvas {
    #[verifier::type_invariant]
    spec fn sized(self) -> bool {
        self.pixels@.len() == RASTER_BYTES
    }

    /// A canvas with every byte 0.
    pub fn blank() -> (canvas: Canvas)
        ensures
            canvas@ == Seq::new(RASTER_BYTES as nat, |i: int| 0u8),
    {
        let pixels: Vec<u8> = vec![0u8; RASTER_BYTES];
        assert(pixels@ =~= Seq::new(RASTER_BYTES as nat, |i: int| 0u8));
        Canvas { pixels }
    }

    /// The canvas of the given pixels, or `None` where their number is not
    /// that of a raster.
    pub fn from_pixels(pixels: Vec<u8>) -> (canvas: Option<Canvas>)
        ensures
            match canvas {
                Some(canvas) => pixels@.len() == RASTER_BYTES && canvas@ == pixels@,
                None => pixels@.len() != RASTER_BYTES,
            },
    {
        if pixels.len() == RASTER_BYTES {
            Some(Canvas { pixels })
        } else {
            None
        }
    }

    /// The pixels, for the drawing backend to paint on.
    pub fn into_pixels(self) -> (pixels: Vec<u8>)
        ensures
            pixels@ == self@,
            pixels@.len() == RASTER_BYTES,
    {
        proof {
            use_type_invariant(&self);
        }
        self.pixels
    }

    /// The canvas as a PNG file.
    pub fn encode(&self) -> (file: Vec<u8>)
        ensures
            file@ == png_rgb8(WIDTH, HEIGHT, self@),
            file@.len() >= 8,
            file@.subrange(0, 8) == png_signature(),
    {
        proof {
            use_type_invariant(self);
        }
        encode_rgb8(WIDTH, HEIGHT, &self.pixels)
    }
}

impl GraphData {
    /// Zeroes every line at its own least value, and sets the range of values
    /// anew: from 0 to the greatest value that is left on any line. Times,
    /// colours and the order of lines and points stay as they are.
    pub fn normalise_values_to_zero(&self) -> (graph: GraphData)
        requires
            self@.normalisable(),
        ensures
            graph@ == normalised(self@),
    {
        let ghost zeroed_lines = self@.lines.map_values(|line: LineView| zeroed(line));
        let mut lines: Vec<Line> = Vec::new();
        let mut max_value: i64 = 0;
        let mut i: usize = 0;
        while i < self.lines.len()
            invariant
                0 <= i <= self.lines@.len(),
                self@.normalisable(),
                zeroed_lines == self@.lines.map_values(|line: LineView| zeroed(line)),
                lines@.len() == i,
                forall|k: int| 0 <= k < i ==> (#[trigger] lines@[k])@ == zeroed_lines[k],
                max_value == peak(zeroed_lines.take(i as int)),
            decreases self.lines@.len() - i,
        {
            let line = &self.lines[i];
            assert(self@.lines[i as int] == line@);
            let least = line.least();
            let ghost goal = zeroed(line@).points;
            let mut points: Vec<(u16, i64)> = Vec::new();
            let mut highest: i64 = 0;
            let mut j: usize = 0;
            while j < line.points.len()
                invariant
                    0 <= j <= line.points@.len(),
                    0 <= i < self.lines@.len(),
                    self@.normalisable(),
                    self@.lines[i as int] == line@,
                    least == least_value(line.points@),
                    goal == zeroed(line@).points,
                    points@ == goal.take(j as int),
                    highest == crest(goal.take(j as int)),
                decreases line.points@.len() - j,
            {
                let (time, value) = line.points[j];
                proof {
                    lemma_least_value(line.points@);
                    assert(self@.lines[i as int].points[j as int].1 - least_value(
                        self@.lines[i as int].points,
                    ) <= i64::MAX);
                    assert(goal.take(j + 1).drop_last() =~= goal.take(j as int));
                    assert(goal.take(j + 1) =~= goal.take(j as int).push(goal[j as int]));
                }
                let risen: i64 = value - least;
                if risen > highest {
                    highest = risen;
                }
                points.push((time, risen));
                j += 1;
            }
            proof {
                assert(goal.take(j as int) =~= goal);
                assert(zeroed_lines.take(i + 1).drop_last() =~= zeroed_lines.take(i as int));
                assert(zeroed_lines.take(i + 1).last() == zeroed(line@));
            }
            if highest > max_value {
                max_value = highest;
            }
            lines.push(Line { color: line.color, points });
            i += 1;
        }
        let graph = GraphData {
            min_time: self.min_time,
            max_time: self.max_time,
            min_value: 0,
            max_value,
            lines,
        };
        proof {
            assert(zeroed_lines.take(i as int) =~= zeroed_lines);
            assert(graph@.lines =~= zeroed_lines);
        }
        graph
    }

    /// Where the value axis ends when this chart is drawn: at twice its
    /// greatest value, and never below `VALUE_AXIS_FLOOR`.
    pub fn value_axis_top(&self) -> (top: i64)
        requires
            i64::MIN <= 2 * self.max_value <= i64::MAX,
        ensures
            top == axis_top(self.max_value as int),
    {
        let doubled: i64 = self.max_value * 2;
        if doubled > VALUE_AXIS_FLOOR {
            doubled
        } else {
            VALUE_AXIS_FLOOR
        }
    }

    /// The chart as a PNG file, from what the drawing backend made of it: the
    /// painted canvas, or the reason why it could not draw.
    pub fn plot_to_buffer(drawing: Result<Canvas, String>) -> (file: Result<Vec<u8>, Error>)
        ensures
            match drawing {
                Ok(canvas) => file is Ok && file->Ok_0@ == png_rgb8(WIDTH, HEIGHT, canvas@)
                    && file->Ok_0@.len() >= 8 && file->Ok_0@.subrange(0, 8) == png_signature(),
                Err(reason) => file == Err::<Vec<u8>, Error>(Error::Plotting(reason)),
            },
    {
        match drawing {
            Ok(canvas) => Ok(canvas.encode()),
            Err(reason) => Err(Error::Plotting(reason)),
        }
    }
}

impl Line {
    /// The least value on the line, 0 where it has no points.
    pub fn least(&self) -> (least: i64)
        ensures
            least == least_value(self.points@),
    {
        if self.points.len() == 0 {
            return 0;
        }
        let mut least: i64 = self.points[0].1;
        let mut j: usize = 1;
        assert(self.points@.take(1).len() == 1);
        while j < self.points.len()
            invariant
                1 <= j <= self.points@.len(),
                least == least_value(self.points@.take(j as int)),
            decreases self.points@.len() - j,
        {
            proof {
                assert(self.points@.take(j + 1).drop_last() =~= self.points@.take(j as int));
            }
            if self.points[j].1 < least {
                least = self.points[j].1;
            }
            j += 1;
        }
        proof {
            assert(self.points@.take(j as int) =~= self.points@);
        }
        least
    }
}

/// The chart that is drawn for `samples`: their lines, each zeroed on its own.
pub open spec fn chart_of(samples: Seq<TestSample>) -> GraphView {
    normalised(graph_of(samples))
}

impl TestData {
    /// The chart to draw for this data: `to_graph`, then
    /// `normalise_values_to_zero`. It fails where `to_graph` does.
    pub fn chart(&self) -> (chart: Result<GraphData, Error>)
        ensures
            match chart {
                Ok(chart) => stray_channel(self.samples@) is None && chart@ == chart_of(
                    self.samples@,
                ),
                Err(error) => stray_channel(self.samples@) is Some && error
                    == Error::TooManyChannels(stray_channel(self.samples@).unwrap()),
            },
    {
        match self.to_graph() {
            Ok(graph) => {
                proof {
                    lemma_graph_of_normalisable(self.samples@);
                }
                Ok(graph.normalise_values_to_zero())
            },
            Err(error) => Err(error),
        }
    }

    /// Sorts the samples onto the lines of a chart, channel by channel, and
    /// notes the range of their times and values.
    ///
    /// A sample on a channel that has no line makes this fail with
    /// `TooManyChannels`, naming the channel of the first such sample.
    pub fn to_graph(&self) -> (graph: Result<GraphData, Error>)
        ensures
            match graph {
                Ok(graph) => stray_channel(self.samples@) is None && graph@ == graph_of(
                    self.samples@,
                ),
                Err(error) => stray_channel(self.samples@) is Some && error
                    == Error::TooManyChannels(stray_channel(self.samples@).unwrap()),
            },
    {
        let mut min_time: u16 = u16::MAX;
        let mut max_time: u16 = 0;
        let mut min_value: i64 = i64::MAX;
        let mut max_value: i64 = i64::MIN;
        let mut lines = empty_lines();
        let mut i: usize = 0;
        while i < self.samples.len()
            invariant
                0 <= i <= self.samples@.len(),
                lines@.len() == CHANNELS,
                stray_channel(self.samples@.take(i as int)) is None,
                min_time == earliest(self.samples@.take(i as int)),
                max_time == latest(self.samples@.take(i as int)),
                min_value == lowest(self.samples@.take(i as int)),
                max_value == highest(self.samples@.take(i as int)),
                forall|channel: int|
                    0 <= channel < CHANNELS ==> (#[trigger] lines@[channel])@ == (LineView {
                        color: palette(channel),
                        points: channel_points(self.samples@.take(i as int), channel),
                    }),
            decreases self.samples@.len() - i,
        {
            let sample = &self.samples[i];
            let value: i64 = sample.first_channel_result as i64;
            proof {
                assert(self.samples@.take(i + 1).drop_last() =~= self.samples@.take(i as int));
                assert(self.samples@.take(i + 1).last() == self.samples@[i as int]);
            }
            if sample.sampling_time < min_time {
                min_time = sample.sampling_time;
            }
            if sample.sampling_time > max_time {
                max_time = sample.sampling_time;
            }
            if value < min_value {
                min_value = value;
            }
            if value > max_value {
                max_value = value;
            }
            if sample.starting_channel >= lines.len() {
                proof {
                    lemma_stray_channel_prefix(self.samples@, i + 1);
                }
                return Err(Error::TooManyChannels(sample.starting_channel));
            }
            let ghost before = lines@;
            lines[sample.starting_channel].points.push((sample.sampling_time, value));
            proof {
                assert forall|channel: int| 0 <= channel < CHANNELS implies (#[trigger] lines@[channel])@
                    == (LineView {
                    color: palette(channel),
                    points: channel_points(self.samples@.take(i + 1), channel),
                }) by {
                    assert(before[channel]@.points == channel_points(
                        self.samples@.take(i as int),
                        channel,
                    ));
                }
            }
            i += 1;
        }
        proof {
            assert(self.samples@.take(i as int) =~= self.samples@);
        }
        let graph = GraphData { min_time, max_time, min_value, max_value, lines };
        proof {
            assert(graph@.lines =~= graph_of(self.samples@).lines);
        }
        Ok(graph)
    }
}

} // verus!
