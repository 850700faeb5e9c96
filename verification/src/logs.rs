//! Forwarding the backend's output while debugging.
//!
//! In debug mode one reader per output stream takes the backend's output
//! apart into lines and passes each on to the user interface. The readers
//! are a diagnostic aid and must never disturb the backend: a line that is
//! not valid text is dropped and reading goes on; a stream that ends stops
//! its own reader and nothing else.

use vstd::prelude::*;

verus! {

/// The stream a line came from.
#[derive(Clone, Copy, Debug, PartialEq, Eq, Structural)]
pub enum StreamOrigin {
    Stdout,
    Stderr,
}

/// Name of the event channel on which the lines of `origin` are delivered.
pub open spec fn channel_of(origin: StreamOrigin) -> Seq<char> {
    match origin {
        StreamOrigin::Stdout => "backend-stdout"@,
        StreamOrigin::Stderr => "backend-stderr"@,
    }
}

impl StreamOrigin {
    /// Name of the event channel on which the lines of this stream are
    /// delivered.
    pub fn channel_name(self) -> (name: &'static str)
        ensures
            name@ == channel_of(self),
    {
        match self {
            StreamOrigin::Stdout => "backend-stdout",
            StreamOrigin::Stderr => "backend-stderr",
        }
    }
}

/// The streams that get a reader: both output streams in debug mode, none
/// otherwise.
pub open spec fn streams_read(debug: bool) -> Seq<StreamOrigin> {
    if debug {
        seq![StreamOrigin::Stdout, StreamOrigin::Stderr]
    } else {
        Seq::empty()
    }
}

/// Lists the streams for which a reader is to be started.
pub fn log_streams(debug: bool) -> (streams: Vec<StreamOrigin>)
    ensures
        streams@ == streams_read(debug),
{
    let mut streams: Vec<StreamOrigin> = Vec::new();
    if debug {
        streams.push(StreamOrigin::Stdout);
        streams.push(StreamOrigin::Stderr);
    }
    assert(streams@ =~= streams_read(debug));
    streams
}

/// One line of backend output, without its line end.
#[derive(Clone, Debug, PartialEq, Eq)]
pub struct LogLine {
    pub origin: StreamOrigin,
    pub text: String,
}

/// The mathematical content of a [`LogLine`].
pub struct LogLineView {
    pub origin: StreamOrigin,
    pub text: Seq<char>,
}

impl View for LogLine {
    type V = LogLineView;

    open spec fn view(&self) -> LogLineView {
        LogLineView { origin: self.origin, text: self.text@ }
    }
}

/// What one attempt to read a line gave.
#[derive(Clone, Debug, PartialEq, Eq)]
pub enum ReadOutcome {
    /// A complete line.
    Line(String),
    /// A line that is not valid text.
    Undecodable,
    /// The stream has ended or failed.
    Closed,
}

/// The mathematical content of a [`ReadOutcome`].
pub enum ReadOutcomeView {
    Line(Seq<char>),
    Undecodable,
    Closed,
}

impl View for ReadOutcome {
    type V = ReadOutcomeView;

    open spec fn view(&self) -> ReadOutcomeView {
        match self {
            ReadOutcome::Line(text) => ReadOutcomeView::Line(text@),
            ReadOutcome::Undecodable => ReadOutcomeView::Undecodable,
            ReadOutcome::Closed => ReadOutcomeView::Closed,
        }
    }
}

/// What a reader does next.
#[derive(Clone, Debug, PartialEq, Eq)]
pub enum ReaderStep {
    /// Pass the line on, then read again.
    Forward(LogLine),
    /// Pass nothing on, and read again.
    Skip,
    /// Stop reading.
    Stop,
}

/// The mathematical content of a [`ReaderStep`].
pub enum ReaderStepView {
    Forward(LogLineView),
    Skip,
    Stop,
}

impl View for ReaderStep {
    type V = ReaderStepView;

    open spec fn view(&self) -> ReaderStepView {
        match self {
            ReaderStep::Forward(line) => ReaderStepView::Forward(line@),
            ReaderStep::Skip => ReaderStepView::Skip,
            ReaderStep::Stop => ReaderStepView::Stop,
        }
    }
}

/// What the reader of `origin` does after a read that gave `outcome`.
pub open spec fn step_after(origin: StreamOrigin, outcome: ReadOutcomeView) -> ReaderStepView {
    match outcome {
        ReadOutcomeView::Line(text) => ReaderStepView::Forward(LogLineView { origin, text }),
        ReadOutcomeView::Undecodable => ReaderStepView::Skip,
        ReadOutcomeView::Closed => ReaderStepView::Stop,
    }
}

/// Decides what the reader of `origin` does after a read.
pub fn next_step(origin: StreamOrigin, outcome: ReadOutcome) -> (step: ReaderStep)
    ensures
        step@ == step_after(origin, outcome@),
{
    match outcome {
        ReadOutcome::Line(text) => ReaderStep::Forward(LogLine { origin, text }),
        ReadOutcome::Undecodable => ReaderStep::Skip,
        ReadOutcome::Closed => ReaderStep::Stop,
    }
}

/// The contents of a list of read outcomes, in order.
pub open spec fn outcomes_view(outcomes: Seq<ReadOutcome>) -> Seq<ReadOutcomeView> {
    Seq::new(outcomes.len(), |i: int| outcomes[i]@)
}

/// The contents of a list of lines, in order.
pub open spec fn lines_view(lines: Seq<LogLine>) -> Seq<LogLineView> {
    Seq::new(lines.len(), |i: int| lines[i]@)
}

/// The lines that the reader of `origin` passes on when its reads give
/// `outcomes`, one after the other: every line read before the stream ends,
/// in the order read, and nothing for a line that is not valid text.
pub open spec fn forwarded(origin: StreamOrigin, outcomes: Seq<ReadOutcomeView>) -> Seq<
    LogLineView,
>
    decreases outcomes.len(),
{
    if outcomes.len() == 0 {
        Seq::empty()
    } else {
        match step_after(origin, outcomes[0]) {
            ReaderStepView::Forward(line) => seq![line] + forwarded(origin, outcomes.skip(1)),
            ReaderStepView::Skip => forwarded(origin, outcomes.skip(1)),
            ReaderStepView::Stop => Seq::empty(),
        }
    }
}

/// Runs the reader of `origin` over the outcomes of its reads and collects
/// the lines that it passes on.
pub fn forward_lines(origin: StreamOrigin, outcomes: &Vec<ReadOutcome>) -> (lines: Vec<LogLine>)
    ensures
        lines_view(lines@) == forwarded(origin, outcomes_view(outcomes@)),
{
    let ghost all = outcomes_view(outcomes@);
    let mut lines: Vec<LogLine> = Vec::new();
    let mut i: usize = 0;
    assert(all.skip(0) =~= all);
    while i < outcomes.len()
        invariant
            0 <= i <= outcomes.len(),
            all == outcomes_view(outcomes@),
            forwarded(origin, all) =~= lines_view(lines@) + forwarded(origin, all.skip(i as int)),
        decreases outcomes.len() - i,
    {
        let ghost rest = all.skip(i as int);
        assert(rest[0] == all[i as int]);
        assert(rest.skip(1) =~= all.skip(i as int + 1));
        let ghost before = lines_view(lines@);
        match &outcomes[i] {
            ReadOutcome::Line(text) => {
                lines.push(LogLine { origin, text: text.clone() });
                assert(lines_view(lines@) =~= before + seq![
                    LogLineView { origin, text: text@ },
                ]);
            },
            ReadOutcome::Undecodable => {},
            ReadOutcome::Closed => {
                assert(forwarded(origin, rest) =~= Seq::<LogLineView>::empty());
                return lines;
            },
        }
        i += 1;
    }
    assert(forwarded(origin, all.skip(outcomes.len() as int)) =~= Seq::<LogLineView>::empty());
    lines
}

/// Every line that a reader passes on carries the reader's own stream.
pub proof fn lemma_forwarded_origin(origin: StreamOrigin, outcomes: Seq<ReadOutcomeView>)
    ensures
        forall|i: int|
            0 <= i < forwarded(origin, outcomes).len() ==> (#[trigger] forwarded(
                origin,
                outcomes,
            )[i]).origin == origin,
    decreases outcomes.len(),
{
    if outcomes.len() > 0 {
        lemma_forwarded_origin(origin, outcomes.skip(1));
    }
}

/// Once the stream has ended nothing more is passed on, whatever a later
/// read might give.
pub proof fn lemma_nothing_after_close(
    origin: StreamOrigin,
    before: Seq<ReadOutcomeView>,
    after: Seq<ReadOutcomeView>,
)
    ensures
        forwarded(origin, before.push(ReadOutcomeView::Closed) + after) == forwarded(
            origin,
            before.push(ReadOutcomeView::Closed),
        ),
    decreases before.len(),
{
    let closed = before.push(ReadOutcomeView::Closed);
    let whole = closed + after;
    if before.len() > 0 {
        let rest = before.skip(1);
        lemma_nothing_after_close(origin, rest, after);
        assert(whole[0] == closed[0]);
        assert(whole.skip(1) =~= rest.push(ReadOutcomeView::Closed) + after);
        assert(closed.skip(1) =~= rest.push(ReadOutcomeView::Closed));
    } else {
        assert(whole[0] == ReadOutcomeView::Closed);
        assert(closed[0] == ReadOutcomeView::Closed);
    }
}

/// A stream that gives only valid lines and never ends has every one of
/// them passed on, in the order read.
pub proof fn lemma_lines_forwarded_in_order(origin: StreamOrigin, texts: Seq<Seq<char>>)
    ensures
        forwarded(origin, Seq::new(texts.len(), |i: int| ReadOutcomeView::Line(texts[i])))
            == Seq::new(texts.len(), |i: int| LogLineView { origin, text: texts[i] }),
    decreases texts.len(),
{
    let outcomes = Seq::new(texts.len(), |i: int| ReadOutcomeView::Line(texts[i]));
    let lines = Seq::new(texts.len(), |i: int| LogLineView { origin, text: texts[i] });
    if texts.len() > 0 {
        let rest = texts.skip(1);
        lemma_lines_forwarded_in_order(origin, rest);
        assert(outcomes.skip(1) =~= Seq::new(
            rest.len(),
            |i: int| ReadOutcomeView::Line(rest[i]),
        ));
        assert(lines =~= seq![LogLineView { origin, text: texts[0] }] + Seq::new(
            rest.len(),
            |i: int| LogLineView { origin, text: rest[i] },
        ));
    } else {
        assert(lines =~= Seq::<LogLineView>::empty());
    }
}

} // verus!
