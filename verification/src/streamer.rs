//! The log streamer of one node: when what was read from the node's output
//! is handed on to the dashboard.
//!
//! The task that owns the node's output reads a line, reports it, and does
//! what the streamer answers: read again, hand a chunk on (to the log file
//! first, where there is one, then to the channel), or stop.

use vstd::prelude::*;
use vstd::string::StringExecFns;

verus! {

/// How a streamer batches what it reads.
#[derive(Clone, Copy, Debug, PartialEq, Eq, Structural)]
pub struct StreamerConfig {
    /// How many reads make one chunk.
    pub reads_per_batch: usize,
    /// Whether a chunk without any text is dropped instead of handed on.
    pub suppress_empty: bool,
}

/// What the reading task reports.
#[derive(Debug)]
pub enum StreamEvent {
    /// One read gave this text.
    Line(String),
    /// The read failed: the stream is closed or the process is gone.
    ReadFailed,
    /// The chunk was handed on.
    Forwarded,
    /// The chunk could not be handed on, because the channel is closed.
    ChannelClosed,
}

/// What the reading task does next.
#[derive(Debug)]
pub enum StreamAction {
    Read,
    /// Hand this chunk on.
    Forward(String),
    Stop,
}

/// The state of one node's streamer.
#[derive(Debug)]
pub struct Streamer {
    pub config: StreamerConfig,
    /// What was read and not yet handed on.
    pub batch: String,
    /// How many reads went into `batch`.
    pub reads: usize,
    /// Whether the task has stopped for good.
    pub ended: bool,
}

/// An event as a mathematical value.
pub ghost enum StreamEventView {
    Line(Seq<char>),
    ReadFailed,
    Forwarded,
    ChannelClosed,
}

/// An action as a mathematical value.
pub ghost enum StreamActionView {
    Read,
    Forward(Seq<char>),
    Stop,
}

/// A streamer's state as a mathematical value.
pub ghost struct StreamerView {
    pub config: StreamerConfig,
    pub batch: Seq<char>,
    pub reads: usize,
    pub ended: bool,
}

impl View for StreamEvent {
    type V = StreamEventView;

    open spec fn view(&self) -> StreamEventView {
        match self {
            StreamEvent::Line(text) => StreamEventView::Line(text@),
            StreamEvent::ReadFailed => StreamEventView::ReadFailed,
            StreamEvent::Forwarded => StreamEventView::Forwarded,
            StreamEvent::ChannelClosed => StreamEventView::ChannelClosed,
        }
    }
}

impl View for StreamAction {
    type V = StreamActionView;

    open spec fn view(&self) -> StreamActionView {
        match self {
            StreamAction::Read => StreamActionView::Read,
            StreamAction::Forward(chunk) => StreamActionView::Forward(chunk@),
            StreamAction::Stop => StreamActionView::Stop,
        }
    }
}

impl View for Streamer {
    type V = StreamerView;

    open spec fn view(&self) -> StreamerView {
        StreamerView {
            config: self.config,
            batch: self.batch@,
            reads: self.reads,
            ended: self.ended,
        }
    }
}

impl StreamerView {
    /// The state of a streamer that has read nothing yet.
    pub open spec fn initial(config: StreamerConfig) -> StreamerView {
        StreamerView { config, batch: Seq::empty(), reads: 0, ended: false }
    }

    /// Whether one more read completes the chunk.
    pub open spec fn batch_completes(self) -> bool {
        self.reads + 1 >= self.config.reads_per_batch
    }

    /// Whether a completed chunk with this text is handed on.
    pub open spec fn forwards(self, chunk: Seq<char>) -> bool {
        chunk.len() > 0 || !self.config.suppress_empty
    }

    /// The state after a report.
    pub open spec fn after(self, event: StreamEventView) -> StreamerView {
        if self.ended {
            self
        } else {
            match event {
                StreamEventView::Line(text) => if self.batch_completes() {
                    StreamerView { batch: Seq::empty(), reads: 0, ..self }
                } else {
                    StreamerView {
                        batch: self.batch + text,
                        reads: (self.reads + 1) as usize,
                        ..self
                    }
                },
                StreamEventView::ReadFailed => StreamerView { ended: true, ..self },
                StreamEventView::Forwarded => self,
                StreamEventView::ChannelClosed => StreamerView { ended: true, ..self },
            }
        }
    }

    /// The answer to a report.
    pub open spec fn answer(self, event: StreamEventView) -> StreamActionView {
        if self.ended {
            StreamActionView::Stop
        } else {
            match event {
                StreamEventView::Line(text) => if self.batch_completes() && self.forwards(
                    self.batch + text,
                ) {
                    StreamActionView::Forward(self.batch + text)
                } else {
                    StreamActionView::Read
                },
                StreamEventView::ReadFailed => StreamActionView::Stop,
                StreamEventView::Forwarded => StreamActionView::Read,
                StreamEventView::ChannelClosed => StreamActionView::Stop,
            }
        }
    }
}

/// The text that an action hands on.
pub open spec fn handed_on(action: StreamActionView) -> Seq<char> {
    match action {
        StreamActionView::Forward(chunk) => chunk,
        _ => Seq::empty(),
    }
}

impl StreamerConfig {
    /// Ten reads to a chunk, and no chunk without text.
    pub fn standard() -> (r: StreamerConfig)
        ensures
            r == (StreamerConfig { reads_per_batch: 10, suppress_empty: true }),
    {
        StreamerConfig { reads_per_batch: 10, suppress_empty: true }
    }
}

impl Streamer {
    /// A streamer that has read nothing yet. Its task starts by reading.
    pub fn new(config: StreamerConfig) -> (r: Streamer)
        ensures
            r@ == StreamerView::initial(config),
    {
        Streamer { config, batch: String::new(), reads: 0, ended: false }
    }

    /// Takes the task's report and says what to do next.
    pub fn step(&mut self, event: StreamEvent) -> (r: StreamAction)
        ensures
            final(self)@ == old(self)@.after(event@),
            r@ == old(self)@.answer(event@),
    {
        if self.ended {
            return StreamAction::Stop;
        }
        match event {
            StreamEvent::Line(text) => {
                if self.reads < usize::MAX && self.reads + 1 < self.config.reads_per_batch {
                    self.batch.append(text.as_str());
                    self.reads += 1;
                    StreamAction::Read
                } else {
                    let mut chunk = String::new();
                    core::mem::swap(&mut self.batch, &mut chunk);
                    chunk.append(text.as_str());
                    self.reads = 0;
                    if chunk.as_str().is_empty() && self.config.suppress_empty {
                        StreamAction::Read
                    } else {
                        StreamAction::Forward(chunk)
                    }
                }
            },
            StreamEvent::ReadFailed => {
                self.ended = true;
                StreamAction::Stop
            },
            StreamEvent::Forwarded => StreamAction::Read,
            StreamEvent::ChannelClosed => {
                self.ended = true;
                StreamAction::Stop
            },
        }
    }
}

/// Nothing that was read is lost or moved while the streamer runs: what is
/// handed on after a read, followed by what is kept, is what was kept before
/// followed by what was read.
pub proof fn lemma_read_is_kept_or_handed_on(s: StreamerView, text: Seq<char>)
    requires
        !s.ended,
    ensures
        handed_on(s.answer(StreamEventView::Line(text))) + s.after(
            StreamEventView::Line(text),
        ).batch == s.batch + text,
{
    let event = StreamEventView::Line(text);
    if s.batch_completes() {
        if s.forwards(s.batch + text) {
            assert((s.batch + text) + Seq::<char>::empty() == s.batch + text);
        } else {
            assert(s.batch + text == Seq::<char>::empty());
            assert(Seq::<char>::empty() + Seq::<char>::empty() == s.batch + text);
        }
    } else {
        assert(Seq::<char>::empty() + (s.batch + text) == s.batch + text);
    }
}

/// A streamer that has stopped stays stopped and hands nothing on.
pub proof fn lemma_ended_streamer_is_silent(s: StreamerView, event: StreamEventView)
    requires
        s.ended,
    ensures
        s.after(event) == s,
        s.answer(event) == StreamActionView::Stop,
{
}

/// A failed read ends the streamer at once: it stops, and hands on nothing of
/// what it had gathered.
pub proof fn lemma_read_failure_ends(s: StreamerView)
    ensures
        s.after(StreamEventView::ReadFailed).ended,
        s.answer(StreamEventView::ReadFailed) == StreamActionView::Stop,
{
}

/// A chunk is handed on only after as many reads as the configuration asks
/// for, and never holds more than that many.
pub proof fn lemma_chunks_are_bounded(s: StreamerView, text: Seq<char>)
    requires
        !s.ended,
        s.reads < s.config.reads_per_batch,
    ensures
        s.after(StreamEventView::Line(text)).reads < s.config.reads_per_batch,
        s.answer(StreamEventView::Line(text)) is Forward ==> s.reads + 1
            == s.config.reads_per_batch,
{
}

} // verus!
