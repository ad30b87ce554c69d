//! Relaying the worker's output to the host's event sink.
//!
//! The host reads the worker's events one by one and asks [`relay_step`] what
//! to do with each. A delivery that fails is the host's to log: the answer to
//! the next event does not depend on it, so one bad delivery never starves the
//! lines that follow.

use vstd::prelude::*;
use vstd::utf8::{decode_utf8, valid_utf8};

verus! {

/// The stream of the worker that a line came from.
#[derive(Clone, Copy, Debug, PartialEq, Eq, Structural)]
pub enum StreamKind {
    Stdout,
    Stderr,
}

/// One line of the worker's output, tagged with its stream.
#[derive(Debug, PartialEq, Eq)]
pub struct OutputLine {
    pub kind: StreamKind,
    pub text: String,
}

/// What the worker's event channel hands to the relay.
#[derive(Debug, PartialEq, Eq)]
pub enum WorkerEvent {
    /// A line that the worker wrote to its standard output, as raw bytes.
    Stdout(Vec<u8>),
    /// A line that the worker wrote to its standard error, as raw bytes.
    Stderr(Vec<u8>),
    /// Anything else, such as the notice that the worker has terminated.
    Other,
}

/// What the relay does about one read of the event channel.
#[derive(Debug, PartialEq, Eq)]
pub enum RelayStep {
    /// Deliver the line on the channel of its stream and read on.
    Forward(OutputLine),
    /// Nothing to deliver; read on.
    Skip,
    /// The channel is closed: the relay ends.
    Stop,
}

/// An [`OutputLine`] with its text as a character sequence.
pub struct Line {
    pub kind: StreamKind,
    pub text: Seq<char>,
}

impl View for OutputLine {
    type V = Line;

    open spec fn view(&self) -> Line {
        Line { kind: self.kind, text: self.text@ }
    }
}

/// The text that `String::from_utf8_lossy` makes of `bytes`.
pub uninterp spec fn utf8_lossy(bytes: Seq<u8>) -> Seq<char>;

/// Calls `String::from_utf8_lossy`. Trusted, not proved: the result is a
/// function of the bytes alone, named [`utf8_lossy`], and for bytes that are
/// valid UTF-8 it is the text that they encode. How invalid sequences are
/// replaced by U+FFFD is not stated.
#[verifier::external_body]
fn decode_lossy(bytes: &Vec<u8>) -> (text: String)
    ensures
        text@ == utf8_lossy(bytes@),
        valid_utf8(bytes@) ==> text@ == decode_utf8(bytes@),
{
    String::from_utf8_lossy(bytes).into_owned()
}

/// Name of the event channel on which the lines of `kind` are delivered.
pub open spec fn channel_name(kind: StreamKind) -> Seq<char> {
    match kind {
        StreamKind::Stdout => "sidecar-stdout"@,
        StreamKind::Stderr => "sidecar-stderr"@,
    }
}

/// The line that `event` gives rise to, if any.
pub open spec fn relayed(event: WorkerEvent) -> Option<Line> {
    match event {
        WorkerEvent::Stdout(bytes) => Some(
            Line { kind: StreamKind::Stdout, text: utf8_lossy(bytes@) },
        ),
        WorkerEvent::Stderr(bytes) => Some(
            Line { kind: StreamKind::Stderr, text: utf8_lossy(bytes@) },
        ),
        WorkerEvent::Other => None,
    }
}

/// Name of the event channel on which the lines of `kind` are delivered.
pub fn event_channel(kind: StreamKind) -> (name: &'static str)
    ensures
        name@ == channel_name(kind),
{
    match kind {
        StreamKind::Stdout => "sidecar-stdout",
        StreamKind::Stderr => "sidecar-stderr",
    }
}

/// Tags `text` with the stream it came from.
pub fn tag_line(kind: StreamKind, text: String) -> (line: OutputLine)
    ensures
        line.kind == kind,
        line.text == text,
{
    OutputLine { kind, text }
}

/// Decides what to do about one read of the worker's event channel, where
/// `None` stands for the closed channel. A line of either stream is
/// forwarded with the tag of its stream and its bytes decoded leniently.
pub fn relay_step(event: Option<WorkerEvent>) -> (step: RelayStep)
    ensures
        event is None <==> step is Stop,
        event matches Some(e) ==> (relayed(e) is None <==> step is Skip),
        event matches Some(e) ==> (relayed(e) matches Some(line) ==> step matches RelayStep::Forward(l)
            && l@ == line),
{
    match event {
        None => RelayStep::Stop,
        Some(WorkerEvent::Stdout(bytes)) => RelayStep::Forward(
            tag_line(StreamKind::Stdout, decode_lossy(&bytes)),
        ),
        Some(WorkerEvent::Stderr(bytes)) => RelayStep::Forward(
            tag_line(StreamKind::Stderr, decode_lossy(&bytes)),
        ),
        Some(WorkerEvent::Other) => RelayStep::Skip,
    }
}

/// The lines that the relay forwards for `events`, in the order in which it
/// forwards them.
pub open spec fn forwarded(events: Seq<WorkerEvent>) -> Seq<Line>
    decreases events.len(),
{
    if events.len() == 0 {
        Seq::empty()
    } else {
        let earlier = forwarded(events.drop_last());
        match relayed(events.last()) {
            Some(line) => earlier.push(line),
            None => earlier,
        }
    }
}

/// What the worker wrote to the stream `kind` according to `events`, line by
/// line in the order of writing, each decoded leniently.
pub open spec fn written_to(events: Seq<WorkerEvent>, kind: StreamKind) -> Seq<Seq<char>>
    decreases events.len(),
{
    if events.len() == 0 {
        Seq::empty()
    } else {
        let earlier = written_to(events.drop_last(), kind);
        match events.last() {
            WorkerEvent::Stdout(bytes) if kind is Stdout => earlier.push(utf8_lossy(bytes@)),
            WorkerEvent::Stderr(bytes) if kind is Stderr => earlier.push(utf8_lossy(bytes@)),
            _ => earlier,
        }
    }
}

/// The texts of those of `lines` that are tagged with `kind`, in order.
pub open spec fn texts_of(lines: Seq<Line>, kind: StreamKind) -> Seq<Seq<char>>
    decreases lines.len(),
{
    if lines.len() == 0 {
        Seq::empty()
    } else {
        let earlier = texts_of(lines.drop_last(), kind);
        if lines.last().kind == kind {
            earlier.push(lines.last().text)
        } else {
            earlier
        }
    }
}

/// The relay forwards every line that the worker wrote to a stream, tagged
/// with that stream and in the order of writing: nothing is dropped, repeated
/// or moved to the other stream.
pub proof fn relay_keeps_every_line_in_order(events: Seq<WorkerEvent>, kind: StreamKind)
    ensures
        texts_of(forwarded(events), kind) == written_to(events, kind),
    decreases events.len(),
{
    if events.len() > 0 {
        relay_keeps_every_line_in_order(events.drop_last(), kind);
        let earlier = forwarded(events.drop_last());
        match relayed(events.last()) {
            Some(line) => {
                assert(earlier.push(line).drop_last() =~= earlier);
                assert(earlier.push(line).last() == line);
            },
            None => {},
        }
    }
}

} // verus!
