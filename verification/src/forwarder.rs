//! Forwarding of one output stream of the child: what becomes of each read
//! of a line, and which events a whole stream gives.
//!
//! The reading itself is the caller's. It hands over what each read gave and
//! carries out the answer: publish the event and go on, go on, or end.

use crate::line::{
    is_line, lemma_written_line_reads_back, line_ending, read_of, LineRead, LineReadView,
};
use crate::log::{LogEvent, LogLevel, LogPayload, OutputStream};
use vstd::prelude::*;
use vstd::utf8::encode_utf8;

verus! {

/// What the forwarding loop does after a read.
#[derive(Debug)]
pub enum Forward {
    /// Publish the payload, then read on.
    Emit(LogPayload),
    /// Publish nothing, read on.
    Skip,
    /// End the loop.
    Stop,
}

/// The loop's step as the contracts speak of it.
pub enum ForwardView {
    Emit(LogEvent),
    Skip,
    Stop,
}

impl View for Forward {
    type V = ForwardView;

    open spec fn view(&self) -> ForwardView {
        match self {
            Forward::Emit(payload) => ForwardView::Emit(payload@),
            Forward::Skip => ForwardView::Skip,
            Forward::Stop => ForwardView::Stop,
        }
    }
}

/// The step that follows a read on a stream forwarded under `level`: a
/// decoded line is published with its text unchanged, a line that does not
/// decode is dropped, and a failed read or the end of the stream ends the
/// loop.
pub open spec fn step_after(level: LogLevel, read: LineReadView) -> ForwardView {
    match read {
        LineReadView::Line(text) => ForwardView::Emit(LogEvent { message: text, level }),
        LineReadView::Undecodable => ForwardView::Skip,
        LineReadView::Failed => ForwardView::Stop,
        LineReadView::Closed => ForwardView::Stop,
    }
}

/// The events that a stream forwarded under `level` gives, in order, when
/// its reads are `reads`: one for each decoded line that comes before the
/// first failed read or the end of the stream.
pub open spec fn events_of(level: LogLevel, reads: Seq<LineReadView>) -> Seq<LogEvent>
    decreases reads.len(),
{
    if reads.len() == 0 {
        Seq::empty()
    } else {
        match step_after(level, reads[0]) {
            ForwardView::Emit(event) => seq![event] + events_of(level, reads.skip(1)),
            ForwardView::Skip => events_of(level, reads.skip(1)),
            ForwardView::Stop => Seq::empty(),
        }
    }
}

/// The reads of a stream on which `lines` were written, each of which
/// decodes, and which was then closed.
pub open spec fn drained(lines: Seq<Seq<char>>) -> Seq<LineReadView> {
    lines.map_values(|text: Seq<char>| LineReadView::Line(text)).push(LineReadView::Closed)
}

/// Decides what follows one read on a stream forwarded under `level`.
pub fn forward(level: LogLevel, read: LineRead) -> (step: Forward)
    ensures
        step@ == step_after(level, read@),
{
    match read {
        LineRead::Line(text) => Forward::Emit(LogPayload::new(text, level)),
        LineRead::Undecodable => Forward::Skip,
        LineRead::Failed => Forward::Stop,
        LineRead::Closed => Forward::Stop,
    }
}

/// The reads of a recorded stream, each as the contracts speak of it.
pub open spec fn views_of(reads: Seq<LineRead>) -> Seq<LineReadView> {
    reads.map_values(|read: LineRead| read@)
}

/// The events that a list of payloads carries.
pub open spec fn events_in(payloads: Seq<LogPayload>) -> Seq<LogEvent> {
    payloads.map_values(|payload: LogPayload| payload@)
}

/// Runs the forwarding loop over the recorded reads of one stream and
/// returns, in order, the payloads that it publishes.
pub fn forward_all(level: LogLevel, reads: Vec<LineRead>) -> (payloads: Vec<LogPayload>)
    ensures
        events_in(payloads@) == events_of(level, views_of(reads@)),
{
    let ghost all = views_of(reads@);
    let mut payloads: Vec<LogPayload> = Vec::new();
    let mut reading = true;
    assert(all.skip(0) == all);
    assert(events_in(payloads@) + events_of(level, all) == events_of(level, all));
    for read in it: reads
        invariant
            all == views_of(it.seq()),
            events_of(level, all) == events_in(payloads@) + (if reading {
                events_of(level, all.skip(it.index() as int))
            } else {
                Seq::empty()
            }),
    {
        if reading {
            let ghost rest = all.skip(it.index() as int);
            let ghost before = payloads@;
            assert(rest[0] == read@);
            assert(rest.skip(1) == all.skip(it.index() + 1));
            match forward(level, read) {
                Forward::Emit(payload) => {
                    payloads.push(payload);
                    assert(events_in(payloads@) == events_in(before) + seq![payload@]);
                },
                Forward::Skip => {},
                Forward::Stop => {
                    reading = false;
                },
            }
        }
    }
    payloads
}

/// Every line written to a stream before it closes gives exactly one event,
/// in the order written, with the line's text and the stream's level:
/// informational for standard output, error for standard error. So a
/// drained stream gives as many events as it had lines.
pub proof fn lemma_one_event_per_line(stream: OutputStream, lines: Seq<Seq<char>>)
    ensures
        events_of(stream.level_of(), drained(lines)).len() == lines.len(),
        forall|i: int|
            0 <= i < lines.len() ==> #[trigger] events_of(stream.level_of(), drained(lines))[i]
                == (LogEvent { message: lines[i], level: stream.level_of() }),
        stream == OutputStream::Stdout ==> stream.level_of() == LogLevel::Info,
        stream == OutputStream::Stderr ==> stream.level_of() == LogLevel::Error,
    decreases lines.len(),
{
    let level = stream.level_of();
    if lines.len() > 0 {
        let rest = lines.skip(1);
        lemma_one_event_per_line(stream, rest);
        assert(drained(lines)[0] == LineReadView::Line(lines[0]));
        assert(drained(lines).skip(1) == drained(rest));
        assert forall|i: int| 0 <= i < lines.len() implies #[trigger] events_of(
            level,
            drained(lines),
        )[i] == (LogEvent { message: lines[i], level }) by {
            if i > 0 {
                assert(events_of(level, drained(lines))[i] == events_of(level, drained(rest))[i - 1]);
                assert(rest[i - 1] == lines[i]);
            }
        }
    }
}

/// What reading up to each line feed gives on a stream on which the lines
/// of `lines` were written, each with its ending, and which was then closed.
pub open spec fn raw_reads_of(lines: Seq<Seq<char>>, crlf: bool) -> Seq<Seq<u8>> {
    lines.map_values(|text: Seq<char>| encode_utf8(text) + line_ending(crlf)).push(Seq::empty())
}

/// The same law from the bytes on: of the lines written to a stream before
/// it closes, each with its line ending, every one gives exactly one event,
/// with the line's text without the ending and the stream's level.
pub proof fn lemma_one_event_per_written_line(
    stream: OutputStream,
    lines: Seq<Seq<char>>,
    crlf: bool,
)
    requires
        forall|i: int| 0 <= i < lines.len() ==> is_line(#[trigger] lines[i]),
    ensures
        events_of(
            stream.level_of(),
            raw_reads_of(lines, crlf).map_values(|raw: Seq<u8>| read_of(raw)),
        ) == lines.map_values(
            |text: Seq<char>| LogEvent { message: text, level: stream.level_of() },
        ),
{
    let reads = raw_reads_of(lines, crlf).map_values(|raw: Seq<u8>| read_of(raw));
    assert(reads == drained(lines)) by {
        assert forall|i: int| 0 <= i < lines.len() implies reads[i] == LineReadView::Line(
            lines[i],
        ) by {
            lemma_written_line_reads_back(lines[i], crlf);
        }
    }
    lemma_one_event_per_line(stream, lines);
}

/// A line that does not decode gives no event and does not end the
/// forwarding: the events are those of the stream without that read.
pub proof fn lemma_undecodable_line_is_dropped(
    level: LogLevel,
    before: Seq<LineReadView>,
    after: Seq<LineReadView>,
)
    ensures
        events_of(level, before + seq![LineReadView::Undecodable] + after) == events_of(
            level,
            before + after,
        ),
    decreases before.len(),
{
    let longer = before + seq![LineReadView::Undecodable] + after;
    let shorter = before + after;
    if before.len() == 0 {
        assert(longer.skip(1) == after);
        assert(shorter == after);
    } else {
        lemma_undecodable_line_is_dropped(level, before.skip(1), after);
        assert(longer.skip(1) == before.skip(1) + seq![LineReadView::Undecodable] + after);
        assert(shorter.skip(1) == before.skip(1) + after);
        assert(longer[0] == shorter[0]);
    }
}

/// Nothing is forwarded once the stream has closed or a read has failed:
/// the events are those of the reads up to that point.
pub proof fn lemma_nothing_after_the_end(
    level: LogLevel,
    before: Seq<LineReadView>,
    end: LineReadView,
    after: Seq<LineReadView>,
)
    requires
        end is Closed || end is Failed,
    ensures
        events_of(level, before + seq![end] + after) == events_of(level, before),
    decreases before.len(),
{
    let whole = before + seq![end] + after;
    if before.len() == 0 {
        assert(whole[0] == end);
    } else {
        lemma_nothing_after_the_end(level, before.skip(1), end, after);
        assert(whole.skip(1) == before.skip(1) + seq![end] + after);
        assert(whole[0] == before[0]);
    }
}

} // verus!
