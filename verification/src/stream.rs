// SPDX-License-Identifier: GPL-3.0

//! The streaming side of the chat protocol.
//!
//! A streamed response is a body of newline-delimited JSON objects. The
//! transport hands the body over in raw chunks. Each chunk is split into
//! lines here, each non-empty line is decoded by the caller, and the
//! [`StreamProducer`] decides for each decoded line, and for everything
//! else that happens to the stream, which event the consumer gets.
//!
//! A line that a chunk boundary cuts in two is not put together again: each
//! chunk is split on its own.

use crate::ollama::{failure_message, EventView, Failure, FailureView, StreamEvent};
use crate::text::{decode_lossy, lines_of, lossy_text, non_empty, non_empty_lines};
use vstd::prelude::*;
use vstd::utf8::{decode_utf8, valid_utf8};

verus! {

/// Number of events that may wait in the channel between the producer of
/// a stream and its consumer.
pub const STREAM_CAPACITY: usize = 32;

// ---------------------------------------------------------------------
// From raw chunks to lines
// ---------------------------------------------------------------------

/// The lines that one raw chunk of the body holds: the chunk is decoded as
/// UTF-8, leniently, and split into lines, and the empty lines are dropped.
pub open spec fn lines_of_chunk(bytes: Seq<u8>) -> Seq<Seq<char>> {
    non_empty(lines_of(lossy_text(bytes)))
}

/// Split one raw chunk of the body into the lines to decode. Of a chunk
/// that is valid UTF-8 these are the non-empty lines of the text that it
/// encodes.
pub fn chunk_lines(bytes: &[u8]) -> (out: Vec<String>)
    ensures
        out.deep_view() == lines_of_chunk(bytes@),
        valid_utf8(bytes@) ==> out.deep_view() == non_empty(lines_of(decode_utf8(bytes@))),
{
    let text = decode_lossy(bytes);
    non_empty_lines(text.as_str())
}

// ---------------------------------------------------------------------
// What happens to a stream
// ---------------------------------------------------------------------

/// Message content in a streaming chunk.
#[derive(Debug, Clone)]
pub struct StreamMessage {
    pub content: String,
}

/// Streaming response chunk: one decoded line of the response body.
#[derive(Debug, Clone)]
pub struct StreamChunk {
    pub message: Option<StreamMessage>,
    pub done: bool,
}

/// The mathematical value of a [`StreamChunk`]: the content of its
/// message, where it has one, and the `done` flag.
pub ghost struct ChunkView {
    pub content: Option<Seq<char>>,
    pub done: bool,
}

impl View for StreamChunk {
    type V = ChunkView;

    open spec fn view(&self) -> ChunkView {
        ChunkView {
            content: match self.message {
                Some(message) => Some(message.content@),
                None => None,
            },
            done: self.done,
        }
    }
}

/// What can happen to the producer of a stream, in the order in which it
/// happens.
#[derive(Debug)]
pub enum StreamInput {
    /// The transport failed: the request could not be sent, the server
    /// refused it, or reading the body failed.
    Failed(Failure),
    /// One non-empty line of the response body, decoded, or the decoder's
    /// complaint about it.
    Line(Result<StreamChunk, String>),
    /// The response body ended.
    End,
    /// The consumer dropped its end of the channel: an event could not be
    /// sent.
    ConsumerGone,
}

/// The mathematical value of a [`StreamInput`].
pub ghost enum InputView {
    Failed(FailureView),
    Line(Result<ChunkView, Seq<char>>),
    End,
    ConsumerGone,
}

impl View for StreamInput {
    type V = InputView;

    open spec fn view(&self) -> InputView {
        match self {
            StreamInput::Failed(failure) => InputView::Failed(failure@),
            StreamInput::Line(Ok(chunk)) => InputView::Line(Ok(chunk@)),
            StreamInput::Line(Err(why)) => InputView::Line(Err(why@)),
            StreamInput::End => InputView::End,
            StreamInput::ConsumerGone => InputView::ConsumerGone,
        }
    }
}

// ---------------------------------------------------------------------
// The rules
// ---------------------------------------------------------------------

/// The event that one input gives rise to on a stream that is still open.
///
/// A line with `done` set ends the stream whatever else it holds. A line
/// with non-empty content is passed on. Any other line is skipped. A line
/// that could not be decoded aborts the stream, and so does every failure of
/// the transport. A body that ends without a `done` line counts as done.
/// Nothing is emitted for a consumer that is gone.
pub open spec fn event_for(input: InputView) -> Option<EventView> {
    match input {
        InputView::Failed(failure) => Some(EventView::Error(failure_message(failure))),
        InputView::Line(Ok(chunk)) => if chunk.done {
            Some(EventView::Done)
        } else {
            match chunk.content {
                Some(content) => if content.len() > 0 {
                    Some(EventView::Chunk(content))
                } else {
                    None
                },
                None => None,
            }
        },
        InputView::Line(Err(why)) => Some(
            EventView::Error(failure_message(FailureView::Parse(why))),
        ),
        InputView::End => Some(EventView::Done),
        InputView::ConsumerGone => None,
    }
}

/// The events that `event` adds to a run: itself, or nothing.
pub open spec fn emitted_by(event: Option<EventView>) -> Seq<EventView> {
    match event {
        Some(event) => seq![event],
        None => Seq::empty(),
    }
}

/// Whether an input closes the stream: its event is terminal, or it tells
/// that the consumer is gone.
pub open spec fn closes(input: InputView) -> bool {
    input is ConsumerGone || (event_for(input) matches Some(event) && event.is_terminal())
}

/// Whether a run of inputs has closed the stream.
pub open spec fn closed_by(inputs: Seq<InputView>) -> bool {
    exists|i: int| 0 <= i < inputs.len() && closes(#[trigger] inputs[i])
}

/// The events that a producer emits when it is fed `inputs` in order: the
/// event of each input up to and including the first that closes the
/// stream, and nothing after that.
pub open spec fn events_of(inputs: Seq<InputView>) -> Seq<EventView>
    decreases inputs.len(),
{
    if inputs.len() == 0 {
        Seq::empty()
    } else if closes(inputs[0]) {
        emitted_by(event_for(inputs[0]))
    } else {
        emitted_by(event_for(inputs[0])) + events_of(inputs.drop_first())
    }
}

/// Whether no input of a run tells that the consumer is gone.
pub open spec fn consumer_stays(inputs: Seq<InputView>) -> bool {
    forall|i: int| 0 <= i < inputs.len() ==> !((#[trigger] inputs[i]) is ConsumerGone)
}

// ---------------------------------------------------------------------
// The laws
// ---------------------------------------------------------------------

/// The events of a run made of two parts are those of the first part,
/// followed by those of the second unless the first part closed the
/// stream; and the whole run has closed the stream where a part has.
pub proof fn lemma_events_concat(first: Seq<InputView>, second: Seq<InputView>)
    ensures
        events_of(first + second) == if closed_by(first) {
            events_of(first)
        } else {
            events_of(first) + events_of(second)
        },
        closed_by(first + second) == (closed_by(first) || closed_by(second)),
    decreases first.len(),
{
    let all = first + second;
    assert(closed_by(all) == (closed_by(first) || closed_by(second))) by {
        if closed_by(first) {
            let i = choose|i: int| 0 <= i < first.len() && closes(#[trigger] first[i]);
            assert(all[i] == first[i]);
        }
        if closed_by(second) {
            let i = choose|i: int| 0 <= i < second.len() && closes(#[trigger] second[i]);
            assert(all[first.len() + i] == second[i]);
        }
    }
    if first.len() > 0 {
        let rest = first.drop_first();
        assert(all.drop_first() =~= rest + second);
        lemma_events_concat(rest, second);
        if !closes(first[0]) {
            assert(closed_by(first) == closed_by(rest)) by {
                if closed_by(first) {
                    let i = choose|i: int| 0 <= i < first.len() && closes(#[trigger] first[i]);
                    assert(rest[i - 1] == first[i]);
                }
            }
        }
    }
}

/// Feeding one more input to a producer adds the event of that input while
/// the stream is open, and nothing once it is closed.
pub proof fn lemma_events_push(inputs: Seq<InputView>, input: InputView)
    ensures
        events_of(inputs.push(input)) == if closed_by(inputs) {
            events_of(inputs)
        } else {
            events_of(inputs) + emitted_by(event_for(input))
        },
        closed_by(inputs.push(input)) == (closed_by(inputs) || closes(input)),
{
    let one = seq![input];
    assert(inputs.push(input) =~= inputs + one);
    assert(events_of(one.drop_first()) =~= Seq::<EventView>::empty());
    assert(events_of(one) =~= emitted_by(event_for(input)));
    lemma_events_concat(inputs, one);
}

/// Every stream has at most one terminal event, and nothing follows it:
/// of the events of any run, all but the last are chunks.
pub proof fn lemma_terminal_event_is_last(inputs: Seq<InputView>)
    ensures
        forall|i: int|
            0 <= i < events_of(inputs).len() - 1 ==> !(#[trigger] events_of(inputs)[i]).is_terminal(),
    decreases inputs.len(),
{
    if inputs.len() > 0 && !closes(inputs[0]) {
        let rest = inputs.drop_first();
        lemma_terminal_event_is_last(rest);
        let head = emitted_by(event_for(inputs[0]));
        let all = events_of(inputs);
        assert forall|i: int| 0 <= i < all.len() - 1 implies !(#[trigger] all[i]).is_terminal() by {
            if i >= head.len() {
                assert(all[i] == events_of(rest)[i - head.len()]);
            }
        }
    }
}

/// Every stream whose consumer stays has exactly one terminal event once
/// the transport has reported the end of the body, a failure or a `done`
/// line: a run that has closed the stream for a consumer that is still
/// there ends with a terminal event.
pub proof fn lemma_closed_stream_has_terminal_event(inputs: Seq<InputView>)
    requires
        closed_by(inputs),
        consumer_stays(inputs),
    ensures
        events_of(inputs).len() > 0,
        events_of(inputs).last().is_terminal(),
    decreases inputs.len(),
{
    let at = choose|i: int| 0 <= i < inputs.len() && closes(#[trigger] inputs[i]);
    if !closes(inputs[0]) {
        let rest = inputs.drop_first();
        assert(rest[at - 1] == inputs[at]);
        lemma_closed_stream_has_terminal_event(rest);
    }
}

/// A stream that is still open has emitted chunks only.
pub proof fn lemma_open_stream_has_chunks_only(inputs: Seq<InputView>)
    requires
        !closed_by(inputs),
    ensures
        forall|i: int|
            0 <= i < events_of(inputs).len() ==> !(#[trigger] events_of(inputs)[i]).is_terminal(),
    decreases inputs.len(),
{
    if inputs.len() > 0 {
        let rest = inputs.drop_first();
        lemma_open_stream_has_chunks_only(rest);
        let head = emitted_by(event_for(inputs[0]));
        let all = events_of(inputs);
        assert forall|i: int| 0 <= i < all.len() implies !(#[trigger] all[i]).is_terminal() by {
            if i >= head.len() {
                assert(all[i] == events_of(rest)[i - head.len()]);
            }
        }
    }
}

/// A line of the body that carries `content` and does not end the stream.
pub open spec fn content_line(content: Seq<char>) -> InputView {
    InputView::Line(Ok(ChunkView { content: Some(content), done: false }))
}

/// A line of the body that ends the stream.
pub open spec fn done_line(content: Option<Seq<char>>) -> InputView {
    InputView::Line(Ok(ChunkView { content, done: true }))
}

/// A line of the body that could not be decoded.
pub open spec fn malformed_line(why: Seq<char>) -> InputView {
    InputView::Line(Err(why))
}

/// Stream termination: content lines followed by a `done` line give one
/// chunk for each content line, in order, then exactly one `Done`, and
/// nothing of what follows the `done` line.
pub proof fn lemma_stream_termination(
    contents: Seq<Seq<char>>,
    last: Option<Seq<char>>,
    after: Seq<InputView>,
)
    requires
        forall|i: int| 0 <= i < contents.len() ==> (#[trigger] contents[i]).len() > 0,
    ensures
        events_of(
            contents.map_values(|content: Seq<char>| content_line(content)) + seq![done_line(last)]
                + after,
        ) == contents.map_values(|content: Seq<char>| EventView::Chunk(content)).push(
            EventView::Done,
        ),
    decreases contents.len(),
{
    if contents.len() > 0 {
        let lines = contents.map_values(|content: Seq<char>| content_line(content));
        let all = lines + seq![done_line(last)] + after;
        let rest = contents.drop_first();
        let rest_lines = rest.map_values(|content: Seq<char>| content_line(content));
        lemma_stream_termination(rest, last, after);
        assert(all.drop_first() =~= rest_lines + seq![done_line(last)] + after);
    }
}

/// Malformed line abort: where the stream is still open, a line that
/// cannot be decoded adds exactly one `Error` with the decoder's message,
/// and nothing of what follows it is emitted.
pub proof fn lemma_malformed_line_aborts(
    before: Seq<InputView>,
    why: Seq<char>,
    after: Seq<InputView>,
)
    requires
        !closed_by(before),
    ensures
        events_of(before + seq![malformed_line(why)] + after) == events_of(before).push(
            EventView::Error(failure_message(FailureView::Parse(why))),
        ),
{
    let tail = seq![malformed_line(why)] + after;
    assert(before + seq![malformed_line(why)] + after =~= before + tail);
    lemma_events_concat(before, tail);
}

/// Silent closure: a body that ends without a `done` line counts as done.
/// Where the stream is still open at the end of the body, `Done` follows
/// what was emitted.
pub proof fn lemma_silent_end_is_done(before: Seq<InputView>)
    requires
        !closed_by(before),
    ensures
        events_of(before.push(InputView::End)) == events_of(before).push(EventView::Done),
{
    lemma_events_push(before, InputView::End);
}

/// Cancellation: once the consumer is gone, nothing more is emitted,
/// whatever the transport reports.
pub proof fn lemma_nothing_after_consumer_is_gone(before: Seq<InputView>, after: Seq<InputView>)
    ensures
        events_of(before + seq![InputView::ConsumerGone] + after) == events_of(before),
{
    let tail = seq![InputView::ConsumerGone] + after;
    assert(before + seq![InputView::ConsumerGone] + after =~= before + tail);
    lemma_events_concat(before, tail);
}

// ---------------------------------------------------------------------
// The producer
// ---------------------------------------------------------------------

/// The producer side of one streamed response.
///
/// It is fed what happens to the stream, one input at a time, and answers
/// each with the event to send to the consumer, if any. It remembers only
/// whether the stream is closed; the inputs that it has seen are kept as
/// ghost state, so that what it has emitted can be stated.
pub struct StreamProducer {
    closed: bool,
    seen: Ghost<Seq<InputView>>,
}

impl StreamProducer {
    #[verifier::type_invariant]
    spec fn consistent(self) -> bool {
        self.closed == closed_by(self.seen@)
    }

    /// The inputs fed so far, oldest first.
    pub closed spec fn inputs(self) -> Seq<InputView> {
        self.seen@
    }

    /// The events emitted so far, oldest first.
    pub open spec fn emitted(self) -> Seq<EventView> {
        events_of(self.inputs())
    }

    /// A producer that has seen nothing yet.
    pub fn new() -> (producer: Self)
        ensures
            producer.inputs() == Seq::<InputView>::empty(),
    {
        StreamProducer { closed: false, seen: Ghost(Seq::empty()) }
    }

    /// Whether the stream is closed: the terminal event has been emitted,
    /// or the consumer is gone.
    pub fn is_closed(&self) -> (closed: bool)
        ensures
            closed == closed_by(self.inputs()),
    {
        proof {
            use_type_invariant(self);
        }
        self.closed
    }

    /// Take one input and return the event to send, if any.
    pub fn accept(&mut self, input: StreamInput) -> (event: Option<StreamEvent>)
        ensures
            final(self).inputs() == old(self).inputs().push(input@),
            event.deep_view() == if closed_by(old(self).inputs()) {
                None
            } else {
                event_for(input@)
            },
            final(self).emitted() == old(self).emitted() + emitted_by(event.deep_view()),
    {
        proof {
            use_type_invariant(&*self);
            lemma_events_push(self.seen@, input@);
        }
        let ghost seen = self.seen@.push(input@);
        if self.closed {
            *self = StreamProducer { closed: true, seen: Ghost(seen) };
            return None;
        }
        let mut closed = true;
        let event = match input {
            StreamInput::Failed(failure) => Some(StreamEvent::Error(failure.message())),
            StreamInput::Line(Ok(chunk)) => {
                if chunk.done {
                    Some(StreamEvent::Done)
                } else {
                    closed = false;
                    match chunk.message {
                        Some(message) => {
                            if message.content.as_str().is_empty() {
                                None
                            } else {
                                Some(StreamEvent::Chunk(message.content))
                            }
                        },
                        None => None,
                    }
                }
            },
            StreamInput::Line(Err(why)) => Some(StreamEvent::Error(Failure::Parse(why).message())),
            StreamInput::End => Some(StreamEvent::Done),
            StreamInput::ConsumerGone => None,
        };
        *self = StreamProducer { closed, seen: Ghost(seen) };
        event
    }
}

} // verus!
