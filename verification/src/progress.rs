//! The mathematical model of a streamed response: what a poll of the
//! provider's stream makes of it, and what the consumer gets to see.
use crate::completion::CompletionError;
use crate::message::{ContentView, ToolCallView};
use vstd::prelude::*;

verus! {

/// What polling a stream of `T` gave: nothing yet, the end, an item or an
/// error.
#[derive(Debug, PartialEq)]
pub enum StreamPoll<T> {
    Pending,
    Ready(Option<Result<T, CompletionError>>),
}

impl<T: View> View for StreamPoll<T> {
    type V = StreamPoll<T::V>;

    open spec fn view(&self) -> StreamPoll<T::V> {
        match self {
            StreamPoll::Pending => StreamPoll::Pending,
            StreamPoll::Ready(None) => StreamPoll::Ready(None),
            StreamPoll::Ready(Some(Ok(item))) => StreamPoll::Ready(Some(Ok(item@))),
            StreamPoll::Ready(Some(Err(error))) => StreamPoll::Ready(Some(Err(*error))),
        }
    }
}

/// What to do once a poll has been taken in: hand an outcome to the consumer,
/// or poll the provider's stream once more.
#[derive(Debug, PartialEq)]
pub enum StreamStep<T> {
    Return(StreamPoll<T>),
    PollAgain,
}

impl<T: View> View for StreamStep<T> {
    type V = StreamStep<T::V>;

    open spec fn view(&self) -> StreamStep<T::V> {
        match self {
            StreamStep::Return(polled) => StreamStep::Return(polled@),
            StreamStep::PollAgain => StreamStep::PollAgain,
        }
    }
}

/// A chunk of a stream as a mathematical value. The provider's chunks and the
/// contents that the consumer gets have this model in common.
pub enum ChunkView<R> {
    Text(Seq<char>),
    ToolCall(ToolCallView),
    Reasoning(Seq<char>),
    Final(R),
}

/// The outcome of a poll as a mathematical value.
pub type PollView<R> = StreamPoll<ChunkView<R>>;

/// A chunk whose final response, if it is one, is taken out.
pub open spec fn erase_chunk<R>(chunk: ChunkView<R>) -> ChunkView<()> {
    match chunk {
        ChunkView::Text(text) => ChunkView::Text(text),
        ChunkView::ToolCall(call) => ChunkView::ToolCall(call),
        ChunkView::Reasoning(reasoning) => ChunkView::Reasoning(reasoning),
        ChunkView::Final(_) => ChunkView::Final(()),
    }
}

/// The outcome of a poll with the final response taken out.
pub open spec fn erase_poll<R>(polled: PollView<R>) -> PollView<()> {
    match polled {
        StreamPoll::Pending => StreamPoll::Pending,
        StreamPoll::Ready(None) => StreamPoll::Ready(None),
        StreamPoll::Ready(Some(Ok(chunk))) => StreamPoll::Ready(Some(Ok(erase_chunk(chunk)))),
        StreamPoll::Ready(Some(Err(error))) => StreamPoll::Ready(Some(Err(error))),
    }
}

/// What becomes of a poll, with the final response taken out.
pub open spec fn erase_step<R>(step: StreamStep<ChunkView<R>>) -> StreamStep<ChunkView<()>> {
    match step {
        StreamStep::Return(polled) => StreamStep::Return(erase_poll(polled)),
        StreamStep::PollAgain => StreamStep::PollAgain,
    }
}

/// All that a streamed response has gathered so far.
#[verifier::ext_equal]
pub struct Progress<R> {
    /// The text of all text chunks, one after the other.
    pub text: Seq<char>,
    /// The text of all reasoning chunks, one after the other.
    pub reasoning: Seq<char>,
    /// The tool calls, in the order in which they came.
    pub tool_calls: Seq<ToolCallView>,
    /// The message that was put together when the stream last ended.
    pub choice: Seq<ContentView>,
    /// The response that the provider closed with, if it did.
    pub response: Option<R>,
    /// Whether the consumer has been handed that response.
    pub final_response_yielded: bool,
    /// Whether the stream was cancelled.
    pub cancelled: bool,
}

/// The message that a text and some tool calls make up: the text first, left
/// out if it is empty and there are tool calls, then the calls in order.
pub open spec fn collected(text: Seq<char>, tool_calls: Seq<ToolCallView>) -> Seq<ContentView> {
    let calls = tool_calls.map_values(|call: ToolCallView| ContentView::ToolCall(call));
    if tool_calls.len() == 0 || text.len() > 0 {
        seq![ContentView::Text(text)] + calls
    } else {
        calls
    }
}

impl<R> Progress<R> {
    /// The start of every response: nothing gathered, and a message of one
    /// empty text.
    pub open spec fn fresh() -> Progress<R> {
        Progress {
            text: Seq::empty(),
            reasoning: Seq::empty(),
            tool_calls: Seq::empty(),
            choice: seq![ContentView::Text(Seq::empty())],
            response: None,
            final_response_yielded: false,
            cancelled: false,
        }
    }

    /// The same response once it is cancelled.
    pub open spec fn cancel(self) -> Progress<R> {
        Progress { cancelled: true, ..self }
    }

    /// What a poll counts as: a cancelled stream has ended, as an aborted one
    /// has, whatever its provider would still send.
    pub open spec fn effective(self, polled: PollView<R>) -> PollView<R> {
        if self.cancelled {
            StreamPoll::Ready(None)
        } else {
            polled
        }
    }

    /// What becomes of a poll. Chunks are handed on as they came, except that
    /// a second final response is passed over; an error that reports an abort
    /// is the end of the stream.
    pub open spec fn reply(self, polled: PollView<R>) -> StreamStep<ChunkView<R>> {
        match self.effective(polled) {
            StreamPoll::Ready(Some(Err(error))) if error.cancellation() => StreamStep::Return(
                StreamPoll::Ready(None),
            ),
            StreamPoll::Ready(Some(Ok(ChunkView::Final(_)))) if self.final_response_yielded => {
                StreamStep::PollAgain
            },
            effective => StreamStep::Return(effective),
        }
    }

    /// The final response that this poll is the first to bring, if it brings
    /// one.
    pub open spec fn first_response(self, polled: PollView<R>) -> Option<R> {
        match self.effective(polled) {
            StreamPoll::Ready(Some(Ok(ChunkView::Final(response))))
                if !self.final_response_yielded => Some(response),
            _ => None,
        }
    }

    /// What a poll changes, apart from the kept response.
    pub open spec fn absorb(self, polled: PollView<R>) -> Progress<R> {
        match self.effective(polled) {
            StreamPoll::Ready(None) => Progress {
                choice: collected(self.text, self.tool_calls),
                ..self
            },
            StreamPoll::Ready(Some(Ok(ChunkView::Text(text)))) => Progress {
                text: self.text + text,
                ..self
            },
            StreamPoll::Ready(Some(Ok(ChunkView::Reasoning(reasoning)))) => Progress {
                reasoning: self.reasoning + reasoning,
                ..self
            },
            StreamPoll::Ready(Some(Ok(ChunkView::ToolCall(call)))) => Progress {
                tool_calls: self.tool_calls.push(call),
                ..self
            },
            StreamPoll::Ready(Some(Ok(ChunkView::Final(_)))) => Progress {
                final_response_yielded: true,
                ..self
            },
            StreamPoll::Ready(Some(Err(_))) | StreamPoll::Pending => self,
        }
    }
}

impl<R: Clone> Progress<R> {
    /// Whether a poll may take this progress to `next`: everything changes as
    /// `absorb` says, and the kept response becomes a clone of the first final
    /// response and otherwise stays as it is.
    pub open spec fn advances(self, polled: PollView<R>, next: Progress<R>) -> bool {
        &&& next == (Progress { response: next.response, ..self.absorb(polled) })
        &&& match self.first_response(polled) {
            Some(response) => match next.response {
                Some(kept) => call_ensures(R::clone, (&response,), kept),
                None => false,
            },
            None => next.response == self.response,
        }
    }
}

} // verus!
