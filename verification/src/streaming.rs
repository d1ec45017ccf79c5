//! Streamed responses: chunks come in from the provider's stream, contents go
//! out to the consumer, and the whole message is gathered on the way.
use crate::completion::{CompletionResponse, Usage};
use crate::message::{AssistantContent, Reasoning, Text, ToolCall, ToolCallView, ToolFunction};
use crate::one_or_many::OneOrMany;
use crate::progress::{ChunkView, Progress, StreamPoll, StreamStep};
use futures::stream::{AbortHandle, AbortRegistration, Abortable};
use serde_json::Value;
use vstd::prelude::*;

verus! {

/// A chunk as it comes from the provider.
#[derive(Clone, Debug)]
pub enum RawStreamingChoice<R: Clone> {
    /// A chunk of the message's text.
    Message(String),
    /// A tool call.
    ToolCall { id: String, call_id: Option<String>, name: String, arguments: Value },
    /// A chunk of reasoning.
    Reasoning { reasoning: String },
    /// The final response. It has to come for the `response` of a
    /// [`StreamingCompletionResponse`] to be filled in.
    FinalResponse(R),
}

impl<R: Clone> View for RawStreamingChoice<R> {
    type V = ChunkView<R>;

    open spec fn view(&self) -> ChunkView<R> {
        match self {
            RawStreamingChoice::Message(text) => ChunkView::Text(text@),
            RawStreamingChoice::ToolCall { id, call_id, name, arguments } => ChunkView::ToolCall(
                ToolCallView {
                    id: id@,
                    call_id: crate::message::optional_text(*call_id),
                    name: name@,
                    arguments: *arguments,
                },
            ),
            RawStreamingChoice::Reasoning { reasoning } => ChunkView::Reasoning(reasoning@),
            RawStreamingChoice::FinalResponse(response) => ChunkView::Final(*response),
        }
    }
}

/// A chunk as the consumer gets it: text, a tool call, reasoning or the final
/// response.
#[derive(Clone, Debug, PartialEq)]
pub enum StreamedAssistantContent<R> {
    Text(Text),
    ToolCall(ToolCall),
    Reasoning(Reasoning),
    Final(R),
}

impl<R> View for StreamedAssistantContent<R> {
    type V = ChunkView<R>;

    open spec fn view(&self) -> ChunkView<R> {
        match self {
            StreamedAssistantContent::Text(text) => ChunkView::Text(text@),
            StreamedAssistantContent::ToolCall(call) => ChunkView::ToolCall(call@),
            StreamedAssistantContent::Reasoning(reasoning) => ChunkView::Reasoning(reasoning@),
            StreamedAssistantContent::Final(response) => ChunkView::Final(*response),
        }
    }
}

impl<R> StreamedAssistantContent<R> where R: Clone {
    /// A piece of text.
    pub fn text(text: &str) -> (content: StreamedAssistantContent<R>)
        ensures
            content is Text,
            content@ == ChunkView::<R>::Text(text@),
    {
        StreamedAssistantContent::Text(Text { text: text.to_string() })
    }

    /// A tool call put together from its parts.
    pub fn from_parts(
        id: String,
        call_id: Option<String>,
        name: String,
        arguments: Value,
    ) -> (content: StreamedAssistantContent<R>)
        ensures
            content == StreamedAssistantContent::<R>::ToolCall(
                ToolCall { id, call_id, function: ToolFunction { name, arguments } },
            ),
    {
        StreamedAssistantContent::ToolCall(
            ToolCall { id, call_id, function: ToolFunction { name, arguments } },
        )
    }

    /// A tool call that has no call id. The id and the name are what their
    /// arguments convert into.
    pub fn tool_call(id: impl Into<String>, name: impl Into<String>, arguments: Value) -> (content:
        StreamedAssistantContent<R>)
        ensures
            content matches StreamedAssistantContent::ToolCall(call) && {
                &&& call_ensures(Into::<String>::into, (id,), call.id)
                &&& call.call_id is None
                &&& call_ensures(Into::<String>::into, (name,), call.function.name)
                &&& call.function.arguments == arguments
            },
    {
        StreamedAssistantContent::from_parts(id.into(), None, name.into(), arguments)
    }

    /// A tool call with its call id. The id and the name are what their
    /// arguments convert into.
    pub fn tool_call_with_call_id(
        id: impl Into<String>,
        call_id: String,
        name: impl Into<String>,
        arguments: Value,
    ) -> (content: StreamedAssistantContent<R>)
        ensures
            content matches StreamedAssistantContent::ToolCall(call) && {
                &&& call_ensures(Into::<String>::into, (id,), call.id)
                &&& call.call_id == Some(call_id)
                &&& call_ensures(Into::<String>::into, (name,), call.function.name)
                &&& call.function.arguments == arguments
            },
    {
        StreamedAssistantContent::from_parts(id.into(), Some(call_id), name.into(), arguments)
    }

    /// The final response.
    pub fn final_response(res: R) -> (content: StreamedAssistantContent<R>)
        ensures
            content == StreamedAssistantContent::Final(res),
    {
        StreamedAssistantContent::Final(res)
    }
}

/// Takes the final response out of what polling a provider's stream gave, so
/// that streams with different responses can stand side by side. All else is
/// kept as it came.
pub fn erase_response<R: Clone>(polled: StreamPoll<RawStreamingChoice<R>>) -> (erased: StreamPoll<
    RawStreamingChoice<()>,
>)
    ensures
        erased@ == crate::progress::erase_poll(polled@),
{
    match polled {
        StreamPoll::Pending => StreamPoll::Pending,
        StreamPoll::Ready(None) => StreamPoll::Ready(None),
        StreamPoll::Ready(Some(Err(error))) => StreamPoll::Ready(Some(Err(error))),
        StreamPoll::Ready(Some(Ok(chunk))) => {
            let chunk = match chunk {
                RawStreamingChoice::FinalResponse(_) => RawStreamingChoice::FinalResponse(()),
                RawStreamingChoice::Message(text) => RawStreamingChoice::Message(text),
                RawStreamingChoice::Reasoning { reasoning } => RawStreamingChoice::Reasoning {
                    reasoning,
                },
                RawStreamingChoice::ToolCall { id, call_id, name, arguments } => {
                    RawStreamingChoice::ToolCall { id, call_id, name, arguments }
                },
            };
            StreamPoll::Ready(Some(Ok(chunk)))
        },
    }
}

/// Whether a handle and a registration were made as a pair.
pub open spec fn paired(handle: AbortHandle, registration: AbortRegistration) -> bool {
    call_ensures(AbortHandle::new_pair, (), (handle, registration))
}

/// Whether `abortable` is `source` made abortable through a registration.
pub open spec fn wraps<S>(
    abortable: Abortable<S>,
    source: S,
    registration: AbortRegistration,
) -> bool {
    call_ensures(Abortable::<S>::new, (source, registration), abortable)
}

/// Whether `abortable` is `source` made abortable by `handle`.
pub open spec fn guards<S>(handle: AbortHandle, abortable: Abortable<S>, source: S) -> bool {
    exists|registration: AbortRegistration| #[trigger]
        paired(handle, registration) && wraps(abortable, source, registration)
}

/// The response to a streaming completion request, over a provider's stream of
/// type `S`. The message and the response are filled in at the end of that
/// stream.
#[verifier::reject_recursive_types(S)]
pub struct StreamingCompletionResponse<R: Clone, S> {
    /// The provider's stream. Whoever drives the response polls it, and hands
    /// each outcome to [`StreamingCompletionResponse::poll_next`].
    pub inner: Abortable<S>,
    abort_handle: AbortHandle,
    cancelled: bool,
    text: String,
    reasoning: String,
    tool_calls: Vec<ToolCall>,
    /// The message gathered from the stream: all its text and tool calls.
    pub choice: OneOrMany<AssistantContent>,
    /// The final response of the stream, if the provider sent one.
    pub response: Option<R>,
    /// Whether the final response has been handed out.
    pub final_response_yielded: bool,
}

impl<R: Clone, S> View for StreamingCompletionResponse<R, S> {
    type V = Progress<R>;

    open spec fn view(&self) -> Progress<R> {
        Progress {
            text: self.text_so_far(),
            reasoning: self.reasoning_so_far(),
            tool_calls: self.calls_so_far(),
            choice: crate::message::contents_view(self.message()@),
            response: self.kept_response(),
            final_response_yielded: self.handed_out(),
            cancelled: self.is_cancelled(),
        }
    }
}

impl<R: Clone, S> StreamingCompletionResponse<R, S> {
    /// The provider's stream.
    pub closed spec fn source(self) -> Abortable<S> {
        self.inner
    }

    /// The handle that aborts the provider's stream.
    pub closed spec fn handle(self) -> AbortHandle {
        self.abort_handle
    }

    /// Whether the stream was cancelled.
    pub closed spec fn is_cancelled(self) -> bool {
        self.cancelled
    }

    /// The text so far.
    pub closed spec fn text_so_far(self) -> Seq<char> {
        self.text@
    }

    /// The reasoning so far.
    pub closed spec fn reasoning_so_far(self) -> Seq<char> {
        self.reasoning@
    }

    /// The tool calls so far.
    pub closed spec fn calls_so_far(self) -> Seq<ToolCallView> {
        self.tool_calls@.map_values(|call: ToolCall| call@)
    }

    /// The field `choice`.
    pub closed spec fn message(self) -> OneOrMany<AssistantContent> {
        self.choice
    }

    /// The field `response`.
    pub closed spec fn kept_response(self) -> Option<R> {
        self.response
    }

    /// The field `final_response_yielded`.
    pub closed spec fn handed_out(self) -> bool {
        self.final_response_yielded
    }

    /// What is said of a response above are its fields, each as it stands.
    proof fn law_fields(self)
        ensures
            self.source() == self.inner,
            self.handle() == self.abort_handle,
            self.is_cancelled() == self.cancelled,
            self.text_so_far() == self.text@,
            self.reasoning_so_far() == self.reasoning@,
            self.calls_so_far().len() == self.tool_calls@.len(),
            forall|k: int|
                0 <= k < self.tool_calls@.len() ==> crate::calls::is_call(
                    #[trigger] self.tool_calls@[k],
                    self.calls_so_far()[k],
                ),
            self.message() == self.choice,
            self.kept_response() == self.response,
            self.handed_out() == self.final_response_yielded,
    {
    }

    /// A response over the provider's stream `inner`, with nothing gathered
    /// yet and a message of one empty text. The stream is made abortable by
    /// the response's own handle.
    pub fn stream(inner: S) -> (response: StreamingCompletionResponse<R, S>)
        ensures
            response@ == Progress::<R>::fresh(),
            guards(response.handle(), response.source(), inner),
    {
        let (abort_handle, abort_registration) = AbortHandle::new_pair();
        let abortable_stream = Abortable::new(inner, abort_registration);
        assert(paired(abort_handle, abort_registration));
        let response = StreamingCompletionResponse {
            inner: abortable_stream,
            abort_handle,
            cancelled: false,
            text: String::new(),
            reasoning: String::new(),
            tool_calls: Vec::new(),
            choice: OneOrMany::one(AssistantContent::text("")),
            response: None,
            final_response_yielded: false,
        };
        proof {
            reveal_strlit("");
            assert(""@ =~= Seq::<char>::empty());
            assert(response@ =~= Progress::<R>::fresh());
        }
        response
    }

    /// Cancels the stream: its handle is told to abort it, and every later poll
    /// ends it. The last clause says that the abort was called on this very
    /// handle. The response itself notes that it is cancelled, which is what
    /// the promise for later polls rests on, so a shared reference is not
    /// enough to cancel it.
    pub fn cancel(&mut self)
        ensures
            final(self)@ == old(self)@.cancel(),
            final(self).source() == old(self).source(),
            final(self).handle() == old(self).handle(),
            call_ensures(AbortHandle::abort, (&final(self).handle(),), ()),
    {
        self.abort_handle.abort();
        self.cancelled = true;
    }

    /// The message, for verified code that cannot see the fields.
    pub fn choice(&self) -> (choice: &OneOrMany<AssistantContent>)
        ensures
            *choice == self.message(),
    {
        &self.choice
    }

    /// The kept response, for verified code that cannot see the fields.
    pub fn response(&self) -> (response: &Option<R>)
        ensures
            *response == self.kept_response(),
    {
        &self.response
    }

    /// Whether the final response has been handed out, for verified code that
    /// cannot see the fields.
    pub fn final_response_yielded(&self) -> (yielded: bool)
        ensures
            yielded == self@.final_response_yielded,
    {
        self.final_response_yielded
    }

    /// The message that the text and the tool calls so far make up.
    fn collect(&self) -> (choice: OneOrMany<AssistantContent>)
        ensures
            crate::message::contents_view(choice@) == crate::progress::collected(
                self@.text,
                self@.tool_calls,
            ),
            crate::calls::is_message(choice, self@.text, self@.tool_calls),
    {
        let mut choice: Vec<AssistantContent> = Vec::new();
        let mut i: usize = 0;
        while i < self.tool_calls.len()
            invariant
                i <= self.tool_calls@.len(),
                choice@ == self.tool_calls@.take(i as int).map_values(
                    |call: ToolCall| AssistantContent::ToolCall(call),
                ),
            decreases self.tool_calls@.len() - i,
        {
            choice.push(AssistantContent::ToolCall(self.tool_calls[i].clone()));
            i += 1;
        }
        // There is always at least one part in the message.
        if choice.is_empty() || !self.text.as_str().is_empty() {
            choice.insert(0, AssistantContent::text(self.text.as_str()));
        }
        proof {
            assert(crate::message::contents_view(choice@) =~= crate::progress::collected(
                self@.text,
                self@.tool_calls,
            ));
        }
        let choice = OneOrMany::many(choice).unwrap();
        proof {
            crate::calls::lemma_is_message(choice, self@.text, self@.tool_calls);
        }
        choice
    }

    /// Takes in what polling the provider's stream gave, and says what becomes
    /// of it: an outcome for the consumer, or another poll. The end of the
    /// stream puts the message together.
    pub fn poll_next(&mut self, polled: StreamPoll<RawStreamingChoice<R>>) -> (step: StreamStep<
        StreamedAssistantContent<R>,
    >)
        ensures
            step@ == old(self)@.reply(polled@),
            old(self)@.advances(polled@, final(self)@),
            final(self).source() == old(self).source(),
            final(self).handle() == old(self).handle(),
    {
        let effective = if self.cancelled {
            StreamPoll::Ready(None)
        } else {
            polled
        };
        match effective {
            StreamPoll::Pending => StreamStep::Return(StreamPoll::Pending),
            StreamPoll::Ready(None) => {
                self.choice = self.collect();
                StreamStep::Return(StreamPoll::Ready(None))
            },
            StreamPoll::Ready(Some(Err(error))) => {
                if error.is_cancellation() {
                    StreamStep::Return(StreamPoll::Ready(None))
                } else {
                    StreamStep::Return(StreamPoll::Ready(Some(Err(error))))
                }
            },
            StreamPoll::Ready(Some(Ok(chunk))) => match chunk {
                RawStreamingChoice::Message(text) => {
                    self.text.append(text.as_str());
                    StreamStep::Return(
                        StreamPoll::Ready(Some(Ok(StreamedAssistantContent::text(text.as_str())))),
                    )
                },
                RawStreamingChoice::Reasoning { reasoning } => {
                    self.reasoning.append(reasoning.as_str());
                    StreamStep::Return(
                        StreamPoll::Ready(
                            Some(Ok(StreamedAssistantContent::Reasoning(Reasoning { reasoning }))),
                        ),
                    )
                },
                RawStreamingChoice::ToolCall { id, call_id, name, arguments } => {
                    let call = ToolCall {
                        id,
                        call_id,
                        function: ToolFunction { name, arguments },
                    };
                    self.tool_calls.push(call.clone());
                    assert(self@.tool_calls =~= old(self)@.tool_calls.push(call@));
                    let content = StreamedAssistantContent::from_parts(
                        call.id,
                        call.call_id,
                        call.function.name,
                        call.function.arguments,
                    );
                    StreamStep::Return(StreamPoll::Ready(Some(Ok(content))))
                },
                RawStreamingChoice::FinalResponse(response) => {
                    if self.final_response_yielded {
                        StreamStep::PollAgain
                    } else {
                        self.response = Some(response.clone());
                        self.final_response_yielded = true;
                        StreamStep::Return(
                            StreamPoll::Ready(
                                Some(Ok(StreamedAssistantContent::final_response(response))),
                            ),
                        )
                    }
                },
            },
        }
    }
}

/// The completed response that a streamed one comes to. Tokens are not counted
/// while streaming.
impl<R: Clone, S> From<StreamingCompletionResponse<R, S>> for CompletionResponse<Option<R>> {
    fn from(value: StreamingCompletionResponse<R, S>) -> (completed: CompletionResponse<Option<R>>) {
        CompletionResponse {
            choice: value.choice,
            usage: Usage::new(),
            raw_response: value.response,
        }
    }
}

impl<R: Clone, S> vstd::std_specs::convert::FromSpecImpl<StreamingCompletionResponse<R, S>> for CompletionResponse<Option<R>> {
    open spec fn obeys_from_spec() -> bool {
        true
    }

    open spec fn from_spec(value: StreamingCompletionResponse<R, S>) -> CompletionResponse<
        Option<R>,
    > {
        CompletionResponse {
            choice: value.message(),
            usage: Usage::untracked(),
            raw_response: value.kept_response(),
        }
    }
}

} // verus!
