//! What single calls of the library do, said of nothing but their arguments
//! and results: field by field, and character by character.
use crate::completion::{CompletionError, CompletionResponse, Usage};
use crate::message::{AssistantContent, Reasoning, Text, ToolCall, ToolCallView};
use crate::one_or_many::{EmptyListError, OneOrMany};
use crate::progress::{StreamPoll, StreamStep};
use crate::stdout::{StdoutAction, StdoutSession};
use crate::streaming::{RawStreamingChoice, StreamedAssistantContent, StreamingCompletionResponse};
use serde_json::Value;
use vstd::prelude::*;

verus! {

/// Whether `line` is `front` with `rest` behind it, character by character.
pub open spec fn is_joined(line: Seq<char>, front: Seq<char>, rest: Seq<char>) -> bool {
    &&& line.len() == front.len() + rest.len()
    &&& forall|k: int| 0 <= k < front.len() ==> #[trigger] line[k] == front[k]
    &&& forall|k: int| 0 <= k < rest.len() ==> line[front.len() + k] == #[trigger] rest[k]
}

/// Whether the word "aborted" stands in `text` at `at`.
pub open spec fn aborted_at(text: Seq<char>, at: int) -> bool {
    &&& 0 <= at
    &&& at + 7 <= text.len()
    &&& text[at] == 'a'
    &&& text[at + 1] == 'b'
    &&& text[at + 2] == 'o'
    &&& text[at + 3] == 'r'
    &&& text[at + 4] == 't'
    &&& text[at + 5] == 'e'
    &&& text[at + 6] == 'd'
}

/// Whether the word "aborted" stands somewhere in `text`.
pub open spec fn says_aborted(text: Seq<char>) -> bool {
    exists|at: int| #[trigger] aborted_at(text, at)
}

/// Whether an error is one of the provider that says "aborted".
pub open spec fn reports_abort(error: CompletionError) -> bool {
    match error {
        CompletionError::ProviderError(cause) => says_aborted(cause@),
        _ => false,
    }
}

/// The word "aborted" is found where its characters stand.
pub proof fn lemma_says_aborted(text: Seq<char>)
    ensures
        crate::trusted::contains_text(text, "aborted"@) == says_aborted(text),
{
    reveal_strlit("aborted");
    if crate::trusted::contains_text(text, "aborted"@) {
        let at = choose|at: int| #[trigger] crate::trusted::occurs_at(text, "aborted"@, at);
        let found = text.subrange(at, at + 7);
        assert(found == "aborted"@);
        assert(found[0] == 'a' && found[1] == 'b' && found[2] == 'o' && found[3] == 'r' && found[4]
            == 't' && found[5] == 'e' && found[6] == 'd');
        assert(aborted_at(text, at));
    }
    if says_aborted(text) {
        let at = choose|at: int| #[trigger] aborted_at(text, at);
        assert(text.subrange(at, at + 7) =~= "aborted"@);
        assert(crate::trusted::occurs_at(text, "aborted"@, at));
    }
}

/// An error counts as a cancellation exactly if it is one of the provider and
/// the seven characters of "aborted" stand one after the other in its text.
pub proof fn law_is_cancellation(error: &CompletionError, cancelled: bool)
    requires
        call_ensures(CompletionError::is_cancellation, (error,), cancelled),
    ensures
        cancelled == reports_abort(*error),
{
    match *error {
        CompletionError::ProviderError(cause) => {
            lemma_says_aborted(cause@);
        },
        _ => {},
    }
}

/// The name of the kind of an error, as it is written before its cause.
pub open spec fn kind_of(error: CompletionError) -> (Seq<char>, Seq<char>) {
    match error {
        CompletionError::HttpError(cause) => ("HttpError: "@, cause@),
        CompletionError::JsonError(cause) => ("JsonError: "@, cause@),
        CompletionError::RequestError(cause) => ("RequestError: "@, cause@),
        CompletionError::ResponseError(cause) => ("ResponseError: "@, cause@),
        CompletionError::ProviderError(cause) => ("ProviderError: "@, cause@),
    }
}

/// The message of an error is the name of its kind with its whole cause behind
/// it.
pub proof fn law_message(error: &CompletionError, message: String)
    requires
        call_ensures(CompletionError::message, (error,), message),
    ensures
        is_joined(message@, kind_of(*error).0, kind_of(*error).1),
{
}

/// A new usage counts no tokens.
pub proof fn law_usage_new(usage: Usage)
    requires
        call_ensures(Usage::new, (), usage),
    ensures
        usage.input_tokens == 0,
        usage.output_tokens == 0,
        usage.total_tokens == 0,
{
}

/// A list of one item holds that item and no other.
pub proof fn law_one<T>(item: T, list: OneOrMany<T>)
    requires
        call_ensures(OneOrMany::<T>::one, (item,), list),
    ensures
        list.first == item,
        list.rest@.len() == 0,
{
    assert(list@[0] == item);
    assert(list@.len() == 1);
}

/// A list of many items holds them all in their order, and is refused exactly
/// if there are none.
pub proof fn law_many<T>(items: Vec<T>, list: Result<OneOrMany<T>, EmptyListError>)
    requires
        call_ensures(OneOrMany::<T>::many, (items,), list),
    ensures
        list is Ok <==> items@.len() > 0,
        list matches Ok(list) ==> {
            &&& list.first == items@[0]
            &&& list.rest@.len() == items@.len() - 1
            &&& forall|k: int| 0 <= k < list.rest@.len() ==> #[trigger] list.rest@[k] == items@[k + 1]
        },
{
    if let Ok(list) = list {
        assert(list@[0] == items@[0]);
        assert(list@.len() == items@.len());
        assert forall|k: int| 0 <= k < list.rest@.len() implies #[trigger] list.rest@[k] == items@[k
            + 1] by {
            assert(list@[k + 1] == list.rest@[k]);
        }
    }
}

/// A text part holds exactly the characters that it was given.
pub proof fn law_assistant_text(text: &str, content: AssistantContent)
    requires
        call_ensures(AssistantContent::text, (text,), content),
    ensures
        content matches AssistantContent::Text(part) && part.text@ == text@,
{
}

/// A text content holds exactly the characters that it was given.
pub proof fn law_streamed_text<R: Clone>(text: &str, content: StreamedAssistantContent<R>)
    requires
        call_ensures(StreamedAssistantContent::<R>::text, (text,), content),
    ensures
        content matches StreamedAssistantContent::Text(part) && part.text@ == text@,
{
}

/// A tool call put together from its parts holds each of them unchanged.
pub proof fn law_from_parts<R: Clone>(
    id: String,
    call_id: Option<String>,
    name: String,
    arguments: Value,
    content: StreamedAssistantContent<R>,
)
    requires
        call_ensures(
            StreamedAssistantContent::<R>::from_parts,
            (id, call_id, name, arguments),
            content,
        ),
    ensures
        content matches StreamedAssistantContent::ToolCall(call) && {
            &&& call.id == id
            &&& call.call_id == call_id
            &&& call.function.name == name
            &&& call.function.arguments == arguments
        },
{
}

/// A final content holds exactly the response that it was given.
pub proof fn law_final_response<R: Clone>(response: R, content: StreamedAssistantContent<R>)
    requires
        call_ensures(StreamedAssistantContent::<R>::final_response, (response,), content),
    ensures
        content matches StreamedAssistantContent::Final(held) && held == response,
{
}

/// Whether two optional strings hold the same characters.
pub open spec fn same_option(one: Option<String>, two: Option<String>) -> bool {
    match (one, two) {
        (Some(one), Some(two)) => one@ == two@,
        (None, None) => true,
        _ => false,
    }
}

/// Erasing gives a final response without its value for a final response, and
/// for everything else the same with the same contents.
pub proof fn law_erase_response<R: Clone>(
    polled: StreamPoll<RawStreamingChoice<R>>,
    erased: StreamPoll<RawStreamingChoice<()>>,
)
    requires
        call_ensures(crate::streaming::erase_response::<R>, (polled,), erased),
    ensures
        polled is Pending <==> erased is Pending,
        polled == StreamPoll::<RawStreamingChoice<R>>::Ready(None) <==> erased
            == StreamPoll::<RawStreamingChoice<()>>::Ready(None),
        polled matches StreamPoll::Ready(Some(Err(error))) ==> erased == StreamPoll::<
            RawStreamingChoice<()>,
        >::Ready(Some(Err(error))),
        polled matches StreamPoll::Ready(Some(Ok(chunk))) ==> (erased matches StreamPoll::Ready(
            Some(Ok(kept)),
        ) && match (chunk, kept) {
            (RawStreamingChoice::Message(one), RawStreamingChoice::Message(two)) => one@ == two@,
            (
                RawStreamingChoice::Reasoning { reasoning: one },
                RawStreamingChoice::Reasoning { reasoning: two },
            ) => one@ == two@,
            (
                RawStreamingChoice::ToolCall { id, call_id, name, arguments },
                RawStreamingChoice::ToolCall {
                    id: id2,
                    call_id: call_id2,
                    name: name2,
                    arguments: arguments2,
                },
            ) => id@ == id2@ && same_option(call_id, call_id2) && name@ == name2@ && arguments
                == arguments2,
            (RawStreamingChoice::FinalResponse(_), RawStreamingChoice::FinalResponse(())) => true,
            _ => false,
        }),
{
}

/// A session starts outside of reasoning, with the word "Response", a colon and
/// a blank.
pub proof fn law_session_start(started: (StdoutSession, String))
    requires
        call_ensures(StdoutSession::start, (), started),
    ensures
        !started.0@,
        started.1@ == seq!['R', 'e', 's', 'p', 'o', 'n', 's', 'e', ':', ' '],
{
    reveal_strlit("Response: ");
    assert(started.1@ =~= seq!['R', 'e', 's', 'p', 'o', 'n', 's', 'e', ':', ' ']);
}

/// A session closes with a line break.
pub proof fn law_session_end(shown: String)
    requires
        call_ensures(crate::stdout::end, (), shown),
    ensures
        shown@ == seq!['\n'],
{
    reveal_strlit("\n");
    assert(shown@ =~= seq!['\n']);
}

/// The result of a tool is shown whole, behind "Result: " on a line of its own
/// and before a line break; a failure is passed on as it is.
pub proof fn law_tool_result(result: Result<String, String>, shown: Result<String, String>)
    requires
        call_ensures(crate::stdout::tool_result, (result,), shown),
    ensures
        result matches Err(failure) ==> shown == Err::<String, String>(failure),
        result matches Ok(result) ==> (shown matches Ok(line) && {
            &&& line@.len() == 9 + result@.len() + 1
            &&& line@.subrange(0, 9) == seq!['\n', 'R', 'e', 's', 'u', 'l', 't', ':', ' ']
            &&& forall|k: int| 0 <= k < result@.len() ==> line@[9 + k] == #[trigger] result@[k]
            &&& line@.last() == '\n'
        }),
{
    reveal_strlit("\nResult: ");
    reveal_strlit("\n");
    if let (Ok(result), Ok(line)) = (result, shown) {
        assert(line@.subrange(0, 9) =~= seq!['\n', 'R', 'e', 's', 'u', 'l', 't', ':', ' ']);
    }
}

/// Tools with different results are shown on different lines.
pub proof fn law_results_are_told_apart(one: String, two: String, shown: Result<String, String>)
    requires
        call_ensures(crate::stdout::tool_result, (Ok::<String, String>(one),), shown),
        call_ensures(crate::stdout::tool_result, (Ok::<String, String>(two),), shown),
    ensures
        one@ == two@,
{
    law_tool_result(Ok(one), shown);
    law_tool_result(Ok(two), shown);
    assert(one@.len() == two@.len());
    assert forall|k: int| 0 <= k < one@.len() implies one@[k] == two@[k] by {
        assert(shown->Ok_0@[9 + k] == one@[k]);
        assert(shown->Ok_0@[9 + k] == two@[k]);
    }
    assert(one@ =~= two@);
}

/// A tool call holds what its id and its name convert into, its arguments
/// unchanged, and no call id.
pub proof fn law_tool_call<R: Clone, I: Into<String>, N: Into<String>>(
    id: I,
    name: N,
    arguments: Value,
    content: StreamedAssistantContent<R>,
)
    requires
        call_ensures(StreamedAssistantContent::<R>::tool_call, (id, name, arguments), content),
    ensures
        content matches StreamedAssistantContent::ToolCall(call) && {
            &&& call_ensures(Into::<String>::into, (id,), call.id)
            &&& call.call_id is None
            &&& call_ensures(Into::<String>::into, (name,), call.function.name)
            &&& call.function.arguments == arguments
        },
{
}

/// A tool call with a call id holds that id unchanged, and all else as one
/// without.
pub proof fn law_tool_call_with_call_id<R: Clone, I: Into<String>, N: Into<String>>(
    id: I,
    call_id: String,
    name: N,
    arguments: Value,
    content: StreamedAssistantContent<R>,
)
    requires
        call_ensures(
            StreamedAssistantContent::<R>::tool_call_with_call_id,
            (id, call_id, name, arguments),
            content,
        ),
    ensures
        content matches StreamedAssistantContent::ToolCall(call) && {
            &&& call_ensures(Into::<String>::into, (id,), call.id)
            &&& call.call_id == Some(call_id)
            &&& call_ensures(Into::<String>::into, (name,), call.function.name)
            &&& call.function.arguments == arguments
        },
{
}

/// Text is printed whole: as it came, or behind three dashes if reasoning was
/// being shown. After it no reasoning is being shown.
pub proof fn law_show_text<R>(
    session: &mut StdoutSession,
    text: Text,
    action: StdoutAction<R>,
)
    requires
        call_ensures(
            StdoutSession::show::<R>,
            (session, Ok::<_, CompletionError>(StreamedAssistantContent::Text(text))),
            action,
        ),
    ensures
        action matches StdoutAction::Print(shown) && is_joined(
            shown@,
            if old(session)@ {
                seq!['\n', '-', '-', '-', '\n', '\n']
            } else {
                Seq::empty()
            },
            text.text@,
        ),
        !final(session)@,
{
    reveal_strlit("\n---\n\n");
    assert("\n---\n\n"@ =~= seq!['\n', '-', '-', '-', '\n', '\n']);
}

/// Reasoning is printed whole: as it came, or under a heading if no reasoning
/// was being shown. After it reasoning is being shown.
pub proof fn law_show_reasoning<R>(
    session: &mut StdoutSession,
    reasoning: Reasoning,
    action: StdoutAction<R>,
)
    requires
        call_ensures(
            StdoutSession::show::<R>,
            (session, Ok::<_, CompletionError>(StreamedAssistantContent::Reasoning(reasoning))),
            action,
        ),
    ensures
        action matches StdoutAction::Print(shown) && is_joined(
            shown@,
            if old(session)@ {
                Seq::empty()
            } else {
                seq!['\n', 'T', 'h', 'i', 'n', 'k', 'i', 'n', 'g', ':', ' ', '\n']
            },
            reasoning.reasoning@,
        ),
        final(session)@,
{
    reveal_strlit("\nThinking: \n");
    assert("\nThinking: \n"@ =~= seq![
        '\n',
        'T',
        'h',
        'i',
        'n',
        'k',
        'i',
        'n',
        'g',
        ':',
        ' ',
        '\n',
    ]);
}

/// A tool call asks for the tool of that name with all its arguments, and does
/// not touch whether reasoning is being shown.
pub proof fn law_show_tool_call<R>(
    session: &mut StdoutSession,
    call: ToolCall,
    action: StdoutAction<R>,
)
    requires
        call_ensures(
            StdoutSession::show::<R>,
            (session, Ok::<_, CompletionError>(StreamedAssistantContent::ToolCall(call))),
            action,
        ),
    ensures
        action matches StdoutAction::CallTool { name, arguments } && name@ == call.function.name@
            && arguments@ == crate::trusted::json_text(call.function.arguments),
        final(session)@ == old(session)@,
{
}

/// A final response is logged as it came, with a line break, and does not touch
/// whether reasoning is being shown.
pub proof fn law_show_final<R>(
    session: &mut StdoutSession,
    response: R,
    action: StdoutAction<R>,
)
    requires
        call_ensures(
            StdoutSession::show::<R>,
            (session, Ok::<_, CompletionError>(StreamedAssistantContent::Final(response))),
            action,
        ),
    ensures
        action matches StdoutAction::LogResponse { text, response: logged } && text@ == seq!['\n']
            && logged == response,
        final(session)@ == old(session)@,
{
    reveal_strlit("\n");
    assert("\n"@ =~= seq!['\n']);
}

/// An error ends a session. If it says "aborted" anywhere, a notice goes to
/// standard output and nothing to standard error; otherwise its whole message
/// goes to standard error, and nothing to standard output.
pub proof fn law_show_error<R>(
    session: &mut StdoutSession,
    error: CompletionError,
    message: String,
    action: StdoutAction<R>,
)
    requires
        call_ensures(CompletionError::message, (&error,), message),
        call_ensures(
            StdoutSession::show::<R>,
            (session, Err::<StreamedAssistantContent<R>, _>(error)),
            action,
        ),
    ensures
        action matches StdoutAction::Stop { output, error: written } && if says_aborted(message@) {
            output@ == "\nStream cancelled.\n"@ && written@.len() == 0
        } else {
            &&& output@.len() == 0
            &&& written@.len() == 7 + message@.len() + 1
            &&& written@.subrange(0, 7) == seq!['E', 'r', 'r', 'o', 'r', ':', ' ']
            &&& forall|k: int| 0 <= k < message@.len() ==> written@[7 + k] == #[trigger] message@[k]
            &&& written@.last() == '\n'
        },
        final(session)@ == old(session)@,
{
    lemma_says_aborted(message@);
    reveal_strlit("");
    reveal_strlit("Error: ");
    reveal_strlit("\n");
    if let StdoutAction::Stop { output, error: written } = action {
        if !says_aborted(message@) {
            assert(written@.subrange(0, 7) =~= seq!['E', 'r', 'r', 'o', 'r', ':', ' ']);
        }
    }
}

/// A part of a message, counted from its first.
pub open spec fn part_of(message: OneOrMany<AssistantContent>, k: int) -> AssistantContent {
    if k == 0 {
        message.first
    } else {
        message.rest@[k - 1]
    }
}

/// Whether a part of a message is a text with these characters.
pub open spec fn is_text_part(part: AssistantContent, text: Seq<char>) -> bool {
    part matches AssistantContent::Text(held) && held.text@ == text
}

/// Whether a tool call has these parts.
pub open spec fn is_call(call: ToolCall, view: ToolCallView) -> bool {
    &&& call.id@ == view.id
    &&& match call.call_id {
        Some(call_id) => view.call_id == Some(call_id@),
        None => view.call_id is None,
    }
    &&& call.function.name@ == view.name
    &&& call.function.arguments == view.arguments
}

/// Whether a part of a message is a tool call with these parts.
pub open spec fn is_call_part(part: AssistantContent, view: ToolCallView) -> bool {
    part matches AssistantContent::ToolCall(call) && is_call(call, view)
}

/// Whether a message is made up of a text and some tool calls: the text, if it
/// is not empty or there are no calls, is the first part and the only text; the
/// calls follow in order; and there is nothing else.
pub open spec fn is_message(
    message: OneOrMany<AssistantContent>,
    text: Seq<char>,
    calls: Seq<ToolCallView>,
) -> bool {
    let texts: int = if text.len() > 0 || calls.len() == 0 {
        1
    } else {
        0
    };
    &&& 1 + message.rest@.len() == texts + calls.len()
    &&& texts == 1 ==> is_text_part(message.first, text)
    &&& forall|k: int|
        0 <= k < calls.len() ==> is_call_part(part_of(message, texts + k), #[trigger] calls[k])
}

/// A collected message is made up of its text and its calls.
pub proof fn lemma_is_message(
    message: OneOrMany<AssistantContent>,
    text: Seq<char>,
    calls: Seq<ToolCallView>,
)
    requires
        crate::message::contents_view(message@) == crate::progress::collected(text, calls),
    ensures
        is_message(message, text, calls),
{
    let parts = crate::message::contents_view(message@);
    let texts: int = if text.len() > 0 || calls.len() == 0 {
        1
    } else {
        0
    };
    assert(parts.len() == 1 + message.rest@.len());
    assert(parts[0] == message.first@);
    assert forall|k: int| 0 <= k < calls.len() implies is_call_part(
        part_of(message, texts + k),
        #[trigger] calls[k],
    ) by {
        assert(parts[texts + k] == crate::message::ContentView::ToolCall(calls[k]));
        assert(parts[texts + k] == message@[texts + k]@);
        assert(message@[texts + k] == part_of(message, texts + k));
    }
}

/// A new response has gathered nothing and kept nothing, is not cancelled, and
/// has a message of one empty text. Its stream is the given one, made abortable
/// through the registration that belongs to its handle.
pub proof fn law_stream<R: Clone, S>(inner: S, response: StreamingCompletionResponse<R, S>)
    requires
        call_ensures(StreamingCompletionResponse::<R, S>::stream, (inner,), response),
    ensures
        response.text_so_far().len() == 0,
        response.reasoning_so_far().len() == 0,
        response.calls_so_far().len() == 0,
        response.message().rest@.len() == 0,
        is_text_part(response.message().first, Seq::empty()),
        response.kept_response() is None,
        !response.handed_out(),
        !response.is_cancelled(),
        exists|registration: futures::stream::AbortRegistration|
            {
                &&& #[trigger] call_ensures(
                    futures::stream::AbortHandle::new_pair,
                    (),
                    (response.handle(), registration),
                )
                &&& call_ensures(
                    futures::stream::Abortable::<S>::new,
                    (inner, registration),
                    response.source(),
                )
            },
{
    let parts = crate::message::contents_view(response.message()@);
    assert(parts =~= response@.choice);
    assert(parts.len() == 1 + response.message().rest@.len());
    assert(parts[0] == response.message().first@);
    let registration = choose|registration: futures::stream::AbortRegistration| #[trigger]
        crate::streaming::paired(response.handle(), registration) && crate::streaming::wraps(
            response.source(),
            inner,
            registration,
        );
    assert(call_ensures(
        futures::stream::AbortHandle::new_pair,
        (),
        (response.handle(), registration),
    ));
}

/// Whether two responses have the same stream, handle and cancellation.
pub open spec fn same_stream<R: Clone, S>(
    one: StreamingCompletionResponse<R, S>,
    two: StreamingCompletionResponse<R, S>,
) -> bool {
    &&& one.source() == two.source()
    &&& one.handle() == two.handle()
    &&& one.is_cancelled() == two.is_cancelled()
}

/// Whether two responses have gathered the same text, reasoning and tool calls.
pub open spec fn same_gathered<R: Clone, S>(
    one: StreamingCompletionResponse<R, S>,
    two: StreamingCompletionResponse<R, S>,
) -> bool {
    &&& one.text_so_far() == two.text_so_far()
    &&& one.reasoning_so_far() == two.reasoning_so_far()
    &&& one.calls_so_far() == two.calls_so_far()
}

/// Whether two responses have messages of the same parts.
pub open spec fn same_message<R: Clone, S>(
    one: StreamingCompletionResponse<R, S>,
    two: StreamingCompletionResponse<R, S>,
) -> bool {
    &&& one.message().rest@.len() == two.message().rest@.len()
    &&& forall|k: int|
        0 <= k <= one.message().rest@.len() ==> same_part(
            #[trigger] part_of(one.message(), k),
            part_of(two.message(), k),
        )
}

/// Whether two parts of a message hold the same.
pub open spec fn same_part(one: AssistantContent, two: AssistantContent) -> bool {
    match (one, two) {
        (AssistantContent::Text(one), AssistantContent::Text(two)) => one.text@ == two.text@,
        (AssistantContent::ToolCall(one), AssistantContent::ToolCall(two)) => {
            &&& one.id@ == two.id@
            &&& same_option(one.call_id, two.call_id)
            &&& one.function.name@ == two.function.name@
            &&& one.function.arguments == two.function.arguments
        },
        _ => false,
    }
}

/// Whether two responses have kept and handed out the same final response.
pub open spec fn same_response<R: Clone, S>(
    one: StreamingCompletionResponse<R, S>,
    two: StreamingCompletionResponse<R, S>,
) -> bool {
    &&& one.kept_response() == two.kept_response()
    &&& one.handed_out() == two.handed_out()
}

/// Messages with equal views have the same parts.
proof fn lemma_same_message<R: Clone, S>(
    one: StreamingCompletionResponse<R, S>,
    two: StreamingCompletionResponse<R, S>,
)
    requires
        one@.choice == two@.choice,
    ensures
        same_message(one, two),
{
    let parts = crate::message::contents_view(one.message()@);
    let others = crate::message::contents_view(two.message()@);
    assert(parts.len() == 1 + one.message().rest@.len());
    assert(others.len() == 1 + two.message().rest@.len());
    assert forall|k: int| 0 <= k <= one.message().rest@.len() implies same_part(
        #[trigger] part_of(one.message(), k),
        part_of(two.message(), k),
    ) by {
        assert(parts[k] == one.message()@[k]@);
        assert(others[k] == two.message()@[k]@);
        assert(one.message()@[k] == part_of(one.message(), k));
        assert(two.message()@[k] == part_of(two.message(), k));
    }
}

/// A cancel makes a response cancelled, calls the abort of its own handle, and
/// changes nothing else.
pub proof fn law_cancel<R: Clone, S>(response: &mut StreamingCompletionResponse<R, S>)
    requires
        call_ensures(StreamingCompletionResponse::<R, S>::cancel, (response,), ()),
    ensures
        final(response).is_cancelled(),
        final(response).source() == old(response).source(),
        final(response).handle() == old(response).handle(),
        call_ensures(futures::stream::AbortHandle::abort, (&old(response).handle(),), ()),
        same_gathered(*final(response), *old(response)),
        same_message(*final(response), *old(response)),
        same_response(*final(response), *old(response)),
{
    lemma_same_message(*final(response), *old(response));
}

/// The methods that read a response show its message, its kept response and
/// whether that has been handed out.
pub proof fn law_getters<R: Clone, S>(
    response: &StreamingCompletionResponse<R, S>,
    choice: &OneOrMany<AssistantContent>,
    kept: &Option<R>,
    yielded: bool,
)
    requires
        call_ensures(StreamingCompletionResponse::<R, S>::choice, (response,), choice),
        call_ensures(StreamingCompletionResponse::<R, S>::response, (response,), kept),
        call_ensures(
            StreamingCompletionResponse::<R, S>::final_response_yielded,
            (response,),
            yielded,
        ),
    ensures
        *choice == response.message(),
        *kept == response.kept_response(),
        yielded == response.handed_out(),
{
}

/// The consumer of a response that is not cancelled is told to wait exactly if
/// the provider is not ready, and is told of the end exactly if the provider's
/// stream has ended or the provider reports an abort.
pub proof fn law_waiting_and_ending<R: Clone, S>(
    response: &mut StreamingCompletionResponse<R, S>,
    polled: StreamPoll<RawStreamingChoice<R>>,
    step: StreamStep<StreamedAssistantContent<R>>,
)
    requires
        call_ensures(StreamingCompletionResponse::<R, S>::poll_next, (response, polled), step),
        !old(response).is_cancelled(),
    ensures
        step matches StreamStep::Return(StreamPoll::Pending) <==> polled is Pending,
        step matches StreamStep::Return(StreamPoll::Ready(None)) <==> {
            ||| polled matches StreamPoll::Ready(None)
            ||| polled matches StreamPoll::Ready(Some(Err(error))) && reports_abort(error)
        },
        step is PollAgain <==> {
            &&& polled matches StreamPoll::Ready(Some(Ok(RawStreamingChoice::FinalResponse(_))))
            &&& old(response).handed_out()
        },
{
    if let StreamPoll::Ready(Some(Err(CompletionError::ProviderError(cause)))) = polled {
        lemma_says_aborted(cause@);
    }
}

/// A poll that gave nothing yet changes nothing.
pub proof fn law_poll_pending<R: Clone, S>(
    response: &mut StreamingCompletionResponse<R, S>,
    step: StreamStep<StreamedAssistantContent<R>>,
)
    requires
        call_ensures(
            StreamingCompletionResponse::<R, S>::poll_next,
            (response, StreamPoll::Pending),
            step,
        ),
        !old(response).is_cancelled(),
    ensures
        step matches StreamStep::Return(StreamPoll::Pending),
        same_stream(*final(response), *old(response)),
        same_gathered(*final(response), *old(response)),
        same_message(*final(response), *old(response)),
        same_response(*final(response), *old(response)),
{
    lemma_same_message(*final(response), *old(response));
}

/// The end of the stream puts the message together, out of the text and the
/// tool calls so far; so does any poll of a response that is cancelled. The
/// consumer is told of the end, and nothing else changes.
pub proof fn law_poll_end<R: Clone, S>(
    response: &mut StreamingCompletionResponse<R, S>,
    polled: StreamPoll<RawStreamingChoice<R>>,
    step: StreamStep<StreamedAssistantContent<R>>,
)
    requires
        call_ensures(StreamingCompletionResponse::<R, S>::poll_next, (response, polled), step),
        old(response).is_cancelled() || (polled matches StreamPoll::Ready(None)),
    ensures
        step matches StreamStep::Return(StreamPoll::Ready(None)),
        is_message(
            final(response).message(),
            old(response).text_so_far(),
            old(response).calls_so_far(),
        ),
        same_stream(*final(response), *old(response)),
        same_gathered(*final(response), *old(response)),
        same_response(*final(response), *old(response)),
{
    lemma_is_message(
        final(response).message(),
        old(response).text_so_far(),
        old(response).calls_so_far(),
    );
}

/// An error changes nothing. It is handed on as it is, unless it is one of the
/// provider that says "aborted": that is the end of the stream.
pub proof fn law_poll_error<R: Clone, S>(
    response: &mut StreamingCompletionResponse<R, S>,
    error: CompletionError,
    step: StreamStep<StreamedAssistantContent<R>>,
)
    requires
        call_ensures(
            StreamingCompletionResponse::<R, S>::poll_next,
            (response, StreamPoll::Ready(Some(Err(error)))),
            step,
        ),
        !old(response).is_cancelled(),
    ensures
        reports_abort(error) ==> (step matches StreamStep::Return(StreamPoll::Ready(None))),
        !reports_abort(error) ==> (step matches StreamStep::Return(
            StreamPoll::Ready(Some(Err(shown))),
        ) && shown == error),
        same_stream(*final(response), *old(response)),
        same_gathered(*final(response), *old(response)),
        same_message(*final(response), *old(response)),
        same_response(*final(response), *old(response)),
{
    if let CompletionError::ProviderError(cause) = error {
        lemma_says_aborted(cause@);
    }
    lemma_same_message(*final(response), *old(response));
}

/// A chunk of text is handed on whole, and put behind the text so far. Nothing
/// else changes.
pub proof fn law_poll_text<R: Clone, S>(
    response: &mut StreamingCompletionResponse<R, S>,
    text: String,
    step: StreamStep<StreamedAssistantContent<R>>,
)
    requires
        call_ensures(
            StreamingCompletionResponse::<R, S>::poll_next,
            (response, StreamPoll::Ready(Some(Ok(RawStreamingChoice::Message(text))))),
            step,
        ),
        !old(response).is_cancelled(),
    ensures
        step matches StreamStep::Return(
            StreamPoll::Ready(Some(Ok(StreamedAssistantContent::Text(shown)))),
        ) && shown.text@ == text@,
        is_joined(final(response).text_so_far(), old(response).text_so_far(), text@),
        final(response).reasoning_so_far() == old(response).reasoning_so_far(),
        final(response).calls_so_far() == old(response).calls_so_far(),
        same_stream(*final(response), *old(response)),
        same_message(*final(response), *old(response)),
        same_response(*final(response), *old(response)),
{
    lemma_same_message(*final(response), *old(response));
}

/// A chunk of reasoning is handed on whole, and put behind the reasoning so
/// far. Nothing else changes.
pub proof fn law_poll_reasoning<R: Clone, S>(
    response: &mut StreamingCompletionResponse<R, S>,
    reasoning: String,
    step: StreamStep<StreamedAssistantContent<R>>,
)
    requires
        call_ensures(
            StreamingCompletionResponse::<R, S>::poll_next,
            (response, StreamPoll::Ready(Some(Ok(RawStreamingChoice::Reasoning { reasoning })))),
            step,
        ),
        !old(response).is_cancelled(),
    ensures
        step matches StreamStep::Return(
            StreamPoll::Ready(Some(Ok(StreamedAssistantContent::Reasoning(shown)))),
        ) && shown.reasoning@ == reasoning@,
        is_joined(final(response).reasoning_so_far(), old(response).reasoning_so_far(), reasoning@),
        final(response).text_so_far() == old(response).text_so_far(),
        final(response).calls_so_far() == old(response).calls_so_far(),
        same_stream(*final(response), *old(response)),
        same_message(*final(response), *old(response)),
        same_response(*final(response), *old(response)),
{
    lemma_same_message(*final(response), *old(response));
}

/// A tool call is handed on with all its parts, and put behind the tool calls
/// so far. Nothing else changes.
pub proof fn law_poll_tool_call<R: Clone, S>(
    response: &mut StreamingCompletionResponse<R, S>,
    id: String,
    call_id: Option<String>,
    name: String,
    arguments: Value,
    step: StreamStep<StreamedAssistantContent<R>>,
)
    requires
        call_ensures(
            StreamingCompletionResponse::<R, S>::poll_next,
            (
                response,
                StreamPoll::Ready(
                    Some(Ok(RawStreamingChoice::ToolCall { id, call_id, name, arguments })),
                ),
            ),
            step,
        ),
        !old(response).is_cancelled(),
    ensures
        step matches StreamStep::Return(
            StreamPoll::Ready(Some(Ok(StreamedAssistantContent::ToolCall(shown)))),
        ) && {
            &&& shown.id@ == id@
            &&& same_option(shown.call_id, call_id)
            &&& shown.function.name@ == name@
            &&& shown.function.arguments == arguments
            &&& final(response).calls_so_far().len() == old(response).calls_so_far().len() + 1
            &&& is_call(shown, final(response).calls_so_far().last())
        },
        forall|k: int|
            0 <= k < old(response).calls_so_far().len() ==> #[trigger] old(response).calls_so_far()[k]
                == final(response).calls_so_far()[k],
        final(response).text_so_far() == old(response).text_so_far(),
        final(response).reasoning_so_far() == old(response).reasoning_so_far(),
        same_stream(*final(response), *old(response)),
        same_message(*final(response), *old(response)),
        same_response(*final(response), *old(response)),
{
    lemma_same_message(*final(response), *old(response));
}

/// The first final response is handed on as it is, and a clone of it is kept; a
/// later one is passed over and changes nothing. Nothing else changes.
pub proof fn law_poll_final<R: Clone, S>(
    response: &mut StreamingCompletionResponse<R, S>,
    last: R,
    step: StreamStep<StreamedAssistantContent<R>>,
)
    requires
        call_ensures(
            StreamingCompletionResponse::<R, S>::poll_next,
            (response, StreamPoll::Ready(Some(Ok(RawStreamingChoice::FinalResponse(last))))),
            step,
        ),
        !old(response).is_cancelled(),
    ensures
        final(response).handed_out(),
        old(response).handed_out() ==> step is PollAgain && same_response(
            *final(response),
            *old(response),
        ),
        !old(response).handed_out() ==> {
            &&& step matches StreamStep::Return(
                StreamPoll::Ready(Some(Ok(StreamedAssistantContent::Final(shown)))),
            ) && shown == last
            &&& final(response).kept_response() matches Some(kept) && call_ensures(
                R::clone,
                (&last,),
                kept,
            )
        },
        same_gathered(*final(response), *old(response)),
        same_stream(*final(response), *old(response)),
        same_message(*final(response), *old(response)),
{
    lemma_same_message(*final(response), *old(response));
}

/// A completed response has the very message of the streamed one and the very
/// response that it kept, and counts no tokens.
pub proof fn law_from<R: Clone, S>(
    value: StreamingCompletionResponse<R, S>,
    completed: CompletionResponse<Option<R>>,
)
    requires
        call_ensures(
            <CompletionResponse<Option<R>> as From<StreamingCompletionResponse<R, S>>>::from,
            (value,),
            completed,
        ),
    ensures
        completed.choice == value.message(),
        completed.raw_response == value.kept_response(),
        completed.usage.input_tokens == 0,
        completed.usage.output_tokens == 0,
        completed.usage.total_tokens == 0,
{
}

} // verus!
