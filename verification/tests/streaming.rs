use futures::executor::block_on;
use futures::stream::{poll_fn, Stream};
use rig_streaming::completion::{CompletionError, CompletionResponse, Usage};
use rig_streaming::message::{AssistantContent, Reasoning, Text, ToolCall, ToolFunction};
use rig_streaming::one_or_many::{EmptyListError, OneOrMany};
use rig_streaming::progress::{StreamPoll, StreamStep};
use rig_streaming::streaming::{
    erase_response, RawStreamingChoice, StreamedAssistantContent, StreamingCompletionResponse,
};
use serde_json::Value;
use std::collections::VecDeque;
use std::pin::Pin;
use std::task::{Context, Poll};

#[derive(Debug, Clone, PartialEq)]
struct MockResponse {
    token_count: u32,
}

type RawItem = Result<RawStreamingChoice<MockResponse>, CompletionError>;
type Item = Result<StreamedAssistantContent<MockResponse>, CompletionError>;
type Provider = Pin<Box<dyn Stream<Item = RawItem> + Send>>;
type Response = StreamingCompletionResponse<MockResponse, Provider>;

fn message(text: &str) -> RawItem {
    Ok(RawStreamingChoice::Message(text.to_string()))
}

fn reasoning(text: &str) -> RawItem {
    Ok(RawStreamingChoice::Reasoning { reasoning: text.to_string() })
}

fn final_response(token_count: u32) -> RawItem {
    Ok(RawStreamingChoice::FinalResponse(MockResponse { token_count }))
}

fn arguments() -> Value {
    serde_json::from_str("{\"city\": \"Paris\", \"days\": [1, 2]}").unwrap()
}

fn raw_call(id: &str, call_id: Option<&str>) -> RawItem {
    Ok(RawStreamingChoice::ToolCall {
        id: id.to_string(),
        call_id: call_id.map(|call_id| call_id.to_string()),
        name: "weather".to_string(),
        arguments: arguments(),
    })
}

fn call(id: &str, call_id: Option<&str>) -> ToolCall {
    ToolCall {
        id: id.to_string(),
        call_id: call_id.map(|call_id| call_id.to_string()),
        function: ToolFunction { name: "weather".to_string(), arguments: arguments() },
    }
}

fn text_part(text: &str) -> AssistantContent {
    AssistantContent::Text(Text { text: text.to_string() })
}

/// A provider that lets its consumer wait once before each item.
fn provider(items: Vec<RawItem>) -> Provider {
    let mut items = VecDeque::from(items);
    let mut waited = false;
    Box::pin(poll_fn(move |cx: &mut Context<'_>| {
        waited = !waited;
        if waited {
            cx.waker().wake_by_ref();
            Poll::Pending
        } else {
            Poll::Ready(items.pop_front())
        }
    }))
}

fn response(items: Vec<RawItem>) -> Response {
    StreamingCompletionResponse::stream(provider(items))
}

fn poll_inner(stream: &mut Response, cx: &mut Context<'_>) -> StreamPoll<RawStreamingChoice<MockResponse>> {
    match Pin::new(&mut stream.inner).poll_next(cx) {
        Poll::Pending => StreamPoll::Pending,
        Poll::Ready(item) => StreamPoll::Ready(item),
    }
}

fn next(stream: &mut Response) -> Option<Item> {
    block_on(futures::future::poll_fn(|cx| loop {
        let polled = poll_inner(stream, cx);
        match stream.poll_next(polled) {
            StreamStep::PollAgain => continue,
            StreamStep::Return(StreamPoll::Pending) => return Poll::Pending,
            StreamStep::Return(StreamPoll::Ready(item)) => return Poll::Ready(item),
        }
    }))
}

fn drain(stream: &mut Response) -> Vec<Item> {
    let mut items = Vec::new();
    while let Some(item) = next(stream) {
        items.push(item);
    }
    items
}

fn parts(choice: OneOrMany<AssistantContent>) -> Vec<AssistantContent> {
    let mut parts = vec![choice.first];
    parts.extend(choice.rest);
    parts
}

#[test]
fn test_stream_cancellation() {
    let mut stream = response(vec![
        message("hello 1"),
        message("hello 2"),
        message("hello 3"),
        final_response(15),
    ]);

    println!("Response: ");
    let mut chunk_count = 0;
    while let Some(chunk) = next(&mut stream) {
        match chunk {
            Ok(StreamedAssistantContent::Text(text)) => {
                println!("{}", text.text);
                chunk_count += 1;
            }
            Ok(StreamedAssistantContent::ToolCall(tc)) => {
                println!("\nTool Call: {tc:?}");
                chunk_count += 1;
            }
            Ok(StreamedAssistantContent::Final(res)) => {
                println!("\nFinal response: {res:?}");
            }
            Ok(StreamedAssistantContent::Reasoning(Reasoning { reasoning })) => {
                println!("{reasoning}");
            }
            Err(e) => {
                println!("Error: {e:?}");
                break;
            }
        }

        if chunk_count >= 2 {
            println!("\nCancelling stream...");
            stream.cancel();
            println!("Stream cancelled.");
            break;
        }
    }

    let next_chunk = next(&mut stream);
    assert!(
        next_chunk.is_none(),
        "Expected no further chunks after cancellation, got {next_chunk:?}"
    );
}

#[test]
fn cancelling_keeps_what_came_before() {
    let mut stream = response(vec![message("hello 1"), message("hello 2"), final_response(15)]);
    assert_eq!(next(&mut stream), Some(Ok(StreamedAssistantContent::text("hello 1"))));
    stream.cancel();
    assert_eq!(next(&mut stream), None);
    assert_eq!(next(&mut stream), None);
    assert_eq!(parts(stream.choice), vec![text_part("hello 1")]);
    assert_eq!(stream.response, None);
}

#[test]
fn cancelling_aborts_the_provider() {
    let mut stream = response(vec![message("hello 1"), message("hello 2")]);
    assert_eq!(next(&mut stream), Some(Ok(StreamedAssistantContent::text("hello 1"))));
    assert!(!stream.inner.is_aborted());
    stream.cancel();
    assert!(stream.inner.is_aborted());
    let polled = block_on(futures::future::poll_fn(|cx| Poll::Ready(poll_inner(&mut stream, cx))));
    assert!(matches!(polled, StreamPoll::Ready(None)));
}

#[test]
fn a_chunk_that_is_still_under_way_is_dropped_by_a_cancelled_stream() {
    let mut stream = response(vec![]);
    stream.cancel();
    let step = stream.poll_next(StreamPoll::Ready(Some(message("late"))));
    assert_eq!(step, StreamStep::Return(StreamPoll::Ready(None)));
    assert_eq!(parts(stream.choice), vec![text_part("")]);
}

#[test]
fn a_new_response_holds_one_empty_text() {
    let stream = response(vec![message("hello")]);
    assert_eq!(parts(stream.choice), vec![text_part("")]);
    assert_eq!(stream.response, None);
    assert!(!stream.final_response_yielded);
}

#[test]
fn text_is_joined_and_calls_follow_it() {
    let mut stream = response(vec![
        message("Hello"),
        raw_call("a", None),
        reasoning("hmm"),
        message(", world"),
        raw_call("b", Some("call-b")),
        final_response(15),
    ]);
    assert_eq!(
        drain(&mut stream),
        vec![
            Ok(StreamedAssistantContent::Text(Text { text: "Hello".to_string() })),
            Ok(StreamedAssistantContent::ToolCall(call("a", None))),
            Ok(StreamedAssistantContent::Reasoning(Reasoning { reasoning: "hmm".to_string() })),
            Ok(StreamedAssistantContent::Text(Text { text: ", world".to_string() })),
            Ok(StreamedAssistantContent::ToolCall(call("b", Some("call-b")))),
            Ok(StreamedAssistantContent::Final(MockResponse { token_count: 15 })),
        ]
    );
    assert_eq!(stream.response, Some(MockResponse { token_count: 15 }));
    assert!(stream.final_response_yielded);
    assert_eq!(
        parts(stream.choice),
        vec![
            text_part("Hello, world"),
            AssistantContent::ToolCall(call("a", None)),
            AssistantContent::ToolCall(call("b", Some("call-b"))),
        ]
    );
}

#[test]
fn calls_alone_make_up_a_message() {
    let mut stream = response(vec![raw_call("a", None), reasoning("thinking")]);
    assert_eq!(drain(&mut stream).len(), 2);
    assert_eq!(parts(stream.choice), vec![AssistantContent::ToolCall(call("a", None))]);
    assert_eq!(stream.response, None);
}

#[test]
fn an_empty_stream_makes_up_one_empty_text() {
    let mut stream = response(vec![]);
    assert_eq!(drain(&mut stream), vec![]);
    assert_eq!(parts(stream.choice), vec![text_part("")]);
}

#[test]
fn reasoning_stays_out_of_the_message() {
    let mut stream = response(vec![reasoning("one"), reasoning("two")]);
    assert_eq!(drain(&mut stream).len(), 2);
    assert_eq!(parts(stream.choice), vec![text_part("")]);
}

#[test]
fn the_end_may_be_reached_again() {
    let mut stream = response(vec![message("hello")]);
    assert_eq!(drain(&mut stream).len(), 1);
    assert_eq!(next(&mut stream), None);
    assert_eq!(parts(stream.choice), vec![text_part("hello")]);
}

#[test]
fn only_the_first_final_response_counts() {
    let mut stream = response(vec![final_response(1), final_response(2), message("x")]);
    assert_eq!(
        drain(&mut stream),
        vec![
            Ok(StreamedAssistantContent::final_response(MockResponse { token_count: 1 })),
            Ok(StreamedAssistantContent::text("x")),
        ]
    );
    assert_eq!(stream.response, Some(MockResponse { token_count: 1 }));
}

#[test]
fn a_second_final_response_asks_for_another_poll() {
    let mut stream = response(vec![]);
    let first = stream.poll_next(StreamPoll::Ready(Some(final_response(1))));
    assert_eq!(
        first,
        StreamStep::Return(StreamPoll::Ready(Some(Ok(StreamedAssistantContent::Final(
            MockResponse { token_count: 1 }
        )))))
    );
    let second = stream.poll_next(StreamPoll::Ready(Some(final_response(2))));
    assert_eq!(second, StreamStep::PollAgain);
}

#[test]
fn pending_is_handed_on() {
    let mut stream = response(vec![]);
    assert_eq!(stream.poll_next(StreamPoll::Pending), StreamStep::Return(StreamPoll::Pending));
}

#[test]
fn errors_are_handed_on() {
    let errors = vec![
        CompletionError::HttpError("aborted".to_string()),
        CompletionError::JsonError("aborted".to_string()),
        CompletionError::RequestError("aborted".to_string()),
        CompletionError::ResponseError("aborted".to_string()),
        CompletionError::ProviderError("abort".to_string()),
    ];
    let count = errors.len();
    let mut stream = response(errors.into_iter().map(Err).collect());
    let items = drain(&mut stream);
    assert_eq!(items.len(), count);
    assert_eq!(items[0], Err(CompletionError::HttpError("aborted".to_string())));
    assert_eq!(items[1], Err(CompletionError::JsonError("aborted".to_string())));
    assert_eq!(items[2], Err(CompletionError::RequestError("aborted".to_string())));
    assert_eq!(items[3], Err(CompletionError::ResponseError("aborted".to_string())));
    assert_eq!(items[4], Err(CompletionError::ProviderError("abort".to_string())));
}

#[test]
fn an_abort_that_the_provider_reports_is_the_end() {
    let mut stream = response(vec![
        message("partial"),
        Err(CompletionError::ProviderError("request was aborted by the user".to_string())),
    ]);
    assert_eq!(drain(&mut stream), vec![Ok(StreamedAssistantContent::text("partial"))]);
    assert_eq!(parts(stream.choice.clone()), vec![text_part("")]);
    assert_eq!(next(&mut stream), None);
    assert_eq!(parts(stream.choice), vec![text_part("partial")]);
}

#[test]
fn cancellations_are_told_by_their_text() {
    assert!(CompletionError::ProviderError("aborted".to_string()).is_cancellation());
    assert!(CompletionError::ProviderError("é aborted é".to_string()).is_cancellation());
    assert!(!CompletionError::ProviderError("Aborted".to_string()).is_cancellation());
    assert!(!CompletionError::ProviderError("".to_string()).is_cancellation());
    assert!(!CompletionError::ResponseError("aborted".to_string()).is_cancellation());
}

#[test]
fn a_finished_stream_becomes_a_response() {
    let mut stream = response(vec![message("hi"), final_response(7)]);
    drain(&mut stream);
    let completed: CompletionResponse<Option<MockResponse>> = stream.into();
    assert_eq!(parts(completed.choice), vec![text_part("hi")]);
    assert_eq!(completed.raw_response, Some(MockResponse { token_count: 7 }));
    assert_eq!(completed.usage, Usage { input_tokens: 0, output_tokens: 0, total_tokens: 0 });
    assert_eq!(completed.usage, Usage::new());
}

#[test]
fn erasing_takes_out_the_final_response_only() {
    assert!(matches!(
        erase_response(StreamPoll::Ready(Some(final_response(3)))),
        StreamPoll::Ready(Some(Ok(RawStreamingChoice::FinalResponse(()))))
    ));
    match erase_response(StreamPoll::Ready(Some(message("hi")))) {
        StreamPoll::Ready(Some(Ok(RawStreamingChoice::Message(text)))) => assert_eq!(text, "hi"),
        other => panic!("{other:?}"),
    }
    match erase_response(StreamPoll::Ready(Some(reasoning("why")))) {
        StreamPoll::Ready(Some(Ok(RawStreamingChoice::Reasoning { reasoning }))) => {
            assert_eq!(reasoning, "why")
        }
        other => panic!("{other:?}"),
    }
    match erase_response(StreamPoll::Ready(Some(raw_call("a", Some("c"))))) {
        StreamPoll::Ready(Some(Ok(RawStreamingChoice::ToolCall { id, call_id, name, arguments: given }))) => {
            assert_eq!(id, "a");
            assert_eq!(call_id, Some("c".to_string()));
            assert_eq!(name, "weather");
            assert_eq!(given, arguments());
        }
        other => panic!("{other:?}"),
    }
    assert!(matches!(
        erase_response::<MockResponse>(StreamPoll::Ready(None)),
        StreamPoll::Ready(None)
    ));
    assert!(matches!(erase_response::<MockResponse>(StreamPoll::Pending), StreamPoll::Pending));
    match erase_response::<MockResponse>(StreamPoll::Ready(Some(Err(
        CompletionError::JsonError("bad".to_string()),
    )))) {
        StreamPoll::Ready(Some(Err(error))) => {
            assert_eq!(error, CompletionError::JsonError("bad".to_string()))
        }
        other => panic!("{other:?}"),
    }
}

#[test]
fn an_erased_stream_gathers_the_same_message() {
    let items = || {
        vec![
            message("a"),
            raw_call("x", None),
            final_response(1),
            reasoning("r"),
            final_response(2),
            message("b"),
        ]
    };
    let mut whole = response(items());
    drain(&mut whole);
    let mut erased: StreamingCompletionResponse<(), Provider> =
        StreamingCompletionResponse::stream(provider(vec![]));
    for item in items() {
        erased.poll_next(erase_response(StreamPoll::Ready(Some(item))));
    }
    erased.poll_next(StreamPoll::Ready(None));
    assert_eq!(parts(erased.choice), parts(whole.choice));
    assert_eq!(erased.response, Some(()));
    assert_eq!(erased.final_response_yielded, whole.final_response_yielded);
}

#[test]
fn contents_are_made_as_asked() {
    assert_eq!(
        StreamedAssistantContent::<MockResponse>::text("hi"),
        StreamedAssistantContent::Text(Text { text: "hi".to_string() })
    );
    assert_eq!(
        StreamedAssistantContent::<MockResponse>::tool_call("a", "weather", arguments()),
        StreamedAssistantContent::ToolCall(call("a", None))
    );
    assert_eq!(
        StreamedAssistantContent::<MockResponse>::from_parts(
            "a".to_string(),
            Some("c".to_string()),
            "weather".to_string(),
            arguments()
        ),
        StreamedAssistantContent::ToolCall(call("a", Some("c")))
    );
    assert_eq!(
        StreamedAssistantContent::<MockResponse>::tool_call_with_call_id(
            "a".to_string(),
            "c".to_string(),
            "weather".to_string(),
            arguments()
        ),
        StreamedAssistantContent::ToolCall(call("a", Some("c")))
    );
    assert_eq!(
        StreamedAssistantContent::final_response(MockResponse { token_count: 4 }),
        StreamedAssistantContent::Final(MockResponse { token_count: 4 })
    );
}

#[test]
fn a_list_holds_at_least_one_item() {
    assert_eq!(OneOrMany::many(Vec::<u8>::new()), Err(EmptyListError));
    assert_eq!(OneOrMany::many(vec![1, 2, 3]), Ok(OneOrMany { first: 1, rest: vec![2, 3] }));
    assert_eq!(OneOrMany::one(5), OneOrMany { first: 5, rest: vec![] });
}

#[test]
fn a_copied_call_equals_its_source() {
    let source = call("a", Some("c"));
    assert_eq!(source.clone(), source);
}

#[test]
fn items_come_in_order_with_errors_and_one_final_response() {
    let json_error = || CompletionError::JsonError("bad".to_string());
    let mut stream = response(vec![
        message("a"),
        Err(json_error()),
        final_response(1),
        Err(CompletionError::ResponseError("odd".to_string())),
        final_response(2),
        reasoning("b"),
    ]);
    assert_eq!(
        drain(&mut stream),
        vec![
            Ok(StreamedAssistantContent::text("a")),
            Err(json_error()),
            Ok(StreamedAssistantContent::Final(MockResponse { token_count: 1 })),
            Err(CompletionError::ResponseError("odd".to_string())),
            Ok(StreamedAssistantContent::Reasoning(Reasoning { reasoning: "b".to_string() })),
        ]
    );
}

#[test]
fn the_first_final_response_outlives_a_cancel() {
    let mut stream = response(vec![message("a"), final_response(1), final_response(2)]);
    assert_eq!(next(&mut stream), Some(Ok(StreamedAssistantContent::text("a"))));
    assert_eq!(
        next(&mut stream),
        Some(Ok(StreamedAssistantContent::Final(MockResponse { token_count: 1 })))
    );
    stream.cancel();
    stream.cancel();
    assert_eq!(next(&mut stream), None);
    assert_eq!(stream.response(), &Some(MockResponse { token_count: 1 }));
    assert!(stream.final_response_yielded());
    assert_eq!(stream.response, Some(MockResponse { token_count: 1 }));
    assert_eq!(parts(stream.choice().clone()), vec![text_part("a")]);
}

#[test]
fn a_final_response_after_a_cancel_is_not_kept() {
    let mut stream = response(vec![]);
    stream.cancel();
    stream.poll_next(StreamPoll::Ready(Some(final_response(1))));
    assert_eq!(stream.response, None);
    assert!(!stream.final_response_yielded);
}

#[test]
fn a_kept_response_never_changes() {
    let mut stream = response(vec![]);
    stream.poll_next(StreamPoll::Ready(Some(final_response(1))));
    let events = vec![
        StreamPoll::Ready(Some(final_response(2))),
        StreamPoll::Ready(Some(message("x"))),
        StreamPoll::Ready(Some(Err(CompletionError::HttpError("lost".to_string())))),
        StreamPoll::Pending,
        StreamPoll::Ready(None),
    ];
    for event in events {
        stream.poll_next(event);
        assert_eq!(stream.response, Some(MockResponse { token_count: 1 }));
    }
    stream.cancel();
    stream.poll_next(StreamPoll::Ready(Some(final_response(3))));
    assert_eq!(stream.response, Some(MockResponse { token_count: 1 }));
}
