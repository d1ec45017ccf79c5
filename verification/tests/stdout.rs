use rig_streaming::completion::CompletionError;
use rig_streaming::message::Reasoning;
use rig_streaming::stdout::{end, tool_result, StdoutAction, StdoutSession};
use rig_streaming::streaming::StreamedAssistantContent;

type Content = StreamedAssistantContent<u32>;

fn text(text: &str) -> Result<Content, CompletionError> {
    Ok(StreamedAssistantContent::text(text))
}

fn reasoning(text: &str) -> Result<Content, CompletionError> {
    Ok(StreamedAssistantContent::Reasoning(Reasoning { reasoning: text.to_string() }))
}

fn tool_call() -> Result<Content, CompletionError> {
    Ok(StreamedAssistantContent::tool_call(
        "id".to_string(),
        "add".to_string(),
        serde_json::from_str("{ \"x\": 1, \"y\": [true, null] }").unwrap(),
    ))
}

fn print(text: &str) -> StdoutAction<u32> {
    StdoutAction::Print(text.to_string())
}

#[test]
fn a_session_starts_with_its_heading() {
    let (_, heading) = StdoutSession::start();
    assert_eq!(heading, "Response: ");
    assert_eq!(end(), "\n");
}

#[test]
fn text_is_shown_as_it_is() {
    let (mut session, _) = StdoutSession::start();
    assert_eq!(session.show(text("Hello")), print("Hello"));
    assert_eq!(session.show(text(" world")), print(" world"));
}

#[test]
fn reasoning_has_a_heading_and_an_end() {
    let (mut session, _) = StdoutSession::start();
    assert_eq!(session.show(reasoning("one")), print("\nThinking: \none"));
    assert_eq!(session.show(reasoning(" two")), print(" two"));
    assert_eq!(session.show(text("answer")), print("\n---\n\nanswer"));
    assert_eq!(session.show(text(" more")), print(" more"));
    assert_eq!(session.show(reasoning("again")), print("\nThinking: \nagain"));
}

#[test]
fn a_tool_is_called_with_compact_arguments() {
    let (mut session, _) = StdoutSession::start();
    session.show(reasoning("one"));
    assert_eq!(
        session.show(tool_call()),
        StdoutAction::CallTool {
            name: "add".to_string(),
            arguments: "{\"x\":1,\"y\":[true,null]}".to_string(),
        }
    );
    assert_eq!(session.show(text("answer")), print("\n---\n\nanswer"));
    assert_eq!(tool_result(Ok("3".to_string())), Ok("\nResult: 3\n".to_string()));
    assert_eq!(tool_result(Err("no such tool".to_string())), Err("no such tool".to_string()));
}

#[test]
fn the_final_response_is_logged() {
    let (mut session, _) = StdoutSession::start();
    assert_eq!(
        session.show(Ok(StreamedAssistantContent::final_response(9))),
        StdoutAction::LogResponse { text: "\n".to_string(), response: 9 }
    );
}

#[test]
fn errors_stop_the_session() {
    let (mut session, _) = StdoutSession::start();
    let failed: Result<Content, CompletionError> =
        Err(CompletionError::ResponseError("no choices".to_string()));
    assert_eq!(
        session.show(failed),
        StdoutAction::Stop {
            output: "".to_string(),
            error: "Error: ResponseError: no choices\n".to_string(),
        }
    );
    let aborted: Result<Content, CompletionError> =
        Err(CompletionError::HttpError("connection aborted".to_string()));
    assert_eq!(
        session.show(aborted),
        StdoutAction::Stop { output: "\nStream cancelled.\n".to_string(), error: "".to_string() }
    );
}

#[test]
fn errors_are_rendered_with_their_kind() {
    let cause = || "cause".to_string();
    assert_eq!(CompletionError::HttpError(cause()).message(), "HttpError: cause");
    assert_eq!(CompletionError::JsonError(cause()).message(), "JsonError: cause");
    assert_eq!(CompletionError::RequestError(cause()).message(), "RequestError: cause");
    assert_eq!(CompletionError::ResponseError(cause()).message(), "ResponseError: cause");
    assert_eq!(CompletionError::ProviderError(cause()).message(), "ProviderError: cause");
}

/// Runs a whole session in which every tool returns "3", and gives back what
/// it writes to standard output and to standard error.
fn transcript(items: Vec<Result<Content, CompletionError>>) -> (String, String) {
    let (mut session, mut output) = StdoutSession::start();
    let mut errors = String::new();
    for item in items {
        match session.show(item) {
            StdoutAction::Print(text) => output.push_str(&text),
            StdoutAction::CallTool { .. } => output.push_str(&tool_result(Ok("3".to_string())).unwrap()),
            StdoutAction::LogResponse { text, .. } => output.push_str(&text),
            StdoutAction::Stop { output: text, error } => {
                output.push_str(&text);
                errors.push_str(&error);
                break;
            }
        }
    }
    output.push_str(&end());
    (output, errors)
}

#[test]
fn a_whole_session_is_written_from_heading_to_line_break() {
    let (output, errors) = transcript(vec![
        reasoning("let me add"),
        tool_call(),
        reasoning(" done"),
        text("It is"),
        text(" 3."),
        Ok(StreamedAssistantContent::final_response(9)),
    ]);
    assert_eq!(
        output,
        "Response: \nThinking: \nlet me add\nResult: 3\n done\n---\n\nIt is 3.\n\n"
    );
    assert_eq!(errors, "");
}

#[test]
fn a_session_leaves_off_at_its_first_error() {
    let (output, errors) = transcript(vec![
        text("part"),
        Err(CompletionError::HttpError("gone".to_string())),
        text("never shown"),
    ]);
    assert_eq!(output, "Response: part\n");
    assert_eq!(errors, "Error: HttpError: gone\n");
    let (output, errors) =
        transcript(vec![text("part"), Err(CompletionError::HttpError("aborted".to_string()))]);
    assert_eq!(output, "Response: part\nStream cancelled.\n\n");
    assert_eq!(errors, "");
}

#[test]
fn tools_are_called_and_responses_logged_in_order() {
    let named = |name: &str, arguments: &str| -> Result<Content, CompletionError> {
        Ok(StreamedAssistantContent::tool_call(
            "id",
            name,
            serde_json::from_str(arguments).unwrap(),
        ))
    };
    let items = vec![
        named("add", "[1, 2]"),
        text("between"),
        Ok(StreamedAssistantContent::final_response(4)),
        named("multiply", "{\"x\": 3}"),
        Ok(StreamedAssistantContent::final_response(5)),
    ];
    let (mut session, _) = StdoutSession::start();
    let mut calls = Vec::new();
    let mut logged = Vec::new();
    for item in items {
        match session.show(item) {
            StdoutAction::CallTool { name, arguments } => calls.push((name, arguments)),
            StdoutAction::LogResponse { response, .. } => logged.push(response),
            StdoutAction::Print(text) => assert_eq!(text, "between"),
            StdoutAction::Stop { .. } => panic!("no item is an error"),
        }
    }
    assert_eq!(
        calls,
        vec![
            ("add".to_string(), "[1,2]".to_string()),
            ("multiply".to_string(), "{\"x\":3}".to_string()),
        ]
    );
    assert_eq!(logged, vec![4, 5]);
}
