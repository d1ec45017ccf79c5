//! Showing a streamed response on a terminal: which words go where, and when a
//! tool has to be called.
use crate::completion::CompletionError;
use crate::progress::ChunkView;
use crate::streaming::StreamedAssistantContent;
use crate::trusted::{json_to_string, str_contains};
use vstd::prelude::*;

verus! {

/// What a terminal session has to do next. Text is written as it stands, with
/// nothing added to it.
#[derive(Debug, PartialEq)]
pub enum StdoutAction<R> {
    /// Write the text to standard output and flush it.
    Print(String),
    /// Call the tool, and show with [`tool_result`] what it returns. If it
    /// fails, leave off without closing, and return that failure.
    CallTool { name: String, arguments: String },
    /// Write the text to standard output, and log the final response.
    LogResponse { text: String, response: R },
    /// Write the texts to standard output and standard error, and leave off.
    Stop { output: String, error: String },
}

/// An action as a mathematical value.
pub enum ActionView<R> {
    Print(Seq<char>),
    CallTool { name: Seq<char>, arguments: Seq<char> },
    LogResponse { text: Seq<char>, response: R },
    Stop { output: Seq<char>, error: Seq<char> },
}

impl<R> View for StdoutAction<R> {
    type V = ActionView<R>;

    open spec fn view(&self) -> ActionView<R> {
        match self {
            StdoutAction::Print(text) => ActionView::Print(text@),
            StdoutAction::CallTool { name, arguments } => ActionView::CallTool {
                name: name@,
                arguments: arguments@,
            },
            StdoutAction::LogResponse { text, response } => ActionView::LogResponse {
                text: text@,
                response: *response,
            },
            StdoutAction::Stop { output, error } => ActionView::Stop {
                output: output@,
                error: error@,
            },
        }
    }
}

/// What the consumer got: a chunk or an error, as a mathematical value.
pub open spec fn item_view<R>(
    item: Result<StreamedAssistantContent<R>, CompletionError>,
) -> Result<ChunkView<R>, CompletionError> {
    match item {
        Ok(content) => Ok(content@),
        Err(error) => Err(error),
    }
}

/// What a session starts with.
pub open spec fn heading() -> Seq<char> {
    "Response: "@
}

/// What a session closes with.
pub open spec fn closing() -> Seq<char> {
    "\n"@
}

/// How the result of a tool is shown.
pub open spec fn result_line(result: Seq<char>) -> Seq<char> {
    "\nResult: "@ + result + "\n"@
}

/// What stands before the first chunk of reasoning.
pub open spec fn thinking_header() -> Seq<char> {
    "\nThinking: \n"@
}

/// What stands between reasoning and the text after it.
pub open spec fn separator() -> Seq<char> {
    "\n---\n\n"@
}

/// Whether reasoning is being shown once `item` has been.
pub open spec fn reasoning_after<R>(
    reasoning: bool,
    item: Result<ChunkView<R>, CompletionError>,
) -> bool {
    match item {
        Ok(ChunkView::Text(_)) => false,
        Ok(ChunkView::Reasoning(_)) => true,
        _ => reasoning,
    }
}

/// What is to be done about `item`, given whether reasoning is being shown.
pub open spec fn action_for<R>(
    reasoning: bool,
    item: Result<ChunkView<R>, CompletionError>,
) -> ActionView<R> {
    match item {
        Ok(ChunkView::Text(text)) => ActionView::Print(
            if reasoning {
                separator() + text
            } else {
                text
            },
        ),
        Ok(ChunkView::Reasoning(text)) => ActionView::Print(
            if reasoning {
                text
            } else {
                thinking_header() + text
            },
        ),
        Ok(ChunkView::ToolCall(call)) => ActionView::CallTool {
            name: call.name,
            arguments: crate::trusted::json_text(call.arguments),
        },
        Ok(ChunkView::Final(response)) => ActionView::LogResponse { text: "\n"@, response },
        Err(error) => if crate::trusted::contains_text(error.rendered(), "aborted"@) {
            ActionView::Stop { output: "\nStream cancelled.\n"@, error: ""@ }
        } else {
            ActionView::Stop { output: ""@, error: "Error: "@ + error.rendered() + "\n"@ }
        },
    }
}

/// The state of a terminal session: whether reasoning is being shown.
#[derive(Clone, Copy, Debug, PartialEq, Eq)]
pub struct StdoutSession {
    is_reasoning: bool,
}

impl View for StdoutSession {
    type V = bool;

    closed spec fn view(&self) -> bool {
        self.is_reasoning
    }
}

impl StdoutSession {
    /// A session is seen as what it notes: whether reasoning is being shown.
    proof fn law_view(self)
        ensures
            self@ == self.is_reasoning,
    {
    }

    /// A new session, and the words it starts with.
    pub fn start() -> (started: (StdoutSession, String))
        ensures
            !started.0@,
            started.1@ == heading(),
    {
        (StdoutSession { is_reasoning: false }, "Response: ".to_string())
    }

    /// Takes in what the stream gave, and says what is to be done about it.
    pub fn show<R>(
        &mut self,
        item: Result<StreamedAssistantContent<R>, CompletionError>,
    ) -> (action: StdoutAction<R>)
        ensures
            action@ == action_for(old(self)@, item_view(item)),
            final(self)@ == reasoning_after(old(self)@, item_view(item)),
    {
        match item {
            Ok(StreamedAssistantContent::Text(text)) => {
                if self.is_reasoning {
                    self.is_reasoning = false;
                    let mut shown = "\n---\n\n".to_string();
                    shown.append(text.text.as_str());
                    StdoutAction::Print(shown)
                } else {
                    StdoutAction::Print(text.text)
                }
            },
            Ok(StreamedAssistantContent::ToolCall(call)) => {
                let arguments = json_to_string(&call.function.arguments);
                StdoutAction::CallTool { name: call.function.name, arguments }
            },
            Ok(StreamedAssistantContent::Final(response)) => {
                StdoutAction::LogResponse { text: "\n".to_string(), response }
            },
            Ok(StreamedAssistantContent::Reasoning(reasoning)) => {
                if self.is_reasoning {
                    StdoutAction::Print(reasoning.reasoning)
                } else {
                    self.is_reasoning = true;
                    let mut shown = "\nThinking: \n".to_string();
                    shown.append(reasoning.reasoning.as_str());
                    StdoutAction::Print(shown)
                }
            },
            Err(error) => {
                let message = error.message();
                if str_contains(message.as_str(), "aborted") {
                    StdoutAction::Stop {
                        output: "\nStream cancelled.\n".to_string(),
                        error: "".to_string(),
                    }
                } else {
                    let mut line = "Error: ".to_string();
                    line.append(message.as_str());
                    line.append("\n");
                    StdoutAction::Stop { output: "".to_string(), error: line }
                }
            },
        }
    }
}

/// What a called tool comes to: a line that shows its result or, if it failed,
/// the failure that the session ends with.
pub fn tool_result(result: Result<String, String>) -> (shown: Result<String, String>)
    ensures
        match result {
            Ok(result) => shown matches Ok(line) && line@ == result_line(result@),
            Err(failure) => shown == Err::<String, String>(failure),
        },
{
    match result {
        Ok(result) => {
            let mut shown = "\nResult: ".to_string();
            shown.append(result.as_str());
            shown.append("\n");
            Ok(shown)
        },
        Err(failure) => Err(failure),
    }
}

/// The line break that closes a session.
pub fn end() -> (shown: String)
    ensures
        shown@ == closing(),
{
    "\n".to_string()
}

} // verus!
