//! The pieces that an assistant's message is made of.
use serde_json::Value;
use vstd::prelude::*;

verus! {

/// Plain text.
#[derive(Clone, Debug, PartialEq)]
pub struct Text {
    pub text: String,
}

impl View for Text {
    type V = Seq<char>;

    open spec fn view(&self) -> Seq<char> {
        self.text@
    }
}

/// What the model thought on its way to an answer.
#[derive(Clone, Debug, PartialEq)]
pub struct Reasoning {
    pub reasoning: String,
}

impl View for Reasoning {
    type V = Seq<char>;

    open spec fn view(&self) -> Seq<char> {
        self.reasoning@
    }
}

/// The function that a tool call names, with its arguments as JSON.
#[derive(Debug, PartialEq)]
pub struct ToolFunction {
    pub name: String,
    pub arguments: Value,
}

/// A call of a tool that the model asks for.
#[derive(Debug, PartialEq)]
pub struct ToolCall {
    pub id: String,
    pub call_id: Option<String>,
    pub function: ToolFunction,
}

/// A tool call as a mathematical value.
pub struct ToolCallView {
    pub id: Seq<char>,
    pub call_id: Option<Seq<char>>,
    pub name: Seq<char>,
    pub arguments: Value,
}

/// The characters of an optional string.
pub open spec fn optional_text(text: Option<String>) -> Option<Seq<char>> {
    match text {
        Some(text) => Some(text@),
        None => None,
    }
}

impl View for ToolCall {
    type V = ToolCallView;

    open spec fn view(&self) -> ToolCallView {
        ToolCallView {
            id: self.id@,
            call_id: optional_text(self.call_id),
            name: self.function.name@,
            arguments: self.function.arguments,
        }
    }
}

impl Clone for ToolFunction {
    fn clone(&self) -> (copy: ToolFunction)
        ensures
            copy == *self,
    {
        ToolFunction { name: self.name.clone(), arguments: self.arguments.clone() }
    }
}

impl Clone for ToolCall {
    fn clone(&self) -> (copy: ToolCall)
        ensures
            copy == *self,
    {
        let call_id = match &self.call_id {
            Some(call_id) => Some(call_id.clone()),
            None => None,
        };
        ToolCall { id: self.id.clone(), call_id, function: self.function.clone() }
    }
}

/// One part of an assistant's message.
#[derive(Clone, Debug, PartialEq)]
pub enum AssistantContent {
    Text(Text),
    ToolCall(ToolCall),
}

/// A part of an assistant's message as a mathematical value.
pub enum ContentView {
    Text(Seq<char>),
    ToolCall(ToolCallView),
}

impl View for AssistantContent {
    type V = ContentView;

    open spec fn view(&self) -> ContentView {
        match self {
            AssistantContent::Text(text) => ContentView::Text(text@),
            AssistantContent::ToolCall(call) => ContentView::ToolCall(call@),
        }
    }
}

impl AssistantContent {
    /// A text part.
    pub fn text(text: &str) -> (content: AssistantContent)
        ensures
            content@ == ContentView::Text(text@),
    {
        AssistantContent::Text(Text { text: text.to_string() })
    }
}

/// The parts of a message as mathematical values.
pub open spec fn contents_view(contents: Seq<AssistantContent>) -> Seq<ContentView> {
    contents.map_values(|content: AssistantContent| content@)
}

} // verus!
