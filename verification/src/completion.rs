//! What a completion comes to: a response, or an error.
use crate::message::AssistantContent;
use crate::one_or_many::OneOrMany;
use crate::trusted::str_contains;
use vstd::prelude::*;

verus! {

/// Why a completion failed. Each kind carries the text of its cause.
#[derive(Debug, PartialEq, Eq)]
pub enum CompletionError {
    /// The connection failed or timed out.
    HttpError(String),
    /// Something could not be read or written as JSON.
    JsonError(String),
    /// The request could not be built.
    RequestError(String),
    /// The response could not be understood.
    ResponseError(String),
    /// The provider of the model reported an error.
    ProviderError(String),
}

impl CompletionError {
    /// Whether the provider reported that the stream was aborted.
    pub open spec fn cancellation(self) -> bool {
        match self {
            CompletionError::ProviderError(cause) => crate::trusted::contains_text(cause@, "aborted"@),
            _ => false,
        }
    }

    /// The error in words: its kind, a colon and its cause.
    pub open spec fn rendered(self) -> Seq<char> {
        match self {
            CompletionError::HttpError(cause) => "HttpError: "@ + cause@,
            CompletionError::JsonError(cause) => "JsonError: "@ + cause@,
            CompletionError::RequestError(cause) => "RequestError: "@ + cause@,
            CompletionError::ResponseError(cause) => "ResponseError: "@ + cause@,
            CompletionError::ProviderError(cause) => "ProviderError: "@ + cause@,
        }
    }

    /// Whether this error stands for a stream that was cancelled: one that the
    /// provider reported, with "aborted" in its text.
    pub fn is_cancellation(&self) -> (cancelled: bool)
        ensures
            cancelled == self.cancellation(),
    {
        match self {
            CompletionError::ProviderError(cause) => str_contains(cause.as_str(), "aborted"),
            _ => false,
        }
    }

    /// The error as a line for people to read.
    pub fn message(&self) -> (message: String)
        ensures
            message@ == self.rendered(),
    {
        let (kind, cause) = match self {
            CompletionError::HttpError(cause) => ("HttpError: ", cause),
            CompletionError::JsonError(cause) => ("JsonError: ", cause),
            CompletionError::RequestError(cause) => ("RequestError: ", cause),
            CompletionError::ResponseError(cause) => ("ResponseError: ", cause),
            CompletionError::ProviderError(cause) => ("ProviderError: ", cause),
        };
        let mut message = kind.to_string();
        message.append(cause.as_str());
        message
    }
}

/// How many tokens a completion took.
#[derive(Clone, Copy, Debug, PartialEq, Eq)]
pub struct Usage {
    pub input_tokens: u64,
    pub output_tokens: u64,
    pub total_tokens: u64,
}

impl Usage {
    /// The usage of a completion whose tokens were not counted.
    pub open spec fn untracked() -> Usage {
        Usage { input_tokens: 0, output_tokens: 0, total_tokens: 0 }
    }

    /// A usage of no tokens.
    pub fn new() -> (usage: Usage)
        ensures
            usage == Usage::untracked(),
    {
        Usage { input_tokens: 0, output_tokens: 0, total_tokens: 0 }
    }
}

/// A completed response: the message, its usage, and what the provider sent.
#[derive(Clone, Debug)]
pub struct CompletionResponse<T> {
    pub choice: OneOrMany<AssistantContent>,
    pub usage: Usage,
    pub raw_response: T,
}

} // verus!
