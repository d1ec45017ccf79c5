//! Streaming completions of a language model.
//!
//! A provider's stream brings chunks of text, of reasoning, tool calls and a
//! final response. [`streaming`] hands them on to a consumer and gathers the
//! whole message on the way; [`stdout`] decides how they are shown on a
//! terminal. Both take in events and give back what is to be done, so that
//! polling, awaiting and writing stay with their callers. The contracts speak
//! of the model in [`progress`]. [`calls`] holds what follows for single calls,
//! said of their arguments and results alone; [`laws`] what follows for whole
//! streams, and [`transcript`] what follows for whole sessions.

pub mod calls;
pub mod completion;
pub mod laws;
pub mod message;
pub mod one_or_many;
pub mod progress;
pub mod stdout;
pub mod streaming;
pub mod transcript;
pub mod trusted;
