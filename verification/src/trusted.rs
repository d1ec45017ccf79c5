//! What the library takes on trust: the types and functions of `futures`,
//! `serde_json` and the standard library that verified code holds or calls.
//!
//! An abort handle is shared state that changes behind shared references, so
//! no contract below says whether a stream has been aborted.
use vstd::prelude::*;

verus! {

/// The handle that aborts a stream from afar, carried as an opaque value.
#[verifier::external_type_specification]
#[verifier::external_body]
pub struct ExAbortHandle(futures::stream::AbortHandle);

/// The registration that ties a stream to its handle, carried as an opaque
/// value.
#[verifier::external_type_specification]
#[verifier::external_body]
pub struct ExAbortRegistration(futures::stream::AbortRegistration);

/// A stream that its handle can abort, carried as an opaque value.
#[verifier::external_type_specification]
#[verifier::external_body]
#[verifier::reject_recursive_types(T)]
pub struct ExAbortable<T>(futures::stream::Abortable<T>);

/// The marker that an aborted future resolves to. It occurs in an impl for
/// `futures::stream::Abortable` and nowhere in this library.
#[verifier::external_type_specification]
#[verifier::external_body]
pub struct ExAborted(futures::stream::Aborted);

/// A JSON value, carried as an opaque value.
#[verifier::external_type_specification]
#[verifier::external_body]
pub struct ExValue(serde_json::Value);

/// `futures::stream::AbortHandle::new_pair` makes a new handle and the
/// registration that belongs to it. Nothing is claimed of either value; which
/// pair a call made is expressed with `call_ensures` where it matters.
pub assume_specification[ futures::stream::AbortHandle::new_pair ]() -> (pair: (
    futures::stream::AbortHandle,
    futures::stream::AbortRegistration,
));

/// `futures::stream::Abortable::new` wraps a task so that the handle of the
/// registration can abort it. Nothing is claimed of the wrapper itself; which
/// task and registration it was made from is expressed with `call_ensures`.
pub assume_specification<T>[ futures::stream::Abortable::<T>::new ](
    task: T,
    reg: futures::stream::AbortRegistration,
) -> (wrapped: futures::stream::Abortable<T>);

/// `futures::stream::AbortHandle::abort` marks the stream of the handle as
/// aborted and wakes its task. Its effect is behind a shared reference, so
/// nothing is claimed of it.
pub assume_specification[ futures::stream::AbortHandle::abort ](
    handle: &futures::stream::AbortHandle,
);

/// `serde_json::Value::clone` gives the same JSON value once more.
pub assume_specification[ <serde_json::Value as Clone>::clone ](value: &serde_json::Value) -> (copy:
    serde_json::Value)
    ensures
        copy == *value,
;

/// The compact JSON text of a value.
pub uninterp spec fn json_text(value: serde_json::Value) -> Seq<char>;

/// `serde_json::Value::to_string` writes the value as compact JSON. The text
/// is a function of the value alone; what it looks like is left to
/// `serde_json`.
#[verifier::external_body]
pub(crate) fn json_to_string(value: &serde_json::Value) -> (text: String)
    ensures
        text@ == json_text(*value),
{
    value.to_string()
}

/// Whether `needle` stands in `haystack` at position `start`.
pub open spec fn occurs_at(haystack: Seq<char>, needle: Seq<char>, start: int) -> bool {
    &&& 0 <= start
    &&& start + needle.len() <= haystack.len()
    &&& haystack.subrange(start, start + needle.len()) == needle
}

/// Whether `needle` occurs in `haystack` as a run of consecutive characters.
pub open spec fn contains_text(haystack: Seq<char>, needle: Seq<char>) -> bool {
    exists|start: int| #[trigger] occurs_at(haystack, needle, start)
}

/// `str::contains` with a string pattern tells whether the pattern matches a
/// part of the string.
#[verifier::external_body]
pub(crate) fn str_contains(haystack: &str, needle: &str) -> (found: bool)
    ensures
        found == contains_text(haystack@, needle@),
{
    haystack.contains(needle)
}

} // verus!
