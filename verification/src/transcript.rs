//! What a terminal session comes to as a whole: every word that it writes from
//! its heading to its closing line break, the tools that it calls and the
//! responses that it logs.
use crate::laws::ItemView;
use crate::progress::ChunkView;
use crate::stdout::ActionView;
use vstd::prelude::*;

verus! {

/// Something that a session takes in: an item of the stream and, if the item
/// is a tool call, what the tool returned or why it failed.
pub struct Shown<R> {
    pub item: ItemView<R>,
    pub result: Result<Seq<char>, Seq<char>>,
}

/// A tool that a session calls, and the arguments that it gives to it.
pub struct ToolRequest {
    pub name: Seq<char>,
    pub arguments: Seq<char>,
}

/// The course of a session that follows its actions one by one.
#[verifier::ext_equal]
pub struct Course<R> {
    /// Whether reasoning is being shown.
    pub reasoning: bool,
    /// Whether the session has left off.
    pub stopped: bool,
    /// The failure that the session returns.
    pub failure: Option<Seq<char>>,
    /// What has been written to standard output.
    pub output: Seq<char>,
    /// What has been written to standard error.
    pub error: Seq<char>,
    /// The tools that have been called.
    pub calls: Seq<ToolRequest>,
    /// The final responses that have been logged.
    pub logged: Seq<R>,
}

impl<R> Course<R> {
    /// The course once an action has been carried out. The result of a tool is
    /// written when the tool returns; a tool that fails ends the session, and
    /// so does a stop. Nothing is taken in after that.
    pub open spec fn taking(self, shown: Shown<R>) -> Course<R> {
        let moved = Course {
            reasoning: crate::stdout::reasoning_after(self.reasoning, shown.item),
            ..self
        };
        if self.stopped {
            self
        } else {
            match crate::stdout::action_for(self.reasoning, shown.item) {
                ActionView::Print(text) => Course { output: self.output + text, ..moved },
                ActionView::CallTool { name, arguments } => {
                    let called = Course {
                        calls: self.calls.push(ToolRequest { name, arguments }),
                        ..moved
                    };
                    match shown.result {
                        Ok(result) => Course {
                            output: self.output + crate::stdout::result_line(result),
                            ..called
                        },
                        Err(failure) => Course { stopped: true, failure: Some(failure), ..called },
                    }
                },
                ActionView::LogResponse { text, response } => Course {
                    output: self.output + text,
                    logged: self.logged.push(response),
                    ..moved
                },
                ActionView::Stop { output, error } => Course {
                    stopped: true,
                    output: self.output + output,
                    error: self.error + error,
                    ..moved
                },
            }
        }
    }
}

/// The course of a session that goes on from `start` and takes in `items`.
pub open spec fn continued<R>(start: Course<R>, items: Seq<Shown<R>>) -> Course<R>
    decreases items.len(),
{
    if items.len() == 0 {
        start
    } else {
        continued(start, items.drop_last()).taking(items.last())
    }
}

/// The course of a session that takes in `items`, up to where it closes.
pub open spec fn course<R>(items: Seq<Shown<R>>) -> Course<R> {
    continued(
        Course {
            reasoning: false,
            stopped: false,
            failure: None,
            output: crate::stdout::heading(),
            error: Seq::empty(),
            calls: Seq::empty(),
            logged: Seq::empty(),
        },
        items,
    )
}

/// All that a session for `items` writes to standard output. A session that
/// fails does not come to its closing.
pub open spec fn session_output<R>(items: Seq<Shown<R>>) -> Seq<char> {
    if course(items).failure is Some {
        course(items).output
    } else {
        course(items).output + crate::stdout::closing()
    }
}

/// The failure that a session for `items` returns, if it fails.
pub open spec fn session_failure<R>(items: Seq<Shown<R>>) -> Option<Seq<char>> {
    course(items).failure
}

/// All that a session for `items` writes to standard error.
pub open spec fn session_error<R>(items: Seq<Shown<R>>) -> Seq<char> {
    course(items).error
}

/// The tools that a session for `items` calls, in order.
pub open spec fn session_calls<R>(items: Seq<Shown<R>>) -> Seq<ToolRequest> {
    course(items).calls
}

/// The final responses that a session for `items` logs, in order.
pub open spec fn session_logged<R>(items: Seq<Shown<R>>) -> Seq<R> {
    course(items).logged
}

/// Whether the item at `i` is text.
pub open spec fn is_text<R>(items: Seq<Shown<R>>, i: int) -> bool {
    items[i].item matches Ok(ChunkView::Text(_))
}

/// Whether the item at `i` is reasoning.
pub open spec fn is_reasoning<R>(items: Seq<Shown<R>>, i: int) -> bool {
    items[i].item matches Ok(ChunkView::Reasoning(_))
}

/// Whether a reasoning section is open before the item at `end`: there was
/// reasoning, and no text since.
pub open spec fn in_reasoning<R>(items: Seq<Shown<R>>, end: int) -> bool {
    exists|start: int|
        0 <= start < end && #[trigger] is_reasoning(items, start) && forall|i: int|
            start < i < end ==> !#[trigger] is_text(items, i)
}

/// Why the tool that the item at `i` calls failed, if it did.
pub open spec fn tool_failure<R>(items: Seq<Shown<R>>, i: int) -> Option<Seq<char>> {
    match (items[i].item, items[i].result) {
        (Ok(ChunkView::ToolCall(_)), Err(failure)) => Some(failure),
        _ => None,
    }
}

/// Whether the item at `i` ends a session: an error, or a call of a tool that
/// failed.
pub open spec fn ends_at<R>(items: Seq<Shown<R>>, i: int) -> bool {
    items[i].item is Err || tool_failure(items, i) is Some
}

/// Whether one of the items before `end` ends the session.
pub open spec fn ended_before<R>(items: Seq<Shown<R>>, end: int) -> bool {
    exists|i: int| 0 <= i < end && #[trigger] ends_at(items, i)
}

/// The words of the item at `i` on standard output: text and reasoning as they
/// came, set apart where one follows the other; the result of a tool, unless it
/// failed; a line break for the final response; and a notice if the stream was
/// aborted.
pub open spec fn words_of<R>(items: Seq<Shown<R>>, i: int) -> Seq<char> {
    match items[i].item {
        Ok(ChunkView::Text(text)) => if in_reasoning(items, i) {
            crate::stdout::separator() + text
        } else {
            text
        },
        Ok(ChunkView::Reasoning(text)) => if in_reasoning(items, i) {
            text
        } else {
            crate::stdout::thinking_header() + text
        },
        Ok(ChunkView::ToolCall(_)) => match items[i].result {
            Ok(result) => crate::stdout::result_line(result),
            Err(_) => Seq::empty(),
        },
        Ok(ChunkView::Final(_)) => "\n"@,
        Err(error) => if crate::trusted::contains_text(error.rendered(), "aborted"@) {
            "\nStream cancelled.\n"@
        } else {
            ""@
        },
    }
}

/// The words of the item at `i` on standard error: the error, unless the
/// stream was aborted.
pub open spec fn complaint_of<R>(items: Seq<Shown<R>>, i: int) -> Seq<char> {
    match items[i].item {
        Err(error) => if crate::trusted::contains_text(error.rendered(), "aborted"@) {
            ""@
        } else {
            "Error: "@ + error.rendered() + "\n"@
        },
        Ok(_) => Seq::empty(),
    }
}

/// The words of the first `end` items on standard output, up to and with the
/// one that ends the session.
pub open spec fn words_until<R>(items: Seq<Shown<R>>, end: int) -> Seq<char>
    decreases end,
{
    if end <= 0 {
        Seq::empty()
    } else if ended_before(items, end - 1) {
        words_until(items, end - 1)
    } else {
        words_until(items, end - 1) + words_of(items, end - 1)
    }
}

/// The words of the first `end` items on standard error, up to and with the
/// one that ends the session.
pub open spec fn complaints_until<R>(items: Seq<Shown<R>>, end: int) -> Seq<char>
    decreases end,
{
    if end <= 0 {
        Seq::empty()
    } else if ended_before(items, end - 1) {
        complaints_until(items, end - 1)
    } else {
        complaints_until(items, end - 1) + complaint_of(items, end - 1)
    }
}

/// The failure among the first `end` items: that of the first tool that failed,
/// unless an error came before it.
pub open spec fn failure_until<R>(items: Seq<Shown<R>>, end: int) -> Option<Seq<char>>
    decreases end,
{
    if end <= 0 {
        None
    } else if ended_before(items, end - 1) {
        failure_until(items, end - 1)
    } else {
        tool_failure(items, end - 1)
    }
}

/// The tool calls among the first `end` items, in order, up to and with the item
/// that ends the session. A tool is called with its arguments as compact JSON.
pub open spec fn calls_until<R>(items: Seq<Shown<R>>, end: int) -> Seq<ToolRequest>
    decreases end,
{
    if end <= 0 {
        Seq::empty()
    } else {
        let before = calls_until(items, end - 1);
        match items[end - 1].item {
            Ok(ChunkView::ToolCall(call)) if !ended_before(items, end - 1) => before.push(
                ToolRequest {
                    name: call.name,
                    arguments: crate::trusted::json_text(call.arguments),
                },
            ),
            _ => before,
        }
    }
}

/// The final responses among the first `end` items, in order, up to the item
/// that ends the session.
pub open spec fn finals_until<R>(items: Seq<Shown<R>>, end: int) -> Seq<R>
    decreases end,
{
    if end <= 0 {
        Seq::empty()
    } else {
        let before = finals_until(items, end - 1);
        match items[end - 1].item {
            Ok(ChunkView::Final(response)) if !ended_before(items, end - 1) => before.push(
                response,
            ),
            _ => before,
        }
    }
}

/// A session calls exactly the tools that the items ask for, in their order and
/// with their arguments, and logs exactly the final responses among them, until
/// an item ends it. A tool that fails is the last that it calls.
pub proof fn law_calls_and_responses<R>(items: Seq<Shown<R>>)
    ensures
        session_calls(items) == calls_until(items, items.len() as int),
        session_logged(items) == finals_until(items, items.len() as int),
{
    lemma_course(items, items.len() as int);
    assert(items.take(items.len() as int) =~= items);
}

/// A session writes its heading, then the words of each item up to and with
/// the one that ends it, an error or a call of a tool that failed. It returns
/// the failure of that tool, and otherwise closes with a line break. On
/// standard error it writes the words of the error. Reasoning is under a
/// heading that stands until text comes, whatever tool calls and final
/// responses come in between.
pub proof fn law_transcript<R>(items: Seq<Shown<R>>)
    ensures
        session_output(items) == crate::stdout::heading() + words_until(items, items.len() as int)
            + (if failure_until(items, items.len() as int) is Some {
            Seq::empty()
        } else {
            crate::stdout::closing()
        }),
        session_error(items) == complaints_until(items, items.len() as int),
        session_failure(items) == failure_until(items, items.len() as int),
{
    lemma_course(items, items.len() as int);
    assert(items.take(items.len() as int) =~= items);
    assert(course(items).output + Seq::<char>::empty() =~= course(items).output);
}

/// The course of a session in terms of the items that it has taken in.
proof fn lemma_course<R>(items: Seq<Shown<R>>, end: int)
    requires
        0 <= end <= items.len(),
    ensures
        course(items.take(end)).stopped == ended_before(items, end),
        !ended_before(items, end) ==> course(items.take(end)).reasoning == in_reasoning(
            items,
            end,
        ),
        course(items.take(end)).output == crate::stdout::heading() + words_until(items, end),
        course(items.take(end)).error == complaints_until(items, end),
        course(items.take(end)).failure == failure_until(items, end),
        course(items.take(end)).calls == calls_until(items, end),
        course(items.take(end)).logged == finals_until(items, end),
        !ended_before(items, end) ==> failure_until(items, end) is None,
    decreases end,
{
    if end > 0 {
        let last = end - 1;
        lemma_course(items, last);
        assert(items.take(end).drop_last() =~= items.take(last));
        assert(items.take(end).last() == items[last]);
        lemma_ended_step(items, last);
        lemma_reasoning_step(items, last);
        assert(course(items.take(end)) == course(items.take(last)).taking(items[last]));
        assert(course(items.take(end)).output =~= crate::stdout::heading() + words_until(
            items,
            end,
        ));
        assert(course(items.take(end)).error =~= complaints_until(items, end));
    } else {
        assert(course(items.take(end)).output =~= crate::stdout::heading() + words_until(
            items,
            end,
        ));
    }
}

/// The session has ended before the next item if it had ended before this one,
/// or this one ends it.
proof fn lemma_ended_step<R>(items: Seq<Shown<R>>, last: int)
    requires
        0 <= last < items.len(),
    ensures
        ended_before(items, last + 1) == (ended_before(items, last) || ends_at(items, last)),
{
    if ended_before(items, last) {
        let i = choose|i: int| 0 <= i < last && #[trigger] ends_at(items, i);
        assert(ends_at(items, i));
    }
}

/// A reasoning section is open before the next item if this one is reasoning,
/// or one is open and this one is not text.
proof fn lemma_reasoning_step<R>(items: Seq<Shown<R>>, last: int)
    requires
        0 <= last < items.len(),
    ensures
        in_reasoning(items, last + 1) == (is_reasoning(items, last) || in_reasoning(items, last)
            && !is_text(items, last)),
{
    if is_reasoning(items, last) {
        assert(in_reasoning(items, last + 1));
    } else if in_reasoning(items, last) && !is_text(items, last) {
        let start = choose|start: int|
            0 <= start < last && #[trigger] is_reasoning(items, start) && forall|i: int|
                start < i < last ==> !#[trigger] is_text(items, i);
        assert(is_reasoning(items, start));
        assert(in_reasoning(items, last + 1));
    } else if in_reasoning(items, last + 1) {
        let start = choose|start: int|
            0 <= start < last + 1 && #[trigger] is_reasoning(items, start) && forall|i: int|
                start < i < last + 1 ==> !#[trigger] is_text(items, i);
        assert(start < last);
        assert(!is_text(items, last));
        assert(in_reasoning(items, last));
    }
}

/// Once a session has ended it writes nothing more than its closing, and
/// calls and logs nothing more, whatever the stream would still give.
pub proof fn law_nothing_after_the_end<R>(items: Seq<Shown<R>>, more: Seq<Shown<R>>, end: int)
    requires
        0 <= end < items.len(),
        ends_at(items, end),
    ensures
        session_output(items + more) == session_output(items),
        session_error(items + more) == session_error(items),
        session_failure(items + more) == session_failure(items),
        session_calls(items + more) == session_calls(items),
        session_logged(items + more) == session_logged(items),
    decreases more.len(),
{
    if more.len() > 0 {
        law_nothing_after_the_end(items, more.drop_last(), end);
        let shorter = items + more.drop_last();
        assert((items + more).drop_last() =~= shorter);
        lemma_course(shorter, shorter.len() as int);
        assert(shorter.take(shorter.len() as int) =~= shorter);
        assert(shorter[end] == items[end]);
        assert(ends_at(shorter, end));
        assert(ended_before(shorter, shorter.len() as int));
    } else {
        assert(items + more =~= items);
    }
}

/// Whether all items are text.
pub open spec fn all_text<R>(items: Seq<Shown<R>>) -> bool {
    forall|i: int| 0 <= i < items.len() ==> #[trigger] items[i].item matches Ok(ChunkView::Text(_))
}

/// Whether all items are reasoning.
pub open spec fn all_reasoning<R>(items: Seq<Shown<R>>) -> bool {
    forall|i: int|
        0 <= i < items.len() ==> #[trigger] items[i].item matches Ok(ChunkView::Reasoning(_))
}

/// Whether all items are calls of tools that return.
pub open spec fn all_calls<R>(items: Seq<Shown<R>>) -> bool {
    forall|i: int|
        0 <= i < items.len() ==> (#[trigger] items[i].item matches Ok(ChunkView::ToolCall(_)))
            && items[i].result is Ok
}

/// The words of chunks of text or reasoning, one after the other.
pub open spec fn plain_words<R>(items: Seq<Shown<R>>) -> Seq<char>
    decreases items.len(),
{
    if items.len() == 0 {
        Seq::empty()
    } else {
        plain_words(items.drop_last()) + match items.last().item {
            Ok(ChunkView::Text(text)) => text,
            Ok(ChunkView::Reasoning(text)) => text,
            _ => Seq::empty(),
        }
    }
}

/// The lines for the results of tool calls, one after the other.
pub open spec fn result_lines<R>(items: Seq<Shown<R>>) -> Seq<char>
    decreases items.len(),
{
    if items.len() == 0 {
        Seq::empty()
    } else {
        result_lines(items.drop_last()) + match items.last().result {
            Ok(result) => crate::stdout::result_line(result),
            Err(_) => Seq::empty(),
        }
    }
}

/// A session may be followed in two parts.
proof fn lemma_in_parts<R>(start: Course<R>, one: Seq<Shown<R>>, two: Seq<Shown<R>>)
    ensures
        continued(start, one + two) == continued(continued(start, one), two),
    decreases two.len(),
{
    if two.len() > 0 {
        lemma_in_parts(start, one, two.drop_last());
        assert((one + two).drop_last() =~= one + two.drop_last());
    } else {
        assert(one + two =~= one);
    }
}

/// What stands between a section and the one before it, each of them text or
/// reasoning.
pub open spec fn opening(was_reasoning: bool, is_reasoning: bool) -> Seq<char> {
    if was_reasoning == is_reasoning {
        Seq::empty()
    } else if is_reasoning {
        crate::stdout::thinking_header()
    } else {
        crate::stdout::separator()
    }
}

/// What a section of text or of reasoning adds to a session.
proof fn lemma_section_added<R>(start: Course<R>, items: Seq<Shown<R>>, reasoning: bool)
    requires
        !start.stopped,
        if reasoning {
            all_reasoning(items)
        } else {
            all_text(items)
        },
        items.len() > 0,
    ensures
        continued(start, items) == (Course {
            reasoning,
            output: start.output + opening(start.reasoning, reasoning) + plain_words(items),
            ..start
        }),
    decreases items.len(),
{
    let shorter = items.drop_last();
    assert(items[items.len() - 1].item == items.last().item);
    if items.len() > 1 {
        assert forall|i: int| 0 <= i < shorter.len() implies #[trigger] shorter[i].item
            == items[i].item by {}
        lemma_section_added(start, shorter, reasoning);
    } else {
        reveal_with_fuel(continued, 2);
        reveal_with_fuel(plain_words, 2);
    }
    assert(continued(start, items).output =~= start.output + opening(start.reasoning, reasoning)
        + plain_words(items));
}

/// What tool calls add to a session.
proof fn lemma_calls_added<R>(start: Course<R>, items: Seq<Shown<R>>)
    requires
        !start.stopped,
        all_calls(items),
    ensures
        continued(start, items) == (Course {
            output: start.output + result_lines(items),
            calls: continued(start, items).calls,
            ..start
        }),
    decreases items.len(),
{
    if items.len() > 0 {
        let last = items.len() - 1;
        assert(items[last].item matches Ok(ChunkView::ToolCall(_)));
        assert forall|i: int| 0 <= i < last implies (
        #[trigger] items.drop_last()[i].item matches Ok(ChunkView::ToolCall(_)))
            && items.drop_last()[i].result is Ok by {
            assert(items[i].item matches Ok(ChunkView::ToolCall(_)));
        }
        lemma_calls_added(start, items.drop_last());
    }
    assert(continued(start, items).output =~= start.output + result_lines(items));
}

/// A message of text alone is written as it is.
pub proof fn law_text_is_written_as_it_is<R>(items: Seq<Shown<R>>)
    requires
        all_text(items),
    ensures
        session_output(items) == crate::stdout::heading() + plain_words(items)
            + crate::stdout::closing(),
{
    let start = course(Seq::<Shown<R>>::empty());
    if items.len() > 0 {
        lemma_section_added(start, items, false);
    }
    assert(session_output(items) =~= crate::stdout::heading() + plain_words(items)
        + crate::stdout::closing());
}

/// Reasoning is written under one heading, however many chunks it comes in and
/// whatever tools are called in between; text after it is set off from it by
/// one separator.
pub proof fn law_reasoning_is_one_section<R>(
    thoughts: Seq<Shown<R>>,
    calls: Seq<Shown<R>>,
    more_thoughts: Seq<Shown<R>>,
    answer: Seq<Shown<R>>,
)
    requires
        thoughts.len() > 0,
        all_reasoning(thoughts),
        all_calls(calls),
        all_reasoning(more_thoughts),
        answer.len() > 0,
        all_text(answer),
    ensures
        session_output(thoughts + calls + more_thoughts + answer) == crate::stdout::heading()
            + crate::stdout::thinking_header() + plain_words(thoughts) + result_lines(calls)
            + plain_words(more_thoughts) + crate::stdout::separator() + plain_words(answer)
            + crate::stdout::closing(),
{
    let start = course(Seq::<Shown<R>>::empty());
    let one = continued(start, thoughts);
    let two = continued(one, calls);
    let three = continued(two, more_thoughts);
    lemma_in_parts(start, thoughts, calls);
    lemma_in_parts(start, thoughts + calls, more_thoughts);
    lemma_in_parts(start, thoughts + calls + more_thoughts, answer);
    lemma_section_added(start, thoughts, true);
    lemma_calls_added(one, calls);
    if more_thoughts.len() > 0 {
        lemma_section_added(two, more_thoughts, true);
    }
    lemma_section_added(three, answer, false);
    assert(session_output(thoughts + calls + more_thoughts + answer) =~= crate::stdout::heading()
        + crate::stdout::thinking_header() + plain_words(thoughts) + result_lines(calls)
        + plain_words(more_thoughts) + crate::stdout::separator() + plain_words(answer)
        + crate::stdout::closing());
}

} // verus!
