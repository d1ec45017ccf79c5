//! What holds of a streamed response as a whole, over any number of polls and
//! cancellations in any order.
use crate::completion::{CompletionError, CompletionResponse};
use crate::message::{ContentView, ToolCallView};
use crate::progress::{ChunkView, PollView, Progress, StreamPoll, StreamStep};
use crate::streaming::StreamingCompletionResponse;
use vstd::prelude::*;

verus! {

/// What can happen to a response: an outcome of polling its provider is taken
/// in, or it is cancelled.
pub enum Event<R> {
    Poll(PollView<R>),
    Cancel,
}

/// What a consumer is handed: a chunk or an error.
pub type ItemView<R> = Result<ChunkView<R>, CompletionError>;

/// Whether an event may take a response from `before` to `after`.
pub open spec fn follows<R: Clone>(
    before: Progress<R>,
    event: Event<R>,
    after: Progress<R>,
) -> bool {
    match event {
        Event::Poll(polled) => before.advances(polled, after),
        Event::Cancel => after == before.cancel(),
    }
}

/// Whether `states` are what a response goes through as `events` happen to it,
/// one after the other.
pub open spec fn runs<R: Clone>(states: Seq<Progress<R>>, events: Seq<Event<R>>) -> bool {
    &&& states.len() == events.len() + 1
    &&& forall|i: int|
        0 <= i < events.len() ==> follows(states[i], #[trigger] events[i], states[i + 1])
}

/// Whether a response is cancelled in the course of `events`.
pub open spec fn cancels<R>(events: Seq<Event<R>>) -> bool {
    exists|i: int| 0 <= i < events.len() && #[trigger] events[i] is Cancel
}

/// The polls that are taken in before the response is cancelled.
pub open spec fn heard<R>(events: Seq<Event<R>>) -> Seq<PollView<R>>
    decreases events.len(),
{
    if events.len() == 0 {
        Seq::empty()
    } else {
        match events.last() {
            Event::Poll(polled) if !cancels(events.drop_last()) => heard(events.drop_last()).push(
                polled,
            ),
            _ => heard(events.drop_last()),
        }
    }
}

/// The text that a poll brings.
pub open spec fn text_in<R>(polled: PollView<R>) -> Seq<char> {
    match polled {
        StreamPoll::Ready(Some(Ok(ChunkView::Text(text)))) => text,
        _ => Seq::empty(),
    }
}

/// The reasoning that a poll brings.
pub open spec fn reasoning_in<R>(polled: PollView<R>) -> Seq<char> {
    match polled {
        StreamPoll::Ready(Some(Ok(ChunkView::Reasoning(reasoning)))) => reasoning,
        _ => Seq::empty(),
    }
}

/// The tool call that a poll brings, if any.
pub open spec fn calls_in<R>(polled: PollView<R>) -> Seq<ToolCallView> {
    match polled {
        StreamPoll::Ready(Some(Ok(ChunkView::ToolCall(call)))) => seq![call],
        _ => Seq::empty(),
    }
}

/// The final response that a poll brings, if any.
pub open spec fn final_in<R>(polled: PollView<R>) -> Option<R> {
    match polled {
        StreamPoll::Ready(Some(Ok(ChunkView::Final(response)))) => Some(response),
        _ => None,
    }
}

/// The text of all polls, one after the other.
pub open spec fn text_of<R>(polls: Seq<PollView<R>>) -> Seq<char>
    decreases polls.len(),
{
    if polls.len() == 0 {
        Seq::empty()
    } else {
        text_of(polls.drop_last()) + text_in(polls.last())
    }
}

/// The reasoning of all polls, one after the other.
pub open spec fn reasoning_of<R>(polls: Seq<PollView<R>>) -> Seq<char>
    decreases polls.len(),
{
    if polls.len() == 0 {
        Seq::empty()
    } else {
        reasoning_of(polls.drop_last()) + reasoning_in(polls.last())
    }
}

/// The tool calls of all polls, in order.
pub open spec fn calls_of<R>(polls: Seq<PollView<R>>) -> Seq<ToolCallView>
    decreases polls.len(),
{
    if polls.len() == 0 {
        Seq::empty()
    } else {
        calls_of(polls.drop_last()) + calls_in(polls.last())
    }
}

/// The first final response among polls, if there is one.
pub open spec fn first_final<R>(polls: Seq<PollView<R>>) -> Option<R>
    decreases polls.len(),
{
    if polls.len() == 0 {
        None
    } else {
        match first_final(polls.drop_last()) {
            Some(response) => Some(response),
            None => final_in(polls.last()),
        }
    }
}

/// The items of polls that are for the consumer: all chunks and errors in
/// order, without final responses after the first, and without errors that
/// report an abort.
pub open spec fn deliverable<R>(polls: Seq<PollView<R>>) -> Seq<ItemView<R>>
    decreases polls.len(),
{
    if polls.len() == 0 {
        Seq::empty()
    } else {
        let before = deliverable(polls.drop_last());
        match polls.last() {
            StreamPoll::Ready(Some(Ok(ChunkView::Final(_))))
                if first_final(polls.drop_last()) is Some => before,
            StreamPoll::Ready(Some(Err(error))) if error.cancellation() => before,
            StreamPoll::Ready(Some(item)) => before.push(item),
            _ => before,
        }
    }
}

/// What a step hands to the consumer, if anything.
pub open spec fn item_in<R>(step: StreamStep<ChunkView<R>>) -> Option<ItemView<R>> {
    match step {
        StreamStep::Return(StreamPoll::Ready(item)) => item,
        _ => None,
    }
}

/// What an event hands to the consumer of a response in a given state, if
/// anything.
pub open spec fn item_at<R>(state: Progress<R>, event: Event<R>) -> Option<ItemView<R>> {
    match event {
        Event::Poll(polled) => item_in(state.reply(polled)),
        Event::Cancel => None,
    }
}

/// Everything that a run hands to the consumer, in order.
pub open spec fn delivered<R>(states: Seq<Progress<R>>, events: Seq<Event<R>>) -> Seq<ItemView<R>>
    decreases events.len(),
{
    if events.len() == 0 {
        Seq::empty()
    } else {
        let before = delivered(states, events.drop_last());
        match item_at(states[events.len() - 1], events.last()) {
            Some(item) => before.push(item),
            None => before,
        }
    }
}

/// The text in a message.
pub open spec fn message_text(choice: Seq<ContentView>) -> Seq<char>
    decreases choice.len(),
{
    if choice.len() == 0 {
        Seq::empty()
    } else {
        message_text(choice.drop_last()) + match choice.last() {
            ContentView::Text(text) => text,
            ContentView::ToolCall(_) => Seq::empty(),
        }
    }
}

/// The tool calls in a message.
pub open spec fn message_calls(choice: Seq<ContentView>) -> Seq<ToolCallView>
    decreases choice.len(),
{
    if choice.len() == 0 {
        Seq::empty()
    } else {
        message_calls(choice.drop_last()) + match choice.last() {
            ContentView::Text(_) => Seq::empty(),
            ContentView::ToolCall(call) => seq![call],
        }
    }
}

/// A run without its last event is a run.
proof fn lemma_runs_shorter<R: Clone>(states: Seq<Progress<R>>, events: Seq<Event<R>>)
    requires
        runs(states, events),
        events.len() > 0,
    ensures
        runs(states.drop_last(), events.drop_last()),
        follows(states.drop_last().last(), events.last(), states.last()),
{
    assert forall|i: int| 0 <= i < events.drop_last().len() implies follows(
        states.drop_last()[i],
        #[trigger] events.drop_last()[i],
        states.drop_last()[i + 1],
    ) by {
        assert(follows(states[i], events[i], states[i + 1]));
    }
    let last = events.len() - 1;
    assert(follows(states[last], events[last], states[last + 1]));
}

/// A run up to the event number `i` is a run.
proof fn lemma_runs_up_to<R: Clone>(states: Seq<Progress<R>>, events: Seq<Event<R>>, i: int)
    requires
        runs(states, events),
        0 <= i < states.len(),
    ensures
        runs(states.take(i + 1), events.take(i)),
{
    let so_far = events.take(i);
    assert forall|k: int| 0 <= k < so_far.len() implies follows(
        states.take(i + 1)[k],
        #[trigger] so_far[k],
        states.take(i + 1)[k + 1],
    ) by {
        assert(follows(states[k], events[k], states[k + 1]));
    }
}

/// Events cancel a response if all but the last do, or the last does.
proof fn lemma_cancels_shorter<R>(events: Seq<Event<R>>)
    requires
        events.len() > 0,
    ensures
        cancels(events) == (cancels(events.drop_last()) || events.last() is Cancel),
{
    let shorter = events.drop_last();
    if cancels(shorter) {
        let i = choose|i: int| 0 <= i < shorter.len() && #[trigger] shorter[i] is Cancel;
        assert(events[i] is Cancel);
    }
    if events.last() is Cancel {
        assert(events[events.len() - 1] is Cancel);
    }
    if cancels(events) && !(events.last() is Cancel) {
        let i = choose|i: int| 0 <= i < events.len() && #[trigger] events[i] is Cancel;
        assert(shorter[i] is Cancel);
    }
}

/// What a run hands out does not depend on the state after it.
proof fn lemma_delivered_shorter<R>(
    states: Seq<Progress<R>>,
    longer: Seq<Progress<R>>,
    events: Seq<Event<R>>,
)
    requires
        events.len() <= states.len() <= longer.len(),
        forall|i: int| 0 <= i < states.len() ==> #[trigger] states[i] == longer[i],
    ensures
        delivered(states, events) == delivered(longer, events),
    decreases events.len(),
{
    if events.len() > 0 {
        lemma_delivered_shorter(states, longer, events.drop_last());
        assert(states[events.len() - 1] == longer[events.len() - 1]);
    }
}

/// A poll adds what it brings to what a response has gathered.
proof fn lemma_step_gathers<R: Clone>(
    before: Progress<R>,
    polled: PollView<R>,
    after: Progress<R>,
)
    requires
        before.advances(polled, after),
        !before.cancelled,
    ensures
        after.text == before.text + text_in(polled),
        after.reasoning == before.reasoning + reasoning_in(polled),
        after.tool_calls == before.tool_calls + calls_in(polled),
        !after.cancelled,
{
    assert(after.text =~= before.text + text_in(polled));
    assert(after.reasoning =~= before.reasoning + reasoning_in(polled));
    assert(after.tool_calls =~= before.tool_calls + calls_in(polled));
}

/// A response gathers all text, all reasoning and all tool calls that the polls
/// bring until it is cancelled, in their order.
pub proof fn law_gathers_everything<R: Clone>(states: Seq<Progress<R>>, events: Seq<Event<R>>)
    requires
        runs(states, events),
        !states.first().cancelled,
    ensures
        states.last().text == states.first().text + text_of(heard(events)),
        states.last().reasoning == states.first().reasoning + reasoning_of(heard(events)),
        states.last().tool_calls == states.first().tool_calls + calls_of(heard(events)),
        states.last().cancelled == cancels(events),
    decreases events.len(),
{
    if events.len() > 0 {
        lemma_runs_shorter(states, events);
        lemma_cancels_shorter(events);
        law_gathers_everything(states.drop_last(), events.drop_last());
        match events.last() {
            Event::Poll(polled) => {
                if !cancels(events.drop_last()) {
                    lemma_step_gathers(states.drop_last().last(), polled, states.last());
                    assert(heard(events).drop_last() =~= heard(events.drop_last()));
                }
            },
            Event::Cancel => {},
        }
    } else {
        assert(!cancels(events));
    }
    assert(states.last().text =~= states.first().text + text_of(heard(events)));
    assert(states.last().reasoning =~= states.first().reasoning + reasoning_of(heard(events)));
    assert(states.last().tool_calls =~= states.first().tool_calls + calls_of(heard(events)));
}

/// When the stream of a fresh response ends, on its own or because it was
/// cancelled, the message is made up of all the text and all the tool calls
/// that had come until then, and of no reasoning.
pub proof fn law_end_collects_everything<R: Clone>(
    states: Seq<Progress<R>>,
    events: Seq<Event<R>>,
    polled: PollView<R>,
)
    requires
        runs(states, events),
        states.first() == Progress::<R>::fresh(),
        events.len() > 0,
        events.last() == Event::Poll(polled),
        polled == StreamPoll::<ChunkView<R>>::Ready(None) || cancels(events.drop_last()),
    ensures
        states.last().choice == crate::progress::collected(
            text_of(heard(events)),
            calls_of(heard(events)),
        ),
{
    lemma_runs_shorter(states, events);
    law_gathers_everything(states.drop_last(), events.drop_last());
    if !cancels(events.drop_last()) {
        assert(heard(events).drop_last() =~= heard(events.drop_last()));
    }
    assert(text_of(heard(events)) =~= states.drop_last().last().text);
    assert(calls_of(heard(events)) =~= states.drop_last().last().tool_calls);
}

/// Message texts and tool calls of a list of tool calls.
proof fn lemma_calls_only(calls: Seq<ToolCallView>)
    ensures
        message_text(calls.map_values(|call: ToolCallView| ContentView::ToolCall(call)))
            == Seq::<char>::empty(),
        message_calls(calls.map_values(|call: ToolCallView| ContentView::ToolCall(call))) == calls,
    decreases calls.len(),
{
    let message = calls.map_values(|call: ToolCallView| ContentView::ToolCall(call));
    if calls.len() > 0 {
        lemma_calls_only(calls.drop_last());
        assert(message.drop_last() =~= calls.drop_last().map_values(
            |call: ToolCallView| ContentView::ToolCall(call),
        ));
        assert(message_calls(message) =~= calls);
        assert(message_text(message) =~= Seq::<char>::empty());
    } else {
        assert(message_calls(message) =~= calls);
    }
}

/// Message texts and tool calls of a text before a message.
proof fn lemma_text_in_front(text: Seq<char>, rest: Seq<ContentView>)
    ensures
        message_text(seq![ContentView::Text(text)] + rest) == text + message_text(rest),
        message_calls(seq![ContentView::Text(text)] + rest) == message_calls(rest),
    decreases rest.len(),
{
    let message = seq![ContentView::Text(text)] + rest;
    if rest.len() > 0 {
        lemma_text_in_front(text, rest.drop_last());
        assert(message.drop_last() =~= seq![ContentView::Text(text)] + rest.drop_last());
        assert(message_text(message) =~= text + message_text(rest));
        assert(message_calls(message) =~= message_calls(rest));
    } else {
        reveal_with_fuel(message_text, 2);
        reveal_with_fuel(message_calls, 2);
        assert(message.drop_last() =~= Seq::<ContentView>::empty());
        assert(message_text(message) =~= text + message_text(rest));
        assert(message_calls(message) =~= message_calls(rest));
    }
}

/// A message is never empty, and holds exactly the text and the tool calls
/// that it was made of.
pub proof fn law_message_is_complete(text: Seq<char>, tool_calls: Seq<ToolCallView>)
    ensures
        crate::progress::collected(text, tool_calls).len() > 0,
        message_text(crate::progress::collected(text, tool_calls)) == text,
        message_calls(crate::progress::collected(text, tool_calls)) == tool_calls,
{
    let calls = tool_calls.map_values(|call: ToolCallView| ContentView::ToolCall(call));
    lemma_calls_only(tool_calls);
    lemma_text_in_front(text, calls);
    assert(text + Seq::<char>::empty() =~= text);
    if text.len() == 0 {
        assert(text =~= Seq::<char>::empty());
    }
}

/// Once a response is cancelled it has ended, whatever its provider would still
/// have sent and however often it is cancelled again: every later poll hands
/// out the end, and the message is what had come before.
pub proof fn law_cancelled_stream_has_ended<R: Clone>(
    states: Seq<Progress<R>>,
    events: Seq<Event<R>>,
    cancelled: int,
    later: int,
    polled: PollView<R>,
)
    requires
        runs(states, events),
        0 <= cancelled < later < events.len(),
        events[cancelled] is Cancel,
        events[later] == Event::Poll(polled),
    ensures
        states[later].reply(polled) == StreamStep::Return(
            StreamPoll::<ChunkView<R>>::Ready(None),
        ),
        states[later + 1] == (Progress {
            choice: crate::progress::collected(
                states[cancelled].text,
                states[cancelled].tool_calls,
            ),
            ..states[cancelled].cancel()
        }),
{
    lemma_nothing_after_cancel(states, events, cancelled, later);
    assert(follows(states[later], events[later], states[later + 1]));
}

/// After a cancel only the message changes.
proof fn lemma_nothing_after_cancel<R: Clone>(
    states: Seq<Progress<R>>,
    events: Seq<Event<R>>,
    cancelled: int,
    later: int,
)
    requires
        runs(states, events),
        0 <= cancelled < later < states.len(),
        events[cancelled] is Cancel,
    ensures
        states[later] == (Progress {
            choice: states[later].choice,
            ..states[cancelled].cancel()
        }),
    decreases later,
{
    assert(follows(states[later - 1], events[later - 1], states[later]));
    if cancelled < later - 1 {
        lemma_nothing_after_cancel(states, events, cancelled, later - 1);
    }
}

/// A response whose final response was handed out stays so, and keeps it.
proof fn lemma_response_stays<R: Clone>(
    states: Seq<Progress<R>>,
    events: Seq<Event<R>>,
    i: int,
    j: int,
)
    requires
        runs(states, events),
        0 <= i <= j < states.len(),
        states[i].final_response_yielded,
    ensures
        states[j].final_response_yielded,
        states[j].response == states[i].response,
    decreases j - i,
{
    if i < j {
        lemma_response_stays(states, events, i, j - 1);
        assert(follows(states[j - 1], events[j - 1], states[j]));
    }
}

/// The consumer is handed a final response at most once.
pub proof fn law_final_response_once<R: Clone>(
    states: Seq<Progress<R>>,
    events: Seq<Event<R>>,
    i: int,
    j: int,
)
    requires
        runs(states, events),
        0 <= i < events.len(),
        0 <= j < events.len(),
        item_at(states[i], events[i]) matches Some(Ok(ChunkView::Final(_))),
        item_at(states[j], events[j]) matches Some(Ok(ChunkView::Final(_))),
    ensures
        i == j,
{
    if i < j {
        assert(follows(states[i], events[i], states[i + 1]));
        lemma_response_stays(states, events, i + 1, j);
    } else if j < i {
        assert(follows(states[j], events[j], states[j + 1]));
        lemma_response_stays(states, events, j + 1, i);
    }
}

/// A fresh response keeps a clone of the first final response that comes before
/// it is cancelled, and none if none comes.
pub proof fn law_first_final_response_is_kept<R: Clone>(
    states: Seq<Progress<R>>,
    events: Seq<Event<R>>,
)
    requires
        runs(states, events),
        states.first() == Progress::<R>::fresh(),
    ensures
        states.last().final_response_yielded == (first_final(heard(events)) is Some),
        match first_final(heard(events)) {
            Some(response) => states.last().response matches Some(kept) && call_ensures(
                R::clone,
                (&response,),
                kept,
            ),
            None => states.last().response is None,
        },
    decreases events.len(),
{
    if events.len() > 0 {
        lemma_runs_shorter(states, events);
        law_first_final_response_is_kept(states.drop_last(), events.drop_last());
        law_gathers_everything(states.drop_last(), events.drop_last());
        match events.last() {
            Event::Poll(polled) => {
                if !cancels(events.drop_last()) {
                    assert(heard(events).drop_last() =~= heard(events.drop_last()));
                }
            },
            Event::Cancel => {},
        }
    }
}

/// A response is kept exactly if it has been handed out.
pub proof fn law_kept_exactly_if_handed_out<R: Clone>(
    states: Seq<Progress<R>>,
    events: Seq<Event<R>>,
)
    requires
        runs(states, events),
        states.first().response is Some <==> states.first().final_response_yielded,
    ensures
        states.last().response is Some <==> states.last().final_response_yielded,
    decreases events.len(),
{
    if events.len() > 0 {
        lemma_runs_shorter(states, events);
        law_kept_exactly_if_handed_out(states.drop_last(), events.drop_last());
    }
}

/// A response that is kept never changes any more, whatever events follow.
pub proof fn law_kept_response_never_changes<R: Clone>(
    states: Seq<Progress<R>>,
    events: Seq<Event<R>>,
    i: int,
    j: int,
)
    requires
        runs(states, events),
        states.first().response is Some <==> states.first().final_response_yielded,
        0 <= i <= j < states.len(),
        states[i].response is Some,
    ensures
        states[j].response == states[i].response,
{
    lemma_runs_up_to(states, events, i);
    law_kept_exactly_if_handed_out(states.take(i + 1), events.take(i));
    lemma_response_stays(states, events, i, j);
}

/// The consumer of a fresh response is handed every chunk and every error that
/// comes before a cancel, just as it came, in order and once each. Only final
/// responses after the first and errors that report an abort are left out.
pub proof fn law_items_are_handed_on<R: Clone>(states: Seq<Progress<R>>, events: Seq<Event<R>>)
    requires
        runs(states, events),
        states.first() == Progress::<R>::fresh(),
    ensures
        delivered(states, events) == deliverable(heard(events)),
    decreases events.len(),
{
    if events.len() > 0 {
        lemma_runs_shorter(states, events);
        law_items_are_handed_on(states.drop_last(), events.drop_last());
        lemma_delivered_shorter(states.drop_last(), states, events.drop_last());
        law_first_final_response_is_kept(states.drop_last(), events.drop_last());
        law_gathers_everything(states.drop_last(), events.drop_last());
        match events.last() {
            Event::Poll(polled) => {
                if !cancels(events.drop_last()) {
                    assert(heard(events).drop_last() =~= heard(events.drop_last()));
                }
            },
            Event::Cancel => {},
        }
    }
}

/// A poll that gave nothing yet, or an error, changes nothing.
pub proof fn law_failures_change_nothing<R: Clone>(
    before: Progress<R>,
    polled: PollView<R>,
    after: Progress<R>,
)
    requires
        before.advances(polled, after),
        !before.cancelled,
        polled is Pending || polled matches StreamPoll::Ready(Some(Err(_))),
    ensures
        after == before,
{
}

/// An error that reports an abort is the end of the stream; the consumer never
/// gets to see one. All other errors are handed on.
pub proof fn law_aborts_are_not_errors<R>(before: Progress<R>, error: CompletionError)
    ensures
        before.reply(StreamPoll::Ready(Some(Err(error)))) == StreamStep::Return(
            if before.cancelled || error.cancellation() {
                StreamPoll::<ChunkView<R>>::Ready(None)
            } else {
                StreamPoll::Ready(Some(Err(error)))
            },
        ),
        forall|polled: PollView<R>|
            #![trigger before.reply(polled)]
            before.reply(polled) matches StreamStep::Return(StreamPoll::Ready(Some(Err(shown))))
                ==> !shown.cancellation(),
{
}

/// A stream that has ended may be polled to its end again: nothing changes any
/// more.
pub proof fn law_end_is_final<R: Clone>(
    before: Progress<R>,
    ended: Progress<R>,
    again: Progress<R>,
)
    requires
        before.advances(StreamPoll::Ready(None), ended),
        ended.advances(StreamPoll::Ready(None), again),
    ensures
        again == ended,
{
}

/// Whether two responses have gathered the same, their final responses aside.
pub open spec fn alike<R>(one: Progress<R>, other: Progress<()>) -> bool {
    &&& one.text == other.text
    &&& one.reasoning == other.reasoning
    &&& one.tool_calls == other.tool_calls
    &&& one.choice == other.choice
    &&& one.response is Some <==> other.response is Some
    &&& one.final_response_yielded == other.final_response_yielded
    &&& one.cancelled == other.cancelled
}

/// An event with the final response taken out.
pub open spec fn erase_event<R>(event: Event<R>) -> Event<()> {
    match event {
        Event::Poll(polled) => Event::Poll(crate::progress::erase_poll(polled)),
        Event::Cancel => Event::Cancel,
    }
}

/// Taking the final response out of a stream changes nothing else: the same is
/// gathered, and the consumer is handed the same, final responses aside.
pub proof fn law_erasing_keeps_the_rest<R: Clone>(
    states: Seq<Progress<R>>,
    events: Seq<Event<R>>,
    erased: Seq<Progress<()>>,
)
    requires
        runs(states, events),
        runs(erased, events.map_values(|event: Event<R>| erase_event(event))),
        alike(states.first(), erased.first()),
    ensures
        forall|i: int| 0 <= i < states.len() ==> alike(#[trigger] states[i], erased[i]),
        forall|i: int|
            0 <= i < events.len() ==> match #[trigger] events[i] {
                Event::Poll(polled) => erased[i].reply(crate::progress::erase_poll(polled))
                    == crate::progress::erase_step(states[i].reply(polled)),
                Event::Cancel => true,
            },
{
    assert forall|i: int| 0 <= i < states.len() implies alike(#[trigger] states[i], erased[i]) by {
        lemma_alike_at(states, events, erased, i);
    }
    assert forall|i: int| 0 <= i < events.len() implies match #[trigger] events[i] {
        Event::Poll(polled) => erased[i].reply(crate::progress::erase_poll(polled))
            == crate::progress::erase_step(states[i].reply(polled)),
        Event::Cancel => true,
    } by {
        assert(alike(states[i], erased[i]));
    }
}

/// An erased run keeps step with the run it was made from.
proof fn lemma_alike_at<R: Clone>(
    states: Seq<Progress<R>>,
    events: Seq<Event<R>>,
    erased: Seq<Progress<()>>,
    i: int,
)
    requires
        runs(states, events),
        runs(erased, events.map_values(|event: Event<R>| erase_event(event))),
        alike(states.first(), erased.first()),
        0 <= i < states.len(),
    ensures
        alike(states[i], erased[i]),
    decreases i,
{
    if i > 0 {
        lemma_alike_at(states, events, erased, i - 1);
        let erased_events = events.map_values(|event: Event<R>| erase_event(event));
        assert(follows(states[i - 1], events[i - 1], states[i]));
        assert(follows(erased[i - 1], erased_events[i - 1], erased[i]));
    }
}

/// Whether a cancel comes before the event number `i`.
pub open spec fn cancelled_before<R>(events: Seq<Event<R>>, i: int) -> bool {
    exists|j: int| 0 <= j < i && #[trigger] events[j] is Cancel
}

/// Whether the event number `i` brings the final response `response`, and no
/// cancel comes before it.
pub open spec fn brings_final<R>(events: Seq<Event<R>>, i: int, response: R) -> bool {
    &&& 0 <= i < events.len()
    &&& events[i] == Event::Poll(
        StreamPoll::Ready(Some(Ok::<_, CompletionError>(ChunkView::Final(response)))),
    )
    &&& !cancelled_before(events, i)
}

/// Whether a final response comes before the event number `i`, and no cancel
/// before it.
pub open spec fn final_before<R>(events: Seq<Event<R>>, i: int) -> bool {
    exists|j: int, response: R| 0 <= j < i && #[trigger] brings_final(events, j, response)
}

/// Whether the event number `i` puts the message together: it is the end of
/// the provider's stream, or a poll after a cancel.
pub open spec fn puts_together<R>(events: Seq<Event<R>>, i: int) -> bool {
    &&& 0 <= i < events.len()
    &&& events[i] matches Event::Poll(polled) && (polled == StreamPoll::<ChunkView<R>>::Ready(None)
        || cancelled_before(events, i))
}

/// What a fresh response knows of the events before the one number `i`:
/// whether it is cancelled, and the first final response.
proof fn lemma_state_at<R: Clone>(states: Seq<Progress<R>>, events: Seq<Event<R>>, i: int)
    requires
        runs(states, events),
        states.first() == Progress::<R>::fresh(),
        0 <= i < states.len(),
    ensures
        states[i].cancelled == cancelled_before(events, i),
        states[i].final_response_yielded == final_before(events, i),
        !final_before(events, i) ==> states[i].response is None,
        forall|j: int, response: R|
            j < i && #[trigger] brings_final(events, j, response) && !final_before(events, j) ==> (
            states[i].response matches Some(kept) && call_ensures(R::clone, (&response,), kept)),
    decreases i,
{
    if i > 0 {
        let before = i - 1;
        lemma_state_at(states, events, before);
        assert(follows(states[before], events[before], states[i]));
        if cancelled_before(events, before) {
            let j = choose|j: int| 0 <= j < before && #[trigger] events[j] is Cancel;
            assert(0 <= j < i && events[j] is Cancel);
        }
        if events[before] is Cancel {
            assert(cancelled_before(events, i));
        }
        if final_before(events, before) {
            let (j, response) = choose|j: int, response: R|
                0 <= j < before && #[trigger] brings_final(events, j, response);
            assert(0 <= j < i && brings_final(events, j, response));
        }
        if let Event::Poll(StreamPoll::Ready(Some(Ok(ChunkView::Final(response)))))
            = events[before] {
            assert(brings_final(events, before, response) == !cancelled_before(events, before));
        }
        assert forall|j: int, response: R|
            j < i && #[trigger] brings_final(events, j, response) && !final_before(
                events,
                j,
            ) implies states[i].response matches Some(kept) && call_ensures(
            R::clone,
            (&response,),
            kept,
        ) by {
            if j < before {
                assert(final_before(events, before));
            }
        }
    }
}

/// What the consumer of a fresh response is answered, poll by poll. Without a
/// cancel before it, a poll is answered with the wait exactly if it gave
/// nothing yet, and with the end exactly if it gave the end or an error of the
/// provider that says "aborted"; after a cancel every poll is answered with the
/// end. Only a final response after another is passed over, and whatever else
/// comes is handed on as it came.
pub proof fn law_every_poll_is_answered<R: Clone>(
    states: Seq<Progress<R>>,
    events: Seq<Event<R>>,
    i: int,
    polled: PollView<R>,
)
    requires
        runs(states, events),
        states.first() == Progress::<R>::fresh(),
        0 <= i < events.len(),
        events[i] == Event::Poll(polled),
    ensures
        states[i].reply(polled) == StreamStep::Return(StreamPoll::<ChunkView<R>>::Pending) <==> {
            &&& polled is Pending
            &&& !cancelled_before(events, i)
        },
        states[i].reply(polled) == StreamStep::Return(StreamPoll::<ChunkView<R>>::Ready(None))
            <==> {
            ||| cancelled_before(events, i)
            ||| polled == StreamPoll::<ChunkView<R>>::Ready(None)
            ||| polled matches StreamPoll::Ready(Some(Err(error))) && crate::calls::reports_abort(
                error,
            )
        },
        states[i].reply(polled) is PollAgain <==> {
            &&& polled matches StreamPoll::Ready(Some(Ok(ChunkView::Final(_))))
            &&& !cancelled_before(events, i)
            &&& final_before(events, i)
        },
        states[i].reply(polled) matches StreamStep::Return(StreamPoll::Ready(Some(item))) ==> polled
            == StreamPoll::Ready(Some(item)),
{
    lemma_state_at(states, events, i);
    if let StreamPoll::Ready(Some(Err(CompletionError::ProviderError(cause)))) = polled {
        crate::calls::lemma_says_aborted(cause@);
    }
}

/// The message of a fresh response before the event number `i` is the one that
/// was last put together, or the empty text it started with.
proof fn lemma_message_at<R: Clone>(states: Seq<Progress<R>>, events: Seq<Event<R>>, i: int)
    requires
        runs(states, events),
        states.first() == Progress::<R>::fresh(),
        0 <= i < states.len(),
    ensures
        forall|e: int|
            #![trigger puts_together(events, e)]
            e < i && puts_together(events, e) && (forall|later: int|
                e < later < i ==> !#[trigger] puts_together(events, later)) ==> states[i].choice
                == crate::progress::collected(states[e].text, states[e].tool_calls),
        (forall|e: int| e < i ==> !#[trigger] puts_together(events, e)) ==> states[i].choice
            == seq![ContentView::Text(Seq::empty())],
    decreases i,
{
    if i > 0 {
        let before = i - 1;
        lemma_message_at(states, events, before);
        lemma_state_at(states, events, before);
        assert(follows(states[before], events[before], states[i]));
        if puts_together(events, before) {
            assert(states[i].choice == crate::progress::collected(
                states[before].text,
                states[before].tool_calls,
            ));
        } else {
            assert(states[i].choice == states[before].choice);
        }
        assert forall|e: int|
            #![trigger puts_together(events, e)]
            e < i && puts_together(events, e) && (forall|later: int|
                e < later < i ==> !#[trigger] puts_together(events, later)) implies states[i].choice
            == crate::progress::collected(states[e].text, states[e].tool_calls) by {
            if e < before {
                assert(!puts_together(events, before));
            }
        }
    }
}

/// What a fresh response comes to that goes through any events and is then
/// turned into a completed one. The completed response holds a clone of the
/// first final response that came before a cancel, and none exactly if there
/// was none. Its message is the text and the tool calls that had come when it
/// was last put together, part by part, and one empty text if it never was. No
/// tokens are counted.
pub proof fn law_completed_response<R: Clone, S>(
    states: Seq<Progress<R>>,
    events: Seq<Event<R>>,
    value: StreamingCompletionResponse<R, S>,
    completed: CompletionResponse<Option<R>>,
)
    requires
        runs(states, events),
        states.first() == Progress::<R>::fresh(),
        value@ == states.last(),
        call_ensures(
            <CompletionResponse<Option<R>> as From<StreamingCompletionResponse<R, S>>>::from,
            (value,),
            completed,
        ),
    ensures
        forall|i: int, response: R| #[trigger]
            brings_final(events, i, response) && !final_before(events, i) ==> (
            completed.raw_response matches Some(kept) && call_ensures(R::clone, (&response,), kept)),
        completed.raw_response is None <==> (forall|i: int, response: R|
            !#[trigger] brings_final(events, i, response)),
        forall|e: int|
            #![trigger puts_together(events, e)]
            puts_together(events, e) && (forall|later: int|
                e < later ==> !#[trigger] puts_together(events, later)) ==> crate::calls::is_message(
                completed.choice,
                text_of(heard(events.take(e))),
                calls_of(heard(events.take(e))),
            ),
        (forall|e: int| !#[trigger] puts_together(events, e)) ==> {
            &&& completed.choice.rest@.len() == 0
            &&& crate::calls::is_text_part(completed.choice.first, Seq::empty())
        },
        completed.usage.input_tokens == 0,
        completed.usage.output_tokens == 0,
        completed.usage.total_tokens == 0,
{
    let end = events.len() as int;
    lemma_state_at(states, events, end);
    lemma_message_at(states, events, end);
    law_kept_exactly_if_handed_out(states, events);
    if final_before(events, end) {
        let (i, response) = choose|i: int, response: R|
            0 <= i < end && #[trigger] brings_final(events, i, response);
        assert(brings_final(events, i, response));
    }
    assert(crate::message::contents_view(completed.choice@) == states.last().choice);
    assert forall|e: int|
        #![trigger puts_together(events, e)]
        puts_together(events, e) && (forall|later: int|
            e < later ==> !#[trigger] puts_together(events, later)) implies crate::calls::is_message(
        completed.choice,
        text_of(heard(events.take(e))),
        calls_of(heard(events.take(e))),
    ) by {
        lemma_runs_up_to(states, events, e);
        law_gathers_everything(states.take(e + 1), events.take(e));
        assert(states[e].text =~= text_of(heard(events.take(e))));
        assert(states[e].tool_calls =~= calls_of(heard(events.take(e))));
        crate::calls::lemma_is_message(completed.choice, states[e].text, states[e].tool_calls);
    }
    if forall|e: int| !#[trigger] puts_together(events, e) {
        let parts = crate::message::contents_view(completed.choice@);
        assert(parts.len() == 1 + completed.choice.rest@.len());
        assert(parts[0] == completed.choice.first@);
    }
}

} // verus!
