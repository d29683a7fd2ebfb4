//! What holds of every run of the keep-alive state machine.

use crate::event::{field_lines, line_text, line_text_fn, wire, FieldKind, FieldLine};
use crate::stream::{
    keep_alive_text, start, step, ActionView, EventView, KeepAliveOptionView, KeepAliveView,
};
use crate::text::decimal;
use vstd::prelude::*;

verus! {

/// A run: the state after the events in order, and the action that answered each.
pub open spec fn run(s: KeepAliveView, events: Seq<EventView>) -> (KeepAliveView, Seq<ActionView>)
    decreases events.len(),
{
    if events.len() == 0 {
        (s, Seq::empty())
    } else {
        let before = run(s, events.drop_last());
        let last = step(before.0, events.last());
        (last.0, before.1.push(last.1))
    }
}

/// Whether the inner stream's end is among the events.
pub open spec fn ended(events: Seq<EventView>) -> bool {
    exists|j: int| 0 <= j < events.len() && events[j] is End
}

/// The number of keep-alive lines among the actions.
pub open spec fn keep_alive_count(actions: Seq<ActionView>) -> nat
    decreases actions.len(),
{
    if actions.len() == 0 {
        0
    } else {
        keep_alive_count(actions.drop_last()) + if actions.last() is KeepAlive {
            1nat
        } else {
            0nat
        }
    }
}

/// The items that the inner stream yielded before it ended, in order.
pub open spec fn inner_items(events: Seq<EventView>) -> Seq<Seq<char>>
    decreases events.len(),
{
    if events.len() == 0 {
        Seq::empty()
    } else {
        let front = inner_items(events.drop_last());
        match events.last() {
            EventView::Item(text) => if ended(events.drop_last()) {
                front
            } else {
                front.push(text)
            },
            _ => front,
        }
    }
}

/// The items that the actions forward, in order.
pub open spec fn forwarded(actions: Seq<ActionView>) -> Seq<Seq<char>>
    decreases actions.len(),
{
    if actions.len() == 0 {
        Seq::empty()
    } else {
        let front = forwarded(actions.drop_last());
        match actions.last() {
            ActionView::Forward(text) => front.push(text),
            _ => front,
        }
    }
}

/// Whether the timer was polled only on request: every `Tick` or `NoTick` directly
/// follows an action `PollTimer`.
pub open spec fn timer_on_request(events: Seq<EventView>, actions: Seq<ActionView>) -> bool {
    forall|i: int|
        0 <= i < events.len() && (#[trigger] events[i] is Tick || events[i] is NoTick) ==> i > 0
            && actions[i - 1] is PollTimer
}

/// A run answers every event with one action, and the run of a prefix of the events is
/// the prefix of the run.
pub proof fn lemma_run_prefix(s: KeepAliveView, events: Seq<EventView>, n: int)
    requires
        0 <= n <= events.len(),
    ensures
        run(s, events).1.len() == events.len(),
        run(s, events.take(n)).1 == run(s, events).1.take(n),
    decreases events.len(),
{
    if events.len() == 0 {
    } else if n == events.len() {
        lemma_run_prefix(s, events.drop_last(), n - 1);
        assert(events.take(n) =~= events);
    } else {
        lemma_run_prefix(s, events.drop_last(), n);
        assert(events.drop_last().take(n) =~= events.take(n));
    }
}

/// The action at each place is the step from the state that the earlier events left.
pub proof fn lemma_run_at(s: KeepAliveView, events: Seq<EventView>, i: int)
    requires
        0 <= i < events.len(),
    ensures
        run(s, events).1.len() == events.len(),
        run(s, events).1[i] == step(run(s, events.take(i)).0, events[i]).1,
{
    lemma_run_prefix(s, events, i + 1);
    let upto = events.take(i + 1);
    assert(upto.drop_last() =~= events.take(i));
    assert(run(s, upto).1.last() == run(s, events).1.take(i + 1)[i]);
}

/// What a run leaves of the state it started in: interval and prefix stay, the count of
/// keep-alive lines grows by those yielded, and the run is over exactly when it was over
/// before or the inner stream's end is among the events.
pub proof fn lemma_run_state(s: KeepAliveView, events: Seq<EventView>)
    ensures
        run(s, events).0.interval == s.interval,
        run(s, events).0.prefix == s.prefix,
        run(s, events).0.sent == s.sent + keep_alive_count(run(s, events).1),
        run(s, events).0.done == (s.done || ended(events)),
    decreases events.len(),
{
    if events.len() > 0 {
        let front = events.drop_last();
        lemma_run_state(s, front);
        assert(run(s, events).1.drop_last() =~= run(s, front).1);
        if ended(front) {
            let j = choose|j: int| 0 <= j < front.len() && front[j] is End;
        }
        if ended(events) && !ended(front) {
            let j = choose|j: int| 0 <= j < events.len() && events[j] is End;
            if j < front.len() {
                assert(front[j] is End);
            }
        }
        if events.last() is End {
        }
    }
}

/// Counter: the keep-alive lines of a stream carry the numbers 0, 1, 2, ... in the
/// order in which they are yielded, each the number of keep-alive lines before it.
pub proof fn lemma_keep_alive_numbers(
    option: KeepAliveOptionView,
    events: Seq<EventView>,
    i: int,
)
    requires
        0 <= i < events.len(),
        run(start(option), events).1[i] is KeepAlive,
    ensures
        run(start(option), events).1[i] == ActionView::KeepAlive(
            keep_alive_text(
                option.prefix(),
                keep_alive_count(run(start(option), events).1.take(i)),
            ),
        ),
{
    let s = start(option);
    lemma_run_at(s, events, i);
    lemma_run_prefix(s, events, i);
    lemma_run_state(s, events.take(i));
}

/// Termination: the output completes exactly when the inner stream does. The event that
/// reports the inner stream's end is answered by `Finish`, whatever the timer holds, and
/// so is every later event; no earlier event is.
pub proof fn lemma_finish_with_inner_stream(
    option: KeepAliveOptionView,
    events: Seq<EventView>,
    i: int,
)
    requires
        0 <= i < events.len(),
    ensures
        run(start(option), events).0.done == ended(events),
        run(start(option), events).1[i] is Finish <==> ended(events.take(i + 1)),
{
    let s = start(option);
    lemma_run_state(s, events);
    lemma_run_at(s, events, i);
    lemma_run_state(s, events.take(i));
    let upto = events.take(i + 1);
    if ended(events.take(i)) {
        let j = choose|j: int| 0 <= j < events.take(i).len() && events.take(i)[j] is End;
    }
    if events[i] is End {
        assert(upto[i] is End);
    }
    if ended(upto) {
        let j = choose|j: int| 0 <= j < upto.len() && upto[j] is End;
        if j < i {
        }
    }
}

/// Bias: an item of the inner stream is yielded in the very turn that reports it, as it
/// is, whether or not the timer has fired.
pub proof fn lemma_item_is_forwarded(option: KeepAliveOptionView, events: Seq<EventView>, i: int)
    requires
        0 <= i < events.len(),
        events[i] is Item,
        !ended(events.take(i)),
    ensures
        run(start(option), events).1[i] == ActionView::Forward(events[i]->Item_0),
{
    let s = start(option);
    lemma_run_at(s, events, i);
    lemma_run_state(s, events.take(i));
}

/// Bias: the timer is asked for only in a turn in which the inner stream had nothing
/// ready, and a keep-alive line answers nothing but a tick.
pub proof fn lemma_timer_after_idle(option: KeepAliveOptionView, events: Seq<EventView>, i: int)
    requires
        0 <= i < events.len(),
    ensures
        run(start(option), events).1[i] is PollTimer <==> events[i] is Idle && !ended(
            events.take(i),
        ),
        run(start(option), events).1[i] is KeepAlive ==> events[i] is Tick,
{
    let s = start(option);
    lemma_run_at(s, events, i);
    lemma_run_state(s, events.take(i));
}

/// Bias: where the timer is polled only on request, a keep-alive line is yielded only
/// directly after a turn in which the inner stream had nothing ready. A keep-alive line
/// never takes the place of an item that is ready.
pub proof fn lemma_keep_alive_only_when_idle(
    option: KeepAliveOptionView,
    events: Seq<EventView>,
    i: int,
)
    requires
        0 <= i < events.len(),
        timer_on_request(events, run(start(option), events).1),
        run(start(option), events).1[i] is KeepAlive,
    ensures
        i > 0,
        events[i - 1] is Idle,
{
    lemma_timer_after_idle(option, events, i);
    lemma_timer_after_idle(option, events, i - 1);
}

/// Every item that the inner stream yields before it ends is forwarded, as it is and
/// in order, and nothing else is.
pub proof fn lemma_items_in_order(option: KeepAliveOptionView, events: Seq<EventView>)
    ensures
        forwarded(run(start(option), events).1) == inner_items(events),
    decreases events.len(),
{
    let s = start(option);
    if events.len() > 0 {
        let front = events.drop_last();
        lemma_items_in_order(option, front);
        lemma_run_state(s, front);
        assert(run(s, events).1.drop_last() =~= run(s, front).1);
    }
}

/// A keep-alive line is the encoding of an event that is a comment and nothing else:
/// the prefix followed by the number.
pub proof fn lemma_keep_alive_is_a_comment(prefix: Seq<char>, n: nat)
    ensures
        keep_alive_text(prefix, n) == wire(
            crate::event::EventView {
                comment: Some(prefix + decimal(n)),
                retry: None,
                id: None,
                type_: None,
                data: None,
            },
        ),
{
    let e = crate::event::EventView {
        comment: Some(prefix + decimal(n)),
        retry: None,
        id: None,
        type_: None,
        data: None,
    };
    let line = FieldLine { kind: FieldKind::Comment, value: prefix + decimal(n) };
    seq![line].lemma_flat_map_singleton(line_text_fn());
}

} // verus!
