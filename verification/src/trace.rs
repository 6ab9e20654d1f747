//! Whole runs of the main loop: what a sequence of events amounts to, and what holds
//! of every such run.

use vstd::prelude::*;
use crate::event::{Callback, LoopEvent, SemanticEvent, WindowEvent};
use crate::cadence::{Schedule, FRAME_INTERVAL_NANOS};
use crate::main_loop::{
    callbacks_of, dispatched, ends_loop, schedule_of, state_after, LoopState,
};

verus! {

/// The state after `events` have been taken in order, starting in `state`.
pub open spec fn state_after_all<U, K, B, M, S, P, F>(
    state: LoopState<F>,
    events: Seq<LoopEvent<U, K, B, M, S, P, F>>,
) -> LoopState<F>
    decreases events.len(),
{
    if events.len() == 0 {
        state
    } else {
        state_after(state_after_all(state, events.drop_last()), events.last())
    }
}

/// All callbacks owed while `events` are taken in order, starting in `state`.
pub open spec fn trace<U, K, B, M, S, P, F>(
    state: LoopState<F>,
    events: Seq<LoopEvent<U, K, B, M, S, P, F>>,
) -> Seq<Callback<U, K, B, M, S, P, F>>
    decreases events.len(),
{
    if events.len() == 0 {
        seq![]
    } else {
        trace(state, events.drop_last()) + callbacks_of(
            state_after_all(state, events.drop_last()),
            events.last(),
        )
    }
}

/// Whether none of `events` ends the loop.
pub open spec fn none_ends_loop<U, K, B, M, S, P, F>(
    events: Seq<LoopEvent<U, K, B, M, S, P, F>>,
) -> bool {
    forall|i: int| 0 <= i < events.len() ==> !ends_loop(#[trigger] events[i])
}

/// The factor of the latest change of scale factor among `events`, or `start` where
/// there is none.
pub open spec fn latest_scale_factor<U, K, B, M, S, P, F>(
    start: F,
    events: Seq<LoopEvent<U, K, B, M, S, P, F>>,
) -> F
    decreases events.len(),
{
    if events.len() == 0 {
        start
    } else {
        match events.last() {
            LoopEvent::Window(WindowEvent::ScaleFactorChanged(factor)) => factor,
            _ => latest_scale_factor(start, events.drop_last()),
        }
    }
}

/// The messages among `events`, in the order in which they were queued.
pub open spec fn sent<U, K, B, M, S, P, F>(events: Seq<LoopEvent<U, K, B, M, S, P, F>>) -> Seq<U>
    decreases events.len(),
{
    if events.len() == 0 {
        seq![]
    } else {
        match events.last() {
            LoopEvent::User(message) => sent(events.drop_last()).push(message),
            _ => sent(events.drop_last()),
        }
    }
}

/// The messages that `callbacks` hand to the application, in order.
pub open spec fn received<U, K, B, M, S, P, F>(
    callbacks: Seq<Callback<U, K, B, M, S, P, F>>,
) -> Seq<U>
    decreases callbacks.len(),
{
    if callbacks.len() == 0 {
        seq![]
    } else {
        match callbacks.last() {
            Callback::Receive(message) => received(callbacks.drop_last()).push(message),
            _ => received(callbacks.drop_last()),
        }
    }
}

/// Taking two runs of events one after the other is taking them as one run: the
/// callbacks of the first run stand unchanged at the front, whatever follows.
pub proof fn lemma_trace_concat<U, K, B, M, S, P, F>(
    state: LoopState<F>,
    first: Seq<LoopEvent<U, K, B, M, S, P, F>>,
    second: Seq<LoopEvent<U, K, B, M, S, P, F>>,
)
    ensures
        state_after_all(state, first + second) == state_after_all(
            state_after_all(state, first),
            second,
        ),
        trace(state, first + second) == trace(state, first) + trace(
            state_after_all(state, first),
            second,
        ),
    decreases second.len(),
{
    if second.len() == 0 {
        assert(first + second == first);
    } else {
        lemma_trace_concat(state, first, second.drop_last());
        assert((first + second).drop_last() == first + second.drop_last());
        assert((first + second).last() == second.last());
    }
}

/// A running loop renders exactly once in an iteration, and before anything else.
pub proof fn lemma_one_render_first<U, K, B, M, S, P, F>(
    state: LoopState<F>,
    event: LoopEvent<U, K, B, M, S, P, F>,
)
    requires
        state.running,
    ensures
        callbacks_of(state, event).len() >= 1,
        callbacks_of(state, event)[0] is Render,
        forall|i: int|
            1 <= i < callbacks_of(state, event).len() ==> !(callbacks_of(state, event)[i] is Render),
{
}

/// As long as no event ends the loop it keeps running, under the factor of the latest
/// change of scale factor.
pub proof fn lemma_state_while_running<U, K, B, M, S, P, F>(
    state: LoopState<F>,
    events: Seq<LoopEvent<U, K, B, M, S, P, F>>,
)
    requires
        state.running,
        none_ends_loop(events),
    ensures
        state_after_all(state, events) == (LoopState {
            scale_factor: latest_scale_factor(state.scale_factor, events),
            running: true,
        }),
    decreases events.len(),
{
    if events.len() > 0 {
        let earlier = events.drop_last();
        assert forall|i: int| 0 <= i < earlier.len() implies !ends_loop(#[trigger] earlier[i]) by {
            assert(earlier[i] == events[i]);
        }
        lemma_state_while_running(state, earlier);
        assert(!ends_loop(events[events.len() - 1]));
    }
}

/// Every event that a running loop takes adds one render and then exactly what the
/// table of the translator gives for it, under the factor of the latest change of
/// scale factor handled before it; a message adds one render and its receive.
pub proof fn lemma_iteration_follows_table<U, K, B, M, S, P, F>(
    state: LoopState<F>,
    events: Seq<LoopEvent<U, K, B, M, S, P, F>>,
    at: int,
)
    requires
        state.running,
        0 <= at < events.len(),
        none_ends_loop(events.take(at)),
    ensures
        trace(state, events.take(at + 1)) == trace(state, events.take(at)) + seq![
            Callback::Render,
        ] + dispatched(events[at], latest_scale_factor(state.scale_factor, events.take(at))),
{
    lemma_state_while_running(state, events.take(at));
    assert(events.take(at + 1).drop_last() == events.take(at));
    assert(events.take(at + 1).last() == events[at]);
}

/// A resize is reported with the factor of the latest change of scale factor that was
/// handled before it, and with the starting factor where there was none: a change
/// that comes later does not touch it.
pub proof fn lemma_resize_uses_latest_factor<U, K, B, M, S, P, F>(
    state: LoopState<F>,
    events: Seq<LoopEvent<U, K, B, M, S, P, F>>,
    at: int,
    size: S,
)
    requires
        state.running,
        0 <= at < events.len(),
        none_ends_loop(events.take(at)),
        events[at] == LoopEvent::<U, K, B, M, S, P, F>::Window(WindowEvent::Resized(size)),
    ensures
        trace(state, events.take(at + 1)) == trace(state, events.take(at)) + seq![
            Callback::Render,
            Callback::Input(
                SemanticEvent::Resize {
                    size,
                    scale_factor: latest_scale_factor(state.scale_factor, events.take(at)),
                },
            ),
        ],
{
    lemma_iteration_follows_table(state, events, at);
}

/// A cursor move is reported with the factor of the latest change of scale factor that
/// was handled before it, and with the starting factor where there was none.
pub proof fn lemma_cursor_move_uses_latest_factor<U, K, B, M, S, P, F>(
    state: LoopState<F>,
    events: Seq<LoopEvent<U, K, B, M, S, P, F>>,
    at: int,
    position: P,
)
    requires
        state.running,
        0 <= at < events.len(),
        none_ends_loop(events.take(at)),
        events[at] == LoopEvent::<U, K, B, M, S, P, F>::Window(WindowEvent::CursorMoved(position)),
    ensures
        trace(state, events.take(at + 1)) == trace(state, events.take(at)) + seq![
            Callback::Render,
            Callback::Input(
                SemanticEvent::MoveCursor {
                    position,
                    scale_factor: latest_scale_factor(state.scale_factor, events.take(at)),
                },
            ),
        ],
{
    lemma_iteration_follows_table(state, events, at);
}

/// Splitting a run of callbacks splits the messages it hands over.
pub proof fn lemma_received_concat<U, K, B, M, S, P, F>(
    first: Seq<Callback<U, K, B, M, S, P, F>>,
    second: Seq<Callback<U, K, B, M, S, P, F>>,
)
    ensures
        received(first + second) == received(first) + received(second),
    decreases second.len(),
{
    if second.len() == 0 {
        assert(first + second == first);
    } else {
        lemma_received_concat(first, second.drop_last());
        assert((first + second).drop_last() == first + second.drop_last());
        assert((first + second).last() == second.last());
    }
}

/// One iteration hands the application the message of its event, where the event is
/// a message and the loop still runs, and no message otherwise.
pub proof fn lemma_received_in_iteration<U, K, B, M, S, P, F>(
    state: LoopState<F>,
    event: LoopEvent<U, K, B, M, S, P, F>,
)
    ensures
        received(callbacks_of(state, event)) == (match event {
            LoopEvent::User(message) if state.running => seq![message],
            _ => seq![],
        }),
{
    let callbacks = callbacks_of(state, event);
    assert forall|i: int| 0 <= i < callbacks.len() && !(event is User) implies !(callbacks[i] is Receive) by {}
    if state.running && event is User {
        let render = seq![Callback::<U, K, B, M, S, P, F>::Render];
        assert(callbacks.drop_last() == render);
        lemma_no_receive_no_message(render);
    } else {
        lemma_no_receive_no_message(callbacks);
    }
}

/// Callbacks without a receive among them hand over no message.
pub proof fn lemma_no_receive_no_message<U, K, B, M, S, P, F>(
    callbacks: Seq<Callback<U, K, B, M, S, P, F>>,
)
    requires
        forall|i: int| 0 <= i < callbacks.len() ==> !(#[trigger] callbacks[i] is Receive),
    ensures
        received(callbacks) == Seq::<U>::empty(),
    decreases callbacks.len(),
{
    if callbacks.len() > 0 {
        let earlier = callbacks.drop_last();
        assert forall|i: int| 0 <= i < earlier.len() implies !(#[trigger] earlier[i] is Receive) by {
            assert(earlier[i] == callbacks[i]);
        }
        lemma_no_receive_no_message(earlier);
        assert(!(callbacks[callbacks.len() - 1] is Receive));
    }
}

/// A loop that still runs after `events` was running before them, and none of them
/// ended it.
pub proof fn lemma_running_means_none_ended<U, K, B, M, S, P, F>(
    state: LoopState<F>,
    events: Seq<LoopEvent<U, K, B, M, S, P, F>>,
)
    requires
        state_after_all(state, events).running,
    ensures
        state.running,
        none_ends_loop(events),
    decreases events.len(),
{
    if events.len() > 0 {
        let earlier = events.drop_last();
        lemma_running_means_none_ended(state, earlier);
        assert forall|i: int| 0 <= i < events.len() implies !ends_loop(#[trigger] events[i]) by {
            if i < earlier.len() {
                assert(earlier[i] == events[i]);
            }
        }
    }
}

/// The messages queued before the loop ends reach the application in the order in
/// which they were queued, none lost and none twice, whatever window events lie
/// between them.
pub proof fn lemma_relay_keeps_order<U, K, B, M, S, P, F>(
    state: LoopState<F>,
    events: Seq<LoopEvent<U, K, B, M, S, P, F>>,
)
    requires
        state.running,
        none_ends_loop(events),
    ensures
        received(trace(state, events)) == sent(events),
    decreases events.len(),
{
    if events.len() > 0 {
        let earlier = events.drop_last();
        assert forall|i: int| 0 <= i < earlier.len() implies !ends_loop(#[trigger] earlier[i]) by {
            assert(earlier[i] == events[i]);
        }
        lemma_relay_keeps_order(state, earlier);
        lemma_state_while_running(state, earlier);
        let before = state_after_all(state, earlier);
        lemma_received_concat(trace(state, earlier), callbacks_of(before, events.last()));
        lemma_received_in_iteration(before, events.last());
    }
}

/// Whatever the events, and wherever among them the loop ends, the messages that
/// reach the application are the first of those queued, in the order in which they
/// were queued.
pub proof fn lemma_received_is_prefix_of_sent<U, K, B, M, S, P, F>(
    state: LoopState<F>,
    events: Seq<LoopEvent<U, K, B, M, S, P, F>>,
)
    ensures
        received(trace(state, events)).is_prefix_of(sent(events)),
    decreases events.len(),
{
    if events.len() > 0 {
        let earlier = events.drop_last();
        let before = state_after_all(state, earlier);
        lemma_received_is_prefix_of_sent(state, earlier);
        lemma_received_concat(trace(state, earlier), callbacks_of(before, events.last()));
        lemma_received_in_iteration(before, events.last());
        if before.running {
            lemma_running_means_none_ended(state, earlier);
            lemma_relay_keeps_order(state, earlier);
        }
    }
}

/// An iteration of a running loop ends with a wake-up one full frame interval after
/// its render, unless its event ends the loop; then, and ever after, the schedule is
/// to leave.
pub proof fn lemma_full_interval_or_exit<U, K, B, M, S, P, F>(
    state: LoopState<F>,
    event: LoopEvent<U, K, B, M, S, P, F>,
)
    ensures
        state.running && !ends_loop(event) ==> schedule_of(state, event) == (Schedule::WaitUntil {
            nanos_after_render: FRAME_INTERVAL_NANOS,
        }),
        !state.running || ends_loop(event) ==> schedule_of(state, event) == Schedule::Exit,
        state_after(state, event).running == (state.running && !ends_loop(event)),
{
}

/// A loop that has ended stays ended: whatever events still arrive, it owes the
/// application nothing and changes nothing.
pub proof fn lemma_ended_stays_ended<U, K, B, M, S, P, F>(
    state: LoopState<F>,
    events: Seq<LoopEvent<U, K, B, M, S, P, F>>,
)
    requires
        !state.running,
    ensures
        state_after_all(state, events) == state,
        trace(state, events) == Seq::<Callback<U, K, B, M, S, P, F>>::empty(),
    decreases events.len(),
{
    if events.len() > 0 {
        lemma_ended_stays_ended(state, events.drop_last());
    }
}

} // verus!
