//! The main loop's decisions: what one iteration owes the application.

use vstd::prelude::*;
use crate::cadence::{schedule, schedule_for, Schedule};
use crate::event::{Callback, LoopEvent, SemanticEvent};
use crate::trace::{state_after_all, trace};
use crate::translate::{requests_exit, scale_factor_after, semantic_events, translate, Translation};

verus! {

/// What the main loop remembers between iterations.
pub struct LoopState<F> {
    /// The scale factor in force.
    pub scale_factor: F,
    /// Whether no close or destroy has been seen yet.
    pub running: bool,
}

/// The callbacks that a running loop owes for `event`, after the render.
pub open spec fn dispatched<U, K, B, M, S, P, F>(
    event: LoopEvent<U, K, B, M, S, P, F>,
    scale_factor: F,
) -> Seq<Callback<U, K, B, M, S, P, F>> {
    match event {
        LoopEvent::Window(window_event) => semantic_events(window_event, scale_factor).map_values(
            |input: SemanticEvent<K, B, M, S, P, F>| Callback::Input(input),
        ),
        LoopEvent::User(message) => seq![Callback::Receive(message)],
        LoopEvent::Other => seq![],
    }
}

/// Whether `event` ends the loop.
pub open spec fn ends_loop<U, K, B, M, S, P, F>(event: LoopEvent<U, K, B, M, S, P, F>) -> bool {
    event matches LoopEvent::Window(window_event) && requests_exit(window_event)
}

/// The callbacks of the iteration that takes `event` in `state`: one render, then what
/// the event stands for. A loop that has ended owes nothing.
pub open spec fn callbacks_of<U, K, B, M, S, P, F>(
    state: LoopState<F>,
    event: LoopEvent<U, K, B, M, S, P, F>,
) -> Seq<Callback<U, K, B, M, S, P, F>> {
    if state.running {
        seq![Callback::Render] + dispatched(event, state.scale_factor)
    } else {
        seq![]
    }
}

/// The state after the iteration that takes `event` in `state`.
pub open spec fn state_after<U, K, B, M, S, P, F>(
    state: LoopState<F>,
    event: LoopEvent<U, K, B, M, S, P, F>,
) -> LoopState<F> {
    if state.running {
        match event {
            LoopEvent::Window(window_event) => LoopState {
                scale_factor: scale_factor_after(window_event, state.scale_factor),
                running: !requests_exit(window_event),
            },
            _ => state,
        }
    } else {
        state
    }
}

/// The schedule that ends the iteration that takes `event` in `state`.
pub open spec fn schedule_of<U, K, B, M, S, P, F>(
    state: LoopState<F>,
    event: LoopEvent<U, K, B, M, S, P, F>,
) -> Schedule {
    schedule_for(!state.running || ends_loop(event))
}

/// The main loop's own state: the scale factor and whether the loop still runs.
#[derive(Clone, Debug, PartialEq, Eq)]
pub struct MainLoop<F> {
    scale_factor: F,
    running: bool,
}

impl<F> View for MainLoop<F> {
    type V = LoopState<F>;

    closed spec fn view(&self) -> LoopState<F> {
        LoopState { scale_factor: self.scale_factor, running: self.running }
    }
}

/// What one iteration decided.
#[derive(Debug)]
pub struct Iteration<U, K, B, M, S, P, F> {
    /// The invocations owed to the application, in order.
    pub callbacks: Vec<Callback<U, K, B, M, S, P, F>>,
    /// What the loop driver does next.
    pub schedule: Schedule,
}

impl<F: Copy> MainLoop<F> {
    /// A running loop under the scale factor that the window starts with.
    pub fn new(starting_scale_factor: F) -> (main_loop: Self)
        ensures
            main_loop@ == (LoopState { scale_factor: starting_scale_factor, running: true }),
    {
        MainLoop { scale_factor: starting_scale_factor, running: true }
    }

    /// The scale factor in force.
    pub fn scale_factor(&self) -> (factor: F)
        ensures
            factor == self@.scale_factor,
    {
        self.scale_factor
    }

    /// Whether the loop still runs.
    pub fn is_running(&self) -> (running: bool)
        ensures
            running == self@.running,
    {
        self.running
    }

    /// Takes one event: decides the callbacks of this iteration and the schedule that
    /// ends it, and moves to the next state.
    pub fn iterate<U, K: Copy, B, M, S, P>(&mut self, event: LoopEvent<U, K, B, M, S, P, F>) -> (iteration:
        Iteration<U, K, B, M, S, P, F>)
        ensures
            iteration.callbacks@ == callbacks_of(old(self)@, event),
            iteration.schedule == schedule_of(old(self)@, event),
            final(self)@ == state_after(old(self)@, event),
    {
        let mut callbacks: Vec<Callback<U, K, B, M, S, P, F>> = Vec::new();
        if !self.running {
            return Iteration { callbacks, schedule: schedule(true) };
        }
        callbacks.push(Callback::Render);
        let mut exit = false;
        match event {
            LoopEvent::Window(window_event) => {
                let Translation { events, scale_factor, exit: asked } = translate(
                    window_event,
                    self.scale_factor,
                );
                let ghost inputs = events@;
                for input in it: events.into_iter()
                    invariant
                        it.seq() == inputs,
                        callbacks@ == seq![Callback::<U, K, B, M, S, P, F>::Render] + inputs.take(
                            it.index() as int,
                        ).map_values(|input: SemanticEvent<K, B, M, S, P, F>| Callback::Input(input)),
                {
                    callbacks.push(Callback::Input(input));
                }
                self.scale_factor = scale_factor;
                self.running = !asked;
                exit = asked;
            },
            LoopEvent::User(message) => {
                callbacks.push(Callback::Receive(message));
            },
            LoopEvent::Other => {},
        }
        Iteration { callbacks, schedule: schedule(exit) }
    }

    /// Takes `events` in order and collects every callback owed on the way.
    pub fn run<U, K: Copy, B, M, S, P>(&mut self, events: Vec<LoopEvent<U, K, B, M, S, P, F>>) -> (callbacks:
        Vec<Callback<U, K, B, M, S, P, F>>)
        ensures
            callbacks@ == trace(old(self)@, events@),
            final(self)@ == state_after_all(old(self)@, events@),
    {
        let mut callbacks: Vec<Callback<U, K, B, M, S, P, F>> = Vec::new();
        let ghost start = self@;
        let ghost all = events@;
        for event in it: events.into_iter()
            invariant
                it.seq() == all,
                callbacks@ == trace(start, all.take(it.index() as int)),
                self@ == state_after_all(start, all.take(it.index() as int)),
        {
            let ghost taken = it.index() as int;
            assert(all.take(taken + 1).drop_last() == all.take(taken));
            assert(all.take(taken + 1).last() == event);
            let Iteration { callbacks: mut owed, schedule: _ } = self.iterate(event);
            callbacks.append(&mut owed);
        }
        assert(all.take(all.len() as int) == all);
        callbacks
    }
}

} // verus!
