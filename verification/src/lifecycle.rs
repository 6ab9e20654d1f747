//! The lifecycle signal handed back to the state-management task, and the state
//! machine behind it.

use vstd::prelude::*;

verus! {

/// Whether the main loop still accepts updates.
#[derive(Clone, Copy, Debug, PartialEq, Eq, Structural)]
pub enum AppState {
    /// Keep producing updates.
    On,
    /// The main loop is gone: stop.
    Off,
}

/// The signal that answers one send attempt, going by that attempt alone.
pub open spec fn signal_for(accepted: bool) -> AppState {
    if accepted {
        AppState::On
    } else {
        AppState::Off
    }
}

/// The signal after one more send attempt: `On` lasts as long as every attempt is
/// accepted, and nothing leads out of `Off`.
pub open spec fn next_signal(current: AppState, accepted: bool) -> AppState {
    if current == AppState::On {
        signal_for(accepted)
    } else {
        AppState::Off
    }
}

/// The signal after a run of send attempts, oldest first, each accepted or refused.
pub open spec fn signal_after(attempts: Seq<bool>) -> AppState
    decreases attempts.len(),
{
    if attempts.len() == 0 {
        AppState::On
    } else {
        next_signal(signal_after(attempts.drop_last()), attempts.last())
    }
}

impl AppState {
    /// The signal for a send attempt that the main loop accepted or refused.
    pub fn from_accepted(accepted: bool) -> (signal: AppState)
        ensures
            signal == signal_for(accepted),
    {
        if accepted {
            AppState::On
        } else {
            AppState::Off
        }
    }

    /// Whether the task should keep producing updates.
    pub fn is_on(&self) -> (on: bool)
        ensures
            on == (*self == AppState::On),
    {
        match self {
            AppState::On => true,
            AppState::Off => false,
        }
    }
}

/// The lifecycle of the state-management task as the relay sees it: `On` from the
/// start, `Off` for good once a send attempt was refused.
#[derive(Clone, Copy, Debug, PartialEq, Eq)]
pub struct Lifecycle {
    signal: AppState,
}

impl View for Lifecycle {
    type V = AppState;

    closed spec fn view(&self) -> AppState {
        self.signal
    }
}

impl Lifecycle {
    /// The lifecycle of a task that has just started.
    pub fn new() -> (lifecycle: Self)
        ensures
            lifecycle@ == AppState::On,
    {
        Lifecycle { signal: AppState::On }
    }

    /// The current signal.
    pub fn signal(&self) -> (signal: AppState)
        ensures
            signal == self@,
    {
        self.signal
    }

    /// Takes note of one send attempt and answers with the signal for the task.
    pub fn record(&mut self, accepted: bool) -> (signal: AppState)
        ensures
            signal == next_signal(old(self)@, accepted),
            final(self)@ == signal,
    {
        if self.signal.is_on() {
            self.signal = AppState::from_accepted(accepted);
        }
        self.signal
    }
}

/// The signal is `On` exactly as long as no send attempt was refused.
pub proof fn lemma_on_iff_all_accepted(attempts: Seq<bool>)
    ensures
        signal_after(attempts) == AppState::On <==> forall|k: int|
            0 <= k < attempts.len() ==> attempts[k],
    decreases attempts.len(),
{
    if attempts.len() > 0 {
        let earlier = attempts.drop_last();
        lemma_on_iff_all_accepted(earlier);
        if signal_after(attempts) == AppState::On {
            assert forall|k: int| 0 <= k < attempts.len() implies attempts[k] by {
                if k < earlier.len() {
                    assert(earlier[k] == attempts[k]);
                }
            }
        } else if signal_after(earlier) != AppState::On {
            let k = choose|k: int| 0 <= k < earlier.len() && !earlier[k];
            assert(!attempts[k]);
        } else {
            assert(!attempts[attempts.len() - 1]);
        }
    }
}

/// Once the signal is `Off` it stays `Off`, whatever later send attempts do.
pub proof fn lemma_off_is_permanent(attempts: Seq<bool>, earlier: int, later: int)
    requires
        0 <= earlier <= later <= attempts.len(),
        signal_after(attempts.take(earlier)) == AppState::Off,
    ensures
        signal_after(attempts.take(later)) == AppState::Off,
    decreases later - earlier,
{
    if earlier < later {
        lemma_off_is_permanent(attempts, earlier, later - 1);
        assert(attempts.take(later).drop_last() == attempts.take(later - 1));
    }
}

} // verus!
