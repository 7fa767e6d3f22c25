//! The policy of a watch that repeats its check: which failures end it and
//! which are only logged. The first cycle fails loudly, so that a mistake
//! in the configuration shows at once; later cycles survive a provider
//! that is down for a while. A notification may fail loudly until one has
//! gone through; after that a failing channel is only logged. Trouble with
//! the stored fingerprint always ends the watch.

use crate::error::ErrorView;
use crate::LibError;
use vstd::prelude::*;

verus! {

/// How one cycle went.
#[derive(Debug)]
pub enum CycleOutcome {
    /// The provider could not be asked, or did not answer properly.
    CheckFailed(LibError),
    /// The fingerprint could not be computed, read or written.
    StorageFailed(LibError),
    /// The result is the one on record.
    Unchanged,
    /// The result was new and has been reported.
    Notified,
    /// The result was new and is on record, and could not be reported.
    NotifyFailed(LibError),
}

/// How a watch runs.
#[derive(Clone, Copy, Debug, PartialEq, Eq, Structural)]
pub enum WatchMode {
    /// One cycle and no more.
    Once,
    /// Cycle after cycle, with this many seconds of sleep between two.
    Every(u64),
}

/// What a watch remembers from one cycle to the next.
#[derive(Clone, Copy, Debug, PartialEq, Eq, Structural)]
pub struct WatchState {
    /// Whether no cycle has been completed yet.
    pub first_cycle: bool,
    /// Whether a notification has gone through.
    pub notified: bool,
}

/// What to do after a cycle.
#[derive(Debug)]
pub enum WatchStep {
    /// Sleep, then run the next cycle; the failure, if there is one, is
    /// for the log.
    Sleep { seconds: u64, logged: Option<LibError> },
    /// End the watch with this result.
    Finish(Result<(), LibError>),
}

/// What a `WatchStep` holds, with every failure as its view.
pub enum WatchStepView {
    Sleep { seconds: u64, logged: Option<ErrorView> },
    Finish(Result<(), ErrorView>),
}

impl View for WatchStep {
    type V = WatchStepView;

    open spec fn view(&self) -> WatchStepView {
        match *self {
            WatchStep::Sleep { seconds, logged } => WatchStepView::Sleep {
                seconds,
                logged: match logged {
                    Some(e) => Some(e@),
                    None => None,
                },
            },
            WatchStep::Finish(result) => WatchStepView::Finish(
                match result {
                    Ok(_) => Ok(()),
                    Err(e) => Err(e@),
                },
            ),
        }
    }
}

/// The failure of a cycle that ends the watch, if the cycle has one.
pub open spec fn fatal_failure(state: WatchState, mode: WatchMode, outcome: CycleOutcome) -> Option<
    ErrorView,
> {
    match outcome {
        CycleOutcome::CheckFailed(e) => if state.first_cycle || mode == WatchMode::Once {
            Some(e@)
        } else {
            None
        },
        CycleOutcome::StorageFailed(e) => Some(e@),
        CycleOutcome::NotifyFailed(e) => if !state.notified || mode == WatchMode::Once {
            Some(e@)
        } else {
            None
        },
        CycleOutcome::Unchanged | CycleOutcome::Notified => None,
    }
}

/// The failure of a cycle, if it has one.
pub open spec fn failure_of(outcome: CycleOutcome) -> Option<ErrorView> {
    match outcome {
        CycleOutcome::CheckFailed(e) | CycleOutcome::StorageFailed(e) | CycleOutcome::NotifyFailed(
            e,
        ) => Some(e@),
        CycleOutcome::Unchanged | CycleOutcome::Notified => None,
    }
}

/// What the watch remembers after a cycle: the first cycle is over, and a
/// notification that went through stays on record.
pub open spec fn state_after(state: WatchState, outcome: CycleOutcome) -> WatchState {
    WatchState {
        first_cycle: false,
        notified: state.notified || outcome is Notified,
    }
}

/// What to do after a cycle: finish with the failure that ends the watch,
/// finish in peace after the one cycle of a single check, else sleep and
/// log what failed.
pub open spec fn step_after(state: WatchState, mode: WatchMode, outcome: CycleOutcome) -> WatchStepView {
    match fatal_failure(state, mode, outcome) {
        Some(e) => WatchStepView::Finish(Err(e)),
        None => match mode {
            WatchMode::Once => WatchStepView::Finish(Ok(())),
            WatchMode::Every(seconds) => WatchStepView::Sleep {
                seconds,
                logged: failure_of(outcome),
            },
        },
    }
}

impl WatchState {
    /// The state of a watch before its first cycle.
    pub fn new() -> (state: Self)
        ensures
            state == (WatchState { first_cycle: true, notified: false }),
    {
        WatchState { first_cycle: true, notified: false }
    }

    /// Takes in how a cycle went and says what to do next.
    pub fn advance(&mut self, mode: WatchMode, outcome: CycleOutcome) -> (step: WatchStep)
        ensures
            *final(self) == state_after(*old(self), outcome),
            step@ == step_after(*old(self), mode, outcome),
    {
        let first_cycle = self.first_cycle;
        let notified = self.notified;
        self.first_cycle = false;
        let once = match mode {
            WatchMode::Once => true,
            WatchMode::Every(_) => false,
        };
        match outcome {
            CycleOutcome::CheckFailed(e) => Self::after_failure(first_cycle || once, mode, e),
            CycleOutcome::StorageFailed(e) => Self::after_failure(true, mode, e),
            CycleOutcome::NotifyFailed(e) => Self::after_failure(!notified || once, mode, e),
            CycleOutcome::Unchanged => Self::after_success(mode),
            CycleOutcome::Notified => {
                self.notified = true;
                Self::after_success(mode)
            },
        }
    }

    fn after_success(mode: WatchMode) -> (step: WatchStep)
        ensures
            step@ == match mode {
                WatchMode::Once => WatchStepView::Finish(Ok(())),
                WatchMode::Every(seconds) => WatchStepView::Sleep { seconds, logged: None },
            },
    {
        match mode {
            WatchMode::Once => WatchStep::Finish(Ok(())),
            WatchMode::Every(seconds) => WatchStep::Sleep { seconds, logged: None },
        }
    }

    fn after_failure(fatal: bool, mode: WatchMode, e: LibError) -> (step: WatchStep)
        requires
            mode == WatchMode::Once ==> fatal,
        ensures
            step@ == match mode {
                WatchMode::Every(seconds) if !fatal => WatchStepView::Sleep {
                    seconds,
                    logged: Some(e@),
                },
                _ => WatchStepView::Finish(Err(e@)),
            },
    {
        match mode {
            WatchMode::Every(seconds) if !fatal => WatchStep::Sleep { seconds, logged: Some(e) },
            _ => WatchStep::Finish(Err(e)),
        }
    }
}

/// Tells whether a cycle ends the watch.
pub open spec fn ends_watch(state: WatchState, mode: WatchMode, outcome: CycleOutcome) -> bool {
    step_after(state, mode, outcome) is Finish
}

/// The state of a watch after some cycles, as long as none has ended it.
pub open spec fn state_after_all(outcomes: Seq<CycleOutcome>) -> WatchState
    decreases outcomes.len(),
{
    if outcomes.len() == 0 {
        WatchState { first_cycle: true, notified: false }
    } else {
        state_after(state_after_all(outcomes.drop_last()), outcomes.last())
    }
}

/// In a repeating watch a failed check ends the watch in the first cycle
/// and in no other; a failed notification ends it as long as no earlier
/// notification has gone through, and never after; a cycle without failure
/// never ends it.
pub proof fn law_escalation(outcomes: Seq<CycleOutcome>, outcome: CycleOutcome, seconds: u64)
    ensures
        outcome is CheckFailed ==> (ends_watch(
            state_after_all(outcomes),
            WatchMode::Every(seconds),
            outcome,
        ) <==> outcomes.len() == 0),
        outcome is NotifyFailed ==> (ends_watch(
            state_after_all(outcomes),
            WatchMode::Every(seconds),
            outcome,
        ) <==> forall|i: int| 0 <= i < outcomes.len() ==> !(#[trigger] outcomes[i] is Notified)),
        outcome is Unchanged || outcome is Notified ==> !ends_watch(
            state_after_all(outcomes),
            WatchMode::Every(seconds),
            outcome,
        ),
        outcome is StorageFailed ==> ends_watch(
            state_after_all(outcomes),
            WatchMode::Every(seconds),
            outcome,
        ),
{
    lemma_state_after_all(outcomes);
}

proof fn lemma_state_after_all(outcomes: Seq<CycleOutcome>)
    ensures
        state_after_all(outcomes).first_cycle == (outcomes.len() == 0),
        state_after_all(outcomes).notified == exists|i: int|
            0 <= i < outcomes.len() && #[trigger] outcomes[i] is Notified,
    decreases outcomes.len(),
{
    if outcomes.len() > 0 {
        let head = outcomes.drop_last();
        lemma_state_after_all(head);
        if exists|i: int| 0 <= i < head.len() && #[trigger] head[i] is Notified {
            let i = choose|i: int| 0 <= i < head.len() && #[trigger] head[i] is Notified;
            assert(outcomes[i] is Notified);
        }
        if outcomes.last() is Notified {
            assert(outcomes[outcomes.len() - 1] is Notified);
        }
        if exists|i: int| 0 <= i < outcomes.len() && #[trigger] outcomes[i] is Notified {
            let i = choose|i: int| 0 <= i < outcomes.len() && #[trigger] outcomes[i] is Notified;
            if i < head.len() {
                assert(head[i] is Notified);
            }
        }
    }
}

} // verus!
