//! The decisions of the background worker, one event at a time.
//!
//! The worker's caller performs the actions: it reads the transport, hands a
//! complete reading to the observers and pauses, and comes back with what
//! happened.

use vstd::prelude::*;
use crate::snapshot::{Assembly, AssemblyStep, DeviceData, Partial, ReadOutcome};

verus! {

/// How long one read of the transport may block, in milliseconds.
pub const READ_TIMEOUT_MS: i32 = 10000;

/// How long the worker pauses after a dispatch, in milliseconds.
pub const CYCLE_PAUSE_MS: u64 = 100;

/// Where the worker stands.
#[derive(Clone, Copy, Debug, PartialEq, Eq, Structural)]
pub enum WorkerPhase {
    /// At the top of its loop: the next step looks at the running flag.
    Waiting,
    /// In the middle of an assembly cycle.
    Assembling,
    /// Gone for good.
    Exited,
}

/// What the worker is told.
#[derive(Debug)]
pub enum WorkerEvent {
    /// The worker was just launched, or the pause after a dispatch is over.
    Wake,
    /// The read that the worker asked for has returned.
    Read(ReadOutcome),
}

/// What the worker asks its caller to do.
#[derive(Debug)]
pub enum WorkerAction {
    /// Read the transport, waiting at most `READ_TIMEOUT_MS`, and come back
    /// with the outcome.
    Read,
    /// Hand this reading to every observer, pause for `CYCLE_PAUSE_MS`, and
    /// come back with `Wake`.
    Dispatch(DeviceData),
    /// Report this transport fault and end the worker.
    Fail(String),
    /// End the worker.
    Exit,
}

/// The worker as contracts see it.
pub ghost struct WorkerState {
    pub phase: WorkerPhase,
    pub partial: Partial,
}

impl WorkerState {
    /// A worker that has just been launched.
    pub open spec fn fresh() -> WorkerState {
        WorkerState { phase: WorkerPhase::Waiting, partial: Partial::empty() }
    }

    /// Whether `event` makes a worker in this state hand out a reading.
    pub open spec fn dispatches(self, event: WorkerEvent) -> bool {
        self.phase == WorkerPhase::Assembling && match event {
            WorkerEvent::Read(ReadOutcome::Fault(_)) => false,
            WorkerEvent::Read(outcome) => self.partial.absorb(outcome).is_complete(),
            WorkerEvent::Wake => false,
        }
    }

    /// The state after `event`, with the running flag as given. The flag
    /// counts only at the top of the loop, never inside a cycle.
    pub open spec fn next(self, event: WorkerEvent, running: bool) -> WorkerState {
        match self.phase {
            WorkerPhase::Exited => self,
            WorkerPhase::Waiting => if running {
                WorkerState { phase: WorkerPhase::Assembling, partial: Partial::empty() }
            } else {
                WorkerState { phase: WorkerPhase::Exited, partial: Partial::empty() }
            },
            WorkerPhase::Assembling => match event {
                WorkerEvent::Wake => self,
                WorkerEvent::Read(ReadOutcome::Fault(_)) => WorkerState {
                    phase: WorkerPhase::Exited,
                    partial: Partial::empty(),
                },
                WorkerEvent::Read(outcome) => if self.dispatches(event) {
                    WorkerState { phase: WorkerPhase::Waiting, partial: Partial::empty() }
                } else {
                    WorkerState {
                        phase: WorkerPhase::Assembling,
                        partial: self.partial.absorb(outcome),
                    }
                },
            },
        }
    }

    /// How many readings the worker hands out over `events` when the running
    /// flag is off the whole time.
    pub open spec fn dispatches_after_stop(self, events: Seq<WorkerEvent>) -> nat
        decreases events.len(),
    {
        if events.len() == 0 {
            0
        } else {
            let now: nat = if self.dispatches(events.first()) {
                1
            } else {
                0
            };
            now + self.next(events.first(), false).dispatches_after_stop(events.drop_first())
        }
    }

    /// The state that `events` lead to when the running flag is off the
    /// whole time.
    pub open spec fn after_stop(self, events: Seq<WorkerEvent>) -> WorkerState
        decreases events.len(),
    {
        if events.len() == 0 {
            self
        } else {
            self.next(events.first(), false).after_stop(events.drop_first())
        }
    }
}

/// Once the running flag is off, the worker hands out at most one more
/// reading, whatever events follow: the one of the cycle it is in. A worker
/// at the top of its loop, or one that has exited, hands out none.
pub proof fn lemma_at_most_one_dispatch_after_stop(state: WorkerState, events: Seq<WorkerEvent>)
    ensures
        state.dispatches_after_stop(events) <= 1,
        state.phase != WorkerPhase::Assembling ==> state.dispatches_after_stop(events) == 0,
    decreases events.len(),
{
    if events.len() > 0 {
        lemma_at_most_one_dispatch_after_stop(
            state.next(events.first(), false),
            events.drop_first(),
        );
    }
}

/// Once the running flag is off, a worker that is not inside a cycle has
/// exited after its next step and stays so; no event brings it back.
pub proof fn lemma_stopped_worker_stays_out(state: WorkerState, events: Seq<WorkerEvent>)
    requires
        state.phase != WorkerPhase::Assembling,
        events.len() > 0,
    ensures
        state.after_stop(events).phase == WorkerPhase::Exited,
    decreases events.len(),
{
    reveal_with_fuel(WorkerState::after_stop, 2);
    if events.len() > 1 {
        lemma_stopped_worker_stays_out(state.next(events.first(), false), events.drop_first());
    }
}

/// The state of one background worker.
#[derive(Debug)]
pub struct Worker {
    phase: WorkerPhase,
    assembly: Assembly,
}

impl View for Worker {
    type V = WorkerState;

    closed spec fn view(&self) -> WorkerState {
        WorkerState { phase: self.phase, partial: self.assembly@ }
    }
}

impl Worker {
    /// A worker at the top of its loop that has seen no report.
    pub fn new() -> (worker: Self)
        ensures
            worker@ == WorkerState::fresh(),
    {
        Worker { phase: WorkerPhase::Waiting, assembly: Assembly::new() }
    }

    /// Where the worker stands.
    pub fn phase(&self) -> (phase: WorkerPhase)
        ensures
            phase == self@.phase,
    {
        self.phase
    }

    /// Takes one event and says what to do next.
    ///
    /// At the top of the loop the worker looks at `running`: if it is set, a
    /// new assembly cycle begins with a read, otherwise the worker exits.
    /// Inside a cycle `running` is not looked at: a report or a timeout is
    /// absorbed and leads to another read or, once nothing is missing, to a
    /// dispatch, after which the worker is back at the top of its loop; a
    /// fault ends the worker. An exited worker answers `Exit` to everything.
    pub fn step(&mut self, event: WorkerEvent, running: bool) -> (action: WorkerAction)
        ensures
            final(self)@ == old(self)@.next(event, running),
            (action is Dispatch) == old(self)@.dispatches(event),
            match old(self)@.phase {
                WorkerPhase::Exited => action is Exit,
                WorkerPhase::Waiting => if running {
                    action is Read
                } else {
                    action is Exit
                },
                WorkerPhase::Assembling => match event {
                    WorkerEvent::Wake => action is Read,
                    WorkerEvent::Read(ReadOutcome::Fault(description)) => {
                        &&& action matches WorkerAction::Fail(text)
                        &&& text@ == description@
                    },
                    WorkerEvent::Read(outcome) => {
                        let seen = old(self)@.partial.absorb(outcome);
                        if seen.is_complete() {
                            &&& action matches WorkerAction::Dispatch(data)
                            &&& seen.snapshot(data@.time) == Some(data@)
                        } else {
                            action is Read
                        }
                    },
                },
            },
    {
        match self.phase {
            WorkerPhase::Exited => WorkerAction::Exit,
            WorkerPhase::Waiting => {
                self.assembly = Assembly::new();
                if running {
                    self.phase = WorkerPhase::Assembling;
                    WorkerAction::Read
                } else {
                    self.phase = WorkerPhase::Exited;
                    WorkerAction::Exit
                }
            },
            WorkerPhase::Assembling => match event {
                WorkerEvent::Wake => WorkerAction::Read,
                WorkerEvent::Read(outcome) => match self.assembly.advance(outcome) {
                    AssemblyStep::ReadAgain => WorkerAction::Read,
                    AssemblyStep::Complete(data) => {
                        self.phase = WorkerPhase::Waiting;
                        WorkerAction::Dispatch(data)
                    },
                    AssemblyStep::Failed(text) => {
                        self.phase = WorkerPhase::Exited;
                        WorkerAction::Fail(text)
                    },
                },
            },
        }
    }
}

} // verus!
