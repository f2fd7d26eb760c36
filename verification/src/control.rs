//! The controller: the observer list and the start/stop lifecycle.

use vstd::prelude::*;
use crate::snapshot::DeviceData;

verus! {

/// The controller as contracts see it.
pub ghost struct ControlState<O> {
    /// The registered observers, oldest first.
    pub observers: Seq<O>,
    /// The flag that the worker looks at on top of each cycle.
    pub running: bool,
    /// Whether the handle of a launched worker is held.
    pub worker: bool,
}

impl<O> ControlState<O> {
    /// No observer, not running, no worker.
    pub open spec fn idle() -> ControlState<O> {
        ControlState { observers: Seq::empty(), running: false, worker: false }
    }

    /// The flag is set exactly while a worker's handle is held.
    pub open spec fn wf(self) -> bool {
        self.running == self.worker
    }

    /// The state after a start: nothing changes while a worker is held.
    pub open spec fn started(self) -> ControlState<O> {
        if self.worker {
            self
        } else {
            ControlState { running: true, worker: true, ..self }
        }
    }

    /// The state after a stop.
    pub open spec fn stopped(self) -> ControlState<O> {
        ControlState { running: false, worker: false, ..self }
    }

    /// The state after one more observer has been registered.
    pub open spec fn registered(self, observer: O) -> ControlState<O> {
        ControlState { observers: self.observers.push(observer), ..self }
    }
}

/// Stopping a controller that holds no worker changes nothing.
pub proof fn lemma_stop_when_idle_changes_nothing<O>(state: ControlState<O>)
    requires
        state.wf(),
        !state.worker,
    ensures
        state.stopped() == state,
{
}

/// A start followed by a stop leaves the controller as it was before, so a
/// second start begins exactly as the first one did.
pub proof fn lemma_stop_undoes_start<O>(state: ControlState<O>)
    requires
        state.wf(),
        !state.worker,
    ensures
        state.started().stopped() == state,
        state.started().stopped().started() == state.started(),
        state.started().stopped().started().stopped() == state,
{
}

/// Observers stand in the order in which they were registered: a new one
/// comes after all earlier ones, which keep their places.
pub proof fn lemma_registration_order<O>(state: ControlState<O>, first: O, second: O)
    ensures
        state.registered(first).registered(second).observers == state.observers.push(first).push(
            second,
        ),
        state.registered(first).observers.len() == state.observers.len() + 1,
        state.registered(first).observers[state.observers.len() as int] == first,
        forall|i: int|
            0 <= i < state.observers.len() ==> state.registered(first).observers[i]
                == state.observers[i],
{
}

/// Monitors one device: keeps the observers and decides when a background
/// worker is launched and when it is joined.
pub struct AirControl<O> {
    callbacks: Vec<O>,
    running: bool,
    monitoring: bool,
}

impl<O> View for AirControl<O> {
    type V = ControlState<O>;

    closed spec fn view(&self) -> ControlState<O> {
        ControlState { observers: self.callbacks@, running: self.running, worker: self.monitoring }
    }
}

impl<O> AirControl<O> {
    /// A controller with no observer and no worker.
    pub fn new() -> (control: Self)
        ensures
            control@ == ControlState::<O>::idle(),
            control@.wf(),
    {
        AirControl { callbacks: Vec::new(), running: false, monitoring: false }
    }

    /// Asks for monitoring to begin. The result says whether the caller has
    /// to launch a worker now: it is `false`, and nothing changes, while an
    /// earlier worker has not been stopped.
    pub fn start_monitoring(&mut self) -> (launch: bool)
        ensures
            final(self)@ == old(self)@.started(),
            launch == !old(self)@.worker,
            old(self)@.wf() ==> final(self)@.wf(),
    {
        if self.monitoring {
            false
        } else {
            self.running = true;
            self.monitoring = true;
            true
        }
    }

    /// Asks for monitoring to end: clears the running flag and gives up the
    /// worker. The result says whether there is a worker that the caller has
    /// to wait for.
    pub fn stop_monitoring(&mut self) -> (join: bool)
        ensures
            final(self)@ == old(self)@.stopped(),
            join == old(self)@.worker,
            final(self)@.wf(),
    {
        let join = self.monitoring;
        self.running = false;
        self.monitoring = false;
        join
    }

    /// Adds an observer behind those already registered.
    pub fn register_callback(&mut self, callback: O)
        ensures
            final(self)@ == old(self)@.registered(callback),
            old(self)@.wf() ==> final(self)@.wf(),
    {
        self.callbacks.push(callback);
    }

    /// The flag that the worker looks at on top of each cycle.
    pub fn is_running(&self) -> (running: bool)
        ensures
            running == self@.running,
    {
        self.running
    }

    /// Whether the handle of a launched worker is held.
    pub fn has_worker(&self) -> (held: bool)
        ensures
            held == self@.worker,
    {
        self.monitoring
    }

    /// How many observers are registered.
    pub fn observer_count(&self) -> (count: usize)
        ensures
            count == self@.observers.len(),
    {
        self.callbacks.len()
    }

    /// Calls every registered observer with `data`, oldest first.
    ///
    /// Each observer must accept the reading; afterwards each one's own
    /// postcondition holds for it.
    pub fn dispatch(&self, data: DeviceData)
        where O: Fn(DeviceData)
        requires
            forall|i: int|
                0 <= i < self@.observers.len() ==> call_requires(
                    #[trigger] self@.observers[i],
                    (data,),
                ),
        ensures
            forall|i: int|
                0 <= i < self@.observers.len() ==> call_ensures(
                    #[trigger] self@.observers[i],
                    (data,),
                    (),
                ),
    {
        let count: usize = self.callbacks.len();
        let mut next: usize = 0;
        while next < count
            invariant
                count == self.callbacks@.len(),
                self@.observers == self.callbacks@,
                next <= count,
                forall|i: int|
                    0 <= i < count ==> call_requires(#[trigger] self@.observers[i], (data,)),
                forall|i: int|
                    0 <= i < next ==> call_ensures(#[trigger] self@.observers[i], (data,), ()),
            decreases count - next,
        {
            let observer = &self.callbacks[next];
            assert(*observer == self@.observers[next as int]);
            observer(data);
            next = next + 1;
        }
    }
}

} // verus!
