//! The scheduler: one reactor, polled once on every run with the latest state.
use vstd::prelude::*;

use crate::scheduler::state_ptr::{released_slot, StatePtr};
use crate::task::ReactiveTask;

pub mod state_ptr;

verus! {

/// What a scheduler holds, as plain values: its state slot (see
/// [`StatePtr::slot`]) and its reactor, if one is scheduled.
pub struct SchedulerModel<State, R> {
    pub slot: Option<Option<State>>,
    pub reactor: Option<R>,
}

impl<State, R> SchedulerModel<State, R> {
    /// The empty scheduler.
    pub open spec fn empty() -> Self {
        SchedulerModel { slot: None, reactor: None }
    }

    /// The state that tasks read from the slot, if any.
    pub open spec fn visible_state(self) -> Option<State> {
        match self.slot {
            Some(Some(s)) => Some(s),
            _ => None,
        }
    }

    /// After `reactor` is scheduled: it replaces any earlier one.
    pub open spec fn scheduled(self, reactor: R) -> Self {
        SchedulerModel { slot: self.slot, reactor: Some(reactor) }
    }

    /// After the slot was made, if it was missing, for a new task.
    pub open spec fn with_slot(self) -> Self {
        match self.slot {
            None => SchedulerModel { slot: Some(None), reactor: self.reactor },
            Some(_) => self,
        }
    }

    /// When a run starts with `state`: the state is in the slot and the reactor
    /// has been taken out to be polled.
    pub open spec fn entered(self, state: State) -> Self {
        SchedulerModel { slot: Some(Some(state)), reactor: None }
    }

    /// When a run ends after `reactor` was polled: a finished reactor is dropped,
    /// a pending one is put back.
    pub open spec fn ended(self, reactor: R, ready: bool) -> Self {
        SchedulerModel { slot: self.slot, reactor: if ready { None } else { Some(reactor) } }
    }

    /// A whole run with `state`, where `ready` is what polling the reactor (if any)
    /// gave: the state is in the slot, and the reactor stays unless it finished.
    pub open spec fn run(self, state: State, ready: bool) -> Self {
        SchedulerModel {
            slot: Some(Some(state)),
            reactor: if ready { None } else { self.reactor },
        }
    }

    /// After a sequence of runs, each given as its state and whether polling the
    /// reactor finished it.
    pub open spec fn run_all(self, runs: Seq<(State, bool)>) -> Self
        decreases runs.len(),
    {
        if runs.len() == 0 {
            self
        } else {
            self.run_all(runs.drop_last()).run(runs.last().0, runs.last().1)
        }
    }

    /// After the scheduler is dropped: its slot holds no state.
    pub open spec fn released(self) -> Self {
        SchedulerModel { slot: released_slot(self.slot), reactor: self.reactor }
    }
}

/// Runs one reactor, the future made by the last `schedule`, polling it once each
/// time a new state is run.
pub struct Scheduler<State, R> {
    state: StatePtr<State>,
    reactor: Option<R>,
}

impl<State, R> Scheduler<State, R> {
    /// The scheduler as plain values.
    pub closed spec fn model(&self) -> SchedulerModel<State, R> {
        SchedulerModel { slot: self.state.slot(), reactor: self.reactor }
    }

    /// Creates the empty scheduler.
    pub fn new() -> (scheduler: Scheduler<State, R>)
        ensures
            scheduler.model() == SchedulerModel::<State, R>::empty(),
    {
        Scheduler { state: StatePtr::uninit(), reactor: None }
    }

    /// Whether no reactor is scheduled.
    pub fn not_exists_reactor(&self) -> (none: bool)
        ensures
            none == self.model().reactor is None,
    {
        self.reactor.is_none()
    }

    /// Whether a reactor is scheduled.
    pub fn exists_reactor(&self) -> (some: bool)
        ensures
            some == self.model().reactor is Some,
    {
        self.reactor.is_some()
    }

    /// The state slot that a new task reads, made empty first if there is none.
    pub fn state_ref(&mut self) -> (slot: &Option<State>)
        ensures
            final(self).model() == old(self).model().with_slot(),
            final(self).model().slot == Some(*slot),
    {
        self.state.state_ref()
    }

    /// Schedule the reactor that `f` makes from `task`, in place of any earlier one.
    /// `task` is the handle on this scheduler's state slot (see
    /// [`state_ref`](Self::state_ref)): it reads the state of the latest run, or
    /// nothing before the first run.
    ///
    /// The reactor is polled once every time the scheduler is run.
    pub fn schedule<'s, F>(&mut self, task: ReactiveTask<'s, State>, f: F)
        where
            F: FnOnce(ReactiveTask<'s, State>) -> R,
        requires
            old(self).model().slot == Some(task.slot()),
            call_requires(f, (task,)),
        ensures
            task.slot() == old(self).model().visible_state(),
            final(self).model().reactor matches Some(r) && call_ensures(f, (task,), r)
                && final(self).model() == old(self).model().scheduled(r),
    {
        let reactor = f(task);
        self.reactor = Some(reactor);
    }

    /// Starts a run with `state`: puts it in the slot and takes out the reactor
    /// to be polled.
    pub fn enter_run(&mut self, state: State) -> (reactor: Option<R>)
        ensures
            reactor == old(self).model().reactor,
            final(self).model() == old(self).model().entered(state),
    {
        self.state.set(state);
        self.reactor.take()
    }

    /// Ends a run after `reactor` was polled; `ready` tells whether it finished.
    pub fn end_run(&mut self, reactor: R, ready: bool)
        requires
            old(self).model().reactor is None,
        ensures
            final(self).model() == old(self).model().ended(reactor, ready),
    {
        if !ready {
            self.reactor = Some(reactor);
        }
    }

    /// Empties the state slot, as dropping the scheduler does, so that tasks find
    /// no state any more.
    pub fn release(&mut self)
        ensures
            final(self).model() == old(self).model().released(),
    {
        self.state.release();
    }
}

impl<State, R> Default for Scheduler<State, R> {
    fn default() -> (scheduler: Self)
        ensures
            scheduler.model() == SchedulerModel::<State, R>::empty(),
    {
        Self::new()
    }
}

/// A run is polling the reactor once between putting the state in the slot and
/// ending the run: starting a run with `state` and ending it with the reactor that
/// was taken out gives the same scheduler as one whole run.
pub proof fn run_is_enter_then_end<State, R>(m: SchedulerModel<State, R>, state: State, ready: bool)
    requires
        m.reactor is Some,
    ensures
        m.entered(state).ended(m.reactor.unwrap(), ready) == m.run(state, ready),
{
}

/// A scheduler holds one reactor: scheduling a second one replaces the first.
pub proof fn schedule_replaces<State, R>(m: SchedulerModel<State, R>, first: R, second: R)
    ensures
        m.scheduled(first).scheduled(second) == m.scheduled(second),
{
}

/// A run keeps a reactor that is still pending, drops one that finished, and
/// never brings one back.
pub proof fn run_keeps_only_pending_reactor<State, R>(m: SchedulerModel<State, R>, state: State, ready: bool)
    ensures
        ready ==> m.run(state, ready).reactor is None,
        !ready ==> m.run(state, ready).reactor == m.reactor,
        m.reactor is None ==> m.run(state, ready).reactor is None,
{
}

/// The scheduler's slot holds the state of the latest run; scheduling a reactor
/// or handing out a task does not change it. (What a polled task reads from that
/// slot is stated by `poll_during_run_sees_run_state` in `task::future`.)
pub proof fn slot_holds_latest_state<State, R>(
    m: SchedulerModel<State, R>,
    first: State,
    second: State,
    ready1: bool,
    ready2: bool,
    reactor: R,
)
    ensures
        m.run(first, ready1).run(second, ready2).visible_state() == Some(second),
        m.run(first, ready1).scheduled(reactor).visible_state() == Some(first),
        m.run(first, ready1).with_slot().visible_state() == Some(first),
{
}

/// Once the scheduler is released, the slot that any task reads holds no state,
/// whether the task was handed out before or after.
pub proof fn released_scheduler_leaves_no_state<State, R>(m: SchedulerModel<State, R>)
    ensures
        m.released().visible_state() is None,
        m.released().with_slot().slot == Some(None::<State>),
        m.slot is Some ==> m.released().slot == Some(None::<State>),
{
}

/// Over any sequence of runs, the reactor stays scheduled until a run finishes
/// it, and is gone from then on; after at least one run the slot holds the state
/// of the last one.
pub proof fn runs_keep_reactor_until_it_finishes<State, R>(
    m: SchedulerModel<State, R>,
    runs: Seq<(State, bool)>,
)
    ensures
        (forall|i: int| 0 <= i < runs.len() ==> !(#[trigger] runs[i]).1) ==> m.run_all(runs).reactor
            == m.reactor,
        (exists|i: int| 0 <= i < runs.len() && (#[trigger] runs[i]).1) ==> m.run_all(runs).reactor
            is None,
        runs.len() > 0 ==> m.run_all(runs).visible_state() == Some(runs.last().0),
    decreases runs.len(),
{
    if runs.len() > 0 {
        let front = runs.drop_last();
        runs_keep_reactor_until_it_finishes(m, front);
        assert forall|i: int| 0 <= i < front.len() implies front[i] == runs[i] by {}
        if exists|i: int| 0 <= i < runs.len() && (#[trigger] runs[i]).1 {
            let i = choose|i: int| 0 <= i < runs.len() && (#[trigger] runs[i]).1;
            if i < front.len() {
                assert(front[i].1);
            }
        }
    }
}
} // verus!
