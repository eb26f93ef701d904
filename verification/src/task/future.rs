//! One poll of a task that waits on a selector.
use vstd::prelude::*;

use crate::error::{AlreadyDroppedScheduler, FutureResult};
use crate::scheduler::SchedulerModel;
use crate::selector::Selector;

verus! {

/// What one poll of a future decided: it is done with a value, or it is pending
/// and has asked to be woken again.
pub enum PollStep<T> {
    Ready(T),
    Pending,
}

/// A wait on a selector over the state slot of a scheduler. When `SAFETY` is true
/// a missing state is reported as an error; otherwise it is a broken invariant.
///
/// The wait carries the slot it watches; at each poll the caller reads the slot
/// through [`watched`](Self::watched) and hands what it read to the poll.
pub struct TaskFuture<'state, State, Sel, const SAFETY: bool> {
    selector: Sel,
    state: &'state Option<State>,
}

impl<'state, State, Sel, const SAFETY: bool> TaskFuture<'state, State, Sel, SAFETY> {
    /// The watched slot.
    pub closed spec fn slot_ref(&self) -> &'state Option<State> {
        self.state
    }

    /// The selector waited on.
    pub closed spec fn selector(&self) -> Sel {
        self.selector
    }

    /// The watched slot, to be read at each poll.
    pub fn watched(&self) -> (slot: &'state Option<State>)
        ensures
            slot == self.slot_ref(),
    {
        self.state
    }
}

impl<'state, State, Sel, const SAFETY: bool> TaskFuture<'state, State, Sel, SAFETY> where
    Sel: Selector<State>,
    State: Clone + 'state,
 {
    /// A poll may be made on `current`, what the slot holds at the poll: the
    /// selector accepts every clone of the state in it.
    pub open spec fn can_poll(&self, current: Option<State>) -> bool {
        current matches Some(s) ==> forall|c: State|
            #![trigger cloned(s, c)]
            cloned(s, c) ==> self.selector().select_requires(c)
    }

    /// A poll found `current` holding a state, handed a clone of it to the
    /// selector, which answered `out` and became the selector of `next`; the
    /// watched slot stays the same.
    pub open spec fn polled(&self, current: Option<State>, next: Self, out: Option<Sel::Output>) -> bool {
        &&& next.slot_ref() == self.slot_ref()
        &&& current matches Some(s)
        &&& exists|c: State|
            #![trigger cloned(s, c)]
            cloned(s, c) && self.selector().select_ensures(c, next.selector(), out)
    }

    /// Runs the selector once on a clone of `current`, the state that the slot
    /// holds at this poll. With no state in it the scheduler is gone, and the
    /// answer is the error; the selector is then not run.
    pub fn try_poll(&mut self, current: &Option<State>) -> (res: Result<Option<Sel::Output>, AlreadyDroppedScheduler>)
        requires
            old(self).can_poll(*current),
        ensures
            *current is None ==> (res is Err && *final(self) == *old(self)),
            *current is Some ==> (res matches Ok(out) && old(self).polled(*current, *final(self), out)),
    {
        match current {
            None => Err(AlreadyDroppedScheduler),
            Some(s) => {
                let state = s.clone();
                assert(cloned(*s, state));
                let out = self.selector.select(state);
                Ok(out)
            },
        }
    }
}

impl<'state, State, Sel> TaskFuture<'state, State, Sel, true> where
    Sel: Selector<State>,
    State: Clone + 'state,
 {
    /// A wait that reports a missing state as an error.
    pub fn new_safety(state: &'state Option<State>, selector: Sel) -> (fut: Self)
        ensures
            fut.slot_ref() == state,
            fut.selector() == selector,
    {
        TaskFuture { selector, state }
    }

    /// One poll on `current`, what the slot holds at the poll: done with the
    /// error once the scheduler is gone, done with the selector's output once it
    /// has one, and pending otherwise.
    pub fn poll_result(&mut self, current: &Option<State>) -> (step: PollStep<FutureResult<Sel::Output>>)
        requires
            old(self).can_poll(*current),
        ensures
            *current is None ==> (step matches PollStep::Ready(Err(_)) && *final(self) == *old(self)),
            *current is Some ==> !(step matches PollStep::Ready(Err(_))),
            step matches PollStep::Ready(Ok(o)) ==> old(self).polled(*current, *final(self), Some(o)),
            step is Pending ==> old(self).polled(*current, *final(self), None),
    {
        match self.try_poll(current) {
            Err(e) => PollStep::Ready(Err(e)),
            Ok(Some(output)) => PollStep::Ready(Ok(output)),
            Ok(None) => PollStep::Pending,
        }
    }
}

impl<'state, State, Sel> TaskFuture<'state, State, Sel, false> where
    Sel: Selector<State>,
    State: Clone + 'state,
 {
    /// A wait for which a missing state is a broken invariant.
    pub fn new_non_safety(state: &'state Option<State>, selector: Sel) -> (fut: Self)
        ensures
            fut.slot_ref() == state,
            fut.selector() == selector,
    {
        TaskFuture { selector, state }
    }

    /// One poll on `current`, what the slot holds at the poll, while the
    /// scheduler is alive: done with the selector's output once it has one, and
    /// pending otherwise.
    pub fn poll_output(&mut self, current: &Option<State>) -> (step: PollStep<Sel::Output>)
        requires
            old(self).can_poll(*current),
            *current is Some,
        ensures
            step matches PollStep::Ready(o) ==> old(self).polled(*current, *final(self), Some(o)),
            step is Pending ==> old(self).polled(*current, *final(self), None),
    {
        match self.try_poll(current) {
            Err(_) => PollStep::Pending,
            Ok(Some(output)) => PollStep::Ready(output),
            Ok(None) => PollStep::Pending,
        }
    }
}

/// A task polled while a run with `state` is under way gets that state: when what
/// the poll reads is the scheduler's slot once the run has started, the selector
/// is handed a clone of `state`, and its answer is the poll's.
pub proof fn poll_during_run_sees_run_state<'state, State, Sel, R, const SAFETY: bool>(
    m: SchedulerModel<State, R>,
    state: State,
    fut: TaskFuture<'state, State, Sel, SAFETY>,
    next: TaskFuture<'state, State, Sel, SAFETY>,
    out: Option<Sel::Output>,
)
    where
        Sel: Selector<State>,
        State: Clone + 'state,
    requires
        fut.polled(m.entered(state).slot.unwrap(), next, out),
    ensures
        exists|c: State|
            #![trigger cloned(state, c)]
            cloned(state, c) && fut.selector().select_ensures(c, next.selector(), out),
{
}

/// A task polled after its scheduler was released reads no state, so a
/// fallible wait ends with the error and never runs its selector.
pub proof fn poll_after_release_reads_no_state<State, R>(m: SchedulerModel<State, R>)
    ensures
        m.released().with_slot().slot.unwrap() is None,
{
}

} // verus!
