//! The handle through which a scheduled reactor waits on the state.
use vstd::prelude::*;

use crate::selector::Selector;
use crate::task::future::TaskFuture;

pub mod future;

verus! {

/// A handle on the state slot of a scheduler. A reactor awaits selectors through it.
pub struct ReactiveTask<'state, State> {
    state: &'state Option<State>,
}

impl<'state, State> Clone for ReactiveTask<'state, State> {
    fn clone(&self) -> (res: Self)
        ensures
            res == *self,
    {
        ReactiveTask { state: self.state }
    }
}

impl<'state, State> Copy for ReactiveTask<'state, State> {
}

impl<'state, State> ReactiveTask<'state, State> {
    /// What the slot held by the handle contains: `None` once the scheduler is gone.
    pub closed spec fn slot(&self) -> Option<State> {
        *self.state
    }

    /// The slot the handle refers to.
    pub closed spec fn slot_ref(&self) -> &'state Option<State> {
        self.state
    }

    /// A handle on the given state slot.
    pub fn new(state: &'state Option<State>) -> (task: Self)
        ensures
            task.slot_ref() == state,
            task.slot() == *state,
    {
        ReactiveTask { state }
    }

    /// The future that [`will`](Self::will_future) awaits: it waits on `selector`
    /// and treats a missing state as a broken invariant.
    pub fn will_future<Sel>(&self, selector: Sel) -> (fut: TaskFuture<'state, State, Sel, false>)
        where
            Sel: Selector<State>,
            State: Clone + 'state,
        ensures
            fut.slot_ref() == self.slot_ref(),
            fut.selector() == selector,
    {
        TaskFuture::new_non_safety(self.state, selector)
    }

    /// The future that a fallible wait awaits: it waits on `selector` and reports a
    /// missing state as [`AlreadyDroppedScheduler`](crate::error::AlreadyDroppedScheduler).
    pub fn try_will_future<Sel>(&self, selector: Sel) -> (fut: TaskFuture<'state, State, Sel, true>)
        where
            Sel: Selector<State>,
            State: Clone + 'state,
        ensures
            fut.slot_ref() == self.slot_ref(),
            fut.selector() == selector,
    {
        TaskFuture::new_safety(self.state, selector)
    }
}

} // verus!
