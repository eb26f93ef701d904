use vstd::prelude::*;

use crate::scheduler::{Scheduler, SchedulerModel};
use crate::store::Store;

verus! {

/// A store borrowed for the reducer's lifetime, with the scheduler it feeds.
pub struct ReducerInner<'state, State, ScheduleState, R> {
    store: &'state mut Store<State>,
    scheduler: Scheduler<ScheduleState, R>,
}

/// Takes the state out of `store`, leaving the default state in its place.
fn take_state<State: Default>(store: &mut Store<State>) -> (state: State)
    ensures
        state == old(store).state(),
{
    let mut state = State::default();
    core::mem::swap(&mut state, store.ref_mut());
    state
}

impl<'state, State, ScheduleState, R> ReducerInner<'state, State, ScheduleState, R> {
    /// The state in the store.
    pub closed spec fn stored(&self) -> State {
        self.store.state()
    }

    /// The scheduler, as plain values.
    pub closed spec fn scheduler_model(&self) -> SchedulerModel<ScheduleState, R> {
        self.scheduler.model()
    }

    /// A reducer over `store` with an empty scheduler.
    pub fn new(store: &'state mut Store<State>) -> (inner: ReducerInner<'state, State, ScheduleState, R>)
        ensures
            inner.stored() == old(store).state(),
            inner.scheduler_model() == SchedulerModel::<ScheduleState, R>::empty(),
    {
        ReducerInner { store, scheduler: Scheduler::new() }
    }

    /// The scheduler.
    pub fn scheduler_mut(&mut self) -> (scheduler: &mut Scheduler<ScheduleState, R>)
        ensures
            scheduler.model() == old(self).scheduler_model(),
            final(self).scheduler_model() == final(scheduler).model(),
            final(self).stored() == old(self).stored(),
    {
        &mut self.scheduler
    }

    /// A shared view of the state in the store.
    pub fn store_ref(&self) -> (state: &State)
        ensures
            *state == self.stored(),
    {
        self.store.read_ref()
    }

    /// Takes the state out of the store, leaving the default state in its place.
    pub fn take_stored(&mut self) -> (state: State)
        where
            State: Default,
        ensures
            state == old(self).stored(),
            final(self).scheduler_model() == old(self).scheduler_model(),
    {
        take_state(self.store)
    }

    /// Puts `state` in the store.
    pub fn put_stored(&mut self, state: State)
        ensures
            final(self).stored() == state,
            final(self).scheduler_model() == old(self).scheduler_model(),
    {
        *self.store.ref_mut() = state;
    }
}

} // verus!
