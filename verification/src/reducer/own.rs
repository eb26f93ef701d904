use vstd::prelude::*;

use crate::dispatch::Dispatch;
use crate::reducer::base::ReducerInner;
use crate::scheduler::SchedulerModel;
use crate::store::Store;
use crate::task::ReactiveTask;

verus! {

/// A reducer whose scheduler is run with a clone of every new state.
pub struct Reducer<'state, State, R>(ReducerInner<'state, State, State, R>);

impl<'state, State, R> Reducer<'state, State, R> {
    /// The state in the store.
    pub closed spec fn stored(&self) -> State {
        self.0.stored()
    }

    /// The scheduler, as plain values.
    pub closed spec fn scheduler_model(&self) -> SchedulerModel<State, R> {
        self.0.scheduler_model()
    }

    /// A reducer over `store` with an empty scheduler.
    pub fn new(store: &'state mut Store<State>) -> (reducer: Reducer<'state, State, R>)
        ensures
            reducer.stored() == old(store).state(),
            reducer.scheduler_model() == SchedulerModel::<State, R>::empty(),
    {
        Reducer(ReducerInner::new(store))
    }

    /// The state slot that a new task reads, made empty first if there is none.
    pub fn state_ref(&mut self) -> (slot: &Option<State>)
        ensures
            final(self).scheduler_model() == old(self).scheduler_model().with_slot(),
            final(self).scheduler_model().slot == Some(*slot),
            final(self).stored() == old(self).stored(),
    {
        self.0.scheduler_mut().state_ref()
    }

    /// Schedule the reactor that `f` makes from `task`, in place of any earlier one.
    /// `task` is the handle on the scheduler's state slot (see
    /// [`state_ref`](Self::state_ref)).
    pub fn schedule<'s, F>(&mut self, task: ReactiveTask<'s, State>, f: F)
        where
            F: FnOnce(ReactiveTask<'s, State>) -> R,
        requires
            old(self).scheduler_model().slot == Some(task.slot()),
            call_requires(f, (task,)),
        ensures
            task.slot() == old(self).scheduler_model().visible_state(),
            final(self).scheduler_model().reactor matches Some(r) && call_ensures(f, (task,), r)
                && final(self).scheduler_model() == old(self).scheduler_model().scheduled(r),
            final(self).stored() == old(self).stored(),
    {
        self.0.scheduler_mut().schedule(task, f);
    }

    /// Starts a dispatch: the store takes a clone of the state that `dispatch`
    /// makes of the stored one, and the scheduler starts a run with that state.
    /// Returns the reactor to poll.
    pub fn begin_dispatch<D>(&mut self, dispatch: D) -> (reactor: Option<R>)
        where
            D: Dispatch<State>,
            State: Clone + Default,
        requires
            dispatch.dispatch_requires(old(self).stored()),
        ensures
            reactor == old(self).scheduler_model().reactor,
            final(self).scheduler_model().visible_state() matches Some(next)
                && dispatch.dispatch_ensures(old(self).stored(), next)
                && cloned(next, final(self).stored())
                && final(self).scheduler_model() == old(self).scheduler_model().entered(next),
    {
        let state = self.0.take_stored();
        let next = dispatch.dispatch(state);
        let copy = next.clone();
        self.0.put_stored(copy);
        self.0.scheduler_mut().enter_run(next)
    }

    /// Ends a dispatch after `reactor` was polled; `ready` tells whether it finished.
    pub fn end_dispatch(&mut self, reactor: R, ready: bool)
        requires
            old(self).scheduler_model().reactor is None,
        ensures
            final(self).scheduler_model() == old(self).scheduler_model().ended(reactor, ready),
            final(self).stored() == old(self).stored(),
    {
        self.0.scheduler_mut().end_run(reactor, ready);
    }

    /// Empties the scheduler's state slot, as dropping the reducer does.
    pub fn release(&mut self)
        ensures
            final(self).scheduler_model() == old(self).scheduler_model().released(),
            final(self).stored() == old(self).stored(),
    {
        self.0.scheduler_mut().release();
    }
}

/// A dispatch is one run of the scheduler with the dispatched state. If
/// `started` is the reducer after `begin_dispatch(dispatch)` on `before`, which
/// made `next` and handed out the scheduled `reactor`, and `after` is `started`
/// after `end_dispatch(reactor, ready)`, then the store holds a clone of `next`,
/// tasks read `next`, and the scheduler is as after one run with `next`.
pub proof fn dispatch_is_one_run<'state, State, R, D>(
    before: Reducer<'state, State, R>,
    started: Reducer<'state, State, R>,
    after: Reducer<'state, State, R>,
    dispatch: D,
    next: State,
    reactor: R,
    ready: bool,
)
    where
        State: Clone,
        D: Dispatch<State>,
    requires
        dispatch.dispatch_ensures(before.stored(), next),
        cloned(next, started.stored()),
        started.scheduler_model() == before.scheduler_model().entered(next),
        before.scheduler_model().reactor == Some(reactor),
        after.scheduler_model() == started.scheduler_model().ended(reactor, ready),
        after.stored() == started.stored(),
    ensures
        dispatch.dispatch_ensures(before.stored(), next),
        cloned(next, after.stored()),
        after.scheduler_model().visible_state() == Some(next),
        after.scheduler_model() == before.scheduler_model().run(next, ready),
{
}

} // verus!
