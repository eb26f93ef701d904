use vstd::prelude::*;

use crate::dispatch::Dispatch;
use crate::reducer::base::ReducerInner;
use crate::scheduler::SchedulerModel;
use crate::store::Store;
use crate::task::ReactiveTask;

verus! {

/// A reducer whose scheduler is run with a reference to the state in the store.
pub struct RefReducer<'state, State, R>(ReducerInner<'state, State, &'state State, R>);

impl<'state, State, R> RefReducer<'state, State, R> {
    /// The state in the store.
    pub closed spec fn stored(&self) -> State {
        self.0.stored()
    }

    /// The scheduler, as plain values.
    pub closed spec fn scheduler_model(&self) -> SchedulerModel<&'state State, R> {
        self.0.scheduler_model()
    }

    /// A reducer over `store` with an empty scheduler.
    pub fn new(store: &'state mut Store<State>) -> (reducer: RefReducer<'state, State, R>)
        ensures
            reducer.stored() == old(store).state(),
            reducer.scheduler_model() == SchedulerModel::<&'state State, R>::empty(),
    {
        RefReducer(ReducerInner::new(store))
    }

    /// The state slot that a new task reads, made empty first if there is none.
    pub fn state_ref(&mut self) -> (slot: &Option<&'state State>)
        ensures
            final(self).scheduler_model() == old(self).scheduler_model().with_slot(),
            final(self).scheduler_model().slot == Some(*slot),
            final(self).stored() == old(self).stored(),
    {
        self.0.scheduler_mut().state_ref()
    }

    /// Schedule the reactor that `f` makes from `task`, in place of any earlier one.
    /// `task` is the handle on the scheduler's state slot (see
    /// [`state_ref`](Self::state_ref)).
    pub fn schedule<'s, F>(&mut self, task: ReactiveTask<'s, &'state State>, f: F)
        where
            F: FnOnce(ReactiveTask<'s, &'state State>) -> R,
        requires
            old(self).scheduler_model().slot == Some(task.slot()),
            call_requires(f, (task,)),
        ensures
            task.slot() == old(self).scheduler_model().visible_state(),
            final(self).scheduler_model().reactor matches Some(r) && call_ensures(f, (task,), r)
                && final(self).scheduler_model() == old(self).scheduler_model().scheduled(r),
            final(self).stored() == old(self).stored(),
    {
        self.0.scheduler_mut().schedule(task, f);
    }

    /// Starts a dispatch: the store takes the state that `dispatch` makes of the
    /// stored one. The run of the scheduler follows with [`enter_run`](Self::enter_run).
    pub fn begin_dispatch<D>(&mut self, dispatch: D)
        where
            D: Dispatch<State>,
            State: Default,
        requires
            dispatch.dispatch_requires(old(self).stored()),
        ensures
            dispatch.dispatch_ensures(old(self).stored(), final(self).stored()),
            final(self).scheduler_model() == old(self).scheduler_model(),
    {
        let state = self.0.take_stored();
        let next = dispatch.dispatch(state);
        self.0.put_stored(next);
    }

    /// A shared view of the state in the store.
    pub fn store_ref(&self) -> (state: &State)
        ensures
            *state == self.stored(),
    {
        self.0.store_ref()
    }

    /// Starts the run of the scheduler with `state`, a reference to the stored
    /// state. Returns the reactor to poll.
    pub fn enter_run(&mut self, state: &'state State) -> (reactor: Option<R>)
        requires
            *state == old(self).stored(),
        ensures
            reactor == old(self).scheduler_model().reactor,
            final(self).scheduler_model() == old(self).scheduler_model().entered(state),
            final(self).stored() == old(self).stored(),
    {
        self.0.scheduler_mut().enter_run(state)
    }

    /// Ends a dispatch after `reactor` was polled; `ready` tells whether it finished.
    pub fn end_dispatch(&mut self, reactor: R, ready: bool)
        requires
            old(self).scheduler_model().reactor is None,
        ensures
            final(self).scheduler_model() == old(self).scheduler_model().ended(reactor, ready),
            final(self).stored() == old(self).stored(),
    {
        self.0.scheduler_mut().end_run(reactor, ready);
    }

    /// Empties the scheduler's state slot, as dropping the reducer does.
    pub fn release(&mut self)
        ensures
            final(self).scheduler_model() == old(self).scheduler_model().released(),
            final(self).stored() == old(self).stored(),
    {
        self.0.scheduler_mut().release();
    }
}

/// A dispatch is one run of the scheduler with a reference to the dispatched
/// state. If `dispatched` is the reducer after `begin_dispatch(dispatch)` on
/// `before`, `started` is it after `enter_run(state)` with `state` a reference to
/// the stored state, which handed out the scheduled `reactor`, and `after` is
/// `started` after `end_dispatch(reactor, ready)`, then the store holds what
/// `dispatch` made of the old state, tasks read `state`, which refers to it, and
/// the scheduler is as after one run with `state`.
pub proof fn dispatch_is_one_run<'state, State, R, D>(
    before: RefReducer<'state, State, R>,
    dispatched: RefReducer<'state, State, R>,
    started: RefReducer<'state, State, R>,
    after: RefReducer<'state, State, R>,
    dispatch: D,
    state: &'state State,
    reactor: R,
    ready: bool,
)
    where
        D: Dispatch<State>,
    requires
        dispatch.dispatch_ensures(before.stored(), dispatched.stored()),
        dispatched.scheduler_model() == before.scheduler_model(),
        *state == dispatched.stored(),
        started.scheduler_model() == dispatched.scheduler_model().entered(state),
        started.stored() == dispatched.stored(),
        before.scheduler_model().reactor == Some(reactor),
        after.scheduler_model() == started.scheduler_model().ended(reactor, ready),
        after.stored() == started.stored(),
    ensures
        dispatch.dispatch_ensures(before.stored(), after.stored()),
        *state == after.stored(),
        after.scheduler_model().visible_state() == Some(state),
        after.scheduler_model() == before.scheduler_model().run(state, ready),
{
}

} // verus!
