//! A future that waits on a selector over a borrowed state slot.
use vstd::prelude::*;

use crate::selector::Selector;
use crate::task::future::PollStep;

verus! {

/// Waits until `selector`, given the state slot itself, answers.
pub struct StateFuture<'a, State, Sel> {
    selector: Sel,
    state: &'a Option<State>,
}

impl<'a, State, Sel> StateFuture<'a, State, Sel> {
    /// What the watched slot contains.
    pub closed spec fn slot(&self) -> Option<State> {
        *self.state
    }

    /// The watched slot, as the selector is given it.
    pub closed spec fn slot_ref(&self) -> &'a Option<State> {
        self.state
    }

    /// The selector waited on.
    pub closed spec fn selector(&self) -> Sel {
        self.selector
    }

    /// A future waiting on `selector` over the slot `state`.
    pub fn new(state: &'a Option<State>, selector: Sel) -> (fut: Self)
        ensures
            fut.slot_ref() == state,
            fut.slot() == *state,
            fut.selector() == selector,
    {
        StateFuture { selector, state }
    }
}

impl<'a, State, Sel> StateFuture<'a, State, Sel> where Sel: Selector<&'a Option<State>> {
    /// One poll: done with the selector's output once it has one, and pending
    /// otherwise.
    pub fn poll_state(&mut self) -> (step: PollStep<Sel::Output>)
        requires
            old(self).selector().select_requires(old(self).slot_ref()),
        ensures
            final(self).slot() == old(self).slot(),
            step matches PollStep::Ready(o) ==> old(self).selector().select_ensures(
                old(self).slot_ref(),
                final(self).selector(),
                Some(o),
            ),
            step is Pending ==> old(self).selector().select_ensures(
                old(self).slot_ref(),
                final(self).selector(),
                None,
            ),
    {
        match self.selector.select(self.state) {
            Some(output) => PollStep::Ready(output),
            None => PollStep::Pending,
        }
    }
}

} // verus!
