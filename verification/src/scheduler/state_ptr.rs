//! The slot through which a scheduler hands the current state to its tasks.
use vstd::prelude::*;

verus! {

/// Holds at most one slot for the current state. The slot is made on first use;
/// it holds `None` before any state is set and again once the scheduler is gone.
pub struct StatePtr<State>(Vec<Option<State>>);

/// What the slot of a [`StatePtr`] holds after `release`: nothing, where there
/// was a slot.
pub open spec fn released_slot<State>(slot: Option<Option<State>>) -> Option<Option<State>> {
    match slot {
        None => None,
        Some(_) => Some(None),
    }
}

impl<State> StatePtr<State> {
    #[verifier::type_invariant]
    spec fn single_slot(self) -> bool {
        self.0.len() <= 1
    }

    /// `None` before a slot was made; otherwise what the slot holds.
    pub closed spec fn slot(&self) -> Option<Option<State>> {
        if self.0.len() == 0 {
            None
        } else {
            Some(self.0@[0])
        }
    }

    /// A pointer with no slot yet.
    pub fn uninit() -> (ptr: StatePtr<State>)
        ensures
            ptr.slot() is None,
    {
        StatePtr(Vec::new())
    }

    /// Puts `state` in the slot, making the slot if there is none.
    pub fn set(&mut self, state: State)
        ensures
            final(self).slot() == Some(Some(state)),
    {
        proof {
            use_type_invariant(&*self);
        }
        let mut slots: Vec<Option<State>> = Vec::new();
        core::mem::swap(&mut slots, &mut self.0);
        if slots.len() > 0 {
            slots.set(0, Some(state));
        } else {
            slots.push(Some(state));
        }
        self.0 = slots;
    }

    /// The slot, made empty first if there is none yet.
    pub fn state_ref(&mut self) -> (slot: &Option<State>)
        ensures
            final(self).slot() == Some(*slot),
            old(self).slot() matches Some(s) ==> *slot == s,
            old(self).slot() is None ==> *slot is None,
    {
        proof {
            use_type_invariant(&*self);
        }
        if self.0.len() == 0 {
            let mut slots: Vec<Option<State>> = Vec::new();
            slots.push(None);
            self.0 = slots;
        }
        &self.0[0]
    }

    /// Empties the slot, so that tasks reading it find no state: what happens when
    /// the scheduler is dropped.
    pub fn release(&mut self)
        ensures
            final(self).slot() == released_slot(old(self).slot()),
    {
        proof {
            use_type_invariant(&*self);
        }
        if self.0.len() > 0 {
            let mut slots: Vec<Option<State>> = Vec::new();
            core::mem::swap(&mut slots, &mut self.0);
            slots.set(0, None);
            self.0 = slots;
        }
    }
}

} // verus!
