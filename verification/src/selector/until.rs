//! A one-shot selector over a borrowed state that is done once its predicate
//! stops holding.
use core::marker::PhantomData;
use vstd::prelude::*;

verus! {

/// Done as soon as its predicate no longer holds of the state.
pub struct Until<F, State>(F, PhantomData<State>);

impl<F, State> Until<F, State> {
    /// The predicate that keeps the selector waiting while it holds.
    pub closed spec fn predicate(&self) -> F {
        self.0
    }
}

impl<F: Clone, State> Clone for Until<F, State> {
    fn clone(&self) -> (res: Self)
        ensures
            cloned(self.predicate(), res.predicate()),
    {
        Until(self.0.clone(), PhantomData)
    }
}

impl<F, State> Until<F, State> where F: FnOnce(&State) -> bool + Clone {
    /// Creates the selector with the predicate `f`.
    pub fn create(f: F) -> (sel: Until<F, State>)
        ensures
            sel.predicate() == f,
    {
        Until(f, PhantomData)
    }

    /// Answers `None` while `f` holds of `state`, and `Some(())` once it does not.
    pub fn select(self, state: &State) -> (out: Option<()>)
        requires
            call_requires(self.predicate(), (state,)),
        ensures
            out is Some ==> call_ensures(self.predicate(), (state,), false),
            out is None ==> call_ensures(self.predicate(), (state,), true),
    {
        if (self.0)(state) {
            None
        } else {
            Some(())
        }
    }
}

} // verus!
