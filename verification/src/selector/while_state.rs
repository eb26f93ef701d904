//! A selector over a borrowed state that is done once its predicate holds.
use core::marker::PhantomData;
use vstd::prelude::*;

verus! {

/// Done as soon as its predicate holds of the state.
pub struct While<F, State>(F, PhantomData<State>);

impl<F, State> While<F, State> {
    /// The predicate that finishes the selector.
    pub closed spec fn predicate(&self) -> F {
        self.0
    }
}

impl<F, State> While<F, State> where F: Fn(&State) -> bool {
    /// Creates the selector with the predicate `f`.
    pub fn new(f: F) -> (sel: While<F, State>)
        ensures
            sel.predicate() == f,
    {
        While(f, PhantomData)
    }

    /// Answers `Some(())` when `f` holds of `state`, and `None` otherwise.
    pub fn select(&self, state: &State) -> (out: Option<()>)
        requires
            call_requires(self.predicate(), (state,)),
        ensures
            out is Some ==> call_ensures(self.predicate(), (state,), true),
            out is None ==> call_ensures(self.predicate(), (state,), false),
    {
        if (self.0)(state) {
            Some(())
        } else {
            None
        }
    }
}

} // verus!
