//! The store that holds the state a reducer works on.
use vstd::prelude::*;

verus! {

/// Holds one state.
pub struct Store<State> {
    state: State,
}

impl<State> Store<State> {
    /// The state held.
    pub closed spec fn state(&self) -> State {
        self.state
    }

    /// A shared view of the state held.
    pub fn read_ref(&self) -> (state: &State)
        ensures
            *state == self.state(),
    {
        &self.state
    }

    /// Mutable access to the state held.
    pub fn ref_mut(&mut self) -> (state: &mut State)
        ensures
            *state == old(self).state(),
            final(self).state() == *final(state),
    {
        &mut self.state
    }

    /// A store holding `state`.
    pub fn new(state: State) -> (store: Store<State>)
        ensures
            store.state() == state,
    {
        Store { state }
    }
}

impl<State> Store<Option<State>> {
    /// A store holding no state yet.
    pub fn uninit() -> (store: Store<Option<State>>)
        ensures
            store.state() is None,
    {
        Store { state: None }
    }
}

impl<State: Default> Default for Store<State> {
    fn default() -> (store: Self)
        ensures
            call_ensures(State::default, (), store.state()),
    {
        Store { state: State::default() }
    }
}

} // verus!
