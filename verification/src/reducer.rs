//! Reducers: a store and a scheduler that is run with every state dispatched.

mod base;
mod own;
mod ref_state;

pub use base::ReducerInner;
pub use own::Reducer;
pub use ref_state::RefReducer;
