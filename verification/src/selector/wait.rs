//! Selectors that wait for a condition on the state.

mod until;
mod while_holds;

pub use until::{until, Until};
pub use while_holds::{while_, While};
