//! A scheduler of reactive tasks driven by a stream of states, with a store and
//! reducers that feed every new state to the scheduler.

pub mod dispatch;
pub mod error;
pub mod future;
pub mod prelude;
pub mod reducer;
pub mod scheduler;
pub mod selector;
pub mod store;
pub mod task;

pub use scheduler::Scheduler;
pub use selector::Selector;
