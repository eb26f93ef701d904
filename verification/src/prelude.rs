//! The items most programs need.

pub use crate::dispatch::Dispatch;
pub use crate::error::{AlreadyDroppedScheduler, FutureResult};
pub use crate::reducer::{Reducer, RefReducer};
pub use crate::scheduler::Scheduler;
pub use crate::selector::{delay, once, repeat, wait, Selector};
pub use crate::store::Store;
pub use crate::task::ReactiveTask;
