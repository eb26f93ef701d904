//! Selectors that run a function on every poll.

mod count;
mod forever;

pub use count::{
    count, count_finishes_at_times, counter_after, counter_counts_polls, next_count, RepeatCount,
};
pub use forever::{forever, Forever};
