//! Selectors that wait for time to pass.

mod time;

pub use time::{delay_waits_the_whole_duration, duration_nanos, time, time_reached, Time};
