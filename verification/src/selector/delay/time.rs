use core::marker::PhantomData;
use core::time::Duration;
use std::time::Instant;
use vstd::prelude::*;

use crate::selector::Selector;

verus! {

#[verifier::external_type_specification]
#[verifier::external_body]
pub struct ExInstant(Instant);

/// Reads the clock through `Instant::now`. The instant depends on when the call is
/// made, so nothing is stated of it.
#[verifier::external_body]
fn instant_now() -> Instant {
    Instant::now()
}

/// Measures, through `Instant::elapsed`, the time since `start`. The result depends
/// on when the call is made, so nothing is stated of it.
#[verifier::external_body]
fn instant_elapsed(start: &Instant) -> Duration {
    start.elapsed()
}

/// The whole number of nanoseconds in `duration`, as `Duration::as_nanos` gives it.
pub uninterp spec fn duration_nanos(duration: Duration) -> u128;

/// The length of a duration in nanoseconds, through `Duration::as_nanos`: the
/// result depends on the duration alone and is named [`duration_nanos`].
#[verifier::external_body]
fn duration_as_nanos(duration: &Duration) -> (nanos: u128)
    ensures
        nanos == duration_nanos(*duration),
{
    duration.as_nanos()
}

/// `Duration::from_nanos`, which makes a duration of `nanos` nanoseconds: its
/// `as_nanos` is `nanos`.
pub assume_specification[ core::time::Duration::from_nanos ](nanos: u64) -> (duration: Duration)
    ensures
        duration_nanos(duration) == nanos,
;

/// `Duration::from_millis`, which makes a duration of `millis` milliseconds: its
/// `as_nanos` is `millis` times a million.
pub assume_specification[ core::time::Duration::from_millis ](millis: u64) -> (duration: Duration)
    ensures
        duration_nanos(duration) == millis * 1_000_000,
;

/// The selector made by [`time`]: done once `duration` has passed since it was made.
pub struct Time<State> {
    start: Instant,
    duration: u128,
    _m: PhantomData<State>,
}

impl<State> Time<State> {
    /// The length of the wait, in nanoseconds.
    pub closed spec fn wait_nanos(&self) -> u128 {
        self.duration
    }

    /// When the wait started.
    pub closed spec fn start(&self) -> Instant {
        self.start
    }
}

/// Creates a task that finishes once `duration` has passed.
pub fn time<State>(duration: Duration) -> (sel: Time<State>)
    ensures
        sel.wait_nanos() == duration_nanos(duration),
{
    let nanos = duration_as_nanos(&duration);
    Time { start: instant_now(), duration: nanos, _m: PhantomData }
}

/// Whether a wait of `wait_nanos` is over after `elapsed_nanos`: it is once at
/// least that long has passed.
pub fn time_reached(wait_nanos: u128, elapsed_nanos: u128) -> (out: Option<()>)
    ensures
        out is Some <==> wait_nanos <= elapsed_nanos,
{
    if wait_nanos <= elapsed_nanos {
        Some(())
    } else {
        None
    }
}

impl<State> Selector<State> for Time<State> {
    type Output = ();

    open spec fn select_requires(&self, state: State) -> bool {
        true
    }

    /// The selector is unchanged. The answer is the comparison of the whole wait
    /// with a duration read from the clock: done if and only if that reading is at
    /// least `wait_nanos()`. So a wait of no time is over at once, whatever the
    /// clock reads.
    open spec fn select_ensures(&self, state: State, next: Self, out: Option<()>) -> bool {
        &&& next == *self
        &&& exists|elapsed: Duration|
            #![trigger duration_nanos(elapsed)]
            (out is Some <==> self.wait_nanos() <= duration_nanos(elapsed))
        &&& self.wait_nanos() == 0 ==> out is Some
    }

    /// Done once the time since the start reaches the wait; how much time has
    /// passed is read from the clock.
    fn select(&mut self, state: State) -> (out: Option<()>) {
        let elapsed = instant_elapsed(&self.start);
        let elapsed_nanos = duration_as_nanos(&elapsed);
        let out = time_reached(self.duration, elapsed_nanos);
        assert(out is Some <==> self.wait_nanos() <= duration_nanos(elapsed));
        out
    }
}

/// A delay made by `time(duration)` is done exactly when the clock shows the
/// whole duration has passed: whatever a select answers, there is a duration read
/// from the clock such that the answer is `Some(())` if and only if that reading
/// is at least `duration` (not any part of it). In particular a select that
/// answers `Some(())` saw at least the whole wait, and one that answers `None`
/// saw less of it.
pub proof fn delay_waits_the_whole_duration<State>(
    duration: Duration,
    sel: Time<State>,
    state: State,
    next: Time<State>,
    out: Option<()>,
)
    requires
        sel.wait_nanos() == duration_nanos(duration),
        sel.select_ensures(state, next, out),
    ensures
        exists|elapsed: Duration|
            #![trigger duration_nanos(elapsed)]
            (out is Some ==> duration_nanos(duration) <= duration_nanos(elapsed))
                && (out is None ==> duration_nanos(elapsed) < duration_nanos(duration)),
        next.wait_nanos() == sel.wait_nanos(),
        duration_nanos(duration) == 0 ==> out is Some,
{
    let elapsed = choose|elapsed: Duration|
        #![trigger duration_nanos(elapsed)]
        (out is Some <==> sel.wait_nanos() <= duration_nanos(elapsed));
    assert((out is Some ==> duration_nanos(duration) <= duration_nanos(elapsed))
        && (out is None ==> duration_nanos(elapsed) < duration_nanos(duration)));
}

} // verus!
