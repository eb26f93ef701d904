use core::marker::PhantomData;
use vstd::prelude::*;

use crate::selector::Selector;

verus! {

/// The selector made by [`count`]: runs its function on every poll, and is done
/// from the `to`-th poll on, answering with what the function returned then.
pub struct RepeatCount<F, Out, State> {
    to: usize,
    count: usize,
    f: F,
    _m1: PhantomData<State>,
    _m2: PhantomData<Out>,
}

/// The value a poll counter takes after one more poll; it wraps around after
/// `usize::MAX`, as an atomic `fetch_add` does.
pub open spec fn next_count(count: usize) -> usize {
    if count == usize::MAX {
        0
    } else {
        (count + 1) as usize
    }
}

impl<F, Out, State> RepeatCount<F, Out, State> {
    /// How many polls it takes to finish.
    pub closed spec fn target(&self) -> usize {
        self.to
    }

    /// The number of the next poll, counted from 1.
    pub closed spec fn counter(&self) -> usize {
        self.count
    }

    /// The function run on every poll.
    pub closed spec fn function(&self) -> F {
        self.f
    }
}

/// Create the task that continues to run the specified number of times.
///
/// `times` must be at least 1.
pub fn count<F, State, Out>(times: usize, f: F) -> (sel: RepeatCount<F, Out, State>)
    where
        F: Fn(State) -> Out,
    requires
        times != 0,
    ensures
        sel.target() == times,
        sel.counter() == 1,
        sel.function() == f,
{
    RepeatCount { to: times, count: 1, f, _m1: PhantomData, _m2: PhantomData }
}

impl<F, Out, State> Selector<State> for RepeatCount<F, Out, State> where F: Fn(State) -> Out {
    type Output = Out;

    open spec fn select_requires(&self, state: State) -> bool {
        call_requires(self.function(), (state,))
    }

    open spec fn select_ensures(&self, state: State, next: Self, out: Option<Out>) -> bool {
        &&& next.target() == self.target()
        &&& next.function() == self.function()
        &&& next.counter() == next_count(self.counter())
        &&& (out is None <==> self.counter() < self.target())
        &&& exists|o: Out|
            #![trigger call_ensures(self.function(), (state,), o)]
            call_ensures(self.function(), (state,), o) && (out is Some ==> out == Some(o))
    }

    fn select(&mut self, state: State) -> (out: Option<Out>) {
        let output = (self.f)(state);
        let previous = self.count;
        self.count = if previous == usize::MAX {
            0
        } else {
            previous + 1
        };
        if previous < self.to {
            None
        } else {
            Some(output)
        }
    }
}

/// The counter of a [`RepeatCount`] made by [`count`] after `polls` selects.
pub open spec fn counter_after(polls: nat) -> usize
    decreases polls,
{
    if polls == 0 {
        1
    } else {
        next_count(counter_after((polls - 1) as nat))
    }
}

/// Before the counter wraps around, the select numbered `k` (from 1) sees the
/// counter `k`.
pub proof fn counter_counts_polls(k: nat)
    requires
        1 <= k <= usize::MAX,
    ensures
        counter_after((k - 1) as nat) == k,
    decreases k,
{
    if k > 1 {
        counter_counts_polls((k - 1) as nat);
    }
}

/// A selector made by `count(times, f)` finishes on exactly the `times`-th select
/// and on every later one, until its counter wraps around: if `sel` is that
/// selector after `k - 1` selects, its `k`-th select answers `None` if and only if
/// `k < times`, and leaves the counter of `k` selects.
pub proof fn count_finishes_at_times<F, Out, State>(
    sel: RepeatCount<F, Out, State>,
    k: nat,
    state: State,
    next: RepeatCount<F, Out, State>,
    out: Option<Out>,
)
    where
        F: Fn(State) -> Out,
    requires
        1 <= k <= usize::MAX,
        sel.counter() == counter_after((k - 1) as nat),
        sel.select_ensures(state, next, out),
    ensures
        out is None <==> k < sel.target(),
        next.counter() == counter_after(k),
        next.target() == sel.target(),
{
    counter_counts_polls(k);
}

} // verus!
