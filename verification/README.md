# flurx

A scheduler of reactive tasks that wait on a stream of states, with a store and
reducers that run the scheduler with every dispatched state.

- `src/` is the library, verified with Verus: the selectors (`wait::until`,
  `wait::while_`, `once::run`, `repeat::count`, `repeat::forever`, `delay::time`),
  the state slot that tasks read, one poll of a task, the scheduler's bookkeeping
  around each run, the store, and the reducers' dispatch. Each operation that
  alternates with awaiting a future is split into the steps before and after the
  await (`Scheduler::enter_run` / `Scheduler::end_run`, `Reducer::begin_dispatch` /
  `Reducer::end_dispatch`), and the laws over `SchedulerModel` in
  `src/scheduler.rs` state what a whole run and a sequence of runs do. A task's
  poll takes, as an argument, what the scheduler's slot holds at that poll
  (`TaskFuture::poll_output` and friends). That the task's handle refers to the
  scheduler's slot is aliasing that `app/` sets up with `unsafe`; given that the
  poll read the slot during a run, `poll_during_run_sees_run_state` in
  `src/task/future.rs` states that the selector is handed that run's state.
- `app/` is the asynchronous runtime: the `Future` impls that apply the library's
  poll decisions, the boxed reactors, the `async` `run`/`dispatch`/`will`, and
  `run_sync` through `pollster`.
- `tests/` exercises the library on concrete values.
