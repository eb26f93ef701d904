use flurx::scheduler::state_ptr::StatePtr;
use flurx::scheduler::Scheduler;
use flurx::selector::{once, repeat, wait};
use flurx::task::future::{PollStep, TaskFuture};
use flurx::task::ReactiveTask;
use flurx::Selector;

/// Runs `scheduler` with `state` the way the async runtime does: the reactor, if
/// any, is polled once, and the wait `task` in it reads the scheduler's slot.
fn run_with<S: Clone, Sel: Selector<S>>(
    scheduler: &mut Scheduler<S, u32>,
    task: &mut TaskFuture<'_, S, Sel, false>,
    state: S,
) -> Option<Sel::Output> {
    match scheduler.enter_run(state) {
        Some(reactor) => {
            let current = scheduler.state_ref().clone();
            let out = match task.poll_output(&current) {
                PollStep::Ready(out) => Some(out),
                PollStep::Pending => None,
            };
            scheduler.end_run(reactor, out.is_some());
            out
        }
        None => None,
    }
}

/// A wait on `selector` through a handle on a slot that holds what the
/// scheduler's slot holds.
fn wait_on<'a, S: Clone, Sel: Selector<S>>(slot: &'a Option<S>, selector: Sel) -> TaskFuture<'a, S, Sel, false> {
    ReactiveTask::new(slot).will_future(selector)
}

fn schedule_id<S: Clone>(scheduler: &mut Scheduler<S, u32>, id: u32) {
    let snapshot = scheduler.state_ref().clone();
    let task = ReactiveTask::new(&snapshot);
    scheduler.schedule(task, move |_| id);
}

#[test]
fn new_scheduler_has_no_reactor() {
    let scheduler: Scheduler<i32, u32> = Scheduler::new();
    assert!(scheduler.not_exists_reactor());
    assert!(!scheduler.exists_reactor());
    let by_default: Scheduler<i32, u32> = Scheduler::default();
    assert!(by_default.not_exists_reactor());
}

#[test]
fn schedule_sets_reactor() {
    let mut scheduler: Scheduler<i32, u32> = Scheduler::new();
    schedule_id(&mut scheduler, 7);
    assert!(scheduler.exists_reactor());
    assert!(!scheduler.not_exists_reactor());
}

#[test]
fn schedule_replaces_previous_reactor() {
    let mut scheduler: Scheduler<i32, u32> = Scheduler::new();
    schedule_id(&mut scheduler, 1);
    schedule_id(&mut scheduler, 2);
    assert_eq!(scheduler.enter_run(0), Some(2));
}

#[test]
fn schedule_builds_reactor_from_task() {
    let mut scheduler: Scheduler<i32, i32> = Scheduler::new();
    let _ = scheduler.enter_run(41);
    let snapshot = scheduler.state_ref().clone();
    let task = ReactiveTask::new(&snapshot);
    scheduler.schedule(task, |t| {
        let mut fut = t.will_future(|s: i32| Some(s + 1));
        match fut.poll_output(&snapshot) {
            PollStep::Ready(v) => v,
            PollStep::Pending => 0,
        }
    });
    assert_eq!(scheduler.enter_run(0), Some(42));
}

#[test]
fn pending_reactor_stays_and_finished_one_leaves() {
    let mut scheduler: Scheduler<i32, u32> = Scheduler::new();
    schedule_id(&mut scheduler, 3);
    let reactor = scheduler.enter_run(1).unwrap();
    scheduler.end_run(reactor, false);
    assert!(scheduler.exists_reactor());
    let reactor = scheduler.enter_run(2).unwrap();
    scheduler.end_run(reactor, true);
    assert!(scheduler.not_exists_reactor());
    assert_eq!(scheduler.enter_run(3), None);
    assert!(scheduler.not_exists_reactor());
}

#[test]
fn run_puts_state_in_slot() {
    let mut scheduler: Scheduler<i32, u32> = Scheduler::new();
    assert_eq!(*scheduler.state_ref(), None);
    let _ = scheduler.enter_run(5);
    assert_eq!(*scheduler.state_ref(), Some(5));
    let _ = scheduler.enter_run(6);
    assert_eq!(*scheduler.state_ref(), Some(6));
}

#[test]
fn released_scheduler_slot_is_empty() {
    let mut scheduler: Scheduler<i32, u32> = Scheduler::new();
    let _ = scheduler.enter_run(5);
    scheduler.release();
    assert_eq!(*scheduler.state_ref(), None);
}

#[test]
fn readme_wait_until_ten() {
    let mut scheduler: Scheduler<usize, u32> = Scheduler::new();
    schedule_id(&mut scheduler, 1);
    let handle = None;
    let mut task = wait_on(&handle, wait::until(|state: usize| state == 10));
    for i in 0..10 {
        assert_eq!(run_with(&mut scheduler, &mut task, i), None);
        assert!(scheduler.exists_reactor());
    }
    assert_eq!(run_with(&mut scheduler, &mut task, 10), Some(()));
    assert!(scheduler.not_exists_reactor());
}

#[test]
fn until_string_is_hello() {
    let mut scheduler: Scheduler<&'static str, u32> = Scheduler::default();
    schedule_id(&mut scheduler, 1);
    let handle = None;
    let mut task = wait_on(&handle, wait::until(|state: &'static str| state == "hello"));
    let mut finished = run_with(&mut scheduler, &mut task, "hello").is_some();
    finished |= run_with(&mut scheduler, &mut task, "hello").is_some();
    finished |= run_with(&mut scheduler, &mut task, "end").is_some();
    assert!(finished);
    assert!(scheduler.not_exists_reactor());
}

#[test]
fn one_while() {
    let mut scheduler: Scheduler<i32, u32> = Scheduler::default();
    schedule_id(&mut scheduler, 1);
    let handle = None;
    let mut task = wait_on(&handle, wait::while_(|state: i32| state == 2));
    assert_eq!(run_with(&mut scheduler, &mut task, 1), None);
    assert!(scheduler.exists_reactor());
    assert_eq!(run_with(&mut scheduler, &mut task, 2), Some(()));
    assert!(scheduler.not_exists_reactor());
}

#[test]
fn once_run() {
    let mut scheduler: Scheduler<&'static str, u32> = Scheduler::default();
    schedule_id(&mut scheduler, 1);
    let handle = None;
    let mut task = wait_on(&handle, once::run(|state: &'static str| state.to_string()));
    let output = run_with(&mut scheduler, &mut task, "hello");
    assert_eq!(output, Some("hello".to_string()));
}

#[test]
fn repeat_count_runs_until_the_count() {
    let mut scheduler: Scheduler<u32, u32> = Scheduler::default();
    schedule_id(&mut scheduler, 1);
    let handle = None;
    let mut task = wait_on(&handle, repeat::count(3, |state: u32| state * 10));
    assert_eq!(run_with(&mut scheduler, &mut task, 1), None);
    assert_eq!(run_with(&mut scheduler, &mut task, 2), None);
    assert_eq!(run_with(&mut scheduler, &mut task, 3), Some(30));
    assert!(scheduler.not_exists_reactor());
}

#[test]
fn state_ref_come_be_none_after_dropped() {
    struct A;
    let mut ptr = StatePtr::<A>::uninit();
    ptr.set(A);
    assert!(ptr.state_ref().is_some());
    ptr.release();
    assert!(ptr.state_ref().is_none());
}

#[test]
fn state_ptr_set_overwrites() {
    let mut ptr = StatePtr::<i32>::uninit();
    assert_eq!(*ptr.state_ref(), None);
    ptr.set(1);
    ptr.set(2);
    assert_eq!(*ptr.state_ref(), Some(2));
    let mut fresh = StatePtr::<i32>::uninit();
    fresh.release();
    assert_eq!(*fresh.state_ref(), None);
}

#[test]
fn released_scheduler_fails_fallible_wait() {
    let calls = std::cell::Cell::new(0);
    let mut scheduler: Scheduler<usize, u32> = Scheduler::new();
    let snapshot = scheduler.state_ref().clone();
    let task = ReactiveTask::new(&snapshot);
    scheduler.schedule(task, |_| 1);
    let mut wait = task.try_will_future(repeat::forever(|_: usize| calls.set(calls.get() + 1)));

    let reactor = scheduler.enter_run(3).expect("a reactor is scheduled");
    let current = scheduler.state_ref().clone();
    assert!(matches!(wait.poll_result(&current), PollStep::Pending));
    scheduler.end_run(reactor, false);
    assert_eq!(calls.get(), 1);

    scheduler.release();
    let current = scheduler.state_ref().clone();
    assert!(matches!(wait.poll_result(&current), PollStep::Ready(Err(_))));
    assert_eq!(calls.get(), 1);
}

#[test]
fn delay_built_from_millis_waits() {
    let mut wait = flurx::selector::delay::time::<()>(std::time::Duration::from_millis(3_600_000));
    assert_eq!(wait.select(()), None);
    let mut none = flurx::selector::delay::time::<()>(std::time::Duration::from_nanos(0));
    assert_eq!(none.select(()), Some(()));
}
