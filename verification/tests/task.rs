use flurx::error::AlreadyDroppedScheduler;
use flurx::future::StateFuture;
use flurx::selector::wait;
use flurx::task::future::{PollStep, TaskFuture};
use flurx::task::ReactiveTask;

fn is_pending<T>(step: &PollStep<T>) -> bool {
    matches!(step, PollStep::Pending)
}

#[test]
fn once_wait() {
    let slot = None;
    let task = ReactiveTask::new(&slot);
    let mut f = task.will_future(|state: i32| if state == 1 { Some(()) } else { None });
    assert!(is_pending(&f.poll_output(&Some(0))));
    assert!(matches!(f.poll_output(&Some(1)), PollStep::Ready(())));
}

#[test]
fn future_count_up() {
    let slot = Some(0);
    let mut future = TaskFuture::new_non_safety(&slot, wait::until(|state: i32| state == 1));
    assert!(is_pending(&future.poll_output(future.watched())));
    assert!(matches!(future.poll_output(&Some(1)), PollStep::Ready(())));
}

#[test]
fn successive_polls_see_successive_states() {
    let slot = None;
    let mut future = TaskFuture::new_non_safety(&slot, |state: i32| if state >= 3 { Some(state) } else { None });
    for state in 0..3 {
        assert!(is_pending(&future.poll_output(&Some(state))));
    }
    assert!(matches!(future.poll_output(&Some(7)), PollStep::Ready(7)));
}

#[test]
fn state_future_count_up() {
    let zero = Some(0);
    let mut future = StateFuture::new(&zero, |state: &Option<i32>| {
        if *state == Some(1) { Some(()) } else { None }
    });
    assert!(is_pending(&future.poll_state()));
    let one = Some(1);
    let mut future = StateFuture::new(&one, |state: &Option<i32>| {
        if *state == Some(1) { Some(()) } else { None }
    });
    assert!(matches!(future.poll_state(), PollStep::Ready(())));
}

#[test]
fn return_error_already_dropped_scheduler() {
    let dropped: Option<usize> = None;
    let task = ReactiveTask::new(&dropped);
    let mut calls = 0usize;
    let mut future = task.try_will_future(repeat_counter(&mut calls));
    assert!(matches!(
        future.poll_result(future.watched()),
        PollStep::Ready(Err(AlreadyDroppedScheduler { .. }))
    ));
    drop(future);
    assert_eq!(calls, 0);
}

fn repeat_counter(calls: &mut usize) -> impl Fn(usize) -> Option<()> + '_ {
    let calls = std::cell::Cell::from_mut(calls);
    move |_| {
        calls.set(calls.get() + 1);
        None
    }
}

#[test]
fn try_poll_runs_selector_on_live_state() {
    let slot = Some(5);
    let mut future = TaskFuture::new_safety(&slot, |s: i32| if s == 5 { Some(s * 2) } else { None });
    assert_eq!(future.try_poll(future.watched()), Ok(Some(10)));
    assert!(matches!(future.poll_result(&Some(5)), PollStep::Ready(Ok(10))));
}

#[test]
fn try_poll_pending_then_error() {
    let slot = Some(4);
    let mut future = TaskFuture::new_safety(&slot, |s: i32| if s == 5 { Some(()) } else { None });
    assert_eq!(future.try_poll(&slot), Ok(None));
    assert!(is_pending(&future.poll_result(&slot)));
    assert!(matches!(future.poll_result(&Some(5)), PollStep::Ready(Ok(()))));
    let none: Option<i32> = None;
    let mut future = TaskFuture::new_non_safety(&slot, |s: i32| if s == 5 { Some(()) } else { None });
    assert_eq!(future.try_poll(&none), Err(AlreadyDroppedScheduler::default()));
}

#[test]
fn try_will_future_reports_missing_state() {
    let none: Option<i32> = None;
    let task = ReactiveTask::new(&none);
    let copy = task;
    let mut future = copy.try_will_future(wait::until(|s: i32| s == 1));
    assert!(matches!(future.poll_result(&None), PollStep::Ready(Err(_))));
}

#[test]
fn error_message() {
    assert_eq!(AlreadyDroppedScheduler::default().message(), "already dropped scheduler");
}
