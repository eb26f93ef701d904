use flurx::dispatch::Dispatch;
use flurx::reducer::{Reducer, RefReducer};
use flurx::selector::wait;
use flurx::store::Store;
use flurx::task::ReactiveTask;
use flurx::task::future::PollStep;

#[test]
fn store_new_and_access() {
    let mut store = Store::new(3);
    assert_eq!(*store.read_ref(), 3);
    *store.ref_mut() = 4;
    assert_eq!(*store.read_ref(), 4);
    let uninit: Store<Option<i32>> = Store::uninit();
    assert_eq!(*uninit.read_ref(), None);
    let by_default: Store<i32> = Store::default();
    assert_eq!(*by_default.read_ref(), 0);
}

#[test]
fn dispatch_calls_the_function() {
    assert_eq!((|s: i32| s + 1).dispatch(1), 2);
}

#[test]
fn wait_while_state_reached_2() {
    let mut store = Store::<i32>::default();
    let mut reducer: Reducer<i32, u32> = Reducer::new(&mut store);
    let snapshot = reducer.state_ref().clone();
    reducer.schedule(ReactiveTask::new(&snapshot), |_| 1);
    let mut task = ReactiveTask::new(&snapshot).will_future(wait::while_(|state: i32| state == 2));
    let mut finished = false;
    for _ in 0..2 {
        let reactor = reducer.begin_dispatch(|state: i32| state + 1);
        if let Some(reactor) = reactor {
            let current = reducer.state_ref().clone();
            let ready = matches!(task.poll_output(&current), PollStep::Ready(()));
            reducer.end_dispatch(reactor, ready);
            finished |= ready;
        }
    }
    assert!(finished);
    drop(reducer);
    assert_eq!(*store.read_ref(), 2);
}

#[test]
fn reducer_dispatch_updates_store_and_scheduler() {
    let mut store = Store::new(10);
    let mut reducer: Reducer<i32, u32> = Reducer::new(&mut store);
    assert_eq!(reducer.begin_dispatch(|s: i32| s * 2), None);
    assert_eq!(*reducer.state_ref(), Some(20));
    reducer.release();
    assert_eq!(*reducer.state_ref(), None);
    drop(reducer);
    assert_eq!(*store.read_ref(), 20);
}

#[test]
fn ref_reducer_dispatch() {
    let mut store = Store::new(String::from("a"));
    let mut reducer: RefReducer<String, u32> = RefReducer::new(&mut store);
    let snapshot = *reducer.state_ref();
    reducer.schedule(ReactiveTask::new(&snapshot), |_| 5);
    reducer.begin_dispatch(|s: String| s + "b");
    assert_eq!(reducer.store_ref(), "ab");
    let copy = reducer.store_ref().clone();
    let leaked: &'static String = Box::leak(Box::new(copy));
    let reactor = reducer.enter_run(leaked);
    assert_eq!(reactor, Some(5));
    assert_eq!(*reducer.state_ref(), Some(leaked));
    reducer.end_dispatch(5, true);
    drop(reducer);
    assert_eq!(store.read_ref(), "ab");
}
