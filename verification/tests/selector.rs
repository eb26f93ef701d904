use std::cell::Cell;
use std::time::{Duration, Instant};

use flurx::selector::delay;
use flurx::selector::once;
use flurx::selector::repeat;
use flurx::selector::until::Until;
use flurx::selector::wait;
use flurx::selector::while_state::While;
use flurx::Selector;

#[test]
fn until_waits_for_predicate() {
    let mut sel = wait::until(|s: i32| s >= 3);
    assert_eq!(sel.select(1), None);
    assert_eq!(sel.select(2), None);
    assert_eq!(sel.select(3), Some(()));
    assert_eq!(sel.select(4), Some(()));
}

#[test]
fn while_finishes_when_predicate_holds() {
    let mut sel = wait::while_(|s: i32| s == 2);
    assert_eq!(sel.select(1), None);
    assert_eq!(sel.select(2), Some(()));
    assert_eq!(sel.select(3), None);
}

#[test]
fn once_finishes_on_first_select() {
    let mut sel = once::run(|s: i32| s * 2);
    assert_eq!(sel.select(21), Some(42));
}

#[test]
fn closure_is_a_selector() {
    let mut sel = |s: i32| if s == 1 { Some("one") } else { None };
    assert_eq!(Selector::select(&mut sel, 0), None);
    assert_eq!(Selector::select(&mut sel, 1), Some("one"));
}

#[test]
fn count_finishes_on_the_nth_select() {
    let calls = Cell::new(0);
    let mut sel = repeat::count(3, |s: i32| {
        calls.set(calls.get() + 1);
        s + 100
    });
    assert_eq!(sel.select(1), None);
    assert_eq!(sel.select(2), None);
    assert_eq!(sel.select(3), Some(103));
    assert_eq!(sel.select(4), Some(104));
    assert_eq!(calls.get(), 4);
}

#[test]
fn count_of_one_finishes_at_once() {
    let mut sel = repeat::count(1, |s: i32| s);
    assert_eq!(sel.select(9), Some(9));
}

#[test]
fn forever_never_finishes() {
    let calls = Cell::new(0);
    let mut sel = repeat::forever(|s: i32| calls.set(calls.get() + s));
    for i in 0..5 {
        assert_eq!(sel.select(i), None);
    }
    assert_eq!(calls.get(), 10);
}

#[test]
fn time_reached_compares_durations() {
    assert_eq!(delay::time_reached(300, 299), None);
    assert_eq!(delay::time_reached(300, 300), Some(()));
    assert_eq!(delay::time_reached(300, 301), Some(()));
    assert_eq!(delay::time_reached(0, 0), Some(()));
}

#[test]
fn delay_300_ms() {
    let mut sel = delay::time::<()>(Duration::from_millis(300));
    assert_eq!(sel.select(()), None);
    let start = Instant::now();
    while start.elapsed() < Duration::from_millis(300) {}
    assert_eq!(sel.select(()), Some(()));
}

#[test]
fn zero_delay_is_done_at_once() {
    let mut sel = delay::time::<i32>(Duration::from_millis(0));
    assert_eq!(sel.select(1), Some(()));
}

#[test]
fn legacy_until_finishes_when_predicate_fails() {
    let sel = Until::create(|s: &i32| *s < 2);
    assert_eq!(sel.clone().select(&0), None);
    assert_eq!(sel.clone().select(&1), None);
    assert_eq!(sel.select(&2), Some(()));
}

#[test]
fn legacy_while_finishes_when_predicate_holds() {
    let sel = While::new(|s: &i32| *s == 2);
    assert_eq!(sel.select(&0), None);
    assert_eq!(sel.select(&1), None);
    assert_eq!(sel.select(&2), Some(()));
}

#[test]
fn long_delay_is_not_done_at_once() {
    let mut sel = delay::time::<i32>(Duration::from_secs(3600));
    assert_eq!(sel.select(1), None);
    assert_eq!(sel.select(2), None);
}
