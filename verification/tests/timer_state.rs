use futures::task::noop_waker;

use rust_play::timer::{roll, roll_outcome, step, Roll, SharedState, TimerPoll, TimerStep};

#[test]
fn poll_before_completion_is_pending() {
    let mut s = SharedState::new();
    assert_eq!(s.poll_with(noop_waker()), TimerPoll::Pending);
    assert_eq!(s.poll_with(noop_waker()), TimerPoll::Pending);
}

#[test]
fn stored_waker_is_handed_back() {
    let mut s = SharedState::new();
    assert!(s.take_waker().is_none());
    s.poll_with(noop_waker());
    assert!(s.take_waker().is_some());
    assert!(s.take_waker().is_none());
    assert_eq!(s.poll_with(noop_waker()), TimerPoll::Pending);
}

#[test]
fn completion_needs_a_waiting_task() {
    let mut s = SharedState::new();
    assert!(s.complete_with_waker().is_none());
    assert_eq!(s.poll_with(noop_waker()), TimerPoll::Pending);
    assert!(s.complete_with_waker().is_some());
    assert_eq!(s.poll_with(noop_waker()), TimerPoll::Ready);
}

#[test]
fn completion_is_final() {
    let mut s = SharedState::new();
    s.poll_with(noop_waker());
    s.complete_with_waker();
    assert!(s.take_waker().is_none());
    assert!(s.complete_with_waker().is_none());
    assert_eq!(s.poll_with(noop_waker()), TimerPoll::Ready);
    assert_eq!(s.poll_with(noop_waker()), TimerPoll::Ready);
}

#[test]
fn taking_before_completing_leaves_nothing_to_complete() {
    let mut s = SharedState::new();
    s.poll_with(noop_waker());
    assert!(s.take_waker().is_some());
    assert!(s.complete_with_waker().is_none());
    assert_eq!(s.poll_with(noop_waker()), TimerPoll::Pending);
}

#[test]
fn even_draws_take_the_lock() {
    assert_eq!(roll_outcome(0), Roll::Lock);
    assert_eq!(roll_outcome(4), Roll::Lock);
    assert_eq!(roll_outcome(254), Roll::Lock);
    assert_eq!(roll_outcome(1), Roll::NoLock(1));
    assert_eq!(roll_outcome(255), Roll::NoLock(255));
}

#[test]
fn random_draws_are_decided_by_parity() {
    for _ in 0..100 {
        match roll() {
            Roll::Lock => {}
            Roll::NoLock(x) => assert_eq!(x % 2, 1),
        }
    }
}

#[test]
fn odd_draw_skips_without_touching_the_state() {
    let mut s = SharedState::new();
    s.poll_with(noop_waker());
    assert!(matches!(step(&mut s, Roll::NoLock(3)), TimerStep::Skip(3)));
    assert_eq!(s.poll_with(noop_waker()), TimerPoll::Pending);
    assert!(s.take_waker().is_some());
}

#[test]
fn even_draw_without_a_task_retries() {
    let mut s = SharedState::new();
    assert!(matches!(step(&mut s, Roll::Lock), TimerStep::Retry));
    assert_eq!(s.poll_with(noop_waker()), TimerPoll::Pending);
}

#[test]
fn even_draw_with_a_task_wakes_and_completes() {
    let mut s = SharedState::new();
    s.poll_with(noop_waker());
    assert!(matches!(step(&mut s, Roll::Lock), TimerStep::Wake(_)));
    assert_eq!(s.poll_with(noop_waker()), TimerPoll::Ready);
    assert!(matches!(step(&mut s, Roll::Lock), TimerStep::Retry));
}
