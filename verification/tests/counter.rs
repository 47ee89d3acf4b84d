use live_counter::client::Direction;
use live_counter::counter::next_count;
use live_counter::state::{AppState, Change, OverflowError};
use std::sync::atomic::Ordering;

fn replay(start: i32, history: &[Direction]) -> i32 {
    let mut value = start;
    for direction in history {
        if let Some(next) = next_count(value, *direction) {
            value = next;
        }
    }
    value
}

#[test]
fn one_step_up_and_down() {
    assert_eq!(next_count(0, Direction::Increment), Some(1));
    assert_eq!(next_count(0, Direction::Decrement), Some(-1));
    assert_eq!(next_count(-1, Direction::Increment), Some(0));
    assert_eq!(next_count(41, Direction::Increment), Some(42));
    assert_eq!(next_count(i32::MAX - 1, Direction::Increment), Some(i32::MAX));
    assert_eq!(next_count(i32::MIN + 1, Direction::Decrement), Some(i32::MIN));
}

#[test]
fn increment_is_refused_at_the_maximum() {
    assert_eq!(next_count(i32::MAX, Direction::Increment), None);
}

#[test]
fn decrement_wraps_at_the_minimum() {
    assert_eq!(next_count(i32::MIN, Direction::Decrement), Some(i32::MAX));
    assert_eq!(next_count(i32::MAX, Direction::Decrement), Some(i32::MAX - 1));
}

#[test]
fn history_leaves_the_sum_of_its_steps() {
    let up = Direction::Increment;
    let down = Direction::Decrement;
    assert_eq!(replay(0, &[]), 0);
    assert_eq!(replay(0, &[up, up, down, up]), 2);
    assert_eq!(replay(0, &[down, down, down, up]), -2);
    assert_eq!(replay(i32::MAX - 1, &[up, up, up, down]), i32::MAX - 1);
}

#[test]
fn shared_counter_follows_a_history() {
    let up = Direction::Increment;
    let down = Direction::Decrement;
    let state = AppState::new();
    assert_eq!(state.get(), 0);
    let history = [up, up, down, up, down, down, down];
    let mut expected = 0;
    for direction in history {
        match direction {
            Direction::Increment => {
                expected += 1;
                assert_eq!(state.increment(), Ok(expected));
            }
            Direction::Decrement => {
                expected -= 1;
                assert_eq!(state.decrement(), expected);
            }
        }
        assert_eq!(state.get(), expected);
    }
    assert_eq!(state.get(), replay(0, &history));
    assert_eq!(state.get(), -1);
}

#[test]
fn increment_then_decrement_restores_the_value() {
    for start in [0, 1, -1, 1000, i32::MIN, i32::MAX - 1] {
        let state = AppState::new();
        state.count.swap(start, Ordering::Acquire);
        assert_eq!(state.increment(), Ok(start + 1));
        assert_eq!(state.decrement(), start);
        assert_eq!(state.get(), start);
    }
}

#[test]
fn refused_increment_then_decrement_does_not_restore() {
    let state = AppState::new();
    state.count.swap(i32::MAX, Ordering::Acquire);
    assert_eq!(state.increment(), Err(OverflowError));
    assert_eq!(state.get(), i32::MAX);
    assert_eq!(state.decrement(), i32::MAX - 1);
    assert_eq!(state.get(), i32::MAX - 1);
}

#[test]
fn change_reports_the_value_met_and_the_value_left() {
    let state = AppState::new();
    assert_eq!(state.alter(Direction::Increment), Change { previous: 0, next: Some(1) });
    assert_eq!(state.alter(Direction::Increment), Change { previous: 1, next: Some(2) });
    assert_eq!(state.alter(Direction::Decrement), Change { previous: 2, next: Some(1) });
    assert_eq!(state.get(), 1);
    state.count.swap(i32::MAX, Ordering::Acquire);
    assert_eq!(state.alter(Direction::Increment), Change { previous: i32::MAX, next: None });
    assert_eq!(state.get(), i32::MAX);
    state.count.swap(i32::MIN, Ordering::Acquire);
    assert_eq!(
        state.alter(Direction::Decrement),
        Change { previous: i32::MIN, next: Some(i32::MAX) }
    );
    assert_eq!(state.get(), i32::MAX);
}

#[test]
fn step_reports_the_new_value_or_the_overflow() {
    assert_eq!(Change { previous: 3, next: Some(4) }.outcome(), Ok(4));
    assert_eq!(Change { previous: 0, next: Some(-1) }.outcome(), Ok(-1));
    assert_eq!(Change { previous: i32::MAX, next: None }.outcome(), Err(OverflowError));
    assert_eq!(Change { previous: 3, next: Some(4) }.settled(), 4);
    assert_eq!(Change { previous: i32::MAX, next: None }.settled(), i32::MAX);
}

#[test]
fn clones_share_one_counter() {
    let state = AppState::new();
    let other = state.clone();
    assert_eq!(state.increment(), Ok(1));
    assert_eq!(other.increment(), Ok(2));
    assert_eq!(other.decrement(), 1);
    assert_eq!(state.get(), 1);
    assert_eq!(other.get(), 1);
}

fn run_callers(state: &AppState, callers: i32, each: i32) -> i32 {
    let runtime = tokio::runtime::Builder::new_multi_thread().worker_threads(4).build().unwrap();
    let tasks: Vec<tokio::task::JoinHandle<i32>> = (0..callers)
        .map(|_| {
            let shared = state.clone();
            runtime.spawn_blocking(move || {
                let mut applied = 0;
                for _ in 0..each {
                    if shared.increment().is_ok() {
                        applied += 1;
                    }
                }
                applied
            })
        })
        .collect();
    let mut applied = 0;
    for task in tasks {
        applied += runtime.block_on(task).unwrap();
    }
    applied
}

#[test]
fn many_callers_lose_no_increment() {
    let callers = 8;
    let each = 2000;
    let state = AppState::new();
    assert_eq!(run_callers(&state, callers, each), callers * each);
    assert_eq!(state.get(), callers * each);
}

#[test]
fn many_callers_never_pass_the_maximum() {
    let callers = 8;
    let each = 500;
    let room = 1000;
    let state = AppState::new();
    state.count.swap(i32::MAX - room, Ordering::Acquire);
    assert_eq!(run_callers(&state, callers, each), room);
    assert_eq!(state.get(), i32::MAX);
}
