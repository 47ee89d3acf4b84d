use live_counter::client::{CountRequest, Direction};
use live_counter::routes::count::{
    get_count, outcome_of, post_count, snapshot_of, status_of, try_alter_count, try_get_count,
    ServerError, Status, COUNT_PATH, STREAM_PATH,
};
use live_counter::state::{AppState, Change};
use std::sync::atomic::Ordering;

#[test]
fn try_get_count_returns_json_count_response() {
    let state = AppState::new();
    let resp = try_get_count(&state).unwrap();
    assert!(resp == r#"{"count":0}"#);
}

#[test]
fn try_alter_count_increments_then_decrements_state() {
    let state = AppState::new();
    try_alter_count(&state, CountRequest { direction: Direction::Increment })
        .expect("failed to incremend state");
    assert!(state.count.load(Ordering::Acquire) == 1);
    try_alter_count(&state, CountRequest { direction: Direction::Decrement })
        .expect("failed to decrement state");
    assert!(state.count.load(Ordering::Acquire) == 0);
}

#[test]
fn try_alter_count_fails_to_increment_at_maxiumum_value() {
    let state = AppState::new();
    state.count.swap(i32::MAX, Ordering::Acquire);
    let result = try_alter_count(&state, CountRequest { direction: Direction::Increment });
    let expected = Err(ServerError::MaximumValueError);
    assert_eq!(result, expected);
}

#[test]
fn try_alter_count_decrements_maximum_value() {
    let state = AppState::new();
    state.count.swap(i32::MAX, Ordering::Acquire);
    try_alter_count(&state, CountRequest { direction: Direction::Decrement })
        .expect("failed to decrement state");
    assert_eq!(state.count.load(Ordering::Acquire), i32::MAX - 1);
}

#[test]
fn increment_and_decrement_count_works() {
    let state = AppState::new();
    assert_eq!(get_count(&state), Ok(String::from(r#"{"count":0}"#)));
    assert_eq!(post_count(&state, "incr"), Status::Success);
    assert_eq!(get_count(&state), Ok(String::from(r#"{"count":1}"#)));
    assert_eq!(post_count(&state, "decr"), Status::Success);
    assert_eq!(get_count(&state), Ok(String::from(r#"{"count":0}"#)));
}

#[test]
fn increment_is_seen_by_the_next_read() {
    let state = AppState::new();
    assert_eq!(post_count(&state, "incr"), Status::Success);
    assert_eq!(get_count(&state), Ok(String::from(r#"{"count":1}"#)));
}

#[test]
fn unknown_direction_is_a_bad_request_and_changes_nothing() {
    let state = AppState::new();
    assert_eq!(post_count(&state, "incr"), Status::Success);
    let before = get_count(&state);
    assert_eq!(post_count(&state, "banana"), Status::BadRequest);
    assert_eq!(get_count(&state), before);
    assert_eq!(state.get(), 1);
}

#[test]
fn increment_at_maximum_is_a_server_fault_and_changes_nothing() {
    let state = AppState::new();
    state.count.swap(i32::MAX, Ordering::Acquire);
    assert_eq!(post_count(&state, "incr"), Status::InternalServerError);
    assert_eq!(get_count(&state), Ok(String::from(r#"{"count":2147483647}"#)));
    assert_eq!(state.get(), i32::MAX);
}

#[test]
fn failed_increment_leaves_the_maximum_in_place() {
    let state = AppState::new();
    state.count.swap(i32::MAX, Ordering::Acquire);
    let result = try_alter_count(&state, CountRequest { direction: Direction::Increment });
    assert_eq!(result, Err(ServerError::MaximumValueError));
    assert_eq!(state.count.load(Ordering::Acquire), i32::MAX);
}

#[test]
fn decrement_has_no_guard_at_the_minimum() {
    let state = AppState::new();
    state.count.swap(i32::MIN, Ordering::Acquire);
    assert_eq!(try_alter_count(&state, CountRequest { direction: Direction::Decrement }), Ok(()));
    assert_eq!(state.get(), i32::MAX);
    assert_eq!(post_count(&state, "incr"), Status::InternalServerError);
}

#[test]
fn decrement_below_zero_goes_negative() {
    let state = AppState::new();
    assert_eq!(post_count(&state, "decr"), Status::Success);
    assert_eq!(state.get(), -1);
    assert_eq!(try_get_count(&state), Ok(String::from(r#"{"count":-1}"#)));
}

#[test]
fn status_codes_are_those_of_the_wire() {
    assert_eq!(Status::Success.code(), 200);
    assert_eq!(Status::BadRequest.code(), 400);
    assert_eq!(Status::InternalServerError.code(), 500);
}

#[test]
fn snapshot_is_compact_json_with_a_decimal_count() {
    assert_eq!(snapshot_of(0), Ok(String::from(r#"{"count":0}"#)));
    assert_eq!(snapshot_of(7), Ok(String::from(r#"{"count":7}"#)));
    assert_eq!(snapshot_of(-40), Ok(String::from(r#"{"count":-40}"#)));
    assert_eq!(snapshot_of(i32::MAX), Ok(String::from(r#"{"count":2147483647}"#)));
    assert_eq!(snapshot_of(i32::MIN), Ok(String::from(r#"{"count":-2147483648}"#)));
}

#[test]
fn snapshot_parses_back_to_its_count() {
    for count in [0, 1, -1, 10, 99, 100, 12345, -67890, i32::MAX, i32::MIN] {
        let text = snapshot_of(count).unwrap();
        let value: serde_json::Value = serde_json::from_str(&text).unwrap();
        assert_eq!(value.get("count").and_then(serde_json::Value::as_i64), Some(i64::from(count)));
        assert_eq!(value.as_object().map(serde_json::Map::len), Some(1));
    }
}

#[test]
fn paths_are_those_of_the_interface() {
    assert_eq!(COUNT_PATH, "/count");
    assert_eq!(STREAM_PATH, "/count/stream");
}

#[test]
fn attempt_ends_as_the_step_did() {
    assert_eq!(outcome_of(Change { previous: 0, next: Some(1) }), Ok(()));
    assert_eq!(outcome_of(Change { previous: i32::MIN, next: Some(i32::MAX) }), Ok(()));
    assert_eq!(
        outcome_of(Change { previous: i32::MAX, next: None }),
        Err(ServerError::MaximumValueError)
    );
}

#[test]
fn status_is_that_of_the_step() {
    assert_eq!(status_of(Change { previous: 0, next: Some(1) }), Status::Success);
    assert_eq!(status_of(Change { previous: 0, next: Some(-1) }), Status::Success);
    assert_eq!(
        status_of(Change { previous: i32::MAX, next: None }),
        Status::InternalServerError
    );
}

#[test]
fn reads_never_fail() {
    let state = AppState::new();
    for start in [i32::MIN, -1, 0, 1, i32::MAX] {
        state.count.swap(start, Ordering::Acquire);
        assert!(try_get_count(&state).is_ok());
        assert!(get_count(&state).is_ok());
        assert_eq!(try_get_count(&state), try_get_count(&state));
    }
}
