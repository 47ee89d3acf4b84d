use live_counter::client::{CountRequest, CountResponse, Direction, ParseCountRequestError};

#[test]
fn parse_request_errors() {
    let s = "other";
    let result = CountRequest::from_str(s);
    let expected = Err(ParseCountRequestError);
    assert_eq!(result, expected);
}

#[test]
fn parse_request_succeeds() {
    let s = "incr";
    let result = CountRequest::from_str(s);
    let expected = Ok(CountRequest { direction: Direction::Increment });
    assert_eq!(result, expected);

    let s = "decr";
    let result = CountRequest::from_str(s);
    let expected = Ok(CountRequest { direction: Direction::Decrement });
    assert_eq!(result, expected);
}

#[test]
fn to_string_outputs_expected() {
    assert_eq!("incr", CountRequest { direction: Direction::Increment }.to_string());
    assert_eq!("decr", CountRequest { direction: Direction::Decrement }.to_string());
}

#[test]
fn parse_rejects_near_misses() {
    for token in ["", "inc", "incr ", " incr", "INCR", "Decr", "incrdecr", "decrement", "banana"] {
        assert_eq!(CountRequest::from_str(token), Err(ParseCountRequestError));
    }
}

#[test]
fn token_parses_back_to_its_request() {
    for direction in [Direction::Increment, Direction::Decrement] {
        let request = CountRequest { direction };
        let token = request.to_string();
        assert_eq!(CountRequest::from_str(&token), Ok(request));
    }
}

#[test]
fn responses_compare_by_count() {
    assert_eq!(CountResponse { count: 3 }, CountResponse { count: 3 });
    assert_ne!(CountResponse { count: 3 }, CountResponse { count: -3 });
}
