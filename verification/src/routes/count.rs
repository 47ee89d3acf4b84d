//! Reading and altering the counter on a client's request.

use vstd::prelude::*;
use crate::client::{
    encode_response, snapshot_text, token_direction, CountRequest, CountResponse, Direction,
};
use crate::counter::step;
use crate::state::{AppState, Change};

verus! {

/// The path under which the counter is read. A request to alter it goes to
/// this path followed by a slash and the token of the direction.
pub const COUNT_PATH: &'static str = "/count";

/// The path under which a push session is opened.
pub const STREAM_PATH: &'static str = "/count/stream";

/// The faults of the server's own making.
#[derive(Clone, Copy, Debug, PartialEq, Eq, Structural)]
pub enum ServerError {
    /// An increment met the counter at `i32::MAX`.
    MaximumValueError,
    /// A snapshot could not be encoded. The encoder in use does not fail on
    /// a snapshot, so this fault is never reported.
    SerialisationError,
}

/// The status of a response.
#[derive(Clone, Copy, Debug, PartialEq, Eq, Structural)]
pub enum Status {
    /// The request was served.
    Success,
    /// The client is at fault: the direction is not one the server knows.
    BadRequest,
    /// The server is at fault: an increment met the maximum.
    InternalServerError,
}

/// The number by which a status goes on the wire.
pub open spec fn status_code(status: Status) -> u16 {
    match status {
        Status::Success => 200,
        Status::BadRequest => 400,
        Status::InternalServerError => 500,
    }
}

impl Status {
    /// The number by which this status goes on the wire.
    pub fn code(&self) -> (code: u16)
        ensures
            code == status_code(*self),
    {
        match self {
            Status::Success => 200,
            Status::BadRequest => 400,
            Status::InternalServerError => 500,
        }
    }
}

/// Renders the snapshot of a counter that holds `count`. The encoder does
/// not fail on a snapshot, so a `SerialisationError` never comes.
pub fn snapshot_of(count: i32) -> (rendered: Result<String, ServerError>)
    ensures
        rendered matches Ok(text) && text@ == snapshot_text(count),
{
    match encode_response(&CountResponse { count }) {
        Ok(text) => Ok(text),
        Err(_) => Err(ServerError::SerialisationError),
    }
}

/// Reads the counter and renders its snapshot. This always succeeds.
///
/// The counter is shared, so which value is read is for the moment of the
/// call to decide; the text is the snapshot of that value.
pub fn try_get_count(state: &AppState) -> (rendered: Result<String, ServerError>)
    ensures
        rendered matches Ok(text) && exists|count: i32| text@ == snapshot_text(count),
{
    snapshot_of(state.get())
}

/// Answers a request to read the counter with the snapshot of the value
/// read. The status of a server fault would answer a snapshot that did not
/// encode; none fails to.
pub fn get_count(state: &AppState) -> (response: Result<String, Status>)
    ensures
        response matches Ok(text) && exists|count: i32| text@ == snapshot_text(count),
{
    match try_get_count(state) {
        Ok(text) => Ok(text),
        Err(_) => Err(Status::InternalServerError),
    }
}

/// The outcome of an attempt to alter the counter, given the step that the
/// counter took: success where the step was applied, and the fault of an
/// increment at the maximum where it was refused.
pub open spec fn alter_outcome(change: Change) -> Result<(), ServerError> {
    match change.next {
        Some(_) => Ok(()),
        None => Err(ServerError::MaximumValueError),
    }
}

/// The status that answers an attempt to alter the counter, given the step
/// that the counter took: served where the step was applied, and a fault of
/// the server where it was refused.
pub open spec fn change_status(change: Change) -> Status {
    match alter_outcome(change) {
        Ok(_) => Status::Success,
        Err(_) => Status::InternalServerError,
    }
}

/// Says how an attempt to alter the counter ended, given the step that the
/// counter took.
pub fn outcome_of(change: Change) -> (outcome: Result<(), ServerError>)
    ensures
        outcome == alter_outcome(change),
{
    match change.next {
        Some(_) => Ok(()),
        None => Err(ServerError::MaximumValueError),
    }
}

/// Says with which status an attempt to alter the counter is answered, given
/// the step that the counter took.
pub fn status_of(change: Change) -> (status: Status)
    ensures
        status == change_status(change),
{
    match outcome_of(change) {
        Ok(_) => Status::Success,
        Err(_) => Status::InternalServerError,
    }
}

/// Moves the counter one step as the request asks.
///
/// The counter takes one step in the direction of the request, and the
/// outcome is that of the step: success where it was applied, and
/// `MaximumValueError` where it was refused, which happens to an increment
/// that met `i32::MAX` and to nothing else. Which value the step met is for
/// the shared counter to say.
pub fn try_alter_count(state: &AppState, request: CountRequest) -> (outcome: Result<
    (),
    ServerError,
>)
    ensures
        exists|change: Change|
            change.next == step(change.previous, request.direction) && outcome
                == #[trigger] alter_outcome(change),
        request.direction == Direction::Decrement ==> outcome is Ok,
        outcome matches Err(error) ==> error == ServerError::MaximumValueError
            && request.direction == Direction::Increment,
{
    outcome_of(state.alter(request.direction))
}

/// Answers a request to alter the counter in the direction that a token
/// names.
///
/// A token that names no direction is the client's fault, and the counter is
/// not touched. Otherwise the counter takes one step in that direction, and
/// the status is that of the step: served where it was applied, a fault of
/// the server where it was refused.
pub fn post_count(state: &AppState, direction: &str) -> (status: Status)
    ensures
        match token_direction(direction@) {
            None => status == Status::BadRequest,
            Some(named) => exists|change: Change|
                change.next == step(change.previous, named) && status
                    == #[trigger] change_status(change),
        },
        token_direction(direction@) == Some(Direction::Decrement) ==> status == Status::Success,
        status == Status::BadRequest <==> token_direction(direction@) is None,
{
    match CountRequest::from_str(direction) {
        Ok(request) => status_of(state.alter(request.direction)),
        Err(_) => Status::BadRequest,
    }
}

} // verus!
