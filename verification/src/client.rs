//! The vocabulary shared by the server and its observers: the direction of a
//! counter update, the request that carries it, and the snapshot sent back.

use vstd::prelude::*;
use crate::text::decimal;

verus! {

/// The two ways in which a request may move the counter.
#[derive(Clone, Copy, Debug, PartialEq, Eq, Structural)]
pub enum Direction {
    Increment,
    Decrement,
}

/// A request to move the counter one step in a direction.
#[derive(Clone, Copy, Debug, PartialEq, Eq, Structural)]
pub struct CountRequest {
    pub direction: Direction,
}

/// The error for a direction token that is neither `incr` nor `decr`.
#[derive(Clone, Copy, Debug, PartialEq, Eq, Structural)]
pub struct ParseCountRequestError;

/// A snapshot of the counter.
#[derive(Clone, Copy, Debug, PartialEq, Eq, Structural)]
pub struct CountResponse {
    pub count: i32,
}

/// The text of a snapshot on the wire: a JSON object with the one member
/// `count`, written without spaces, its value in decimal.
pub open spec fn snapshot_text(count: i32) -> Seq<char> {
    "{\"count\":"@ + decimal(count as int) + "}"@
}

#[verifier::external_type_specification]
#[verifier::external_body]
pub struct ExJsonError(serde_json::Error);

/// Encodes a snapshot with `serde_json::to_string`, applied to the JSON
/// object that has the snapshot's one field as its one member.
///
/// The encoder writes into a buffer in memory and fails only where a write
/// fails, a key is no string, or a value refuses to be written; none of
/// these can happen to an object with one string key and one integer, so
/// the call succeeds. Its compact form of such an object is an opening
/// brace, the member's name in double quotes, a colon, the integer in
/// decimal and a closing brace.
#[verifier::external_body]
pub(crate) fn encode_response(response: &CountResponse) -> (encoded: Result<
    String,
    serde_json::Error,
>)
    ensures
        encoded is Ok,
        encoded matches Ok(text) ==> text@ == snapshot_text(response.count),
{
    let mut members = serde_json::Map::new();
    members.insert(String::from("count"), serde_json::Value::from(response.count));
    serde_json::to_string(&serde_json::Value::Object(members))
}

/// The token that names a direction on the wire.
pub open spec fn direction_token(direction: Direction) -> Seq<char> {
    match direction {
        Direction::Increment => "incr"@,
        Direction::Decrement => "decr"@,
    }
}

/// The direction that a token names, if it names one.
pub open spec fn token_direction(token: Seq<char>) -> Option<Direction> {
    if token == direction_token(Direction::Increment) {
        Some(Direction::Increment)
    } else if token == direction_token(Direction::Decrement) {
        Some(Direction::Decrement)
    } else {
        None
    }
}

/// The two tokens differ, so a token names at most one direction, and each
/// direction is named by its own token.
pub proof fn lemma_tokens_distinct()
    ensures
        direction_token(Direction::Increment) != direction_token(Direction::Decrement),
        forall|direction: Direction| #[trigger]
            token_direction(direction_token(direction)) == Some(direction),
{
    reveal_strlit("incr");
    reveal_strlit("decr");
    assert("incr"@[0] != "decr"@[0]);
}

impl CountRequest {
    /// Parses a direction token. Exactly the tokens `incr` and `decr` are
    /// accepted; every other string is rejected.
    pub fn from_str(s: &str) -> (result: Result<CountRequest, ParseCountRequestError>)
        ensures
            result == match token_direction(s@) {
                Some(direction) => Ok::<CountRequest, ParseCountRequestError>(
                    (CountRequest { direction }),
                ),
                None => Err::<CountRequest, ParseCountRequestError>(ParseCountRequestError),
            },
    {
        let token = s.to_owned();
        if token == "incr".to_owned() {
            Ok(CountRequest { direction: Direction::Increment })
        } else if token == "decr".to_owned() {
            Ok(CountRequest { direction: Direction::Decrement })
        } else {
            Err(ParseCountRequestError)
        }
    }

    /// The token of the request's direction: the string that `from_str`
    /// parses back to this request.
    pub fn to_string(&self) -> (token: String)
        ensures
            token@ == direction_token(self.direction),
            token_direction(token@) == Some(self.direction),
    {
        proof {
            lemma_tokens_distinct();
        }
        match self.direction {
            Direction::Increment => "incr".to_owned(),
            Direction::Decrement => "decr".to_owned(),
        }
    }
}

} // verus!
