//! The counter as a value: what one step does to it, and what a whole
//! history of steps leaves behind.
//!
//! Everything here is sequential. The shared cell in [`crate::state`] applies
//! [`next_count`] to whatever value it holds, one atomic step at a time, so a
//! run of the server is one history in the sense of [`replay`].

use vstd::prelude::*;
use crate::client::Direction;

verus! {

/// The value that one step in `direction` leaves in a counter holding `value`,
/// or `None` where the step is refused.
///
/// An increment is refused at `i32::MAX`. A decrement is never refused: at
/// `i32::MIN` it wraps around to `i32::MAX`.
pub open spec fn step(value: i32, direction: Direction) -> Option<i32> {
    match direction {
        Direction::Increment => if value == i32::MAX {
            None
        } else {
            Some((value + 1) as i32)
        },
        Direction::Decrement => if value == i32::MIN {
            Some(i32::MAX)
        } else {
            Some((value - 1) as i32)
        },
    }
}

/// The value of a counter after a step was issued against it, refused or not:
/// a refused step leaves the value as it was.
pub open spec fn settle(value: i32, direction: Direction) -> i32 {
    match step(value, direction) {
        Some(next) => next,
        None => value,
    }
}

/// The value of a counter that started at `start` after the steps of
/// `history` were issued against it in order.
pub open spec fn replay(start: i32, history: Seq<Direction>) -> i32
    decreases history.len(),
{
    if history.len() == 0 {
        start
    } else {
        settle(replay(start, history.drop_last()), history.last())
    }
}

/// How many increments of `history` were applied, that is, issued while the
/// counter was below `i32::MAX`.
pub open spec fn applied_increments(start: i32, history: Seq<Direction>) -> nat
    decreases history.len(),
{
    if history.len() == 0 {
        0
    } else {
        let earlier = applied_increments(start, history.drop_last());
        if history.last() == Direction::Increment && replay(start, history.drop_last())
            != i32::MAX {
            earlier + 1
        } else {
            earlier
        }
    }
}

/// How many decrements `history` holds.
pub open spec fn decrements(history: Seq<Direction>) -> nat
    decreases history.len(),
{
    if history.len() == 0 {
        0
    } else if history.last() == Direction::Decrement {
        decrements(history.drop_last()) + 1
    } else {
        decrements(history.drop_last())
    }
}

/// No decrement of `history` was issued while the counter held `i32::MIN`.
pub open spec fn never_wraps(start: i32, history: Seq<Direction>) -> bool {
    forall|i: int|
        0 <= i < history.len() && history[i] == Direction::Decrement ==> #[trigger] replay(
            start,
            history.take(i),
        ) != i32::MIN
}

/// Computes one step of the counter.
pub fn next_count(current: i32, direction: Direction) -> (next: Option<i32>)
    ensures
        next == step(current, direction),
{
    match direction {
        Direction::Increment => current.checked_add(1),
        Direction::Decrement => Some(current.wrapping_sub(1)),
    }
}

/// A history issued against a fresh counter leaves the algebraic sum of its
/// steps: one up for each increment that was applied, one down for each
/// decrement. An increment is refused, and counts for nothing, exactly when
/// it is issued at `i32::MAX`. This holds of every history in which no
/// decrement meets `i32::MIN`.
pub proof fn lemma_replay_is_sum(history: Seq<Direction>)
    requires
        never_wraps(0, history),
    ensures
        replay(0, history) == applied_increments(0, history) - decrements(history),
        forall|i: int|
            0 <= i < history.len() ==> (step(#[trigger] replay(0, history.take(i)), history[i])
                is None <==> history[i] == Direction::Increment && replay(0, history.take(i))
                == i32::MAX),
    decreases history.len(),
{
    if history.len() > 0 {
        let earlier = history.drop_last();
        assert forall|i: int|
            0 <= i < earlier.len() && earlier[i] == Direction::Decrement implies #[trigger] replay(
            0,
            earlier.take(i),
        ) != i32::MIN by {
            assert(earlier.take(i) == history.take(i));
        }
        lemma_replay_is_sum(earlier);
        if history.last() == Direction::Decrement {
            assert(history.take(history.len() - 1) == earlier);
        }
    }
}

/// An increment immediately followed by a decrement restores the value the
/// counter had. This holds of every value on which the increment is applied,
/// that is, of every value but `i32::MAX`.
pub proof fn lemma_increment_then_decrement(value: i32)
    requires
        value != i32::MAX,
    ensures
        replay(value, seq![Direction::Increment, Direction::Decrement]) == value,
{
    let both = seq![Direction::Increment, Direction::Decrement];
    let first = both.drop_last();
    assert(replay(value, first.drop_last()) == value);
    assert(replay(value, first) == settle(value, Direction::Increment));
}

/// A history made of increments alone, issued against a fresh counter, leaves
/// their number, as long as that number fits: none is lost, in whatever order
/// their callers took their turns.
pub proof fn lemma_increments_are_counted(history: Seq<Direction>)
    requires
        forall|i: int| 0 <= i < history.len() ==> history[i] == Direction::Increment,
        history.len() <= i32::MAX,
    ensures
        replay(0, history) == history.len(),
    decreases history.len(),
{
    if history.len() > 0 {
        lemma_increments_are_counted(history.drop_last());
    }
}

} // verus!
