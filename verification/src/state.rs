//! The shared counter: one signed 32-bit cell that every handler and every
//! push session reads and updates without a lock.

use std::sync::Arc;
use std::sync::atomic::AtomicI32;
use std::sync::atomic::Ordering;
use vstd::prelude::*;
use crate::client::Direction;
use crate::counter::{
    applied_increments, decrements, lemma_increments_are_counted, lemma_replay_is_sum, never_wraps,
    next_count, replay, step,
};

verus! {

/// The error of an increment that met a counter at `i32::MAX`.
#[derive(Clone, Copy, Debug, PartialEq, Eq, Structural)]
pub struct OverflowError;

/// One step as the shared counter took it: the value that the step met, and
/// the value that it put in its place, if it was applied.
#[derive(Clone, Copy, Debug, PartialEq, Eq, Structural)]
pub struct Change {
    pub previous: i32,
    pub next: Option<i32>,
}

/// The state of the application: the counter, shared by all who hold a clone.
///
/// The cell is read and written by other threads at any time, so no contract
/// speaks of what it holds. What a contract states is how the value that an
/// operation met relates to what the operation returns.
#[derive(Clone)]
pub struct AppState {
    pub count: Arc<AtomicI32>,
}

/// The value that a change left in the counter.
pub open spec fn settled(change: Change) -> i32 {
    match change.next {
        Some(value) => value,
        None => change.previous,
    }
}

/// The changes are those of the steps of `history`, taken one after another
/// on a counter that held `start`, with no other step in between: each met
/// the value that the one before it left.
pub open spec fn unbroken(changes: Seq<Change>, start: i32, history: Seq<Direction>) -> bool {
    &&& changes.len() == history.len()
    &&& forall|i: int|
        0 <= i < changes.len() ==> (#[trigger] changes[i]).next == step(
            changes[i].previous,
            history[i],
        )
    &&& forall|i: int|
        0 <= i < changes.len() ==> (#[trigger] changes[i]).previous == if i == 0 {
            start
        } else {
            settled(changes[i - 1])
        }
}

/// The value that a cell was made with. It says nothing of what the cell
/// holds later: every holder of the cell may write to it.
pub uninterp spec fn started_at(cell: AtomicI32) -> i32;

/// Makes a cell with `AtomicI32::new`, which gives a new atomic integer that
/// holds the value handed in.
#[verifier::external_body]
fn new_cell(value: i32) -> (cell: AtomicI32)
    ensures
        started_at(cell) == value,
{
    AtomicI32::new(value)
}

/// Applies one step to the cell with `AtomicI32::fetch_update`, which loads
/// the value, hands it to [`next_count`] and stores what that returns, all as
/// one atomic update (the function is tried again if another thread got in
/// between). As std documents, it gives back `Ok` with the value it replaced
/// where the function returned `Some`, and `Err` with the value it found
/// where the function returned `None`; the cell is then left as it was.
#[verifier::external_body]
fn update_count(cell: &AtomicI32, direction: Direction) -> (outcome: Result<i32, i32>)
    ensures
        match outcome {
            Ok(previous) => step(previous, direction) is Some,
            Err(found) => step(found, direction) is None,
        },
{
    cell.fetch_update(Ordering::Relaxed, Ordering::Relaxed, |current| next_count(current, direction))
}

impl Change {
    /// The value that the change left in the counter: the new one where the
    /// step was applied, the old one where it was refused.
    pub fn settled(&self) -> (value: i32)
        ensures
            value == settled(*self),
    {
        match self.next {
            Some(value) => value,
            None => self.previous,
        }
    }
}

impl AppState {
    /// A fresh counter. It starts at 0.
    pub fn new() -> (state: AppState)
        ensures
            started_at(*state.count) == 0,
    {
        AppState { count: Arc::new(new_cell(0)) }
    }

    /// Reads the counter. Always succeeds.
    pub fn get(&self) -> (value: i32) {
        self.count.load(Ordering::Relaxed)
    }

    /// Takes one step on the counter, as one atomic update, and reports the
    /// value that the step met and what it made of it. A step that is
    /// refused leaves the counter as it was.
    pub fn alter(&self, direction: Direction) -> (change: Change)
        ensures
            change.next == step(change.previous, direction),
    {
        match update_count(&self.count, direction) {
            Ok(previous) => Change { previous, next: next_count(previous, direction) },
            Err(found) => Change { previous: found, next: None },
        }
    }

    /// Adds 1 to the counter and returns the new value, unless the counter is
    /// at `i32::MAX`: then it is left as it is and the overflow is reported.
    ///
    /// The result is [`Change::outcome`] of the step that [`AppState::alter`]
    /// took for an increment. Which value that step met is for the cell to say.
    pub fn increment(&self) -> (result: Result<i32, OverflowError>)
        ensures
            result matches Ok(value) ==> exists|previous: i32|
                step(previous, Direction::Increment) == Some(value),
    {
        let change = self.alter(Direction::Increment);
        change.outcome()
    }

    /// Subtracts 1 from the counter and returns the new value. There is no
    /// guard at the lower end: at `i32::MIN` the counter wraps around to
    /// `i32::MAX`. The result is [`Change::settled`] of the step that
    /// [`AppState::alter`] took for a decrement, and every value is one that
    /// some decrement leaves.
    pub fn decrement(&self) -> (value: i32) {
        self.alter(Direction::Decrement).settled()
    }
}

/// Steps that nobody came between leave what their history leaves: the last
/// change settles on the value that replaying the history from the start
/// gives.
pub proof fn lemma_unbroken_changes_replay(
    changes: Seq<Change>,
    start: i32,
    history: Seq<Direction>,
)
    requires
        unbroken(changes, start, history),
        changes.len() > 0,
    ensures
        settled(changes.last()) == replay(start, history),
    decreases changes.len(),
{
    if changes.len() == 1 {
        assert(replay(start, history.drop_last()) == start);
    } else {
        let earlier = changes.drop_last();
        let told = history.drop_last();
        assert(unbroken(earlier, start, told));
        lemma_unbroken_changes_replay(earlier, start, told);
    }
}

/// A fresh counter holds the algebraic sum of the steps taken on it: one up
/// for each increment that was applied, one down for each decrement, and
/// nothing for an increment that met `i32::MAX` and was refused. This holds
/// as long as no decrement met `i32::MIN`.
pub proof fn lemma_fresh_counter_holds_the_sum(changes: Seq<Change>, history: Seq<Direction>)
    requires
        unbroken(changes, 0, history),
        never_wraps(0, history),
        changes.len() > 0,
    ensures
        settled(changes.last()) == applied_increments(0, history) - decrements(history),
{
    lemma_unbroken_changes_replay(changes, 0, history);
    lemma_replay_is_sum(history);
}

/// An increment immediately followed by a decrement restores the value: if
/// the decrement met what the increment left, it leaves what the increment
/// met. This holds whenever the increment was applied, that is, unless it
/// met `i32::MAX`.
pub proof fn lemma_decrement_undoes_increment(up: Change, down: Change)
    requires
        up.next == step(up.previous, Direction::Increment),
        down.next == step(down.previous, Direction::Decrement),
        down.previous == settled(up),
        up.previous != i32::MAX,
    ensures
        settled(down) == up.previous,
{
}

/// In an unbroken run of changes each step met what replaying the steps
/// before it leaves.
pub proof fn lemma_unbroken_change_meets_replay(
    changes: Seq<Change>,
    start: i32,
    history: Seq<Direction>,
    i: int,
)
    requires
        unbroken(changes, start, history),
        0 <= i < changes.len(),
    ensures
        changes[i].previous == replay(start, history.take(i)),
{
    if i > 0 {
        let earlier = changes.take(i);
        let told = history.take(i);
        assert(unbroken(earlier, start, told));
        lemma_unbroken_changes_replay(earlier, start, told);
        assert(earlier.last() == changes[i - 1]);
    }
}

/// No increment is lost. When `callers` callers issue `each` increments each
/// against a fresh counter, the cell takes their steps one at a time, in
/// some order: the changes are unbroken, whoever made them. Every one of
/// the steps is then applied, and the counter holds the number of all of
/// them, as long as that number fits.
pub proof fn lemma_no_increment_is_lost(
    changes: Seq<Change>,
    history: Seq<Direction>,
    callers: nat,
    each: nat,
)
    requires
        unbroken(changes, 0, history),
        forall|i: int| 0 <= i < history.len() ==> history[i] == Direction::Increment,
        history.len() == callers * each,
        0 < callers * each <= i32::MAX,
    ensures
        settled(changes.last()) == callers * each,
        forall|i: int| 0 <= i < changes.len() ==> (#[trigger] changes[i]).next is Some,
{
    lemma_unbroken_changes_replay(changes, 0, history);
    lemma_increments_are_counted(history);
    assert forall|i: int| 0 <= i < changes.len() implies (#[trigger] changes[i]).next is Some by {
        lemma_unbroken_change_meets_replay(changes, 0, history, i);
        lemma_increments_are_counted(history.take(i));
    }
}

/// What a step reports to the one who asked for it: the new value where it
/// was applied, and the overflow where it was refused. Only an increment
/// that met `i32::MAX` is refused.
pub open spec fn outcome(change: Change) -> Result<i32, OverflowError> {
    match change.next {
        Some(value) => Ok(value),
        None => Err(OverflowError),
    }
}

impl Change {
    /// What the step reports: the new value, or the overflow.
    pub fn outcome(&self) -> (result: Result<i32, OverflowError>)
        ensures
            result == outcome(*self),
    {
        match self.next {
            Some(value) => Ok(value),
            None => Err(OverflowError),
        }
    }
}

} // verus!
