//! The push session: one per connected observer.
//!
//! A session is a state machine. Whoever owns the transport drives it: each
//! [`Action`] names one piece of work on the transport or the clock, and the
//! report of how that work went is the next input. The machine decides what
//! is sent and when the session ends; it never touches the transport itself.
//!
//! The session has two activities. The notifier is the machine proper: after
//! the handshake it sends a first snapshot and then, once per polling
//! interval, a fresh one whenever the counter differs from the value last
//! sent. The listener classifies what the observer sends, see
//! [`process_message`]. Neither signals the other: each ends on its own.

use std::ops::ControlFlow;
use vstd::prelude::*;
use crate::client::snapshot_text;
use crate::routes::count::snapshot_of;
use crate::state::AppState;

verus! {

/// The pause between two looks at the counter, in milliseconds.
pub const POLL_INTERVAL_MS: u64 = 100;

/// The code of a closing frame that ends a session in the ordinary way.
pub const CLOSE_NORMAL: u16 = 1000;

/// The payload of the liveness probe that opens every session.
pub open spec fn probe_payload() -> Seq<u8> {
    seq![1u8, 2u8, 3u8]
}

/// The reason that the closing frame gives.
pub open spec fn closing_reason() -> Seq<char> {
    "hanging up"@
}

/// A frame that an observer sent.
#[derive(Clone, Debug, PartialEq, Eq)]
pub enum Frame {
    Text(String),
    Binary(Vec<u8>),
    Ping(Vec<u8>),
    Pong(Vec<u8>),
    Close,
}

/// The states that a session passes through, in this order. It may go from
/// `Handshaking` straight to `Closed`.
#[derive(Clone, Copy, Debug, PartialEq, Eq, Structural)]
pub enum SessionState {
    Connecting,
    Handshaking,
    Active,
    Closing,
    Closed,
}

/// What a session is waiting for.
#[derive(Clone, Copy, Debug, PartialEq, Eq, Structural)]
pub enum Phase {
    /// For the transport to accept the upgrade.
    Connecting,
    /// For the report on the liveness probe.
    Handshaking,
    /// For the report on a snapshot.
    Sending,
    /// For the polling interval to pass.
    Sleeping,
    /// For the closing frame to have been tried.
    Closing,
    /// For nothing: the session has ended.
    Closed,
}

/// The state that a phase belongs to: a session is active while it sends
/// and sleeps in turn.
pub open spec fn phase_state(phase: Phase) -> SessionState {
    match phase {
        Phase::Connecting => SessionState::Connecting,
        Phase::Handshaking => SessionState::Handshaking,
        Phase::Sending => SessionState::Active,
        Phase::Sleeping => SessionState::Active,
        Phase::Closing => SessionState::Closing,
        Phase::Closed => SessionState::Closed,
    }
}

/// What the owner of the transport is to do next.
#[derive(Clone, Debug, PartialEq, Eq)]
pub enum Action {
    /// Send a liveness probe with this payload, and report whether it went
    /// out.
    SendProbe(Vec<u8>),
    /// Send this snapshot as a text frame, and report whether it went out.
    SendSnapshot(String),
    /// Wait this many milliseconds.
    Sleep(u64),
    /// Try once to send a closing frame with this code and reason. How that
    /// went is of no interest.
    SendClosing(u16, String),
    /// Nothing: the session has ended.
    Stop,
}

/// An action as a value of the model.
pub enum ActionView {
    SendProbe(Seq<u8>),
    SendSnapshot(Seq<char>),
    Sleep(u64),
    SendClosing(u16, Seq<char>),
    Stop,
}

impl View for Action {
    type V = ActionView;

    open spec fn view(&self) -> ActionView {
        match self {
            Action::SendProbe(payload) => ActionView::SendProbe(payload@),
            Action::SendSnapshot(text) => ActionView::SendSnapshot(text@),
            Action::Sleep(millis) => ActionView::Sleep(*millis),
            Action::SendClosing(code, reason) => ActionView::SendClosing(*code, reason@),
            Action::Stop => ActionView::Stop,
        }
    }
}

/// A session as a value of the model: its phase, and the counter value that
/// it last took note of.
pub struct SessionView {
    pub phase: Phase,
    pub last_seen: i32,
}

/// One push session.
pub struct PushSession {
    phase: Phase,
    last_seen: i32,
}

impl View for PushSession {
    type V = SessionView;

    closed spec fn view(&self) -> SessionView {
        SessionView { phase: self.phase, last_seen: self.last_seen }
    }
}

/// A session before its transport is accepted.
pub open spec fn initial_session() -> SessionView {
    SessionView { phase: Phase::Connecting, last_seen: 0 }
}

/// Whether the next transition looks at the counter: when the probe is out,
/// for the value at connect time, and whenever the polling interval has
/// passed.
pub open spec fn polls(session: SessionView, delivered: bool) -> bool {
    match session.phase {
        Phase::Handshaking => delivered,
        Phase::Sleeping => true,
        _ => false,
    }
}

/// Whether the next transition wants the snapshot of `count`: it does for
/// the value at connect time, and later for every value that differs from
/// the one last noted.
pub open spec fn due(session: SessionView, delivered: bool, count: i32) -> bool {
    match session.phase {
        Phase::Handshaking => delivered,
        Phase::Sleeping => count != session.last_seen,
        _ => false,
    }
}

/// The session notes `count` and sends its snapshot; where it is given none
/// to send, it waits for the next look.
pub open spec fn announce(count: i32, snapshot: Option<Seq<char>>) -> (SessionView, ActionView) {
    match snapshot {
        Some(text) => (
            SessionView { phase: Phase::Sending, last_seen: count },
            ActionView::SendSnapshot(text),
        ),
        None => (
            SessionView { phase: Phase::Sleeping, last_seen: count },
            ActionView::Sleep(POLL_INTERVAL_MS),
        ),
    }
}

/// The one transition of a session.
///
/// `delivered` reports on the frame that the last action sent; `count` is
/// the counter as it is read now, where the transition [`polls`]; `snapshot`
/// is the text that the session is given for `count`. A session that
/// [`PushSession::advance`] drives is given one whenever one is [`due`].
pub open spec fn transition(
    session: SessionView,
    delivered: bool,
    count: i32,
    snapshot: Option<Seq<char>>,
) -> (SessionView, ActionView) {
    match session.phase {
        Phase::Connecting => (
            SessionView { phase: Phase::Handshaking, last_seen: session.last_seen },
            ActionView::SendProbe(probe_payload()),
        ),
        Phase::Handshaking => if delivered {
            announce(count, snapshot)
        } else {
            (
                SessionView { phase: Phase::Closed, last_seen: session.last_seen },
                ActionView::Stop,
            )
        },
        Phase::Sending => if delivered {
            (
                SessionView { phase: Phase::Sleeping, last_seen: session.last_seen },
                ActionView::Sleep(POLL_INTERVAL_MS),
            )
        } else {
            (
                SessionView { phase: Phase::Closing, last_seen: session.last_seen },
                ActionView::SendClosing(CLOSE_NORMAL, closing_reason()),
            )
        },
        Phase::Sleeping => if count != session.last_seen {
            announce(count, snapshot)
        } else {
            (session, ActionView::Sleep(POLL_INTERVAL_MS))
        },
        Phase::Closing => (
            SessionView { phase: Phase::Closed, last_seen: session.last_seen },
            ActionView::Stop,
        ),
        Phase::Closed => (session, ActionView::Stop),
    }
}

/// The snapshot that a transition is given when it is driven by
/// [`PushSession::advance`]: the text of `count` whenever one is due, and
/// none otherwise.
pub open spec fn rendered(session: SessionView, delivered: bool, count: i32) -> Option<
    Seq<char>,
> {
    if due(session, delivered, count) {
        Some(snapshot_text(count))
    } else {
        None
    }
}

/// The transition of a session that [`PushSession::advance`] drives: the
/// one [`transition`], with the snapshot rendered whenever one is due.
pub open spec fn driven(session: SessionView, delivered: bool, count: i32) -> (
    SessionView,
    ActionView,
) {
    transition(session, delivered, count, rendered(session, delivered, count))
}

/// The text of an optional snapshot as a value of the model.
pub open spec fn text_view(snapshot: Option<String>) -> Option<Seq<char>> {
    match snapshot {
        Some(text) => Some(text@),
        None => None,
    }
}

impl PushSession {
    /// A session whose transport has not been accepted yet.
    pub fn new() -> (session: PushSession)
        ensures
            session@ == initial_session(),
    {
        PushSession { phase: Phase::Connecting, last_seen: 0 }
    }

    /// What the session is waiting for.
    pub fn phase(&self) -> (phase: Phase)
        ensures
            phase == self@.phase,
    {
        self.phase
    }

    /// The state of the session.
    pub fn state(&self) -> (state: SessionState)
        ensures
            state == phase_state(self@.phase),
    {
        match self.phase {
            Phase::Connecting => SessionState::Connecting,
            Phase::Handshaking => SessionState::Handshaking,
            Phase::Sending => SessionState::Active,
            Phase::Sleeping => SessionState::Active,
            Phase::Closing => SessionState::Closing,
            Phase::Closed => SessionState::Closed,
        }
    }

    /// The counter value that the session last took note of.
    pub fn last_seen(&self) -> (count: i32)
        ensures
            count == self@.last_seen,
    {
        self.last_seen
    }

    /// Whether the next transition looks at the counter.
    pub fn polls(&self, delivered: bool) -> (looks: bool)
        ensures
            looks == polls(self@, delivered),
    {
        match self.phase {
            Phase::Handshaking => delivered,
            Phase::Sleeping => true,
            _ => false,
        }
    }

    /// Whether the next transition wants the snapshot of `count`.
    pub fn due(&self, delivered: bool, count: i32) -> (wanted: bool)
        ensures
            wanted == due(self@, delivered, count),
    {
        match self.phase {
            Phase::Handshaking => delivered,
            Phase::Sleeping => count != self.last_seen,
            _ => false,
        }
    }

    /// Takes one transition on inputs that are all given.
    pub fn step(&mut self, delivered: bool, count: i32, snapshot: Option<String>) -> (action:
        Action)
        ensures
            (final(self)@, action@) == transition(
                old(self)@,
                delivered,
                count,
                text_view(snapshot),
            ),
    {
        match self.phase {
            Phase::Connecting => {
                self.phase = Phase::Handshaking;
                let payload = vec![1u8, 2u8, 3u8];
                Action::SendProbe(payload)
            },
            Phase::Handshaking => if delivered {
                self.announce(count, snapshot)
            } else {
                self.phase = Phase::Closed;
                Action::Stop
            },
            Phase::Sending => if delivered {
                self.phase = Phase::Sleeping;
                Action::Sleep(POLL_INTERVAL_MS)
            } else {
                self.phase = Phase::Closing;
                Action::SendClosing(CLOSE_NORMAL, "hanging up".to_owned())
            },
            Phase::Sleeping => if count != self.last_seen {
                self.announce(count, snapshot)
            } else {
                Action::Sleep(POLL_INTERVAL_MS)
            },
            Phase::Closing => {
                self.phase = Phase::Closed;
                Action::Stop
            },
            Phase::Closed => Action::Stop,
        }
    }

    /// Notes `count` and hands out its snapshot, if there is one.
    fn announce(&mut self, count: i32, snapshot: Option<String>) -> (action: Action)
        ensures
            (final(self)@, action@) == announce(count, text_view(snapshot)),
    {
        self.last_seen = count;
        match snapshot {
            Some(text) => {
                self.phase = Phase::Sending;
                Action::SendSnapshot(text)
            },
            None => {
                self.phase = Phase::Sleeping;
                Action::Sleep(POLL_INTERVAL_MS)
            },
        }
    }

    /// Takes one transition: looks at the counter where the transition
    /// polls, renders the snapshot where one is due, and steps.
    ///
    /// `delivered` reports on the frame that the last action sent. The
    /// counter is shared, so the contract states the transition for whatever
    /// value was read. The snapshot is there whenever one is due, and it is
    /// the text of the value read.
    pub fn advance(&mut self, counter: &AppState, delivered: bool) -> (action: Action)
        ensures
            exists|count: i32|
                {
                    &&& !polls(old(self)@, delivered) ==> count == old(self)@.last_seen
                    &&& (final(self)@, action@) == #[trigger] driven(old(self)@, delivered, count)
                },
    {
        let count = if self.polls(delivered) {
            counter.get()
        } else {
            self.last_seen
        };
        let snapshot = if self.due(delivered, count) {
            match snapshot_of(count) {
                Ok(text) => Some(text),
                Err(_) => None,
            }
        } else {
            None
        };
        let action = self.step(delivered, count, snapshot);
        assert((self@, action@) == driven(old(self)@, delivered, count));
        action
    }
}

/// Classifies a frame that the observer sent. Only a close frame ends the
/// listener; text, binary data, pings and pongs are of no effect.
pub fn process_message(msg: Frame) -> (flow: ControlFlow<(), ()>)
    ensures
        flow is Break <==> msg is Close,
{
    match msg {
        Frame::Text(_) => ControlFlow::Continue(()),
        Frame::Binary(_) => ControlFlow::Continue(()),
        Frame::Ping(_) => ControlFlow::Continue(()),
        Frame::Pong(_) => ControlFlow::Continue(()),
        Frame::Close => ControlFlow::Break(()),
    }
}

/// Decides whether the listener goes on after one attempt to receive.
/// `None` stands for a transport that failed or ran dry: the listener ends,
/// as it does on a close frame.
pub fn receive(inbound: Option<Frame>) -> (flow: ControlFlow<(), ()>)
    ensures
        flow is Continue <==> (inbound matches Some(frame) && !(frame is Close)),
{
    match inbound {
        Some(frame) => process_message(frame),
        None => ControlFlow::Break(()),
    }
}

/// The place of a state in the order in which a session passes through
/// them.
pub open spec fn state_rank(state: SessionState) -> nat {
    match state {
        SessionState::Connecting => 0,
        SessionState::Handshaking => 1,
        SessionState::Active => 2,
        SessionState::Closing => 3,
        SessionState::Closed => 4,
    }
}

/// On opening the push channel the first frame is the liveness probe, with
/// the three bytes 1, 2, 3, whatever the session is told. Once that is out,
/// the second frame is the snapshot of the counter as it is read then, and
/// that value is the one the session notes.
pub proof fn lemma_opening_frames(report: bool, early: i32, count: i32)
    ensures
        ({
            let (accepted, first) = driven(initial_session(), report, early);
            let (active, second) = driven(accepted, true, count);
            &&& first == ActionView::SendProbe(seq![1u8, 2u8, 3u8])
            &&& phase_state(accepted.phase) == SessionState::Handshaking
            &&& second == ActionView::SendSnapshot(snapshot_text(count))
            &&& phase_state(active.phase) == SessionState::Active
            &&& active.last_seen == count
        }),
{
}

/// A change of the counter reaches a connected observer with the next look:
/// an active session that waits for a snapshot to go out pauses next, and
/// when the pause is over and the counter differs from the value last
/// noted, the snapshot of the new value is sent. No pause is longer than one
/// interval of 100 milliseconds.
pub proof fn lemma_change_is_pushed(session: SessionView, count: i32)
    requires
        phase_state(session.phase) == SessionState::Active,
        count != session.last_seen,
    ensures
        ({
            let pausing = SessionView { phase: Phase::Sleeping, last_seen: session.last_seen };
            &&& session.phase == Phase::Sending ==> forall|value: i32|
                #[trigger] driven(session, true, value) == (pausing, ActionView::Sleep(100))
            &&& session.phase == Phase::Sleeping ==> session == pausing
            &&& forall|report: bool|
                #[trigger] driven(pausing, report, count) == (
                    SessionView { phase: Phase::Sending, last_seen: count },
                    ActionView::SendSnapshot(snapshot_text(count)),
                )
        }),
        forall|any: SessionView, report: bool, value: i32, text: Option<Seq<char>>|
            (#[trigger] transition(any, report, value, text)).1 is Sleep ==> transition(
                any,
                report,
                value,
                text,
            ).1 == ActionView::Sleep(100),
{
}

/// A session never goes back: every transition leaves it in its state or in
/// a later one. It may only pause while it is active, and once it is closed
/// it stays closed and does nothing.
pub proof fn lemma_states_only_advance(
    session: SessionView,
    delivered: bool,
    count: i32,
    snapshot: Option<Seq<char>>,
)
    ensures
        ({
            let (next, action) = transition(session, delivered, count, snapshot);
            &&& state_rank(phase_state(session.phase)) <= state_rank(phase_state(next.phase))
            &&& action is Sleep ==> phase_state(next.phase) == SessionState::Active
            &&& action is SendSnapshot ==> phase_state(next.phase) == SessionState::Active
            &&& phase_state(session.phase) == SessionState::Closed ==> next == session && action
                == ActionView::Stop
        }),
{
}

/// A snapshot goes out only for a value that the session had not noted, or
/// as the first frame after the probe, and the session notes the value as it
/// sends. While the counter holds what was last noted, nothing is sent.
pub proof fn lemma_snapshots_follow_changes(
    session: SessionView,
    delivered: bool,
    count: i32,
    snapshot: Option<Seq<char>>,
)
    ensures
        ({
            let (next, action) = transition(session, delivered, count, snapshot);
            &&& action is SendSnapshot ==> due(session, delivered, count) && next.last_seen
                == count && snapshot == Some(action->SendSnapshot_0)
            &&& !due(session, delivered, count) ==> next.last_seen == session.last_seen
        }),
{
}

/// A send that fails ends the notifier: a failed probe closes the session at
/// once, and a failed snapshot is followed by one closing frame and then by
/// nothing.
pub proof fn lemma_failed_send_ends_session(
    session: SessionView,
    count: i32,
    snapshot: Option<Seq<char>>,
)
    ensures
        session.phase == Phase::Handshaking ==> transition(session, false, count, snapshot) == (
            SessionView { phase: Phase::Closed, last_seen: session.last_seen },
            ActionView::Stop,
        ),
        session.phase == Phase::Sending ==> ({
            let (closing, farewell) = transition(session, false, count, snapshot);
            &&& farewell == ActionView::SendClosing(1000, "hanging up"@)
            &&& phase_state(closing.phase) == SessionState::Closing
            &&& forall|report: bool, value: i32, text: Option<Seq<char>>|
                #[trigger] transition(closing, report, value, text) == (
                    SessionView { phase: Phase::Closed, last_seen: session.last_seen },
                    ActionView::Stop,
                )
        }),
{
}

/// A driven session sends what it notes. Whenever it takes note of a value
/// it sends the snapshot of that value in the same transition, and it sends
/// no snapshot but that of the value it notes. After the first snapshot it
/// notes a value only when the value differs from the one it had noted, so
/// no two snapshots in a row are of the same value, and the last snapshot
/// sent is that of the value last noted.
pub proof fn lemma_driven_session_sends_what_it_notes(
    session: SessionView,
    delivered: bool,
    count: i32,
)
    ensures
        ({
            let (next, action) = driven(session, delivered, count);
            &&& action is SendSnapshot <==> due(session, delivered, count)
            &&& action is SendSnapshot ==> next.last_seen == count && action
                == ActionView::SendSnapshot(snapshot_text(count))
            &&& action is SendSnapshot && session.phase == Phase::Sleeping ==> count
                != session.last_seen
            &&& !(action is SendSnapshot) ==> next.last_seen == session.last_seen
        }),
{
}

} // verus!
