//! The counter as an observer's page shows it: the latest snapshot, the
//! connection that brings the snapshots, and how both change with what
//! happens on the page.
//!
//! The connection and its errors belong to the page's own plumbing. The
//! component only keeps or drops them, so they are type parameters here.

use vstd::prelude::*;
use vstd::std_specs::convert::FromSpecImpl;
use vstd::string::StringExecFns;
use crate::client::{direction_token, CountRequest, CountResponse};
use crate::routes::count::COUNT_PATH;
use crate::text::{decimal, decimal_text};

verus! {

/// What can happen to the connection of a page.
#[derive(Clone, Copy, Debug, PartialEq, Eq, Structural)]
pub enum WsAction {
    SendData,
    Disconnect,
    Lost,
}

/// What a page is told: something about its connection, or what the
/// connection brought, a snapshot or the error of one that did not parse.
pub enum Msg<E> {
    WsAction(WsAction),
    WsReady(Result<CountResponse, E>),
}

impl<E> From<WsAction> for Msg<E> {
    fn from(action: WsAction) -> (msg: Msg<E>) {
        Msg::WsAction(action)
    }
}

impl<E> FromSpecImpl<WsAction> for Msg<E> {
    open spec fn obeys_from_spec() -> bool {
        true
    }

    open spec fn from_spec(action: WsAction) -> Msg<E> {
        Msg::WsAction(action)
    }
}

/// How a connection reports on itself.
#[derive(Clone, Copy, Debug, PartialEq, Eq, Structural)]
pub enum ConnectionStatus {
    Opened,
    Closed,
    Error,
}

/// The counter on a page: the snapshot it shows, if one has come, and the
/// connection, as long as there is one.
pub struct Counter<T> {
    pub data: Option<CountResponse>,
    pub ws: Option<T>,
}

/// The line that a page shows for its snapshot.
pub open spec fn count_line(data: Option<CountResponse>) -> Seq<char> {
    match data {
        Some(value) => "The counter value is: "@ + decimal(value.count as int),
        None => "The count hasn't loaded yet."@,
    }
}

/// The path that a request to alter the counter is posted to.
pub open spec fn update_path(request: CountRequest) -> Seq<char> {
    COUNT_PATH@ + "/"@ + direction_token(request.direction)
}

/// What a page is told when its connection reports on itself: nothing when
/// it opened, and that it is lost when it closed or failed.
pub fn notification<E>(status: ConnectionStatus) -> (msg: Option<Msg<E>>)
    ensures
        msg == match status {
            ConnectionStatus::Opened => None::<Msg<E>>,
            ConnectionStatus::Closed => Some(Msg::<E>::WsAction(WsAction::Lost)),
            ConnectionStatus::Error => Some(Msg::<E>::WsAction(WsAction::Lost)),
        },
{
    match status {
        ConnectionStatus::Opened => None,
        ConnectionStatus::Closed => Some(Msg::from(WsAction::Lost)),
        ConnectionStatus::Error => Some(Msg::from(WsAction::Lost)),
    }
}

/// The path that `request` is posted to.
pub fn count_update_path(request: &CountRequest) -> (path: String)
    ensures
        path@ == update_path(*request),
{
    let mut path = COUNT_PATH.to_owned();
    let token = request.to_string();
    path.append("/");
    path.append(token.as_str());
    path
}

impl<T> Counter<T> {
    /// A page that has just connected: no snapshot yet.
    pub fn new(task: T) -> (page: Counter<T>)
        ensures
            page.data is None,
            page.ws == Some(task),
    {
        Counter { data: None, ws: Some(task) }
    }

    /// Takes note of what the page was told, and says whether the page has
    /// to be drawn again.
    ///
    /// A snapshot replaces the one shown. A connection that was dropped or
    /// lost is let go. Nothing else changes anything.
    pub fn update<E>(&mut self, msg: Msg<E>) -> (redraw: bool)
        ensures
            match msg {
                Msg::WsAction(WsAction::SendData) => !redraw && *final(self) == *old(self),
                Msg::WsAction(_) => redraw && final(self).ws is None && final(self).data == old(
                    self,
                ).data,
                Msg::WsReady(Ok(response)) => redraw && final(self).data == Some(response)
                    && final(self).ws == old(self).ws,
                Msg::WsReady(Err(_)) => !redraw && *final(self) == *old(self),
            },
    {
        match msg {
            Msg::WsAction(action) => match action {
                WsAction::SendData => false,
                WsAction::Disconnect => {
                    self.ws = None;
                    true
                },
                WsAction::Lost => {
                    self.ws = None;
                    true
                },
            },
            Msg::WsReady(response) => match response {
                Ok(wsr) => {
                    self.data = Some(wsr);
                    true
                },
                Err(_) => false,
            },
        }
    }

    /// The line that the page shows for its snapshot.
    pub fn view_count(&self) -> (line: String)
        ensures
            line@ == count_line(self.data),
    {
        match &self.data {
            Some(value) => {
                let mut line = "The counter value is: ".to_owned();
                let number = decimal_text(value.count);
                line.append(number.as_str());
                line
            },
            None => "The count hasn't loaded yet.".to_owned(),
        }
    }
}

} // verus!
