//! A shared integer counter with a request/response interface and a
//! live-push session protocol.
//!
//! - [`client`]: the direction of an update, the request that carries it,
//!   the snapshot that answers, and their forms on the wire.
//! - [`counter`]: the counter as a value, one step at a time, and what
//!   histories of steps leave behind.
//! - [`state`]: the shared cell that takes those steps atomically.
//! - [`routes`]: reading and altering the counter on a client's request.
//! - [`session`]: the push session, which tells an observer of every change
//!   it sees.
//! - [`components`]: the counter as an observer's page keeps and shows it.
//! - [`text`]: integers in decimal.

pub mod client;
pub mod components;
pub mod counter;
pub mod routes;
pub mod session;
pub mod state;
pub mod text;
