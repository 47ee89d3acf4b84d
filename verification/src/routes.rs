//! The operations that the server offers to its clients.

pub mod count;
