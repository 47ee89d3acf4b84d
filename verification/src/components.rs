//! What an observer's page is made of.

pub mod counter;
