//! The state and the rules of a live polling server.
//!
//! Somebody creates a poll, starts it and stops it. While it is running, voters
//! send votes, and screens show the counts. This library holds the polls and
//! the connections, counts the votes, and decides what is answered and what is
//! sent to whom. Sockets and requests are left to its user.
//!
//! - [`poll`] and [`table`]: one poll, and the polls under their ids.
//! - [`json`] and [`message`]: documents, what is sent, and what a vote says.
//! - [`model`]: the state as a mathematical value, and what events make of it.
//! - [`state`]: the state itself and the handling of events.
//! - [`rules`]: what each operation comes to, for every input.
//! - [`laws`]: what holds of the server as a whole.

pub mod json;
pub mod laws;
pub mod message;
pub mod model;
pub mod poll;
pub mod rules;
pub mod state;
pub mod table;
