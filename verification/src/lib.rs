//! Task board backend: the rules of the board service, proved with Verus.
//!
//! The library decides; the program around it reads and writes the database,
//! the clock and the network.  Every request handler of the service is a
//! state machine here: it is handed what the outside world answered so far
//! and says what to ask next, or what to answer.

pub mod http;
pub mod text;
pub mod flow;
pub mod auth;
pub mod boards;
