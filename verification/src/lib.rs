//! Feobank: the verified core of a small internet-banking client and server.
//!
//! The crate holds what the programs decide and compute: the framing of
//! messages on the wire, the replies the server sends and the client reads, what the client
//! makes of the forms a person fills in, and the server's per-connection session, written as a state machine that
//! takes the outcome of each database step and says what to do next.

pub mod client;
pub mod frame;
pub mod model;
pub mod password;
pub mod reply;
pub mod server;
