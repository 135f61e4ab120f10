//! Response shaping and error normalisation for a web front-end to a
//! music-player daemon.
//!
//! The crate holds the rules only: how a daemon record becomes a wire
//! value, how a failure becomes one of three error kinds, which daemon
//! command a request issues next, and when a subscriber is notified.
//! Sockets, HTTP and serialisation of payloads belong to the program
//! that links this library.

pub mod bindings;
pub mod conversation;
pub mod daemon;
pub mod envelope;
pub mod error;
pub mod exchange;
pub mod library;
pub mod live;
pub mod song;
pub mod status;
pub mod wire;
