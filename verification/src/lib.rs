//! Host-side launcher core for a confidential guest: the bootstrap payload
//! and its wire formats, the handshake that delivers it, the command line of
//! the guest monitor, the console line splitter, the instance lifecycle and
//! the bridge that shares the data channel among callers.
//!
//! Everything here is a pure function or a small state machine. The host
//! program performs the socket and process operations that the machines ask
//! for and reports back what happened.

pub mod params;
pub mod error;
pub mod envelope;
pub mod framing;
pub mod handshake;
pub mod command;
pub mod console;
pub mod lifecycle;
pub mod bridge;
