//! Per-connection session core for a full-duplex, message-framed transport.
//!
//! A [`session::Session`] echoes application frames back to its peer and,
//! driven by a periodic monitor tick, detects a peer that has gone silent
//! and closes the connection. The surrounding server (transport upgrade,
//! timers, I/O) delivers events to the session and performs the actions it
//! decides on.

pub mod frame;
pub mod session;
pub mod laws;
