//! Decoder for the 64-byte input reports of a DualShock-style game
//! controller, plus the small state machine that drives a read loop over
//! them. All device I/O lives outside this crate; the library works on
//! plain byte buffers.

pub mod report;
pub mod session;
