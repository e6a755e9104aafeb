//! Verified core of an interactive RTT console: a bridge between a host
//! terminal and a byte stream inside a microcontroller, relayed through a
//! hardware debug probe.
//!
//! The hardware transport (probe enumeration, target attach, target-memory
//! transactions) and the raw terminal are external collaborators driven by a
//! thin unverified shell; everything that decides, parses or computes lives
//! here, with contracts.

pub mod bridge;
pub mod errors;
pub mod probe;
pub mod ring;
pub mod select;
pub mod session;
pub mod text;
