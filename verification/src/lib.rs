//! Control-protocol core for a two-process media player: a controller that
//! issues playback commands and records the last-known pipeline state, and a
//! worker that owns the media engine and bridges engine events onto the wire.
//!
//! This crate holds the verified logic of that protocol: the wire address
//! patterns and their parsing, the controller's state store and polling
//! monitor, the worker's event bridge decisions, and the process supervisor's
//! state machine. The unverified I/O around it (sockets, process spawning,
//! the media engine itself) lives outside and exchanges plain values with
//! these modules.

pub mod bridge;
pub mod laws;
pub mod protocol;
pub mod store;
pub mod supervisor;
