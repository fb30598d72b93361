//! A restart-debounce supervision engine for long-running development
//! processes.
//!
//! The library holds the decision logic of a file-watching process monitor:
//! turning raw watch notifications into change events, suppressing changes
//! under configured ignore prefixes, debouncing restarts, assigning attach
//! ports per process, and sequencing the kill / trigger / respawn cycle.
//! The surrounding program supplies the outside world: the filesystem
//! watcher, the clock, process spawning and the datagram sockets.

pub mod attach;
pub mod change_event;
pub mod config;
pub mod ignore;
pub mod monitor;
pub mod paths;
pub mod process;

use vstd::prelude::*;

verus! {

/// An accepted change restarts the processes only when it was observed more
/// than this many milliseconds after the previous restart completed.
pub const DEBOUNCE_WINDOW_MS: u64 = 2000;

/// Datagrams exchanged on an attach channel carry at most this many bytes.
pub const MAX_DATAGRAM_BYTES: usize = 65536;

} // verus!
