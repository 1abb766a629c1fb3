//! Detachable terminal sessions: a daemon owns a pseudo-terminal driving a
//! child process, and clients attach to and detach from the live session over
//! a framed wire protocol without affecting the child's lifetime.
//!
//! This crate holds the verified core: the protocol codec, the bounded
//! multi-subscriber fan-out of the PTY byte stream, the per-connection and
//! daemon-loop decision logic, and the session registry rules. The I/O shell
//! around it (sockets, the PTY device, the terminal) lives outside.

pub mod args;
pub mod attach;
pub mod daemon;
pub mod fanout;
pub mod handler;
pub mod protocol;
pub mod registry;

use vstd::prelude::*;

verus! {

/// Columns of the PTY window a session starts with.
pub const DEFAULT_COLS: u16 = 220;

/// Rows of the PTY window a session starts with.
pub const DEFAULT_ROWS: u16 = 50;

/// How many of the newest published chunks the fan-out channel retains per
/// subscriber before a slow one is told it lagged.
pub const FANOUT_CAPACITY: usize = 256;

/// How long the accept loop waits for a connection before it polls the
/// child's exit status again; this bounds shutdown latency.
pub const POLL_INTERVAL_MS: u64 = 500;

} // verus!
