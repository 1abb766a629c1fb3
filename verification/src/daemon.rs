//! Daemon-side decision logic: the accept loop and the session's lifecycle.
//!
//! The daemon owns the PTY and the child; clients come and go. Its accept
//! loop alternates, on a short timeout, between accepting a connection and
//! polling the child's exit status. The decisions of one loop iteration, and
//! the lifecycle facts the loop maintains, are functions here; the sockets,
//! the PTY device and the process calls stay with the caller.

use vstd::prelude::*;

verus! {

/// What one wait at the accept point produced.
#[derive(Debug, PartialEq, Eq, Structural)]
pub enum AcceptEvent {
    /// A client connection was accepted.
    Connection,
    /// Accepting failed; such errors are logged and the loop continues.
    AcceptError,
    /// The wait timed out; time to poll the child's exit status again.
    Timeout,
}

/// What the accept loop does with one iteration's observations.
#[derive(Debug, PartialEq, Eq, Structural)]
pub enum ServeStep {
    /// The child is gone: leave the loop and tear the session down.
    ExitLoop,
    /// Hand the accepted connection to a new handler with a fresh fan-out
    /// subscription, then continue.
    SpawnHandler,
    /// Log the accept error and continue.
    ContinueAfterError,
    /// Nothing happened within the poll interval; continue.
    ContinueIdle,
}

/// One iteration of the accept loop: a child observed to have exited ends
/// the loop whatever else happened; otherwise the accept outcome decides.
pub fn serve_step(child_exited: bool, ev: &AcceptEvent) -> (s: ServeStep)
    ensures
        child_exited ==> s is ExitLoop,
        !child_exited ==> match ev {
            AcceptEvent::Connection => s is SpawnHandler,
            AcceptEvent::AcceptError => s is ContinueAfterError,
            AcceptEvent::Timeout => s is ContinueIdle,
        },
{
    if child_exited {
        ServeStep::ExitLoop
    } else {
        match ev {
            AcceptEvent::Connection => ServeStep::SpawnHandler,
            AcceptEvent::AcceptError => ServeStep::ContinueAfterError,
            AcceptEvent::Timeout => ServeStep::ContinueIdle,
        }
    }
}

/// What the PTY-reader task does with one read off the PTY master.
#[derive(Debug, PartialEq, Eq)]
pub enum ReaderStep {
    /// Publish this chunk to the fan-out channel and read again.
    Publish(Vec<u8>),
    /// A zero-length or failed read: the child or its PTY is gone, so the
    /// reader stops and the fan-out channel closes, ending the session.
    EndSession,
}

/// Decide on one read from the PTY master, `None` standing for a failed
/// read: every nonempty read is published to the fan-out channel; an empty
/// or failed read ends the session's reader.
pub fn pty_reader_step(read: Option<Vec<u8>>) -> (s: ReaderStep)
    ensures
        match read {
            Some(d) => {
                if d@.len() == 0 {
                    s is EndSession
                } else {
                    s matches ReaderStep::Publish(p) && p@ == d@
                }
            },
            None => s is EndSession,
        },
{
    match read {
        Some(d) => {
            if d.len() == 0 {
                ReaderStep::EndSession
            } else {
                ReaderStep::Publish(d)
            }
        },
        None => ReaderStep::EndSession,
    }
}

/// The lifecycle facts the daemon maintains for one session.
#[derive(Debug, Clone, Copy, PartialEq, Eq, Structural)]
pub struct SessionState {
    /// The child process has not been seen to exit.
    pub child_alive: bool,
    /// A termination request has been delivered to the child.
    pub term_requested: bool,
    /// The accept loop is still running.
    pub loop_running: bool,
    /// The session's socket file exists.
    pub socket_present: bool,
}

/// The state right after `serve` has bound the socket, spawned the child
/// and entered its accept loop.
pub open spec fn spec_session_started() -> SessionState {
    SessionState { child_alive: true, term_requested: false, loop_running: true, socket_present: true }
}

/// The lifecycle events a running session can see.
#[derive(Debug, PartialEq, Eq, Structural)]
pub enum SessionEvent {
    /// Some handler decoded `Shutdown`: a termination request goes to the
    /// child; nothing else changes yet.
    ShutdownRequested,
    /// Some handler decoded `Detach`: that one handler ends; the session
    /// does not change at all.
    DetachRequested,
    /// The child process exited, for any reason.
    ChildExited,
    /// The accept loop polled the child and observed the exit: the loop
    /// ends and the socket file is removed.
    ExitObserved,
}

/// How one lifecycle event moves the session's state.
pub open spec fn spec_session_step(s: SessionState, e: SessionEvent) -> SessionState {
    match e {
        SessionEvent::ShutdownRequested => SessionState { term_requested: true, ..s },
        SessionEvent::DetachRequested => s,
        SessionEvent::ChildExited => SessionState { child_alive: false, ..s },
        SessionEvent::ExitObserved => {
            if !s.child_alive && s.loop_running {
                SessionState { loop_running: false, socket_present: false, ..s }
            } else {
                s
            }
        },
    }
}

/// The running record of a session's lifecycle, as `spec_session_step`
/// moves it.
pub fn session_step(s: SessionState, e: &SessionEvent) -> (r: SessionState)
    ensures
        r == spec_session_step(s, *e),
{
    match e {
        SessionEvent::ShutdownRequested => SessionState { term_requested: true, ..s },
        SessionEvent::DetachRequested => s,
        SessionEvent::ChildExited => SessionState { child_alive: false, ..s },
        SessionEvent::ExitObserved => {
            if !s.child_alive && s.loop_running {
                SessionState { loop_running: false, socket_present: false, ..s }
            } else {
                s
            }
        },
    }
}

/// The state a session starts in.
pub fn session_started() -> (s: SessionState)
    ensures
        s == spec_session_started(),
{
    SessionState { child_alive: true, term_requested: false, loop_running: true, socket_present: true }
}

/// Shutdown propagation: once a client's `Shutdown` is processed, the child
/// holds a termination request; when the child then exits and the accept
/// loop observes it, the loop ends and the socket file is removed — so a
/// listing made afterwards no longer finds the session's socket at all, let
/// alone reports it active.
pub proof fn lemma_shutdown_propagation(s0: SessionState)
    requires
        s0 == spec_session_started(),
    ensures
        ({
            let s1 = spec_session_step(s0, SessionEvent::ShutdownRequested);
            let s2 = spec_session_step(s1, SessionEvent::ChildExited);
            let s3 = spec_session_step(s2, SessionEvent::ExitObserved);
            &&& s1.term_requested
            &&& !s2.child_alive
            &&& !s3.loop_running
            &&& !s3.socket_present
        }),
{
}

/// Detach independence: a client's `Detach` moves the session's lifecycle
/// not at all — the child, the socket and the accept loop are exactly as
/// they were, whatever state the session was in.
pub proof fn lemma_detach_independence(s: SessionState)
    ensures
        spec_session_step(s, SessionEvent::DetachRequested) == s,
{
}

} // verus!
