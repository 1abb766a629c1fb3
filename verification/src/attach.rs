//! Attach-client decision logic.
//!
//! `attach` connects to a running session's socket, puts the local terminal
//! into raw passthrough mode, sends one best-effort `Resize` with the local
//! terminal's size, and then pumps bytes both ways until either direction
//! stops. Every decision between I/O calls is a function here; the socket,
//! the terminal mode and the standard streams stay with the caller.

use crate::protocol::{encode, spec_frame, spec_payload, Message, MessageView};
use vstd::prelude::*;
use vstd::string::StringExecFns;

verus! {

/// What the stdout pump does with one thing read off the socket; its caller
/// performs the I/O.
#[derive(Debug, PartialEq, Eq)]
pub enum AttachAction {
    /// Write these bytes to local standard output and flush.
    WriteStdout(Vec<u8>),
    /// End the attach session.
    Stop,
    /// Nothing to do for this message; keep pumping.
    Ignore,
}

/// Decide on the next thing decoded from the session's socket, `None`
/// standing for a decode failure or end of stream: `Data` goes to local
/// stdout, `Detach` and every failure stop the pump, anything else is
/// ignored.
pub fn on_server_message(m: Option<Message>) -> (a: AttachAction)
    ensures
        match m {
            Some(msg) => match msg {
                Message::Data(b) => a matches AttachAction::WriteStdout(w) && w@ == b@,
                Message::Detach => a is Stop,
                Message::Resize { cols, rows } => a is Ignore,
                Message::Shutdown => a is Ignore,
            },
            None => a is Stop,
        },
{
    match m {
        Some(Message::Data(b)) => AttachAction::WriteStdout(b),
        Some(Message::Detach) => AttachAction::Stop,
        Some(Message::Resize { cols: _, rows: _ }) => AttachAction::Ignore,
        Some(Message::Shutdown) => AttachAction::Ignore,
        None => AttachAction::Stop,
    }
}

/// What the stdin pump does with one read from local standard input; its
/// caller performs the I/O.
#[derive(Debug, PartialEq, Eq)]
pub enum StdinAction {
    /// Send this complete frame to the session's socket.
    SendFrame(Vec<u8>),
    /// End the attach session.
    Stop,
}

/// Decide on one read from local standard input, `None` standing for end of
/// input or a read failure: every nonempty read is framed as `Data`; end of
/// input, and input so large no frame can carry it, stop the pump.
pub fn on_stdin_read(data: Option<Vec<u8>>) -> (a: StdinAction)
    ensures
        match data {
            Some(d) => {
                if spec_payload(MessageView::Data(d@)).len() <= u32::MAX {
                    a matches StdinAction::SendFrame(f) && f@ == spec_frame(MessageView::Data(d@))
                } else {
                    a is Stop
                }
            },
            None => a is Stop,
        },
{
    match data {
        Some(d) => {
            match encode(&Message::Data(d)) {
                Ok(f) => StdinAction::SendFrame(f),
                Err(_) => StdinAction::Stop,
            }
        },
        None => StdinAction::Stop,
    }
}

/// The one `Resize` frame sent right after connecting, reflecting the local
/// terminal's size; querying that size is best-effort, and `None` simply
/// skips the step.
pub fn initial_resize_frame(size: Option<(u16, u16)>) -> (r: Option<Vec<u8>>)
    ensures
        match size {
            Some(cr) => r matches Some(f) && f@ == spec_frame(
                MessageView::Resize { cols: cr.0, rows: cr.1 },
            ),
            None => r is None,
        },
{
    match size {
        Some((cols, rows)) => {
            match encode(&Message::Resize { cols, rows }) {
                Ok(f) => Some(f),
                Err(_) => {
                    proof {
                        assert(false);
                    }
                    None
                },
            }
        },
        None => None,
    }
}

/// The message shown when no socket exists for the requested session name.
pub fn no_session_message(session: &str, path: &str) -> (r: String)
    ensures
        r@ == "No session named '"@ + session@ + "' found at "@ + path@
            + ". Use `desktop-tui list` to see active sessions."@,
{
    let mut r = "No session named '".to_owned();
    r.append(session);
    r.append("' found at ");
    r.append(path);
    r.append(". Use `desktop-tui list` to see active sessions.");
    proof {
        assert(r@ =~= "No session named '"@ + session@ + "' found at "@ + path@
            + ". Use `desktop-tui list` to see active sessions."@);
    }
    r
}

/// The notice printed once the attach session has ended and the terminal
/// mode is restored.
pub fn detach_notice(session: &str) -> (r: String)
    ensures
        r@ == "[attach] Detached from session '"@ + session@ + "'."@,
{
    let mut r = "[attach] Detached from session '".to_owned();
    r.append(session);
    r.append("'.");
    proof {
        assert(r@ =~= "[attach] Detached from session '"@ + session@ + "'."@);
    }
    r
}

} // verus!
