//! Per-connection decision logic.
//!
//! One handler runs per accepted client connection. Its loop awaits two
//! event sources with no fixed priority — the session's fan-out channel and
//! the client's socket — and every decision it takes between I/O calls is a
//! function here: what to write where, and when the handler ends. Every
//! failure is local to the one connection except `Shutdown`, whose effect is
//! global by design.
//!
//! Write arbitration between simultaneously attached clients is deliberately
//! unspecified: all writes pass through the session's one serialized
//! PTY-write path, and interleave in whatever order they reach it.

use crate::protocol::{encode, spec_frame, spec_payload, Message, MessageView};
use vstd::prelude::*;

verus! {

/// What arriving on the session's fan-out channel looks like to a handler.
#[derive(Debug, PartialEq, Eq)]
pub enum PtyEvent {
    /// A chunk the PTY reader published.
    Output(Vec<u8>),
    /// This subscriber fell behind and lost items; the stream resumes at
    /// the oldest retained chunk.
    Lagged,
    /// The channel closed: the PTY reader is gone and the session is over.
    Closed,
}

/// What a handler does next; its caller performs the I/O.
#[derive(Debug, PartialEq, Eq)]
pub enum HandlerAction {
    /// Write this complete frame to the client's socket.
    SendFrame(Vec<u8>),
    /// Do nothing and poll again: lost items are skipped silently.
    Skip,
    /// End this handler; no other connection and no session state is touched.
    Stop,
    /// Forward these bytes verbatim through the session's serialized
    /// PTY-write path.
    WritePty(Vec<u8>),
    /// Apply this window size to the PTY device and notify the child of the
    /// window change.
    ResizePty(u16, u16),
    /// Ask the child process to terminate, then end this handler; the
    /// daemon's own exit detection performs the full teardown.
    TerminateChildAndStop,
}

/// Decide on the next fan-out item: frame live output as `Data` for the
/// client, continue silently past a lag notification, stop when the channel
/// has closed.
///
/// Output so large that no frame can carry it ends the handler, as any
/// framing failure does.
pub fn on_pty_event(e: PtyEvent) -> (a: HandlerAction)
    ensures
        match e {
            PtyEvent::Output(d) => {
                if spec_payload(MessageView::Data(d@)).len() <= u32::MAX {
                    a matches HandlerAction::SendFrame(f) && f@ == spec_frame(
                        MessageView::Data(d@),
                    )
                } else {
                    a is Stop
                }
            },
            PtyEvent::Lagged => a is Skip,
            PtyEvent::Closed => a is Stop,
        },
{
    match e {
        PtyEvent::Output(d) => {
            match encode(&Message::Data(d)) {
                Ok(f) => HandlerAction::SendFrame(f),
                Err(_) => HandlerAction::Stop,
            }
        },
        PtyEvent::Lagged => HandlerAction::Skip,
        PtyEvent::Closed => HandlerAction::Stop,
    }
}

/// Decide on the next thing the client's socket produced: decoded messages
/// act on the session, and a decode failure or end of stream ends the
/// handler.
///
/// `Data` goes to the PTY, `Resize` goes to the PTY device and the child,
/// `Detach` ends only this handler, `Shutdown` asks the child to terminate.
pub fn on_client_event(m: Option<Message>) -> (a: HandlerAction)
    ensures
        match m {
            Some(msg) => match msg {
                Message::Data(b) => a matches HandlerAction::WritePty(w) && w@ == b@,
                Message::Resize { cols, rows } => a == HandlerAction::ResizePty(cols, rows),
                Message::Detach => a is Stop,
                Message::Shutdown => a is TerminateChildAndStop,
            },
            None => a is Stop,
        },
{
    match m {
        Some(Message::Data(b)) => HandlerAction::WritePty(b),
        Some(Message::Resize { cols, rows }) => HandlerAction::ResizePty(cols, rows),
        Some(Message::Detach) => HandlerAction::Stop,
        Some(Message::Shutdown) => HandlerAction::TerminateChildAndStop,
        None => HandlerAction::Stop,
    }
}

} // verus!
