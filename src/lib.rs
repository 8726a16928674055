//! The per-connection protocol engine of a WebSocket: it turns decoded frames
//! into messages and application writes into correctly flagged frames, while
//! keeping one authoritative open/closed state.
//!
//! The engine performs no I/O of its own. Each operation returns what must go
//! on the wire next; the caller that owns the frame codec performs it and
//! reports the outcome back.
use vstd::prelude::*;

pub mod protocol;
pub mod buffer;
pub mod fragment;
pub mod laws;
pub mod session;

pub use session::{PongVerdict, Session, SessionView, Step};

pub use protocol::{
    CloseCode, CloseReason, ControlCode, DataCode, Error, ErrorKind, Frame, Item, Message,
    MessageType, OpCode, PayloadType, ReadError,
};


verus! {

/// A stream that can carry a WebSocket connection across tasks.
///
/// The byte transport itself is tokio's `AsyncRead + AsyncWrite`, which the
/// code that drives the stream requires beside this trait.
pub trait WebSocketStream: Send + Unpin {

}

impl<S> WebSocketStream for S where S: Send + Unpin {

}

} // verus!
