//! The values that pass between the engine, the application and the frame codec.
use vstd::prelude::*;

verus! {

/// The largest payload that a control frame (Ping, Pong, Close) may carry.
pub const CONTROL_MAX_SIZE: usize = 125;

/// A status code carried by a Close frame.
#[derive(Clone, Copy, Debug, PartialEq, Eq, Structural)]
pub enum CloseCode {
    Normal,
    GoingAway,
    Protocol,
    Unsupported,
    Status,
    Abnormal,
    Invalid,
    Policy,
    Overflow,
    Extension,
    Unexpected,
    Restarting,
    TryAgain,
    Tls,
    ReservedExtension(u16),
    Library(u16),
    Application(u16),
}

/// Why a connection is being closed.
#[derive(Clone, Debug, PartialEq, Eq)]
pub struct CloseReason {
    pub code: CloseCode,
    pub description: Option<String>,
}

impl CloseReason {
    pub fn new(code: CloseCode, description: Option<String>) -> (r: CloseReason)
        ensures
            r.code == code,
            r.description == description,
    {
        CloseReason { code, description }
    }
}

/// What a read hands to the application.
#[derive(Clone, Debug, PartialEq, Eq)]
pub enum Message {
    Text,
    Binary,
    Ping,
    Pong,
    Close(CloseReason),
}

/// The kind of a single-frame write.
#[derive(Clone, Copy, Debug, PartialEq, Eq, Structural)]
pub enum PayloadType {
    Text,
    Binary,
    Ping,
}

/// The kind of a fragmented write.
#[derive(Clone, Copy, Debug, PartialEq, Eq, Structural)]
pub enum MessageType {
    Text,
    Binary,
}

/// Opcodes of data frames.
#[derive(Clone, Copy, Debug, PartialEq, Eq, Structural)]
pub enum DataCode {
    Continuation,
    Text,
    Binary,
}

/// Opcodes of control frames.
#[derive(Clone, Copy, Debug, PartialEq, Eq, Structural)]
pub enum ControlCode {
    Close,
    Ping,
    Pong,
}

/// The opcode of an outbound frame.
#[derive(Clone, Copy, Debug, PartialEq, Eq, Structural)]
pub enum OpCode {
    DataCode(DataCode),
    ControlCode(ControlCode),
}

/// One outbound frame: its opcode, whether FIN is set, and its payload.
#[derive(Clone, Debug, PartialEq, Eq)]
pub struct Frame {
    pub opcode: OpCode,
    pub fin: bool,
    pub payload: Vec<u8>,
}

/// One decoded inbound frame, as the frame codec reports it.
#[derive(Clone, Debug, PartialEq, Eq)]
pub enum Item {
    Binary,
    Text,
    Ping(Vec<u8>),
    Pong(Vec<u8>),
    Close(CloseReason, Vec<u8>),
}

/// The category of an error.
#[derive(Clone, Copy, Debug, PartialEq, Eq, Structural)]
pub enum ErrorKind {
    /// An operation on a connection that is already closed.
    Close,
    /// A violation of the WebSocket protocol.
    Protocol,
    /// A failure of the underlying stream.
    IO,
    /// A payload that is not valid UTF-8.
    Encoding,
    /// A failure of the opening handshake.
    Http,
    /// A failure of a negotiated extension.
    Extension,
}

/// An error: its kind and an optional description of its cause.
#[derive(Clone, Debug, PartialEq, Eq)]
pub struct Error {
    pub kind: ErrorKind,
    pub cause: Option<String>,
}

impl Error {
    pub fn new(kind: ErrorKind) -> (r: Error)
        ensures
            r.kind == kind,
            r.cause is None,
    {
        Error { kind, cause: None }
    }

    pub fn with_cause(kind: ErrorKind, cause: String) -> (r: Error)
        ensures
            r.kind == kind,
            r.cause == Some(cause),
    {
        Error { kind, cause: Some(cause) }
    }

    pub fn kind(&self) -> (r: ErrorKind)
        ensures
            r == self.kind,
    {
        self.kind
    }

    pub fn is_close(&self) -> (r: bool)
        ensures
            r == (self.kind == ErrorKind::Close),
    {
        matches!(self.kind, ErrorKind::Close)
    }

    pub fn is_protocol(&self) -> (r: bool)
        ensures
            r == (self.kind == ErrorKind::Protocol),
    {
        matches!(self.kind, ErrorKind::Protocol)
    }
}

/// A failed read of the frame codec: the error, and a reason to close the
/// connection with first where the codec recommends one.
#[derive(Clone, Debug, PartialEq, Eq)]
pub struct ReadError {
    pub close_with: Option<CloseReason>,
    pub error: Error,
}

} // verus!
