//! The session engine: the open/closed state of one connection, the payload
//! of the outstanding Ping, and the decisions that read, write, fragmented
//! write and close make on them.
//!
//! Each operation returns what must go on the wire next. The caller that owns
//! the frame codec sends it, and reports a failed send through
//! `on_write_failure`.
use crate::buffer::bytes_of;
use crate::fragment::{fragments, is_fragmentation, payload_concat};
use crate::protocol::{
    CloseCode, CloseReason, ControlCode, DataCode, Error, ErrorKind, Frame, Item, Message,
    MessageType, OpCode, PayloadType, ReadError, CONTROL_MAX_SIZE,
};
use bytes::BytesMut;
use vstd::prelude::*;
use vstd::slice::slice_to_vec;

verus! {

/// The description sent in the Close frame that answers a mismatched Pong.
pub const CONTROL_DATA_MISMATCH: &'static str = "Unexpected control frame data";

/// The description of the error for a Ping payload over the control-frame limit.
pub const CONTROL_FRAME_LEN: &'static str = "Control frame has an invalid length";

/// The state of a session as the contracts see it.
pub ghost struct SessionView {
    /// Whether the connection has reached its terminal state.
    pub closed: bool,
    /// The payload of the most recent Ping sent; empty when none is outstanding.
    pub ping: Seq<u8>,
}

/// How an incoming Pong stands to the outstanding Ping.
#[derive(Clone, Copy, Debug, PartialEq, Eq, Structural)]
pub enum PongVerdict {
    /// No Ping is outstanding: the Pong is discarded.
    Unsolicited,
    /// The Pong carries the outstanding Ping's payload.
    Answered,
    /// The Pong carries another payload: a protocol violation.
    Mismatch,
}

/// What the caller of the engine does next during a read.
#[derive(Clone, Debug, PartialEq, Eq)]
pub enum Step {
    /// Hand the message to the application.
    Deliver(Message),
    /// Discard the item and read the next one.
    Skip,
    /// Send the frame; once it is sent, hand the message to the application.
    Reply(Frame, Message),
    /// Send a Close frame with the reason; once it is sent, fail with the error.
    CloseThenFail(CloseReason, Error),
    /// Fail with the error.
    Fail(Error),
}

pub open spec fn pong_verdict(s: SessionView, payload: Seq<u8>) -> PongVerdict {
    if s.ping.len() == 0 {
        PongVerdict::Unsolicited
    } else if payload == s.ping {
        PongVerdict::Answered
    } else {
        PongVerdict::Mismatch
    }
}

/// The state after a Pong with `payload` was read.
pub open spec fn after_pong(s: SessionView, payload: Seq<u8>) -> SessionView {
    if pong_verdict(s, payload) == PongVerdict::Mismatch {
        SessionView { closed: true, ..s }
    } else {
        s
    }
}

/// The state after `item` was read on an open session.
pub open spec fn after_item(s: SessionView, item: Item) -> SessionView {
    match item {
        Item::Pong(p) => after_pong(s, p@),
        Item::Close(_, _) => SessionView { closed: true, ..s },
        _ => s,
    }
}

/// The state after a failure: of the codec's read, or of a send.
pub open spec fn after_failure(s: SessionView) -> SessionView {
    SessionView { closed: true, ..s }
}

/// Whether a single-frame write of `len` bytes of type `t` is refused as a
/// protocol violation: a Ping payload over the control-frame limit.
pub open spec fn oversized(len: nat, t: PayloadType) -> bool {
    t == PayloadType::Ping && len > CONTROL_MAX_SIZE
}

/// The state after a write of `buf` as `t` was accepted or refused. An
/// oversized Ping is a protocol failure, which closes an open session.
pub open spec fn after_write(s: SessionView, buf: Seq<u8>, t: PayloadType) -> SessionView {
    if s.closed {
        s
    } else if oversized(buf.len(), t) {
        SessionView { closed: true, ..s }
    } else if t == PayloadType::Ping {
        SessionView { ping: buf, ..s }
    } else {
        s
    }
}

/// The opcode of a single-frame write of type `t`.
pub open spec fn write_opcode(t: PayloadType) -> OpCode {
    match t {
        PayloadType::Text => OpCode::DataCode(DataCode::Text),
        PayloadType::Binary => OpCode::DataCode(DataCode::Binary),
        PayloadType::Ping => OpCode::ControlCode(ControlCode::Ping),
    }
}

pub open spec fn is_closed_error<T>(r: Result<T, Error>) -> bool {
    r matches Err(e) && e.kind == ErrorKind::Close
}

/// The engine of one connection.
pub struct Session {
    closed: bool,
    control_buffer: BytesMut,
}

impl View for Session {
    type V = SessionView;

    closed spec fn view(&self) -> SessionView {
        SessionView { closed: self.closed, ping: bytes_of(self.control_buffer) }
    }
}

fn closed_error() -> (e: Error)
    ensures
        e.kind == ErrorKind::Close,
{
    Error::new(ErrorKind::Close)
}

impl Session {
    /// A fresh, open session with no Ping outstanding.
    pub fn new() -> (r: Session)
        ensures
            r@ == (SessionView { closed: false, ping: Seq::empty() }),
    {
        Session { closed: false, control_buffer: BytesMut::with_capacity(CONTROL_MAX_SIZE) }
    }

    pub fn is_closed(&self) -> (r: bool)
        ensures
            r == self@.closed,
    {
        self.closed
    }

    /// What a read checks before it touches the codec: it fails with `Close`
    /// exactly when the session is closed.
    pub fn check_open(&self) -> (r: Result<(), Error>)
        ensures
            r is Err <==> self@.closed,
            is_closed_error(r) <==> self@.closed,
    {
        if self.closed {
            Err(closed_error())
        } else {
            Ok(())
        }
    }

    /// Decides what a read does with one decoded item.
    ///
    /// A Ping is answered by a Pong with the same payload, and a Close by a
    /// Close with the same payload, before the message is handed out; a Pong
    /// with no Ping outstanding is skipped; a Pong whose payload differs from
    /// the outstanding Ping's closes the session and fails with `Protocol`.
    pub fn on_item(&mut self, item: Item) -> (r: Step)
        ensures
            old(self)@.closed ==> final(self)@ == old(self)@ && (r matches Step::Fail(e) && e.kind
                == ErrorKind::Close),
            !old(self)@.closed ==> final(self)@ == after_item(old(self)@, item),
            !old(self)@.closed ==> match item {
                Item::Binary => r == Step::Deliver(Message::Binary),
                Item::Text => r == Step::Deliver(Message::Text),
                Item::Ping(p) => r == Step::Reply(
                    Frame { opcode: OpCode::ControlCode(ControlCode::Pong), fin: true, payload: p },
                    Message::Ping,
                ),
                Item::Pong(p) => match pong_verdict(old(self)@, p@) {
                    PongVerdict::Unsolicited => r == Step::Skip,
                    PongVerdict::Answered => r == Step::Deliver(Message::Pong),
                    PongVerdict::Mismatch => (r matches Step::CloseThenFail(reason, e)
                        && reason.code == CloseCode::Protocol && e.kind == ErrorKind::Protocol
                        && (reason.description matches Some(d) && d@
                        == CONTROL_DATA_MISMATCH@)),
                },
                Item::Close(reason, p) => r == Step::Reply(
                    Frame {
                        opcode: OpCode::ControlCode(ControlCode::Close),
                        fin: true,
                        payload: p,
                    },
                    Message::Close(reason),
                ),
            },
    {
        if self.closed {
            return Step::Fail(closed_error());
        }
        match item {
            Item::Binary => Step::Deliver(Message::Binary),
            Item::Text => Step::Deliver(Message::Text),
            Item::Ping(payload) => Step::Reply(
                Frame { opcode: OpCode::ControlCode(ControlCode::Pong), fin: true, payload },
                Message::Ping,
            ),
            Item::Pong(payload) => {
                if self.control_buffer.is_empty() {
                    Step::Skip
                } else if crate::buffer::holds_exactly(&self.control_buffer, payload.as_slice()) {
                    Step::Deliver(Message::Pong)
                } else {
                    self.closed = true;
                    let reason = CloseReason::new(
                        CloseCode::Protocol,
                        Some(CONTROL_DATA_MISMATCH.to_owned()),
                    );
                    Step::CloseThenFail(
                        reason,
                        Error::with_cause(ErrorKind::Protocol, CONTROL_DATA_MISMATCH.to_owned()),
                    )
                }
            },
            Item::Close(reason, payload) => {
                self.closed = true;
                Step::Reply(
                    Frame { opcode: OpCode::ControlCode(ControlCode::Close), fin: true, payload },
                    Message::Close(reason),
                )
            },
        }
    }

    /// Decides what a read does when the codec fails: the session closes, and
    /// where the codec recommends a reason a Close frame with it is sent
    /// before the codec's error is returned.
    pub fn on_read_error(&mut self, e: ReadError) -> (r: Step)
        ensures
            final(self)@ == after_failure(old(self)@),
            match e.close_with {
                Some(reason) => r == Step::CloseThenFail(reason, e.error),
                None => r == Step::Fail(e.error),
            },
    {
        self.closed = true;
        match e.close_with {
            Some(reason) => Step::CloseThenFail(reason, e.error),
            None => Step::Fail(e.error),
        }
    }

    /// Records that a send failed: the session closes.
    pub fn on_write_failure(&mut self)
        ensures
            final(self)@ == after_failure(old(self)@),
    {
        self.closed = true;
    }

    /// Decides a single-frame write of `buf` as `message_type`: the frame to
    /// send, with FIN set. A Ping's payload becomes the outstanding one.
    /// Fails with `Close` on a closed session, which it leaves as it is. Fails
    /// with `Protocol` on a Ping payload over the control-frame limit, which
    /// closes the session, as every protocol failure does.
    pub fn write(&mut self, buf: &[u8], message_type: PayloadType) -> (r: Result<Frame, Error>)
        ensures
            final(self)@ == after_write(old(self)@, buf@, message_type),
            is_closed_error(r) <==> old(self)@.closed,
            (r matches Err(e) && e.kind == ErrorKind::Protocol) <==> (!old(self)@.closed
                && oversized(buf@.len(), message_type)),
            r is Ok <==> (!old(self)@.closed && !oversized(buf@.len(), message_type)),
            (r matches Ok(f) ==> f.opcode == write_opcode(message_type) && f.fin && f.payload@
                == buf@),
    {
        if self.closed {
            return Err(closed_error());
        }
        let opcode = match message_type {
            PayloadType::Text => OpCode::DataCode(DataCode::Text),
            PayloadType::Binary => OpCode::DataCode(DataCode::Binary),
            PayloadType::Ping => {
                if buf.len() > CONTROL_MAX_SIZE {
                    self.closed = true;
                    return Err(Error::with_cause(ErrorKind::Protocol, CONTROL_FRAME_LEN.to_owned()));
                }
                self.control_buffer.clear();
                self.control_buffer.extend_from_slice(buf);
                proof {
                    assert(bytes_of(self.control_buffer) =~= buf@);
                }
                OpCode::ControlCode(ControlCode::Ping)
            },
        };
        Ok(Frame { opcode, fin: true, payload: slice_to_vec(buf) })
    }

    /// Decides a fragmented write of `buf` as one message of `message_type`
    /// in chunks of at most `fragment_size` bytes: the frames to send, in
    /// order. Fails with `Close` on a closed session, whatever the size.
    pub fn send_fragmented(&self, buf: &[u8], message_type: MessageType, fragment_size: usize) -> (r:
        Result<Vec<Frame>, Error>)
        requires
            !self@.closed ==> fragment_size > 0,
        ensures
            is_closed_error(r) <==> self@.closed,
            r is Ok <==> !self@.closed,
            (r matches Ok(frames) ==> is_fragmentation(
                frames@,
                buf@,
                message_type,
                fragment_size as nat,
            ) && payload_concat(frames@) == buf@),
    {
        if self.closed {
            return Err(closed_error());
        }
        Ok(fragments(buf, message_type, fragment_size))
    }

    /// Ends the session from this side: the reason of the Close frame to send,
    /// with code `Normal` and the given description.
    pub fn close(self, description: Option<String>) -> (r: CloseReason)
        ensures
            r.code == CloseCode::Normal,
            r.description == description,
    {
        CloseReason::new(CloseCode::Normal, description)
    }
}

} // verus!
