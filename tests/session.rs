use ratchet_session::fragment::fragments;
use ratchet_session::session::CONTROL_DATA_MISMATCH;
use ratchet_session::{
    CloseCode, CloseReason, ControlCode, DataCode, Error, ErrorKind, Frame, Item, Message,
    MessageType, OpCode, PayloadType, ReadError, Session, Step,
};

fn closed_session() -> Session {
    let mut s = Session::new();
    let step = s.on_item(Item::Close(
        CloseReason::new(CloseCode::Normal, None),
        vec![3, 232],
    ));
    assert!(matches!(step, Step::Reply(_, Message::Close(_))));
    assert!(s.is_closed());
    s
}

fn assert_refuses_everything(s: &mut Session) {
    assert_eq!(s.check_open().unwrap_err().kind(), ErrorKind::Close);
    assert_eq!(s.write(b"abc", PayloadType::Text).unwrap_err().kind(), ErrorKind::Close);
    assert_eq!(s.write(b"abc", PayloadType::Ping).unwrap_err().kind(), ErrorKind::Close);
    assert_eq!(
        s.send_fragmented(b"abc", MessageType::Binary, 2).unwrap_err().kind(),
        ErrorKind::Close
    );
    match s.on_item(Item::Text) {
        Step::Fail(e) => assert!(e.is_close()),
        other => panic!("unexpected step {:?}", other),
    }
    assert!(s.is_closed());
}

#[test]
fn new_session_is_open() {
    let s = Session::new();
    assert!(!s.is_closed());
    assert!(s.check_open().is_ok());
}

#[test]
fn closed_after_close_item_refuses_everything() {
    let mut s = closed_session();
    assert_refuses_everything(&mut s);
}

#[test]
fn closed_after_pong_mismatch_refuses_everything() {
    let mut s = Session::new();
    s.write(b"abc", PayloadType::Ping).unwrap();
    let _ = s.on_item(Item::Pong(b"xyz".to_vec()));
    assert_refuses_everything(&mut s);
}

#[test]
fn closed_after_read_error_refuses_everything() {
    let mut s = Session::new();
    let e = ReadError { close_with: None, error: Error::new(ErrorKind::IO) };
    assert_eq!(s.on_read_error(e), Step::Fail(Error::new(ErrorKind::IO)));
    assert_refuses_everything(&mut s);
}

#[test]
fn closed_after_write_failure_refuses_everything() {
    let mut s = Session::new();
    s.write(b"data", PayloadType::Binary).unwrap();
    s.on_write_failure();
    assert_refuses_everything(&mut s);
}

#[test]
fn read_error_with_reason_asks_for_close_first() {
    let mut s = Session::new();
    let reason = CloseReason::new(CloseCode::Protocol, Some("bad frame".to_string()));
    let e = ReadError {
        close_with: Some(reason.clone()),
        error: Error::new(ErrorKind::Protocol),
    };
    assert_eq!(
        s.on_read_error(e),
        Step::CloseThenFail(reason, Error::new(ErrorKind::Protocol))
    );
    assert!(s.is_closed());
}

#[test]
fn ping_then_matching_pong() {
    let mut s = Session::new();
    let frame = s.write(b"abc", PayloadType::Ping).unwrap();
    assert_eq!(
        frame,
        Frame {
            opcode: OpCode::ControlCode(ControlCode::Ping),
            fin: true,
            payload: b"abc".to_vec()
        }
    );
    assert_eq!(s.on_item(Item::Pong(b"abc".to_vec())), Step::Deliver(Message::Pong));
    assert!(!s.is_closed());
}

#[test]
fn ping_then_mismatched_pong() {
    let mut s = Session::new();
    s.write(b"abc", PayloadType::Ping).unwrap();
    match s.on_item(Item::Pong(b"xyz".to_vec())) {
        Step::CloseThenFail(reason, e) => {
            assert_eq!(reason.code, CloseCode::Protocol);
            assert_eq!(reason.description.as_deref(), Some(CONTROL_DATA_MISMATCH));
            assert_eq!(e.kind, ErrorKind::Protocol);
        }
        other => panic!("unexpected step {:?}", other),
    }
    assert!(s.is_closed());
}

#[test]
fn pong_compared_against_latest_ping() {
    let mut s = Session::new();
    s.write(b"first", PayloadType::Ping).unwrap();
    s.write(b"second", PayloadType::Ping).unwrap();
    assert_eq!(s.on_item(Item::Pong(b"second".to_vec())), Step::Deliver(Message::Pong));
    assert!(matches!(
        s.on_item(Item::Pong(b"first".to_vec())),
        Step::CloseThenFail(_, _)
    ));
}

#[test]
fn shorter_pong_is_a_mismatch() {
    let mut s = Session::new();
    s.write(b"abc", PayloadType::Ping).unwrap();
    assert!(matches!(
        s.on_item(Item::Pong(b"ab".to_vec())),
        Step::CloseThenFail(_, _)
    ));
}

#[test]
fn unsolicited_pong_is_skipped() {
    let mut s = Session::new();
    assert_eq!(s.on_item(Item::Pong(b"abc".to_vec())), Step::Skip);
    assert_eq!(s.on_item(Item::Pong(Vec::new())), Step::Skip);
    assert!(!s.is_closed());
    assert!(s.check_open().is_ok());
}

#[test]
fn ping_is_echoed_as_pong() {
    let mut s = Session::new();
    assert_eq!(
        s.on_item(Item::Ping(b"hi".to_vec())),
        Step::Reply(
            Frame {
                opcode: OpCode::ControlCode(ControlCode::Pong),
                fin: true,
                payload: b"hi".to_vec()
            },
            Message::Ping
        )
    );
    assert!(!s.is_closed());
}

#[test]
fn close_is_echoed_with_same_payload() {
    let mut s = Session::new();
    let reason = CloseReason::new(CloseCode::GoingAway, Some("bye".to_string()));
    let payload = vec![3, 233, b'b', b'y', b'e'];
    assert_eq!(
        s.on_item(Item::Close(reason.clone(), payload.clone())),
        Step::Reply(
            Frame {
                opcode: OpCode::ControlCode(ControlCode::Close),
                fin: true,
                payload
            },
            Message::Close(reason)
        )
    );
    assert!(s.is_closed());
}

#[test]
fn data_items_are_delivered() {
    let mut s = Session::new();
    assert_eq!(s.on_item(Item::Text), Step::Deliver(Message::Text));
    assert_eq!(s.on_item(Item::Binary), Step::Deliver(Message::Binary));
    assert!(!s.is_closed());
}

#[test]
fn oversized_ping_is_refused() {
    let mut s = Session::new();
    let big = vec![7u8; 126];
    let e = s.write(&big, PayloadType::Ping).unwrap_err();
    assert_eq!(e.kind(), ErrorKind::Protocol);
    assert!(e.is_protocol());
    assert!(s.is_closed());
    assert_refuses_everything(&mut s);
}

#[test]
fn closed_session_refuses_fragmented_write_of_size_zero() {
    let s = closed_session();
    assert_eq!(
        s.send_fragmented(b"abc", MessageType::Text, 0).unwrap_err().kind(),
        ErrorKind::Close
    );
}

#[test]
fn several_unsolicited_pongs_then_data() {
    let mut s = Session::new();
    for q in [b"a".to_vec(), Vec::new(), b"xyz".to_vec()] {
        assert_eq!(s.on_item(Item::Pong(q)), Step::Skip);
    }
    assert_eq!(s.on_item(Item::Binary), Step::Deliver(Message::Binary));
    assert!(!s.is_closed());
}

#[test]
fn largest_ping_is_accepted() {
    let mut s = Session::new();
    let max = vec![7u8; 125];
    let frame = s.write(&max, PayloadType::Ping).unwrap();
    assert_eq!(frame.payload, max);
    assert_eq!(s.on_item(Item::Pong(max)), Step::Deliver(Message::Pong));
}

#[test]
fn data_writes_are_single_fin_frames() {
    let mut s = Session::new();
    let big = vec![1u8; 300];
    let text = s.write(&big, PayloadType::Text).unwrap();
    assert_eq!(text.opcode, OpCode::DataCode(DataCode::Text));
    assert!(text.fin);
    assert_eq!(text.payload, big);
    let bin = s.write(b"xy", PayloadType::Binary).unwrap();
    assert_eq!(bin.opcode, OpCode::DataCode(DataCode::Binary));
    assert!(bin.fin);
}

#[test]
fn fragmented_ten_bytes_by_four() {
    let s = Session::new();
    let frames = s.send_fragmented(b"0123456789", MessageType::Binary, 4).unwrap();
    let payloads: Vec<&[u8]> = frames.iter().map(|f| f.payload.as_slice()).collect();
    assert_eq!(payloads, vec![&b"0123"[..], &b"4567"[..], &b"89"[..]]);
    let opcodes: Vec<OpCode> = frames.iter().map(|f| f.opcode).collect();
    assert_eq!(
        opcodes,
        vec![
            OpCode::DataCode(DataCode::Binary),
            OpCode::DataCode(DataCode::Continuation),
            OpCode::DataCode(DataCode::Continuation)
        ]
    );
    let fins: Vec<bool> = frames.iter().map(|f| f.fin).collect();
    assert_eq!(fins, vec![false, false, true]);
}

#[test]
fn fragmented_empty_buffer_gives_no_frames() {
    let s = Session::new();
    let frames = s.send_fragmented(b"", MessageType::Binary, 4).unwrap();
    assert!(frames.is_empty());
}

#[test]
fn fragmented_text_exact_multiple() {
    let frames = fragments(b"abcdef", MessageType::Text, 3);
    assert_eq!(frames.len(), 2);
    assert_eq!(frames[0].opcode, OpCode::DataCode(DataCode::Text));
    assert_eq!(frames[0].payload, b"abc".to_vec());
    assert!(!frames[0].fin);
    assert_eq!(frames[1].opcode, OpCode::DataCode(DataCode::Continuation));
    assert_eq!(frames[1].payload, b"def".to_vec());
    assert!(frames[1].fin);
}

#[test]
fn fragmented_single_frame_when_size_covers_buffer() {
    let frames = fragments(b"abc", MessageType::Text, 10);
    assert_eq!(
        frames,
        vec![Frame {
            opcode: OpCode::DataCode(DataCode::Text),
            fin: true,
            payload: b"abc".to_vec()
        }]
    );
}

#[test]
fn fragmented_reassembles_and_counts_ceiling() {
    let buf: Vec<u8> = (0..=250u8).collect();
    for size in 1..=40usize {
        let frames = fragments(&buf, MessageType::Binary, size);
        assert_eq!(frames.len(), (buf.len() + size - 1) / size);
        let joined: Vec<u8> = frames.iter().flat_map(|f| f.payload.iter().copied()).collect();
        assert_eq!(joined, buf);
        assert_eq!(frames.iter().filter(|f| f.fin).count(), 1);
        assert!(frames.last().unwrap().fin);
    }
}

#[test]
fn close_gives_normal_reason() {
    let s = Session::new();
    let reason = s.close(Some("done".to_string()));
    assert_eq!(reason.code, CloseCode::Normal);
    assert_eq!(reason.description, Some("done".to_string()));
}
