use libweb::close_code::CloseCode;
use libweb::error::Error;
use libweb::message::Message;
use libweb::sender::{Frame, LinkState, Sender, MAX_REASON_BYTES};

fn text_of(f: &Frame) -> Option<&str> {
    match f {
        Frame::Data(m) => m.as_text(),
        Frame::Close(_, _) => None,
    }
}

#[test]
fn sends_queue_in_order() {
    let mut s = Sender::new();
    assert!(s.send(Message::text("a".to_string())).is_ok());
    assert!(s.send(Message::binary(vec![1, 2])).is_ok());
    assert_eq!(s.pending(), 2);
    let out = s.take_outgoing();
    assert_eq!(out.len(), 2);
    assert_eq!(text_of(&out[0]), Some("a"));
    match &out[1] {
        Frame::Data(m) => assert_eq!(m.as_binary(), Some(&[1u8, 2][..])),
        Frame::Close(_, _) => panic!("expected data"),
    }
    assert_eq!(s.pending(), 0);
}

#[test]
fn close_after_sends_keeps_order() {
    let mut s = Sender::new();
    s.send(Message::text("first".to_string())).unwrap();
    s.send(Message::text("second".to_string())).unwrap();
    s.close(CloseCode::Normal).unwrap();
    assert_eq!(s.state(), LinkState::Closing);
    let out = s.take_outgoing();
    assert_eq!(out.len(), 3);
    assert_eq!(text_of(&out[0]), Some("first"));
    assert_eq!(text_of(&out[1]), Some("second"));
    match &out[2] {
        Frame::Close(c, r) => {
            assert_eq!(*c, CloseCode::Normal);
            assert_eq!(r, "");
        }
        Frame::Data(_) => panic!("expected close"),
    }
}

#[test]
fn send_after_close_fails() {
    let mut s = Sender::new();
    s.close(CloseCode::Away).unwrap();
    match s.send(Message::text("late".to_string())) {
        Err(Error::Transport(_)) => {}
        other => panic!("unexpected {:?}", other),
    }
    assert_eq!(s.pending(), 1);
}

#[test]
fn second_close_fails() {
    let mut s = Sender::new();
    s.close_with_reason(CloseCode::Normal, "bye").unwrap();
    match s.close(CloseCode::Normal) {
        Err(Error::Transport(_)) => {}
        other => panic!("unexpected {:?}", other),
    }
    assert_eq!(s.pending(), 1);
}

#[test]
fn reason_limit_is_in_bytes() {
    assert_eq!(MAX_REASON_BYTES, 123);
    let mut s = Sender::new();
    let long = "x".repeat(124);
    match s.close_with_reason(CloseCode::Normal, &long) {
        Err(Error::InvalidArgument(_)) => {}
        other => panic!("unexpected {:?}", other),
    }
    // 62 two-byte characters: 124 bytes.
    let wide = "é".repeat(62);
    match s.close_with_reason(CloseCode::Normal, &wide) {
        Err(Error::InvalidArgument(_)) => {}
        other => panic!("unexpected {:?}", other),
    }
    assert_eq!(s.state(), LinkState::Open);
    assert_eq!(s.pending(), 0);
    let fits = "y".repeat(123);
    assert!(s.close_with_reason(CloseCode::Normal, &fits).is_ok());
    let out = s.take_outgoing();
    match &out[0] {
        Frame::Close(c, r) => {
            assert_eq!(*c, CloseCode::Normal);
            assert_eq!(r, &fits);
        }
        Frame::Data(_) => panic!("expected close"),
    }
}
