use libweb::message::Message;

#[test]
fn text_round_trips() {
    for s in ["", "ping", "héllo wörld", "\u{1F600} emoji"] {
        match Message::text(s.to_string()) {
            Message::Text(t) => assert_eq!(t, s),
            Message::Binary(_) => panic!("text became binary"),
        }
    }
}

#[test]
fn binary_round_trips() {
    let samples: Vec<Vec<u8>> = vec![vec![], b"pong".to_vec(), vec![0, 255, 128, 7]];
    for b in samples {
        match Message::binary(b.clone()) {
            Message::Binary(got) => assert_eq!(got, b),
            Message::Text(_) => panic!("binary became text"),
        }
    }
}

#[test]
fn conversions_pick_the_kind() {
    let m: Message = "ping".into();
    assert_eq!(m.as_text(), Some("ping"));
    assert_eq!(m.as_binary(), None);
    let m: Message = String::from("x").into();
    assert_eq!(m.as_text(), Some("x"));
    let m: Message = (&b"pong"[..]).into();
    assert_eq!(m.as_binary(), Some(&b"pong"[..]));
    assert_eq!(m.as_text(), None);
    let m: Message = vec![1u8, 2, 3].into();
    assert_eq!(m.as_binary(), Some(&[1u8, 2, 3][..]));
}
