use chat_relay::bridge::{from_client, from_relay, Frame, Relay};

#[test]
fn text_frame_reaches_the_relay_as_its_bytes() {
    assert_eq!(
        from_client(Some(Frame::Text("hello".to_string()))),
        Relay::Forward(b"hello".to_vec())
    );
    assert_eq!(
        from_client(Some(Frame::Text("h\u{e9}".to_string()))),
        Relay::Forward(vec![0x68, 0xc3, 0xa9])
    );
}

#[test]
fn other_frames_are_not_forwarded() {
    assert_eq!(from_client(Some(Frame::Binary(vec![1, 2]))), Relay::Skip);
    assert_eq!(from_client(Some(Frame::Ping(vec![]))), Relay::Skip);
    assert_eq!(from_client(Some(Frame::Pong(vec![]))), Relay::Skip);
    assert_eq!(from_client(Some(Frame::Close)), Relay::Skip);
}

#[test]
fn end_of_the_framed_transport_stops_that_direction() {
    assert_eq!(from_client(None), Relay::Stop);
}

#[test]
fn chunk_from_the_relay_becomes_one_text_frame() {
    assert_eq!(
        from_relay(Some(&b"hello\n"[..])),
        Relay::Forward(Frame::Text("hello\n".to_string()))
    );
}

#[test]
fn empty_chunk_and_failed_read_stop_that_direction() {
    assert_eq!(from_relay(Some(&b""[..])), Relay::Stop);
    assert_eq!(from_relay(None), Relay::Stop);
}

#[test]
fn ill_formed_bytes_are_replaced() {
    assert_eq!(
        from_relay(Some(&[0x68, 0xff, 0x69][..])),
        Relay::Forward(Frame::Text("h\u{fffd}i".to_string()))
    );
}

#[test]
fn payload_survives_the_round_trip() {
    let sent = "hello";
    let bytes = match from_client(Some(Frame::Text(sent.to_string()))) {
        Relay::Forward(bytes) => bytes,
        other => panic!("not forwarded: {:?}", other),
    };
    assert_eq!(bytes, b"hello");
    assert_eq!(from_relay(Some(&bytes[..])), Relay::Forward(Frame::Text(sent.to_string())));
}
