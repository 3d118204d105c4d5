use message_relay::effect::SetupError;
use message_relay::receiver::{
    decode_datagram, decode_frame, plan_connection, DecodeError, Frame, ReceiverCreator,
    ReceiverPlan, StdinReceiverCreator, UdpReceiverCreator, WebSocketReceiverCreator,
    DATAGRAM_CAPACITY,
};

fn text(s: &str) -> String {
    String::from(s)
}

#[test]
fn line_source_matches_only_its_keyword() {
    assert!(StdinReceiverCreator.matches(&text("stdin")));
    assert!(!StdinReceiverCreator.matches(&text("stdout")));
    assert!(!StdinReceiverCreator.matches(&text("stdin\n")));
    assert!(!StdinReceiverCreator.matches(&text("")));
}

#[test]
fn line_source_reads_lines() {
    assert_eq!(StdinReceiverCreator.create_receiver(&text("stdin")), Ok(ReceiverPlan::ReadLines));
}

#[test]
fn outbound_socket_matches_the_scheme_prefix() {
    assert!(WebSocketReceiverCreator.matches(&text("ws://h:1")));
    assert!(!WebSocketReceiverCreator.matches(&text("http://h:1")));
    assert!(!WebSocketReceiverCreator.matches(&text("h:2")));
    assert!(!WebSocketReceiverCreator.matches(&text("stdin")));
}

#[test]
fn outbound_socket_connects_to_the_parsed_url() {
    assert_eq!(
        WebSocketReceiverCreator.create_receiver(&text("ws://example.com:9000")),
        Ok(ReceiverPlan::Connect { url: text("ws://example.com:9000/") })
    );
    assert_eq!(
        WebSocketReceiverCreator.create_receiver(&text("ws://EXAMPLE.com/a b")),
        Ok(ReceiverPlan::Connect { url: text("ws://example.com/a%20b") })
    );
    assert_eq!(
        WebSocketReceiverCreator.create_receiver(&text("ws://127.0.0.1:80/feed")),
        Ok(ReceiverPlan::Connect { url: text("ws://127.0.0.1/feed") })
    );
}

#[test]
fn outbound_socket_refuses_what_is_no_url() {
    assert_eq!(
        WebSocketReceiverCreator.create_receiver(&text("ws://")),
        Err(SetupError::InvalidUrl)
    );
    assert_eq!(
        WebSocketReceiverCreator.create_receiver(&text("no scheme")),
        Err(SetupError::InvalidUrl)
    );
    assert_eq!(
        WebSocketReceiverCreator.create_receiver(&text("ws://h:notaport")),
        Err(SetupError::InvalidUrl)
    );
}

#[test]
fn connection_plan_follows_the_parse() {
    assert_eq!(
        plan_connection(Some(text("ws://h/"))),
        Ok(ReceiverPlan::Connect { url: text("ws://h/") })
    );
    assert_eq!(plan_connection(None), Err(SetupError::InvalidUrl));
}

#[test]
fn datagram_source_matches_everything() {
    assert!(UdpReceiverCreator.matches(&text("0.0.0.0:5000")));
    assert!(UdpReceiverCreator.matches(&text("")));
    assert!(UdpReceiverCreator.matches(&text("stdin")));
}

#[test]
fn datagram_source_binds_with_bounded_buffer() {
    assert_eq!(DATAGRAM_CAPACITY, 8192);
    assert_eq!(
        UdpReceiverCreator.create_receiver(&text("0.0.0.0:5000")),
        Ok(ReceiverPlan::Bind { address: text("0.0.0.0:5000"), capacity: 8192 })
    );
}

#[test]
fn datagram_decodes_utf8() {
    assert_eq!(decode_datagram(vec![104, 105]), Ok(text("hi")));
    assert_eq!(decode_datagram(vec![]), Ok(text("")));
    assert_eq!(decode_datagram(vec![0xc3, 0xa9]), Ok(text("é")));
    assert_eq!(decode_datagram(vec![0xf0, 0x9f, 0x98, 0x80]), Ok(text("😀")));
    assert_eq!(decode_datagram(vec![97, 10, 98]), Ok(text("a\nb")));
}

#[test]
fn datagram_that_is_not_utf8_is_refused() {
    assert_eq!(decode_datagram(vec![0xff]), Err(DecodeError::InvalidUtf8));
    assert_eq!(decode_datagram(vec![0xc3]), Err(DecodeError::InvalidUtf8));
    assert_eq!(decode_datagram(vec![104, 0x80, 105]), Err(DecodeError::InvalidUtf8));
    assert_eq!(decode_datagram(vec![0xed, 0xa0, 0x80]), Err(DecodeError::InvalidUtf8));
    assert_eq!(decode_datagram(vec![0xc0, 0x80]), Err(DecodeError::InvalidUtf8));
}

#[test]
fn frame_text_by_kind() {
    assert_eq!(decode_frame(Frame::Text(text("hello"))), Ok(text("hello")));
    assert_eq!(decode_frame(Frame::Binary(vec![104, 105])), Ok(text("hi")));
    assert_eq!(decode_frame(Frame::Ping(vec![112])), Ok(text("p")));
    assert_eq!(decode_frame(Frame::Pong(vec![])), Ok(text("")));
    assert_eq!(decode_frame(Frame::Close(None)), Ok(text("")));
    assert_eq!(decode_frame(Frame::Close(Some(text("bye")))), Ok(text("bye")));
    assert_eq!(decode_frame(Frame::Raw(vec![0xc3, 0xa9])), Ok(text("é")));
}

#[test]
fn frame_that_is_not_utf8_is_refused() {
    assert_eq!(decode_frame(Frame::Binary(vec![0xff, 0xfe])), Err(DecodeError::InvalidUtf8));
    assert_eq!(decode_frame(Frame::Ping(vec![0x80])), Err(DecodeError::InvalidUtf8));
    assert_eq!(decode_frame(Frame::Pong(vec![0xc3])), Err(DecodeError::InvalidUtf8));
    assert_eq!(decode_frame(Frame::Raw(vec![0xff])), Err(DecodeError::InvalidUtf8));
}
