use message_relay::broker::{get_host_port, Broker, StdoutBroker, UdpBroker, WebSocketBroker};
use message_relay::effect::{Effect, Endpoint, Family, Setup, SetupError};

fn text(s: &str) -> String {
    String::from(s)
}

#[test]
fn console_matches_only_its_keyword() {
    let broker = StdoutBroker::new();
    assert!(broker.matches(&text("stdout")));
    assert!(!broker.matches(&text("stdout ")));
    assert!(!broker.matches(&text("Stdout")));
    assert!(!broker.matches(&text("stdin")));
    assert!(!broker.matches(&text("")));
    assert!(!broker.matches(&text("ws://stdout")));
}

#[test]
fn console_is_silent_until_enabled() {
    let broker = StdoutBroker::new();
    assert!(!broker.is_enabled());
    assert_eq!(broker.send(&text("hello")), vec![]);
}

#[test]
fn console_prints_message_and_line_end() {
    let mut broker = StdoutBroker::new();
    assert_eq!(broker.add_destination(&text("stdout")), Ok(Setup::Ready));
    assert!(broker.is_enabled());
    assert_eq!(broker.send(&text("hello")), vec![Effect::Print { text: text("hello\n") }]);
    assert_eq!(broker.send(&text("")), vec![Effect::Print { text: text("\n") }]);
    assert_eq!(broker.send(&text("né")), vec![Effect::Print { text: text("né\n") }]);
}

#[test]
fn console_attach_twice_is_as_once() {
    let mut once = StdoutBroker::new();
    let first = once.add_destination(&text("stdout"));
    let mut twice = StdoutBroker::new();
    twice.add_destination(&text("stdout")).unwrap();
    let second = twice.add_destination(&text("stdout"));
    assert_eq!(first, second);
    assert_eq!(once.is_enabled(), twice.is_enabled());
    assert_eq!(once.send(&text("m")), twice.send(&text("m")));
    assert_eq!(twice.send(&text("m")), vec![Effect::Print { text: text("m\n") }]);
}

#[test]
fn fan_out_matches_the_scheme_prefix() {
    let broker = WebSocketBroker::new();
    assert!(broker.matches(&text("ws://h:1")));
    assert!(broker.matches(&text("ws://")));
    assert!(!broker.matches(&text("ws:/h:1")));
    assert!(!broker.matches(&text("wss://h:1")));
    assert!(!broker.matches(&text(" ws://h:1")));
    assert!(!broker.matches(&text("ws")));
    assert!(!broker.matches(&text("")));
    assert!(!broker.matches(&text("h:2")));
}

#[test]
fn host_port_is_what_follows_the_scheme() {
    assert_eq!(get_host_port(&text("ws://h:1")), Some(text("h:1")));
    assert_eq!(get_host_port(&text("ws://127.0.0.1:8080")), Some(text("127.0.0.1:8080")));
    assert_eq!(get_host_port(&text("ws://")), Some(text("")));
    assert_eq!(get_host_port(&text("tcp://[::1]:9")), Some(text("[::1]:9")));
}

#[test]
fn host_port_keeps_a_trailing_slash() {
    assert_eq!(get_host_port(&text("ws://h:1/")), Some(text("h:1/")));
}

#[test]
fn host_port_starts_after_the_first_separator() {
    assert_eq!(get_host_port(&text("ws://a://b")), Some(text("a://b")));
}

#[test]
fn host_port_ends_at_a_line_end() {
    assert_eq!(get_host_port(&text("ws://h:1\nrest")), Some(text("h:1")));
}

#[test]
fn host_port_is_missing_without_separator() {
    assert_eq!(get_host_port(&text("h:2")), None);
    assert_eq!(get_host_port(&text("")), None);
    assert_eq!(get_host_port(&text("ws:/h")), None);
}

#[test]
fn fan_out_numbers_its_collections() {
    let mut broker = WebSocketBroker::new();
    assert_eq!(broker.len(), 0);
    assert_eq!(
        broker.add_destination(&text("ws://0.0.0.0:9001")),
        Ok(Setup::Listen { address: text("0.0.0.0:9001"), collection: 0 })
    );
    assert_eq!(
        broker.add_destination(&text("ws://0.0.0.0:9002")),
        Ok(Setup::Listen { address: text("0.0.0.0:9002"), collection: 1 })
    );
    assert_eq!(broker.len(), 2);
    assert_eq!(
        broker.send(&text("m")),
        vec![
            Effect::Deliver { collection: 0, text: text("m") },
            Effect::Deliver { collection: 1, text: text("m") },
        ]
    );
}

#[test]
fn fan_out_takes_the_same_address_twice() {
    let mut broker = WebSocketBroker::new();
    broker.add_destination(&text("ws://h:1")).unwrap();
    assert_eq!(
        broker.add_destination(&text("ws://h:1")),
        Ok(Setup::Listen { address: text("h:1"), collection: 1 })
    );
    assert_eq!(broker.len(), 2);
}

#[test]
fn fan_out_refuses_a_descriptor_without_host_port() {
    let mut broker = WebSocketBroker::new();
    assert_eq!(broker.add_destination(&text("nothing")), Err(SetupError::NoHostPort));
    assert_eq!(broker.listen_on(None), Err(SetupError::NoHostPort));
    assert_eq!(broker.len(), 0);
    assert_eq!(broker.send(&text("m")), vec![]);
}

#[test]
fn fan_out_listens_on_what_it_is_given() {
    let mut broker = WebSocketBroker::new();
    assert_eq!(
        broker.listen_on(Some(text("h:7"))),
        Ok(Setup::Listen { address: text("h:7"), collection: 0 })
    );
    assert_eq!(broker.len(), 1);
}

#[test]
fn fan_out_without_destination_is_silent() {
    let broker = WebSocketBroker::new();
    assert_eq!(broker.send(&text("m")), vec![]);
}

#[test]
fn datagram_matches_everything() {
    let broker = UdpBroker::new();
    assert!(broker.matches(&text("h:2")));
    assert!(broker.matches(&text("")));
    assert!(broker.matches(&text("stdout")));
    assert!(broker.matches(&text("ws://h:1")));
}

#[test]
fn datagram_asks_for_resolution() {
    let mut broker = UdpBroker::new();
    assert_eq!(
        broker.add_destination(&text("127.0.0.1:9")),
        Ok(Setup::Resolve { descriptor: text("127.0.0.1:9") })
    );
    assert_eq!(broker.send(&text("m")), vec![]);
}

#[test]
fn datagram_goes_out_once_per_family() {
    let v4 = Endpoint::V4 { address: 0x7f00_0001, port: 9 };
    let v6 = Endpoint::V6 { address: 1, port: 9, flow: 0, scope: 0 };
    let mut broker = UdpBroker::new();
    broker.add_destination(&text("127.0.0.1:9")).unwrap();
    broker.resolved(v4);
    broker.add_destination(&text("[::1]:9")).unwrap();
    broker.resolved(v6);
    let effects = broker.send(&text("ping"));
    assert_eq!(
        effects,
        vec![
            Effect::Transmit { socket: Family::V4, endpoint: v4, payload: vec![112, 105, 110, 103] },
            Effect::Transmit { socket: Family::V6, endpoint: v6, payload: vec![112, 105, 110, 103] },
        ]
    );
}

#[test]
fn datagram_payload_is_the_utf8_of_the_message() {
    let v4 = Endpoint::V4 { address: 0x0a00_0001, port: 5000 };
    let mut broker = UdpBroker::new();
    broker.resolved(v4);
    assert_eq!(
        broker.send(&text("é")),
        vec![Effect::Transmit { socket: Family::V4, endpoint: v4, payload: vec![0xc3, 0xa9] }]
    );
    assert_eq!(
        broker.send(&text("")),
        vec![Effect::Transmit { socket: Family::V4, endpoint: v4, payload: vec![] }]
    );
}

#[test]
fn datagram_keeps_order_and_duplicates() {
    let a = Endpoint::V6 { address: 7, port: 1, flow: 2, scope: 3 };
    let b = Endpoint::V4 { address: 8, port: 2 };
    let mut broker = UdpBroker::new();
    broker.resolved(a);
    broker.resolved(b);
    broker.resolved(a);
    let effects = broker.send(&text("x"));
    assert_eq!(
        effects,
        vec![
            Effect::Transmit { socket: Family::V6, endpoint: a, payload: vec![120] },
            Effect::Transmit { socket: Family::V4, endpoint: b, payload: vec![120] },
            Effect::Transmit { socket: Family::V6, endpoint: a, payload: vec![120] },
        ]
    );
}

#[test]
fn endpoint_family_follows_the_variant() {
    assert_eq!(Endpoint::V4 { address: 0, port: 0 }.family(), Family::V4);
    assert_eq!(Endpoint::V6 { address: 0, port: 0, flow: 0, scope: 0 }.family(), Family::V6);
}
