use h3_connector::{
    bind_address, effective_port, normalize_host, with_port, Action, Attempt, ConnectError, Event,
    H3Connector, IpAddress, SocketAddress, Stage, DEFAULT_PORT,
};

fn v4(a: u8, b: u8, c: u8, d: u8, port: u16) -> SocketAddress {
    SocketAddress { ip: IpAddress::V4(u32::from_be_bytes([a, b, c, d])), port }
}

fn expect_dial(action: Action<String>, name: &str, addr: SocketAddress) {
    match action {
        Action::Dial(n, a) => {
            assert_eq!(n, name);
            assert_eq!(a, addr);
        }
        _ => panic!("expected a dial"),
    }
}

fn resolving(host: &str, port: Option<u16>) -> Attempt {
    let (mut attempt, first) = Attempt::begin::<String>(Some(host), port);
    assert!(matches!(first, Action::ClassifyHost(_)));
    match attempt.step::<String>(Event::HostParsed(None)) {
        Action::Resolve(name) => assert_eq!(name.as_str(), attempt.server_name()),
        _ => panic!("expected resolution"),
    }
    assert_eq!(attempt.stage(), Stage::Resolving);
    attempt
}

#[test]
fn brackets_are_stripped() {
    assert_eq!(normalize_host("[::1]"), "::1");
    assert_eq!(normalize_host("[[fe80::1]]"), "fe80::1");
    assert_eq!(normalize_host("example.com"), "example.com");
    assert_eq!(normalize_host("a[b]c"), "a[b]c");
    assert_eq!(normalize_host("[]"), "");
    assert_eq!(normalize_host(""), "");
}

#[test]
fn port_defaults_to_443() {
    assert_eq!(DEFAULT_PORT, 443);
    assert_eq!(effective_port(None), 443);
    assert_eq!(effective_port(Some(8443)), 8443);
    assert_eq!(effective_port(Some(0)), 0);
}

#[test]
fn bind_address_defaults_to_ipv6_any() {
    assert_eq!(bind_address(None), SocketAddress { ip: IpAddress::V6(0), port: 0 });
    assert_eq!(bind_address(Some(IpAddress::V4(0x7f00_0001))), v4(127, 0, 0, 1, 0));
    let connector = H3Connector::new(Some(IpAddress::V6(1)));
    assert_eq!(connector.local_address(), SocketAddress { ip: IpAddress::V6(1), port: 0 });
    assert_eq!(H3Connector::new(None).local_address(), SocketAddress { ip: IpAddress::V6(0), port: 0 });
}

#[test]
fn resolved_addresses_take_the_destination_port_in_order() {
    let addrs = vec![v4(10, 0, 0, 3, 80), v4(10, 0, 0, 1, 0), SocketAddress { ip: IpAddress::V6(7), port: 9 }];
    let out = with_port(addrs, 8443);
    assert_eq!(out, vec![v4(10, 0, 0, 3, 8443), v4(10, 0, 0, 1, 8443), SocketAddress { ip: IpAddress::V6(7), port: 8443 }]);
    assert!(with_port(Vec::new(), 1).is_empty());
}

#[test]
fn connect_reads_host_and_port_of_the_uri() {
    let connector = H3Connector::new(None);
    let uri: http::Uri = "https://[::1]:8443/index.html".parse().unwrap();
    let (attempt, action) = connector.connect::<String>(&uri);
    match action {
        Action::ClassifyHost(h) => assert_eq!(h, "::1"),
        _ => panic!("expected classification"),
    }
    assert_eq!(attempt.server_name(), "::1");
    assert_eq!(attempt.port(), 8443);
    assert_eq!(attempt.stage(), Stage::Classifying);
    assert!(attempt.candidates().is_empty());

    let uri: http::Uri = "https://example.com/".parse().unwrap();
    let (attempt, _) = connector.connect::<String>(&uri);
    assert_eq!(attempt.server_name(), "example.com");
    assert_eq!(attempt.port(), 443);
}

#[test]
fn destination_without_host_fails_at_once() {
    let connector = H3Connector::new(None);
    let uri: http::Uri = "/only/a/path".parse().unwrap();
    let (attempt, action) = connector.connect::<String>(&uri);
    assert!(matches!(action, Action::Fail(ConnectError::MissingHost)));
    assert_eq!(attempt.stage(), Stage::Finished);
    assert!(!attempt.awaits::<String>(&Event::HostParsed(None)));
    assert!(!attempt.awaits::<String>(&Event::Dialed));

    let (attempt, action) = Attempt::begin::<String>(None, Some(80));
    assert!(matches!(action, Action::Fail(ConnectError::MissingHost)));
    assert_eq!(attempt.stage(), Stage::Finished);
}

#[test]
fn literal_address_is_dialed_without_resolution() {
    let (mut attempt, _) = Attempt::begin::<String>(Some("[::1]"), None);
    let ip = IpAddress::V6(1);
    let dial = attempt.step::<String>(Event::HostParsed(Some(ip)));
    expect_dial(dial, "::1", SocketAddress { ip, port: 443 });
    assert_eq!(attempt.candidates(), &vec![SocketAddress { ip, port: 443 }]);
    assert_eq!(attempt.stage(), Stage::Dialing(0));
    assert!(!attempt.awaits::<String>(&Event::Resolved(Vec::new())));

    let (mut attempt, _) = Attempt::begin::<String>(Some("192.0.2.1"), Some(4433));
    let ip = IpAddress::V4(u32::from_be_bytes([192, 0, 2, 1]));
    expect_dial(attempt.step::<String>(Event::HostParsed(Some(ip))), "192.0.2.1", v4(192, 0, 2, 1, 4433));
    match attempt.step::<String>(Event::DialFailed("refused".to_string())) {
        Action::Fail(ConnectError::Dial(e)) => assert_eq!(e, "refused"),
        _ => panic!("expected the dial error"),
    }
}

#[test]
fn candidates_are_tried_in_order_until_one_dials() {
    let mut attempt = resolving("example.com", None);
    let (a, b, c) = (v4(10, 0, 0, 1, 1), v4(10, 0, 0, 2, 2), v4(10, 0, 0, 3, 3));
    let dial = attempt.step::<String>(Event::Resolved(vec![a, b, c]));
    expect_dial(dial, "example.com", v4(10, 0, 0, 1, 443));
    expect_dial(attempt.step::<String>(Event::DialFailed("a".to_string())), "example.com", v4(10, 0, 0, 2, 443));
    expect_dial(attempt.step::<String>(Event::DialFailed("b".to_string())), "example.com", v4(10, 0, 0, 3, 443));
    assert_eq!(attempt.stage(), Stage::Dialing(2));
    match attempt.step::<String>(Event::Dialed) {
        Action::Negotiate(addr) => assert_eq!(addr, v4(10, 0, 0, 3, 443)),
        _ => panic!("expected negotiation"),
    }
    match attempt.step::<String>(Event::Negotiated) {
        Action::Done(addr) => assert_eq!(addr, v4(10, 0, 0, 3, 443)),
        _ => panic!("expected a session"),
    }
    assert_eq!(attempt.stage(), Stage::Finished);
}

#[test]
fn empty_resolution_is_no_usable_address() {
    let mut attempt = resolving("example.com", Some(8443));
    assert!(attempt.awaits::<String>(&Event::Resolved(Vec::new())));
    let action = attempt.step::<String>(Event::Resolved(Vec::new()));
    assert!(matches!(action, Action::Fail(ConnectError::NoAddresses)));
    assert_eq!(attempt.stage(), Stage::Finished);
}

#[test]
fn all_dials_rejected_reports_the_last() {
    let mut attempt = resolving("[example.org]", Some(8443));
    assert_eq!(attempt.server_name(), "example.org");
    let dial = attempt.step::<String>(Event::Resolved(vec![v4(1, 1, 1, 1, 0), v4(2, 2, 2, 2, 0)]));
    expect_dial(dial, "example.org", v4(1, 1, 1, 1, 8443));
    expect_dial(attempt.step::<String>(Event::DialFailed("first".to_string())), "example.org", v4(2, 2, 2, 2, 8443));
    match attempt.step::<String>(Event::DialFailed("second".to_string())) {
        Action::Fail(ConnectError::Dial(e)) => assert_eq!(e, "second"),
        _ => panic!("expected the last dial error"),
    }
    assert_eq!(attempt.stage(), Stage::Finished);
}

#[test]
fn resolution_failure_is_reported_as_such() {
    let mut attempt = resolving("example.com", None);
    match attempt.step::<String>(Event::ResolveFailed("no such host".to_string())) {
        Action::Fail(ConnectError::Resolve(e)) => assert_eq!(e, "no such host"),
        _ => panic!("expected a resolution error"),
    }
}

#[test]
fn negotiation_failure_ends_the_attempt() {
    let mut attempt = resolving("example.com", None);
    attempt.step::<String>(Event::Resolved(vec![v4(1, 1, 1, 1, 0), v4(2, 2, 2, 2, 0)]));
    assert!(matches!(attempt.step::<String>(Event::Dialed), Action::Negotiate(_)));
    assert!(attempt.awaits::<String>(&Event::Negotiated));
    assert!(!attempt.awaits::<String>(&Event::DialFailed(String::new())));
    match attempt.step::<String>(Event::NegotiationFailed("h3".to_string())) {
        Action::Fail(ConnectError::Negotiate(e)) => assert_eq!(e, "h3"),
        _ => panic!("expected a negotiation error"),
    }
    assert_eq!(attempt.stage(), Stage::Finished);
}

#[test]
fn repeated_connects_start_afresh() {
    let connector = H3Connector::new(None);
    let uri: http::Uri = "https://example.com:4433/".parse().unwrap();
    for _ in 0..2 {
        let (mut attempt, action) = connector.connect::<String>(&uri);
        assert!(matches!(action, Action::ClassifyHost(_)));
        assert!(attempt.candidates().is_empty());
        assert!(matches!(attempt.step::<String>(Event::HostParsed(None)), Action::Resolve(_)));
        expect_dial(attempt.step::<String>(Event::Resolved(vec![v4(9, 9, 9, 9, 1)])), "example.com", v4(9, 9, 9, 9, 4433));
        assert!(matches!(attempt.step::<String>(Event::Dialed), Action::Negotiate(_)));
        assert!(matches!(attempt.step::<String>(Event::Negotiated), Action::Done(_)));
    }
    assert_eq!(connector.local_address(), SocketAddress { ip: IpAddress::V6(0), port: 0 });
}
