use arc_cli::dispatch::{start, Action, CliError, Event, NodeInfo, Reply, Request, Session, Step};
use arc_cli::endpoint::{endpoint_from_parts, validate_endpoint, EndpointFault, UriParts};
use arc_cli::hex::to_hex;
use arc_cli::peer::{dotted_decimal, find_ipv4, PeerAddress, Resolved};

fn local_peer() -> PeerAddress {
    PeerAddress { octets: [127, 0, 0, 1], port: 4225 }
}

fn connect_action() -> Action {
    Action::Connect { address: "127.0.0.1:4225".to_string() }
}

#[test]
fn hex_of_two_bytes() {
    assert_eq!(to_hex(&vec![0x0a, 0xff]), "0aff");
}

#[test]
fn hex_twice_is_the_same() {
    let bytes = vec![0xde, 0xad, 0x00, 0x01];
    assert_eq!(to_hex(&bytes), to_hex(&bytes));
    assert_eq!(to_hex(&bytes), "dead0001");
}

#[test]
fn hex_of_nothing_is_empty() {
    assert_eq!(to_hex(&vec![]), "");
}

#[test]
fn first_ipv4_is_taken_in_order() {
    let a = PeerAddress { octets: [10, 0, 0, 2], port: 1 };
    let b = PeerAddress { octets: [10, 0, 0, 3], port: 2 };
    let list = vec![Resolved::V6, Resolved::V4(a), Resolved::V6, Resolved::V4(b)];
    assert_eq!(find_ipv4(&list), Some(a));
}

#[test]
fn no_ipv4_gives_none() {
    assert_eq!(find_ipv4(&vec![]), None);
    assert_eq!(find_ipv4(&vec![Resolved::V6, Resolved::V6]), None);
}

#[test]
fn dotted_decimal_forms() {
    assert_eq!(dotted_decimal(&[127, 0, 0, 1]), "127.0.0.1");
    assert_eq!(dotted_decimal(&[0, 10, 255, 9]), "0.10.255.9");
}

#[test]
fn wire_address_of_local_peer() {
    let w = local_peer().to_wire();
    assert_eq!(w.ip, "127.0.0.1");
    assert_eq!(w.port, 4225);
}

#[test]
fn default_endpoint_is_valid() {
    let e = validate_endpoint("http://localhost:4225").unwrap();
    assert_eq!(e.uri, "http://localhost:4225");
    assert_eq!(e.scheme, "http");
    assert_eq!(e.authority, "localhost:4225");
}

#[test]
fn malformed_endpoint_is_a_syntax_fault() {
    assert!(matches!(validate_endpoint("http://exa mple"), Err(EndpointFault::Syntax(_))));
    assert!(matches!(validate_endpoint(""), Err(EndpointFault::Syntax(_))));
}

#[test]
fn endpoint_without_host_is_refused() {
    assert!(matches!(validate_endpoint("/only/a/path"), Err(EndpointFault::NoAuthority)));
}

#[test]
fn endpoint_parts_without_scheme_are_refused() {
    let parts = UriParts { scheme: None, authority: Some("localhost:4225".to_string()) };
    assert!(matches!(endpoint_from_parts("localhost:4225", Ok(parts)), Err(EndpointFault::NoScheme)));
}

#[test]
fn invalid_endpoint_fails_before_connecting() {
    let (session, step) = start("http://exa mple", connect_action());
    assert!(matches!(session, Session::Finished));
    assert!(matches!(step, Step::Fail(CliError::InvalidEndpoint(EndpointFault::Syntax(_)))));
    assert!(!session.expects(&Event::Connected));
}

#[test]
fn getinfo_round_trip() {
    let (session, step) = start("http://localhost:4225", Action::GetInfo);
    match step {
        Step::Connect(e) => assert_eq!(e.uri, "http://localhost:4225"),
        other => panic!("unexpected step {:?}", other),
    }
    assert!(session.expects(&Event::Connected));
    let (session, step) = session.on_event(Event::Connected);
    assert!(matches!(step, Step::Call(Request::GetInfo)));
    assert!(matches!(session, Session::Calling { reply: Reply::Info }));
    let info = NodeInfo {
        implementation: "node-x".to_string(),
        protocol_version: 3,
        best_block_hash: vec![0xde, 0xad],
        genesis_block_hash: vec![0xbe, 0xef],
    };
    let (session, step) = session.on_event(Event::InfoReceived(info));
    assert!(matches!(session, Session::Finished));
    match step {
        Step::Render(r) => {
            assert_eq!(r.implementation, "node-x");
            assert_eq!(r.protocol_version, 3);
            assert_eq!(r.best_block_hash, "dead");
            assert_eq!(r.genesis_hash, "beef");
        }
        other => panic!("unexpected step {:?}", other),
    }
}

#[test]
fn connect_round_trip() {
    let (session, step) = start("http://localhost:4225", connect_action());
    match step {
        Step::Resolve(a) => assert_eq!(a, "127.0.0.1:4225"),
        other => panic!("unexpected step {:?}", other),
    }
    let (session, step) = session.on_event(Event::Resolved(vec![Resolved::V4(local_peer())]));
    assert!(matches!(step, Step::Connect(_)));
    let (session, step) = session.on_event(Event::Connected);
    match step {
        Step::Call(Request::ConnectPeer(w)) => {
            assert_eq!(w.ip, "127.0.0.1");
            assert_eq!(w.port, 4225);
        }
        other => panic!("unexpected step {:?}", other),
    }
    assert!(session.expects(&Event::Acknowledged));
    let (session, step) = session.on_event(Event::Acknowledged);
    assert!(matches!(step, Step::Succeed));
    assert!(matches!(session, Session::Finished));
}

#[test]
fn disconnect_round_trip_failing_call() {
    let action = Action::Disconnect { address: "127.0.0.1:4225".to_string() };
    let (session, _) = start("http://localhost:4225", action);
    let (session, _) = session.on_event(Event::Resolved(vec![Resolved::V6, Resolved::V4(local_peer())]));
    let (session, step) = session.on_event(Event::Connected);
    match step {
        Step::Call(Request::DisconnectPeer(w)) => {
            assert_eq!(w.ip, "127.0.0.1");
            assert_eq!(w.port, 4225);
        }
        other => panic!("unexpected step {:?}", other),
    }
    let (session, step) = session.on_event(Event::CallFailed("unavailable".to_string()));
    match step {
        Step::Fail(CliError::RpcCallFailed(m)) => assert_eq!(m, "unavailable"),
        other => panic!("unexpected step {:?}", other),
    }
    assert!(matches!(session, Session::Finished));
}

#[test]
fn unresolvable_peer_never_opens_a_connection() {
    let (session, step) = start("http://localhost:4225", connect_action());
    assert!(matches!(step, Step::Resolve(_)));
    assert!(!session.expects(&Event::Connected));
    let (session, step) = session.on_event(Event::Resolved(vec![Resolved::V6]));
    assert!(matches!(step, Step::Fail(CliError::UnresolvableAddress)));
    assert!(!session.expects(&Event::Connected));
}

#[test]
fn empty_resolution_is_unresolvable() {
    let (session, _) = start("http://localhost:4225", connect_action());
    let (_, step) = session.on_event(Event::Resolved(vec![]));
    assert!(matches!(step, Step::Fail(CliError::UnresolvableAddress)));
}

#[test]
fn failed_connection_is_reported() {
    let (session, _) = start("http://localhost:4225", Action::GetInfo);
    assert!(!session.expects(&Event::Acknowledged));
    let (session, step) = session.on_event(Event::ConnectFailed("refused".to_string()));
    match step {
        Step::Fail(CliError::ConnectionFailed(m)) => assert_eq!(m, "refused"),
        other => panic!("unexpected step {:?}", other),
    }
    assert!(matches!(session, Session::Finished));
}
