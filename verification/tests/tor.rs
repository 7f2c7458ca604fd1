use std::collections::HashMap;

use tor_client::{split_body, FetchStep, HttpFetch};
use tor_client::{
    backend_from_u8, backend_to_u8, status_from_u8, status_to_u8, Backend, ClientAction,
    ClientEvent, EmbeddedFailure, Mode, Status, TorClient,
};

fn started(a: ClientAction) -> Option<bool> {
    match a {
        ClientAction::Started(b) => Some(b),
        _ => None,
    }
}

#[test]
fn mode_parses() {
    assert_eq!(Mode::parse("local"), Mode::Local);
    assert_eq!(Mode::parse("EMBEDDED"), Mode::Embedded);
    assert_eq!(Mode::parse("whatever"), Mode::Auto);
}

#[test]
fn status_round_trips() {
    for s in [
        Status::Connecting,
        Status::Connected,
        Status::Disconnected,
        Status::Error,
    ] {
        assert_eq!(status_from_u8(status_to_u8(s)), s);
    }
}

#[test]
fn backend_round_trips() {
    for b in [Backend::Inactive, Backend::Local, Backend::Embedded] {
        assert_eq!(backend_from_u8(backend_to_u8(b)), b);
    }
}

#[test]
fn start_fails_cleanly_without_a_daemon() {
    let mut cfg = HashMap::new();
    cfg.insert("ra.tor.socksPort".into(), "9098".into());
    cfg.insert("ra.tor.controlPort".into(), "9099".into());
    let mut client = TorClient::from_config(&cfg);
    // Auto mode: the probe finds no daemon, and this build has no embedded backend.
    let a = client.start_at(1_000);
    assert!(matches!(a, ClientAction::ProbeLocal));
    let a = client.resume_at(ClientEvent::LocalProbed(false), 1_001);
    assert!(matches!(a, ClientAction::ActivateEmbedded));
    let a = client.resume_at(
        ClientEvent::EmbeddedActivated(Err(EmbeddedFailure::NotBuilt)),
        1_002,
    );
    assert_eq!(started(a), Some(false));
    assert_eq!(client.status(), Status::Disconnected);
}

#[test]
fn socks_connect_and_http_fetch_through_a_fake_proxy() {
    let mut cfg = HashMap::new();
    cfg.insert("ra.tor.socksPort".into(), "40123".into());
    cfg.insert("ra.tor.controlPort".into(), "40124".into());
    let mut client = TorClient::from_config(&cfg);
    assert_eq!(client.detector().socks_port, 40123);
    // Both ports of the fake daemon answer the probes.
    let mut a = client.start_at(0);
    while matches!(a, ClientAction::ProbeLocal) {
        a = client.resume_at(ClientEvent::LocalProbed(true), 0);
    }
    assert_eq!(started(a), Some(true));

    let url = match client.send_at(Some("http://example.onion/path".into()), 1) {
        ClientAction::FetchLocal(u) => u,
        _ => panic!("expected a local fetch"),
    };
    // The fake proxy: accepts no-auth, connects with an IPv4 bound address
    // 0.0.0.0:0, then serves the HTTP response.
    let (mut fetch, mut step) = HttpFetch::begin(&url).unwrap();
    let mut replies: Vec<Vec<u8>> = vec![vec![0x05, 0x00], vec![0x05, 0x00, 0x00, 0x01], vec![0; 6]];
    replies.reverse();
    let body = loop {
        match step {
            FetchStep::Exchange { receive, .. } => {
                let reply = replies.pop().unwrap();
                assert_eq!(reply.len(), receive);
                step = fetch.advance(&reply);
            }
            FetchStep::Request { send } => {
                assert!(send.starts_with(b"GET /path HTTP/1.1\r\nHost: example.onion\r\n"));
                let raw = b"HTTP/1.1 200 OK\r\nContent-Length: 5\r\nConnection: close\r\n\r\nhello".to_vec();
                break split_body(raw);
            }
            FetchStep::Fail(e) => panic!("{}", e.message()),
        }
    };
    match client.resume_at(ClientEvent::Fetched(Ok(body)), 2) {
        ClientAction::Delivered(payload) => assert_eq!(payload, b"hello"),
        _ => panic!("expected a delivered body"),
    }
}
