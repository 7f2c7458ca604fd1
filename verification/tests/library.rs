use std::collections::HashMap;

use tor_client::Envelope;
use tor_client::{
    format_get, now_millis, parse_url, split_body, Backend, ClientAction, ClientEvent,
    EmbeddedFailure, FetchError, FetchStep, HttpFetch, LocalTorDetector, Mode, SocksConnect, SocksStep, Status,
    TorClient, DEFAULT_CONTROL_PORT, DEFAULT_HOST, DEFAULT_SOCKS_PORT,
};

fn exchange(step: &SocksStep) -> (Vec<u8>, usize) {
    match step {
        SocksStep::Exchange { send, receive } => (send.clone(), *receive),
        _ => panic!("expected an exchange"),
    }
}

fn fail(step: &SocksStep) -> FetchError {
    match step {
        SocksStep::Fail(e) => *e,
        _ => panic!("expected a failure"),
    }
}

fn cfg(pairs: &[(&str, &str)]) -> HashMap<String, String> {
    let mut m = HashMap::new();
    for (k, v) in pairs {
        m.insert(k.to_string(), v.to_string());
    }
    m
}

fn failed_text(a: ClientAction) -> String {
    match a {
        ClientAction::Failed(e) => e,
        _ => panic!("expected a failure"),
    }
}

fn fetch_local_url(a: ClientAction) -> String {
    match a {
        ClientAction::FetchLocal(u) => u,
        _ => panic!("expected a local fetch"),
    }
}

fn fetch_embedded_url(a: ClientAction) -> String {
    match a {
        ClientAction::FetchEmbedded(u) => u,
        _ => panic!("expected an embedded fetch"),
    }
}

/// A client in the given mode that started on the local daemon.
fn local_client(mode: &str) -> TorClient {
    let mut c = TorClient::from_config(&cfg(&[("ra.tor.mode", mode)]));
    let mut a = c.start_at(100);
    while matches!(a, ClientAction::ProbeLocal) {
        a = c.resume_at(ClientEvent::LocalProbed(true), 100);
    }
    assert!(matches!(a, ClientAction::Started(true)));
    c
}

#[test]
fn mode_parse_trims_and_ignores_ascii_case() {
    assert_eq!(Mode::parse("  Local\n"), Mode::Local);
    assert_eq!(Mode::parse("\tEmBeDdEd "), Mode::Embedded);
    assert_eq!(Mode::parse("\u{3000}local\u{a0}"), Mode::Local);
    assert_eq!(Mode::parse("auto"), Mode::Auto);
    assert_eq!(Mode::parse(""), Mode::Auto);
    assert_eq!(Mode::parse("lo cal"), Mode::Auto);
    assert_eq!(Mode::parse("localx"), Mode::Auto);
}

#[test]
fn url_with_port_and_path() {
    let (h, p, path) = parse_url("http://example.onion:8080/a/b?c").unwrap();
    assert_eq!(h, "example.onion");
    assert_eq!(p, 8080);
    assert_eq!(path, "/a/b?c");
}

#[test]
fn url_defaults_to_port_80_and_root_path() {
    let (h, p, path) = parse_url("http://example.onion").unwrap();
    assert_eq!((h.as_str(), p, path.as_str()), ("example.onion", 80, "/"));
    let (h, p, path) = parse_url("http://example.onion/path").unwrap();
    assert_eq!((h.as_str(), p, path.as_str()), ("example.onion", 80, "/path"));
}

#[test]
fn url_port_follows_last_colon_before_path() {
    let (h, p, path) = parse_url("http://a:b:81/x:9").unwrap();
    assert_eq!((h.as_str(), p, path.as_str()), ("a:b", 81, "/x:9"));
    let (h, p, _) = parse_url("http://host:+443").unwrap();
    assert_eq!((h.as_str(), p), ("host", 443));
}

#[test]
fn url_errors() {
    assert_eq!(parse_url("https://example.onion/").unwrap_err(), FetchError::UnsupportedScheme);
    assert_eq!(parse_url("HTTP://x/").unwrap_err(), FetchError::UnsupportedScheme);
    assert_eq!(parse_url("http://x:99999/").unwrap_err(), FetchError::BadPort);
    assert_eq!(parse_url("http://x:/").unwrap_err(), FetchError::BadPort);
    assert_eq!(parse_url("http://x:8a/").unwrap_err(), FetchError::BadPort);
}

#[test]
fn get_request_text() {
    assert_eq!(
        format_get("example.onion", "/path"),
        "GET /path HTTP/1.1\r\nHost: example.onion\r\nUser-Agent: ra-tor-client\r\nAccept: */*\r\nConnection: close\r\n\r\n"
    );
}

#[test]
fn body_after_first_separator() {
    let raw = b"HTTP/1.1 200 OK\r\nContent-Length: 5\r\nConnection: close\r\n\r\nhello".to_vec();
    assert_eq!(split_body(raw), b"hello".to_vec());
    let raw = b"H\r\n\r\nbody\r\n\r\nmore".to_vec();
    assert_eq!(split_body(raw), b"body\r\n\r\nmore".to_vec());
    assert_eq!(split_body(b"\r\n\r\n".to_vec()), Vec::<u8>::new());
}

#[test]
fn response_without_separator_is_kept_whole() {
    assert_eq!(split_body(b"no headers\r\n\r".to_vec()), b"no headers\r\n\r".to_vec());
    assert_eq!(split_body(Vec::new()), Vec::<u8>::new());
}

#[test]
fn socks_handshake_ipv4() {
    let (mut hs, step) = SocksConnect::new("example.onion", 80);
    assert_eq!(exchange(&step), (vec![5, 1, 0], 2));
    let step = hs.advance(&[5, 0]);
    let mut req = vec![5, 1, 0, 3, 13];
    req.extend_from_slice(b"example.onion");
    req.extend_from_slice(&[0, 80]);
    assert_eq!(exchange(&step), (req, 4));
    let step = hs.advance(&[5, 0, 0, 1]);
    assert_eq!(exchange(&step), (vec![], 6));
    let step = hs.advance(&[0, 0, 0, 0, 0, 0]);
    assert!(matches!(step, SocksStep::Open));
}

#[test]
fn socks_handshake_ipv6_and_domain_bound_addresses() {
    let (mut hs, _) = SocksConnect::new("h", 0x1f90);
    match hs.advance(&[5, 0]) {
        SocksStep::Exchange { send, .. } => assert_eq!(send, vec![5, 1, 0, 3, 1, b'h', 0x1f, 0x90]),
        _ => panic!(),
    }
    assert_eq!(exchange(&hs.advance(&[5, 0, 0, 4])), (vec![], 18));

    let (mut hs, _) = SocksConnect::new("h", 1);
    hs.advance(&[5, 0]);
    assert_eq!(exchange(&hs.advance(&[5, 0, 0, 3])), (vec![], 1));
    assert_eq!(exchange(&hs.advance(&[7])), (vec![], 9));
    assert!(matches!(hs.advance(&[0; 9]), SocksStep::Open));
}

#[test]
fn socks_failures() {
    let (mut hs, _) = SocksConnect::new("h", 1);
    assert_eq!(fail(&hs.advance(&[5, 255])), FetchError::RefusedNoAuth(5, 255));

    let long = "a".repeat(256);
    let (mut hs, _) = SocksConnect::new(&long, 1);
    assert_eq!(fail(&hs.advance(&[5, 0])), FetchError::HostTooLong);
    let ok = "a".repeat(255);
    let (mut hs, _) = SocksConnect::new(&ok, 1);
    assert_eq!(exchange(&hs.advance(&[5, 0])).0.len(), 255 + 7);

    let (mut hs, _) = SocksConnect::new("h", 1);
    hs.advance(&[5, 0]);
    assert_eq!(fail(&hs.advance(&[5, 1, 0, 1])), FetchError::ConnectFailed(1));

    let (mut hs, _) = SocksConnect::new("h", 1);
    hs.advance(&[5, 0]);
    assert_eq!(fail(&hs.advance(&[5, 0, 0, 7])), FetchError::BadAddressType(7));
}

#[test]
fn error_messages() {
    assert_eq!(FetchError::RefusedNoAuth(5, 255).message(), "SOCKS5 proxy refused no-auth (got [5, 255])");
    assert_eq!(FetchError::ConnectFailed(1).message(), "SOCKS5 connect failed, REP=1");
    assert_eq!(FetchError::BadAddressType(42).message(), "SOCKS5 bad ATYP 42");
    assert_eq!(FetchError::HostTooLong.message(), "host too long");
    assert_eq!(FetchError::BadPort.message(), "bad port");
    assert_eq!(
        FetchError::UnsupportedScheme.message(),
        "only http:// URLs are supported (HTTPS needs a TLS crate - see TODO.md)"
    );
}

#[test]
fn detector_defaults() {
    let d = LocalTorDetector::default();
    assert_eq!(d.host, DEFAULT_HOST);
    assert_eq!(d.host, "127.0.0.1");
    assert_eq!((d.socks_port, d.control_port), (9050, 9051));
    assert_eq!((DEFAULT_SOCKS_PORT, DEFAULT_CONTROL_PORT), (9050, 9051));
    assert_eq!(d.timeout_ms, 750);
}

#[test]
fn new_client_is_auto_and_disconnected() {
    let c = TorClient::new();
    assert_eq!(c.mode(), Mode::Auto);
    assert_eq!(c.status(), Status::Disconnected);
    assert_eq!(c.active_backend(), Backend::Inactive);
    assert_eq!(c.request_timeout_secs(), 60);
    assert_eq!(c.data_dir(), None);
    assert_eq!(c.detector().socks_port, 9050);
}

#[test]
fn config_keys_are_read() {
    let c = TorClient::from_config(&cfg(&[
        ("ra.tor.mode", " LOCAL "),
        ("ra.tor.host", "10.0.0.2"),
        ("ra.tor.socksPort", "9150"),
        ("ra.tor.controlPort", "+9151"),
        ("ra.tor.requestTimeoutSecs", "5"),
        ("ra.tor.dataDir", "/var/lib/1m5"),
    ]));
    assert_eq!(c.mode(), Mode::Local);
    assert_eq!(c.detector().host, "10.0.0.2");
    assert_eq!(c.detector().socks_port, 9150);
    assert_eq!(c.detector().control_port, 9151);
    assert_eq!(c.request_timeout_secs(), 5);
    assert_eq!(c.data_dir(), Some("/var/lib/1m5".to_string()));
}

#[test]
fn config_numbers_that_do_not_parse_keep_defaults() {
    let c = TorClient::from_config(&cfg(&[
        ("ra.tor.socksPort", "70000"),
        ("ra.tor.controlPort", " 9151"),
        ("ra.tor.requestTimeoutSecs", "-1"),
        ("ra.tor.other", "x"),
    ]));
    assert_eq!(c.detector().socks_port, 9050);
    assert_eq!(c.detector().control_port, 9051);
    assert_eq!(c.request_timeout_secs(), 60);
    assert_eq!(c.mode(), Mode::Auto);
}

#[test]
fn start_auto_with_daemon_uses_local() {
    let mut c = TorClient::new();
    assert!(matches!(c.start_at(10), ClientAction::ProbeLocal));
    assert_eq!(c.status(), Status::Connecting);
    assert!(matches!(c.resume_at(ClientEvent::LocalProbed(true), 11), ClientAction::ProbeLocal));
    assert!(matches!(c.resume_at(ClientEvent::LocalProbed(true), 12), ClientAction::Started(true)));
    assert_eq!(c.status(), Status::Connected);
    assert_eq!(c.active_backend(), Backend::Local);
}

#[test]
fn start_local_mode_without_daemon() {
    let mut c = TorClient::from_config(&cfg(&[("ra.tor.mode", "local")]));
    assert!(matches!(c.start_at(10), ClientAction::ProbeLocal));
    assert!(matches!(c.resume_at(ClientEvent::LocalProbed(false), 11), ClientAction::Started(false)));
    assert_eq!(c.status(), Status::Disconnected);
}

#[test]
fn start_embedded_outcomes() {
    let mut c = TorClient::from_config(&cfg(&[("ra.tor.mode", "embedded")]));
    assert!(matches!(c.start_at(10), ClientAction::ActivateEmbedded));
    let a = c.resume_at(ClientEvent::EmbeddedActivated(Err(EmbeddedFailure::Bootstrap)), 11);
    assert!(matches!(a, ClientAction::Started(false)));
    assert_eq!(c.status(), Status::Error);

    assert!(matches!(c.start_at(20), ClientAction::ActivateEmbedded));
    let a = c.resume_at(ClientEvent::EmbeddedActivated(Ok(())), 21);
    assert!(matches!(a, ClientAction::Started(true)));
    assert_eq!(c.status(), Status::Connected);
    assert_eq!(c.active_backend(), Backend::Embedded);
}

#[test]
fn stop_disconnects() {
    let mut c = local_client("auto");
    assert!(c.stop());
    assert_eq!(c.status(), Status::Disconnected);
    assert_eq!(c.active_backend(), Backend::Inactive);
}

#[test]
fn send_without_url_or_backend_fails() {
    let mut c = TorClient::new();
    assert_eq!(failed_text(c.send_at(None, 0)), "no url header");
    let url = Some("http://x/".to_string());
    assert_eq!(failed_text(c.send_at(url, 0)), "Tor client not started");
}

#[test]
fn send_delivers_local_body() {
    let mut c = local_client("local");
    let a = c.send_at(Some("http://example.onion/path".to_string()), 200);
    assert_eq!(fetch_local_url(a), "http://example.onion/path");
    match c.resume_at(ClientEvent::Fetched(Ok(b"hello".to_vec())), 201) {
        ClientAction::Delivered(body) => assert_eq!(body, b"hello".to_vec()),
        _ => panic!(),
    }
    assert_eq!(c.status(), Status::Connected);
}

#[test]
fn local_error_is_reported_outside_auto() {
    let mut c = local_client("local");
    c.send_at(Some("http://x/".to_string()), 200);
    let a = c.resume_at(ClientEvent::Fetched(Err("connection refused".to_string())), 201);
    assert_eq!(failed_text(a), "connection refused");
}

#[test]
fn auto_falls_back_to_embedded_when_daemon_is_gone() {
    let mut c = local_client("auto");
    c.send_at(Some("http://x/".to_string()), 200);
    let a = c.resume_at(ClientEvent::Fetched(Err("broken pipe".to_string())), 201);
    assert!(matches!(a, ClientAction::ProbeLocal));
    let a = c.resume_at(ClientEvent::LocalProbed(false), 202);
    assert!(matches!(a, ClientAction::ActivateEmbedded));
    let a = c.resume_at(ClientEvent::EmbeddedActivated(Ok(())), 203);
    assert_eq!(fetch_embedded_url(a), "http://x/");
    assert_eq!(c.active_backend(), Backend::Embedded);
    assert_eq!(c.status(), Status::Connected);
    match c.resume_at(ClientEvent::Fetched(Ok(vec![1, 2])), 204) {
        ClientAction::Delivered(body) => assert_eq!(body, vec![1, 2]),
        _ => panic!(),
    }
}

#[test]
fn auto_keeps_local_error_when_daemon_is_up_or_embedded_fails() {
    let mut c = local_client("auto");
    c.send_at(Some("http://bad.onion/".to_string()), 200);
    c.resume_at(ClientEvent::Fetched(Err("host unreachable".to_string())), 201);
    let a = c.resume_at(ClientEvent::LocalProbed(true), 202);
    assert_eq!(failed_text(a), "host unreachable");
    assert_eq!(c.active_backend(), Backend::Local);

    c.send_at(Some("http://x/".to_string()), 300);
    c.resume_at(ClientEvent::Fetched(Err("gone".to_string())), 301);
    c.resume_at(ClientEvent::LocalProbed(false), 302);
    let a = c.resume_at(ClientEvent::EmbeddedActivated(Err(EmbeddedFailure::NotBuilt)), 303);
    assert_eq!(failed_text(a), "gone");
    assert_eq!(c.active_backend(), Backend::Local);
}

#[test]
fn reprobe_on_embedded_is_rate_limited() {
    let mut c = TorClient::new();
    c.start_at(1_000);
    c.resume_at(ClientEvent::LocalProbed(false), 1_000);
    c.resume_at(ClientEvent::EmbeddedActivated(Ok(())), 1_000);
    assert_eq!(c.active_backend(), Backend::Embedded);
    // Within 30 s of the last probe: straight to the embedded backend.
    let a = c.send_at(Some("http://x/".to_string()), 30_999);
    assert_eq!(fetch_embedded_url(a), "http://x/");
    c.resume_at(ClientEvent::Fetched(Ok(vec![])), 31_000);
    // Clock behind the last probe: no re-probe either.
    let a = c.send_at(Some("http://x/".to_string()), 10);
    assert_eq!(fetch_embedded_url(a), "http://x/");
    c.resume_at(ClientEvent::Fetched(Ok(vec![])), 11);
    // 30 s after it: re-probe; the daemon is back, so switch to local.
    let a = c.send_at(Some("http://y/".to_string()), 31_000);
    assert!(matches!(a, ClientAction::ProbeLocal));
    let a = c.resume_at(ClientEvent::LocalProbed(true), 31_001);
    assert_eq!(fetch_local_url(a), "http://y/");
    assert_eq!(c.active_backend(), Backend::Local);
}

#[test]
fn reprobe_without_daemon_stays_embedded() {
    let mut c = TorClient::new();
    c.start_at(0);
    c.resume_at(ClientEvent::LocalProbed(false), 0);
    c.resume_at(ClientEvent::EmbeddedActivated(Ok(())), 0);
    assert!(matches!(c.send_at(Some("http://z/".to_string()), 40_000), ClientAction::ProbeLocal));
    let a = c.resume_at(ClientEvent::LocalProbed(false), 40_001);
    assert_eq!(fetch_embedded_url(a), "http://z/");
    // The probe just made resets the interval.
    c.resume_at(ClientEvent::Fetched(Ok(vec![])), 40_002);
    let a = c.send_at(Some("http://z/".to_string()), 60_000);
    assert_eq!(fetch_embedded_url(a), "http://z/");
}

#[test]
fn awaits_matches_pending_operation() {
    let mut c = TorClient::new();
    assert!(!c.awaits(&ClientEvent::LocalProbed(true)));
    c.start_at(0);
    assert!(c.awaits(&ClientEvent::LocalProbed(true)));
    assert!(!c.awaits(&ClientEvent::EmbeddedActivated(Ok(()))));
    assert!(!c.awaits(&ClientEvent::Fetched(Ok(vec![]))));
}

#[test]
fn clock_reads_after_epoch() {
    let t = now_millis();
    assert!(t > 1_600_000_000_000);
    let c = TorClient::new();
    let mut c = c;
    assert!(matches!(c.start(), ClientAction::ProbeLocal));
    assert!(matches!(c.resume(ClientEvent::LocalProbed(true)), ClientAction::ProbeLocal));
    assert!(matches!(c.send(None), ClientAction::Failed(_)));
}

#[test]
fn http_fetch_through_proxy() {
    let (mut f, step) = HttpFetch::begin("http://example.onion/path").unwrap();
    match step {
        FetchStep::Exchange { send, receive } => assert_eq!((send, receive), (vec![5, 1, 0], 2)),
        _ => panic!(),
    }
    match f.advance(&[5, 0]) {
        FetchStep::Exchange { send, receive } => {
            let mut req = vec![5, 1, 0, 3, 13];
            req.extend_from_slice(b"example.onion");
            req.extend_from_slice(&[0, 80]);
            assert_eq!((send, receive), (req, 4));
        }
        _ => panic!(),
    }
    match f.advance(&[5, 0, 0, 1]) {
        FetchStep::Exchange { send, receive } => assert_eq!((send, receive), (vec![], 6)),
        _ => panic!(),
    }
    match f.advance(&[0, 0, 0, 0, 0, 0]) {
        FetchStep::Request { send } => {
            assert_eq!(send, format_get("example.onion", "/path").into_bytes())
        }
        _ => panic!(),
    }
    let raw = b"HTTP/1.1 200 OK\r\nContent-Length: 5\r\nConnection: close\r\n\r\nhello".to_vec();
    assert_eq!(split_body(raw), b"hello".to_vec());
}

#[test]
fn http_fetch_refuses_before_sending() {
    assert_eq!(HttpFetch::begin("https://x/").err(), Some(FetchError::UnsupportedScheme));
    assert_eq!(HttpFetch::begin("http://x:port/").err(), Some(FetchError::BadPort));
    let (mut f, _) = HttpFetch::begin("http://x:8080").unwrap();
    match f.advance(&[5, 2]) {
        FetchStep::Fail(e) => assert_eq!(e, FetchError::RefusedNoAuth(5, 2)),
        _ => panic!(),
    }
}

#[test]
fn envelope_records_send_outcomes() {
    let mut env = Envelope::new(b"old".to_vec());
    assert_eq!(env.url(), None);
    env.headers.insert("url".into(), "http://x/".into());
    env.headers.insert("other".into(), "kept".into());
    assert_eq!(env.url(), Some("http://x/".to_string()));

    assert!(env.record(ClientAction::Delivered(b"body".to_vec())));
    assert_eq!(env.payload, b"body".to_vec());
    assert_eq!(env.headers.len(), 2);

    assert!(!env.record(ClientAction::Failed("Tor client not started".to_string())));
    assert_eq!(env.payload, b"body".to_vec());
    assert_eq!(env.headers.get("error").map(|s| s.as_str()), Some("Tor client not started"));
    assert_eq!(env.headers.get("other").map(|s| s.as_str()), Some("kept"));
    assert_eq!(env.headers.get("url").map(|s| s.as_str()), Some("http://x/"));
}

#[test]
fn send_without_url_header_records_error() {
    let mut env = Envelope::new(Vec::new());
    let mut c = TorClient::new();
    let a = c.send_at(env.url(), 0);
    assert!(!env.record(a));
    assert_eq!(env.headers.get("error").map(|s| s.as_str()), Some("no url header"));
    assert!(env.payload.is_empty());
}

#[test]
fn embedded_state_directory() {
    assert_eq!(TorClient::new().embedded_state_dir(), "./tor");
    let c = TorClient::from_config(&cfg(&[("ra.tor.dataDir", "/var/lib/1m5")]));
    assert_eq!(c.embedded_state_dir(), "/var/lib/1m5/tor");
    let c = TorClient::from_config(&cfg(&[("ra.tor.dataDir", "/var/lib/1m5/")]));
    assert_eq!(c.embedded_state_dir(), "/var/lib/1m5/tor");
    let c = TorClient::from_config(&cfg(&[("ra.tor.dataDir", "")]));
    assert_eq!(c.embedded_state_dir(), "tor");
    assert_eq!(
        std::path::PathBuf::from("/var/lib/1m5/").join("tor").to_str(),
        Some("/var/lib/1m5/tor")
    );
}
