//! A Tor client that attaches to a local Tor daemon or an embedded backend.
//!
//! The library holds the client's decisions as verified code: the mode and
//! status model, the configuration keys, the SOCKS5 CONNECT handshake, the
//! HTTP/1.1 request and response framing, and the state machine that starts,
//! stops and routes requests between the local and the embedded backend.
//! Network access (port probes, the proxy connection, the embedded backend)
//! is performed by the caller, which feeds the outcomes back into the state
//! machines: [`TorClient`] for starting and routing, [`HttpFetch`] for one
//! request through the SOCKS5 proxy.

pub mod client;
pub mod clock;
pub mod config;
pub mod detector;
pub mod envelope;
pub mod fetch;
pub mod http;
pub mod socks;
pub mod status;

pub use status::{
    backend_from_u8, backend_to_u8, status_from_u8, status_to_u8, Backend, Mode, Status,
};
pub use http::{format_get, parse_url, split_body, FetchError};
pub use socks::{SocksConnect, SocksStage, SocksStep};
pub use clock::now_millis;
pub use detector::{
    LocalTorDetector, DEFAULT_CONTROL_PORT, DEFAULT_HOST, DEFAULT_PROBE_TIMEOUT_MS, DEFAULT_SOCKS_PORT,
};
pub use client::{
    ClientAction, ClientEvent, EmbeddedFailure, TorClient, DEFAULT_REQUEST_TIMEOUT_SECS,
    LOCAL_REPROBE_INTERVAL_MS,
};
pub use fetch::{FetchStep, HttpFetch};
pub use envelope::Envelope;
