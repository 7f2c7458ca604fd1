use vstd::prelude::*;

verus! {

/// Loopback address a local Tor daemon listens on.
pub const DEFAULT_HOST: &'static str = "127.0.0.1";

/// Default SOCKS5 port of a local Tor daemon.
pub const DEFAULT_SOCKS_PORT: u16 = 9050;

/// Default control port of a local Tor daemon.
pub const DEFAULT_CONTROL_PORT: u16 = 9051;

/// Default time allowed for each port probe, in milliseconds.
pub const DEFAULT_PROBE_TIMEOUT_MS: u64 = 750;

/// Where to look for a local Tor daemon: the SOCKS and control ports on
/// `host`, each probed with a TCP connect bounded by `timeout_ms`.
///
/// The daemon counts as running only when both ports answer.
#[derive(Clone, Debug)]
pub struct LocalTorDetector {
    pub host: String,
    pub socks_port: u16,
    pub control_port: u16,
    pub timeout_ms: u64,
}

/// The detector is the default one: loopback, ports 9050 and 9051, 750 ms.
pub open spec fn is_default_detector(d: LocalTorDetector) -> bool {
    &&& d.host@ == DEFAULT_HOST@
    &&& d.socks_port == DEFAULT_SOCKS_PORT
    &&& d.control_port == DEFAULT_CONTROL_PORT
    &&& d.timeout_ms == DEFAULT_PROBE_TIMEOUT_MS
}

impl Default for LocalTorDetector {
    fn default() -> (d: Self)
        ensures
            is_default_detector(d),
    {
        LocalTorDetector {
            host: DEFAULT_HOST.to_owned(),
            socks_port: DEFAULT_SOCKS_PORT,
            control_port: DEFAULT_CONTROL_PORT,
            timeout_ms: DEFAULT_PROBE_TIMEOUT_MS,
        }
    }
}

} // verus!
