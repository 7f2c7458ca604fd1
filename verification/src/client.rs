use std::collections::HashMap;
use vstd::prelude::*;

use crate::config::{config_value, parse_u16, parse_u64};
use crate::detector::{LocalTorDetector, DEFAULT_HOST};
use crate::status::{backend_from_u8, backend_to_u8, status_from_u8, status_to_u8, Backend, Mode, Status};

verus! {

/// How long, in milliseconds, `Auto` mode waits between re-probes of the local
/// daemon while it is serving on the embedded backend.
pub const LOCAL_REPROBE_INTERVAL_MS: u64 = 30000;

/// Default per-request timeout, in seconds.
pub const DEFAULT_REQUEST_TIMEOUT_SECS: u64 = 60;

/// Why the embedded backend could not be brought up.
#[derive(Clone, Copy, Debug, PartialEq, Eq, Structural)]
pub enum EmbeddedFailure {
    /// This build has no embedded backend.
    NotBuilt,
    /// The embedded backend is built but failed to bootstrap.
    Bootstrap,
}

/// The outcome of the outside work that a [`ClientAction`] asked for.
pub enum ClientEvent {
    /// Whether both ports of the local daemon answered.
    LocalProbed(bool),
    /// Whether the embedded backend is running (it is kept once started).
    EmbeddedActivated(Result<(), EmbeddedFailure>),
    /// The response body of a fetch, or the text of the error it ended with.
    Fetched(Result<Vec<u8>, String>),
}

/// The abstract content of a [`ClientEvent`]; `EmbeddedActivated(None)` is success.
pub ghost enum EventModel {
    LocalProbed(bool),
    EmbeddedActivated(Option<EmbeddedFailure>),
    Fetched(Result<Seq<u8>, Seq<char>>),
}

impl View for ClientEvent {
    type V = EventModel;

    open spec fn view(&self) -> EventModel {
        match self {
            ClientEvent::LocalProbed(up) => EventModel::LocalProbed(*up),
            ClientEvent::EmbeddedActivated(r) => EventModel::EmbeddedActivated(
                match r {
                    Ok(()) => None,
                    Err(f) => Some(*f),
                },
            ),
            ClientEvent::Fetched(r) => EventModel::Fetched(
                match r {
                    Ok(body) => Ok(body@),
                    Err(e) => Err(e@),
                },
            ),
        }
    }
}

/// What the client asks its caller to do next.
pub enum ClientAction {
    /// Probe the local daemon's SOCKS and control ports; answer `LocalProbed`.
    ProbeLocal,
    /// Bring up the embedded backend unless it runs; answer `EmbeddedActivated`.
    ActivateEmbedded,
    /// Fetch the URL through the local daemon's SOCKS proxy; answer `Fetched`.
    FetchLocal(String),
    /// Fetch the URL through the embedded backend; answer `Fetched`.
    FetchEmbedded(String),
    /// `start` is over; whether a backend is serving.
    Started(bool),
    /// `send` is over: the response body goes into the envelope's payload.
    Delivered(Vec<u8>),
    /// `send` is over: the text goes into the envelope's `error` header.
    Failed(String),
}

/// The abstract content of a [`ClientAction`].
pub ghost enum ActionModel {
    ProbeLocal,
    ActivateEmbedded,
    FetchLocal(Seq<char>),
    FetchEmbedded(Seq<char>),
    Started(bool),
    Delivered(Seq<u8>),
    Failed(Seq<char>),
}

impl View for ClientAction {
    type V = ActionModel;

    open spec fn view(&self) -> ActionModel {
        match self {
            ClientAction::ProbeLocal => ActionModel::ProbeLocal,
            ClientAction::ActivateEmbedded => ActionModel::ActivateEmbedded,
            ClientAction::FetchLocal(u) => ActionModel::FetchLocal(u@),
            ClientAction::FetchEmbedded(u) => ActionModel::FetchEmbedded(u@),
            ClientAction::Started(b) => ActionModel::Started(*b),
            ClientAction::Delivered(body) => ActionModel::Delivered(body@),
            ClientAction::Failed(e) => ActionModel::Failed(e@),
        }
    }
}

/// The operation in progress, waiting for the outcome of outside work.
enum Pending {
    Idle,
    StartProbe,
    StartLocalCheck,
    StartEmbedded,
    SendReprobe(String),
    SendLocal(String),
    SendFallbackProbe(String, String),
    SendFallbackActivate(String, String),
    SendEmbedded(String),
}

/// The abstract content of the operation in progress; the strings are the URL
/// being fetched and, during a fallback, the error of the local attempt.
pub ghost enum PendingModel {
    Idle,
    StartProbe,
    StartLocalCheck,
    StartEmbedded,
    SendReprobe(Seq<char>),
    SendLocal(Seq<char>),
    SendFallbackProbe(Seq<char>, Seq<char>),
    SendFallbackActivate(Seq<char>, Seq<char>),
    SendEmbedded(Seq<char>),
}

impl View for Pending {
    type V = PendingModel;

    closed spec fn view(&self) -> PendingModel {
        match self {
            Pending::Idle => PendingModel::Idle,
            Pending::StartProbe => PendingModel::StartProbe,
            Pending::StartLocalCheck => PendingModel::StartLocalCheck,
            Pending::StartEmbedded => PendingModel::StartEmbedded,
            Pending::SendReprobe(u) => PendingModel::SendReprobe(u@),
            Pending::SendLocal(u) => PendingModel::SendLocal(u@),
            Pending::SendFallbackProbe(u, e) => PendingModel::SendFallbackProbe(u@, e@),
            Pending::SendFallbackActivate(u, e) => PendingModel::SendFallbackActivate(u@, e@),
            Pending::SendEmbedded(u) => PendingModel::SendEmbedded(u@),
        }
    }
}

/// The client's state as its contracts see it.
pub ghost struct ClientModel {
    pub mode: Mode,
    pub status: Status,
    pub active: Backend,
    /// Epoch milliseconds of the last local-daemon probe made for `Auto` mode; 0 = never.
    pub last_probe: u64,
    pub pending: PendingModel,
}

/// The pending operation is waiting for an event of the kind of `ev`.
pub open spec fn awaits(p: PendingModel, ev: EventModel) -> bool {
    match p {
        PendingModel::StartProbe | PendingModel::StartLocalCheck | PendingModel::SendReprobe(_)
        | PendingModel::SendFallbackProbe(_, _) => ev is LocalProbed,
        PendingModel::StartEmbedded | PendingModel::SendFallbackActivate(_, _) => ev is EmbeddedActivated,
        PendingModel::SendLocal(_) | PendingModel::SendEmbedded(_) => ev is Fetched,
        PendingModel::Idle => false,
    }
}

pub open spec fn with_pending(c: ClientModel, p: PendingModel) -> ClientModel {
    ClientModel { pending: p, ..c }
}

/// A client that has not been started.
pub open spec fn fresh_model(mode: Mode) -> ClientModel {
    ClientModel {
        mode,
        status: Status::Disconnected,
        active: Backend::Inactive,
        last_probe: 0,
        pending: PendingModel::Idle,
    }
}

/// `start`: the status becomes `Connecting`; `Auto` probes the local daemon
/// (recording the time) to pick a backend, `Local` probes to check the daemon,
/// `Embedded` brings up the embedded backend.
pub open spec fn start_plan(c: ClientModel, now: u64) -> (ClientModel, ActionModel) {
    let c = ClientModel { status: Status::Connecting, ..c };
    match c.mode {
        Mode::Auto => (
            ClientModel { last_probe: now, pending: PendingModel::StartProbe, ..c },
            ActionModel::ProbeLocal,
        ),
        Mode::Local => (with_pending(c, PendingModel::StartLocalCheck), ActionModel::ProbeLocal),
        Mode::Embedded => (
            with_pending(c, PendingModel::StartEmbedded),
            ActionModel::ActivateEmbedded,
        ),
    }
}

/// `stop`: no backend serves, the status is `Disconnected` and no operation
/// is in progress.
pub open spec fn stop_plan(c: ClientModel) -> ClientModel {
    ClientModel {
        status: Status::Disconnected,
        active: Backend::Inactive,
        pending: PendingModel::Idle,
        ..c
    }
}

/// `tor` joined under the directory `base`.
pub open spec fn state_dir_text(base: Seq<char>) -> Seq<char> {
    if base.len() == 0 || base.last() == '/' {
        base + seq!['t', 'o', 'r']
    } else {
        base + seq!['/', 't', 'o', 'r']
    }
}

/// Sends `url` to the active backend, or fails when none is active.
pub open spec fn route_plan(c: ClientModel, url: Seq<char>) -> (ClientModel, ActionModel) {
    match c.active {
        Backend::Local => (with_pending(c, PendingModel::SendLocal(url)), ActionModel::FetchLocal(url)),
        Backend::Embedded => (
            with_pending(c, PendingModel::SendEmbedded(url)),
            ActionModel::FetchEmbedded(url),
        ),
        Backend::Inactive => (
            with_pending(c, PendingModel::Idle),
            ActionModel::Failed("Tor client not started"@),
        ),
    }
}

/// The local daemon is due for a re-probe: `now` is at least the re-probe
/// interval past the last probe.
pub open spec fn reprobe_due(last: u64, now: u64) -> bool {
    now - last >= LOCAL_REPROBE_INTERVAL_MS
}

/// `send`: without a URL it fails; in `Auto` mode on the embedded backend it
/// first re-probes the local daemon when one is due; then it routes the URL.
pub open spec fn send_plan(c: ClientModel, url: Option<Seq<char>>, now: u64) -> (
    ClientModel,
    ActionModel,
) {
    match url {
        None => (with_pending(c, PendingModel::Idle), ActionModel::Failed("no url header"@)),
        Some(u) => if c.mode == Mode::Auto && c.active == Backend::Embedded && reprobe_due(
            c.last_probe,
            now,
        ) {
            (
                ClientModel { last_probe: now, pending: PendingModel::SendReprobe(u), ..c },
                ActionModel::ProbeLocal,
            )
        } else {
            route_plan(c, u)
        },
    }
}

/// What the client does with the outcome `ev` of the work it asked for.
pub open spec fn resume_plan(c: ClientModel, ev: EventModel, now: u64) -> (
    ClientModel,
    ActionModel,
) {
    match c.pending {
        PendingModel::StartProbe => if ev == EventModel::LocalProbed(true) {
            (with_pending(c, PendingModel::StartLocalCheck), ActionModel::ProbeLocal)
        } else {
            (with_pending(c, PendingModel::StartEmbedded), ActionModel::ActivateEmbedded)
        },
        PendingModel::StartLocalCheck => if ev == EventModel::LocalProbed(true) {
            (
                ClientModel {
                    active: Backend::Local,
                    status: Status::Connected,
                    pending: PendingModel::Idle,
                    ..c
                },
                ActionModel::Started(true),
            )
        } else {
            (
                ClientModel { status: Status::Disconnected, pending: PendingModel::Idle, ..c },
                ActionModel::Started(false),
            )
        },
        PendingModel::StartEmbedded => if ev == EventModel::EmbeddedActivated(None) {
            (
                ClientModel {
                    active: Backend::Embedded,
                    status: Status::Connected,
                    pending: PendingModel::Idle,
                    ..c
                },
                ActionModel::Started(true),
            )
        } else if ev == EventModel::EmbeddedActivated(Some(EmbeddedFailure::NotBuilt)) {
            (
                ClientModel { status: Status::Disconnected, pending: PendingModel::Idle, ..c },
                ActionModel::Started(false),
            )
        } else {
            (
                ClientModel { status: Status::Error, pending: PendingModel::Idle, ..c },
                ActionModel::Started(false),
            )
        },
        PendingModel::SendReprobe(u) => if ev == EventModel::LocalProbed(true) {
            route_plan(ClientModel { active: Backend::Local, ..c }, u)
        } else {
            route_plan(c, u)
        },
        PendingModel::SendLocal(u) => match ev {
            EventModel::Fetched(Ok(body)) => (
                with_pending(c, PendingModel::Idle),
                ActionModel::Delivered(body),
            ),
            EventModel::Fetched(Err(e)) => if c.mode == Mode::Auto {
                (
                    ClientModel {
                        last_probe: now,
                        pending: PendingModel::SendFallbackProbe(u, e),
                        ..c
                    },
                    ActionModel::ProbeLocal,
                )
            } else {
                (with_pending(c, PendingModel::Idle), ActionModel::Failed(e))
            },
            _ => (c, ActionModel::Failed(no_text())),
        },
        PendingModel::SendFallbackProbe(u, e) => if ev == EventModel::LocalProbed(true) {
            (with_pending(c, PendingModel::Idle), ActionModel::Failed(e))
        } else {
            (
                with_pending(c, PendingModel::SendFallbackActivate(u, e)),
                ActionModel::ActivateEmbedded,
            )
        },
        PendingModel::SendFallbackActivate(u, e) => if ev == EventModel::EmbeddedActivated(None) {
            (
                ClientModel {
                    active: Backend::Embedded,
                    pending: PendingModel::SendEmbedded(u),
                    ..c
                },
                ActionModel::FetchEmbedded(u),
            )
        } else {
            (with_pending(c, PendingModel::Idle), ActionModel::Failed(e))
        },
        PendingModel::SendEmbedded(u) => match ev {
            EventModel::Fetched(Ok(body)) => (
                with_pending(c, PendingModel::Idle),
                ActionModel::Delivered(body),
            ),
            EventModel::Fetched(Err(e)) => (
                with_pending(c, PendingModel::Idle),
                ActionModel::Failed(e),
            ),
            _ => (c, ActionModel::Failed(no_text())),
        },
        PendingModel::Idle => (c, ActionModel::Failed(no_text())),
    }
}

/// The text value of `key` in `cfg`, or `default` when the key is absent.
pub open spec fn text_setting(cfg: Map<String, String>, key: Seq<char>, default: Seq<char>) -> Seq<
    char,
> {
    match crate::config::setting(cfg, key) {
        Some(v) => v,
        None => default,
    }
}

/// The number under `key` in `cfg` when it is present and reads as an
/// unsigned decimal no larger than `max`; `default` otherwise.
pub open spec fn number_setting(cfg: Map<String, String>, key: Seq<char>, max: nat, default: nat) -> nat {
    match crate::config::setting(cfg, key) {
        Some(v) => match crate::config::parse_unsigned(v, max) {
            Some(n) => n,
            None => default,
        },
        None => default,
    }
}

/// The mode that `ra.tor.mode` selects in `cfg`; `Auto` when it is absent.
pub open spec fn mode_setting(cfg: Map<String, String>) -> Mode {
    match crate::config::setting(cfg, "ra.tor.mode"@) {
        Some(v) => crate::config::mode_named(v),
        None => Mode::Auto,
    }
}

/// A Tor client: its configuration, its status, the backend serving requests
/// and the operation in progress.
///
/// `start`, `send` and `resume` return a [`ClientAction`]; the caller performs
/// the outside work it names and hands the outcome back to `resume`, until an
/// action ends the operation (`Started`, `Delivered` or `Failed`).
pub struct TorClient {
    detector: LocalTorDetector,
    request_timeout_secs: u64,
    mode: Mode,
    data_dir: Option<String>,
    status: u8,
    active: u8,
    last_local_probe: u64,
    pending: Pending,
}

impl View for TorClient {
    type V = ClientModel;

    closed spec fn view(&self) -> ClientModel {
        ClientModel {
            mode: self.mode,
            status: crate::status::status_of_code(self.status),
            active: crate::status::backend_of_code(self.active),
            last_probe: self.last_local_probe,
            pending: self.pending@,
        }
    }
}

impl TorClient {
    /// Where the local daemon is looked for.
    pub closed spec fn detector_spec(&self) -> LocalTorDetector {
        self.detector
    }

    /// The per-request timeout, in seconds.
    pub closed spec fn request_timeout_spec(&self) -> u64 {
        self.request_timeout_secs
    }

    /// The directory under which the embedded backend keeps its state.
    pub closed spec fn data_dir_spec(&self) -> Option<Seq<char>> {
        match self.data_dir {
            Some(d) => Some(d@),
            None => None,
        }
    }

    /// The configuration of `self` and `other` agree.
    pub open spec fn same_settings(&self, other: &TorClient) -> bool {
        &&& self.detector_spec() == other.detector_spec()
        &&& self.request_timeout_spec() == other.request_timeout_spec()
        &&& self.data_dir_spec() == other.data_dir_spec()
    }

    /// A client in `Auto` mode looking for the default local daemon.
    pub fn new() -> (c: TorClient)
        ensures
            c@ == fresh_model(Mode::Auto),
            crate::detector::is_default_detector(c.detector_spec()),
            c.request_timeout_spec() == DEFAULT_REQUEST_TIMEOUT_SECS,
            c.data_dir_spec() is None,
    {
        TorClient {
            detector: LocalTorDetector::default(),
            request_timeout_secs: DEFAULT_REQUEST_TIMEOUT_SECS,
            mode: Mode::Auto,
            data_dir: None,
            status: status_to_u8(Status::Disconnected),
            active: backend_to_u8(Backend::Inactive),
            last_local_probe: 0,
            pending: Pending::Idle,
        }
    }

    /// A client configured by the keys `ra.tor.mode`, `ra.tor.host`,
    /// `ra.tor.socksPort`, `ra.tor.controlPort`, `ra.tor.requestTimeoutSecs`
    /// and `ra.tor.dataDir`; absent keys, and numbers that do not parse, keep
    /// the defaults of [`TorClient::new`].
    pub fn from_config(cfg: &HashMap<String, String>) -> (c: TorClient)
        ensures
            c@ == fresh_model(mode_setting(cfg@)),
            c.detector_spec().host@ == text_setting(cfg@, "ra.tor.host"@, DEFAULT_HOST@),
            c.detector_spec().socks_port == number_setting(
                cfg@,
                "ra.tor.socksPort"@,
                u16::MAX as nat,
                crate::detector::DEFAULT_SOCKS_PORT as nat,
            ),
            c.detector_spec().control_port == number_setting(
                cfg@,
                "ra.tor.controlPort"@,
                u16::MAX as nat,
                crate::detector::DEFAULT_CONTROL_PORT as nat,
            ),
            c.detector_spec().timeout_ms == crate::detector::DEFAULT_PROBE_TIMEOUT_MS,
            c.request_timeout_spec() == number_setting(
                cfg@,
                "ra.tor.requestTimeoutSecs"@,
                u64::MAX as nat,
                DEFAULT_REQUEST_TIMEOUT_SECS as nat,
            ),
            c.data_dir_spec() == crate::config::setting(cfg@, "ra.tor.dataDir"@),
    {
        let mut c = TorClient::new();
        if let Some(m) = config_value(cfg, "ra.tor.mode") {
            c.mode = Mode::parse(m.as_str());
        }
        if let Some(h) = config_value(cfg, "ra.tor.host") {
            c.detector.host = h;
        }
        if let Some(p) = config_value(cfg, "ra.tor.socksPort") {
            if let Some(v) = parse_u16(p.as_str()) {
                c.detector.socks_port = v;
            }
        }
        if let Some(p) = config_value(cfg, "ra.tor.controlPort") {
            if let Some(v) = parse_u16(p.as_str()) {
                c.detector.control_port = v;
            }
        }
        if let Some(t) = config_value(cfg, "ra.tor.requestTimeoutSecs") {
            if let Some(v) = parse_u64(t.as_str()) {
                c.request_timeout_secs = v;
            }
        }
        if let Some(d) = config_value(cfg, "ra.tor.dataDir") {
            c.data_dir = Some(d);
        }
        c
    }

    /// Where the local daemon is looked for.
    pub fn detector(&self) -> (d: &LocalTorDetector)
        ensures
            *d == self.detector_spec(),
    {
        &self.detector
    }

    pub fn mode(&self) -> (m: Mode)
        ensures
            m == self@.mode,
    {
        self.mode
    }

    pub fn status(&self) -> (s: Status)
        ensures
            s == self@.status,
    {
        status_from_u8(self.status)
    }

    /// The backend currently serving requests.
    pub fn active_backend(&self) -> (b: Backend)
        ensures
            b == self@.active,
    {
        backend_from_u8(self.active)
    }

    /// The per-request timeout, in seconds.
    pub fn request_timeout_secs(&self) -> (t: u64)
        ensures
            t == self.request_timeout_spec(),
    {
        self.request_timeout_secs
    }

    /// The directory under which the embedded backend keeps its state, when configured.
    pub fn data_dir(&self) -> (d: Option<String>)
        ensures
            match d {
                Some(s) => self.data_dir_spec() == Some(s@),
                None => self.data_dir_spec() is None,
            },
    {
        self.data_dir.clone()
    }

    /// The directory that holds the embedded backend's state: `tor` under the
    /// configured data directory, or under `.` when none is configured. As
    /// with `Path::join`, no separator is added after an empty directory or
    /// one that already ends in `/`.
    pub fn embedded_state_dir(&self) -> (d: String)
        ensures
            d@ == state_dir_text(
                match self.data_dir_spec() {
                    Some(s) => s,
                    None => seq!['.'],
                },
            ),
    {
        let mut base = match &self.data_dir {
            Some(s) => s.clone(),
            None => {
                proof {
                    reveal_strlit(".");
                }
                assert("."@ =~= seq!['.']);
                ".".to_owned()
            },
        };
        let n = base.as_str().unicode_len();
        proof {
            reveal_strlit("tor");
            reveal_strlit("/tor");
        }
        if n == 0 || base.as_str().get_char(n - 1) == '/' {
            base.append("tor");
        } else {
            base.append("/tor");
        }
        base
    }

    fn set_status(&mut self, s: Status)
        ensures
            final(self)@ == (ClientModel { status: s, ..old(self)@ }),
            final(self).same_settings(old(self)),
    {
        self.status = status_to_u8(s);
    }

    fn set_active(&mut self, b: Backend)
        ensures
            final(self)@ == (ClientModel { active: b, ..old(self)@ }),
            final(self).same_settings(old(self)),
    {
        self.active = backend_to_u8(b);
    }

    /// Begins `start` at time `now` (epoch milliseconds).
    pub fn start_at(&mut self, now: u64) -> (a: ClientAction)
        ensures
            (final(self)@, a@) == start_plan(old(self)@, now),
            final(self).same_settings(old(self)),
    {
        self.set_status(Status::Connecting);
        if self.mode == Mode::Auto {
            self.last_local_probe = now;
            self.pending = Pending::StartProbe;
            ClientAction::ProbeLocal
        } else if self.mode == Mode::Local {
            self.pending = Pending::StartLocalCheck;
            ClientAction::ProbeLocal
        } else {
            self.pending = Pending::StartEmbedded;
            ClientAction::ActivateEmbedded
        }
    }

    /// Begins `start`, reading the clock for the probe time.
    pub fn start(&mut self) -> (a: ClientAction)
        ensures
            exists|now: u64| (final(self)@, a@) == #[trigger] start_plan(old(self)@, now),
            final(self).same_settings(old(self)),
    {
        let now = crate::clock::now_millis();
        self.start_at(now)
    }

    /// Stops the client: no backend serves and the status is `Disconnected`.
    /// The caller drops the embedded backend, if it runs.
    pub fn stop(&mut self) -> (r: bool)
        ensures
            r,
            final(self)@ == stop_plan(old(self)@),
            final(self).same_settings(old(self)),
    {
        self.set_active(Backend::Inactive);
        self.set_status(Status::Disconnected);
        self.pending = Pending::Idle;
        true
    }

    fn route(&mut self, url: String) -> (a: ClientAction)
        ensures
            (final(self)@, a@) == route_plan(old(self)@, url@),
            final(self).same_settings(old(self)),
    {
        let active = backend_from_u8(self.active);
        if active == Backend::Local {
            self.pending = Pending::SendLocal(url.clone());
            ClientAction::FetchLocal(url)
        } else if active == Backend::Embedded {
            self.pending = Pending::SendEmbedded(url.clone());
            ClientAction::FetchEmbedded(url)
        } else {
            self.pending = Pending::Idle;
            ClientAction::Failed("Tor client not started".to_owned())
        }
    }

    /// Begins `send` of the envelope whose `url` header is `url`, at time `now`.
    pub fn send_at(&mut self, url: Option<String>, now: u64) -> (a: ClientAction)
        ensures
            (final(self)@, a@) == send_plan(
                old(self)@,
                text_of(url),
                now,
            ),
            final(self).same_settings(old(self)),
    {
        match url {
            None => {
                self.pending = Pending::Idle;
                ClientAction::Failed("no url header".to_owned())
            },
            Some(u) => {
                if self.mode == Mode::Auto && backend_from_u8(self.active) == Backend::Embedded
                    && now >= self.last_local_probe && now - self.last_local_probe
                    >= LOCAL_REPROBE_INTERVAL_MS {
                    self.last_local_probe = now;
                    self.pending = Pending::SendReprobe(u);
                    ClientAction::ProbeLocal
                } else {
                    self.route(u)
                }
            },
        }
    }

    /// Begins `send`, reading the clock for the re-probe decision.
    pub fn send(&mut self, url: Option<String>) -> (a: ClientAction)
        ensures
            exists|now: u64|
                (final(self)@, a@) == #[trigger] send_plan(
                    old(self)@,
                    text_of(url),
                    now,
                ),
            final(self).same_settings(old(self)),
    {
        let now = crate::clock::now_millis();
        self.send_at(url, now)
    }

    /// Whether the operation in progress waits for an event of the kind of `ev`.
    pub fn awaits(&self, ev: &ClientEvent) -> (b: bool)
        ensures
            b == awaits(self@.pending, ev@),
    {
        match &self.pending {
            Pending::StartProbe | Pending::StartLocalCheck | Pending::SendReprobe(_)
            | Pending::SendFallbackProbe(_, _) => matches!(ev, ClientEvent::LocalProbed(_)),
            Pending::StartEmbedded | Pending::SendFallbackActivate(_, _) => matches!(
                ev,
                ClientEvent::EmbeddedActivated(_)
            ),
            Pending::SendLocal(_) | Pending::SendEmbedded(_) => matches!(
                ev,
                ClientEvent::Fetched(_)
            ),
            Pending::Idle => false,
        }
    }

    /// Continues the operation in progress with the outcome `ev` of the work
    /// it asked for, at time `now`.
    pub fn resume_at(&mut self, ev: ClientEvent, now: u64) -> (a: ClientAction)
        requires
            awaits(old(self)@.pending, ev@),
        ensures
            (final(self)@, a@) == resume_plan(old(self)@, ev@, now),
            final(self).same_settings(old(self)),
    {
        let mut pending = Pending::Idle;
        std::mem::swap(&mut pending, &mut self.pending);
        match pending {
            Pending::StartProbe => match ev {
                ClientEvent::LocalProbed(true) => {
                    self.pending = Pending::StartLocalCheck;
                    ClientAction::ProbeLocal
                },
                _ => {
                    self.pending = Pending::StartEmbedded;
                    ClientAction::ActivateEmbedded
                },
            },
            Pending::StartLocalCheck => match ev {
                ClientEvent::LocalProbed(true) => {
                    self.set_active(Backend::Local);
                    self.set_status(Status::Connected);
                    ClientAction::Started(true)
                },
                _ => {
                    self.set_status(Status::Disconnected);
                    ClientAction::Started(false)
                },
            },
            Pending::StartEmbedded => match ev {
                ClientEvent::EmbeddedActivated(Ok(())) => {
                    self.set_active(Backend::Embedded);
                    self.set_status(Status::Connected);
                    ClientAction::Started(true)
                },
                ClientEvent::EmbeddedActivated(Err(EmbeddedFailure::NotBuilt)) => {
                    self.set_status(Status::Disconnected);
                    ClientAction::Started(false)
                },
                _ => {
                    self.set_status(Status::Error);
                    ClientAction::Started(false)
                },
            },
            Pending::SendReprobe(u) => {
                if let ClientEvent::LocalProbed(true) = ev {
                    self.set_active(Backend::Local);
                }
                self.route(u)
            },
            Pending::SendLocal(u) => match ev {
                ClientEvent::Fetched(Ok(body)) => ClientAction::Delivered(body),
                ClientEvent::Fetched(Err(e)) => {
                    if self.mode == Mode::Auto {
                        self.last_local_probe = now;
                        self.pending = Pending::SendFallbackProbe(u, e);
                        ClientAction::ProbeLocal
                    } else {
                        ClientAction::Failed(e)
                    }
                },
                _ => vstd::pervasive::unreached(),
            },
            Pending::SendFallbackProbe(u, e) => match ev {
                ClientEvent::LocalProbed(true) => ClientAction::Failed(e),
                _ => {
                    self.pending = Pending::SendFallbackActivate(u, e);
                    ClientAction::ActivateEmbedded
                },
            },
            Pending::SendFallbackActivate(u, e) => match ev {
                ClientEvent::EmbeddedActivated(Ok(())) => {
                    self.set_active(Backend::Embedded);
                    self.pending = Pending::SendEmbedded(u.clone());
                    ClientAction::FetchEmbedded(u)
                },
                _ => ClientAction::Failed(e),
            },
            Pending::SendEmbedded(_) => match ev {
                ClientEvent::Fetched(Ok(body)) => ClientAction::Delivered(body),
                ClientEvent::Fetched(Err(e)) => ClientAction::Failed(e),
                _ => vstd::pervasive::unreached(),
            },
            Pending::Idle => vstd::pervasive::unreached(),
        }
    }

    /// Continues the operation in progress, reading the clock for the probe time.
    pub fn resume(&mut self, ev: ClientEvent) -> (a: ClientAction)
        requires
            awaits(old(self)@.pending, ev@),
        ensures
            exists|now: u64| (final(self)@, a@) == #[trigger] resume_plan(old(self)@, ev@, now),
            final(self).same_settings(old(self)),
    {
        let now = crate::clock::now_millis();
        self.resume_at(ev, now)
    }
}

/// The text of an optional string.
pub open spec fn text_of(s: Option<String>) -> Option<Seq<char>> {
    match s {
        Some(v) => Some(v@),
        None => None,
    }
}

/// The empty text, stated for events that `resume` refuses by its `requires`.
pub open spec fn no_text() -> Seq<char> {
    seq![]
}

impl Default for TorClient {
    fn default() -> (c: Self)
        ensures
            c@ == fresh_model(Mode::Auto),
            crate::detector::is_default_detector(c.detector_spec()),
            c.request_timeout_spec() == DEFAULT_REQUEST_TIMEOUT_SECS,
            c.data_dir_spec() is None,
    {
        Self::new()
    }
}

/// The operation in progress belongs to `start`.
pub open spec fn starting(p: PendingModel) -> bool {
    p is StartProbe || p is StartLocalCheck || p is StartEmbedded
}

/// The operation in progress belongs to `send`.
pub open spec fn sending(p: PendingModel) -> bool {
    p is SendReprobe || p is SendLocal || p is SendFallbackProbe || p is SendFallbackActivate
        || p is SendEmbedded
}

/// `start` sets the status to `Connecting`; when it ends, it reports `true`
/// exactly when the status is `Connected` with a backend serving, and on
/// `false` the status is `Disconnected` or `Error`. Until it ends the status
/// stays `Connecting`.
pub proof fn lemma_start_reports_status(c: ClientModel, ev: EventModel, now: u64)
    requires
        starting(c.pending),
        c.status == Status::Connecting,
        awaits(c.pending, ev),
    ensures
        start_plan(c, now).0.status == Status::Connecting,
        starting(start_plan(c, now).0.pending),
        resume_plan(c, ev, now).1 matches ActionModel::Started(up) ==> {
            &&& resume_plan(c, ev, now).0.pending == PendingModel::Idle
            &&& up <==> resume_plan(c, ev, now).0.status == Status::Connected
            &&& up ==> resume_plan(c, ev, now).0.active != Backend::Inactive
            &&& !up ==> (resume_plan(c, ev, now).0.status == Status::Disconnected
                || resume_plan(c, ev, now).0.status == Status::Error)
        },
        !(resume_plan(c, ev, now).1 is Started) ==> {
            &&& resume_plan(c, ev, now).0.status == Status::Connecting
            &&& starting(resume_plan(c, ev, now).0.pending)
        },
{
}

/// Without a local daemon and with no embedded backend built, `start` ends
/// with `false` and the status `Disconnected`, in every mode.
pub proof fn lemma_start_without_tor(c: ClientModel, t0: u64, t1: u64, t2: u64)
    ensures
        ({
            let (c1, a1) = start_plan(c, t0);
            let not_built = EventModel::EmbeddedActivated(Some(EmbeddedFailure::NotBuilt));
            match c.mode {
                Mode::Auto => {
                    let (c2, a2) = resume_plan(c1, EventModel::LocalProbed(false), t1);
                    let (c3, a3) = resume_plan(c2, not_built, t2);
                    &&& a1 == ActionModel::ProbeLocal
                    &&& a2 == ActionModel::ActivateEmbedded
                    &&& a3 == ActionModel::Started(false)
                    &&& c3.status == Status::Disconnected
                },
                Mode::Local => {
                    let (c2, a2) = resume_plan(c1, EventModel::LocalProbed(false), t1);
                    &&& a1 == ActionModel::ProbeLocal
                    &&& a2 == ActionModel::Started(false)
                    &&& c2.status == Status::Disconnected
                },
                Mode::Embedded => {
                    let (c2, a2) = resume_plan(c1, not_built, t1);
                    &&& a1 == ActionModel::ActivateEmbedded
                    &&& a2 == ActionModel::Started(false)
                    &&& c2.status == Status::Disconnected
                },
            }
        }),
{
}

/// No operation changes the configured mode.
pub proof fn lemma_mode_is_fixed(c: ClientModel, ev: EventModel, url: Option<Seq<char>>, now: u64)
    ensures
        start_plan(c, now).0.mode == c.mode,
        send_plan(c, url, now).0.mode == c.mode,
        resume_plan(c, ev, now).0.mode == c.mode,
{
}

/// Sending never changes the status: switching between the local and the
/// embedded backend is invisible to the status.
pub proof fn lemma_send_keeps_status(c: ClientModel, ev: EventModel, url: Option<Seq<char>>, now: u64)
    requires
        sending(c.pending),
    ensures
        send_plan(c, url, now).0.status == c.status,
        resume_plan(c, ev, now).0.status == c.status,
{
}

/// `send` re-probes the local daemon only in `Auto` mode while the embedded
/// backend serves, and only when the last probe is at least the re-probe
/// interval old; the probe time is recorded.
pub proof fn lemma_reprobe_rate_limited(c: ClientModel, url: Seq<char>, now: u64)
    ensures
        send_plan(c, Some(url), now).1 == ActionModel::ProbeLocal <==> {
            &&& c.mode == Mode::Auto
            &&& c.active == Backend::Embedded
            &&& now - c.last_probe >= LOCAL_REPROBE_INTERVAL_MS
        },
        send_plan(c, Some(url), now).1 == ActionModel::ProbeLocal ==> send_plan(
            c,
            Some(url),
            now,
        ).0.last_probe == now,
{
}

/// When a re-probe finds the local daemon back, the request goes to the local
/// backend, which serves from then on; otherwise it stays on the embedded one.
pub proof fn lemma_switch_back_to_local(c: ClientModel, url: Seq<char>, up: bool, now: u64)
    requires
        c.pending == PendingModel::SendReprobe(url),
        c.active == Backend::Embedded,
    ensures
        up ==> resume_plan(c, EventModel::LocalProbed(up), now) == (
            ClientModel {
                active: Backend::Local,
                pending: PendingModel::SendLocal(url),
                ..c
            },
            ActionModel::FetchLocal(url),
        ),
        !up ==> resume_plan(c, EventModel::LocalProbed(up), now) == (
            with_pending(c, PendingModel::SendEmbedded(url)),
            ActionModel::FetchEmbedded(url),
        ),
{
}

/// A failed local fetch falls back to the embedded backend only in `Auto`
/// mode, and only when a fresh probe finds the daemon gone and the embedded
/// backend comes up; the request is then retried there. In every other case
/// the local error is reported.
pub proof fn lemma_fallback_to_embedded(c: ClientModel, url: Seq<char>, err: Seq<char>, t1: u64, t2: u64, t3: u64)
    requires
        c.pending == PendingModel::SendLocal(url),
    ensures
        c.mode != Mode::Auto ==> resume_plan(c, EventModel::Fetched(Err(err)), t1).1
            == ActionModel::Failed(err),
        c.mode == Mode::Auto ==> ({
            let (c1, a1) = resume_plan(c, EventModel::Fetched(Err(err)), t1);
            &&& a1 == ActionModel::ProbeLocal
            &&& c1.last_probe == t1
            &&& resume_plan(c1, EventModel::LocalProbed(true), t2).1 == ActionModel::Failed(err)
            &&& ({
                let (c2, a2) = resume_plan(c1, EventModel::LocalProbed(false), t2);
                &&& a2 == ActionModel::ActivateEmbedded
                &&& resume_plan(c2, EventModel::EmbeddedActivated(None), t3) == (
                    ClientModel {
                        active: Backend::Embedded,
                        pending: PendingModel::SendEmbedded(url),
                        ..c1
                    },
                    ActionModel::FetchEmbedded(url),
                )
                &&& forall|f: EmbeddedFailure|
                    resume_plan(c2, EventModel::EmbeddedActivated(Some(f)), t3).1
                        == ActionModel::Failed(err)
            })
        }),
{
}

/// A fetched body is delivered unchanged, and a fetch error from the backend
/// that was asked last is reported unchanged.
pub proof fn lemma_fetch_outcome_delivered(c: ClientModel, body: Seq<u8>, err: Seq<char>, now: u64)
    requires
        c.pending is SendLocal || c.pending is SendEmbedded,
    ensures
        resume_plan(c, EventModel::Fetched(Ok(body)), now) == (
            with_pending(c, PendingModel::Idle),
            ActionModel::Delivered(body),
        ),
        c.pending is SendEmbedded ==> resume_plan(c, EventModel::Fetched(Err(err)), now) == (
            with_pending(c, PendingModel::Idle),
            ActionModel::Failed(err),
        ),
{
}

/// The client after the outcomes `evs`, reported at the times `times`, were
/// handed to `resume` one by one, starting from `c` with the pending action `a`;
/// and the last action returned.
pub open spec fn run(c: ClientModel, a: ActionModel, evs: Seq<EventModel>, times: Seq<u64>) -> (
    ClientModel,
    ActionModel,
)
    decreases evs.len(),
{
    if evs.len() == 0 {
        (c, a)
    } else {
        let (c1, a1) = resume_plan(c, evs[0], times[0]);
        run(c1, a1, evs.drop_first(), times.drop_first())
    }
}

/// Every outcome in `evs` is one that `resume` accepts at its turn, and each
/// has its time.
pub open spec fn run_valid(c: ClientModel, evs: Seq<EventModel>, times: Seq<u64>) -> bool
    decreases evs.len(),
{
    &&& evs.len() == times.len()
    &&& evs.len() > 0 ==> {
        &&& awaits(c.pending, evs[0])
        &&& run_valid(resume_plan(c, evs[0], times[0]).0, evs.drop_first(), times.drop_first())
    }
}

/// The action ends a `send`.
pub open spec fn ends_send(a: ActionModel) -> bool {
    a is Delivered || a is Failed
}

/// The URL that a `send` in progress fetches.
pub open spec fn pending_url(p: PendingModel) -> Seq<char> {
    match p {
        PendingModel::SendReprobe(u) => u,
        PendingModel::SendLocal(u) => u,
        PendingModel::SendFallbackProbe(u, _) => u,
        PendingModel::SendFallbackActivate(u, _) => u,
        PendingModel::SendEmbedded(u) => u,
        _ => seq![],
    }
}

/// The error of the local attempt that a fallback in progress keeps.
pub open spec fn pending_error(p: PendingModel) -> Option<Seq<char>> {
    match p {
        PendingModel::SendFallbackProbe(_, e) => Some(e),
        PendingModel::SendFallbackActivate(_, e) => Some(e),
        _ => None,
    }
}

/// A fetch among `evs` ended with the error text `m`.
pub open spec fn fetched_error(evs: Seq<EventModel>, m: Seq<char>) -> bool {
    exists|i: int| 0 <= i < evs.len() && evs[i] == EventModel::Fetched(Err(m))
}

/// The action, if it is a fetch, fetches `u`.
pub open spec fn fetches_only(a: ActionModel, u: Seq<char>) -> bool {
    match a {
        ActionModel::FetchLocal(v) => v == u,
        ActionModel::FetchEmbedded(v) => v == u,
        _ => true,
    }
}

proof fn lemma_fetched_error_grows(prior: Seq<EventModel>, ev: EventModel, m: Seq<char>)
    requires
        fetched_error(prior, m),
    ensures
        fetched_error(prior.push(ev), m),
{
    let i = choose|i: int| 0 <= i < prior.len() && prior[i] == EventModel::Fetched(Err(m));
    assert(prior.push(ev)[i] == prior[i]);
}

proof fn lemma_send_step(c: ClientModel, ev: EventModel, now: u64, u: Seq<char>, prior: Seq<EventModel>)
    requires
        sending(c.pending),
        pending_url(c.pending) == u,
        awaits(c.pending, ev),
        pending_error(c.pending) matches Some(e) ==> fetched_error(prior, e),
    ensures
        ({
            let (c1, a1) = resume_plan(c, ev, now);
            &&& c1.status == c.status
            &&& c1.mode == c.mode
            &&& ends_send(a1) ==> c1.pending == PendingModel::Idle
            &&& !ends_send(a1) ==> {
                &&& sending(c1.pending)
                &&& pending_url(c1.pending) == u
                &&& pending_error(c1.pending) matches Some(e) ==> fetched_error(prior.push(ev), e)
            }
            &&& fetches_only(a1, u)
            &&& a1 matches ActionModel::Delivered(b) ==> {
                &&& ev == EventModel::Fetched(Ok(b))
                &&& c.pending == PendingModel::SendLocal(u) || c.pending == PendingModel::SendEmbedded(u)
            }
            &&& a1 matches ActionModel::Failed(m) ==> m == "Tor client not started"@ || fetched_error(
                prior.push(ev),
                m,
            )
        }),
{
    let (c1, a1) = resume_plan(c, ev, now);
    let n = prior.len() as int;
    assert(prior.push(ev)[n] == ev);
    if let Some(e) = pending_error(c.pending) {
        lemma_fetched_error_grows(prior, ev, e);
    }
}

/// Over the rest of a `send`: the status and mode stay, every fetch asked for
/// is of the URL `u`, a delivered body is the body of the last outcome, which
/// answered a fetch of `u`, and a failure reports that no backend serves or
/// the error text of a fetch.
pub proof fn lemma_send_run(
    c: ClientModel,
    a: ActionModel,
    u: Seq<char>,
    evs: Seq<EventModel>,
    times: Seq<u64>,
    prior: Seq<EventModel>,
)
    requires
        sending(c.pending),
        pending_url(c.pending) == u,
        !ends_send(a),
        fetches_only(a, u),
        pending_error(c.pending) matches Some(e) ==> fetched_error(prior, e),
        run_valid(c, evs, times),
    ensures
        ({
            let (cn, an) = run(c, a, evs, times);
            &&& cn.status == c.status
            &&& cn.mode == c.mode
            &&& ends_send(an) ==> cn.pending == PendingModel::Idle
            &&& !ends_send(an) ==> sending(cn.pending) && pending_url(cn.pending) == u
            &&& fetches_only(an, u)
            &&& an matches ActionModel::Delivered(b) ==> {
                &&& evs.len() > 0
                &&& evs.last() == EventModel::Fetched(Ok(b))
                &&& ({
                    let p = run(c, a, evs.drop_last(), times.drop_last()).0.pending;
                    p == PendingModel::SendLocal(u) || p == PendingModel::SendEmbedded(u)
                })
            }
            &&& an matches ActionModel::Failed(m) ==> m == "Tor client not started"@
                || fetched_error(prior + evs, m)
        }),
    decreases evs.len(),
{
    if evs.len() > 0 {
        let ev = evs[0];
        let (c1, a1) = resume_plan(c, ev, times[0]);
        lemma_send_step(c, ev, times[0], u, prior);
        let rest = evs.drop_first();
        let rest_t = times.drop_first();
        assert(run_valid(c1, rest, rest_t));
        if ends_send(a1) {
            if rest.len() > 0 {
                assert(awaits(c1.pending, rest[0]));
                assert(!awaits(c1.pending, rest[0]));
            }
            assert(rest.len() == 0);
            assert(run(c1, a1, rest, rest_t) == (c1, a1));
            assert(evs.drop_last().len() == 0);
            assert(prior + evs =~= prior.push(ev));
        } else {
            lemma_send_run(c1, a1, u, rest, rest_t, prior.push(ev));
            assert(prior.push(ev) + rest =~= prior + evs);
            let (cn, an) = run(c1, a1, rest, rest_t);
            if an is Delivered {
                assert(evs.last() == rest.last());
                assert(evs.drop_last().len() > 0);
                assert(evs.drop_last()[0] == ev);
                assert(times.drop_last()[0] == times[0]);
                assert(evs.drop_last().drop_first() =~= rest.drop_last());
                assert(times.drop_last().drop_first() =~= rest_t.drop_last());
            }
        }
    }
}

/// A whole `send` of the envelope URL `url` (the text of its `url` header),
/// from its start to the action that ends it: the status and mode are as
/// before and no operation is left in progress; a delivered body is the body
/// fetched for `url` (the last outcome, answering a fetch of that URL); a
/// failure reports a missing `url` header, that no backend serves, or the
/// error text of a fetch. [`crate::envelope::Envelope::record`] then puts the
/// body into the payload, leaving the headers, or the failure text into the
/// `error` header, leaving the payload and every other header.
pub proof fn lemma_whole_send(
    c: ClientModel,
    url: Option<Seq<char>>,
    t0: u64,
    evs: Seq<EventModel>,
    times: Seq<u64>,
)
    requires
        run_valid(send_plan(c, url, t0).0, evs, times),
    ensures
        ({
            let (c0, a0) = send_plan(c, url, t0);
            let (cn, an) = run(c0, a0, evs, times);
            &&& cn.status == c.status
            &&& cn.mode == c.mode
            &&& ends_send(an) ==> cn.pending == PendingModel::Idle
            &&& an matches ActionModel::Delivered(b) ==> {
                &&& url is Some
                &&& evs.len() > 0
                &&& evs.last() == EventModel::Fetched(Ok(b))
                &&& ({
                    let p = run(c0, a0, evs.drop_last(), times.drop_last()).0.pending;
                    p == PendingModel::SendLocal(url->0) || p == PendingModel::SendEmbedded(url->0)
                })
            }
            &&& an matches ActionModel::Failed(m) ==> {
                ||| url is None && m == "no url header"@
                ||| m == "Tor client not started"@
                ||| fetched_error(evs, m)
            }
        }),
{
    let (c0, a0) = send_plan(c, url, t0);
    if c0.pending == PendingModel::Idle {
        if evs.len() > 0 {
            assert(!awaits(c0.pending, evs[0]));
        }
        assert(run(c0, a0, evs, times) == (c0, a0));
    } else {
        let u = url->0;
        lemma_send_run(c0, a0, u, evs, times, seq![]);
        assert(seq![] + evs =~= evs);
    }
}

/// Between calls the client has settled: no operation is in progress, the
/// status is not `Connecting`, it is `Connected` exactly when the latest
/// `start` (with no `stop` after it) returned `true`, and it is
/// `Disconnected` when there was no `start`, or `stop` came after it.
/// `last_start` is the result of that latest `start`, `None` when there is none.
pub open spec fn settled(c: ClientModel, last_start: Option<bool>) -> bool {
    &&& c.pending == PendingModel::Idle
    &&& c.status != Status::Connecting
    &&& (c.status == Status::Connected <==> last_start == Some(true))
    &&& last_start is None ==> c.status == Status::Disconnected
}

/// A new client has settled with no `start`.
pub proof fn lemma_fresh_settled(mode: Mode)
    ensures
        settled(fresh_model(mode), None),
{
}

/// After `stop` the client has settled as if never started.
pub proof fn lemma_stop_settles(c: ClientModel)
    ensures
        settled(stop_plan(c), None),
{
}

proof fn lemma_start_run(c: ClientModel, a: ActionModel, evs: Seq<EventModel>, times: Seq<u64>)
    requires
        starting(c.pending),
        c.status == Status::Connecting,
        !(a is Started),
        run_valid(c, evs, times),
    ensures
        ({
            let (cn, an) = run(c, a, evs, times);
            &&& cn.mode == c.mode
            &&& an matches ActionModel::Started(up) ==> settled(cn, Some(up))
            &&& !(an is Started) ==> starting(cn.pending) && cn.status == Status::Connecting
        }),
    decreases evs.len(),
{
    if evs.len() > 0 {
        let ev = evs[0];
        let (c1, a1) = resume_plan(c, ev, times[0]);
        lemma_start_reports_status(c, ev, times[0]);
        let rest = evs.drop_first();
        assert(run_valid(c1, rest, times.drop_first()));
        if a1 is Started {
            if rest.len() > 0 {
                assert(awaits(c1.pending, rest[0]));
                assert(!awaits(c1.pending, rest[0]));
            }
            assert(rest.len() == 0);
            assert(run(c1, a1, rest, times.drop_first()) == (c1, a1));
        } else {
            lemma_start_run(c1, a1, rest, times.drop_first());
        }
    }
}

/// A whole `start`, from any state: when it ends with `Started(up)` the client
/// has settled with `up` as the latest start; until then the status is
/// `Connecting`.
pub proof fn lemma_start_settles(c: ClientModel, t0: u64, evs: Seq<EventModel>, times: Seq<u64>)
    requires
        run_valid(start_plan(c, t0).0, evs, times),
    ensures
        ({
            let (c0, a0) = start_plan(c, t0);
            let (cn, an) = run(c0, a0, evs, times);
            &&& an matches ActionModel::Started(up) ==> settled(cn, Some(up))
            &&& !(an is Started) ==> cn.status == Status::Connecting
        }),
{
    let (c0, a0) = start_plan(c, t0);
    lemma_start_run(c0, a0, evs, times);
}

/// A whole `send` from a settled client leaves it settled with the same
/// latest start.
pub proof fn lemma_send_settles(
    c: ClientModel,
    last_start: Option<bool>,
    url: Option<Seq<char>>,
    t0: u64,
    evs: Seq<EventModel>,
    times: Seq<u64>,
)
    requires
        settled(c, last_start),
        run_valid(send_plan(c, url, t0).0, evs, times),
        ends_send(run(send_plan(c, url, t0).0, send_plan(c, url, t0).1, evs, times).1),
    ensures
        settled(run(send_plan(c, url, t0).0, send_plan(c, url, t0).1, evs, times).0, last_start),
{
    lemma_whole_send(c, url, t0, evs, times);
}

/// One call on the client, with the outcomes of the outside work it asked
/// for and their times.
pub ghost enum Call {
    Start { t0: u64, evs: Seq<EventModel>, times: Seq<u64> },
    Send { url: Option<Seq<char>>, t0: u64, evs: Seq<EventModel>, times: Seq<u64> },
    Stop,
}

/// The client after `call` and the last action it returned (`stop` returns
/// no action; `Started(true)` stands in for its result `true`).
pub open spec fn after_call(c: ClientModel, call: Call) -> (ClientModel, ActionModel) {
    match call {
        Call::Start { t0, evs, times } => run(start_plan(c, t0).0, start_plan(c, t0).1, evs, times),
        Call::Send { url, t0, evs, times } => run(
            send_plan(c, url, t0).0,
            send_plan(c, url, t0).1,
            evs,
            times,
        ),
        Call::Stop => (stop_plan(c), ActionModel::Started(true)),
    }
}

/// `call` ran to its end: every outcome was one the client awaited, and the
/// last action ends the call.
pub open spec fn call_complete(c: ClientModel, call: Call) -> bool {
    match call {
        Call::Start { t0, evs, times } => run_valid(start_plan(c, t0).0, evs, times) && after_call(
            c,
            call,
        ).1 is Started,
        Call::Send { url, t0, evs, times } => run_valid(send_plan(c, url, t0).0, evs, times)
            && ends_send(after_call(c, call).1),
        Call::Stop => true,
    }
}

/// Each call of `calls` ran to its end before the next began.
pub open spec fn calls_complete(c: ClientModel, calls: Seq<Call>) -> bool
    decreases calls.len(),
{
    calls.len() > 0 ==> {
        &&& call_complete(c, calls[0])
        &&& calls_complete(after_call(c, calls[0]).0, calls.drop_first())
    }
}

/// The client after `calls`, and the result of the latest `start` not
/// followed by a `stop` (`None` when there is none), given `last` before.
pub open spec fn replay(c: ClientModel, last: Option<bool>, calls: Seq<Call>) -> (
    ClientModel,
    Option<bool>,
)
    decreases calls.len(),
{
    if calls.len() == 0 {
        (c, last)
    } else {
        let (c1, a1) = after_call(c, calls[0]);
        let last1 = match calls[0] {
            Call::Start { .. } => match a1 {
                ActionModel::Started(up) => Some(up),
                _ => last,
            },
            Call::Send { .. } => last,
            Call::Stop => None,
        };
        replay(c1, last1, calls.drop_first())
    }
}

/// The status model over any sequence of calls that do not overlap, from a
/// new client: after each call the status is never `Connecting`, it is
/// `Connected` exactly when the latest `start`/`stop` call was a `start` that
/// returned `true`, and it is `Disconnected` when there was none or the latest
/// was `stop`.
pub proof fn lemma_status_over_calls(mode: Mode, calls: Seq<Call>)
    requires
        calls_complete(fresh_model(mode), calls),
    ensures
        settled(replay(fresh_model(mode), None, calls).0, replay(fresh_model(mode), None, calls).1),
{
    lemma_fresh_settled(mode);
    lemma_calls_keep_settled(fresh_model(mode), None, calls);
}

proof fn lemma_calls_keep_settled(c: ClientModel, last: Option<bool>, calls: Seq<Call>)
    requires
        settled(c, last),
        calls_complete(c, calls),
    ensures
        settled(replay(c, last, calls).0, replay(c, last, calls).1),
    decreases calls.len(),
{
    if calls.len() > 0 {
        let call = calls[0];
        let (c1, a1) = after_call(c, call);
        match call {
            Call::Start { t0, evs, times } => {
                lemma_start_settles(c, t0, evs, times);
                lemma_calls_keep_settled(c1, Some(a1->Started_0), calls.drop_first());
            },
            Call::Send { url, t0, evs, times } => {
                lemma_send_settles(c, last, url, t0, evs, times);
                lemma_calls_keep_settled(c1, last, calls.drop_first());
            },
            Call::Stop => {
                lemma_stop_settles(c);
                lemma_calls_keep_settled(c1, None, calls.drop_first());
            },
        }
    }
}

/// A `send` that is not due for a re-probe goes to the backend that serves,
/// in every mode: the embedded backend fetches the URL through the embedded
/// backend, the local one through the local daemon, and only a client with no
/// active backend answers "Tor client not started".
pub proof fn lemma_send_routes_to_active_backend(c: ClientModel, url: Seq<char>, now: u64)
    requires
        !(c.mode == Mode::Auto && c.active == Backend::Embedded && now - c.last_probe
            >= LOCAL_REPROBE_INTERVAL_MS),
    ensures
        c.active == Backend::Embedded ==> send_plan(c, Some(url), now) == (
            with_pending(c, PendingModel::SendEmbedded(url)),
            ActionModel::FetchEmbedded(url),
        ),
        c.active == Backend::Local ==> send_plan(c, Some(url), now) == (
            with_pending(c, PendingModel::SendLocal(url)),
            ActionModel::FetchLocal(url),
        ),
        send_plan(c, Some(url), now).1 == ActionModel::Failed("Tor client not started"@)
            ==> c.active == Backend::Inactive,
{
}

/// After `stop`, from any state, no backend serves: the status is
/// `Disconnected`, and a following `send` fails with "Tor client not started"
/// without asking for any outside work.
pub proof fn lemma_stopped_client_refuses_send(c: ClientModel, url: Seq<char>, now: u64)
    ensures
        stop_plan(c).active == Backend::Inactive,
        stop_plan(c).status == Status::Disconnected,
        stop_plan(c).mode == c.mode,
        send_plan(stop_plan(c), Some(url), now) == (
            with_pending(stop_plan(c), PendingModel::Idle),
            ActionModel::Failed("Tor client not started"@),
        ),
{
}

} // verus!
