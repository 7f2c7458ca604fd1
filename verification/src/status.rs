use vstd::prelude::*;

verus! {

/// Backend selection, read from the `ra.tor.mode` configuration key.
#[derive(Clone, Copy, Debug, PartialEq, Eq, Structural)]
pub enum Mode {
    Local,
    Embedded,
    Auto,
}

/// Connection status reported to the bus adapter.
#[derive(Clone, Copy, Debug, PartialEq, Eq, Structural)]
pub enum Status {
    Connecting,
    Connected,
    Disconnected,
    Error,
}

/// Which backend is currently serving requests.
#[derive(Clone, Copy, Debug, PartialEq, Eq, Structural)]
pub enum Backend {
    Inactive,
    Local,
    Embedded,
}

/// The one-byte code under which a status is stored.
pub open spec fn status_code(s: Status) -> u8 {
    match s {
        Status::Disconnected => 0,
        Status::Connecting => 1,
        Status::Connected => 2,
        Status::Error => 3,
    }
}

/// The status a stored byte stands for; unknown codes read as `Disconnected`.
pub open spec fn status_of_code(v: u8) -> Status {
    if v == 1 {
        Status::Connecting
    } else if v == 2 {
        Status::Connected
    } else if v == 3 {
        Status::Error
    } else {
        Status::Disconnected
    }
}

/// The one-byte code under which a backend is stored.
pub open spec fn backend_code(b: Backend) -> u8 {
    match b {
        Backend::Inactive => 0,
        Backend::Local => 1,
        Backend::Embedded => 2,
    }
}

/// The backend a stored byte stands for; unknown codes read as `Inactive`.
pub open spec fn backend_of_code(v: u8) -> Backend {
    if v == 1 {
        Backend::Local
    } else if v == 2 {
        Backend::Embedded
    } else {
        Backend::Inactive
    }
}

pub fn status_from_u8(v: u8) -> (s: Status)
    ensures
        s == status_of_code(v),
{
    match v {
        1 => Status::Connecting,
        2 => Status::Connected,
        3 => Status::Error,
        _ => Status::Disconnected,
    }
}

pub fn status_to_u8(s: Status) -> (v: u8)
    ensures
        v == status_code(s),
        v < 4,
{
    match s {
        Status::Disconnected => 0,
        Status::Connecting => 1,
        Status::Connected => 2,
        Status::Error => 3,
    }
}

pub fn backend_from_u8(v: u8) -> (b: Backend)
    ensures
        b == backend_of_code(v),
{
    match v {
        1 => Backend::Local,
        2 => Backend::Embedded,
        _ => Backend::Inactive,
    }
}

pub fn backend_to_u8(b: Backend) -> (v: u8)
    ensures
        v == backend_code(b),
        v < 3,
{
    match b {
        Backend::Inactive => 0,
        Backend::Local => 1,
        Backend::Embedded => 2,
    }
}

/// Storing a status and reading it back gives the same status.
pub proof fn lemma_status_round_trip(s: Status)
    ensures
        status_of_code(status_code(s)) == s,
{
}

/// Storing a backend and reading it back gives the same backend.
pub proof fn lemma_backend_round_trip(b: Backend)
    ensures
        backend_of_code(backend_code(b)) == b,
{
}

} // verus!
