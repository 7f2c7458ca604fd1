use vstd::prelude::*;

use crate::http::FetchError;

verus! {

/// Where a SOCKS5 CONNECT handshake stands.
#[derive(Clone, Copy, Debug, PartialEq, Eq, Structural)]
pub enum SocksStage {
    /// The greeting was sent; the proxy's method choice (2 bytes) is awaited.
    MethodReply,
    /// The CONNECT request was sent; the head of the reply (4 bytes) is awaited.
    ConnectReply,
    /// The reply carries a domain name; its length byte is awaited.
    DomainLength,
    /// The bound address and port are awaited; they are read and discarded.
    BoundAddress,
    /// The tunnel is open.
    Open,
    /// The handshake failed.
    Closed,
}

/// What the handshake asks of the connection next.
pub enum SocksStep {
    /// Write `send` (possibly empty), then read exactly `receive` bytes and
    /// hand them to [`SocksConnect::advance`].
    Exchange { send: Vec<u8>, receive: usize },
    /// The tunnel to the destination is open.
    Open,
    /// The handshake failed.
    Fail(FetchError),
}

/// The abstract content of a [`SocksStep`].
pub ghost enum SocksStepView {
    Exchange { send: Seq<u8>, receive: nat },
    Open,
    Fail(FetchError),
}

impl View for SocksStep {
    type V = SocksStepView;

    open spec fn view(&self) -> SocksStepView {
        match self {
            SocksStep::Exchange { send, receive } => SocksStepView::Exchange {
                send: send@,
                receive: *receive as nat,
            },
            SocksStep::Open => SocksStepView::Open,
            SocksStep::Fail(e) => SocksStepView::Fail(*e),
        }
    }
}

/// The client greeting: version 5, one method, "no authentication".
pub open spec fn greeting() -> Seq<u8> {
    seq![5u8, 1u8, 0u8]
}

/// The method reply of a proxy that accepts "no authentication".
pub open spec fn no_auth_accepted() -> Seq<u8> {
    seq![5u8, 0u8]
}

/// The CONNECT request for a domain-name destination: version, command,
/// reserved byte, address type 3, the name's length, the name, and the port in
/// network byte order.
pub open spec fn connect_request(host: Seq<u8>, port: u16) -> Seq<u8> {
    seq![5u8, 1u8, 0u8, 3u8, host.len() as u8] + host + seq![(port / 256) as u8, (port % 256) as u8]
}

/// The handshake's next stage and step after the bytes `r` were read at `stage`.
pub open spec fn socks_transition(stage: SocksStage, host: Seq<u8>, port: u16, r: Seq<u8>) -> (
    SocksStage,
    SocksStepView,
) {
    match stage {
        SocksStage::MethodReply => if r != no_auth_accepted() {
            (SocksStage::Closed, SocksStepView::Fail(FetchError::RefusedNoAuth(r[0], r[1])))
        } else if host.len() > 255 {
            (SocksStage::Closed, SocksStepView::Fail(FetchError::HostTooLong))
        } else {
            (
                SocksStage::ConnectReply,
                SocksStepView::Exchange { send: connect_request(host, port), receive: 4 },
            )
        },
        SocksStage::ConnectReply => if r[1] != 0 {
            (SocksStage::Closed, SocksStepView::Fail(FetchError::ConnectFailed(r[1])))
        } else if r[3] == 1 {
            (SocksStage::BoundAddress, SocksStepView::Exchange { send: seq![], receive: 4 + 2 })
        } else if r[3] == 4 {
            (SocksStage::BoundAddress, SocksStepView::Exchange { send: seq![], receive: 16 + 2 })
        } else if r[3] == 3 {
            (SocksStage::DomainLength, SocksStepView::Exchange { send: seq![], receive: 1 })
        } else {
            (SocksStage::Closed, SocksStepView::Fail(FetchError::BadAddressType(r[3])))
        },
        SocksStage::DomainLength => (
            SocksStage::BoundAddress,
            SocksStepView::Exchange { send: seq![], receive: r[0] as nat + 2 },
        ),
        SocksStage::BoundAddress => (SocksStage::Open, SocksStepView::Open),
        _ => (stage, SocksStepView::Open),
    }
}

/// The stage is one at which bytes are awaited.
pub open spec fn awaits_bytes(stage: SocksStage) -> bool {
    stage != SocksStage::Open && stage != SocksStage::Closed
}

/// A SOCKS5 CONNECT handshake (no authentication) with a proxy, for a
/// destination given by domain name and port.
pub struct SocksConnect {
    host: Vec<u8>,
    port: u16,
    stage: SocksStage,
    want: usize,
}

impl SocksConnect {
    /// The UTF-8 bytes of the destination host.
    pub closed spec fn host(&self) -> Seq<u8> {
        self.host@
    }

    /// The destination port.
    pub closed spec fn port(&self) -> u16 {
        self.port
    }

    /// Where the handshake stands.
    pub closed spec fn stage(&self) -> SocksStage {
        self.stage
    }

    /// The byte count awaited matches the stage.
    pub closed spec fn wf(&self) -> bool {
        &&& self.stage == SocksStage::MethodReply ==> self.want == 2
        &&& self.stage == SocksStage::ConnectReply ==> self.want == 4
        &&& self.stage == SocksStage::DomainLength ==> self.want == 1
    }

    /// How many bytes the next call of `advance` must be given.
    pub closed spec fn want(&self) -> nat {
        self.want as nat
    }

    /// Starts a handshake for `dest_host:dest_port`; the first step sends the
    /// greeting and reads the proxy's 2-byte method choice.
    pub fn new(dest_host: &str, dest_port: u16) -> (r: (SocksConnect, SocksStep))
        ensures
            r.0.host() == vstd::utf8::encode_utf8(dest_host@),
            r.0.port() == dest_port,
            r.0.stage() == SocksStage::MethodReply,
            r.0.want() == 2,
            r.0.wf(),
            r.1@ == (SocksStepView::Exchange { send: greeting(), receive: 2 }),
    {
        let machine = SocksConnect {
            host: dest_host.as_bytes_vec(),
            port: dest_port,
            stage: SocksStage::MethodReply,
            want: 2,
        };
        let hello = vec![5u8, 1u8, 0u8];
        assert(hello@ =~= greeting());
        (machine, SocksStep::Exchange { send: hello, receive: 2 })
    }

    /// The request bytes for this handshake's destination.
    fn request_bytes(&self) -> (r: Vec<u8>)
        requires
            self.host@.len() <= 255,
        ensures
            r@ == connect_request(self.host@, self.port),
    {
        let mut r = vec![5u8, 1u8, 0u8, 3u8, self.host.len() as u8];
        let mut k: usize = 0;
        while k < self.host.len()
            invariant
                k <= self.host@.len(),
                self.host@.len() <= 255,
                r@ =~= seq![5u8, 1u8, 0u8, 3u8, self.host@.len() as u8] + self.host@.take(k as int),
            decreases self.host@.len() - k,
        {
            r.push(self.host[k]);
            assert(self.host@.take(k + 1) =~= self.host@.take(k as int).push(self.host@[k as int]));
            k = k + 1;
        }
        assert(self.host@.take(k as int) =~= self.host@);
        r.push((self.port / 256) as u8);
        r.push((self.port % 256) as u8);
        assert(r@ =~= connect_request(self.host@, self.port));
        r
    }

    /// Takes the bytes read for the current step and says what to do next.
    pub fn advance(&mut self, received: &[u8]) -> (step: SocksStep)
        requires
            old(self).wf(),
            awaits_bytes(old(self).stage()),
            received@.len() == old(self).want(),
        ensures
            final(self).wf(),
            final(self).host() == old(self).host(),
            final(self).port() == old(self).port(),
            (final(self).stage(), step@) == socks_transition(
                old(self).stage(),
                old(self).host(),
                old(self).port(),
                received@,
            ),
            step@ matches SocksStepView::Exchange { receive, .. } ==> final(self).want() == receive,
    {
        match self.stage {
            SocksStage::MethodReply => {
                if !(received[0] == 5 && received[1] == 0) {
                    assert(received@ != no_auth_accepted()) by {
                        if received@ == no_auth_accepted() {
                            assert(received@[0] == 5 && received@[1] == 0);
                        }
                    }
                    self.stage = SocksStage::Closed;
                    return SocksStep::Fail(FetchError::RefusedNoAuth(received[0], received[1]));
                }
                assert(received@ =~= no_auth_accepted());
                if self.host.len() > 255 {
                    self.stage = SocksStage::Closed;
                    return SocksStep::Fail(FetchError::HostTooLong);
                }
                let request = self.request_bytes();
                self.stage = SocksStage::ConnectReply;
                self.want = 4;
                SocksStep::Exchange { send: request, receive: 4 }
            },
            SocksStage::ConnectReply => {
                if received[1] != 0 {
                    self.stage = SocksStage::Closed;
                    return SocksStep::Fail(FetchError::ConnectFailed(received[1]));
                }
                let atyp = received[3];
                if atyp == 1 {
                    self.stage = SocksStage::BoundAddress;
                    self.want = 6;
                    let none: Vec<u8> = Vec::new();
                    assert(none@ =~= seq![]);
                    SocksStep::Exchange { send: none, receive: 6 }
                } else if atyp == 4 {
                    self.stage = SocksStage::BoundAddress;
                    self.want = 18;
                    let none: Vec<u8> = Vec::new();
                    assert(none@ =~= seq![]);
                    SocksStep::Exchange { send: none, receive: 18 }
                } else if atyp == 3 {
                    self.stage = SocksStage::DomainLength;
                    self.want = 1;
                    let none: Vec<u8> = Vec::new();
                    assert(none@ =~= seq![]);
                    SocksStep::Exchange { send: none, receive: 1 }
                } else {
                    self.stage = SocksStage::Closed;
                    SocksStep::Fail(FetchError::BadAddressType(atyp))
                }
            },
            SocksStage::DomainLength => {
                let n = received[0] as usize + 2;
                self.stage = SocksStage::BoundAddress;
                self.want = n;
                let none: Vec<u8> = Vec::new();
                assert(none@ =~= seq![]);
                SocksStep::Exchange { send: none, receive: n }
            },
            _ => {
                self.stage = SocksStage::Open;
                SocksStep::Open
            },
        }
    }
}

/// A proxy reading the CONNECT request gets back the destination: the length
/// byte, the name and the big-endian port are where SOCKS5 puts them.
pub proof fn lemma_connect_request_fields(host: Seq<u8>, port: u16)
    requires
        host.len() <= 255,
    ensures
        connect_request(host, port).len() == host.len() + 7,
        connect_request(host, port).take(4) == seq![5u8, 1u8, 0u8, 3u8],
        connect_request(host, port)[4] == host.len(),
        connect_request(host, port).subrange(5, 5 + host.len() as int) == host,
        connect_request(host, port)[5 + host.len() as int] * 256 + connect_request(host, port)[6
            + host.len() as int] == port,
{
    let r = connect_request(host, port);
    assert(r.take(4) =~= seq![5u8, 1u8, 0u8, 3u8]);
    assert(r.subrange(5, 5 + host.len() as int) =~= host);
    assert(r[5 + host.len() as int] == (port / 256) as u8);
    assert(r[6 + host.len() as int] == (port % 256) as u8);
}

/// A proxy that accepts "no authentication", answers the CONNECT with success
/// and an IPv4 bound address opens the tunnel after the greeting, the CONNECT
/// request and three reads of 2, 4 and 6 bytes.
pub proof fn lemma_handshake_ipv4(host: Seq<u8>, port: u16, head: Seq<u8>, bound: Seq<u8>)
    requires
        host.len() <= 255,
        head.len() == 4,
        head[1] == 0,
        head[3] == 1,
        bound.len() == 6,
    ensures
        socks_transition(SocksStage::MethodReply, host, port, seq![5u8, 0u8]) == (
            SocksStage::ConnectReply,
            SocksStepView::Exchange { send: connect_request(host, port), receive: 4 },
        ),
        socks_transition(SocksStage::ConnectReply, host, port, head) == (
            SocksStage::BoundAddress,
            SocksStepView::Exchange { send: seq![], receive: 6 },
        ),
        socks_transition(SocksStage::BoundAddress, host, port, bound) == (
            SocksStage::Open,
            SocksStepView::Open,
        ),
{
    assert(seq![5u8, 0u8] =~= no_auth_accepted());
}

/// When the bound address is a domain name, its length byte decides how many
/// more bytes are read before the tunnel opens.
pub proof fn lemma_handshake_domain_bound(host: Seq<u8>, port: u16, head: Seq<u8>, len: Seq<u8>)
    requires
        head.len() == 4,
        head[1] == 0,
        head[3] == 3,
        len.len() == 1,
    ensures
        socks_transition(SocksStage::ConnectReply, host, port, head) == (
            SocksStage::DomainLength,
            SocksStepView::Exchange { send: seq![], receive: 1 },
        ),
        socks_transition(SocksStage::DomainLength, host, port, len) == (
            SocksStage::BoundAddress,
            SocksStepView::Exchange { send: seq![], receive: len[0] as nat + 2 },
        ),
{
}

/// A proxy that does not accept "no authentication" ends the handshake with
/// the two bytes it sent, and nothing more is written.
pub proof fn lemma_handshake_refused(host: Seq<u8>, port: u16, reply: Seq<u8>)
    requires
        reply.len() == 2,
        !(reply[0] == 5 && reply[1] == 0),
    ensures
        socks_transition(SocksStage::MethodReply, host, port, reply) == (
            SocksStage::Closed,
            SocksStepView::Fail(FetchError::RefusedNoAuth(reply[0], reply[1])),
        ),
{
    assert(reply != no_auth_accepted()) by {
        if reply == no_auth_accepted() {
            assert(reply[0] == 5);
        }
    }
}

/// Every CONNECT reply with a non-zero REP code ends the handshake with that
/// code, whatever the destination and the rest of the reply; only a reply with
/// REP 0 leads on to reading the bound address.
pub proof fn lemma_connect_refusal_ends_handshake(host: Seq<u8>, port: u16, reply: Seq<u8>)
    requires
        reply.len() == 4,
    ensures
        reply[1] != 0 ==> socks_transition(SocksStage::ConnectReply, host, port, reply) == (
            SocksStage::Closed,
            SocksStepView::Fail(FetchError::ConnectFailed(reply[1])),
        ),
        socks_transition(SocksStage::ConnectReply, host, port, reply).0 != SocksStage::Closed
            ==> reply[1] == 0,
        socks_transition(SocksStage::ConnectReply, host, port, reply).1 is Exchange ==> reply[1]
            == 0,
{
}

} // verus!
