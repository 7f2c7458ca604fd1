use vstd::prelude::*;

use crate::http::{format_get, parse_url, FetchError};
use crate::socks::{SocksConnect, SocksStage, SocksStep};

verus! {

/// What a fetch through a SOCKS5 proxy asks of the connection next.
pub enum FetchStep {
    /// A handshake step: write `send` (possibly empty), then read exactly
    /// `receive` bytes and hand them to [`HttpFetch::advance`].
    Exchange { send: Vec<u8>, receive: usize },
    /// The tunnel is open: write `send`, the GET request, then read the
    /// response to its end and take its body with [`crate::split_body`].
    Request { send: Vec<u8> },
    /// The fetch failed.
    Fail(FetchError),
}

/// The abstract content of a [`FetchStep`].
pub ghost enum FetchStepView {
    Exchange { send: Seq<u8>, receive: nat },
    Request { send: Seq<u8> },
    Fail(FetchError),
}

impl View for FetchStep {
    type V = FetchStepView;

    open spec fn view(&self) -> FetchStepView {
        match self {
            FetchStep::Exchange { send, receive } => FetchStepView::Exchange {
                send: send@,
                receive: *receive as nat,
            },
            FetchStep::Request { send } => FetchStepView::Request { send: send@ },
            FetchStep::Fail(e) => FetchStepView::Fail(*e),
        }
    }
}

/// The bytes of the GET request for `path` on `host`, as sent on the wire.
pub open spec fn request_bytes(host: Seq<char>, path: Seq<char>) -> Seq<u8> {
    vstd::utf8::encode_utf8(crate::http::get_request(host, path))
}

/// The fetch step that follows a handshake step: an open tunnel carries the
/// GET request for `host` and `path`.
pub open spec fn fetch_step_of(s: crate::socks::SocksStepView, host: Seq<char>, path: Seq<char>) -> FetchStepView {
    match s {
        crate::socks::SocksStepView::Exchange { send, receive } => FetchStepView::Exchange { send, receive },
        crate::socks::SocksStepView::Open => FetchStepView::Request { send: request_bytes(host, path) },
        crate::socks::SocksStepView::Fail(e) => FetchStepView::Fail(e),
    }
}

/// An HTTP GET of an `http://` URL through a SOCKS5 proxy: the URL is split
/// before anything is sent, the SOCKS5 handshake opens a tunnel to the URL's
/// host and port, and the GET request for its path goes through the tunnel.
pub struct HttpFetch {
    handshake: SocksConnect,
    host: String,
    path: String,
}

impl HttpFetch {
    /// The destination host.
    pub closed spec fn host(&self) -> Seq<char> {
        self.host@
    }

    /// The path requested.
    pub closed spec fn path(&self) -> Seq<char> {
        self.path@
    }

    /// The handshake in progress.
    pub closed spec fn handshake(&self) -> SocksConnect {
        self.handshake
    }

    /// Starts fetching `url`: a URL that does not split fails before any byte
    /// is sent; otherwise the first step is the SOCKS5 greeting.
    pub fn begin(url: &str) -> (r: Result<(HttpFetch, FetchStep), FetchError>)
        ensures
            match crate::http::url_parts(url@) {
                Err(e) => r == Err::<(HttpFetch, FetchStep), FetchError>(e),
                Ok((host, port, path)) => r matches Ok((f, step)) && {
                    &&& f.host() == host
                    &&& f.path() == path
                    &&& f.handshake().wf()
                    &&& f.handshake().stage() == SocksStage::MethodReply
                    &&& f.handshake().host() == vstd::utf8::encode_utf8(host)
                    &&& f.handshake().port() == port
                    &&& f.handshake().want() == 2
                    &&& step@ == (FetchStepView::Exchange {
                        send: crate::socks::greeting(),
                        receive: 2,
                    })
                },
            },
    {
        match parse_url(url) {
            Err(e) => Err(e),
            Ok((host, port, path)) => {
                let (handshake, first) = SocksConnect::new(host.as_str(), port);
                let step = match first {
                    SocksStep::Exchange { send, receive } => FetchStep::Exchange { send, receive },
                    _ => vstd::pervasive::unreached(),
                };
                Ok((HttpFetch { handshake, host, path }, step))
            },
        }
    }

    /// Takes the bytes read for the current handshake step and says what to do next.
    pub fn advance(&mut self, received: &[u8]) -> (step: FetchStep)
        requires
            old(self).handshake().wf(),
            crate::socks::awaits_bytes(old(self).handshake().stage()),
            received@.len() == old(self).handshake().want(),
        ensures
            final(self).host() == old(self).host(),
            final(self).path() == old(self).path(),
            final(self).handshake().wf(),
            final(self).handshake().host() == old(self).handshake().host(),
            final(self).handshake().port() == old(self).handshake().port(),
            ({
                let (stage, s) = crate::socks::socks_transition(
                    old(self).handshake().stage(),
                    old(self).handshake().host(),
                    old(self).handshake().port(),
                    received@,
                );
                &&& final(self).handshake().stage() == stage
                &&& step@ == fetch_step_of(s, old(self).host(), old(self).path())
                &&& s matches crate::socks::SocksStepView::Exchange { receive, .. }
                    ==> final(self).handshake().want() == receive
            }),
    {
        match self.handshake.advance(received) {
            SocksStep::Exchange { send, receive } => FetchStep::Exchange { send, receive },
            SocksStep::Open => {
                let request = format_get(self.host.as_str(), self.path.as_str());
                FetchStep::Request { send: request.as_str().as_bytes_vec() }
            },
            SocksStep::Fail(e) => FetchStep::Fail(e),
        }
    }
}

/// Through a proxy that accepts "no authentication" and connects with an IPv4
/// bound address, a fetch sends the greeting, the CONNECT request for the
/// URL's host and port and then the GET request for its path.
pub proof fn lemma_fetch_through_proxy(
    host: Seq<char>,
    port: u16,
    path: Seq<char>,
    head: Seq<u8>,
    bound: Seq<u8>,
)
    requires
        vstd::utf8::encode_utf8(host).len() <= 255,
        head.len() == 4,
        head[1] == 0,
        head[3] == 1,
        bound.len() == 6,
    ensures
        ({
            let h = vstd::utf8::encode_utf8(host);
            let (s1, a1) = crate::socks::socks_transition(SocksStage::MethodReply, h, port, seq![5u8, 0u8]);
            let (s2, a2) = crate::socks::socks_transition(s1, h, port, head);
            let (s3, a3) = crate::socks::socks_transition(s2, h, port, bound);
            &&& fetch_step_of(a1, host, path) == (FetchStepView::Exchange {
                send: crate::socks::connect_request(h, port),
                receive: 4,
            })
            &&& fetch_step_of(a2, host, path) == (FetchStepView::Exchange { send: seq![], receive: 6 })
            &&& s3 == SocksStage::Open
            &&& fetch_step_of(a3, host, path) == (FetchStepView::Request {
                send: request_bytes(host, path),
            })
        }),
{
    crate::socks::lemma_handshake_ipv4(vstd::utf8::encode_utf8(host), port, head, bound);
}

} // verus!
