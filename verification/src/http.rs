use vstd::prelude::*;

use crate::config::parse_u16;

verus! {

/// Why a fetch through the SOCKS5 proxy was refused by this client.
#[derive(Clone, Copy, Debug, PartialEq, Eq, Structural)]
pub enum FetchError {
    /// The URL does not start with `http://`.
    UnsupportedScheme,
    /// The URL names a port that is not a decimal `u16`.
    BadPort,
    /// The proxy did not accept the no-authentication method; the two bytes it sent.
    RefusedNoAuth(u8, u8),
    /// The destination host is longer than the 255 bytes SOCKS5 can carry.
    HostTooLong,
    /// The proxy answered the CONNECT request with this non-zero REP code.
    ConnectFailed(u8),
    /// The proxy's reply carries this unknown address type.
    BadAddressType(u8),
}

/// The ASCII digit for `d < 10`.
pub open spec fn digit_char(d: nat) -> char {
    (('0' as u32) + d) as char
}

/// The decimal text of `n`, without leading zeros.
pub open spec fn decimal(n: nat) -> Seq<char>
    decreases n,
{
    if n < 10 {
        seq![digit_char(n)]
    } else {
        decimal(n / 10).push(digit_char(n % 10))
    }
}

/// The text that describes a fetch error.
pub open spec fn error_text(e: FetchError) -> Seq<char> {
    match e {
        FetchError::UnsupportedScheme => "only http:// URLs are supported (HTTPS needs a TLS crate - see TODO.md)"@,
        FetchError::BadPort => "bad port"@,
        FetchError::RefusedNoAuth(a, b) => "SOCKS5 proxy refused no-auth (got ["@ + decimal(a as nat)
            + ", "@ + decimal(b as nat) + "])"@,
        FetchError::HostTooLong => "host too long"@,
        FetchError::ConnectFailed(rep) => "SOCKS5 connect failed, REP="@ + decimal(rep as nat),
        FetchError::BadAddressType(atyp) => "SOCKS5 bad ATYP "@ + decimal(atyp as nat),
    }
}

/// Appends `c` with `String::push`.
#[verifier::external_body]
fn push_char(s: &mut String, c: char)
    ensures
        final(s)@ == old(s)@.push(c),
{
    s.push(c)
}

fn digit(d: u8) -> (c: char)
    requires
        d < 10,
    ensures
        c == digit_char(d as nat),
{
    let c = match d {
        0 => '0',
        1 => '1',
        2 => '2',
        3 => '3',
        4 => '4',
        5 => '5',
        6 => '6',
        7 => '7',
        8 => '8',
        _ => '9',
    };
    c
}

/// Appends the decimal text of `n` to `s`.
fn push_decimal(s: &mut String, n: u8)
    ensures
        final(s)@ == old(s)@ + decimal(n as nat),
{
    if n >= 100 {
        push_char(s, digit(n / 100));
        push_char(s, digit((n / 10) % 10));
        push_char(s, digit(n % 10));
        assert(decimal((n / 100) as nat) =~= seq![digit_char((n / 100) as nat)]);
        assert(decimal((n / 10) as nat) =~= decimal((n / 100) as nat).push(digit_char(((n / 10) % 10) as nat)));
        assert(decimal(n as nat) =~= decimal((n / 10) as nat).push(digit_char((n % 10) as nat)));
    } else if n >= 10 {
        push_char(s, digit(n / 10));
        push_char(s, digit(n % 10));
        assert(decimal((n / 10) as nat) =~= seq![digit_char((n / 10) as nat)]);
        assert(decimal(n as nat) =~= decimal((n / 10) as nat).push(digit_char((n % 10) as nat)));
    } else {
        push_char(s, digit(n));
        assert(decimal(n as nat) =~= seq![digit_char(n as nat)]);
    }
    assert(final(s)@ =~= old(s)@ + decimal(n as nat));
}

impl FetchError {
    /// The text that describes this error.
    pub fn message(&self) -> (m: String)
        ensures
            m@ == error_text(*self),
    {
        match *self {
            FetchError::UnsupportedScheme => {
                "only http:// URLs are supported (HTTPS needs a TLS crate - see TODO.md)".to_owned()
            },
            FetchError::BadPort => "bad port".to_owned(),
            FetchError::RefusedNoAuth(a, b) => {
                let mut m = "SOCKS5 proxy refused no-auth (got [".to_owned();
                push_decimal(&mut m, a);
                m.append(", ");
                push_decimal(&mut m, b);
                m.append("])");
                m
            },
            FetchError::HostTooLong => "host too long".to_owned(),
            FetchError::ConnectFailed(rep) => {
                let mut m = "SOCKS5 connect failed, REP=".to_owned();
                push_decimal(&mut m, rep);
                m
            },
            FetchError::BadAddressType(atyp) => {
                let mut m = "SOCKS5 bad ATYP ".to_owned();
                push_decimal(&mut m, atyp);
                m
            },
        }
    }
}

pub open spec fn http_prefix() -> Seq<char> {
    seq!['h', 't', 't', 'p', ':', '/', '/']
}

/// Index of the first `c` in `s`, or `s.len()` when there is none.
pub open spec fn first_index(s: Seq<char>, c: char) -> int
    decreases s.len(),
{
    if s.len() == 0 || s[0] == c {
        0
    } else {
        1 + first_index(s.drop_first(), c)
    }
}

/// Index of the last `c` in `s`, or `-1` when there is none.
pub open spec fn last_index(s: Seq<char>, c: char) -> int
    decreases s.len(),
{
    if s.len() == 0 {
        -1
    } else if s.last() == c {
        s.len() - 1
    } else {
        last_index(s.drop_last(), c)
    }
}

/// Host, port and path of an `http://` URL: the authority runs up to the
/// first `/` (the path is `/` when there is none); a port follows the last
/// `:` of the authority and defaults to 80.
pub open spec fn url_parts(u: Seq<char>) -> Result<(Seq<char>, u16, Seq<char>), FetchError> {
    if !(u.len() >= 7 && u.take(7) == http_prefix()) {
        Err(FetchError::UnsupportedScheme)
    } else {
        let rest = u.skip(7);
        let i = first_index(rest, '/');
        let authority = rest.take(i);
        let path = if i < rest.len() {
            rest.skip(i)
        } else {
            seq!['/']
        };
        let j = last_index(authority, ':');
        if j < 0 {
            Ok((authority, 80u16, path))
        } else {
            match crate::config::parse_unsigned(authority.skip(j + 1), u16::MAX as nat) {
                Some(p) => Ok((authority.take(j), p as u16, path)),
                None => Err(FetchError::BadPort),
            }
        }
    }
}

/// The GET request for `path` on `host`, asking the server to close the connection.
pub open spec fn get_request(host: Seq<char>, path: Seq<char>) -> Seq<char> {
    "GET "@ + path + " HTTP/1.1\r\nHost: "@ + host
        + "\r\nUser-Agent: ra-tor-client\r\nAccept: */*\r\nConnection: close\r\n\r\n"@
}

/// The header/body separator.
pub open spec fn crlf_crlf() -> Seq<u8> {
    seq![13u8, 10u8, 13u8, 10u8]
}

/// The header/body separator CRLFCRLF starts at `i` in `s`.
pub open spec fn separator_at(s: Seq<u8>, i: int) -> bool {
    &&& 0 <= i
    &&& i + 4 <= s.len()
    &&& s[i] == 13u8
    &&& s[i + 1] == 10u8
    &&& s[i + 2] == 13u8
    &&& s[i + 3] == 10u8
}

/// The first separator at or after `i`, or `-1`.
pub open spec fn separator_from(s: Seq<u8>, i: int) -> int
    decreases s.len() - i,
{
    if i < 0 || i + 4 > s.len() {
        -1
    } else if separator_at(s, i) {
        i
    } else {
        separator_from(s, i + 1)
    }
}

/// The body of a raw HTTP response: what follows the first CRLFCRLF, or the
/// whole response when it holds none.
pub open spec fn response_body(s: Seq<u8>) -> Seq<u8> {
    let i = separator_from(s, 0);
    if i >= 0 {
        s.skip(i + 4)
    } else {
        s
    }
}

fn starts_with_http(url: &str, n: usize) -> (b: bool)
    requires
        n == url@.len(),
    ensures
        b == (url@.len() >= 7 && url@.take(7) == http_prefix()),
{
    if n < 7 {
        return false;
    }
    let prefix = vec!['h', 't', 't', 'p', ':', '/', '/'];
    assert(prefix@ =~= http_prefix());
    let mut k: usize = 0;
    while k < 7
        invariant
            n == url@.len(),
            n >= 7,
            k <= 7,
            prefix@ == http_prefix(),
            forall|m: int| 0 <= m < k ==> url@[m] == prefix@[m],
        decreases 7 - k,
    {
        if url.get_char(k) != prefix[k] {
            assert(url@.take(7)[k as int] != http_prefix()[k as int]);
            return false;
        }
        k = k + 1;
    }
    assert(url@.take(7) =~= http_prefix());
    true
}

/// Index of the first `c` among the characters of `s`, or their count.
fn find_char(s: &str, c: char) -> (i: usize)
    ensures
        i == first_index(s@, c),
        i <= s@.len(),
{
    let n = s.unicode_len();
    let mut i: usize = 0;
    assert(s@.skip(0) =~= s@);
    while i < n && s.get_char(i) != c
        invariant
            n == s@.len(),
            i <= n,
            first_index(s@, c) == i + first_index(s@.skip(i as int), c),
        decreases n - i,
    {
        assert(s@.skip(i as int)[0] == s@[i as int]);
        assert(s@.skip(i as int).drop_first() =~= s@.skip(i + 1));
        i = i + 1;
    }
    if i < n {
        assert(s@.skip(i as int)[0] == s@[i as int]);
    }
    i
}

/// Index of the last `c` among the characters of `s`.
fn rfind_char(s: &str, c: char) -> (r: Option<usize>)
    ensures
        match r {
            Some(j) => j == last_index(s@, c) && j < s@.len(),
            None => last_index(s@, c) == -1,
        },
{
    let n = s.unicode_len();
    let mut j: usize = n;
    assert(s@.take(n as int) =~= s@);
    while j > 0 && s.get_char(j - 1) != c
        invariant
            n == s@.len(),
            j <= n,
            last_index(s@, c) == last_index(s@.take(j as int), c),
        decreases j,
    {
        assert(s@.take(j as int).last() == s@[j - 1]);
        assert(s@.take(j as int).drop_last() =~= s@.take(j - 1));
        j = j - 1;
    }
    if j == 0 {
        None
    } else {
        assert(s@.take(j as int).last() == s@[j - 1]);
        Some(j - 1)
    }
}

/// Splits an `http://` URL into host, port and path.
pub fn parse_url(url: &str) -> (r: Result<(String, u16, String), FetchError>)
    ensures
        match r {
            Ok((host, port, path)) => url_parts(url@) == Ok::<
                (Seq<char>, u16, Seq<char>),
                FetchError,
            >((host@, port, path@)),
            Err(e) => url_parts(url@) == Err::<(Seq<char>, u16, Seq<char>), FetchError>(e),
        },
{
    let n = url.unicode_len();
    if !starts_with_http(url, n) {
        return Err(FetchError::UnsupportedScheme);
    }
    let rest = url.substring_char(7, n);
    assert(rest@ =~= url@.skip(7));
    let i = find_char(rest, '/');
    let authority = rest.substring_char(0, i);
    assert(authority@ =~= rest@.take(i as int));
    let path = if i < rest.unicode_len() {
        let p = rest.substring_char(i, rest.unicode_len());
        assert(p@ =~= rest@.skip(i as int));
        p.to_owned()
    } else {
        proof {
            reveal_strlit("/");
        }
        assert("/"@ =~= seq!['/']);
        "/".to_owned()
    };
    match rfind_char(authority, ':') {
        None => Ok((authority.to_owned(), 80, path)),
        Some(j) => {
            let host = authority.substring_char(0, j);
            let port_text = authority.substring_char(j + 1, authority.unicode_len());
            assert(host@ =~= authority@.take(j as int));
            assert(port_text@ =~= authority@.skip(j + 1));
            match parse_u16(port_text) {
                Some(port) => Ok((host.to_owned(), port, path)),
                None => Err(FetchError::BadPort),
            }
        }
    }
}

/// The GET request line and headers for `path` on `host`, with `Connection: close`.
pub fn format_get(host: &str, path: &str) -> (r: String)
    ensures
        r@ == get_request(host@, path@),
{
    let mut r = "GET ".to_owned();
    r.append(path);
    r.append(" HTTP/1.1\r\nHost: ");
    r.append(host);
    r.append("\r\nUser-Agent: ra-tor-client\r\nAccept: */*\r\nConnection: close\r\n\r\n");
    r
}

fn is_separator_at(raw: &Vec<u8>, i: usize) -> (b: bool)
    requires
        i + 4 <= raw@.len(),
    ensures
        b == separator_at(raw@, i as int),
{
    let _n = raw.len();
    raw[i] == 13 && raw[i + 1] == 10 && raw[i + 2] == 13 && raw[i + 3] == 10
}

/// Everything after the first CRLFCRLF (the body), or the whole buffer if no
/// header/body separator is present.
pub fn split_body(raw: Vec<u8>) -> (body: Vec<u8>)
    ensures
        body@ == response_body(raw@),
{
    let mut raw = raw;
    let len = raw.len();
    let mut i: usize = 0;
    while len - i >= 4 && !is_separator_at(&raw, i)
        invariant
            len == raw@.len(),
            i <= len,
            separator_from(raw@, 0) == separator_from(raw@, i as int),
        decreases len - i,
    {
        i = i + 1;
    }
    if len - i >= 4 {
        raw.split_off(i + 4)
    } else {
        raw
    }
}

proof fn lemma_first_index_after(h: Seq<char>, p: Seq<char>, c: char)
    requires
        forall|i: int| 0 <= i < h.len() ==> h[i] != c,
        p.len() == 0 || p[0] == c,
    ensures
        first_index(h + p, c) == h.len(),
    decreases h.len(),
{
    if h.len() == 0 {
        assert(h + p =~= p);
    } else {
        assert((h + p)[0] == h[0]);
        assert((h + p).drop_first() =~= h.drop_first() + p);
        lemma_first_index_after(h.drop_first(), p, c);
    }
}

proof fn lemma_last_index_before(a: Seq<char>, d: Seq<char>, c: char)
    requires
        forall|i: int| 0 <= i < d.len() ==> d[i] != c,
    ensures
        last_index(a.push(c) + d, c) == a.len(),
    decreases d.len(),
{
    if d.len() == 0 {
        assert(a.push(c) + d =~= a.push(c));
        assert(a.push(c).last() == c);
    } else {
        assert((a.push(c) + d).last() == d.last());
        assert((a.push(c) + d).drop_last() =~= a.push(c) + d.drop_last());
        lemma_last_index_before(a, d.drop_last(), c);
    }
}

proof fn lemma_no_last_index(d: Seq<char>, c: char)
    requires
        forall|i: int| 0 <= i < d.len() ==> d[i] != c,
    ensures
        last_index(d, c) == -1,
    decreases d.len(),
{
    if d.len() > 0 {
        assert(d.last() == d[d.len() - 1]);
        lemma_no_last_index(d.drop_last(), c);
    }
}

/// A URL written as `http://`, a host without `/`, a `:`, a decimal port and
/// a path that starts with `/` splits back into that host, port and path.
pub proof fn lemma_url_with_port(host: Seq<char>, port: Seq<char>, path: Seq<char>)
    requires
        forall|i: int| 0 <= i < host.len() ==> host[i] != '/',
        crate::config::all_digits(port),
        crate::config::digits_value(port) <= u16::MAX,
        path.len() > 0,
        path[0] == '/',
    ensures
        url_parts(http_prefix() + host + seq![':'] + port + path) == Ok::<
            (Seq<char>, u16, Seq<char>),
            FetchError,
        >((host, crate::config::digits_value(port) as u16, path)),
{
    let u = http_prefix() + host + seq![':'] + port + path;
    let authority = host + seq![':'] + port;
    assert(u.take(7) =~= http_prefix());
    assert(u.skip(7) =~= authority + path);
    assert forall|i: int| 0 <= i < authority.len() implies authority[i] != '/' by {
        if i < host.len() {
            assert(authority[i] == host[i]);
        } else if i > host.len() {
            assert(authority[i] == port[i - host.len() - 1]);
        }
    }
    lemma_first_index_after(authority, path, '/');
    assert((authority + path).take(authority.len() as int) =~= authority);
    assert((authority + path).skip(authority.len() as int) =~= path);
    assert forall|i: int| 0 <= i < port.len() implies port[i] != ':' by {
        assert('0' <= port[i] && port[i] <= '9');
    }
    assert(authority =~= host.push(':') + port);
    lemma_last_index_before(host, port, ':');
    assert(authority.skip(host.len() + 1int) =~= port);
    assert(authority.take(host.len() as int) =~= host);
    assert(port[0] != '+');
}

/// A URL written as `http://`, a host without `/` or `:` and a path that
/// starts with `/` splits back into that host, port 80 and that path; with no
/// path at all the path is `/`.
pub proof fn lemma_url_default_port(host: Seq<char>, path: Seq<char>)
    requires
        forall|i: int| 0 <= i < host.len() ==> host[i] != '/' && host[i] != ':',
        path.len() == 0 || path[0] == '/',
    ensures
        url_parts(http_prefix() + host + path) == Ok::<(Seq<char>, u16, Seq<char>), FetchError>(
            (host, 80u16, if path.len() == 0 {
                seq!['/']
            } else {
                path
            }),
        ),
{
    let u = http_prefix() + host + path;
    assert(u.take(7) =~= http_prefix());
    assert(u.skip(7) =~= host + path);
    lemma_first_index_after(host, path, '/');
    assert((host + path).take(host.len() as int) =~= host);
    assert((host + path).skip(host.len() as int) =~= path);
    lemma_no_last_index(host, ':');
}

proof fn lemma_separator_search_skips(s: Seq<u8>, from: int, at: int)
    requires
        0 <= from <= at,
        separator_at(s, at),
        forall|i: int| from <= i < at ==> !separator_at(s, i),
    ensures
        separator_from(s, from) == at,
    decreases at - from,
{
    if from < at {
        lemma_separator_search_skips(s, from + 1, at);
    }
}

/// A response made of a header block, CRLFCRLF and a body gives back that
/// body, provided no CRLFCRLF starts inside the header block.
pub proof fn lemma_body_after_headers(head: Seq<u8>, body: Seq<u8>)
    requires
        forall|i: int|
            0 <= i < head.len() ==> !#[trigger] separator_at(head + crlf_crlf() + body, i),
    ensures
        response_body(head + crlf_crlf() + body) == body,
{
    let s = head + crlf_crlf() + body;
    let n = head.len() as int;
    assert(s[n] == 13u8 && s[n + 1] == 10u8 && s[n + 2] == 13u8 && s[n + 3] == 10u8);
    assert(separator_at(s, n));
    lemma_separator_search_skips(s, 0, n);
    assert(s.skip(n + 4) =~= body);
}

proof fn lemma_separator_search_none(s: Seq<u8>, from: int)
    requires
        0 <= from,
        forall|i: int| from <= i ==> !separator_at(s, i),
    ensures
        separator_from(s, from) == -1,
    decreases s.len() - from,
{
    if from + 4 <= s.len() {
        lemma_separator_search_none(s, from + 1);
    }
}

/// A response that holds no CRLFCRLF is returned whole.
pub proof fn lemma_body_without_separator(s: Seq<u8>)
    requires
        forall|i: int| !separator_at(s, i),
    ensures
        response_body(s) == s,
{
    lemma_separator_search_none(s, 0);
}

proof fn lemma_last_index_bounds(s: Seq<char>, c: char)
    ensures
        last_index(s, c) == -1 || (0 <= last_index(s, c) < s.len() && s[last_index(s, c)] == c),
    decreases s.len(),
{
    if s.len() > 0 && s.last() != c {
        lemma_last_index_bounds(s.drop_last(), c);
    }
}

/// The path of an `http://` URL is what follows its authority, and `/` when
/// nothing does, whether or not the authority names a port; the host is the
/// authority up to its port separator, and port 80 is used exactly when the
/// authority has no `:`.
pub proof fn lemma_url_path_and_host(authority: Seq<char>, path: Seq<char>)
    requires
        forall|i: int| 0 <= i < authority.len() ==> authority[i] != '/',
        path.len() == 0 || path[0] == '/',
    ensures
        url_parts(http_prefix() + authority + path) matches Ok((host, port, p)) ==> {
            &&& p == if path.len() == 0 {
                seq!['/']
            } else {
                path
            }
            &&& host.len() <= authority.len()
            &&& authority.take(host.len() as int) == host
            &&& host.len() < authority.len() ==> authority[host.len() as int] == ':'
            &&& host.len() == authority.len() ==> port == 80
        },
        url_parts(http_prefix() + authority + path) is Err ==> url_parts(http_prefix() + authority + path)
            == Err::<(Seq<char>, u16, Seq<char>), FetchError>(FetchError::BadPort),
{
    let u = http_prefix() + authority + path;
    assert(u.take(7) =~= http_prefix());
    assert(u.skip(7) =~= authority + path);
    lemma_first_index_after(authority, path, '/');
    assert((authority + path).take(authority.len() as int) =~= authority);
    assert((authority + path).skip(authority.len() as int) =~= path);
    lemma_last_index_bounds(authority, ':');
    let j = last_index(authority, ':');
    if j >= 0 {
        assert(authority.take(j).len() == j);
    }
}

/// The request line carries the path verbatim and the `Host` header the host
/// verbatim: the request starts with `GET `, the path, ` HTTP/1.1`, CRLF,
/// `Host: `, the host and CRLF.
pub proof fn lemma_request_carries_path_and_host(host: Seq<char>, path: Seq<char>)
    ensures
        get_request(host, path).take(4) == seq!['G', 'E', 'T', ' '],
        get_request(host, path).subrange(4, 4 + (path.len() as int)) == path,
        get_request(host, path).subrange(4 + (path.len() as int), 4 + (path.len() as int) + 17) == seq![
            ' ', 'H', 'T', 'T', 'P', '/', '1', '.', '1', '\r', '\n', 'H', 'o', 's', 't', ':', ' '
        ],
        get_request(host, path).subrange(4 + (path.len() as int) + 17, 4 + (path.len() as int) + 17 + (host.len() as int)) == host,
        get_request(host, path).subrange(
            4 + (path.len() as int) + 17 + (host.len() as int),
            4 + (path.len() as int) + 17 + (host.len() as int) + 2,
        ) == seq!['\r', '\n'],
{
    reveal_strlit("GET ");
    reveal_strlit(" HTTP/1.1\r\nHost: ");
    reveal_strlit("\r\nUser-Agent: ra-tor-client\r\nAccept: */*\r\nConnection: close\r\n\r\n");
    let r = get_request(host, path);
    let a = "GET "@;
    let b = " HTTP/1.1\r\nHost: "@;
    let c = "\r\nUser-Agent: ra-tor-client\r\nAccept: */*\r\nConnection: close\r\n\r\n"@;
    assert(a.len() == 4);
    assert(b.len() == 17);
    assert(r =~= a + path + b + host + c);
    assert(r.take(4) =~= seq!['G', 'E', 'T', ' ']);
    assert(r.subrange(4, 4 + (path.len() as int)) =~= path);
    assert(r.subrange(4 + (path.len() as int), 4 + (path.len() as int) + 17) =~= b);
    assert(b =~= seq![
        ' ', 'H', 'T', 'T', 'P', '/', '1', '.', '1', '\r', '\n', 'H', 'o', 's', 't', ':', ' '
    ]);
    assert(r.subrange(4 + (path.len() as int) + 17, 4 + (path.len() as int) + 17 + (host.len() as int)) =~= host);
    assert(r.subrange(4 + (path.len() as int) + 17 + (host.len() as int), 4 + (path.len() as int) + 17 + (host.len() as int) + 2)
        =~= seq!['\r', '\n']);
}

} // verus!
