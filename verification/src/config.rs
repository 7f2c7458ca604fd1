use std::collections::HashMap;
use vstd::prelude::*;

use crate::status::Mode;

verus! {

/// Unicode `White_Space`, the set of characters that `str::trim` removes.
pub open spec fn is_white_space(c: char) -> bool {
    let v = c as u32;
    ||| 0x09 <= v <= 0x0d
    ||| v == 0x20
    ||| v == 0x85
    ||| v == 0xa0
    ||| v == 0x1680
    ||| 0x2000 <= v <= 0x200a
    ||| v == 0x2028
    ||| v == 0x2029
    ||| v == 0x202f
    ||| v == 0x205f
    ||| v == 0x3000
}

/// `s` without its leading white space.
pub open spec fn trim_start(s: Seq<char>) -> Seq<char>
    decreases s.len(),
{
    if s.len() > 0 && is_white_space(s[0]) {
        trim_start(s.drop_first())
    } else {
        s
    }
}

/// `s` without its trailing white space.
pub open spec fn trim_end(s: Seq<char>) -> Seq<char>
    decreases s.len(),
{
    if s.len() > 0 && is_white_space(s.last()) {
        trim_end(s.drop_last())
    } else {
        s
    }
}

/// `s` without leading and trailing white space.
pub open spec fn trim(s: Seq<char>) -> Seq<char> {
    trim_end(trim_start(s))
}

/// ASCII lower-casing of `c` gives `t`.
pub open spec fn lowercases_to(c: char, t: char) -> bool {
    if 'A' <= c && c <= 'Z' {
        (c as u32) + 32 == (t as u32)
    } else {
        c == t
    }
}

/// ASCII lower-casing of `s` gives `t`.
pub open spec fn lowercase_equals(s: Seq<char>, t: Seq<char>) -> bool {
    &&& s.len() == t.len()
    &&& forall|i: int| 0 <= i < s.len() ==> lowercases_to(#[trigger] s[i], t[i])
}

pub open spec fn local_name() -> Seq<char> {
    seq!['l', 'o', 'c', 'a', 'l']
}

pub open spec fn embedded_name() -> Seq<char> {
    seq!['e', 'm', 'b', 'e', 'd', 'd', 'e', 'd']
}

/// The mode a configuration value selects: `local` or `embedded` in any ASCII
/// case and with surrounding white space; anything else selects `Auto`.
pub open spec fn mode_named(s: Seq<char>) -> Mode {
    let t = trim(s);
    if lowercase_equals(t, local_name()) {
        Mode::Local
    } else if lowercase_equals(t, embedded_name()) {
        Mode::Embedded
    } else {
        Mode::Auto
    }
}

proof fn lemma_trim_start_skip(s: Seq<char>, i: int)
    requires
        0 <= i < s.len(),
        is_white_space(s[i]),
    ensures
        trim_start(s.skip(i)) == trim_start(s.skip(i + 1)),
{
    assert(s.skip(i)[0] == s[i]);
    assert(s.skip(i).drop_first() =~= s.skip(i + 1));
}

proof fn lemma_trim_end_take(s: Seq<char>, i: int, j: int)
    requires
        0 <= i < j <= s.len(),
        is_white_space(s[j - 1]),
    ensures
        trim_end(s.subrange(i, j)) == trim_end(s.subrange(i, j - 1)),
{
    assert(s.subrange(i, j).last() == s[j - 1]);
    assert(s.subrange(i, j).drop_last() =~= s.subrange(i, j - 1));
}

fn is_white_space_char(c: char) -> (b: bool)
    ensures
        b == is_white_space(c),
{
    let v = c as u32;
    (0x09 <= v && v <= 0x0d) || v == 0x20 || v == 0x85 || v == 0xa0 || v == 0x1680 || (0x2000
        <= v && v <= 0x200a) || v == 0x2028 || v == 0x2029 || v == 0x202f || v == 0x205f || v
        == 0x3000
}

/// The character range `[start, end)` of `s` that trimming keeps.
fn trimmed_range(s: &str) -> (r: (usize, usize))
    ensures
        r.0 <= r.1 <= s@.len(),
        s@.subrange(r.0 as int, r.1 as int) == trim(s@),
{
    let n = s.unicode_len();
    let mut i: usize = 0;
    assert(s@.skip(0) =~= s@);
    while i < n && is_white_space_char(s.get_char(i))
        invariant
            n == s@.len(),
            i <= n,
            trim_start(s@) == trim_start(s@.skip(i as int)),
        decreases n - i,
    {
        proof {
            lemma_trim_start_skip(s@, i as int);
        }
        i = i + 1;
    }
    proof {
        if i < n {
            assert(s@.skip(i as int)[0] == s@[i as int]);
        }
        assert(trim_start(s@.skip(i as int)) == s@.skip(i as int));
        assert(s@.skip(i as int) =~= s@.subrange(i as int, n as int));
    }
    let mut j: usize = n;
    while j > i && is_white_space_char(s.get_char(j - 1))
        invariant
            n == s@.len(),
            i <= j <= n,
            trim(s@) == trim_end(s@.subrange(i as int, j as int)),
        decreases j,
    {
        proof {
            lemma_trim_end_take(s@, i as int, j as int);
        }
        j = j - 1;
    }
    proof {
        if j > i {
            assert(s@.subrange(i as int, j as int).last() == s@[j - 1]);
        }
    }
    (i, j)
}

fn lowercases_to_char(c: char, t: char) -> (b: bool)
    ensures
        b == lowercases_to(c, t),
{
    if 'A' <= c && c <= 'Z' {
        (c as u32) + 32 == (t as u32)
    } else {
        c == t
    }
}

/// Whether ASCII lower-casing of the characters `[start, end)` of `s` gives `t`.
fn range_lowercase_equals(s: &str, start: usize, end: usize, t: &Vec<char>) -> (b: bool)
    requires
        start <= end <= s@.len(),
    ensures
        b == lowercase_equals(s@.subrange(start as int, end as int), t@),
{
    if end - start != t.len() {
        return false;
    }
    let mut k: usize = 0;
    while k < t.len()
        invariant
            start <= end <= s@.len(),
            end - start == t.len(),
            k <= t.len(),
            forall|m: int|
                0 <= m < k ==> lowercases_to(
                    #[trigger] s@.subrange(start as int, end as int)[m],
                    t@[m],
                ),
        decreases t.len() - k,
    {
        if !lowercases_to_char(s.get_char(start + k), t[k]) {
            assert(s@.subrange(start as int, end as int)[k as int] == s@[start + k]);
            return false;
        }
        assert(s@.subrange(start as int, end as int)[k as int] == s@[start + k]);
        k = k + 1;
    }
    true
}

impl Mode {
    /// Reads a `ra.tor.mode` value.
    pub fn parse(s: &str) -> (m: Mode)
        ensures
            m == mode_named(s@),
    {
        let (start, end) = trimmed_range(s);
        let local = vec!['l', 'o', 'c', 'a', 'l'];
        let embedded = vec!['e', 'm', 'b', 'e', 'd', 'd', 'e', 'd'];
        assert(local@ =~= local_name());
        assert(embedded@ =~= embedded_name());
        if range_lowercase_equals(s, start, end, &local) {
            Mode::Local
        } else if range_lowercase_equals(s, start, end, &embedded) {
            Mode::Embedded
        } else {
            Mode::Auto
        }
    }
}

/// The value of the decimal digits `s`.
pub open spec fn digits_value(s: Seq<char>) -> nat
    decreases s.len(),
{
    if s.len() == 0 {
        0
    } else {
        digits_value(s.drop_last()) * 10 + ((s.last() as u32) - ('0' as u32)) as nat
    }
}

/// `s` is one or more ASCII decimal digits.
pub open spec fn all_digits(s: Seq<char>) -> bool {
    &&& s.len() > 0
    &&& forall|i: int| 0 <= i < s.len() ==> '0' <= #[trigger] s[i] && s[i] <= '9'
}

/// The number that `s` writes as an unsigned decimal: an optional `+`
/// followed by one or more ASCII digits, nothing else.
pub open spec fn unsigned_decimal(s: Seq<char>) -> Option<nat> {
    let d = if s.len() > 0 && s[0] == '+' {
        s.drop_first()
    } else {
        s
    };
    if all_digits(d) {
        Some(digits_value(d))
    } else {
        None
    }
}

/// What an unsigned integer type with largest value `max` reads from `s`.
pub open spec fn parse_unsigned(s: Seq<char>, max: nat) -> Option<nat> {
    match unsigned_decimal(s) {
        Some(n) => if n <= max {
            Some(n)
        } else {
            None
        },
        None => None,
    }
}

/// Reads a `u16` with `<u16 as FromStr>::from_str`.
///
/// std documents that the string must be an optional `+` followed by ASCII
/// digits only, and that a value out of range is an error; the contract says
/// exactly that.
#[verifier::external_body]
pub(crate) fn parse_u16(s: &str) -> (r: Option<u16>)
    ensures
        match r {
            Some(v) => parse_unsigned(s@, u16::MAX as nat) == Some(v as nat),
            None => parse_unsigned(s@, u16::MAX as nat) is None,
        },
{
    s.parse::<u16>().ok()
}

/// Reads a `u64` with `<u64 as FromStr>::from_str`, with the same grammar as
/// [`parse_u16`].
#[verifier::external_body]
pub(crate) fn parse_u64(s: &str) -> (r: Option<u64>)
    ensures
        match r {
            Some(v) => parse_unsigned(s@, u64::MAX as nat) == Some(v as nat),
            None => parse_unsigned(s@, u64::MAX as nat) is None,
        },
{
    s.parse::<u64>().ok()
}

/// The value stored in `cfg` under a key whose text is `key`, if any.
pub open spec fn setting(cfg: Map<String, String>, key: Seq<char>) -> Option<Seq<char>> {
    if exists|k: String| #[trigger] cfg.contains_key(k) && k@ == key {
        let k = choose|k: String| #[trigger] cfg.contains_key(k) && k@ == key;
        Some(cfg[k]@)
    } else {
        None
    }
}

/// Looks `key` up in a map of text keys (a configuration or an envelope's
/// headers) with `HashMap::get`, cloning the value found.
///
/// The contract claims that the lookup finds the entry whose key has the same
/// text as `key` (a `HashMap` holds at most one such entry), and finds nothing
/// when there is none.
#[verifier::external_body]
pub(crate) fn config_value(cfg: &HashMap<String, String>, key: &str) -> (r: Option<String>)
    ensures
        match r {
            Some(v) => setting(cfg@, key@) == Some(v@),
            None => setting(cfg@, key@) is None,
        },
{
    cfg.get(key).cloned()
}

} // verus!
