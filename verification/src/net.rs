//! IP addresses: IPv4 in dot-decimal notation, IPv6 in its colon forms, and
//! IPv4 host/prefix pairs.
use vstd::prelude::*;

pub mod display;

use crate::error::{CoreError, ErrorView};
use crate::text::{
    all_digits, char_pos, chars_of, decimal, digits_value, find_char, is_digit, lemma_decimal_digits,
    lemma_segments_concat, lemma_segments_nonempty, lemma_segments_single,
    parse_unsigned, push_str, segments, slice_chars, split_on, u64_to_decimal, unsigned_value, string_views,
    is_empty_text,
};

verus! {

/// An IPv4 address, by its four octets.
#[derive(Debug, Clone, Copy, PartialEq, Eq, Structural)]
pub struct Ipv4 {
    pub a: u8,
    pub b: u8,
    pub c: u8,
    pub d: u8,
}

/// A dot-decimal octet: one to three decimal digits, no leading zero except
/// in `0` itself, value at most 255 (octal-looking forms are not accepted).
pub open spec fn octet_text_ok(p: Seq<char>) -> bool {
    &&& 1 <= p.len() <= 3
    &&& all_digits(p)
    &&& (p.len() == 1 || p[0] != '0')
    &&& digits_value(p) <= 255
}

/// The address a dot-decimal text denotes: exactly four octets separated by `.`.
pub open spec fn spec_parse_ipv4(s: Seq<char>) -> Option<Ipv4> {
    let parts = segments(s, '.');
    if parts.len() == 4 && octet_text_ok(parts[0]) && octet_text_ok(parts[1]) && octet_text_ok(parts[2])
        && octet_text_ok(parts[3]) {
        Some(
            Ipv4 {
                a: digits_value(parts[0]) as u8,
                b: digits_value(parts[1]) as u8,
                c: digits_value(parts[2]) as u8,
                d: digits_value(parts[3]) as u8,
            },
        )
    } else {
        None
    }
}

fn octet_value(p: &str) -> (res: Option<u8>)
    ensures
        match res {
            Some(v) => octet_text_ok(p@) && v == digits_value(p@),
            None => !octet_text_ok(p@),
        },
{
    let cs = chars_of(p);
    if cs.len() < 1 || cs.len() > 3 {
        return None;
    }
    if !('0' <= cs[0] && cs[0] <= '9') {
        assert(!is_digit(p@[0]));
        return None;
    }
    if cs[0] == '0' && cs.len() > 1 {
        return None;
    }
    assert(p@.len() > 0 && p@[0] != '+');
    match parse_unsigned(p, 255) {
        Some(v) => {
            assert(unsigned_value(p@) == Some(digits_value(p@)));
            Some(v as u8)
        },
        None => None,
    }
}

/// Parses a dot-decimal IPv4 address.
pub fn parse_ipv4(s: &str) -> (res: Option<Ipv4>)
    ensures
        res == spec_parse_ipv4(s@),
{
    let parts = split_on(s, '.');
    if parts.len() != 4 {
        return None;
    }
    assert(parts@[0]@ == segments(s@, '.')[0]);
    assert(parts@[1]@ == segments(s@, '.')[1]);
    assert(parts@[2]@ == segments(s@, '.')[2]);
    assert(parts@[3]@ == segments(s@, '.')[3]);
    let a = match octet_value(parts[0].as_str()) {
        Some(v) => v,
        None => {
            return None;
        },
    };
    let b = match octet_value(parts[1].as_str()) {
        Some(v) => v,
        None => {
            return None;
        },
    };
    let c = match octet_value(parts[2].as_str()) {
        Some(v) => v,
        None => {
            return None;
        },
    };
    let d = match octet_value(parts[3].as_str()) {
        Some(v) => v,
        None => {
            return None;
        },
    };
    Some(Ipv4 { a, b, c, d })
}

/// The dot-decimal text of an address.
pub open spec fn ipv4_text(ip: Ipv4) -> Seq<char> {
    decimal(ip.a as nat) + "."@ + decimal(ip.b as nat) + "."@ + decimal(ip.c as nat) + "."@ + decimal(ip.d as nat)
}

proof fn lemma_octet_text(n: u8)
    ensures
        octet_text_ok(decimal(n as nat)),
        digits_value(decimal(n as nat)) == n,
        forall|i: int| 0 <= i < decimal(n as nat).len() ==> #[trigger] decimal(n as nat)[i] != '.',
{
    lemma_decimal_digits(n as nat);
    let t = decimal(n as nat);
    assert forall|i: int| 0 <= i < t.len() implies #[trigger] t[i] != '.' by {
        assert(is_digit(t[i]));
    }
}

/// The dot-decimal text of an address reads back as the same address.
pub proof fn lemma_ipv4_text_round_trip(ip: Ipv4)
    ensures
        spec_parse_ipv4(ipv4_text(ip)) == Some(ip),
{
    reveal_strlit(".");
    lemma_octet_text(ip.a);
    lemma_octet_text(ip.b);
    lemma_octet_text(ip.c);
    lemma_octet_text(ip.d);
    let da = decimal(ip.a as nat);
    let db = decimal(ip.b as nat);
    let dc = decimal(ip.c as nat);
    let dd = decimal(ip.d as nat);
    let dot = seq!['.'];
    assert("."@ =~= dot);
    let y = da + dot + db;
    let x = y + dot + dc;
    assert(ipv4_text(ip) =~= x + dot + dd);
    lemma_segments_single(da, '.');
    lemma_segments_single(db, '.');
    lemma_segments_single(dc, '.');
    lemma_segments_single(dd, '.');
    lemma_segments_concat(da, '.', db);
    lemma_segments_concat(y, '.', dc);
    lemma_segments_concat(x, '.', dd);
    assert(segments(ipv4_text(ip), '.') =~= seq![da, db, dc, dd]);
}

impl Ipv4 {
    /// The dot-decimal text of the address.
    pub fn to_text(&self) -> (res: String)
        ensures
            res@ == ipv4_text(*self),
    {
        let mut s = u64_to_decimal(self.a as u64);
        push_str(&mut s, ".");
        let t = u64_to_decimal(self.b as u64);
        push_str(&mut s, t.as_str());
        push_str(&mut s, ".");
        let t = u64_to_decimal(self.c as u64);
        push_str(&mut s, t.as_str());
        push_str(&mut s, ".");
        let t = u64_to_decimal(self.d as u64);
        push_str(&mut s, t.as_str());
        s
    }
}

/// The host and prefix length of `a.b.c.d/n`, or the first problem: no `/`,
/// an invalid host, an invalid or too long prefix.
pub open spec fn spec_parse_ipv4_cidr(cidr: Seq<char>) -> Result<(Ipv4, u8), ErrorView> {
    match char_pos(cidr, '/') {
        None => Err(ErrorView::ValidationFailed("invalid ipv4 host/prefix value '"@ + cidr + "'"@)),
        Some(i) => {
            let host = cidr.take(i);
            let prefix = cidr.skip(i + 1);
            match spec_parse_ipv4(host) {
                None => Err(ErrorView::ValidationFailed("invalid IPv4 host address '"@ + host + "'"@)),
                Some(ip) => match unsigned_value(prefix) {
                    Some(n) if n <= 255 => if n <= 32 {
                        Ok((ip, n as u8))
                    } else {
                        Err(
                            ErrorView::ValidationFailed(
                                "IPv4 prefix length must be <= 32, got "@ + decimal(n),
                            ),
                        )
                    },
                    _ => Err(ErrorView::ValidationFailed("invalid IPv4 prefix length '"@ + prefix + "'"@)),
                },
            }
        },
    }
}

/// Parses `a.b.c.d/n` into the host address and a prefix length of at most 32.
pub fn parse_ipv4_cidr(cidr: &str) -> (res: Result<(Ipv4, u8), CoreError>)
    ensures
        match spec_parse_ipv4_cidr(cidr@) {
            Ok(p) => res matches Ok(q) && q == p,
            Err(e) => res matches Err(x) && x@ == e,
        },
{
    let (cs, slash) = find_char(cidr, '/');
    let i = match slash {
        Some(i) => i,
        None => {
            let mut message = String::new();
            push_str(&mut message, "invalid ipv4 host/prefix value '");
            push_str(&mut message, cidr);
            push_str(&mut message, "'");
            return Err(CoreError::ValidationFailed { message });
        },
    };
    assert(i < cs.len());
    let host = slice_chars(&cs, 0, i);
    let prefix = slice_chars(&cs, i + 1, cs.len());
    assert(host@ == cidr@.take(i as int));
    assert(prefix@ == cidr@.skip(i + 1));
    let ip = match parse_ipv4(host.as_str()) {
        Some(ip) => ip,
        None => {
            let mut message = String::new();
            push_str(&mut message, "invalid IPv4 host address '");
            push_str(&mut message, host.as_str());
            push_str(&mut message, "'");
            return Err(CoreError::ValidationFailed { message });
        },
    };
    let n = match parse_unsigned(prefix.as_str(), 255) {
        Some(n) => n,
        None => {
            let mut message = String::new();
            push_str(&mut message, "invalid IPv4 prefix length '");
            push_str(&mut message, prefix.as_str());
            push_str(&mut message, "'");
            return Err(CoreError::ValidationFailed { message });
        },
    };
    if n > 32 {
        let mut message = String::new();
        push_str(&mut message, "IPv4 prefix length must be <= 32, got ");
        let t = u64_to_decimal(n);
        push_str(&mut message, t.as_str());
        return Err(CoreError::ValidationFailed { message });
    }
    Ok((ip, n as u8))
}


// ── IPv6 ─────────────────────────────────────────────────────────────

/// A hexadecimal digit, either case.
pub open spec fn is_hex(c: char) -> bool {
    ('0' <= c && c <= '9') || ('a' <= c && c <= 'f') || ('A' <= c && c <= 'F')
}

/// Value of a hexadecimal digit.
pub open spec fn hex_value(c: char) -> nat {
    if '0' <= c && c <= '9' {
        (c as int - '0' as int) as nat
    } else if 'a' <= c && c <= 'f' {
        (c as int - 'a' as int + 10) as nat
    } else {
        (c as int - 'A' as int + 10) as nat
    }
}

/// Value of a run of hexadecimal digits.
pub open spec fn hex_digits_value(s: Seq<char>) -> nat
    decreases s.len(),
{
    if s.len() == 0 {
        0
    } else {
        hex_digits_value(s.drop_last()) * 16 + hex_value(s.last())
    }
}

/// A group of an IPv6 text: one to four hexadecimal digits.
pub open spec fn hex_group(p: Seq<char>) -> Option<u16> {
    if 1 <= p.len() <= 4 && forall|j: int| 0 <= j < p.len() ==> is_hex(#[trigger] p[j]) {
        Some(hex_digits_value(p) as u16)
    } else {
        None
    }
}

/// The two 16-bit groups an embedded IPv4 address fills.
pub open spec fn ipv4_groups(ip: Ipv4) -> Seq<u16> {
    seq![(ip.a as int * 256 + ip.b as int) as u16, (ip.c as int * 256 + ip.d as int) as u16]
}

/// The 16-bit groups a run of `:`-separated pieces denotes: each piece a hex
/// group, except that the last may be a dot-decimal IPv4 address (filling two
/// groups) when `v4_last` holds.
pub open spec fn group_values(pieces: Seq<Seq<char>>, v4_last: bool) -> Option<Seq<u16>>
    decreases pieces.len(),
{
    if pieces.len() == 0 {
        Some(Seq::empty())
    } else if pieces.len() == 1 && v4_last && spec_parse_ipv4(pieces[0]) is Some {
        Some(ipv4_groups(spec_parse_ipv4(pieces[0])->Some_0))
    } else {
        match hex_group(pieces[0]) {
            Some(g) => match group_values(pieces.drop_first(), v4_last) {
                Some(r) => Some(seq![g] + r),
                None => None,
            },
            None => None,
        }
    }
}

/// `s` holds `::` at `j`.
pub open spec fn dc_at(s: Seq<char>, j: int) -> bool {
    s[j] == ':' && s[j + 1] == ':'
}

/// Position of the first `::` in `s`.
pub open spec fn double_colon_pos(s: Seq<char>) -> Option<int>
    decreases s.len(),
{
    if s.len() < 2 {
        None
    } else if s[0] == ':' && s[1] == ':' {
        Some(0)
    } else {
        match double_colon_pos(s.drop_first()) {
            Some(i) => Some(i + 1),
            None => None,
        }
    }
}

/// Groups of the side of a `::` in an IPv6 text: none when the side is empty.
pub open spec fn side_values(side: Seq<char>, v4_last: bool) -> Option<Seq<u16>> {
    if side.len() == 0 {
        Some(Seq::empty())
    } else {
        group_values(segments(side, ':'), v4_last)
    }
}

/// The eight 16-bit groups an IPv6 text denotes, as `std` reads it: eight
/// groups (the last two may be an IPv4 address), or a `::` standing for one
/// or more zero groups between a head of groups and a tail of groups (only the
/// tail may end in an IPv4 address).
pub open spec fn spec_parse_ipv6(s: Seq<char>) -> Option<Seq<u16>> {
    match double_colon_pos(s) {
        None => match group_values(segments(s, ':'), true) {
            Some(g) if g.len() == 8 => Some(g),
            _ => None,
        },
        Some(i) => match (side_values(s.take(i), false), side_values(s.skip(i + 2), true)) {
            (Some(h), Some(t)) if h.len() + t.len() <= 7 => Some(
                h + Seq::new((8 - h.len() - t.len()) as nat, |k: int| 0u16) + t,
            ),
            _ => None,
        },
    }
}

/// An IPv6 address, by its eight 16-bit groups.
#[derive(Debug, Clone, Copy, PartialEq, Eq)]
pub struct Ipv6 {
    pub groups: [u16; 8],
}

/// An IPv4 or IPv6 address.
#[derive(Debug, Clone, Copy, PartialEq, Eq)]
pub enum IpAddress {
    V4(Ipv4),
    V6(Ipv6),
}

/// `ip` is the address text `t` denotes: IPv4 when `t` reads as one, else IPv6.
pub open spec fn ip_matches(ip: IpAddress, t: Seq<char>) -> bool {
    match ip {
        IpAddress::V4(a) => spec_parse_ipv4(t) == Some(a),
        IpAddress::V6(a) => spec_parse_ipv4(t) is None && spec_parse_ipv6(t) == Some(a.groups@),
    }
}

/// A text denotes an IPv4 or IPv6 address.
pub open spec fn is_ip_text(t: Seq<char>) -> bool {
    spec_parse_ipv4(t) is Some || spec_parse_ipv6(t) is Some
}

fn hex_char_value(c: char) -> (res: Option<u16>)
    ensures
        match res {
            Some(v) => is_hex(c) && v == hex_value(c) && v < 16,
            None => !is_hex(c),
        },
{
    if '0' <= c && c <= '9' {
        Some((c as u32 - '0' as u32) as u16)
    } else if 'a' <= c && c <= 'f' {
        Some((c as u32 - 'a' as u32 + 10) as u16)
    } else if 'A' <= c && c <= 'F' {
        Some((c as u32 - 'A' as u32 + 10) as u16)
    } else {
        None
    }
}

proof fn lemma_hex_digits_bound(s: Seq<char>)
    requires
        forall|j: int| 0 <= j < s.len() ==> is_hex(#[trigger] s[j]),
        s.len() <= 4,
    ensures
        hex_digits_value(s) < 65536,
        s.len() <= 3 ==> hex_digits_value(s) < 4096,
        s.len() <= 2 ==> hex_digits_value(s) < 256,
        s.len() <= 1 ==> hex_digits_value(s) < 16,
    decreases s.len(),
{
    if s.len() > 0 {
        assert forall|j: int| 0 <= j < s.drop_last().len() implies is_hex(#[trigger] s.drop_last()[j]) by {
            assert(s.drop_last()[j] == s[j]);
        }
        lemma_hex_digits_bound(s.drop_last());
        assert(is_hex(s[s.len() - 1]));
    }
}

/// Reads a group of one to four hexadecimal digits.
pub fn parse_hex_group(p: &str) -> (res: Option<u16>)
    ensures
        res == hex_group(p@),
{
    let cs = chars_of(p);
    if cs.len() < 1 || cs.len() > 4 {
        return None;
    }
    let mut acc: u16 = 0;
    let mut i: usize = 0;
    while i < cs.len()
        invariant
            cs@ == p@,
            1 <= cs@.len() <= 4,
            i <= cs@.len(),
            forall|j: int| 0 <= j < i ==> is_hex(#[trigger] p@[j]),
            acc as nat == hex_digits_value(p@.take(i as int)),
        decreases cs.len() - i,
    {
        let d = match hex_char_value(cs[i]) {
            Some(d) => d,
            None => {
                return None;
            },
        };
        proof {
            assert(p@.take(i + 1).drop_last() =~= p@.take(i as int));
            assert forall|j: int| 0 <= j < p@.take(i as int).len() implies is_hex(#[trigger] p@.take(i as int)[j]) by {}
            lemma_hex_digits_bound(p@.take(i as int));
        }
        assert(acc < 4096);
        acc = acc * 16 + d;
        i = i + 1;
    }
    assert(p@.take(cs.len() as int) =~= p@);
    Some(acc)
}

fn ipv4_group_values(ip: Ipv4) -> (res: (u16, u16))
    ensures
        seq![res.0, res.1] == ipv4_groups(ip),
{
    let hi = (ip.a as u16) * 256 + ip.b as u16;
    let lo = (ip.c as u16) * 256 + ip.d as u16;
    (hi, lo)
}

/// Reads the groups of a run of `:`-separated pieces (see [`group_values`]).
fn parse_groups(pieces: &Vec<String>, v4_last: bool) -> (res: Option<Vec<u16>>)
    ensures
        match res {
            Some(v) => group_values(string_views(pieces@), v4_last) == Some(v@),
            None => group_values(string_views(pieces@), v4_last) is None,
        },
{
    let ghost ps = string_views(pieces@);
    let mut out: Vec<u16> = Vec::new();
    let mut i: usize = 0;
    assert(ps.skip(0) =~= ps);
    while i < pieces.len()
        invariant
            ps == string_views(pieces@),
            ps.len() == pieces@.len(),
            i <= pieces.len(),
            group_values(ps, v4_last) == match group_values(ps.skip(i as int), v4_last) {
                Some(r) => Some(out@ + r),
                None => None,
            },
        decreases pieces.len() - i,
    {
        let ghost rest = ps.skip(i as int);
        assert(rest[0] == pieces@[i as int]@);
        assert(rest.drop_first() =~= ps.skip(i + 1));
        if i + 1 == pieces.len() && v4_last {
            if let Some(ip) = parse_ipv4(pieces[i].as_str()) {
                let (hi, lo) = ipv4_group_values(ip);
                let ghost before = out@;
                out.push(hi);
                out.push(lo);
                assert(ps.skip(i + 1).len() == 0);
                assert(out@ =~= before + ipv4_groups(ip));
                assert(ps.skip(i + 1) =~= Seq::<Seq<char>>::empty());
                assert(out@ =~= out@ + Seq::<u16>::empty());
                return Some(out);
            }
        }
        let g = match parse_hex_group(pieces[i].as_str()) {
            Some(g) => g,
            None => {
                return None;
            },
        };
        let ghost before = out@;
        out.push(g);
        proof {
            match group_values(ps.skip(i + 1), v4_last) {
                Some(r) => {
                    assert(before + (seq![g] + r) =~= out@ + r);
                },
                None => {},
            }
        }
        i = i + 1;
    }
    assert(ps.skip(pieces.len() as int) =~= Seq::<Seq<char>>::empty());
    assert(out@ + Seq::<u16>::empty() =~= out@);
    Some(out)
}

pub(crate) proof fn lemma_double_colon_at(s: Seq<char>, i: int)
    requires
        0 <= i,
        i + 1 < s.len(),
        s[i] == ':' && s[i + 1] == ':',
        forall|j: int| 0 <= j < i ==> !#[trigger] dc_at(s, j),
    ensures
        double_colon_pos(s) == Some(i),
    decreases i,
{
    if i > 0 {
        assert forall|j: int| 0 <= j < i - 1 implies !#[trigger] dc_at(s.drop_first(), j) by {
            assert(s.drop_first()[j] == s[j + 1]);
            assert(s.drop_first()[j + 1] == s[j + 2]);
            assert(!dc_at(s, j + 1));
        }
        assert(!dc_at(s, 0));
        lemma_double_colon_at(s.drop_first(), i - 1);
    }
}

pub(crate) proof fn lemma_double_colon_none(s: Seq<char>)
    requires
        forall|j: int| 0 <= j && j + 1 < s.len() ==> !#[trigger] dc_at(s, j),
    ensures
        double_colon_pos(s) is None,
    decreases s.len(),
{
    if s.len() >= 2 {
        assert forall|j: int| 0 <= j && j + 1 < s.drop_first().len() implies !#[trigger] dc_at(s.drop_first(), j) by {
            assert(s.drop_first()[j] == s[j + 1]);
            assert(s.drop_first()[j + 1] == s[j + 2]);
            assert(!dc_at(s, j + 1));
        }
        assert(!dc_at(s, 0));
        lemma_double_colon_none(s.drop_first());
    }
}

fn find_double_colon(cs: &Vec<char>) -> (res: Option<usize>)
    ensures
        match res {
            Some(i) => double_colon_pos(cs@) == Some(i as int) && i + 1 < cs@.len(),
            None => double_colon_pos(cs@) is None,
        },
{
    let mut i: usize = 0;
    while cs.len() > 1 && i < cs.len() - 1
        invariant
            i <= cs@.len(),
            forall|j: int| 0 <= j < i && j + 1 < cs@.len() ==> !#[trigger] dc_at(cs@, j),
        decreases cs.len() - i,
    {
        if cs[i] == ':' && cs[i + 1] == ':' {
            proof {
                lemma_double_colon_at(cs@, i as int);
            }
            return Some(i);
        }
        i = i + 1;
    }
    proof {
        lemma_double_colon_none(cs@);
    }
    None
}

fn parse_side(side: &str, v4_last: bool) -> (res: Option<Vec<u16>>)
    ensures
        match res {
            Some(v) => side_values(side@, v4_last) == Some(v@),
            None => side_values(side@, v4_last) is None,
        },
{
    if is_empty_text(side) {
        return Some(Vec::new());
    }
    let pieces = split_on(side, ':');
    parse_groups(&pieces, v4_last)
}

fn groups_array(g: &Vec<u16>) -> (res: Ipv6)
    requires
        g@.len() == 8,
    ensures
        res.groups@ == g@,
{
    let a = [g[0], g[1], g[2], g[3], g[4], g[5], g[6], g[7]];
    assert(a@ =~= g@);
    Ipv6 { groups: a }
}

/// Parses an IPv6 text (see [`spec_parse_ipv6`]).
pub fn parse_ipv6(s: &str) -> (res: Option<Ipv6>)
    ensures
        match res {
            Some(ip) => spec_parse_ipv6(s@) == Some(ip.groups@),
            None => spec_parse_ipv6(s@) is None,
        },
{
    let cs = chars_of(s);
    match find_double_colon(&cs) {
        None => {
            let pieces = split_on(s, ':');
            match parse_groups(&pieces, true) {
                Some(g) => if g.len() == 8 {
                    Some(groups_array(&g))
                } else {
                    None
                },
                None => None,
            }
        },
        Some(i) => {
            let head = slice_chars(&cs, 0, i);
            let tail = slice_chars(&cs, i + 2, cs.len());
            assert(head@ =~= s@.take(i as int));
            assert(tail@ =~= s@.skip(i + 2));
            let h = match parse_side(head.as_str(), false) {
                Some(h) => h,
                None => {
                    return None;
                },
            };
            let t = match parse_side(tail.as_str(), true) {
                Some(t) => t,
                None => {
                    return None;
                },
            };
            if h.len() > 7 || t.len() > 7 - h.len() {
                return None;
            }
            let zeros = 8 - h.len() - t.len();
            let mut g = h;
            let ghost hv = g@;
            let mut k: usize = 0;
            while k < zeros
                invariant
                    k <= zeros,
                    g@ == hv + Seq::new(k as nat, |j: int| 0u16),
                decreases zeros - k,
            {
                g.push(0);
                k = k + 1;
                assert(g@ =~= hv + Seq::new(k as nat, |j: int| 0u16));
            }
            let mut j: usize = 0;
            let ghost mid = g@;
            while j < t.len()
                invariant
                    j <= t@.len(),
                    g@ == mid + t@.take(j as int),
                decreases t.len() - j,
            {
                g.push(t[j]);
                j = j + 1;
                assert(g@ =~= mid + t@.take(j as int));
            }
            assert(t@.take(t@.len() as int) =~= t@);
            Some(groups_array(&g))
        },
    }
}

/// Parses an IPv4 or IPv6 address, as `std`'s `IpAddr` reads one.
pub fn parse_ip(s: &str) -> (res: Option<IpAddress>)
    ensures
        match res {
            Some(ip) => ip_matches(ip, s@),
            None => !is_ip_text(s@),
        },
{
    match parse_ipv4(s) {
        Some(ip) => Some(IpAddress::V4(ip)),
        None => match parse_ipv6(s) {
            Some(ip) => Some(IpAddress::V6(ip)),
            None => None,
        },
    }
}

} // verus!
