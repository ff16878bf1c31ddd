//! The text form of IPv6 addresses: lowercase hexadecimal groups without
//! leading zeros, the first longest run of two or more zero groups written
//! as `::`, and IPv4-mapped addresses as `::ffff:a.b.c.d`.
use vstd::prelude::*;

use super::{
    dc_at, double_colon_pos, group_values, hex_digits_value, hex_group, hex_value, ipv4_groups, ipv4_text, is_hex,
    lemma_double_colon_at, lemma_double_colon_none, lemma_ipv4_text_round_trip, side_values, spec_parse_ipv4,
    spec_parse_ipv6, Ipv4, Ipv6,
};
use crate::text::{lemma_segments_concat, lemma_segments_single, segments};
use crate::text::{char_of_hex, hex_digit, push_char, push_str};

verus! {

/// Lowercase hexadecimal digits of `n`, without leading zeros (`0` for zero).
pub open spec fn hex_text(n: nat) -> Seq<char>
    decreases n,
{
    if n < 16 {
        seq![hex_digit(n)]
    } else {
        hex_text(n / 16).push(hex_digit(n % 16))
    }
}

/// Groups in hexadecimal, separated by `:`.
pub open spec fn groups_text(g: Seq<u16>) -> Seq<char>
    decreases g.len(),
{
    if g.len() == 0 {
        Seq::empty()
    } else if g.len() == 1 {
        hex_text(g[0] as nat)
    } else {
        groups_text(g.drop_last()) + seq![':'] + hex_text(g.last() as nat)
    }
}

/// Number of consecutive zero groups from position `s` on.
pub open spec fn zeros_from(g: Seq<u16>, s: int) -> nat
    decreases g.len() - s,
{
    if 0 <= s < g.len() && g[s] == 0 {
        1 + zeros_from(g, s + 1)
    } else {
        0
    }
}

/// `s` starts the first of the longest runs of zero groups.
pub open spec fn is_longest_zero_run(g: Seq<u16>, s: int) -> bool {
    &&& 0 <= s < g.len()
    &&& forall|j: int| 0 <= j < g.len() ==> #[trigger] zeros_from(g, j) <= zeros_from(g, s)
    &&& forall|j: int| 0 <= j < s ==> #[trigger] zeros_from(g, j) < zeros_from(g, s)
}

/// The address is IPv4-mapped: `::ffff:` followed by 32 bits.
pub open spec fn is_ipv4_mapped(g: Seq<u16>) -> bool {
    g.len() == 8 && g[0] == 0 && g[1] == 0 && g[2] == 0 && g[3] == 0 && g[4] == 0 && g[5] == 0xffff
}

/// The IPv4 address in the low 32 bits of an address.
pub open spec fn mapped_ipv4(g: Seq<u16>) -> Ipv4 {
    Ipv4 { a: (g[6] / 256) as u8, b: (g[6] % 256) as u8, c: (g[7] / 256) as u8, d: (g[7] % 256) as u8 }
}

/// The text `std` displays for an IPv6 address.
pub open spec fn ipv6_text(g: Seq<u16>) -> Seq<char> {
    if is_ipv4_mapped(g) {
        seq![':', ':', 'f', 'f', 'f', 'f', ':'] + ipv4_text(mapped_ipv4(g))
    } else {
        let s = choose|s: int| is_longest_zero_run(g, s);
        let l = zeros_from(g, s);
        if l > 1 {
            groups_text(g.take(s)) + seq![':', ':'] + groups_text(g.skip(s + l))
        } else {
            groups_text(g)
        }
    }
}

/// A unicast link-local address (`fe80::/10`).
pub open spec fn is_unicast_link_local(g: Seq<u16>) -> bool {
    0xfe80 <= g[0] <= 0xfebf
}

fn push_hex(s: &mut String, n: u16)
    ensures
        final(s)@ == old(s)@ + hex_text(n as nat),
    decreases n,
{
    if n >= 16 {
        push_hex(s, n / 16);
    }
    let c = char_of_hex((n % 16) as u64);
    let ghost mid = s@;
    push_char(s, c);
    proof {
        if n >= 16 {
            assert(hex_text(n as nat) == hex_text((n / 16) as nat).push(c));
        } else {
            assert(hex_text(n as nat) == seq![c]);
        }
    }
    assert(s@ =~= old(s)@ + hex_text(n as nat));
}

fn push_groups(s: &mut String, g: &[u16; 8], from: usize, to: usize)
    requires
        from <= to <= 8,
    ensures
        final(s)@ == old(s)@ + groups_text(g@.subrange(from as int, to as int)),
{
    let mut i: usize = from;
    assert(g@.subrange(from as int, from as int) =~= Seq::<u16>::empty());
    assert(s@ =~= old(s)@ + groups_text(g@.subrange(from as int, from as int)));
    while i < to
        invariant
            from <= i <= to <= 8,
            s@ == old(s)@ + groups_text(g@.subrange(from as int, i as int)),
        decreases to - i,
    {
        let ghost prefix = g@.subrange(from as int, i as int);
        let ghost next = g@.subrange(from as int, i + 1);
        assert(next.drop_last() =~= prefix);
        assert(next.last() == g@[i as int]);
        if i > from {
            push_char(s, ':');
        }
        push_hex(s, g[i]);
        proof {
            if i > from {
                assert(groups_text(next) == groups_text(prefix) + seq![':'] + hex_text(g@[i as int] as nat));
            } else {
                assert(next =~= seq![g@[i as int]]);
            }
        }
        assert(s@ =~= old(s)@ + groups_text(next));
        i = i + 1;
    }
}

fn zeros_at(g: &[u16; 8], s: usize) -> (n: usize)
    requires
        s <= 8,
    ensures
        n == zeros_from(g@, s as int),
        n <= 8 - s,
{
    let mut j: usize = s;
    while j < 8 && g[j] == 0
        invariant
            s <= j <= 8,
            g@.len() == 8,
            zeros_from(g@, s as int) == (j - s) + zeros_from(g@, j as int),
        decreases 8 - j,
    {
        j = j + 1;
    }
    j - s
}

proof fn lemma_longest_unique(g: Seq<u16>, s1: int, s2: int)
    requires
        is_longest_zero_run(g, s1),
        is_longest_zero_run(g, s2),
    ensures
        s1 == s2,
{
    assert(zeros_from(g, s1) <= zeros_from(g, s2));
    assert(zeros_from(g, s2) <= zeros_from(g, s1));
    if s1 < s2 {
        assert(zeros_from(g, s1) < zeros_from(g, s2));
    }
    if s2 < s1 {
        assert(zeros_from(g, s2) < zeros_from(g, s1));
    }
}

fn longest_zero_run(g: &[u16; 8]) -> (res: (usize, usize))
    ensures
        is_longest_zero_run(g@, res.0 as int),
        res.1 == zeros_from(g@, res.0 as int),
        res.0 + res.1 <= 8,
{
    let mut best_s: usize = 0;
    let mut best_l: usize = zeros_at(g, 0);
    let mut i: usize = 1;
    while i < 8
        invariant
            1 <= i <= 8,
            g@.len() == 8,
            best_s < i,
            best_l == zeros_from(g@, best_s as int),
            best_s + best_l <= 8,
            forall|j: int| 0 <= j < i ==> #[trigger] zeros_from(g@, j) <= best_l,
            forall|j: int| 0 <= j < best_s ==> #[trigger] zeros_from(g@, j) < best_l,
        decreases 8 - i,
    {
        let l = zeros_at(g, i);
        if l > best_l {
            best_s = i;
            best_l = l;
        }
        i = i + 1;
    }
    (best_s, best_l)
}

impl Ipv6 {
    /// The text `std` displays for the address.
    pub fn to_text(&self) -> (res: String)
        ensures
            res@ == ipv6_text(self.groups@),
    {
        let g = &self.groups;
        let mut s = String::new();
        if g[0] == 0 && g[1] == 0 && g[2] == 0 && g[3] == 0 && g[4] == 0 && g[5] == 0xffff {
            push_str(&mut s, "::ffff:");
            let v4 = Ipv4 { a: (g[6] / 256) as u8, b: (g[6] % 256) as u8, c: (g[7] / 256) as u8, d: (g[7] % 256) as u8 };
            let t = v4.to_text();
            push_str(&mut s, t.as_str());
            proof {
                reveal_strlit("::ffff:");
            }
            assert(s@ =~= ipv6_text(g@));
            return s;
        }
        let (start, len) = longest_zero_run(g);
        proof {
            lemma_longest_unique(g@, start as int, choose|x: int| is_longest_zero_run(g@, x));
        }
        if len > 1 {
            push_groups(&mut s, g, 0, start);
            push_char(&mut s, ':');
            push_char(&mut s, ':');
            push_groups(&mut s, g, start + len, 8);
            assert(g@.subrange(0, start as int) =~= g@.take(start as int));
            assert(g@.subrange((start + len) as int, 8) =~= g@.skip(start + len));
        } else {
            push_groups(&mut s, g, 0, 8);
            assert(g@.subrange(0, 8) =~= g@);
        }
        assert(s@ =~= ipv6_text(g@));
        s
    }

    /// Whether the address is unicast link-local (`fe80::/10`).
    pub fn is_unicast_link_local(&self) -> (res: bool)
        ensures
            res == is_unicast_link_local(self.groups@),
    {
        0xfe80 <= self.groups[0] && self.groups[0] <= 0xfebf
    }
}

// ── reading the text back ──────────────────────────────────────────

proof fn lemma_hex_text(n: nat)
    requires
        n < 0x10000,
    ensures
        1 <= hex_text(n).len() <= 4,
        n < 16 ==> hex_text(n).len() == 1,
        n < 256 ==> hex_text(n).len() <= 2,
        n < 4096 ==> hex_text(n).len() <= 3,
        forall|j: int| 0 <= j < hex_text(n).len() ==> is_hex(#[trigger] hex_text(n)[j]),
        hex_digits_value(hex_text(n)) == n,
    decreases n,
{
    let c = hex_digit(n % 16);
    assert(hex_value(c) == n % 16) by {
        if n % 16 < 10 {
            assert(c as u32 == n % 16 + 48);
        } else {
            assert(c as u32 == n % 16 + 87);
        }
    }
    assert(is_hex(c)) by {
        if n % 16 < 10 {
            assert(c as u32 == n % 16 + 48);
        } else {
            assert(c as u32 == n % 16 + 87);
        }
    }
    if n < 16 {
        assert(hex_text(n) == seq![c]);
        assert(hex_text(n).drop_last() =~= Seq::<char>::empty());
        assert(hex_digits_value(hex_text(n)) == hex_digits_value(Seq::<char>::empty()) * 16 + hex_value(c));
        assert(n % 16 == n);
    } else {
        lemma_hex_text(n / 16);
        let t = hex_text(n / 16);
        assert(hex_text(n) == t.push(c));
        assert(hex_text(n).drop_last() =~= t);
        assert(n == (n / 16) * 16 + n % 16);
        assert(hex_digits_value(hex_text(n)) == hex_digits_value(t) * 16 + hex_value(c));
        assert forall|j: int| 0 <= j < hex_text(n).len() implies is_hex(#[trigger] hex_text(n)[j]) by {
            if j < t.len() {
                assert(hex_text(n)[j] == t[j]);
            }
        }
    }
}

/// The text of a group reads back as the group.
proof fn lemma_hex_group_round_trip(n: u16)
    ensures
        hex_group(hex_text(n as nat)) == Some(n),
        hex_text(n as nat).len() >= 1,
        forall|j: int| 0 <= j < hex_text(n as nat).len() ==> is_hex(#[trigger] hex_text(n as nat)[j]),
{
    lemma_hex_text(n as nat);
}

/// The texts of groups, one piece each.
pub open spec fn group_pieces(g: Seq<u16>) -> Seq<Seq<char>> {
    g.map_values(|n: u16| hex_text(n as nat))
}

/// A text made of hex digits and single `:` separators, starting and ending
/// with a digit.
pub open spec fn well_spaced(s: Seq<char>) -> bool {
    &&& s.len() > 0
    &&& is_hex(s[0])
    &&& is_hex(s.last())
    &&& forall|j: int| 0 <= j < s.len() ==> #[trigger] s[j] == ':' || is_hex(s[j])
    &&& forall|j: int| 0 <= j && j + 1 < s.len() ==> !#[trigger] dc_at(s, j)
}

proof fn lemma_groups_text_shape(g: Seq<u16>)
    requires
        g.len() >= 1,
    ensures
        well_spaced(groups_text(g)),
        segments(groups_text(g), ':') == group_pieces(g),
    decreases g.len(),
{
    lemma_hex_group_round_trip(g.last());
    let h = hex_text(g.last() as nat);
    assert forall|j: int| 0 <= j < h.len() implies #[trigger] h[j] != ':' by {
        assert(is_hex(h[j]));
    }
    if g.len() == 1 {
        assert(groups_text(g) == h);
        lemma_segments_single(h, ':');
        assert(group_pieces(g) =~= seq![h]);
    } else {
        lemma_groups_text_shape(g.drop_last());
        let p = groups_text(g.drop_last());
        let t = groups_text(g);
        assert(t == p + seq![':'] + h);
        assert(t.len() == p.len() + 1 + h.len());
        assert forall|j: int| 0 <= j < t.len() implies #[trigger] t[j] == ':' || is_hex(t[j]) by {
            if j < p.len() {
                assert(t[j] == p[j]);
            } else if j > p.len() {
                assert(t[j] == h[j - p.len() - 1]);
            }
        }
        assert forall|j: int| 0 <= j && j + 1 < t.len() implies !#[trigger] dc_at(t, j) by {
            if j + 1 < p.len() {
                assert(t[j] == p[j] && t[j + 1] == p[j + 1]);
                assert(!dc_at(p, j));
            } else if j + 1 == p.len() {
                assert(t[j] == p.last());
            } else if j == p.len() {
                assert(t[j + 1] == h[0]);
            } else {
                assert(t[j] == h[j - p.len() - 1]);
            }
        }
        assert(t[0] == p[0]);
        assert(t.last() == h.last());
        lemma_segments_single(h, ':');
        lemma_segments_concat(p, ':', h);
        assert(group_pieces(g) =~= group_pieces(g.drop_last()).push(h));
        assert(segments(t, ':') =~= group_pieces(g.drop_last()) + seq![h]);
    }
}

proof fn lemma_group_values_of_pieces(g: Seq<u16>, v4_last: bool)
    ensures
        group_values(group_pieces(g), v4_last) == Some(g),
    decreases g.len(),
{
    if g.len() > 0 {
        lemma_hex_group_round_trip(g[0]);
        let h = hex_text(g[0] as nat);
        assert(group_pieces(g)[0] == h);
        assert forall|j: int| 0 <= j < h.len() implies #[trigger] h[j] != '.' by {
            assert(is_hex(h[j]));
        }
        lemma_segments_single(h, '.');
        assert(spec_parse_ipv4(h) is None);
        lemma_group_values_of_pieces(g.drop_first(), v4_last);
        assert(group_pieces(g).drop_first() =~= group_pieces(g.drop_first()));
        assert(seq![g[0]] + g.drop_first() =~= g);
    } else {
        assert(group_pieces(g) =~= Seq::<Seq<char>>::empty());
        assert(g =~= Seq::<u16>::empty());
    }
}

proof fn lemma_zero_run(g: Seq<u16>, s: int)
    requires
        0 <= s,
    ensures
        s + zeros_from(g, s) <= g.len() || zeros_from(g, s) == 0,
        forall|k: int| s <= k < s + zeros_from(g, s) ==> #[trigger] g[k] == 0,
    decreases g.len() - s,
{
    if 0 <= s < g.len() && g[s] == 0 {
        lemma_zero_run(g, s + 1);
    }
}

proof fn lemma_longest_upto(g: Seq<u16>, i: int) -> (b: int)
    requires
        1 <= i <= g.len(),
    ensures
        0 <= b < i,
        forall|j: int| 0 <= j < i ==> #[trigger] zeros_from(g, j) <= zeros_from(g, b),
        forall|j: int| 0 <= j < b ==> #[trigger] zeros_from(g, j) < zeros_from(g, b),
    decreases i,
{
    if i == 1 {
        0
    } else {
        let b = lemma_longest_upto(g, i - 1);
        if zeros_from(g, i - 1) > zeros_from(g, b) {
            i - 1
        } else {
            b
        }
    }
}

proof fn lemma_ipv4_text_no_colon(v4: Ipv4)
    ensures
        forall|j: int| 0 <= j < ipv4_text(v4).len() ==> #[trigger] ipv4_text(v4)[j] != ':',
{
    reveal_strlit(".");
    let da = crate::text::decimal(v4.a as nat);
    let db = crate::text::decimal(v4.b as nat);
    let dc = crate::text::decimal(v4.c as nat);
    let dd = crate::text::decimal(v4.d as nat);
    crate::text::lemma_decimal_digits(v4.a as nat);
    crate::text::lemma_decimal_digits(v4.b as nat);
    crate::text::lemma_decimal_digits(v4.c as nat);
    crate::text::lemma_decimal_digits(v4.d as nat);
    let vt = ipv4_text(v4);
    let dot = seq!['.'];
    assert(vt =~= da + dot + db + dot + dc + dot + dd);
    assert forall|j: int| 0 <= j < vt.len() implies #[trigger] vt[j] != ':' by {
        if j < da.len() {
            assert(vt[j] == da[j]);
            assert(crate::text::is_digit(da[j]));
        } else if j == da.len() {
        } else if j < da.len() + 1 + db.len() {
            assert(vt[j] == db[j - da.len() - 1]);
            assert(crate::text::is_digit(db[j - da.len() - 1]));
        } else if j == da.len() + 1 + db.len() {
        } else if j < da.len() + db.len() + 2 + dc.len() {
            assert(vt[j] == dc[j - da.len() - db.len() - 2]);
            assert(crate::text::is_digit(dc[j - da.len() - db.len() - 2]));
        } else if j == da.len() + db.len() + 2 + dc.len() {
        } else {
            assert(vt[j] == dd[j - da.len() - db.len() - dc.len() - 3]);
            assert(crate::text::is_digit(dd[j - da.len() - db.len() - dc.len() - 3]));
        }
    }
}

proof fn lemma_mapped_text_reads_back(g: Seq<u16>)
    requires
        g.len() == 8,
        is_ipv4_mapped(g),
    ensures
        spec_parse_ipv6(ipv6_text(g)) == Some(g),
{
    let text = ipv6_text(g);
    let v4 = mapped_ipv4(g);
    lemma_ipv4_text_round_trip(v4);
    lemma_ipv4_text_no_colon(v4);
    let vt = ipv4_text(v4);
    let ffff = seq!['f', 'f', 'f', 'f'];
    let tail = ffff + seq![':'] + vt;
    assert(text =~= seq![':', ':'] + tail);
    assert(double_colon_pos(text) == Some(0int));
    assert(text.take(0) =~= Seq::<char>::empty());
    assert(text.skip(2) =~= tail);
    assert forall|j: int| 0 <= j < ffff.len() implies #[trigger] ffff[j] != ':' by {}
    lemma_segments_single(ffff, ':');
    lemma_segments_single(vt, ':');
    lemma_segments_concat(ffff, ':', vt);
    let pieces = segments(tail, ':');
    assert(pieces =~= seq![ffff, vt]);
    assert(hex_digits_value(ffff) == 0xffff) by {
        assert(ffff.drop_last() =~= seq!['f', 'f', 'f']);
        assert(ffff.drop_last().drop_last() =~= seq!['f', 'f']);
        assert(ffff.drop_last().drop_last().drop_last() =~= seq!['f']);
        assert(seq!['f'].drop_last() =~= Seq::<char>::empty());
        reveal_with_fuel(hex_digits_value, 5);
    }
    assert(hex_group(ffff) == Some(0xffffu16));
    assert(pieces.drop_first() =~= seq![vt]);
    assert(ipv4_groups(v4) =~= seq![g[6], g[7]]);
    assert(group_values(pieces.drop_first(), true) == Some(seq![g[6], g[7]]));
    assert(seq![0xffffu16] + seq![g[6], g[7]] =~= seq![0xffffu16, g[6], g[7]]);
    assert(side_values(tail, true) == Some(seq![0xffffu16, g[6], g[7]]));
    assert(Seq::<u16>::empty() + Seq::new(5, |k: int| 0u16) + seq![0xffffu16, g[6], g[7]] =~= g);
}

proof fn lemma_compressed_text_reads_back(g: Seq<u16>, s: int, l: int)
    requires
        g.len() == 8,
        0 <= s,
        l > 1,
        s + l <= 8,
        forall|k: int| s <= k < s + l ==> #[trigger] g[k] == 0,
    ensures
        spec_parse_ipv6(groups_text(g.take(s)) + seq![':', ':'] + groups_text(g.skip(s + l))) == Some(g),
{
    let a = groups_text(g.take(s));
    let bt = groups_text(g.skip(s + l));
    let text = a + seq![':', ':'] + bt;
    assert(text[a.len() as int] == ':' && text[a.len() as int + 1] == ':');
    if s > 0 {
        lemma_groups_text_shape(g.take(s));
        assert forall|j: int| 0 <= j < a.len() implies !#[trigger] dc_at(text, j) by {
            assert(text[j] == a[j]);
            if j + 1 < a.len() {
                assert(text[j + 1] == a[j + 1]);
                assert(!dc_at(a, j));
            } else {
                assert(text[j] == a.last());
            }
        }
        lemma_group_values_of_pieces(g.take(s), false);
    } else {
        assert(g.take(s) =~= Seq::<u16>::empty());
    }
    lemma_double_colon_at(text, a.len() as int);
    assert(text.take(a.len() as int) =~= a);
    assert(text.skip(a.len() as int + 2) =~= bt);
    if s + l < 8 {
        lemma_groups_text_shape(g.skip(s + l));
        lemma_group_values_of_pieces(g.skip(s + l), true);
    } else {
        assert(g.skip(s + l) =~= Seq::<u16>::empty());
    }
    assert(g.take(s) + Seq::new(l as nat, |k: int| 0u16) + g.skip(s + l) =~= g);
}

proof fn lemma_plain_text_reads_back(g: Seq<u16>)
    requires
        g.len() == 8,
    ensures
        spec_parse_ipv6(groups_text(g)) == Some(g),
{
    lemma_groups_text_shape(g);
    lemma_double_colon_none(groups_text(g));
    lemma_group_values_of_pieces(g, true);
}

/// The text of an IPv6 address reads back as the same address.
pub proof fn lemma_ipv6_text_round_trip(g: Seq<u16>)
    requires
        g.len() == 8,
    ensures
        spec_parse_ipv6(ipv6_text(g)) == Some(g),
{
    if is_ipv4_mapped(g) {
        lemma_mapped_text_reads_back(g);
    } else {
        let b = lemma_longest_upto(g, 8);
        assert(is_longest_zero_run(g, b));
        let s = choose|s: int| is_longest_zero_run(g, s);
        lemma_longest_unique(g, s, b);
        let l = zeros_from(g, s);
        lemma_zero_run(g, s);
        if l > 1 {
            lemma_compressed_text_reads_back(g, s, l as int);
        } else {
            lemma_plain_text_reads_back(g);
        }
    }
}

} // verus!
