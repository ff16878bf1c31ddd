//! Character-level string helpers with exact specifications.
use vstd::prelude::*;

verus! {

broadcast use vstd::string::axiom_spec_iter;

/// `p` is a prefix of `s`.
pub open spec fn seq_starts_with(s: Seq<char>, p: Seq<char>) -> bool {
    p.len() <= s.len() && s.subrange(0, p.len() as int) == p
}

/// `n` occurs somewhere in `s` as a contiguous run.
pub open spec fn seq_contains(s: Seq<char>, n: Seq<char>) -> bool {
    exists|i: int| 0 <= i && i + n.len() <= s.len() && #[trigger] s.subrange(i, i + n.len()) == n
}

/// ASCII lowercase of one character; every other character is unchanged.
pub open spec fn ascii_lower(c: char) -> char {
    if 'A' <= c && c <= 'Z' {
        ((c as u32) + 32) as char
    } else {
        c
    }
}

/// ASCII lowercase of a character sequence.
pub open spec fn lower_seq(s: Seq<char>) -> Seq<char> {
    s.map_values(|c: char| ascii_lower(c))
}

/// The Unicode uppercase mapping of a string, as computed by `str::to_uppercase`.
pub uninterp spec fn uppercase(s: Seq<char>) -> Seq<char>;

/// The character of a decimal digit `d < 10`.
pub open spec fn dec_digit(d: nat) -> char {
    ((d + 48) as u32) as char
}

/// Decimal representation of `n` without leading zeros.
pub open spec fn decimal(n: nat) -> Seq<char>
    decreases n,
{
    if n < 10 {
        seq![dec_digit(n)]
    } else {
        decimal(n / 10).push(dec_digit(n % 10))
    }
}

/// The character of a lowercase hexadecimal digit `d < 16`.
pub open spec fn hex_digit(d: nat) -> char {
    if d < 10 {
        ((d + 48) as u32) as char
    } else {
        ((d + 87) as u32) as char
    }
}

/// The lowest `k` hexadecimal digits of `n`, most significant first, zero padded.
pub open spec fn hex_padded(n: nat, k: nat) -> Seq<char>
    decreases k,
{
    if k == 0 {
        Seq::empty()
    } else {
        hex_padded(n / 16, (k - 1) as nat).push(hex_digit(n % 16))
    }
}

/// Value of a character `'0'..='9'`.
pub open spec fn digit_value(c: char) -> nat {
    ((c as u32) - 48) as nat
}

pub open spec fn is_digit(c: char) -> bool {
    '0' <= c && c <= '9'
}

/// All characters of `s` are decimal digits.
pub open spec fn all_digits(s: Seq<char>) -> bool {
    forall|i: int| 0 <= i < s.len() ==> is_digit(#[trigger] s[i])
}

/// Value of a sequence of decimal digits.
pub open spec fn digits_value(s: Seq<char>) -> nat
    decreases s.len(),
{
    if s.len() == 0 {
        0
    } else {
        digits_value(s.drop_last()) * 10 + digit_value(s.last())
    }
}

/// The digits that `u16::from_str` (and the other unsigned integer parsers) read:
/// an optional leading `+`, then at least one decimal digit and nothing else.
pub open spec fn unsigned_digits(s: Seq<char>) -> Option<Seq<char>> {
    let body = if s.len() > 0 && s[0] == '+' {
        s.drop_first()
    } else {
        s
    };
    if body.len() > 0 && all_digits(body) {
        Some(body)
    } else {
        None
    }
}

/// The value that an unsigned integer parser reads from `s`, before any range check.
pub open spec fn unsigned_value(s: Seq<char>) -> Option<nat> {
    match unsigned_digits(s) {
        Some(d) => Some(digits_value(d)),
        None => None,
    }
}

/// Sequences joined with a separator between consecutive items.
pub open spec fn join_seqs(items: Seq<Seq<char>>, sep: Seq<char>) -> Seq<char>
    decreases items.len(),
{
    if items.len() == 0 {
        Seq::empty()
    } else if items.len() == 1 {
        items[0]
    } else {
        join_seqs(items.drop_last(), sep) + sep + items.last()
    }
}

/// The views of a vector of strings.
pub open spec fn string_views(v: Seq<String>) -> Seq<Seq<char>> {
    v.map_values(|s: String| s@)
}

/// View of an optional string.
pub open spec fn opt_view(o: Option<String>) -> Option<Seq<char>> {
    match o {
        Some(s) => Some(s@),
        None => None,
    }
}

/// View of an optional string slice.
pub open spec fn opt_str_view(o: Option<&str>) -> Option<Seq<char>> {
    match o {
        Some(s) => Some(s@),
        None => None,
    }
}

/// An optional text, empty texts treated as absent.
pub open spec fn non_empty(o: Option<Seq<char>>) -> Option<Seq<char>> {
    match o {
        Some(s) => if s.len() > 0 { Some(s) } else { None },
        None => None,
    }
}

// ── wrappers around std ─────────────────────────────────────────────

/// Appends one character: `String::push` adds `c` at the end of the string.
#[verifier::external_body]
pub(crate) fn push_char(s: &mut String, c: char)
    ensures
        final(s)@ == old(s)@.push(c),
{
    s.push(c);
}

/// Appends a string slice: `String::push_str` adds the characters of `t` at the end.
#[verifier::external_body]
pub(crate) fn push_str(s: &mut String, t: &str)
    ensures
        final(s)@ == old(s)@ + t@,
{
    s.push_str(t);
}

/// The `Debug` rendering of a string: quoted, with special characters escaped.
pub uninterp spec fn debug_quoted(s: Seq<char>) -> Seq<char>;

/// `<str as Debug>::fmt`, the `{:?}` rendering of `s`; named by [`debug_quoted`].
#[verifier::external_body]
pub(crate) fn quote(s: &str) -> (res: String)
    ensures
        res@ == debug_quoted(s@),
{
    format!("{s:?}")
}

/// ASCII lowercase of one character: `'A'..='Z'` become `'a'..='z'`, every
/// other character stays.
fn char_to_ascii_lowercase(c: char) -> (res: char)
    ensures
        res == ascii_lower(c),
{
    if 'A' <= c && c <= 'Z' {
        let b: u8 = c as u8;
        assert(b as u32 == c as u32);
        (b + 32) as char
    } else {
        c
    }
}

/// The Unicode lowercase mapping of a string, as computed by `str::to_lowercase`.
pub uninterp spec fn lowercase(s: Seq<char>) -> Seq<char>;

/// `str::to_lowercase`: the result is the Unicode lowercase mapping, named by
/// [`lowercase`]; nothing more of it is stated.
#[verifier::external_body]
pub(crate) fn to_lowercase(s: &str) -> (res: String)
    ensures
        res@ == lowercase(s@),
{
    s.to_lowercase()
}

/// `str::to_uppercase`: the result is the Unicode uppercase mapping, named by
/// [`uppercase`]. The mapping goes character by character, and `'a'..='z'`
/// map to `'A'..='Z'` as `'A'..='Z'` map to themselves, so ASCII-lowercasing
/// the input first gives the same result; nothing more of it is stated.
#[verifier::external_body]
pub(crate) fn to_uppercase(s: &str) -> (res: String)
    ensures
        res@ == uppercase(s@),
        res@ == uppercase(lower_seq(s@)),
{
    s.to_uppercase()
}

// ── verified helpers ────────────────────────────────────────────────

/// The characters of `s`, in order.
pub fn chars_of(s: &str) -> (v: Vec<char>)
    ensures
        v@ == s@,
{
    let mut v: Vec<char> = Vec::new();
    for c in it: s.chars()
        invariant
            v@ == it.seq().take(it.index() as int),
    {
        v.push(c);
    }
    assert(v@ =~= s@);
    v
}

/// A string holding the characters of `v`.
pub fn string_of(v: &Vec<char>) -> (s: String)
    ensures
        s@ == v@,
{
    let mut s = String::new();
    let mut i: usize = 0;
    while i < v.len()
        invariant
            i <= v.len(),
            s@ == v@.take(i as int),
        decreases v.len() - i,
    {
        push_char(&mut s, v[i]);
        i = i + 1;
        assert(s@ =~= v@.take(i as int));
    }
    assert(v@.take(v.len() as int) =~= v@);
    s
}

/// An owned copy of `s`.
pub fn owned(s: &str) -> (res: String)
    ensures
        res@ == s@,
{
    s.to_owned()
}

/// Whether `s` has no characters.
pub fn is_empty_text(s: &str) -> (res: bool)
    ensures
        res == (s@.len() == 0),
{
    chars_of(s).len() == 0
}

/// Character-wise equality of two string slices.
pub fn str_eq(a: &str, b: &str) -> (res: bool)
    ensures
        res == (a@ == b@),
{
    a.to_owned() == b.to_owned()
}

fn seq_prefix_at(s: &Vec<char>, p: &Vec<char>, at: usize) -> (res: bool)
    requires
        at + p.len() <= s.len(),
    ensures
        res == (s@.subrange(at as int, at + p.len()) == p@),
{
    let mut j: usize = 0;
    while j < p.len()
        invariant
            at + p.len() <= s.len(),
            j <= p.len(),
            forall|k: int| 0 <= k < j ==> s@[at + k] == p@[k],
        decreases p.len() - j,
    {
        if s[at + j] != p[j] {
            assert(s@.subrange(at as int, at + p.len())[j as int] != p@[j as int]);
            return false;
        }
        j = j + 1;
    }
    assert(s@.subrange(at as int, at + p.len()) =~= p@);
    true
}

/// `p` is a prefix of `s`.
pub fn starts_with(s: &str, p: &str) -> (res: bool)
    ensures
        res == seq_starts_with(s@, p@),
{
    let sv = chars_of(s);
    let pv = chars_of(p);
    if pv.len() > sv.len() {
        return false;
    }
    seq_prefix_at(&sv, &pv, 0)
}

/// `p` is a suffix of `s`.
pub open spec fn seq_ends_with(s: Seq<char>, p: Seq<char>) -> bool {
    p.len() <= s.len() && s.subrange(s.len() - p.len(), s.len() as int) == p
}

/// Whether `s` ends with `p`.
pub fn ends_with(s: &str, p: &str) -> (res: bool)
    ensures
        res == seq_ends_with(s@, p@),
{
    let sv = chars_of(s);
    let pv = chars_of(p);
    if pv.len() > sv.len() {
        return false;
    }
    let r = seq_prefix_at(&sv, &pv, sv.len() - pv.len());
    r
}

/// `needle` occurs in `s`.
pub fn contains(s: &str, needle: &str) -> (res: bool)
    ensures
        res == seq_contains(s@, needle@),
{
    let sv = chars_of(s);
    let nv = chars_of(needle);
    if nv.len() > sv.len() {
        return false;
    }
    if nv.len() == 0 {
        assert(s@.subrange(0int, 0int + needle@.len()) =~= needle@);
        return true;
    }
    let last = sv.len() - nv.len();
    let mut i: usize = 0;
    while i <= last
        invariant
            last == sv.len() - nv.len(),
            0 < nv.len() <= sv.len(),
            sv@ == s@,
            nv@ == needle@,
            forall|k: int| 0 <= k < i ==> #[trigger] s@.subrange(k, k + needle@.len()) != needle@,
        decreases last + 1 - i,
    {
        if seq_prefix_at(&sv, &nv, i) {
            return true;
        }
        i = i + 1;
    }
    false
}

/// ASCII lowercase copy of `s`.
pub fn to_ascii_lowercase(s: &str) -> (res: String)
    ensures
        res@ == lower_seq(s@),
{
    let v = chars_of(s);
    let mut out: Vec<char> = Vec::new();
    let mut i: usize = 0;
    while i < v.len()
        invariant
            i <= v.len(),
            v@ == s@,
            out@ == lower_seq(s@).take(i as int),
        decreases v.len() - i,
    {
        out.push(char_to_ascii_lowercase(v[i]));
        i = i + 1;
        assert(out@ =~= lower_seq(s@).take(i as int));
    }
    assert(lower_seq(s@).take(v.len() as int) =~= lower_seq(s@));
    string_of(&out)
}

/// ASCII case-insensitive equality, as `str::eq_ignore_ascii_case` computes it.
pub fn eq_ignore_ascii_case(a: &str, b: &str) -> (res: bool)
    ensures
        res == (lower_seq(a@) == lower_seq(b@)),
{
    let la = to_ascii_lowercase(a);
    let lb = to_ascii_lowercase(b);
    la == lb
}

proof fn lemma_decimal_len(n: nat)
    ensures
        decimal(n).len() >= 1,
    decreases n,
{
    if n >= 10 {
        lemma_decimal_len(n / 10);
    }
}

/// Decimal representation of `n`.
pub fn u64_to_decimal(n: u64) -> (res: String)
    ensures
        res@ == decimal(n as nat),
{
    // Collect digits least significant first, then reverse.
    let mut rev: Vec<char> = Vec::new();
    let mut m: u64 = n;
    while m >= 10
        invariant
            decimal(n as nat) == decimal(m as nat) + rev@.reverse(),
        decreases m,
    {
        let c = char_of_digit(m % 10);
        rev.push(c);
        assert(rev@.reverse() =~= seq![c] + rev@.drop_last().reverse());
        assert(decimal(m as nat) == decimal((m / 10) as nat).push(dec_digit((m % 10) as nat)));
        assert(decimal((m / 10) as nat).push(c) + rev@.drop_last().reverse()
            =~= decimal((m / 10) as nat) + rev@.reverse());
        m = m / 10;
    }
    let c = char_of_digit(m);
    rev.push(c);
    assert(rev@.reverse() =~= seq![c] + rev@.drop_last().reverse());
    assert(decimal(m as nat) == seq![c]);
    let mut out: Vec<char> = Vec::new();
    let mut i: usize = rev.len();
    while i > 0
        invariant
            i <= rev.len(),
            out@ == rev@.subrange(i as int, rev.len() as int).reverse(),
        decreases i,
    {
        i = i - 1;
        out.push(rev[i]);
        assert(out@ =~= rev@.subrange(i as int, rev.len() as int).reverse());
    }
    assert(rev@.subrange(0, rev.len() as int) =~= rev@);
    string_of(&out)
}

fn char_of_digit(d: u64) -> (c: char)
    requires
        d < 10,
    ensures
        c == dec_digit(d as nat),
{
    match d {
        0 => '0',
        1 => '1',
        2 => '2',
        3 => '3',
        4 => '4',
        5 => '5',
        6 => '6',
        7 => '7',
        8 => '8',
        _ => '9',
    }
}


pub(crate) fn char_of_hex(d: u64) -> (c: char)
    requires
        d < 16,
    ensures
        c == hex_digit(d as nat),
{
    match d {
        0 => '0',
        1 => '1',
        2 => '2',
        3 => '3',
        4 => '4',
        5 => '5',
        6 => '6',
        7 => '7',
        8 => '8',
        9 => '9',
        10 => 'a',
        11 => 'b',
        12 => 'c',
        13 => 'd',
        14 => 'e',
        _ => 'f',
    }
}

/// The 16 lowercase hexadecimal digits of `n`, zero padded.
pub fn u64_to_hex16(n: u64) -> (res: String)
    ensures
        res@ == hex_padded(n as nat, 16),
{
    let mut rev: Vec<char> = Vec::new();
    let mut m: u64 = n;
    let mut k: usize = 0;
    while k < 16
        invariant
            k <= 16,
            hex_padded(n as nat, 16) == hex_padded(m as nat, (16 - k) as nat) + rev@.reverse(),
        decreases 16 - k,
    {
        let c = char_of_hex(m % 16);
        rev.push(c);
        assert(rev@.reverse() =~= seq![c] + rev@.drop_last().reverse());
        assert(hex_padded(m as nat, (16 - k) as nat) == hex_padded((m / 16) as nat, (16 - k - 1) as nat).push(c));
        assert(hex_padded((m / 16) as nat, (16 - k - 1) as nat).push(c) + rev@.drop_last().reverse()
            =~= hex_padded((m / 16) as nat, (16 - k - 1) as nat) + rev@.reverse());
        m = m / 16;
        k = k + 1;
    }
    assert(hex_padded(m as nat, 0) =~= Seq::<char>::empty());
    assert(hex_padded(n as nat, 16) =~= rev@.reverse());
    let mut out: Vec<char> = Vec::new();
    let mut i: usize = rev.len();
    while i > 0
        invariant
            i <= rev.len(),
            out@ == rev@.subrange(i as int, rev.len() as int).reverse(),
        decreases i,
    {
        i = i - 1;
        out.push(rev[i]);
        assert(out@ =~= rev@.subrange(i as int, rev.len() as int).reverse());
    }
    assert(rev@.subrange(0, rev.len() as int) =~= rev@);
    string_of(&out)
}

proof fn lemma_digits_value_prefix(s: Seq<char>, i: int)
    requires
        0 <= i <= s.len(),
    ensures
        digits_value(s.take(i)) <= digits_value(s),
    decreases s.len(),
{
    if i < s.len() {
        lemma_digits_value_prefix(s.drop_last(), i);
        assert(s.drop_last().take(i) =~= s.take(i));
    } else {
        assert(s.take(i) =~= s);
    }
}

/// The value `u64::from_str` (bounded by `limit`) reads from `s`:
/// `Some(v)` exactly when `s` is an optional `+` followed by decimal digits whose
/// value `v` is at most `limit`.
pub fn parse_unsigned(s: &str, limit: u64) -> (res: Option<u64>)
    ensures
        res == (match unsigned_value(s@) {
            Some(v) => if v <= limit { Some(v as u64) } else { None::<u64> },
            None => None::<u64>,
        }),
{
    let v = chars_of(s);
    let start: usize = if v.len() > 0 && v[0] == '+' { 1 } else { 0 };
    let ghost body = if s@.len() > 0 && s@[0] == '+' { s@.drop_first() } else { s@ };
    assert(body =~= v@.subrange(start as int, v.len() as int));
    if start >= v.len() {
        return None;
    }
    let mut acc: u64 = 0;
    let mut i: usize = start;
    while i < v.len()
        invariant
            start <= i <= v.len(),
            v@ == s@,
            body == (if s@.len() > 0 && s@[0] == '+' { s@.drop_first() } else { s@ }),
            body.len() > 0,
            body == v@.subrange(start as int, v.len() as int),
            forall|k: int| 0 <= k < i - start ==> is_digit(#[trigger] body[k]),
            acc as nat == digits_value(body.take(i - start)),
            acc <= limit,
        decreases v.len() - i,
    {
        let c = v[i];
        if !('0' <= c && c <= '9') {
            assert(!is_digit(body[i - start]));
            assert(!all_digits(body));
            assert(unsigned_digits(s@) == None::<Seq<char>>);
            return None;
        }
        let d = char_to_u64(c);
        assert(body.take(i - start + 1).drop_last() =~= body.take(i - start));
        if d > limit || acc > (limit - d) / 10 {
            proof {
                lemma_digits_value_prefix(body, i - start + 1);
            }
            assert(digits_value(body.take(i - start + 1)) == acc * 10 + d);
            assert(acc * 10 + d > limit) by (nonlinear_arith)
                requires d > limit || acc > (limit - d) / 10, acc >= 0;
            assert(unsigned_digits(s@) == None::<Seq<char>> || digits_value(body) > limit);
            return None;
        }
        assert(acc * 10 + d <= limit) by (nonlinear_arith)
            requires acc <= (limit - d) / 10, d <= limit;
        acc = acc * 10 + d;
        i = i + 1;
    }
    assert(body.take(i - start) =~= body);
    Some(acc)
}

fn char_to_u64(c: char) -> (d: u64)
    requires
        is_digit(c),
    ensures
        d as nat == digit_value(c),
        d < 10,
{
    (c as u32 - 48) as u64
}

/// Sequences joined with `sep`, as `[String]::join` computes them.
pub fn join(items: &Vec<String>, sep: &str) -> (res: String)
    ensures
        res@ == join_seqs(string_views(items@), sep@),
{
    let mut out: Vec<char> = Vec::new();
    let sepv = chars_of(sep);
    let mut i: usize = 0;
    while i < items.len()
        invariant
            i <= items.len(),
            sepv@ == sep@,
            out@ == join_seqs(string_views(items@).take(i as int), sep@),
        decreases items.len() - i,
    {
        let item = chars_of(items[i].as_str());
        if i > 0 {
            let mut j: usize = 0;
            let ghost before = out@;
            while j < sepv.len()
                invariant
                    j <= sepv.len(),
                    out@ == before + sepv@.take(j as int),
                decreases sepv.len() - j,
            {
                out.push(sepv[j]);
                j = j + 1;
                assert(out@ =~= before + sepv@.take(j as int));
            }
            assert(sepv@.take(sepv.len() as int) =~= sepv@);
        }
        let ghost mid = out@;
        let mut j: usize = 0;
        while j < item.len()
            invariant
                j <= item.len(),
                out@ == mid + item@.take(j as int),
            decreases item.len() - j,
        {
            out.push(item[j]);
            j = j + 1;
            assert(out@ =~= mid + item@.take(j as int));
        }
        assert(item@.take(item.len() as int) =~= item@);
        assert(string_views(items@).take(i + 1).drop_last() =~= string_views(items@).take(i as int));
        i = i + 1;
    }
    assert(string_views(items@).take(items.len() as int) =~= string_views(items@));
    string_of(&out)
}


/// Position of the first `c` in `s`.
pub open spec fn char_pos(s: Seq<char>, c: char) -> Option<int>
    decreases s.len(),
{
    if s.len() == 0 {
        None
    } else if s[0] == c {
        Some(0)
    } else {
        match char_pos(s.drop_first(), c) {
            Some(i) => Some(i + 1),
            None => None,
        }
    }
}

/// What the first position of `c` in `s` is.
pub proof fn lemma_char_pos(s: Seq<char>, c: char)
    ensures
        match char_pos(s, c) {
            Some(i) => 0 <= i < s.len() && s[i] == c && forall|j: int| 0 <= j < i ==> s[j] != c,
            None => forall|j: int| 0 <= j < s.len() ==> s[j] != c,
        },
    decreases s.len(),
{
    if s.len() > 0 {
        lemma_char_pos(s.drop_first(), c);
        assert forall|j: int| 0 < j < s.len() implies s[j] == s.drop_first()[j - 1] by {}
    }
}

proof fn lemma_char_pos_at(s: Seq<char>, c: char, i: int)
    requires
        0 <= i < s.len(),
        s[i] == c,
        forall|j: int| 0 <= j < i ==> s[j] != c,
    ensures
        char_pos(s, c) == Some(i),
    decreases i,
{
    if i > 0 {
        assert forall|j: int| 0 <= j < i - 1 implies s.drop_first()[j] != c by {
            assert(s.drop_first()[j] == s[j + 1]);
        }
        lemma_char_pos_at(s.drop_first(), c, i - 1);
    }
}

proof fn lemma_char_pos_none(s: Seq<char>, c: char)
    requires
        forall|j: int| 0 <= j < s.len() ==> s[j] != c,
    ensures
        char_pos(s, c) is None,
    decreases s.len(),
{
    if s.len() > 0 {
        assert forall|j: int| 0 <= j < s.len() - 1 implies s.drop_first()[j] != c by {
            assert(s.drop_first()[j] == s[j + 1]);
        }
        lemma_char_pos_none(s.drop_first(), c);
    }
}

/// Characters of `s` and the position of the first `c` among them.
pub fn find_char(s: &str, c: char) -> (res: (Vec<char>, Option<usize>))
    ensures
        res.0@ == s@,
        match res.1 {
            Some(i) => char_pos(s@, c) == Some(i as int) && i < s@.len(),
            None => char_pos(s@, c) is None,
        },
{
    let v = chars_of(s);
    let mut i: usize = 0;
    while i < v.len()
        invariant
            i <= v.len(),
            v@ == s@,
            forall|j: int| 0 <= j < i ==> v@[j] != c,
        decreases v.len() - i,
    {
        if v[i] == c {
            proof {
                lemma_char_pos_at(s@, c, i as int);
            }
            return (v, Some(i));
        }
        i = i + 1;
    }
    proof {
        lemma_char_pos_none(s@, c);
    }
    (v, None)
}

/// The characters of `v` from `from` up to `to`.
pub fn slice_chars(v: &Vec<char>, from: usize, to: usize) -> (res: String)
    requires
        from <= to <= v@.len(),
    ensures
        res@ == v@.subrange(from as int, to as int),
{
    let mut s = String::new();
    let mut i: usize = from;
    while i < to
        invariant
            from <= i <= to,
            to <= v@.len(),
            s@ == v@.subrange(from as int, i as int),
        decreases to - i,
    {
        push_char(&mut s, v[i]);
        i = i + 1;
        assert(s@ =~= v@.subrange(from as int, i as int));
    }
    s
}


/// The pieces of `s` between occurrences of `sep`, as `str::split` yields them.
pub open spec fn segments(s: Seq<char>, sep: char) -> Seq<Seq<char>>
    decreases s.len(),
{
    if s.len() == 0 {
        seq![Seq::empty()]
    } else {
        let r = segments(s.drop_last(), sep);
        if s.last() == sep {
            r.push(Seq::empty())
        } else {
            r.update(r.len() - 1, r.last().push(s.last()))
        }
    }
}

pub proof fn lemma_segments_nonempty(s: Seq<char>, sep: char)
    ensures
        segments(s, sep).len() >= 1,
    decreases s.len(),
{
    if s.len() > 0 {
        lemma_segments_nonempty(s.drop_last(), sep);
    }
}

/// The decimal text of `n` is a run of digits worth `n`, with no leading
/// zero, one digit below 10, two below 100, three below 1000.
pub proof fn lemma_decimal_digits(n: nat)
    ensures
        decimal(n).len() >= 1,
        all_digits(decimal(n)),
        digits_value(decimal(n)) == n,
        n >= 1 ==> decimal(n)[0] != '0',
        n < 10 ==> decimal(n).len() == 1,
        n < 100 ==> decimal(n).len() <= 2,
        n < 1000 ==> decimal(n).len() <= 3,
    decreases n,
{
    if n < 10 {
        assert(decimal(n).drop_last() =~= Seq::<char>::empty());
        let c = dec_digit(n);
        assert(c as u32 == n + 48);
        assert(digit_value(c) == n);
        assert(digits_value(decimal(n)) == digits_value(Seq::<char>::empty()) * 10 + digit_value(c));
    } else {
        lemma_decimal_digits(n / 10);
        let c = dec_digit(n % 10);
        assert(c as u32 == n % 10 + 48);
        assert(digit_value(c) == n % 10);
        assert(n == (n / 10) * 10 + n % 10);
        let d = decimal(n / 10);
        assert(decimal(n) == d.push(dec_digit(n % 10)));
        assert(decimal(n).drop_last() =~= d);
        assert(decimal(n)[0] == d[0]);
        assert forall|i: int| 0 <= i < decimal(n).len() implies is_digit(#[trigger] decimal(n)[i]) by {
            if i < d.len() {
                assert(decimal(n)[i] == d[i]);
            }
        }
    }
}

/// A text without `sep` is one piece.
pub proof fn lemma_segments_single(s: Seq<char>, sep: char)
    requires
        forall|i: int| 0 <= i < s.len() ==> s[i] != sep,
    ensures
        segments(s, sep) == seq![s],
    decreases s.len(),
{
    if s.len() > 0 {
        lemma_segments_single(s.drop_last(), sep);
        assert(s.drop_last().push(s.last()) =~= s);
        assert(seq![s.drop_last()].update(0, s) =~= seq![s]);
    } else {
        assert(s =~= Seq::<char>::empty());
    }
}

/// The pieces of `a`, `sep`, `b` are the pieces of `a` then those of `b`.
pub proof fn lemma_segments_concat(a: Seq<char>, sep: char, b: Seq<char>)
    ensures
        segments(a + seq![sep] + b, sep) == segments(a, sep) + segments(b, sep),
    decreases b.len(),
{
    let s = a + seq![sep] + b;
    if b.len() == 0 {
        assert(s.drop_last() =~= a);
        assert(s.last() == sep);
        assert(segments(b, sep) == seq![Seq::<char>::empty()]);
        assert(segments(s, sep) =~= segments(a, sep) + segments(b, sep));
    } else {
        lemma_segments_concat(a, sep, b.drop_last());
        lemma_segments_nonempty(b.drop_last(), sep);
        lemma_segments_nonempty(a, sep);
        assert(s.drop_last() =~= a + seq![sep] + b.drop_last());
        assert(s.last() == b.last());
        let ra = segments(a, sep);
        let rb = segments(b.drop_last(), sep);
        if b.last() == sep {
            assert(segments(s, sep) =~= ra + rb.push(Seq::empty()));
        } else {
            assert((ra + rb).update((ra + rb).len() - 1, (ra + rb).last().push(b.last())) =~= ra + rb.update(
                rb.len() - 1,
                rb.last().push(b.last()),
            ));
        }
    }
}

/// The pieces of `s` between occurrences of `sep`.
pub fn split_on(s: &str, sep: char) -> (res: Vec<String>)
    ensures
        string_views(res@) == segments(s@, sep),
{
    let cs = chars_of(s);
    let mut done: Vec<String> = Vec::new();
    let mut cur: Vec<char> = Vec::new();
    let mut i: usize = 0;
    while i < cs.len()
        invariant
            i <= cs.len(),
            cs@ == s@,
            string_views(done@).push(cur@) == segments(s@.take(i as int), sep),
        decreases cs.len() - i,
    {
        let ghost before = string_views(done@).push(cur@);
        assert(s@.take(i + 1).drop_last() =~= s@.take(i as int));
        assert(s@.take(i + 1).last() == cs@[i as int]);
        proof {
            lemma_segments_nonempty(s@.take(i as int), sep);
        }
        if cs[i] == sep {
            let piece = string_of(&cur);
            let ghost prev = done@;
            done.push(piece);
            assert(string_views(done@) =~= string_views(prev).push(cur@));
            cur = Vec::new();
            assert(string_views(done@).push(cur@) =~= before.push(Seq::empty()));
        } else {
            cur.push(cs[i]);
            assert(string_views(done@).push(cur@) =~= before.update(before.len() - 1, before.last().push(cs@[i as int])));
        }
        i = i + 1;
    }
    assert(s@.take(cs.len() as int) =~= s@);
    let last = string_of(&cur);
    let ghost prev = done@;
    done.push(last);
    assert(string_views(done@) =~= string_views(prev).push(cur@));
    done
}

/// A character of Unicode's `White_Space` property, what `char::is_whitespace`
/// and `str::trim` take for whitespace.
pub open spec fn is_white_space(c: char) -> bool {
    ||| '\u{9}' <= c <= '\u{d}'
    ||| c == ' '
    ||| c == '\u{85}'
    ||| c == '\u{a0}'
    ||| c == '\u{1680}'
    ||| '\u{2000}' <= c <= '\u{200a}'
    ||| c == '\u{2028}'
    ||| c == '\u{2029}'
    ||| c == '\u{202f}'
    ||| c == '\u{205f}'
    ||| c == '\u{3000}'
}

/// `s` without its leading whitespace.
pub open spec fn trim_start(s: Seq<char>) -> Seq<char>
    decreases s.len(),
{
    if s.len() > 0 && is_white_space(s[0]) {
        trim_start(s.drop_first())
    } else {
        s
    }
}

/// `s` without its trailing whitespace.
pub open spec fn trim_end(s: Seq<char>) -> Seq<char>
    decreases s.len(),
{
    if s.len() > 0 && is_white_space(s.last()) {
        trim_end(s.drop_last())
    } else {
        s
    }
}

/// `s` without its leading and trailing whitespace.
pub open spec fn trim_ws(s: Seq<char>) -> Seq<char> {
    trim_end(trim_start(s))
}

fn white_space(c: char) -> (res: bool)
    ensures
        res == is_white_space(c),
{
    ('\u{9}' <= c && c <= '\u{d}') || c == ' ' || c == '\u{85}' || c == '\u{a0}' || c == '\u{1680}' || ('\u{2000}'
        <= c && c <= '\u{200a}') || c == '\u{2028}' || c == '\u{2029}' || c == '\u{202f}' || c == '\u{205f}' || c
        == '\u{3000}'
}

/// `s` without its leading and trailing whitespace.
pub fn trim(s: &str) -> (res: String)
    ensures
        res@ == trim_ws(s@),
{
    let cs = chars_of(s);
    let mut a: usize = 0;
    assert(cs@.skip(0) =~= s@);
    while a < cs.len() && white_space(cs[a])
        invariant
            a <= cs@.len(),
            cs@ == s@,
            trim_start(s@) == trim_start(cs@.skip(a as int)),
        decreases cs.len() - a,
    {
        assert(cs@.skip(a as int).drop_first() =~= cs@.skip(a + 1));
        a = a + 1;
    }
    let mut b: usize = cs.len();
    assert(cs@.subrange(a as int, b as int) =~= cs@.skip(a as int));
    while b > a && white_space(cs[b - 1])
        invariant
            a <= b <= cs@.len(),
            cs@ == s@,
            trim_ws(s@) == trim_end(cs@.subrange(a as int, b as int)),
        decreases b,
    {
        assert(cs@.subrange(a as int, b as int).drop_last() =~= cs@.subrange(a as int, b - 1));
        b = b - 1;
    }
    slice_chars(&cs, a, b)
}

/// A copy of a list of texts.
pub fn copy_strings(v: &Vec<String>) -> (res: Vec<String>)
    ensures
        res@ == v@,
{
    let mut out: Vec<String> = Vec::new();
    let mut i: usize = 0;
    while i < v.len()
        invariant
            i <= v@.len(),
            out@ == v@.take(i as int),
        decreases v.len() - i,
    {
        out.push(v[i].clone());
        i = i + 1;
        assert(out@ =~= v@.take(i as int));
    }
    assert(v@.take(v@.len() as int) =~= v@);
    out
}

} // verus!
