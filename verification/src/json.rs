//! A JSON value model for the controller's loosely typed records.
//!
//! A value's view is a [`JView`]: the same tree with strings as character
//! sequences. Object members keep their order; a lookup reads the first member
//! with a key, so an object reads as a map from keys to values.
use vstd::prelude::*;

use crate::text::{str_eq, string_views};

verus! {

/// A JSON value.
#[derive(Debug, PartialEq, Eq)]
pub enum JsonValue {
    Null,
    Bool(bool),
    /// A non-negative integer.
    UInt(u64),
    /// A negative integer.
    NegInt(i64),
    /// Any other number, held in its JSON text form.
    Decimal(String),
    Str(String),
    Array(Vec<JsonValue>),
    Object(Vec<(String, JsonValue)>),
}

/// The mathematical form of a JSON value.
pub enum JView {
    Null,
    Bool(bool),
    UInt(u64),
    NegInt(i64),
    Decimal(Seq<char>),
    Str(Seq<char>),
    Array(Seq<JView>),
    Object(Seq<(Seq<char>, JView)>),
}

/// View of a value.
pub open spec fn jview(v: JsonValue) -> JView
    decreases v, 0nat,
{
    match v {
        JsonValue::Null => JView::Null,
        JsonValue::Bool(b) => JView::Bool(b),
        JsonValue::UInt(n) => JView::UInt(n),
        JsonValue::NegInt(n) => JView::NegInt(n),
        JsonValue::Decimal(s) => JView::Decimal(s@),
        JsonValue::Str(s) => JView::Str(s@),
        JsonValue::Array(items) => JView::Array(jview_items(items@)),
        JsonValue::Object(es) => JView::Object(jview_members(es@)),
    }
}

/// Views of a sequence of values.
pub open spec fn jview_items(items: Seq<JsonValue>) -> Seq<JView>
    decreases items, 1nat,
{
    if items.len() == 0 {
        Seq::empty()
    } else {
        jview_items(items.drop_last()).push(jview(items.last()))
    }
}

/// Views of the members of an object.
pub open spec fn jview_members(es: Seq<(String, JsonValue)>) -> Seq<(Seq<char>, JView)>
    decreases es, 1nat,
{
    if es.len() == 0 {
        Seq::empty()
    } else {
        jview_members(es.drop_last()).push((es.last().0@, jview(es.last().1)))
    }
}

impl View for JsonValue {
    type V = JView;

    open spec fn view(&self) -> JView {
        jview(*self)
    }
}

pub proof fn lemma_jview_items(items: Seq<JsonValue>)
    ensures
        jview_items(items).len() == items.len(),
        forall|i: int| 0 <= i < items.len() ==> #[trigger] jview_items(items)[i] == jview(items[i]),
    decreases items.len(),
{
    if items.len() > 0 {
        lemma_jview_items(items.drop_last());
    }
}

pub proof fn lemma_jview_members(es: Seq<(String, JsonValue)>)
    ensures
        jview_members(es).len() == es.len(),
        forall|i: int| 0 <= i < es.len() ==> #[trigger] jview_members(es)[i] == (es[i].0@, jview(es[i].1)),
    decreases es.len(),
{
    if es.len() > 0 {
        lemma_jview_members(es.drop_last());
    }
}

/// The value of the first member named `key`.
pub open spec fn mget(m: Seq<(Seq<char>, JView)>, key: Seq<char>) -> Option<JView>
    decreases m.len(),
{
    if m.len() == 0 {
        None
    } else if m[0].0 == key {
        Some(m[0].1)
    } else {
        mget(m.drop_first(), key)
    }
}

/// Member `key` of an object; `None` for other values.
pub open spec fn jget(v: JView, key: Seq<char>) -> Option<JView> {
    match v {
        JView::Object(m) => mget(m, key),
        _ => None,
    }
}

/// Member `key` of an optional value.
pub open spec fn jget_opt(v: Option<JView>, key: Seq<char>) -> Option<JView> {
    match v {
        Some(x) => jget(x, key),
        None => None,
    }
}

/// The text of a string value.
pub open spec fn jstr(v: Option<JView>) -> Option<Seq<char>> {
    match v {
        Some(JView::Str(s)) => Some(s),
        _ => None,
    }
}

/// The value of a non-negative integer.
pub open spec fn ju64(v: Option<JView>) -> Option<u64> {
    match v {
        Some(JView::UInt(n)) => Some(n),
        _ => None,
    }
}

/// The value of a boolean.
pub open spec fn jbool(v: Option<JView>) -> Option<bool> {
    match v {
        Some(JView::Bool(b)) => Some(b),
        _ => None,
    }
}

/// The items of an array.
pub open spec fn jarray(v: Option<JView>) -> Option<Seq<JView>> {
    match v {
        Some(JView::Array(items)) => Some(items),
        _ => None,
    }
}

/// The texts of the string items, other items skipped.
pub open spec fn jstrings(items: Seq<JView>) -> Seq<Seq<char>>
    decreases items.len(),
{
    if items.len() == 0 {
        Seq::empty()
    } else {
        let rest = jstrings(items.drop_last());
        match items.last() {
            JView::Str(s) => rest.push(s),
            _ => rest,
        }
    }
}

/// An array of strings.
pub open spec fn str_array(items: Seq<Seq<char>>) -> JView {
    JView::Array(items.map_values(|s: Seq<char>| JView::Str(s)))
}

/// The first member of `m` named `key` is at `i`.
pub open spec fn first_key_at(m: Seq<(Seq<char>, JView)>, key: Seq<char>, i: int) -> bool {
    0 <= i < m.len() && m[i].0 == key && forall|j: int| 0 <= j < i ==> #[trigger] m[j].0 != key
}

pub proof fn lemma_mget_at(m: Seq<(Seq<char>, JView)>, key: Seq<char>, i: int)
    requires
        first_key_at(m, key, i),
    ensures
        mget(m, key) == Some(m[i].1),
    decreases i,
{
    if i > 0 {
        assert(m[0].0 != key);
        assert forall|j: int| 0 <= j < i - 1 implies #[trigger] m.drop_first()[j].0 != key by {
            assert(m.drop_first()[j] == m[j + 1]);
        }
        lemma_mget_at(m.drop_first(), key, i - 1);
    }
}

pub proof fn lemma_mget_absent(m: Seq<(Seq<char>, JView)>, key: Seq<char>)
    requires
        forall|j: int| 0 <= j < m.len() ==> #[trigger] m[j].0 != key,
    ensures
        mget(m, key) is None,
    decreases m.len(),
{
    if m.len() > 0 {
        assert(m[0].0 != key);
        assert forall|j: int| 0 <= j < m.len() - 1 implies #[trigger] m.drop_first()[j].0 != key by {
            assert(m.drop_first()[j] == m[j + 1]);
        }
        lemma_mget_absent(m.drop_first(), key);
    }
}

/// Setting the first member named `key` (or appending it): `key` reads as the new value,
/// every other key as before.
pub proof fn lemma_mget_update(m: Seq<(Seq<char>, JView)>, key: Seq<char>, i: int, v: JView, k: Seq<char>)
    requires
        first_key_at(m, key, i),
    ensures
        mget(m.update(i, (key, v)), k) == if k == key { Some(v) } else { mget(m, k) },
    decreases i,
{
    let u = m.update(i, (key, v));
    if i == 0 {
        assert(u.drop_first() =~= m.drop_first());
    } else {
        assert(m[0].0 != key);
        assert forall|j: int| 0 <= j < i - 1 implies #[trigger] m.drop_first()[j].0 != key by {
            assert(m.drop_first()[j] == m[j + 1]);
        }
        lemma_mget_update(m.drop_first(), key, i - 1, v, k);
        assert(u.drop_first() =~= m.drop_first().update(i - 1, (key, v)));
    }
}

pub proof fn lemma_mget_push(m: Seq<(Seq<char>, JView)>, key: Seq<char>, v: JView, k: Seq<char>)
    requires
        forall|j: int| 0 <= j < m.len() ==> #[trigger] m[j].0 != key,
    ensures
        mget(m.push((key, v)), k) == if k == key { Some(v) } else { mget(m, k) },
    decreases m.len(),
{
    let p = m.push((key, v));
    if m.len() == 0 {
        assert(p.drop_first() =~= Seq::<(Seq<char>, JView)>::empty());
    } else {
        assert(m[0].0 != key);
        assert forall|j: int| 0 <= j < m.len() - 1 implies #[trigger] m.drop_first()[j].0 != key by {
            assert(m.drop_first()[j] == m[j + 1]);
        }
        lemma_mget_push(m.drop_first(), key, v, k);
        assert(p.drop_first() =~= m.drop_first().push((key, v)));
    }
}

/// Dropping the members named `key`.
pub open spec fn mremove(m: Seq<(Seq<char>, JView)>, key: Seq<char>) -> Seq<(Seq<char>, JView)>
    decreases m.len(),
{
    if m.len() == 0 {
        Seq::empty()
    } else if m.last().0 == key {
        mremove(m.drop_last(), key)
    } else {
        mremove(m.drop_last(), key).push(m.last())
    }
}

pub proof fn lemma_mget_snoc(m: Seq<(Seq<char>, JView)>, e: (Seq<char>, JView), k: Seq<char>)
    ensures
        mget(m.push(e), k) == match mget(m, k) {
            Some(v) => Some(v),
            None => if e.0 == k { Some(e.1) } else { None },
        },
    decreases m.len(),
{
    let p = m.push(e);
    if m.len() == 0 {
        assert(p.drop_first() =~= Seq::<(Seq<char>, JView)>::empty());
        assert(p[0] == e);
        assert(mget(p.drop_first(), k) is None);
        assert(mget(m, k) is None);
    } else {
        lemma_mget_snoc(m.drop_first(), e, k);
        assert(p.drop_first() =~= m.drop_first().push(e));
        assert(p[0] == m[0]);
        if m[0].0 != k {
            assert(mget(p, k) == mget(m.drop_first().push(e), k));
            assert(mget(m, k) == mget(m.drop_first(), k));
        }
    }
}

pub proof fn lemma_mget_remove(m: Seq<(Seq<char>, JView)>, key: Seq<char>, k: Seq<char>)
    ensures
        mget(mremove(m, key), k) == if k == key { None } else { mget(m, k) },
    decreases m.len(),
{
    if m.len() > 0 {
        lemma_mget_remove(m.drop_last(), key, k);
        assert(m.drop_last().push(m.last()) =~= m);
        lemma_mget_snoc(m.drop_last(), m.last(), k);
        if m.last().0 != key {
            lemma_mget_snoc(mremove(m.drop_last(), key), m.last(), k);
        }
    }
}

// ── executable accessors ────────────────────────────────────────────

/// The first member named `key`.
pub fn obj_lookup<'a>(entries: &'a Vec<(String, JsonValue)>, key: &str) -> (res: Option<&'a JsonValue>)
    ensures
        match res {
            Some(r) => mget(jview_members(entries@), key@) == Some(r@),
            None => mget(jview_members(entries@), key@) is None,
        },
{
    proof {
        lemma_jview_members(entries@);
    }
    let ghost m = jview_members(entries@);
    let mut i: usize = 0;
    while i < entries.len()
        invariant
            i <= entries.len(),
            m == jview_members(entries@),
            m.len() == entries.len(),
            forall|j: int| 0 <= j < entries.len() ==> #[trigger] m[j] == (entries@[j].0@, jview(entries@[j].1)),
            forall|j: int| 0 <= j < i ==> #[trigger] m[j].0 != key@,
        decreases entries.len() - i,
    {
        if str_eq(entries[i].0.as_str(), key) {
            proof {
                lemma_mget_at(m, key@, i as int);
            }
            return Some(&entries[i].1);
        }
        i = i + 1;
    }
    proof {
        lemma_mget_absent(m, key@);
    }
    None
}

/// Spec form of an optional reference.
pub open spec fn deref_opt(v: Option<&JsonValue>) -> Option<JView> {
    match v {
        Some(x) => Some(x@),
        None => None,
    }
}

/// Member `key` of an object value; `None` for other values.
pub fn get<'a>(v: &'a JsonValue, key: &str) -> (res: Option<&'a JsonValue>)
    ensures
        deref_opt(res) == jget(v@, key@),
{
    match v {
        JsonValue::Object(entries) => obj_lookup(entries, key),
        _ => None,
    }
}

/// Member `key` of an optional value.
pub fn get_opt<'a>(v: Option<&'a JsonValue>, key: &str) -> (res: Option<&'a JsonValue>)
    ensures
        deref_opt(res) == jget_opt(deref_opt(v), key@),
{
    match v {
        Some(x) => get(x, key),
        None => None,
    }
}

/// The text of a string value.
pub fn as_str<'a>(v: Option<&'a JsonValue>) -> (res: Option<&'a str>)
    ensures
        match res {
            Some(s) => jstr(deref_opt(v)) == Some(s@),
            None => jstr(deref_opt(v)) is None,
        },
{
    match v {
        Some(JsonValue::Str(s)) => Some(s.as_str()),
        _ => None,
    }
}

/// The value of a non-negative integer.
pub fn as_u64(v: Option<&JsonValue>) -> (res: Option<u64>)
    ensures
        res == ju64(deref_opt(v)),
{
    match v {
        Some(JsonValue::UInt(n)) => Some(*n),
        _ => None,
    }
}

/// The value of a boolean.
pub fn as_bool(v: Option<&JsonValue>) -> (res: Option<bool>)
    ensures
        res == jbool(deref_opt(v)),
{
    match v {
        Some(JsonValue::Bool(b)) => Some(*b),
        _ => None,
    }
}

/// The items of an array.
pub fn as_array<'a>(v: Option<&'a JsonValue>) -> (res: Option<&'a Vec<JsonValue>>)
    ensures
        match res {
            Some(a) => jarray(deref_opt(v)) == Some(jview_items(a@)),
            None => jarray(deref_opt(v)) is None,
        },
{
    match v {
        Some(JsonValue::Array(items)) => Some(items),
        _ => None,
    }
}

/// Texts of the string items, other items skipped.
pub fn collect_strings(items: &Vec<JsonValue>) -> (res: Vec<String>)
    ensures
        string_views(res@) == jstrings(jview_items(items@)),
{
    proof {
        lemma_jview_items(items@);
    }
    let mut out: Vec<String> = Vec::new();
    let mut i: usize = 0;
    while i < items.len()
        invariant
            i <= items.len(),
            jview_items(items@).len() == items.len(),
            forall|j: int| 0 <= j < items.len() ==> #[trigger] jview_items(items@)[j] == jview(items@[j]),
            string_views(out@) == jstrings(jview_items(items@).take(i as int)),
        decreases items.len() - i,
    {
        let ghost prev = out@;
        let ghost vs = jview_items(items@);
        assert(vs.take(i + 1).drop_last() =~= vs.take(i as int));
        assert(vs.take(i + 1).last() == jview(items@[i as int]));
        match &items[i] {
            JsonValue::Str(s) => {
                out.push(s.clone());
                assert(string_views(out@) =~= string_views(prev).push(s@));
            },
            _ => {
                assert(out@ == prev);
            },
        }
        i = i + 1;
    }
    assert(jview_items(items@).take(items.len() as int) =~= jview_items(items@));
    out
}

/// A JSON array of the strings in `items`.
pub fn string_array(items: &Vec<String>) -> (res: JsonValue)
    ensures
        res@ == str_array(string_views(items@)),
{
    let mut out: Vec<JsonValue> = Vec::new();
    let mut i: usize = 0;
    while i < items.len()
        invariant
            i <= items.len(),
            jview_items(out@) == str_array(string_views(items@.take(i as int)))->Array_0,
        decreases items.len() - i,
    {
        let ghost prev = out@;
        let item = JsonValue::Str(items[i].clone());
        assert(item@ == JView::Str(items@[i as int]@));
        out.push(item);
        assert(out@.drop_last() =~= prev);
        assert(jview_items(out@) == jview_items(prev).push(JView::Str(items@[i as int]@)));
        assert(string_views(items@.take(i + 1)) =~= string_views(items@.take(i as int)).push(items@[i as int]@));
        assert(jview_items(out@) =~= str_array(string_views(items@.take(i + 1)))->Array_0);
        i = i + 1;
    }
    assert(items@.take(items.len() as int) =~= items@);
    JsonValue::Array(out)
}

/// Sets member `key` to `value`: replaces the first member named `key` or appends it.
/// Afterwards `key` reads as `value` and every other key reads as before.
pub fn obj_set(entries: &mut Vec<(String, JsonValue)>, key: String, value: JsonValue)
    ensures
        forall|k: Seq<char>| #[trigger] mget(jview_members(final(entries)@), k) == if k == key@ {
            Some(value@)
        } else {
            mget(jview_members(old(entries)@), k)
        },
{
    proof {
        lemma_jview_members(entries@);
    }
    let ghost orig = entries@;
    let ghost m = jview_members(orig);
    let ghost kv = key@;
    let ghost vv = value@;
    let mut i: usize = 0;
    while i < entries.len()
        invariant
            i <= entries.len(),
            entries@ == orig,
            orig == old(entries)@,
            m == jview_members(orig),
            m.len() == orig.len(),
            kv == key@,
            vv == value@,
            forall|j: int| 0 <= j < orig.len() ==> #[trigger] m[j] == (orig[j].0@, jview(orig[j].1)),
            forall|j: int| 0 <= j < i ==> #[trigger] m[j].0 != key@,
        decreases entries.len() - i,
    {
        if str_eq(entries[i].0.as_str(), key.as_str()) {
            entries.set(i, (key, value));
            proof {
                lemma_jview_members(entries@);
                assert(jview_members(entries@) =~= m.update(i as int, (kv, vv)));
                assert forall|k: Seq<char>| #[trigger] mget(jview_members(entries@), k) == if k == kv {
                    Some(vv)
                } else {
                    mget(m, k)
                } by {
                    lemma_mget_update(m, kv, i as int, vv, k);
                }
            }
            return;
        }
        i = i + 1;
    }
    entries.push((key, value));
    proof {
        lemma_jview_members(entries@);
        assert(jview_members(entries@) =~= m.push((kv, vv)));
        assert forall|k: Seq<char>| #[trigger] mget(jview_members(entries@), k) == if k == kv {
            Some(vv)
        } else {
            mget(m, k)
        } by {
            lemma_mget_push(m, kv, vv, k);
        }
    }
}

/// Removes every member named `key`. Afterwards `key` reads as absent and every
/// other key reads as before.
pub fn obj_delete(entries: &mut Vec<(String, JsonValue)>, key: &str)
    ensures
        jview_members(final(entries)@) == mremove(jview_members(old(entries)@), key@),
        forall|k: Seq<char>| #[trigger] mget(jview_members(final(entries)@), k) == if k == key@ {
            None
        } else {
            mget(jview_members(old(entries)@), k)
        },
{
    let ghost orig = entries@;
    let mut kept: Vec<(String, JsonValue)> = Vec::new();
    let mut rest: Vec<(String, JsonValue)> = Vec::new();
    std::mem::swap(&mut rest, entries);
    let mut i: usize = 0;
    let n = rest.len();
    proof {
        lemma_jview_members(orig);
    }
    while i < n
        invariant
            n == orig.len(),
            i <= n,
            rest@ == orig.subrange(i as int, n as int),
            jview_members(orig).len() == orig.len(),
            forall|j: int| 0 <= j < orig.len() ==> #[trigger] jview_members(orig)[j] == (orig[j].0@, jview(orig[j].1)),
            jview_members(kept@) == mremove(jview_members(orig).take(i as int), key@),
        decreases n - i,
    {
        let e = rest.remove(0);
        assert(rest@ =~= orig.subrange(i + 1, n as int));
        let ghost mo = jview_members(orig);
        assert(mo.take(i + 1).drop_last() =~= mo.take(i as int));
        assert(mo.take(i + 1).last() == (e.0@, jview(e.1)));
        if !str_eq(e.0.as_str(), key) {
            let ghost before = kept@;
            kept.push(e);
            assert(kept@.drop_last() =~= before);
        }
        i = i + 1;
    }
    assert(jview_members(orig).take(n as int) =~= jview_members(orig));
    *entries = kept;
    proof {
        assert forall|k: Seq<char>| #[trigger] mget(jview_members(entries@), k) == if k == key@ {
            None
        } else {
            mget(jview_members(orig), k)
        } by {
            lemma_mget_remove(jview_members(orig), key@, k);
        }
    }
}


/// A deep copy of a value.
pub fn clone_value(v: &JsonValue) -> (r: JsonValue)
    ensures
        r@ == v@,
    decreases v,
{
    match v {
        JsonValue::Null => JsonValue::Null,
        JsonValue::Bool(b) => JsonValue::Bool(*b),
        JsonValue::UInt(n) => JsonValue::UInt(*n),
        JsonValue::NegInt(n) => JsonValue::NegInt(*n),
        JsonValue::Decimal(s) => JsonValue::Decimal(s.clone()),
        JsonValue::Str(s) => JsonValue::Str(s.clone()),
        JsonValue::Array(items) => {
            proof {
                lemma_jview_items(items@);
            }
            assert forall|j: int| 0 <= j < items@.len() implies decreases_to!(*v => #[trigger] items@[j]) by {
                assert(decreases_to!(*v => *items));
                assert(decreases_to!(*items => items@));
                assert(decreases_to!(items@ => items@[j]));
            }
            let mut out: Vec<JsonValue> = Vec::new();
            let mut i: usize = 0;
            while i < items.len()
                invariant
                    forall|j: int| 0 <= j < items@.len() ==> decreases_to!(*v => #[trigger] items@[j]),
                    i <= items.len(),
                    jview_items(items@).len() == items@.len(),
                    forall|j: int| 0 <= j < items@.len() ==> #[trigger] jview_items(items@)[j] == jview(items@[j]),
                    jview_items(out@) == jview_items(items@).take(i as int),
                decreases items.len() - i,
            {
                let c = clone_value(&items[i]);
                let ghost prev = out@;
                out.push(c);
                assert(out@.drop_last() =~= prev);
                assert(jview_items(out@) =~= jview_items(items@).take(i + 1));
                i = i + 1;
            }
            assert(jview_items(items@).take(items.len() as int) =~= jview_items(items@));
            JsonValue::Array(out)
        },
        JsonValue::Object(es) => {
            proof {
                lemma_jview_members(es@);
            }
            assert forall|j: int| 0 <= j < es@.len() implies decreases_to!(*v => #[trigger] es@[j].1) by {
                assert(decreases_to!(*v => *es));
                assert(decreases_to!(*es => es@));
                assert(decreases_to!(es@ => es@[j]));
                assert(decreases_to!(es@[j] => es@[j].1));
            }
            let mut out: Vec<(String, JsonValue)> = Vec::new();
            let mut i: usize = 0;
            while i < es.len()
                invariant
                    forall|j: int| 0 <= j < es@.len() ==> decreases_to!(*v => #[trigger] es@[j].1),
                    i <= es.len(),
                    jview_members(es@).len() == es@.len(),
                    forall|j: int| 0 <= j < es@.len() ==> #[trigger] jview_members(es@)[j] == (es@[j].0@, jview(es@[j].1)),
                    jview_members(out@) == jview_members(es@).take(i as int),
                decreases es.len() - i,
            {
                let c = clone_value(&es[i].1);
                let k = es[i].0.clone();
                let ghost prev = out@;
                out.push((k, c));
                assert(out@.drop_last() =~= prev);
                assert(jview_members(out@) =~= jview_members(es@).take(i + 1));
                i = i + 1;
            }
            assert(jview_members(es@).take(es.len() as int) =~= jview_members(es@));
            JsonValue::Object(out)
        },
    }
}

/// A deep copy of an object's members.
pub fn clone_members(es: &Vec<(String, JsonValue)>) -> (r: Vec<(String, JsonValue)>)
    ensures
        jview_members(r@) == jview_members(es@),
{
    proof {
        lemma_jview_members(es@);
    }
    let mut out: Vec<(String, JsonValue)> = Vec::new();
    let mut i: usize = 0;
    while i < es.len()
        invariant
            i <= es.len(),
            jview_members(es@).len() == es@.len(),
            forall|j: int| 0 <= j < es@.len() ==> #[trigger] jview_members(es@)[j] == (es@[j].0@, jview(es@[j].1)),
            jview_members(out@) == jview_members(es@).take(i as int),
        decreases es.len() - i,
    {
        let c = clone_value(&es[i].1);
        let k = es[i].0.clone();
        let ghost prev = out@;
        out.push((k, c));
        assert(out@.drop_last() =~= prev);
        assert(jview_members(out@) =~= jview_members(es@).take(i + 1));
        i = i + 1;
    }
    assert(jview_members(es@).take(es.len() as int) =~= jview_members(es@));
    out
}

} // verus!
