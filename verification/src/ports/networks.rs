//! Network records (`networkconf`) as the port logic reads them: their VLAN
//! ids, an id-keyed lookup, and the resolution of a user's network reference
//! (a session `_id` or a case-insensitive name) to a session `_id`.
use vstd::prelude::*;

use crate::error::{CoreError, ErrorView};
use crate::json::{as_str, as_u64, get, jget, jstr, ju64, lemma_jview_items, jview, jview_items, JView, JsonValue};
use crate::text::{
    debug_quoted, decimal, eq_ignore_ascii_case, lower_seq, opt_view, owned, parse_unsigned, push_str, quote, str_eq,
    u64_to_decimal, unsigned_value,
};

verus! {

/// The session `_id` of a record.
pub open spec fn record_id(r: JView) -> Option<Seq<char>> {
    jstr(jget(r, "_id"@))
}

/// The name of a record.
pub open spec fn record_name(r: JView) -> Option<Seq<char>> {
    jstr(jget(r, "name"@))
}

/// The `u64` that `str::parse::<u64>` reads from `s`.
pub open spec fn u64_text(s: Seq<char>) -> Option<u64> {
    match unsigned_value(s) {
        Some(v) => if v <= u64::MAX {
            Some(v as u64)
        } else {
            None
        },
        None => None,
    }
}

/// VLAN id of a network record: `vlan` as a number or as decimal text,
/// truncated to 16 bits.
pub open spec fn spec_parse_vlan_id(rec: JView) -> Option<u16> {
    let v = jget(rec, "vlan"@);
    let n = match ju64(v) {
        Some(n) => Some(n),
        None => match jstr(v) {
            Some(s) => u64_text(s),
            None => None,
        },
    };
    match n {
        Some(x) => Some((x % 0x1_0000) as u16),
        None => None,
    }
}

/// VLAN id of a network record.
pub fn parse_vlan_id(rec: &JsonValue) -> (res: Option<u16>)
    ensures
        res == spec_parse_vlan_id(rec@),
{
    let v = get(rec, "vlan");
    let n = match as_u64(v) {
        Some(n) => Some(n),
        None => match as_str(v) {
            Some(s) => parse_unsigned(s, u64::MAX),
            None => None,
        },
    };
    match n {
        Some(x) => Some((x % 0x1_0000) as u16),
        None => None,
    }
}

// ── id-keyed lookup ────────────────────────────────────────────────

/// Name and VLAN id of one network.
#[derive(Debug, Clone, PartialEq, Eq)]
pub struct NetworkInfo {
    pub name: Option<String>,
    pub vlan_id: Option<u16>,
}

/// Networks by session `_id`. A later record with the same `_id` shadows an
/// earlier one.
#[derive(Debug, Clone, PartialEq, Eq)]
pub struct NetworkLookup {
    pub by_id: Vec<(String, NetworkInfo)>,
}

/// One network of a lookup: id, name, VLAN id.
pub type InfoView = (Seq<char>, Option<Seq<char>>, Option<u16>);

/// The entries of a lookup.
pub open spec fn infos_of(v: Seq<(String, NetworkInfo)>) -> Seq<InfoView> {
    v.map_values(|e: (String, NetworkInfo)| (e.0@, opt_view(e.1.name), e.1.vlan_id))
}

impl View for NetworkLookup {
    type V = Seq<InfoView>;

    open spec fn view(&self) -> Seq<InfoView> {
        infos_of(self.by_id@)
    }
}

/// The entries of the records that have a session `_id`, in order.
pub open spec fn network_infos(records: Seq<JView>) -> Seq<InfoView>
    decreases records.len(),
{
    if records.len() == 0 {
        Seq::empty()
    } else {
        let rest = network_infos(records.drop_last());
        let r = records.last();
        match record_id(r) {
            Some(id) => rest.push((id, record_name(r), spec_parse_vlan_id(r))),
            None => rest,
        }
    }
}

/// The last entry for `id`.
pub open spec fn info_for(infos: Seq<InfoView>, id: Seq<char>) -> Option<InfoView>
    decreases infos.len(),
{
    if infos.len() == 0 {
        None
    } else if infos.last().0 == id {
        Some(infos.last())
    } else {
        info_for(infos.drop_last(), id)
    }
}

/// Name of network `id` in a lookup.
pub open spec fn lookup_name(infos: Seq<InfoView>, id: Seq<char>) -> Option<Seq<char>> {
    match info_for(infos, id) {
        Some(i) => i.1,
        None => None,
    }
}

/// VLAN id of network `id` in a lookup.
pub open spec fn lookup_vlan(infos: Seq<InfoView>, id: Seq<char>) -> Option<u16> {
    match info_for(infos, id) {
        Some(i) => i.2,
        None => None,
    }
}

/// Indexes the network records by session `_id`; records without one are skipped.
pub fn build_network_lookup(records: &[JsonValue]) -> (res: NetworkLookup)
    ensures
        res@ == network_infos(jview_items(records@)),
{
    proof {
        lemma_jview_items(records@);
    }
    let mut by_id: Vec<(String, NetworkInfo)> = Vec::new();
    let mut i: usize = 0;
    while i < records.len()
        invariant
            i <= records.len(),
            jview_items(records@).len() == records@.len(),
            forall|j: int| 0 <= j < records@.len() ==> #[trigger] jview_items(records@)[j] == jview(records@[j]),
            infos_of(by_id@) == network_infos(jview_items(records@).take(i as int)),
        decreases records.len() - i,
    {
        let ghost vs = jview_items(records@);
        let ghost prev = by_id@;
        assert(vs.take(i + 1).drop_last() =~= vs.take(i as int));
        assert(vs.take(i + 1).last() == records@[i as int]@);
        let rec = &records[i];
        if let Some(id) = as_str(get(rec, "_id")) {
            let name = match as_str(get(rec, "name")) {
                Some(n) => Some(owned(n)),
                None => None,
            };
            let info = NetworkInfo { name, vlan_id: parse_vlan_id(rec) };
            by_id.push((owned(id), info));
            assert(infos_of(by_id@) =~= infos_of(prev).push(
                (id@, record_name(rec@), spec_parse_vlan_id(rec@)),
            ));
        }
        i = i + 1;
    }
    assert(jview_items(records@).take(records.len() as int) =~= jview_items(records@));
    NetworkLookup { by_id }
}

impl NetworkLookup {
    fn find(&self, id: &str) -> (res: Option<usize>)
        ensures
            match res {
                Some(i) => i < self.by_id@.len() && info_for(self@, id@) == Some(self@[i as int]),
                None => info_for(self@, id@) is None,
            },
    {
        let ghost s = self@;
        let mut i: usize = self.by_id.len();
        assert(s.take(i as int) =~= s);
        while i > 0
            invariant
                i <= self.by_id@.len(),
                s == self@,
                s.len() == self.by_id@.len(),
                info_for(s, id@) == info_for(s.take(i as int), id@),
            decreases i,
        {
            assert(s.take(i as int).drop_last() =~= s.take(i - 1));
            assert(s.take(i as int).last() == s[i - 1]);
            if str_eq(self.by_id[i - 1].0.as_str(), id) {
                return Some(i - 1);
            }
            i = i - 1;
        }
        None
    }

    /// Name of network `id`.
    pub fn name(&self, id: &str) -> (res: Option<String>)
        ensures
            opt_view(res) == lookup_name(self@, id@),
    {
        match self.find(id) {
            Some(i) => self.by_id[i].1.name.clone(),
            None => None,
        }
    }

    /// VLAN id of network `id`.
    pub fn vlan(&self, id: &str) -> (res: Option<u16>)
        ensures
            res == lookup_vlan(self@, id@),
    {
        match self.find(id) {
            Some(i) => self.by_id[i].1.vlan_id,
            None => None,
        }
    }
}


// ── resolving a user's network reference ───────────────────────────

/// Position of the first record whose `_id` is `ident`.
pub open spec fn id_slot(records: Seq<JsonValue>, ident: Seq<char>) -> Option<int>
    decreases records.len(),
{
    if records.len() == 0 {
        None
    } else if record_id(records[0]@) == Some(ident) {
        Some(0)
    } else {
        match id_slot(records.drop_first(), ident) {
            Some(i) => Some(i + 1),
            None => None,
        }
    }
}

proof fn lemma_id_slot_at(records: Seq<JsonValue>, ident: Seq<char>, i: int)
    requires
        0 <= i < records.len(),
        record_id(records[i]@) == Some(ident),
        forall|j: int| 0 <= j < i ==> record_id(#[trigger] records[j]@) != Some(ident),
    ensures
        id_slot(records, ident) == Some(i),
    decreases i,
{
    if i > 0 {
        assert(record_id(records[0]@) != Some(ident));
        assert forall|j: int| 0 <= j < i - 1 implies record_id(#[trigger] records.drop_first()[j]@) != Some(ident) by {
            assert(records.drop_first()[j] == records[j + 1]);
        }
        lemma_id_slot_at(records.drop_first(), ident, i - 1);
    }
}

proof fn lemma_id_slot_none(records: Seq<JsonValue>, ident: Seq<char>)
    requires
        forall|j: int| 0 <= j < records.len() ==> record_id(#[trigger] records[j]@) != Some(ident),
    ensures
        id_slot(records, ident) is None,
    decreases records.len(),
{
    if records.len() > 0 {
        assert(record_id(records[0]@) != Some(ident));
        assert forall|j: int| 0 <= j < records.len() - 1 implies record_id(#[trigger] records.drop_first()[j]@) != Some(ident) by {
            assert(records.drop_first()[j] == records[j + 1]);
        }
        lemma_id_slot_none(records.drop_first(), ident);
    }
}

/// The record's name equals `ident` up to ASCII case.
pub open spec fn name_matches(r: JView, ident: Seq<char>) -> bool {
    match record_name(r) {
        Some(n) => lower_seq(n) == lower_seq(ident),
        None => false,
    }
}

/// Positions of the records named `ident` up to ASCII case, in order.
pub open spec fn named_slots(records: Seq<JsonValue>, ident: Seq<char>) -> Seq<int>
    decreases records.len(),
{
    if records.len() == 0 {
        Seq::empty()
    } else if name_matches(records.last()@, ident) {
        named_slots(records.drop_last(), ident).push(records.len() - 1)
    } else {
        named_slots(records.drop_last(), ident)
    }
}

/// Message of a name that several networks share.
pub open spec fn ambiguous_message(ident: Seq<char>, count: nat) -> Seq<char> {
    "network name "@ + debug_quoted(ident) + " is ambiguous ("@ + decimal(count) + " matches); specify the session _id instead"@
}

/// The record that `ident` designates: the first whose `_id` is `ident`;
/// otherwise the only one named `ident` up to ASCII case, provided it has an
/// `_id`. Nothing found is `NetworkNotFound`; several names are ambiguous.
pub open spec fn spec_locate_network(records: Seq<JsonValue>, ident: Seq<char>) -> Result<int, ErrorView> {
    match id_slot(records, ident) {
        Some(i) => Ok(i),
        None => {
            let named = named_slots(records, ident);
            if named.len() == 0 {
                Err(ErrorView::NetworkNotFound(ident))
            } else if named.len() == 1 {
                if record_id(records[named[0]]@) is Some {
                    Ok(named[0])
                } else {
                    Err(ErrorView::NetworkNotFound(ident))
                }
            } else {
                Err(ErrorView::ValidationFailed(ambiguous_message(ident, named.len())))
            }
        },
    }
}

proof fn lemma_named_slots_bounds(records: Seq<JsonValue>, ident: Seq<char>)
    ensures
        named_slots(records, ident).len() <= records.len(),
        forall|j: int| 0 <= j < named_slots(records, ident).len() ==>
            0 <= #[trigger] named_slots(records, ident)[j] < records.len()
            && name_matches(records[named_slots(records, ident)[j]]@, ident),
    decreases records.len(),
{
    if records.len() > 0 {
        lemma_named_slots_bounds(records.drop_last(), ident);
        let prev = named_slots(records.drop_last(), ident);
        assert forall|j: int| 0 <= j < prev.len() implies records[#[trigger] prev[j]] == records.drop_last()[prev[j]] by {}
    }
}

fn locate_network(identifier: &str, records: &[JsonValue]) -> (res: Result<usize, CoreError>)
    ensures
        match spec_locate_network(records@, identifier@) {
            Ok(i) => res matches Ok(j) && j == i && i < records@.len() && record_id(records@[i]@) is Some,
            Err(e) => res matches Err(x) && x@ == e,
        },
{
    let ghost rs = records@;
    let mut i: usize = 0;
    while i < records.len()
        invariant
            rs == records@,
            i <= records.len(),
            forall|j: int| 0 <= j < i ==> record_id(#[trigger] rs[j]@) != Some(identifier@),
        decreases records.len() - i,
    {
        match as_str(get(&records[i], "_id")) {
            Some(id) => {
                if str_eq(id, identifier) {
                    proof {
                        lemma_id_slot_at(rs, identifier@, i as int);
                    }
                    return Ok(i);
                }
            },
            None => {},
        }
        i = i + 1;
    }
    proof {
        lemma_id_slot_none(rs, identifier@);
    }
    let mut count: usize = 0;
    let mut first: usize = 0;
    let mut k: usize = 0;
    while k < records.len()
        invariant
            rs == records@,
            k <= records.len(),
            count == named_slots(rs.take(k as int), identifier@).len(),
            count > 0 ==> first == named_slots(rs.take(k as int), identifier@)[0],
            count <= k,
        decreases records.len() - k,
    {
        assert(rs.take(k + 1).drop_last() =~= rs.take(k as int));
        assert(rs.take(k + 1).last() == rs[k as int]);
        proof {
            lemma_named_slots_bounds(rs.take(k as int), identifier@);
        }
        let is_match = match as_str(get(&records[k], "name")) {
            Some(n) => eq_ignore_ascii_case(n, identifier),
            None => false,
        };
        if is_match {
            if count == 0 {
                first = k;
            }
            count = count + 1;
        }
        k = k + 1;
    }
    assert(rs.take(records.len() as int) =~= rs);
    proof {
        lemma_named_slots_bounds(rs, identifier@);
    }
    if count == 0 {
        Err(CoreError::NetworkNotFound { identifier: owned(identifier) })
    } else if count == 1 {
        match as_str(get(&records[first], "_id")) {
            Some(_) => Ok(first),
            None => Err(CoreError::NetworkNotFound { identifier: owned(identifier) }),
        }
    } else {
        let mut message = String::new();
        push_str(&mut message, "network name ");
        let q = quote(identifier);
        push_str(&mut message, q.as_str());
        push_str(&mut message, " is ambiguous (");
        let n = u64_to_decimal(count as u64);
        push_str(&mut message, n.as_str());
        push_str(&mut message, " matches); specify the session _id instead");
        Err(CoreError::ValidationFailed { message })
    }
}

/// Session `_id` that `ident` designates.
pub open spec fn spec_resolve_network_to_id(records: Seq<JsonValue>, ident: Seq<char>) -> Result<Seq<char>, ErrorView> {
    match spec_locate_network(records, ident) {
        Ok(i) => Ok(record_id(records[i]@)->Some_0),
        Err(e) => Err(e),
    }
}

/// Resolves a network `_id` or name to the session `_id`.
pub fn resolve_network_to_id(identifier: &str, networks: &[JsonValue]) -> (res: Result<String, CoreError>)
    ensures
        match spec_resolve_network_to_id(networks@, identifier@) {
            Ok(id) => res matches Ok(s) && s@ == id,
            Err(e) => res matches Err(x) && x@ == e,
        },
{
    match locate_network(identifier, networks) {
        Ok(i) => match as_str(get(&networks[i], "_id")) {
            Some(id) => Ok(owned(id)),
            None => Err(CoreError::NetworkNotFound { identifier: owned(identifier) }),
        },
        Err(e) => Err(e),
    }
}

/// Session `_id` and VLAN id of the network that `ident` designates.
pub open spec fn spec_resolve_network_session_id(records: Seq<JsonValue>, ident: Seq<char>) -> Result<(Seq<char>, Option<u16>), ErrorView> {
    match spec_locate_network(records, ident) {
        Ok(i) => Ok((record_id(records[i]@)->Some_0, spec_parse_vlan_id(records[i]@))),
        Err(e) => Err(e),
    }
}

/// Resolves a network `_id` or name to its session `_id` and VLAN id. An
/// exact `_id` match wins over names, so an ambiguous name never shadows an id.
pub fn resolve_network_session_id(identifier: &str, records: &[JsonValue]) -> (res: Result<(String, Option<u16>), CoreError>)
    ensures
        match spec_resolve_network_session_id(records@, identifier@) {
            Ok(r) => res matches Ok(p) && p.0@ == r.0 && p.1 == r.1,
            Err(e) => res matches Err(x) && x@ == e,
        },
{
    match locate_network(identifier, records) {
        Ok(i) => match as_str(get(&records[i], "_id")) {
            Some(id) => Ok((owned(id), parse_vlan_id(&records[i]))),
            None => Err(CoreError::NetworkNotFound { identifier: owned(identifier) }),
        },
        Err(e) => Err(e),
    }
}


proof fn lemma_id_slot_exists(records: Seq<JsonValue>, ident: Seq<char>, i: int)
    requires
        0 <= i < records.len(),
        record_id(records[i]@) == Some(ident),
    ensures
        id_slot(records, ident) is Some,
    decreases records.len(),
{
    if record_id(records[0]@) != Some(ident) {
        assert(records.drop_first()[i - 1] == records[i]);
        lemma_id_slot_exists(records.drop_first(), ident, i - 1);
    }
}

proof fn lemma_id_slot_found(records: Seq<JsonValue>, ident: Seq<char>)
    requires
        id_slot(records, ident) is Some,
    ensures
        0 <= id_slot(records, ident)->Some_0 < records.len(),
        record_id(records[id_slot(records, ident)->Some_0]@) == Some(ident),
    decreases records.len(),
{
    if record_id(records[0]@) != Some(ident) {
        lemma_id_slot_found(records.drop_first(), ident);
    }
}

/// A reference that is some record's session `_id` resolves to itself, however
/// many networks share it as a name.
pub proof fn lemma_exact_id_wins(records: Seq<JsonValue>, ident: Seq<char>, i: int)
    requires
        0 <= i < records.len(),
        record_id(records[i]@) == Some(ident),
    ensures
        spec_resolve_network_to_id(records, ident) == Ok::<Seq<char>, ErrorView>(ident),
        spec_resolve_network_session_id(records, ident) is Ok,
        spec_resolve_network_session_id(records, ident)->Ok_0.0 == ident,
{
    lemma_id_slot_exists(records, ident, i);
    lemma_id_slot_found(records, ident);
}

} // verus!
