//! Normalized port profiles: a port's live port-table row merged with its
//! override entry, the override taking precedence member by member.
use vstd::prelude::*;

use crate::json::{
    as_array, as_bool, as_str, as_u64, collect_strings, deref_opt, get, get_opt, jarray, jbool, jget_opt, jstr,
    jstrings, ju64, jview_items, JView, JsonValue,
};
use crate::model::device::{PoeMode, PortMode, PortProfile, PortSpeedSetting, PortState, StpState};
use crate::order::{stable_sort_by_key, stable_sorting};
use crate::ports::networks::{lookup_name, lookup_vlan, InfoView, NetworkLookup};
use crate::ports::overrides::{port_idx, spec_port_idx};
use crate::ports::{
    classify_mode, parse_poe_mode, parse_speed, parse_stp_state, spec_classify_mode, spec_parse_poe_mode,
    spec_parse_speed, spec_parse_stp_state,
};
use crate::text::{is_empty_text, non_empty, opt_view, owned, str_eq, string_views};

verus! {

/// Views of the sources of a profile, in order of precedence.
pub open spec fn source_views(sources: Seq<Option<&JsonValue>>) -> Seq<Option<JView>> {
    sources.map_values(|o: Option<&JsonValue>| deref_opt(o))
}

/// Text of member `key` in the first source that has one.
pub open spec fn first_str(sources: Seq<Option<JView>>, key: Seq<char>) -> Option<Seq<char>>
    decreases sources.len(),
{
    if sources.len() == 0 {
        None
    } else {
        match jstr(jget_opt(sources[0], key)) {
            Some(s) => Some(s),
            None => first_str(sources.drop_first(), key),
        }
    }
}

/// Boolean member `key` of the first source that has one.
pub open spec fn first_flag(sources: Seq<Option<JView>>, key: Seq<char>) -> Option<bool>
    decreases sources.len(),
{
    if sources.len() == 0 {
        None
    } else {
        match jbool(jget_opt(sources[0], key)) {
            Some(b) => Some(b),
            None => first_flag(sources.drop_first(), key),
        }
    }
}

/// Array member `key` of the first source that has one.
pub open spec fn first_arr(sources: Seq<Option<JView>>, key: Seq<char>) -> Option<Seq<JView>>
    decreases sources.len(),
{
    if sources.len() == 0 {
        None
    } else {
        match jarray(jget_opt(sources[0], key)) {
            Some(a) => Some(a),
            None => first_arr(sources.drop_first(), key),
        }
    }
}

/// Text of member `key` in the first source that has one.
pub fn first_string(sources: &[Option<&JsonValue>], key: &str) -> (res: Option<String>)
    ensures
        opt_view(res) == first_str(source_views(sources@), key@),
{
    let ghost sv = source_views(sources@);
    let mut i: usize = 0;
    assert(sv.skip(0) =~= sv);
    while i < sources.len()
        invariant
            i <= sources.len(),
            sv == source_views(sources@),
            first_str(sv, key@) == first_str(sv.skip(i as int), key@),
        decreases sources.len() - i,
    {
        assert(sv.skip(i as int)[0] == deref_opt(sources@[i as int]));
        assert(sv.skip(i as int).drop_first() =~= sv.skip(i + 1));
        if let Some(s) = as_str(get_opt(sources[i], key)) {
            return Some(owned(s));
        }
        i = i + 1;
    }
    None
}

/// Boolean member `key` of the first source that has one.
pub fn first_bool(sources: &[Option<&JsonValue>], key: &str) -> (res: Option<bool>)
    ensures
        res == first_flag(source_views(sources@), key@),
{
    let ghost sv = source_views(sources@);
    let mut i: usize = 0;
    assert(sv.skip(0) =~= sv);
    while i < sources.len()
        invariant
            i <= sources.len(),
            sv == source_views(sources@),
            first_flag(sv, key@) == first_flag(sv.skip(i as int), key@),
        decreases sources.len() - i,
    {
        assert(sv.skip(i as int)[0] == deref_opt(sources@[i as int]));
        assert(sv.skip(i as int).drop_first() =~= sv.skip(i + 1));
        if let Some(b) = as_bool(get_opt(sources[i], key)) {
            return Some(b);
        }
        i = i + 1;
    }
    None
}

/// Array member `key` of the first source that has one.
pub fn first_array<'a>(sources: &[Option<&'a JsonValue>], key: &str) -> (res: Option<&'a Vec<JsonValue>>)
    ensures
        match res {
            Some(a) => first_arr(source_views(sources@), key@) == Some(jview_items(a@)),
            None => first_arr(source_views(sources@), key@) is None,
        },
{
    let ghost sv = source_views(sources@);
    let mut i: usize = 0;
    assert(sv.skip(0) =~= sv);
    while i < sources.len()
        invariant
            i <= sources.len(),
            sv == source_views(sources@),
            first_arr(sv, key@) == first_arr(sv.skip(i as int), key@),
        decreases sources.len() - i,
    {
        assert(sv.skip(i as int)[0] == deref_opt(sources@[i as int]));
        assert(sv.skip(i as int).drop_first() =~= sv.skip(i + 1));
        if let Some(a) = as_array(get_opt(sources[i], key)) {
            return Some(a);
        }
        i = i + 1;
    }
    None
}

/// The values present, in order.
pub open spec fn present<A>(s: Seq<Option<A>>) -> Seq<A>
    decreases s.len(),
{
    if s.len() == 0 {
        Seq::empty()
    } else {
        match s.last() {
            Some(a) => present(s.drop_last()).push(a),
            None => present(s.drop_last()),
        }
    }
}

/// Link state of a live row: `up` true or false; unknown without a row or value.
pub open spec fn row_link_state(row: Option<JView>) -> PortState {
    match jbool(jget_opt(row, "up"@)) {
        Some(true) => PortState::Up,
        Some(false) => PortState::Down,
        None => PortState::Unknown,
    }
}

/// Tagged network ids of the merged sources.
pub open spec fn merged_tagged(srcs: Seq<Option<JView>>) -> Seq<Seq<char>> {
    match first_arr(srcs, "tagged_networkconf_ids"@) {
        Some(items) => jstrings(items),
        None => Seq::empty(),
    }
}

fn vlans_of(ids: &Vec<String>, networks: &NetworkLookup) -> (res: Vec<u16>)
    ensures
        res@ == present(string_views(ids@).map_values(|id: Seq<char>| lookup_vlan(networks@, id))),
{
    let ghost f = |id: Seq<char>| lookup_vlan(networks@, id);
    let mut out: Vec<u16> = Vec::new();
    let mut i: usize = 0;
    while i < ids.len()
        invariant
            i <= ids.len(),
            f == (|id: Seq<char>| lookup_vlan(networks@, id)),
            out@ == present(string_views(ids@).take(i as int).map_values(f)),
        decreases ids.len() - i,
    {
        let ghost s = string_views(ids@).take(i + 1).map_values(f);
        assert(s.drop_last() =~= string_views(ids@).take(i as int).map_values(f));
        assert(s.last() == lookup_vlan(networks@, ids@[i as int]@));
        if let Some(v) = networks.vlan(ids[i].as_str()) {
            out.push(v);
        }
        i = i + 1;
    }
    assert(string_views(ids@).take(ids.len() as int) =~= string_views(ids@));
    out
}

fn names_of(ids: &Vec<String>, networks: &NetworkLookup) -> (res: Vec<String>)
    ensures
        string_views(res@) == present(string_views(ids@).map_values(|id: Seq<char>| lookup_name(networks@, id))),
{
    let ghost f = |id: Seq<char>| lookup_name(networks@, id);
    let mut out: Vec<String> = Vec::new();
    let mut i: usize = 0;
    while i < ids.len()
        invariant
            i <= ids.len(),
            f == (|id: Seq<char>| lookup_name(networks@, id)),
            string_views(out@) == present(string_views(ids@).take(i as int).map_values(f)),
        decreases ids.len() - i,
    {
        let ghost s = string_views(ids@).take(i + 1).map_values(f);
        let ghost prev = out@;
        assert(s.drop_last() =~= string_views(ids@).take(i as int).map_values(f));
        assert(s.last() == lookup_name(networks@, ids@[i as int]@));
        if let Some(n) = networks.name(ids[i].as_str()) {
            out.push(n);
            assert(string_views(out@) =~= string_views(prev).push(n@));
        }
        i = i + 1;
    }
    assert(string_views(ids@).take(ids.len() as int) =~= string_views(ids@));
    out
}

/// `p` is the profile of port `index` built from its live row and its
/// override entry: for every setting the override wins over the row, member by
/// member; network names and VLAN ids come from `nets`, unknown networks skipped.
pub open spec fn is_profile(p: PortProfile, index: u32, row: Option<JView>, ov: Option<JView>, nets: Seq<InfoView>) -> bool {
    let srcs = seq![ov, row];
    let native = non_empty(first_str(srcs, "native_networkconf_id"@));
    let tagged = merged_tagged(srcs);
    let mgmt = first_str(srcs, "tagged_vlan_mgmt"@);
    &&& p.index == index
    &&& opt_view(p.name) == first_str(srcs, "name"@)
    &&& p.link_state == row_link_state(row)
    &&& opt_view(p.native_network_id) == native
    &&& string_views(p.tagged_network_ids@) == tagged
    &&& p.tagged_all == (mgmt == Some("auto"@))
    &&& p.mode == spec_classify_mode(first_str(srcs, "op_mode"@), mgmt, tagged.len())
    &&& p.native_vlan_id == match native {
        Some(id) => lookup_vlan(nets, id),
        None => None,
    }
    &&& opt_view(p.native_network_name) == match native {
        Some(id) => lookup_name(nets, id),
        None => None,
    }
    &&& p.tagged_vlan_ids@ == present(tagged.map_values(|id: Seq<char>| lookup_vlan(nets, id)))
    &&& string_views(p.tagged_network_names@) == present(
        tagged.map_values(|id: Seq<char>| lookup_name(nets, id)),
    )
    &&& p.poe_mode == match first_str(srcs, "poe_mode"@) {
        Some(m) => Some(spec_parse_poe_mode(m)),
        None => None,
    }
    &&& p.speed_setting == spec_parse_speed(first_str(srcs, "speed"@), first_flag(srcs, "autoneg"@))
    &&& p.link_speed_mbps == match ju64(jget_opt(row, "speed"@)) {
        Some(n) => Some((n % 0x1_0000_0000) as u32),
        None => None,
    }
    &&& p.stp_state == match first_str(srcs, "stp_state"@) {
        Some(s) => spec_parse_stp_state(s),
        None => StpState::Unknown,
    }
    &&& opt_view(p.port_profile_id) == non_empty(first_str(srcs, "portconf_id"@))
}

/// The profile of port `index` from its live row and override entry; for
/// every setting the override wins over the row, member by member. Network
/// names and VLAN ids come from `networks`; unknown networks are skipped.
pub fn build_profile(
    index: u32,
    row: Option<&JsonValue>,
    override_: Option<&JsonValue>,
    networks: &NetworkLookup,
) -> (res: PortProfile)
    ensures
        is_profile(res, index, deref_opt(row), deref_opt(override_), networks@),
{
    let sources = [override_, row];
    let src = sources.as_slice();
    assert(source_views(src@) =~= seq![deref_opt(override_), deref_opt(row)]);
    let link_state = match as_bool(get_opt(row, "up")) {
        Some(true) => PortState::Up,
        Some(false) => PortState::Down,
        None => PortState::Unknown,
    };
    let name = first_string(src, "name");
    let native_network_id = match first_string(src, "native_networkconf_id") {
        Some(s) => if !is_empty_text(s.as_str()) {
            Some(s)
        } else {
            None
        },
        None => None,
    };
    let tagged_network_ids = match first_array(src, "tagged_networkconf_ids") {
        Some(items) => collect_strings(items),
        None => {
            let v: Vec<String> = Vec::new();
            assert(string_views(v@) =~= Seq::<Seq<char>>::empty());
            v
        },
    };
    let tagged_vlan_mgmt = first_string(src, "tagged_vlan_mgmt");
    let op_mode = first_string(src, "op_mode");
    let tagged_all = match &tagged_vlan_mgmt {
        Some(m) => str_eq(m.as_str(), "auto"),
        None => false,
    };
    let mode = classify_mode(
        match &op_mode {
            Some(s) => Some(s.as_str()),
            None => None,
        },
        match &tagged_vlan_mgmt {
            Some(s) => Some(s.as_str()),
            None => None,
        },
        tagged_network_ids.as_slice(),
    );
    let native_vlan_id = match &native_network_id {
        Some(id) => networks.vlan(id.as_str()),
        None => None,
    };
    let native_network_name = match &native_network_id {
        Some(id) => networks.name(id.as_str()),
        None => None,
    };
    let tagged_vlan_ids = vlans_of(&tagged_network_ids, networks);
    let tagged_network_names = names_of(&tagged_network_ids, networks);
    let poe_mode = match first_string(src, "poe_mode") {
        Some(p) => Some(parse_poe_mode(p.as_str())),
        None => None,
    };
    let speed_text = first_string(src, "speed");
    let speed_setting = parse_speed(
        match &speed_text {
            Some(s) => Some(s.as_str()),
            None => None,
        },
        first_bool(src, "autoneg"),
    );
    let link_speed_mbps = match as_u64(get_opt(row, "speed")) {
        Some(n) => Some((n % 0x1_0000_0000) as u32),
        None => None,
    };
    let stp_state = match first_string(src, "stp_state") {
        Some(s) => parse_stp_state(s.as_str()),
        None => StpState::Unknown,
    };
    let port_profile_id = match first_string(src, "portconf_id") {
        Some(s) => if !is_empty_text(s.as_str()) {
            Some(s)
        } else {
            None
        },
        None => None,
    };
    PortProfile {
        index,
        name,
        link_state,
        mode,
        native_network_id,
        native_vlan_id,
        native_network_name,
        tagged_network_ids,
        tagged_vlan_ids,
        tagged_network_names,
        tagged_all,
        poe_mode,
        speed_setting,
        link_speed_mbps,
        stp_state,
        port_profile_id,
    }
}


// ── listing ────────────────────────────────────────────────────────

/// The entries that carry a port index, with their index, in order.
pub open spec fn indexed(s: Seq<JsonValue>) -> Seq<(u32, JView)>
    decreases s.len(),
{
    if s.len() == 0 {
        Seq::empty()
    } else {
        match spec_port_idx(s.last()@) {
            Some(i) => indexed(s.drop_last()).push((i, s.last()@)),
            None => indexed(s.drop_last()),
        }
    }
}

/// The last override entry of port `idx`.
pub open spec fn last_override(ov: Seq<JsonValue>, idx: u32) -> Option<JView>
    decreases ov.len(),
{
    if ov.len() == 0 {
        None
    } else if spec_port_idx(ov.last()@) == Some(idx) {
        Some(ov.last()@)
    } else {
        last_override(ov.drop_last(), idx)
    }
}

/// What each listed profile is built from: port index, live row, override
/// entry. The live rows drive the list; the last override of a port applies to
/// it. Without live rows the override entries stand alone.
pub open spec fn profile_sources(ov: Seq<JsonValue>, table: Seq<JsonValue>) -> Seq<(u32, Option<JView>, Option<JView>)> {
    if table.len() == 0 {
        indexed(ov).map_values(|e: (u32, JView)| (e.0, None::<JView>, Some(e.1)))
    } else {
        indexed(table).map_values(|e: (u32, JView)| (e.0, Some(e.1), last_override(ov, e.0)))
    }
}

/// The port index of each source.
pub open spec fn source_keys(srcs: Seq<(u32, Option<JView>, Option<JView>)>) -> Seq<u32> {
    srcs.map_values(|s: (u32, Option<JView>, Option<JView>)| s.0)
}

fn find_override<'a>(overrides: &'a Vec<JsonValue>, idx: u32) -> (res: Option<&'a JsonValue>)
    ensures
        deref_opt(res) == last_override(overrides@, idx),
{
    let ghost s = overrides@;
    let mut i: usize = overrides.len();
    assert(s.take(i as int) =~= s);
    while i > 0
        invariant
            i <= overrides@.len(),
            s == overrides@,
            last_override(s, idx) == last_override(s.take(i as int), idx),
        decreases i,
    {
        assert(s.take(i as int).drop_last() =~= s.take(i - 1));
        assert(s.take(i as int).last() == s[i - 1]);
        if port_idx(&overrides[i - 1]) == Some(idx) {
            return Some(&overrides[i - 1]);
        }
        i = i - 1;
    }
    None
}

/// The normalized profiles of a device's ports, sorted by port index (ports
/// with equal indices keep their order).
pub fn port_profiles(overrides: &Vec<JsonValue>, port_table: &Vec<JsonValue>, networks: &NetworkLookup) -> (res: Vec<PortProfile>)
    ensures
        ({
            let srcs = profile_sources(overrides@, port_table@);
            exists|order: Seq<int>| #[trigger] stable_sorting(source_keys(srcs), order) && res@.len() == srcs.len()
                && forall|j: int| 0 <= j < order.len() ==> is_profile(
                    #[trigger] res@[j],
                    srcs[order[j]].0,
                    srcs[order[j]].1,
                    srcs[order[j]].2,
                    networks@,
                )
        }),
{
    let ghost srcs = profile_sources(overrides@, port_table@);
    let table_driven = port_table.len() > 0;
    let driver = if table_driven { port_table } else { overrides };
    let ghost ds = driver@;
    let mut profiles: Vec<PortProfile> = Vec::new();
    let mut keys: Vec<u32> = Vec::new();
    let mut i: usize = 0;
    while i < driver.len()
        invariant
            ds == driver@,
            table_driven == (port_table@.len() > 0),
            ds == if table_driven { port_table@ } else { overrides@ },
            srcs == profile_sources(overrides@, port_table@),
            i <= driver.len(),
            profiles@.len() == indexed(ds.take(i as int)).len(),
            keys@.len() == profiles@.len(),
            forall|j: int| 0 <= j < profiles@.len() ==> {
                let e = #[trigger] indexed(ds.take(i as int))[j];
                &&& keys@[j] == e.0
                &&& if table_driven {
                    is_profile(profiles@[j], e.0, Some(e.1), last_override(overrides@, e.0), networks@)
                } else {
                    is_profile(profiles@[j], e.0, None, Some(e.1), networks@)
                }
            },
        decreases driver.len() - i,
    {
        let ghost pre = indexed(ds.take(i as int));
        assert(ds.take(i + 1).drop_last() =~= ds.take(i as int));
        assert(ds.take(i + 1).last() == ds[i as int]);
        let item = &driver[i];
        if let Some(idx) = port_idx(item) {
            let p = if table_driven {
                build_profile(idx, Some(item), find_override(overrides, idx), networks)
            } else {
                build_profile(idx, None, Some(item), networks)
            };
            profiles.push(p);
            keys.push(idx);
        }
        assert(forall|j: int| 0 <= j < pre.len() ==> indexed(ds.take(i + 1))[j] == pre[j]);
        i = i + 1;
    }
    assert(ds.take(driver.len() as int) =~= ds);
    assert(source_keys(srcs) =~= keys@);
    let res = stable_sort_by_key(profiles, &keys);
    res
}

} // verus!
