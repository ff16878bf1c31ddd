//! Session API (v2) NAT rules: the body of a new rule, the merge of an update
//! into an existing rule, and the lookups these need.
use vstd::prelude::*;

use crate::error::{CoreError, ErrorView};
use crate::json::{
    as_str, as_u64, get, get_opt, jget, jget_opt, jstr, ju64, jview, jview_items, jview_members, lemma_jview_items,
    lemma_jview_members, lemma_mget_snoc, mget, obj_delete, obj_lookup, obj_set, JView, JsonValue,
};
use crate::convert::nat_policy::{filter_text, is_nat_from_v2};
use crate::model::entity::{is_entity_id_of, EntityId};
use crate::model::firewall::{NatPolicy, NatType};
use crate::ports::overrides::object_members;
use crate::requests::policy::{CreateNatPolicyRequest, UpdateNatPolicyRequest};
use crate::text::{lowercase, opt_str_view, opt_view, owned, str_eq, to_lowercase};

verus! {

/// Wire NAT type of a requested type (compared in lowercase).
pub open spec fn nat_type_wire(lower: Seq<char>) -> Seq<char> {
    if lower == "masquerade"@ {
        "MASQUERADE"@
    } else if lower == "source"@ || lower == "source_nat"@ || lower == "snat"@ {
        "SNAT"@
    } else {
        "DNAT"@
    }
}

/// Wire protocol of a requested protocol (compared in lowercase).
pub open spec fn protocol_wire(lower: Seq<char>) -> Seq<char> {
    if lower == "tcp"@ {
        "tcp"@
    } else if lower == "udp"@ {
        "udp"@
    } else if lower == "tcp_udp"@ || lower == "tcp_and_udp"@ {
        "tcp_udp"@
    } else {
        "all"@
    }
}

fn nat_type_of(t: &str) -> (res: &'static str)
    ensures
        res@ == nat_type_wire(lowercase(t@)),
{
    let l = to_lowercase(t);
    let l = l.as_str();
    if str_eq(l, "masquerade") {
        "MASQUERADE"
    } else if str_eq(l, "source") || str_eq(l, "source_nat") || str_eq(l, "snat") {
        "SNAT"
    } else {
        "DNAT"
    }
}

fn protocol_of(p: &str) -> (res: &'static str)
    ensures
        res@ == protocol_wire(lowercase(p@)),
{
    let l = to_lowercase(p);
    let l = l.as_str();
    if str_eq(l, "tcp") {
        "tcp"
    } else if str_eq(l, "udp") {
        "udp"
    } else if str_eq(l, "tcp_udp") || str_eq(l, "tcp_and_udp") {
        "tcp_udp"
    } else {
        "all"
    }
}

/// A v2 NAT filter: `NONE` without address and port, otherwise
/// `ADDRESS_AND_PORT` with the given ones.
pub open spec fn spec_build_filter(address: Option<Seq<char>>, port: Option<Seq<char>>) -> JView {
    let common = seq![
        ("firewall_group_ids"@, JView::Array(Seq::empty())),
        ("invert_address"@, JView::Bool(false)),
        ("invert_port"@, JView::Bool(false)),
    ];
    if address is None && port is None {
        JView::Object(seq![("filter_type"@, JView::Str("NONE"@))] + common)
    } else {
        let base = seq![("filter_type"@, JView::Str("ADDRESS_AND_PORT"@))] + common;
        let with_address = match address {
            Some(a) => base.push(("address"@, JView::Str(a))),
            None => base,
        };
        JView::Object(
            match port {
                Some(p) => with_address.push(("port"@, JView::Str(p))),
                None => with_address,
            },
        )
    }
}

fn entry(key: &str, value: JsonValue) -> (res: (String, JsonValue))
    ensures
        res.0@ == key@,
        res.1 == value,
{
    (owned(key), value)
}

/// Builds a v2 NAT filter object.
pub fn build_filter(address: Option<&str>, port: Option<&str>) -> (res: JsonValue)
    ensures
        res@ == spec_build_filter(opt_str_view(address), opt_str_view(port)),
{
    let empty: Vec<JsonValue> = Vec::new();
    let groups = JsonValue::Array(empty);
    assert(groups@ == JView::Array(Seq::empty())) by {
        assert(jview_items(Seq::<JsonValue>::empty()) =~= Seq::<JView>::empty());
    }
    let kind = if address.is_none() && port.is_none() {
        "NONE"
    } else {
        "ADDRESS_AND_PORT"
    };
    let mut members = vec![
        entry("filter_type", JsonValue::Str(owned(kind))),
        entry("firewall_group_ids", groups),
        entry("invert_address", JsonValue::Bool(false)),
        entry("invert_port", JsonValue::Bool(false)),
    ];
    if let Some(a) = address {
        members.push(entry("address", JsonValue::Str(owned(a))));
    }
    if let Some(p) = port {
        members.push(entry("port", JsonValue::Str(owned(p))));
    }
    proof {
        lemma_jview_members(members@);
    }
    let res = JsonValue::Object(members);
    assert(res@ == spec_build_filter(opt_str_view(address), opt_str_view(port))) by {
        assert(jview_members(members@) =~= spec_build_filter(opt_str_view(address), opt_str_view(port))->Object_0);
    }
    res
}

/// A filter with new address and port values over those of `existing`.
pub open spec fn spec_merge_filter(existing: Option<JView>, address: Option<Seq<char>>, port: Option<Seq<char>>) -> JView {
    spec_build_filter(
        match address {
            Some(a) => Some(a),
            None => jstr(jget_opt(existing, "address"@)),
        },
        match port {
            Some(p) => Some(p),
            None => jstr(jget_opt(existing, "port"@)),
        },
    )
}

/// Merges new address and port values into an existing filter, keeping the
/// values that were not supplied.
pub fn merge_filter(existing: Option<&JsonValue>, new_addr: Option<&str>, new_port: Option<&str>) -> (res: JsonValue)
    ensures
        res@ == spec_merge_filter(crate::json::deref_opt(existing), opt_str_view(new_addr), opt_str_view(new_port)),
{
    let address = match new_addr {
        Some(a) => Some(a),
        None => as_str(get_opt(existing, "address")),
    };
    let port = match new_port {
        Some(p) => Some(p),
        None => as_str(get_opt(existing, "port")),
    };
    build_filter(address, port)
}

/// Position of the first rule whose `_id` is `id`.
pub open spec fn rule_slot(rules: Seq<JsonValue>, id: Seq<char>) -> Option<int>
    decreases rules.len(),
{
    if rules.len() == 0 {
        None
    } else if jstr(jget(rules[0]@, "_id"@)) == Some(id) {
        Some(0)
    } else {
        match rule_slot(rules.drop_first(), id) {
            Some(i) => Some(i + 1),
            None => None,
        }
    }
}

proof fn lemma_rule_slot(rules: Seq<JsonValue>, id: Seq<char>, i: int)
    requires
        0 <= i <= rules.len(),
        forall|j: int| 0 <= j < i ==> jstr(jget(#[trigger] rules[j]@, "_id"@)) != Some(id),
        i < rules.len() ==> jstr(jget(rules[i]@, "_id"@)) == Some(id),
    ensures
        rule_slot(rules, id) == if i < rules.len() { Some(i) } else { None::<int> },
    decreases i,
{
    if i > 0 {
        assert forall|j: int| 0 <= j < i - 1 implies jstr(jget(#[trigger] rules.drop_first()[j]@, "_id"@)) != Some(id) by {
            assert(rules.drop_first()[j] == rules[j + 1]);
        }
        lemma_rule_slot(rules.drop_first(), id, i - 1);
    } else if rules.len() == 0 {
    }
}

/// Finds the NAT rule with session `_id` `id`; `NotFound` without one.
pub fn find_nat_rule(rules: &Vec<JsonValue>, id: &str) -> (res: Result<usize, CoreError>)
    ensures
        match rule_slot(rules@, id@) {
            Some(i) => 0 <= i < rules@.len() && (res matches Ok(k) && k as int == i),
            None => res matches Err(e) && e@ == ErrorView::NotFound("NAT rule"@, id@),
        },
{
    find_record(rules, id, "NAT rule")
}

/// Finds the Session API record with `_id` `id`; `NotFound` of
/// `entity_type` without one.
pub fn find_record(rules: &Vec<JsonValue>, id: &str, entity_type: &str) -> (res: Result<usize, CoreError>)
    ensures
        match rule_slot(rules@, id@) {
            Some(i) => 0 <= i < rules@.len() && (res matches Ok(k) && k as int == i),
            None => res matches Err(e) && e@ == ErrorView::NotFound(entity_type@, id@),
        },
{
    let mut i: usize = 0;
    while i < rules.len()
        invariant
            i <= rules.len(),
            forall|j: int| 0 <= j < i ==> jstr(jget(#[trigger] rules@[j]@, "_id"@)) != Some(id@),
        decreases rules.len() - i,
    {
        let hit = match as_str(get(&rules[i], "_id")) {
            Some(s) => str_eq(s, id),
            None => false,
        };
        if hit {
            proof {
                lemma_rule_slot(rules@, id@, i as int);
            }
            return Ok(i);
        }
        i = i + 1;
    }
    proof {
        lemma_rule_slot(rules@, id@, i as int);
    }
    Err(CoreError::NotFound { entity_type: owned(entity_type), identifier: owned(id) })
}

/// Largest `rule_index` among the rules, 0 without one.
pub open spec fn max_rule_index(rules: Seq<JView>) -> u64
    decreases rules.len(),
{
    if rules.len() == 0 {
        0
    } else {
        let rest = max_rule_index(rules.drop_last());
        match ju64(jget(rules.last(), "rule_index"@)) {
            Some(n) => if n > rest { n } else { rest },
            None => rest,
        }
    }
}

/// The rule index after the largest one in use (saturating at `u64::MAX`).
pub fn next_rule_index(rules: &Vec<JsonValue>) -> (res: u64)
    ensures
        res == if max_rule_index(jview_items(rules@)) < u64::MAX {
            (max_rule_index(jview_items(rules@)) + 1) as u64
        } else {
            u64::MAX
        },
{
    proof {
        lemma_jview_items(rules@);
    }
    let ghost vs = jview_items(rules@);
    let mut max: u64 = 0;
    let mut i: usize = 0;
    while i < rules.len()
        invariant
            i <= rules.len(),
            vs == jview_items(rules@),
            vs.len() == rules@.len(),
            forall|j: int| 0 <= j < rules@.len() ==> #[trigger] vs[j] == jview(rules@[j]),
            max == max_rule_index(vs.take(i as int)),
        decreases rules.len() - i,
    {
        assert(vs.take(i + 1).drop_last() =~= vs.take(i as int));
        assert(vs.take(i + 1).last() == rules@[i as int]@);
        if let Some(n) = as_u64(get(&rules[i], "rule_index")) {
            if n > max {
                max = n;
            }
        }
        i = i + 1;
    }
    assert(vs.take(rules.len() as int) =~= vs);
    max.saturating_add(1)
}

/// The session `_id` of the network an interface id names: a legacy id as it
/// is; a UUID via the network record whose `external_id` it is.
pub open spec fn interface_slot(records: Seq<JsonValue>, uuid: Seq<char>) -> Option<int>
    decreases records.len(),
{
    if records.len() == 0 {
        None
    } else if jstr(jget(records[0]@, "external_id"@)) == Some(uuid) && jstr(jget(records[0]@, "_id"@)) is Some {
        Some(0)
    } else {
        match interface_slot(records.drop_first(), uuid) {
            Some(i) => Some(i + 1),
            None => None,
        }
    }
}

/// Whether a network record maps UUID `uuid` to a session `_id`.
pub open spec fn maps_interface(r: JsonValue, uuid: Seq<char>) -> bool {
    jstr(jget(r@, "external_id"@)) == Some(uuid) && jstr(jget(r@, "_id"@)) is Some
}

proof fn lemma_interface_slot(records: Seq<JsonValue>, uuid: Seq<char>, i: int)
    requires
        0 <= i <= records.len(),
        forall|j: int| 0 <= j < i ==> !maps_interface(#[trigger] records[j], uuid),
        i < records.len() ==> maps_interface(records[i], uuid),
    ensures
        interface_slot(records, uuid) == if i < records.len() { Some(i) } else { None::<int> },
    decreases i,
{
    if i > 0 {
        assert forall|j: int| 0 <= j < i - 1 implies !maps_interface(#[trigger] records.drop_first()[j], uuid) by {
            assert(records.drop_first()[j] == records[j + 1]);
        }
        lemma_interface_slot(records.drop_first(), uuid, i - 1);
    }
}

/// The session `_id` of the interface network, or `NotFound`.
pub open spec fn spec_resolve_interface(iface: EntityId, records: Seq<JsonValue>) -> Result<Seq<char>, ErrorView> {
    match iface {
        EntityId::Legacy(id) => Ok(id@),
        EntityId::Uuid(u) => match interface_slot(records, u@) {
            Some(i) => Ok(jstr(jget(records[i]@, "_id"@))->Some_0),
            None => Err(ErrorView::NotFound("network"@, u@)),
        },
    }
}

/// Resolves an interface id to the session `_id` the v2 NAT API expects.
pub fn resolve_interface_id(iface: &EntityId, records: &Vec<JsonValue>) -> (res: Result<String, CoreError>)
    ensures
        match spec_resolve_interface(*iface, records@) {
            Ok(id) => res matches Ok(s) && s@ == id,
            Err(e) => res matches Err(x) && x@ == e,
        },
{
    match iface {
        EntityId::Legacy(id) => Ok(id.clone()),
        EntityId::Uuid(u) => {
            let mut i: usize = 0;
            while i < records.len()
                invariant
                    i <= records.len(),
                    *iface == EntityId::Uuid(*u),
                    forall|j: int| 0 <= j < i ==> !maps_interface(#[trigger] records@[j], u@),
                decreases records.len() - i,
            {
                let r = &records[i];
                let ext_hit = match as_str(get(r, "external_id")) {
                    Some(e) => str_eq(e, u.as_str()),
                    None => false,
                };
                if ext_hit {
                    if let Some(id) = as_str(get(r, "_id")) {
                        proof {
                            lemma_interface_slot(records@, u@, i as int);
                        }
                        return Ok(owned(id));
                    }
                }
                i = i + 1;
            }
            proof {
                lemma_interface_slot(records@, u@, i as int);
            }
            Err(CoreError::NotFound { entity_type: owned("network"), identifier: u.clone() })
        },
    }
}


// ── rule bodies ────────────────────────────────────────────────────

/// Wire type of a new rule's requested type.
pub open spec fn create_rule_type(req: CreateNatPolicyRequest) -> Seq<char> {
    nat_type_wire(lowercase(req.nat_type@))
}

/// The fixed members a new rule starts with.
pub open spec fn create_rule_base(req: CreateNatPolicyRequest, rule_index: u64) -> Seq<(Seq<char>, JView)> {
    seq![
        ("description"@, JView::Str(req.name@)),
        ("enabled"@, JView::Bool(req.enabled)),
        ("type"@, JView::Str(create_rule_type(req))),
        ("ip_version"@, JView::Str("IPV4"@)),
        ("is_predefined"@, JView::Bool(false)),
        ("rule_index"@, JView::UInt(rule_index)),
        ("setting_preference"@, JView::Str("manual"@)),
        ("logging"@, JView::Bool(false)),
        ("exclude"@, JView::Bool(false)),
        ("pppoe_use_base_interface"@, JView::Bool(false)),
    ]
}

/// The body of a new v2 NAT rule: its fixed settings, then the requested
/// protocol, translation and interface (inbound for destination NAT,
/// outbound otherwise), then both filters.
pub open spec fn spec_create_rule(req: CreateNatPolicyRequest, rule_index: u64, iface: Option<Seq<char>>) -> Seq<(Seq<char>, JView)> {
    let t = create_rule_type(req);
    let base = create_rule_base(req, rule_index);
    let p1 = match req.protocol {
        Some(p) => base.push(("protocol"@, JView::Str(protocol_wire(lowercase(p@))))),
        None => base,
    };
    let p2 = match req.translated_address {
        Some(a) => p1.push(("ip_address"@, JView::Str(a@))),
        None => p1,
    };
    let p3 = match req.translated_port {
        Some(p) => p2.push(("port"@, JView::Str(p@))),
        None => p2,
    };
    let p4 = match iface {
        Some(i) => p3.push((if t == "DNAT"@ { "in_interface"@ } else { "out_interface"@ }, JView::Str(i))),
        None => p3,
    };
    p4.push(("source_filter"@, spec_build_filter(opt_view(req.src_address), opt_view(req.src_port)))).push(
        ("destination_filter"@, spec_build_filter(opt_view(req.dst_address), opt_view(req.dst_port))),
    )
}

fn opt_ref(o: &Option<String>) -> (res: Option<&str>)
    ensures
        opt_str_view(res) == opt_view(*o),
{
    match o {
        Some(s) => Some(s.as_str()),
        None => None,
    }
}

/// Builds the body of a new v2 NAT rule, given the next free rule index and
/// the session `_id` of the requested interface.
pub fn create_nat_rule_body(req: &CreateNatPolicyRequest, rule_index: u64, interface_session_id: Option<&str>) -> (res: JsonValue)
    ensures
        res@ == JView::Object(spec_create_rule(*req, rule_index, opt_str_view(interface_session_id))),
{
    let t = nat_type_of(req.nat_type.as_str());
    let mut members = vec![
        entry("description", JsonValue::Str(req.name.clone())),
        entry("enabled", JsonValue::Bool(req.enabled)),
        entry("type", JsonValue::Str(owned(t))),
        entry("ip_version", JsonValue::Str(owned("IPV4"))),
        entry("is_predefined", JsonValue::Bool(false)),
        entry("rule_index", JsonValue::UInt(rule_index)),
        entry("setting_preference", JsonValue::Str(owned("manual"))),
        entry("logging", JsonValue::Bool(false)),
        entry("exclude", JsonValue::Bool(false)),
        entry("pppoe_use_base_interface", JsonValue::Bool(false)),
    ];
    if let Some(p) = &req.protocol {
        members.push(entry("protocol", JsonValue::Str(owned(protocol_of(p.as_str())))));
    }
    if let Some(a) = &req.translated_address {
        members.push(entry("ip_address", JsonValue::Str(a.clone())));
    }
    if let Some(p) = &req.translated_port {
        members.push(entry("port", JsonValue::Str(p.clone())));
    }
    if let Some(i) = interface_session_id {
        let key = if str_eq(t, "DNAT") {
            "in_interface"
        } else {
            "out_interface"
        };
        members.push(entry(key, JsonValue::Str(owned(i))));
    }
    members.push(entry("source_filter", build_filter(opt_ref(&req.src_address), opt_ref(&req.src_port))));
    members.push(entry("destination_filter", build_filter(opt_ref(&req.dst_address), opt_ref(&req.dst_port))));
    proof {
        lemma_jview_members(members@);
    }
    let res = JsonValue::Object(members);
    assert(jview_members(members@) =~= spec_create_rule(*req, rule_index, opt_str_view(interface_session_id)));
    res
}

proof fn lemma_rule_keys_distinct()
    ensures
        "description"@ != "enabled"@,
        "description"@ != "type"@,
        "description"@ != "in_interface"@,
        "description"@ != "out_interface"@,
        "description"@ != "protocol"@,
        "description"@ != "ip_address"@,
        "description"@ != "port"@,
        "description"@ != "source_filter"@,
        "description"@ != "destination_filter"@,
        "enabled"@ != "type"@,
        "enabled"@ != "in_interface"@,
        "enabled"@ != "out_interface"@,
        "enabled"@ != "protocol"@,
        "enabled"@ != "ip_address"@,
        "enabled"@ != "port"@,
        "enabled"@ != "source_filter"@,
        "enabled"@ != "destination_filter"@,
        "type"@ != "in_interface"@,
        "type"@ != "out_interface"@,
        "type"@ != "protocol"@,
        "type"@ != "ip_address"@,
        "type"@ != "port"@,
        "type"@ != "source_filter"@,
        "type"@ != "destination_filter"@,
        "in_interface"@ != "out_interface"@,
        "in_interface"@ != "protocol"@,
        "in_interface"@ != "ip_address"@,
        "in_interface"@ != "port"@,
        "in_interface"@ != "source_filter"@,
        "in_interface"@ != "destination_filter"@,
        "out_interface"@ != "protocol"@,
        "out_interface"@ != "ip_address"@,
        "out_interface"@ != "port"@,
        "out_interface"@ != "source_filter"@,
        "out_interface"@ != "destination_filter"@,
        "protocol"@ != "ip_address"@,
        "protocol"@ != "port"@,
        "protocol"@ != "source_filter"@,
        "protocol"@ != "destination_filter"@,
        "ip_address"@ != "port"@,
        "ip_address"@ != "source_filter"@,
        "ip_address"@ != "destination_filter"@,
        "port"@ != "source_filter"@,
        "port"@ != "destination_filter"@,
        "source_filter"@ != "destination_filter"@,
{
    reveal_strlit("description");
    reveal_strlit("enabled");
    reveal_strlit("type");
    reveal_strlit("in_interface");
    reveal_strlit("out_interface");
    reveal_strlit("protocol");
    reveal_strlit("ip_address");
    reveal_strlit("port");
    reveal_strlit("source_filter");
    reveal_strlit("destination_filter");
    assert("description"@.len() == 11);
    assert("enabled"@.len() == 7);
    assert("type"@.len() == 4);
    assert("in_interface"@.len() == 12);
    assert("out_interface"@.len() == 13);
    assert("protocol"@.len() == 8);
    assert("ip_address"@.len() == 10);
    assert("port"@.len() == 4);
    assert("source_filter"@.len() == 13);
    assert("destination_filter"@.len() == 18);
    assert("type"@[0] != "port"@[0]);
    assert("out_interface"@[0] != "source_filter"@[0]);
}

/// Member `k` of a v2 NAT rule with members `old` after `u` is merged in,
/// `iface` being the session `_id` of the requested interface. A change of
/// direction (destination NAT to or from the others) drops the interface key
/// of the old direction; the new interface goes under the key of the rule's
/// direction after the change.
pub open spec fn nat_update_member(old: Seq<(Seq<char>, JView)>, u: UpdateNatPolicyRequest, iface: Option<Seq<char>>, k: Seq<char>) -> Option<JView> {
    let old_type = jstr(mget(old, "type"@));
    let new_type = match u.nat_type {
        Some(t) => Some(nat_type_wire(lowercase(t@))),
        None => None,
    };
    let was_dnat = old_type == Some("DNAT"@);
    let stale = match new_type {
        Some(t) => if was_dnat != (t == "DNAT"@) {
            Some(if was_dnat { "in_interface"@ } else { "out_interface"@ })
        } else {
            None
        },
        None => None,
    };
    let cur_type = match new_type {
        Some(t) => t,
        None => match old_type {
            Some(t) => t,
            None => "DNAT"@,
        },
    };
    let iface_key = if cur_type == "DNAT"@ { "in_interface"@ } else { "out_interface"@ };
    if k == "description"@ {
        match u.description {
            Some(d) => Some(JView::Str(d@)),
            None => match u.name {
                Some(n) => Some(JView::Str(n@)),
                None => mget(old, k),
            },
        }
    } else if k == "enabled"@ {
        match u.enabled {
            Some(e) => Some(JView::Bool(e)),
            None => mget(old, k),
        }
    } else if k == "type"@ {
        match new_type {
            Some(t) => Some(JView::Str(t)),
            None => mget(old, k),
        }
    } else if k == "protocol"@ {
        match u.protocol {
            Some(p) => Some(JView::Str(protocol_wire(lowercase(p@)))),
            None => mget(old, k),
        }
    } else if k == "in_interface"@ || k == "out_interface"@ {
        if iface is Some && k == iface_key {
            Some(JView::Str(iface->Some_0))
        } else if stale == Some(k) {
            None
        } else {
            mget(old, k)
        }
    } else if k == "ip_address"@ {
        match u.translated_address {
            Some(a) => Some(JView::Str(a@)),
            None => mget(old, k),
        }
    } else if k == "port"@ {
        match u.translated_port {
            Some(p) => Some(JView::Str(p@)),
            None => mget(old, k),
        }
    } else if k == "source_filter"@ {
        if u.src_address is Some || u.src_port is Some {
            Some(spec_merge_filter(mget(old, k), opt_view(u.src_address), opt_view(u.src_port)))
        } else {
            mget(old, k)
        }
    } else if k == "destination_filter"@ {
        if u.dst_address is Some || u.dst_port is Some {
            Some(spec_merge_filter(mget(old, k), opt_view(u.dst_address), opt_view(u.dst_port)))
        } else {
            mget(old, k)
        }
    } else {
        mget(old, k)
    }
}

fn set_text(body: &mut Vec<(String, JsonValue)>, key: &str, value: &str)
    ensures
        forall|k: Seq<char>| #[trigger] mget(jview_members(final(body)@), k) == if k == key@ {
            Some(JView::Str(value@))
        } else {
            mget(jview_members(old(body)@), k)
        },
{
    obj_set(body, owned(key), JsonValue::Str(owned(value)));
}

/// The interface key of a rule of type `t`.
pub open spec fn interface_key(t: Seq<char>) -> Seq<char> {
    if t == "DNAT"@ { "in_interface"@ } else { "out_interface"@ }
}

/// Type of a rule after `u`, given its type `old_type` before.
pub open spec fn merged_type(old_type: Option<Seq<char>>, u: UpdateNatPolicyRequest) -> Option<Seq<char>> {
    match u.nat_type {
        Some(t) => Some(nat_type_wire(lowercase(t@))),
        None => old_type,
    }
}

fn merge_labels(body: &mut Vec<(String, JsonValue)>, update: &UpdateNatPolicyRequest)
    ensures
        forall|k: Seq<char>| #[trigger] mget(jview_members(final(body)@), k) == if k == "description"@ {
            match update.description {
                Some(d) => Some(JView::Str(d@)),
                None => match update.name {
                    Some(n) => Some(JView::Str(n@)),
                    None => mget(jview_members(old(body)@), k),
                },
            }
        } else if k == "enabled"@ {
            match update.enabled {
                Some(e) => Some(JView::Bool(e)),
                None => mget(jview_members(old(body)@), k),
            }
        } else {
            mget(jview_members(old(body)@), k)
        },
{
    proof {
        lemma_rule_keys_distinct();
    }
    if let Some(name) = &update.name {
        set_text(body, "description", name.as_str());
    }
    if let Some(enabled) = update.enabled {
        obj_set(body, owned("enabled"), JsonValue::Bool(enabled));
    }
    if let Some(desc) = &update.description {
        set_text(body, "description", desc.as_str());
    }
}

fn merge_type(body: &mut Vec<(String, JsonValue)>, update: &UpdateNatPolicyRequest)
    ensures
        ({
            let old_type = jstr(mget(jview_members(old(body)@), "type"@));
            let was_dnat = old_type == Some("DNAT"@);
            forall|k: Seq<char>| #[trigger] mget(jview_members(final(body)@), k) == if k == "type"@ {
                match merged_type(old_type, *update) {
                    Some(t) if update.nat_type is Some => Some(JView::Str(t)),
                    _ => mget(jview_members(old(body)@), k),
                }
            } else if update.nat_type is Some && was_dnat != (merged_type(old_type, *update) == Some("DNAT"@))
                && k == (if was_dnat { "in_interface"@ } else { "out_interface"@ }) {
                None
            } else {
                mget(jview_members(old(body)@), k)
            }
        }),
{
    proof {
        lemma_rule_keys_distinct();
    }
    if let Some(nat_type) = &update.nat_type {
        let mapped = nat_type_of(nat_type.as_str());
        let was_dnat = match as_str(obj_lookup(body, "type")) {
            Some(t) => str_eq(t, "DNAT"),
            None => false,
        };
        let is_dnat = str_eq(mapped, "DNAT");
        if was_dnat != is_dnat {
            let stale_key = if was_dnat {
                "in_interface"
            } else {
                "out_interface"
            };
            obj_delete(body, stale_key);
        }
        set_text(body, "type", mapped);
    }
}

fn merge_protocol_interface(body: &mut Vec<(String, JsonValue)>, update: &UpdateNatPolicyRequest, interface_session_id: Option<&str>)
    ensures
        ({
            let cur_type = match jstr(mget(jview_members(old(body)@), "type"@)) {
                Some(t) => t,
                None => "DNAT"@,
            };
            forall|k: Seq<char>| #[trigger] mget(jview_members(final(body)@), k) == if k == "protocol"@ && update.protocol is Some {
                Some(JView::Str(protocol_wire(lowercase(update.protocol->Some_0@))))
            } else if interface_session_id is Some && k == interface_key(cur_type) {
                Some(JView::Str(interface_session_id->Some_0@))
            } else {
                mget(jview_members(old(body)@), k)
            }
        }),
{
    proof {
        lemma_rule_keys_distinct();
    }
    if let Some(p) = &update.protocol {
        set_text(body, "protocol", protocol_of(p.as_str()));
    }
    if let Some(iface) = interface_session_id {
        let is_dnat = match as_str(obj_lookup(body, "type")) {
            Some(t) => str_eq(t, "DNAT"),
            None => true,
        };
        let key = if is_dnat {
            "in_interface"
        } else {
            "out_interface"
        };
        set_text(body, key, iface);
    }
}

fn merge_translation_filters(body: &mut Vec<(String, JsonValue)>, update: &UpdateNatPolicyRequest)
    ensures
        forall|k: Seq<char>| #[trigger] mget(jview_members(final(body)@), k) == if k == "ip_address"@ && update.translated_address is Some {
            Some(JView::Str(update.translated_address->Some_0@))
        } else if k == "port"@ && update.translated_port is Some {
            Some(JView::Str(update.translated_port->Some_0@))
        } else if k == "source_filter"@ && (update.src_address is Some || update.src_port is Some) {
            Some(spec_merge_filter(mget(jview_members(old(body)@), k), opt_view(update.src_address), opt_view(update.src_port)))
        } else if k == "destination_filter"@ && (update.dst_address is Some || update.dst_port is Some) {
            Some(spec_merge_filter(mget(jview_members(old(body)@), k), opt_view(update.dst_address), opt_view(update.dst_port)))
        } else {
            mget(jview_members(old(body)@), k)
        },
{
    proof {
        lemma_rule_keys_distinct();
    }
    if let Some(a) = &update.translated_address {
        set_text(body, "ip_address", a.as_str());
    }
    if let Some(p) = &update.translated_port {
        set_text(body, "port", p.as_str());
    }
    if update.src_address.is_some() || update.src_port.is_some() {
        let merged = merge_filter(obj_lookup(body, "source_filter"), opt_ref(&update.src_address), opt_ref(&update.src_port));
        obj_set(body, owned("source_filter"), merged);
    }
    if update.dst_address.is_some() || update.dst_port.is_some() {
        let merged = merge_filter(
            obj_lookup(body, "destination_filter"),
            opt_ref(&update.dst_address),
            opt_ref(&update.dst_port),
        );
        obj_set(body, owned("destination_filter"), merged);
    }
}

/// Merges an update into an existing v2 NAT rule's members (see
/// [`nat_update_member`]); `interface_session_id` is the session `_id` of the
/// interface the update names.
#[verifier::rlimit(50)]
pub fn merge_nat_update(body: &mut Vec<(String, JsonValue)>, update: &UpdateNatPolicyRequest, interface_session_id: Option<&str>)
    ensures
        forall|k: Seq<char>| #[trigger] mget(jview_members(final(body)@), k)
            == nat_update_member(jview_members(old(body)@), *update, opt_str_view(interface_session_id), k),
{
    proof {
        lemma_rule_keys_distinct();
    }
    let ghost m0 = jview_members(body@);
    merge_labels(body, update);
    let ghost m1 = jview_members(body@);
    merge_type(body, update);
    let ghost m2 = jview_members(body@);
    merge_protocol_interface(body, update, interface_session_id);
    let ghost m3 = jview_members(body@);
    merge_translation_filters(body, update);
    let ghost m4 = jview_members(body@);
    assert forall|k: Seq<char>| #[trigger] mget(m4, k) == nat_update_member(m0, *update, opt_str_view(interface_session_id), k) by {
        assert(mget(m1, "type"@) == mget(m0, "type"@));
        let _ = mget(m2, "type"@);
        assert(mget(m3, "source_filter"@) == mget(m0, "source_filter"@));
        assert(mget(m3, "destination_filter"@) == mget(m0, "destination_filter"@));
        let _ = mget(m1, k);
        let _ = mget(m2, k);
        let _ = mget(m3, k);
    }
}


/// The body that updates NAT rule `id`: the rule as listed in `rules` with
/// the update merged in; `NotFound` when no rule has that `_id`.
pub fn nat_update_body(
    rules: &Vec<JsonValue>,
    id: &EntityId,
    update: &UpdateNatPolicyRequest,
    interface_session_id: Option<&str>,
) -> (res: Result<JsonValue, CoreError>)
    ensures
        match rule_slot(rules@, id.text()) {
            None => res matches Err(e) && e@ == ErrorView::NotFound("NAT rule"@, id.text()),
            Some(i) => res matches Ok(v) && v@ is Object && forall|k: Seq<char>| #[trigger] mget(object_members(v@), k)
                == nat_update_member(object_members(rules@[i]@), *update, opt_str_view(interface_session_id), k),
        },
{
    let key = id.as_str();
    assert(key@ == id.text());
    let i = match find_nat_rule(rules, key) {
        Ok(i) => i,
        Err(e) => {
            return Err(e);
        },
    };
    let mut members = match &rules[i] {
        JsonValue::Object(m) => crate::json::clone_members(m),
        _ => Vec::new(),
    };
    assert(jview_members(members@) == object_members(rules@[i as int]@)) by {
        assert(jview_members(Seq::<(String, JsonValue)>::empty()) =~= Seq::<(Seq<char>, JView)>::empty());
    }
    merge_nat_update(&mut members, update, interface_session_id);
    let ghost mv = jview_members(members@);
    let res = JsonValue::Object(members);
    assert(object_members(res@) == mv);
    assert(rule_slot(rules@, id.text()) == Some(i as int));
    assert(forall|k: Seq<char>| #[trigger] mget(object_members(res@), k)
        == nat_update_member(object_members(rules@[i as int]@), *update, opt_str_view(interface_session_id), k));
    Ok(res)
}

// ── read-back ──────────────────────────────────────────────────────

proof fn lemma_filter_reads_back(address: Option<Seq<char>>, port: Option<Seq<char>>)
    ensures
        filter_text(Some(spec_build_filter(address, port)), "address"@) == address,
        filter_text(Some(spec_build_filter(address, port)), "port"@) == port,
{
    reveal_strlit("address");
    reveal_strlit("port");
    reveal_strlit("filter_type");
    reveal_strlit("firewall_group_ids");
    reveal_strlit("invert_address");
    reveal_strlit("invert_port");
    assert("address"@.len() == 7 && "port"@.len() == 4 && "filter_type"@.len() == 11);
    assert("firewall_group_ids"@.len() == 18 && "invert_address"@.len() == 14 && "invert_port"@.len() == 11);
    reveal_with_fuel(mget, 7);
}

/// NAT type a requested type name selects (compared in lowercase).
pub open spec fn requested_nat_type(lower: Seq<char>) -> NatType {
    if lower == "masquerade"@ {
        NatType::Masquerade
    } else if lower == "source"@ || lower == "source_nat"@ || lower == "snat"@ {
        NatType::Source
    } else {
        NatType::Destination
    }
}

proof fn lemma_rule_keys()
    ensures
        "description"@.len() == 11,
        "enabled"@.len() == 7,
        "type"@.len() == 4,
        "ip_version"@.len() == 10,
        "is_predefined"@.len() == 13,
        "rule_index"@.len() == 10,
        "setting_preference"@.len() == 18,
        "logging"@.len() == 7,
        "exclude"@.len() == 7,
        "pppoe_use_base_interface"@.len() == 24,
        "protocol"@.len() == 8,
        "ip_address"@.len() == 10,
        "port"@.len() == 4,
        "in_interface"@.len() == 12,
        "out_interface"@.len() == 13,
        "source_filter"@.len() == 13,
        "destination_filter"@.len() == 18,
        "_id"@.len() == 3,
        "type"@ != "port"@,
        "ip_version"@ != "ip_address"@,
        "rule_index"@ != "ip_address"@,
        "is_predefined"@ != "out_interface"@,
        "is_predefined"@ != "source_filter"@,
        "out_interface"@ != "source_filter"@,
        "setting_preference"@ != "destination_filter"@,
        "enabled"@ != "logging"@,
        "enabled"@ != "exclude"@,
        "ip_version"@ != "rule_index"@,
{
    reveal_strlit("description");
    reveal_strlit("enabled");
    reveal_strlit("type");
    reveal_strlit("ip_version");
    reveal_strlit("is_predefined");
    reveal_strlit("rule_index");
    reveal_strlit("setting_preference");
    reveal_strlit("logging");
    reveal_strlit("exclude");
    reveal_strlit("pppoe_use_base_interface");
    reveal_strlit("protocol");
    reveal_strlit("ip_address");
    reveal_strlit("port");
    reveal_strlit("in_interface");
    reveal_strlit("out_interface");
    reveal_strlit("source_filter");
    reveal_strlit("destination_filter");
    reveal_strlit("_id");
    assert("type"@[0] != "port"@[0]);
    assert("ip_version"@[3] != "ip_address"@[3]);
    assert("rule_index"@[0] != "ip_address"@[0]);
    assert("is_predefined"@[0] != "out_interface"@[0]);
    assert("is_predefined"@[0] != "source_filter"@[0]);
    assert("out_interface"@[0] != "source_filter"@[0]);
    assert("setting_preference"@[0] != "destination_filter"@[0]);
    assert("enabled"@[0] != "logging"@[0]);
    assert("enabled"@[1] != "exclude"@[1]);
    assert("ip_version"@[0] != "rule_index"@[0]);
}

proof fn lemma_rule_base_members(req: CreateNatPolicyRequest, rule_index: u64)
    ensures
        mget(create_rule_base(req, rule_index), "description"@) == Some(JView::Str(req.name@)),
        mget(create_rule_base(req, rule_index), "enabled"@) == Some(JView::Bool(req.enabled)),
        mget(create_rule_base(req, rule_index), "type"@) == Some(JView::Str(create_rule_type(req))),
        mget(create_rule_base(req, rule_index), "protocol"@) is None,
        mget(create_rule_base(req, rule_index), "ip_address"@) is None,
        mget(create_rule_base(req, rule_index), "port"@) is None,
        mget(create_rule_base(req, rule_index), "in_interface"@) is None,
        mget(create_rule_base(req, rule_index), "out_interface"@) is None,
        mget(create_rule_base(req, rule_index), "source_filter"@) is None,
        mget(create_rule_base(req, rule_index), "destination_filter"@) is None,
{
    lemma_rule_keys();
    reveal_with_fuel(mget, 11);
}

/// The value a new rule holds under `k`, for the members the reader uses.
pub open spec fn created_rule_member(req: CreateNatPolicyRequest, iface: Option<Seq<char>>, k: Seq<char>) -> Option<JView> {
    let dnat = create_rule_type(req) == "DNAT"@;
    if k == "description"@ {
        Some(JView::Str(req.name@))
    } else if k == "enabled"@ {
        Some(JView::Bool(req.enabled))
    } else if k == "type"@ {
        Some(JView::Str(create_rule_type(req)))
    } else if k == "protocol"@ {
        match req.protocol {
            Some(x) => Some(JView::Str(protocol_wire(lowercase(x@)))),
            None => None,
        }
    } else if k == "ip_address"@ {
        match req.translated_address {
            Some(a) => Some(JView::Str(a@)),
            None => None,
        }
    } else if k == "port"@ {
        match req.translated_port {
            Some(x) => Some(JView::Str(x@)),
            None => None,
        }
    } else if k == "in_interface"@ || k == "out_interface"@ {
        match iface {
            Some(i) if dnat == (k == "in_interface"@) => Some(JView::Str(i)),
            _ => None,
        }
    } else if k == "source_filter"@ {
        Some(spec_build_filter(opt_view(req.src_address), opt_view(req.src_port)))
    } else {
        Some(spec_build_filter(opt_view(req.dst_address), opt_view(req.dst_port)))
    }
}

proof fn lemma_created_rule_member(req: CreateNatPolicyRequest, rule_index: u64, iface: Option<Seq<char>>, k: Seq<char>)
    requires
        k == "description"@ || k == "enabled"@ || k == "type"@ || k == "protocol"@ || k == "ip_address"@ || k
            == "port"@ || k == "in_interface"@ || k == "out_interface"@ || k == "source_filter"@ || k
            == "destination_filter"@,
    ensures
        mget(spec_create_rule(req, rule_index, iface), k) == created_rule_member(req, iface, k),
{
    lemma_rule_keys();
    lemma_rule_base_members(req, rule_index);
    reveal_strlit("DNAT");
    let t = create_rule_type(req);
    let base = create_rule_base(req, rule_index);
    let p1 = match req.protocol {
        Some(p) => base.push(("protocol"@, JView::Str(protocol_wire(lowercase(p@))))),
        None => base,
    };
    let p2 = match req.translated_address {
        Some(a) => p1.push(("ip_address"@, JView::Str(a@))),
        None => p1,
    };
    let p3 = match req.translated_port {
        Some(p) => p2.push(("port"@, JView::Str(p@))),
        None => p2,
    };
    let p4 = match iface {
        Some(i) => p3.push((if t == "DNAT"@ { "in_interface"@ } else { "out_interface"@ }, JView::Str(i))),
        None => p3,
    };
    let src = ("source_filter"@, spec_build_filter(opt_view(req.src_address), opt_view(req.src_port)));
    let dst = ("destination_filter"@, spec_build_filter(opt_view(req.dst_address), opt_view(req.dst_port)));
    match req.protocol {
        Some(p) => lemma_mget_snoc(base, ("protocol"@, JView::Str(protocol_wire(lowercase(p@)))), k),
        None => {},
    }
    match req.translated_address {
        Some(a) => lemma_mget_snoc(p1, ("ip_address"@, JView::Str(a@)), k),
        None => {},
    }
    match req.translated_port {
        Some(p) => lemma_mget_snoc(p2, ("port"@, JView::Str(p@)), k),
        None => {},
    }
    match iface {
        Some(i) => lemma_mget_snoc(p3, (if t == "DNAT"@ { "in_interface"@ } else { "out_interface"@ }, JView::Str(i)), k),
        None => {},
    }
    lemma_mget_snoc(p4, src, k);
    lemma_mget_snoc(p4.push(src), dst, k);
}

/// A NAT rule created from a request reads back with the request's
/// settings: whatever `_id` the controller gives the stored rule, the policy
/// read from it has the request's name, enabled flag, type, protocol (in its
/// wire form), filters, translation and interface.
pub proof fn lemma_nat_rule_read_back(
    req: CreateNatPolicyRequest,
    rule_index: u64,
    iface: Option<Seq<char>>,
    v: JView,
    p: NatPolicy,
)
    requires
        v matches JView::Object(m) && forall|k: Seq<char>| k != "_id"@ ==> #[trigger] mget(m, k) == mget(
            spec_create_rule(req, rule_index, iface),
            k,
        ),
        is_nat_from_v2(p, v),
    ensures
        p.name@ == req.name@,
        p.enabled == req.enabled,
        p.nat_type == requested_nat_type(lowercase(req.nat_type@)),
        opt_view(p.protocol) == match req.protocol {
            Some(x) => Some(protocol_wire(lowercase(x@))),
            None => None,
        },
        opt_view(p.src_address) == opt_view(req.src_address),
        opt_view(p.src_port) == opt_view(req.src_port),
        opt_view(p.dst_address) == opt_view(req.dst_address),
        opt_view(p.dst_port) == opt_view(req.dst_port),
        opt_view(p.translated_address) == opt_view(req.translated_address),
        opt_view(p.translated_port) == opt_view(req.translated_port),
        match iface {
            Some(i) => p.interface_id matches Some(x) && is_entity_id_of(x, i),
            None => p.interface_id is None,
        },
{
    lemma_rule_keys();
    let m = v->Object_0;
    lemma_created_rule_member(req, rule_index, iface, "description"@);
    lemma_created_rule_member(req, rule_index, iface, "enabled"@);
    lemma_created_rule_member(req, rule_index, iface, "type"@);
    lemma_created_rule_member(req, rule_index, iface, "protocol"@);
    lemma_created_rule_member(req, rule_index, iface, "ip_address"@);
    lemma_created_rule_member(req, rule_index, iface, "port"@);
    lemma_created_rule_member(req, rule_index, iface, "in_interface"@);
    lemma_created_rule_member(req, rule_index, iface, "out_interface"@);
    lemma_created_rule_member(req, rule_index, iface, "source_filter"@);
    lemma_created_rule_member(req, rule_index, iface, "destination_filter"@);
    assert(mget(m, "description"@) == created_rule_member(req, iface, "description"@));
    assert(mget(m, "enabled"@) == created_rule_member(req, iface, "enabled"@));
    assert(mget(m, "type"@) == created_rule_member(req, iface, "type"@));
    assert(mget(m, "protocol"@) == created_rule_member(req, iface, "protocol"@));
    assert(mget(m, "ip_address"@) == created_rule_member(req, iface, "ip_address"@));
    assert(mget(m, "port"@) == created_rule_member(req, iface, "port"@));
    assert(mget(m, "in_interface"@) == created_rule_member(req, iface, "in_interface"@));
    assert(mget(m, "out_interface"@) == created_rule_member(req, iface, "out_interface"@));
    assert(mget(m, "source_filter"@) == created_rule_member(req, iface, "source_filter"@));
    assert(mget(m, "destination_filter"@) == created_rule_member(req, iface, "destination_filter"@));
    lemma_filter_reads_back(opt_view(req.src_address), opt_view(req.src_port));
    lemma_filter_reads_back(opt_view(req.dst_address), opt_view(req.dst_port));
    reveal_strlit("MASQUERADE");
    reveal_strlit("SNAT");
    reveal_strlit("DNAT");
    reveal_strlit("masquerade");
    reveal_strlit("source");
    reveal_strlit("source_nat");
    reveal_strlit("snat");
    assert("MASQUERADE"@.len() == 10 && "SNAT"@.len() == 4 && "DNAT"@.len() == 4);
    assert("SNAT"@[0] != "DNAT"@[0]);
}

} // verus!
