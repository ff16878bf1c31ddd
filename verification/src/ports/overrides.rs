//! Writing profile updates into a device's `port_overrides` list.
//!
//! An override entry is a JSON object; an update rewrites a fixed set of its
//! members and leaves every other member alone. Splicing an update into the
//! list touches only the entry of the target port (or appends one), and a
//! reset drops exactly the entries of its port.
use vstd::prelude::*;

use crate::json::{as_u64, get, jbool, jget, jstr, ju64, jview_items, jview_members, mget, obj_delete, obj_set, str_array, string_array, JView, JsonValue};
use crate::model::device::{PoeMode, PortMode, PortSpeedSetting};
use crate::ports::{spec_parse_poe_mode, spec_parse_speed, ApplyPortsSummary, PortProfileUpdate, UpdateView};
use crate::text::owned;

verus! {

/// Wire value of a PoE mode (`Other` is written as `auto`).
pub open spec fn poe_wire_name(p: PoeMode) -> Seq<char> {
    match p {
        PoeMode::Off => "off"@,
        PoeMode::Passive24V => "pasv24"@,
        PoeMode::Passthrough => "passthrough"@,
        PoeMode::Auto | PoeMode::Other => "auto"@,
    }
}

/// Wire value of a pinned speed.
pub open spec fn speed_wire_name(s: PortSpeedSetting) -> Seq<char> {
    match s {
        PortSpeedSetting::Mbps10 => "10"@,
        PortSpeedSetting::Mbps100 => "100"@,
        PortSpeedSetting::Mbps1000 => "1000"@,
        PortSpeedSetting::Mbps2500 => "2500"@,
        PortSpeedSetting::Mbps5000 => "5000"@,
        PortSpeedSetting::Mbps10000 => "10000"@,
        PortSpeedSetting::Auto => "auto"@,
    }
}

/// The value of member `k` of an override entry after `u` is applied to it,
/// given its value `old` before.
pub open spec fn updated_member(old: Option<JView>, u: UpdateView, k: Seq<char>) -> Option<JView> {
    if k == "name"@ {
        match u.name {
            Some(n) => Some(JView::Str(n)),
            None => old,
        }
    } else if k == "op_mode"@ {
        match u.mode {
            Some(PortMode::Access) | Some(PortMode::Trunk) => Some(JView::Str("switch"@)),
            Some(PortMode::Mirror) => Some(JView::Str("mirror"@)),
            _ => old,
        }
    } else if k == "tagged_vlan_mgmt"@ {
        match u.mode {
            Some(PortMode::Access) => Some(JView::Str("block_all"@)),
            Some(PortMode::Trunk) => if u.tagged_network_ids is Some {
                Some(JView::Str("custom"@))
            } else {
                Some(JView::Str("auto"@))
            },
            _ => old,
        }
    } else if k == "tagged_networkconf_ids"@ {
        match u.tagged_network_ids {
            Some(t) => Some(str_array(t)),
            None => if u.mode == Some(PortMode::Access) {
                Some(JView::Array(Seq::empty()))
            } else {
                old
            },
        }
    } else if k == "native_networkconf_id"@ {
        match u.native_network_id {
            Some(id) => Some(JView::Str(id)),
            None => old,
        }
    } else if k == "poe_mode"@ {
        match u.poe_mode {
            Some(p) => Some(JView::Str(poe_wire_name(p))),
            None => old,
        }
    } else if k == "autoneg"@ {
        match u.speed_setting {
            Some(s) => Some(JView::Bool(s == PortSpeedSetting::Auto)),
            None => old,
        }
    } else if k == "speed"@ {
        match u.speed_setting {
            Some(PortSpeedSetting::Auto) => None,
            Some(s) => Some(JView::Str(speed_wire_name(s))),
            None => old,
        }
    } else {
        old
    }
}

pub(crate) proof fn lemma_keys_distinct()
    ensures
        "name"@ != "op_mode"@,
        "name"@ != "tagged_vlan_mgmt"@,
        "name"@ != "tagged_networkconf_ids"@,
        "name"@ != "native_networkconf_id"@,
        "name"@ != "poe_mode"@,
        "name"@ != "autoneg"@,
        "name"@ != "speed"@,
        "name"@ != "port_idx"@,
        "op_mode"@ != "tagged_vlan_mgmt"@,
        "op_mode"@ != "tagged_networkconf_ids"@,
        "op_mode"@ != "native_networkconf_id"@,
        "op_mode"@ != "poe_mode"@,
        "op_mode"@ != "autoneg"@,
        "op_mode"@ != "speed"@,
        "op_mode"@ != "port_idx"@,
        "tagged_vlan_mgmt"@ != "tagged_networkconf_ids"@,
        "tagged_vlan_mgmt"@ != "native_networkconf_id"@,
        "tagged_vlan_mgmt"@ != "poe_mode"@,
        "tagged_vlan_mgmt"@ != "autoneg"@,
        "tagged_vlan_mgmt"@ != "speed"@,
        "tagged_vlan_mgmt"@ != "port_idx"@,
        "tagged_networkconf_ids"@ != "native_networkconf_id"@,
        "tagged_networkconf_ids"@ != "poe_mode"@,
        "tagged_networkconf_ids"@ != "autoneg"@,
        "tagged_networkconf_ids"@ != "speed"@,
        "tagged_networkconf_ids"@ != "port_idx"@,
        "native_networkconf_id"@ != "poe_mode"@,
        "native_networkconf_id"@ != "autoneg"@,
        "native_networkconf_id"@ != "speed"@,
        "native_networkconf_id"@ != "port_idx"@,
        "poe_mode"@ != "autoneg"@,
        "poe_mode"@ != "speed"@,
        "poe_mode"@ != "port_idx"@,
        "autoneg"@ != "speed"@,
        "autoneg"@ != "port_idx"@,
        "speed"@ != "port_idx"@,
{
    reveal_strlit("name");
    reveal_strlit("op_mode");
    reveal_strlit("tagged_vlan_mgmt");
    reveal_strlit("tagged_networkconf_ids");
    reveal_strlit("native_networkconf_id");
    reveal_strlit("poe_mode");
    reveal_strlit("autoneg");
    reveal_strlit("speed");
    reveal_strlit("port_idx");
    assert("name"@.len() == 4);
    assert("op_mode"@.len() == 7);
    assert("tagged_vlan_mgmt"@.len() == 16);
    assert("tagged_networkconf_ids"@.len() == 22);
    assert("native_networkconf_id"@.len() == 21);
    assert("poe_mode"@.len() == 8);
    assert("autoneg"@.len() == 7);
    assert("speed"@.len() == 5);
    assert("port_idx"@.len() == 8);
    assert("op_mode"@[0] != "autoneg"@[0]);
    assert("poe_mode"@[2] != "port_idx"@[2]);
}

/// Sets member `key` to the string `value`.
fn set_str(target: &mut Vec<(String, JsonValue)>, key: &str, value: &str)
    ensures
        forall|k: Seq<char>| #[trigger] mget(jview_members(final(target)@), k) == if k == key@ {
            Some(JView::Str(value@))
        } else {
            mget(jview_members(old(target)@), k)
        },
{
    let v = JsonValue::Str(owned(value));
    assert(v@ == JView::Str(value@));
    obj_set(target, owned(key), v);
}

/// Sets member `key` to `value`.
fn set_value(target: &mut Vec<(String, JsonValue)>, key: &str, value: JsonValue)
    ensures
        forall|k: Seq<char>| #[trigger] mget(jview_members(final(target)@), k) == if k == key@ {
            Some(value@)
        } else {
            mget(jview_members(old(target)@), k)
        },
{
    obj_set(target, owned(key), value);
}

/// Applies `update` to an override entry's members. Every member outside the
/// update's reach keeps its value; a pinned speed sets `autoneg: false` and the
/// speed, `Auto` sets `autoneg: true` and drops any pinned speed.
pub fn apply_update(target: &mut Vec<(String, JsonValue)>, update: &PortProfileUpdate)
    ensures
        forall|k: Seq<char>| #[trigger] mget(jview_members(final(target)@), k)
            == updated_member(mget(jview_members(old(target)@), k), update@, k),
{
    proof {
        lemma_keys_distinct();
    }
    let ghost m0 = jview_members(target@);
    let ghost u = update@;
    if let Some(name) = &update.name {
        set_str(target, "name", name.as_str());
    }
    let ghost m1 = jview_members(target@);
    assert(forall|k: Seq<char>| #[trigger] mget(m1, k) == if k == "name"@ && u.name is Some {
        Some(JView::Str(u.name->Some_0))
    } else {
        mget(m0, k)
    });
    if let Some(mode) = update.mode {
        match mode {
            PortMode::Access => {
                set_str(target, "op_mode", "switch");
                set_str(target, "tagged_vlan_mgmt", "block_all");
                let empty: Vec<JsonValue> = Vec::new();
                let arr = JsonValue::Array(empty);
                assert(arr@ == JView::Array(Seq::empty())) by {
                    assert(jview_items(Seq::<JsonValue>::empty()) =~= Seq::<JView>::empty());
                }
                set_value(target, "tagged_networkconf_ids", arr);
            },
            PortMode::Trunk => {
                set_str(target, "op_mode", "switch");
                if update.tagged_network_ids.is_some() {
                    set_str(target, "tagged_vlan_mgmt", "custom");
                } else {
                    set_str(target, "tagged_vlan_mgmt", "auto");
                }
            },
            PortMode::Mirror => {
                set_str(target, "op_mode", "mirror");
            },
            PortMode::Unknown => {},
        }
    }
    let ghost m2 = jview_members(target@);
    assert(forall|k: Seq<char>| #[trigger] mget(m2, k) == if k == "op_mode"@ || k == "tagged_vlan_mgmt"@ {
        updated_member(mget(m1, k), u, k)
    } else if k == "tagged_networkconf_ids"@ && u.mode == Some(PortMode::Access) {
        Some(JView::Array(Seq::empty()))
    } else {
        mget(m1, k)
    });
    if let Some(id) = &update.native_network_id {
        set_str(target, "native_networkconf_id", id.as_str());
    }
    if let Some(tagged) = &update.tagged_network_ids {
        let arr = string_array(tagged);
        set_value(target, "tagged_networkconf_ids", arr);
        if update.mode == Some(PortMode::Trunk) {
            set_str(target, "tagged_vlan_mgmt", "custom");
        }
    }
    let ghost m3 = jview_members(target@);
    assert(forall|k: Seq<char>| #[trigger] mget(m3, k) == if k == "native_networkconf_id"@ || k == "tagged_networkconf_ids"@ {
        updated_member(mget(m0, k), u, k)
    } else {
        mget(m2, k)
    });
    if let Some(poe) = update.poe_mode {
        let wire = match poe {
            PoeMode::Off => "off",
            PoeMode::Passive24V => "pasv24",
            PoeMode::Passthrough => "passthrough",
            PoeMode::Auto | PoeMode::Other => "auto",
        };
        set_str(target, "poe_mode", wire);
    }
    if let Some(speed) = update.speed_setting {
        match speed {
            PortSpeedSetting::Auto => {
                set_value(target, "autoneg", JsonValue::Bool(true));
                obj_delete(target, "speed");
            },
            other => {
                set_value(target, "autoneg", JsonValue::Bool(false));
                let wire = match other {
                    PortSpeedSetting::Mbps10 => "10",
                    PortSpeedSetting::Mbps100 => "100",
                    PortSpeedSetting::Mbps1000 => "1000",
                    PortSpeedSetting::Mbps2500 => "2500",
                    PortSpeedSetting::Mbps5000 => "5000",
                    PortSpeedSetting::Mbps10000 => "10000",
                    PortSpeedSetting::Auto => "auto",
                };
                set_str(target, "speed", wire);
            },
        }
    }
}


// ── the override list ──────────────────────────────────────────────

/// Port index of an override entry or port-table row (`port_idx`, truncated to 32 bits).
pub open spec fn spec_port_idx(v: JView) -> Option<u32> {
    match ju64(jget(v, "port_idx"@)) {
        Some(n) => Some((n % 0x1_0000_0000) as u32),
        None => None,
    }
}

/// Port index of an override entry or port-table row.
pub fn port_idx(value: &JsonValue) -> (res: Option<u32>)
    ensures
        res == spec_port_idx(value@),
{
    match as_u64(get(value, "port_idx")) {
        Some(n) => Some((n % 0x1_0000_0000) as u32),
        None => None,
    }
}

/// Position of the first entry of port `target`.
pub open spec fn port_slot(s: Seq<JsonValue>, target: u32) -> Option<int>
    decreases s.len(),
{
    if s.len() == 0 {
        None
    } else if spec_port_idx(s[0]@) == Some(target) {
        Some(0)
    } else {
        match port_slot(s.drop_first(), target) {
            Some(i) => Some(i + 1),
            None => None,
        }
    }
}

pub(crate) proof fn lemma_port_slot_at(s: Seq<JsonValue>, target: u32, i: int)
    requires
        0 <= i < s.len(),
        spec_port_idx(s[i]@) == Some(target),
        forall|j: int| 0 <= j < i ==> spec_port_idx(#[trigger] s[j]@) != Some(target),
    ensures
        port_slot(s, target) == Some(i),
    decreases i,
{
    if i > 0 {
        assert(spec_port_idx(s[0]@) != Some(target));
        assert forall|j: int| 0 <= j < i - 1 implies spec_port_idx(#[trigger] s.drop_first()[j]@) != Some(target) by {
            assert(s.drop_first()[j] == s[j + 1]);
        }
        lemma_port_slot_at(s.drop_first(), target, i - 1);
    }
}

proof fn lemma_port_slot_none(s: Seq<JsonValue>, target: u32)
    requires
        forall|j: int| 0 <= j < s.len() ==> spec_port_idx(#[trigger] s[j]@) != Some(target),
    ensures
        port_slot(s, target) is None,
    decreases s.len(),
{
    if s.len() > 0 {
        assert(spec_port_idx(s[0]@) != Some(target));
        assert forall|j: int| 0 <= j < s.len() - 1 implies spec_port_idx(#[trigger] s.drop_first()[j]@) != Some(target) by {
            assert(s.drop_first()[j] == s[j + 1]);
        }
        lemma_port_slot_none(s.drop_first(), target);
    }
}

/// The members of an object; nothing for other values.
pub open spec fn object_members(v: JView) -> Seq<(Seq<char>, JView)> {
    match v {
        JView::Object(m) => m,
        _ => Seq::empty(),
    }
}

/// `e` is the entry of port `target` obtained from the members `base` by
/// setting `port_idx` and applying `u`.
pub open spec fn is_updated_entry(base: Seq<(Seq<char>, JView)>, e: JView, target: u32, u: UpdateView) -> bool {
    &&& e is Object
    &&& forall|k: Seq<char>| #[trigger] mget(object_members(e), k) == updated_member(
        if k == "port_idx"@ { Some(JView::UInt(target as u64)) } else { mget(base, k) },
        u,
        k,
    )
}

/// `after` is `before` with `u` applied to the first entry of port `target`,
/// or with a new entry for the port appended when there is none; every other
/// entry is unchanged.
pub open spec fn upserted(before: Seq<JsonValue>, target: u32, u: UpdateView, after: Seq<JsonValue>) -> bool {
    match port_slot(before, target) {
        Some(i) => {
            &&& after.len() == before.len()
            &&& forall|j: int| 0 <= j < before.len() && j != i ==> #[trigger] after[j] == before[j]
            &&& is_updated_entry(object_members(before[i]@), after[i]@, target, u)
        },
        None => {
            &&& after.len() == before.len() + 1
            &&& forall|j: int| 0 <= j < before.len() ==> #[trigger] after[j] == before[j]
            &&& is_updated_entry(Seq::empty(), after[before.len() as int]@, target, u)
        },
    }
}

/// Applies `update` to the override of port `target`, creating the entry when
/// the port has none, and leaves every other entry alone.
pub fn upsert_port_override(overrides: &mut Vec<JsonValue>, target: u32, update: &PortProfileUpdate)
    ensures
        upserted(old(overrides)@, target, update@, final(overrides)@),
{
    let ghost before = overrides@;
    let mut found: Option<usize> = None;
    let mut i: usize = 0;
    while i < overrides.len()
        invariant_except_break
            found is None,
        invariant
            overrides@ == before,
            i <= overrides.len(),
            forall|j: int| 0 <= j < i ==> spec_port_idx(#[trigger] before[j]@) != Some(target),
        ensures
            match found {
                Some(f) => f < before.len() && port_slot(before, target) == Some(f as int),
                None => forall|j: int| 0 <= j < before.len() ==> spec_port_idx(#[trigger] before[j]@) != Some(target),
            },
        decreases overrides.len() - i,
    {
        if port_idx(&overrides[i]) == Some(target) {
            proof {
                lemma_port_slot_at(before, target, i as int);
            }
            found = Some(i);
            break;
        }
        i = i + 1;
    }
    if found.is_none() {
        proof {
            lemma_port_slot_none(before, target);
        }
    }
    let mut slot_value = JsonValue::Null;
    if let Some(f) = found {
        overrides.set_and_swap(f, &mut slot_value);
    }
    let ghost base = object_members(slot_value@);
    let mut members: Vec<(String, JsonValue)> = match slot_value {
        JsonValue::Object(m) => m,
        _ => Vec::new(),
    };
    assert(jview_members(members@) == base) by {
        assert(jview_members(Seq::<(String, JsonValue)>::empty()) =~= Seq::<(Seq<char>, JView)>::empty());
    }
    let ghost m0 = jview_members(members@);
    set_value(&mut members, "port_idx", JsonValue::UInt(target as u64));
    let ghost m1 = jview_members(members@);
    apply_update(&mut members, update);
    let next = JsonValue::Object(members);
    assert(object_members(next@) == jview_members(members@));
    assert forall|k: Seq<char>| #[trigger] mget(object_members(next@), k) == updated_member(
        if k == "port_idx"@ { Some(JView::UInt(target as u64)) } else { mget(base, k) },
        update@,
        k,
    ) by {
        assert(mget(m1, k) == if k == "port_idx"@ { Some(JView::UInt(target as u64)) } else { mget(m0, k) });
    }
    match found {
        Some(f) => {
            overrides.set(f, next);
        },
        None => {
            overrides.push(next);
        },
    }
}

/// The entries of ports other than `target`, in order.
pub open spec fn other_ports(s: Seq<JsonValue>, target: u32) -> Seq<JsonValue>
    decreases s.len(),
{
    if s.len() == 0 {
        Seq::empty()
    } else if spec_port_idx(s.last()@) == Some(target) {
        other_ports(s.drop_last(), target)
    } else {
        other_ports(s.drop_last(), target).push(s.last())
    }
}

/// Drops every override entry of port `target` and keeps the rest in order;
/// returns whether anything was dropped.
pub fn remove_port_override(overrides: &mut Vec<JsonValue>, target: u32) -> (removed: bool)
    ensures
        final(overrides)@ == other_ports(old(overrides)@, target),
        removed == (final(overrides)@.len() != old(overrides)@.len()),
{
    let ghost orig = overrides@;
    let mut kept: Vec<JsonValue> = Vec::new();
    let mut rest: Vec<JsonValue> = Vec::new();
    std::mem::swap(&mut rest, overrides);
    let n = rest.len();
    let mut i: usize = 0;
    while i < n
        invariant
            n == orig.len(),
            i <= n,
            rest@ == orig.subrange(i as int, n as int),
            kept@ == other_ports(orig.take(i as int), target),
            kept@.len() <= i,
        decreases n - i,
    {
        let e = rest.remove(0);
        assert(rest@ =~= orig.subrange(i + 1, n as int));
        assert(orig.take(i + 1).drop_last() =~= orig.take(i as int));
        assert(orig.take(i + 1).last() == e);
        if port_idx(&e) != Some(target) {
            kept.push(e);
        }
        i = i + 1;
    }
    assert(orig.take(n as int) =~= orig);
    let removed = kept.len() != n;
    *overrides = kept;
    removed
}


// ── batches ────────────────────────────────────────────────────────

/// What a batch does to one port.
#[derive(Debug, Clone, PartialEq, Eq)]
pub enum PortOp {
    /// Drop the port's override entries.
    Reset,
    /// Apply an update to the port's override entry.
    Update(PortProfileUpdate),
}

/// `after` is `before` with `op` performed on port `target`.
pub open spec fn step_applied(before: Seq<JsonValue>, target: u32, op: PortOp, after: Seq<JsonValue>) -> bool {
    match op {
        PortOp::Reset => after == other_ports(before, target),
        PortOp::Update(u) => upserted(before, target, u@, after),
    }
}

/// `trace` runs from `old` through the operations `ops`, one state per step.
pub open spec fn valid_trace(old: Seq<JsonValue>, ops: Seq<(u32, PortOp)>, trace: Seq<Seq<JsonValue>>) -> bool {
    &&& trace.len() == ops.len() + 1
    &&& trace[0] == old
    &&& forall|j: int| 0 <= j < ops.len() ==> #[trigger] step_applied(trace[j], ops[j].0, ops[j].1, trace[j + 1])
}

/// Number of the first `n` steps of `trace` that are resets dropping an entry.
pub open spec fn reset_count(ops: Seq<(u32, PortOp)>, trace: Seq<Seq<JsonValue>>, n: int) -> nat
    decreases n,
{
    if n <= 0 {
        0
    } else {
        reset_count(ops, trace, n - 1) + if ops[n - 1].1 is Reset && trace[n - 1].len() != trace[n].len() {
            1nat
        } else {
            0nat
        }
    }
}

/// `new` is `old` with the operations `ops` performed in order, and `resets`
/// of the resets dropped at least one entry.
pub open spec fn ops_applied(old: Seq<JsonValue>, ops: Seq<(u32, PortOp)>, new: Seq<JsonValue>, resets: nat) -> bool {
    exists|trace: Seq<Seq<JsonValue>>|
        #[trigger] valid_trace(old, ops, trace) && trace.last() == new && resets == reset_count(ops, trace, ops.len() as int)
}

/// Number of updates among `ops`.
pub open spec fn update_count(ops: Seq<(u32, PortOp)>) -> nat
    decreases ops.len(),
{
    if ops.len() == 0 {
        0
    } else {
        update_count(ops.drop_last()) + if ops.last().1 is Update { 1nat } else { 0nat }
    }
}

proof fn lemma_reset_count_prefix(ops: Seq<(u32, PortOp)>, a: Seq<Seq<JsonValue>>, b: Seq<Seq<JsonValue>>, n: int)
    requires
        0 <= n < a.len(),
        n < b.len(),
        forall|j: int| 0 <= j <= n ==> a[j] == b[j],
    ensures
        reset_count(ops, a, n) == reset_count(ops, b, n),
    decreases n,
{
    if n > 0 {
        lemma_reset_count_prefix(ops, a, b, n - 1);
    }
}

proof fn lemma_update_count_bound(ops: Seq<(u32, PortOp)>)
    ensures
        update_count(ops) <= ops.len(),
    decreases ops.len(),
{
    if ops.len() > 0 {
        lemma_update_count_bound(ops.drop_last());
    }
}

/// Performs `ops` on the override list in order: a reset drops the port's
/// entries, an update is spliced into the port's entry. Ports not named keep
/// their entries. Counts the updates and the resets that dropped something.
pub fn splice_port_ops(overrides: &mut Vec<JsonValue>, ops: &Vec<(u32, PortOp)>) -> (summary: ApplyPortsSummary)
    ensures
        ops_applied(old(overrides)@, ops@, final(overrides)@, summary.reset as nat),
        summary.applied == update_count(ops@),
{
    let ghost orig = overrides@;
    let ghost mut trace: Seq<Seq<JsonValue>> = seq![orig];
    let mut summary = ApplyPortsSummary { applied: 0, reset: 0 };
    let mut i: usize = 0;
    while i < ops.len()
        invariant
            i <= ops.len(),
            trace.len() == i + 1,
            trace[0] == orig,
            trace.last() == overrides@,
            forall|j: int| 0 <= j < i ==> #[trigger] step_applied(trace[j], ops@[j].0, ops@[j].1, trace[j + 1]),
            summary.reset == reset_count(ops@, trace, i as int),
            summary.applied == update_count(ops@.take(i as int)),
            summary.applied + summary.reset <= i,
        decreases ops.len() - i,
    {
        let ghost mid = overrides@;
        let ghost pre = ops@.take(i as int);
        let ghost cur = ops@.take(i + 1);
        assert(cur.drop_last() =~= pre);
        assert(cur.last() == ops@[i as int]);
        let target = ops[i].0;
        match &ops[i].1 {
            PortOp::Reset => {
                let removed = remove_port_override(overrides, target);
                if removed {
                    summary.reset = summary.reset + 1;
                }
            },
            PortOp::Update(update) => {
                upsert_port_override(overrides, target, update);
                summary.applied = summary.applied + 1;
            },
        }
        let ghost prev = trace;
        proof {
            trace = trace.push(overrides@);
            assert forall|j: int| 0 <= j < i + 1 implies #[trigger] step_applied(trace[j], ops@[j].0, ops@[j].1, trace[j + 1]) by {
                if j < i {
                    assert(trace[j] == prev[j]);
                    assert(trace[j + 1] == prev[j + 1]);
                }
            }
            assert(reset_count(ops@, trace, i as int) == reset_count(ops@, prev, i as int)) by {
                lemma_reset_count_prefix(ops@, prev, trace, i as int);
            }
        }
        i = i + 1;
    }
    assert(ops@.take(ops.len() as int) =~= ops@);
    assert(valid_trace(orig, ops@, trace));
    summary
}


// ── laws ───────────────────────────────────────────────────────────

/// The entries of port `p`, in order.
pub open spec fn port_entries(s: Seq<JsonValue>, p: u32) -> Seq<JsonValue>
    decreases s.len(),
{
    if s.len() == 0 {
        Seq::empty()
    } else if spec_port_idx(s.last()@) == Some(p) {
        port_entries(s.drop_last(), p).push(s.last())
    } else {
        port_entries(s.drop_last(), p)
    }
}

/// An updated entry of port `target` carries `target` as its port index.
pub proof fn lemma_updated_entry_index(base: Seq<(Seq<char>, JView)>, e: JView, target: u32, u: UpdateView)
    requires
        is_updated_entry(base, e, target, u),
    ensures
        spec_port_idx(e) == Some(target),
{
    lemma_keys_distinct();
    assert(mget(object_members(e), "port_idx"@) == Some(JView::UInt(target as u64)));
}

proof fn lemma_port_entries_other_reset(s: Seq<JsonValue>, t: u32, p: u32)
    requires
        t != p,
    ensures
        port_entries(other_ports(s, t), p) == port_entries(s, p),
    decreases s.len(),
{
    if s.len() > 0 {
        lemma_port_entries_other_reset(s.drop_last(), t, p);
        if spec_port_idx(s.last()@) != Some(t) {
            let o = other_ports(s.drop_last(), t).push(s.last());
            assert(o.drop_last() =~= other_ports(s.drop_last(), t));
        }
    }
}

proof fn lemma_port_entries_replace(a: Seq<JsonValue>, b: Seq<JsonValue>, i: int, p: u32)
    requires
        a.len() == b.len(),
        0 <= i < a.len(),
        forall|j: int| 0 <= j < a.len() && j != i ==> a[j] == b[j],
        spec_port_idx(a[i]@) != Some(p),
        spec_port_idx(b[i]@) != Some(p),
    ensures
        port_entries(a, p) == port_entries(b, p),
    decreases a.len(),
{
    if i == a.len() - 1 {
        assert(a.drop_last() =~= b.drop_last());
    } else {
        lemma_port_entries_replace(a.drop_last(), b.drop_last(), i, p);
        assert(a.last() == b.last());
    }
}

proof fn lemma_port_entries_step(before: Seq<JsonValue>, t: u32, op: PortOp, after: Seq<JsonValue>, p: u32)
    requires
        t != p,
        step_applied(before, t, op, after),
    ensures
        port_entries(after, p) == port_entries(before, p),
{
    match op {
        PortOp::Reset => {
            lemma_port_entries_other_reset(before, t, p);
        },
        PortOp::Update(u) => {
            match port_slot(before, t) {
                Some(i) => {
                    lemma_port_slot_found(before, t);
                    lemma_updated_entry_index(object_members(before[i]@), after[i]@, t, u@);
                    lemma_port_entries_replace(before, after, i, p);
                },
                None => {
                    lemma_updated_entry_index(Seq::empty(), after[before.len() as int]@, t, u@);
                    assert(after.drop_last() =~= before);
                },
            }
        },
    }
}

proof fn lemma_port_slot_found(s: Seq<JsonValue>, t: u32)
    requires
        port_slot(s, t) is Some,
    ensures
        0 <= port_slot(s, t)->Some_0 < s.len(),
        spec_port_idx(s[port_slot(s, t)->Some_0]@) == Some(t),
    decreases s.len(),
{
    if spec_port_idx(s[0]@) != Some(t) {
        lemma_port_slot_found(s.drop_first(), t);
    }
}

proof fn lemma_trace_keeps_port(old: Seq<JsonValue>, ops: Seq<(u32, PortOp)>, trace: Seq<Seq<JsonValue>>, p: u32, k: int)
    requires
        0 <= k <= ops.len(),
        valid_trace(old, ops, trace),
        forall|j: int| 0 <= j < ops.len() ==> #[trigger] ops[j].0 != p,
    ensures
        port_entries(trace[k], p) == port_entries(old, p),
    decreases k,
{
    if k > 0 {
        lemma_trace_keeps_port(old, ops, trace, p, k - 1);
        let j = k - 1;
        assert(step_applied(trace[j], ops[j].0, ops[j].1, trace[j + 1]));
        assert(ops[j].0 != p);
        lemma_port_entries_step(trace[j], ops[j].0, ops[j].1, trace[j + 1], p);
    }
}

/// Splicing a batch into the override list leaves the entries of every port
/// that no operation names exactly as they were.
pub proof fn lemma_unnamed_port_kept(
    old: Seq<JsonValue>,
    ops: Seq<(u32, PortOp)>,
    new: Seq<JsonValue>,
    resets: nat,
    p: u32,
)
    requires
        ops_applied(old, ops, new, resets),
        forall|j: int| 0 <= j < ops.len() ==> #[trigger] ops[j].0 != p,
    ensures
        port_entries(new, p) == port_entries(old, p),
{
    let trace = choose|trace: Seq<Seq<JsonValue>>|
        #[trigger] valid_trace(old, ops, trace) && trace.last() == new && resets == reset_count(ops, trace, ops.len() as int);
    lemma_trace_keeps_port(old, ops, trace, p, ops.len() as int);
}


/// A speed written by an update reads back as the same setting.
pub proof fn lemma_speed_round_trip(old_speed: Option<JView>, old_autoneg: Option<JView>, u: UpdateView)
    requires
        u.speed_setting is Some,
    ensures
        spec_parse_speed(
            jstr(updated_member(old_speed, u, "speed"@)),
            jbool(updated_member(old_autoneg, u, "autoneg"@)),
        ) == u.speed_setting,
{
    lemma_keys_distinct();
    reveal_strlit("auto");
    reveal_strlit("10");
    reveal_strlit("100");
    reveal_strlit("1000");
    reveal_strlit("2500");
    reveal_strlit("5000");
    reveal_strlit("10000");
    assert("10"@.len() == 2);
    assert("100"@.len() == 3);
    assert("1000"@.len() == 4);
    assert("auto"@.len() == 4);
    assert("auto"@[0] != "1000"@[0]);
    assert("2500"@[0] != "1000"@[0]);
    assert("5000"@[0] != "1000"@[0]);
    assert("2500"@[0] != "auto"@[0]);
    assert("5000"@[0] != "auto"@[0]);
    assert("5000"@[0] != "2500"@[0]);
    assert("10000"@.len() == 5);
}

/// A PoE mode written by an update reads back as the same mode (`Other` is
/// written as, and reads back as, `Auto`).
pub proof fn lemma_poe_round_trip(old: Option<JView>, u: UpdateView)
    requires
        u.poe_mode is Some,
    ensures
        jstr(updated_member(old, u, "poe_mode"@)) is Some,
        spec_parse_poe_mode(jstr(updated_member(old, u, "poe_mode"@))->Some_0) == match u.poe_mode->Some_0 {
            PoeMode::Other => PoeMode::Auto,
            m => m,
        },
{
    lemma_keys_distinct();
    reveal_strlit("auto");
    reveal_strlit("off");
    reveal_strlit("pasv24");
    reveal_strlit("passthrough");
    assert("auto"@.len() == 4);
    assert("off"@.len() == 3);
    assert("pasv24"@.len() == 6);
    assert("passthrough"@.len() == 11);
}

} // verus!
