//! Apply-request entries: reading one back from an override entry, and
//! validating one into a profile update (names resolved to session ids).
use vstd::prelude::*;

use crate::error::{CoreError, ErrorView};
use crate::json::{
    as_array, as_bool, as_str, collect_strings, get, jarray, jbool, jget, jstr, jstrings, mget, str_array, JView, JsonValue,
};
use crate::model::device::{PoeMode, PortMode, PortSpeedSetting};
use crate::ports::networks::{lemma_exact_id_wins, record_id, resolve_network_to_id, spec_resolve_network_to_id};
use crate::order::{stable_sort_by_key, stable_sorting};
use crate::ports::overrides::{
    is_updated_entry, lemma_port_slot_at, lemma_updated_entry_index, object_members, port_slot, step_applied, upserted,
    valid_trace, reset_count, lemma_unnamed_port_kept, ops_applied, updated_member, port_entries, port_idx, spec_port_idx, splice_port_ops, update_count, PortOp};
use crate::ports::profile::indexed;
use crate::ports::{
    context_err, invalid_mode_message, invalid_poe_message, invalid_speed_message, mode_from_name, parse_apply_mode,
    parse_apply_poe, parse_apply_speed, poe_from_name, spec_context_err, speed_from_name, ApplyPortsSummary,
    PortProfileUpdate, UpdateView,
};
use crate::requests::ports::{ApplyPortEntry, ApplyPortsRequest};
use crate::text::{decimal, is_empty_text, non_empty, opt_view, owned, push_str, str_eq, string_views, u64_to_decimal};

verus! {

/// View of an optional list of strings.
pub open spec fn opt_strings_view(o: Option<Vec<String>>) -> Option<Seq<Seq<char>>> {
    match o {
        Some(v) => Some(string_views(v@)),
        None => None,
    }
}

/// Text of member `key`.
pub open spec fn member_str(raw: JView, key: Seq<char>) -> Option<Seq<char>> {
    jstr(jget(raw, key))
}

/// Request mode of an override entry: `mirror` op mode; otherwise, with a
/// `switch` or missing op mode, `access` for `block_all` and `trunk` for
/// `auto` or `custom` VLAN management.
pub open spec fn override_mode_name(op_mode: Option<Seq<char>>, mgmt: Option<Seq<char>>) -> Option<Seq<char>> {
    if op_mode == Some("mirror"@) {
        Some("mirror"@)
    } else if op_mode == Some("switch"@) || op_mode is None {
        if mgmt == Some("block_all"@) {
            Some("access"@)
        } else if mgmt == Some("auto"@) || mgmt == Some("custom"@) {
            Some("trunk"@)
        } else {
            None
        }
    } else {
        None
    }
}

/// Tagged networks of an override entry: the string items of a non-empty list.
pub open spec fn override_tagged(raw: JView) -> Option<Seq<Seq<char>>> {
    match jarray(jget(raw, "tagged_networkconf_ids"@)) {
        Some(items) => if jstrings(items).len() > 0 {
            Some(jstrings(items))
        } else {
            None
        },
        None => None,
    }
}

/// Pinned speed of an override entry: only with `autoneg: false` and a
/// non-empty `speed` text.
pub open spec fn override_speed(raw: JView) -> Option<Seq<char>> {
    match (jbool(jget(raw, "autoneg"@)), member_str(raw, "speed"@)) {
        (Some(false), Some(s)) => if s.len() > 0 {
            Some(s)
        } else {
            None
        },
        _ => None,
    }
}

fn opt_eq(o: Option<&str>, lit: &str) -> (res: bool)
    ensures
        res == (crate::text::opt_str_view(o) == Some(lit@)),
{
    match o {
        Some(s) => str_eq(s, lit),
        None => false,
    }
}

fn non_empty_owned(o: Option<&str>) -> (res: Option<String>)
    ensures
        opt_view(res) == non_empty(crate::text::opt_str_view(o)),
{
    match o {
        Some(s) => if !is_empty_text(s) {
            Some(owned(s))
        } else {
            None
        },
        None => None,
    }
}

/// `e` is the apply-request entry that reproduces override entry `raw` of
/// port `index`. Empty texts and lists count as absent; `autoneg: true` yields
/// no speed, so the entry round-trips without a pinned speed.
pub open spec fn is_override_entry(e: ApplyPortEntry, index: u32, raw: JView) -> bool {
    &&& e.index == index
    &&& opt_view(e.name) == non_empty(member_str(raw, "name"@))
    &&& opt_view(e.mode) == override_mode_name(member_str(raw, "op_mode"@), member_str(raw, "tagged_vlan_mgmt"@))
    &&& opt_view(e.native_network_id) == non_empty(member_str(raw, "native_networkconf_id"@))
    &&& opt_strings_view(e.tagged_network_ids) == override_tagged(raw)
    &&& e.tagged_all == if opt_view(e.mode) == Some("trunk"@) && member_str(raw, "tagged_vlan_mgmt"@) == Some("auto"@) {
        Some(true)
    } else {
        None
    }
    &&& opt_view(e.poe) == non_empty(member_str(raw, "poe_mode"@))
    &&& opt_view(e.speed) == override_speed(raw)
    &&& !e.reset
}

/// The apply-request entry that reproduces override entry `raw` of port `index`.
pub fn override_to_entry(index: u32, raw: &JsonValue) -> (res: ApplyPortEntry)
    ensures
        is_override_entry(res, index, raw@),
{
    let name = non_empty_owned(as_str(get(raw, "name")));
    let op_mode = as_str(get(raw, "op_mode"));
    let tagged_mgmt = as_str(get(raw, "tagged_vlan_mgmt"));
    let switching = opt_eq(op_mode, "switch") || op_mode.is_none();
    let mode = if opt_eq(op_mode, "mirror") {
        Some(owned("mirror"))
    } else if switching && opt_eq(tagged_mgmt, "block_all") {
        Some(owned("access"))
    } else if switching && (opt_eq(tagged_mgmt, "auto") || opt_eq(tagged_mgmt, "custom")) {
        Some(owned("trunk"))
    } else {
        None
    };
    let native_network_id = non_empty_owned(as_str(get(raw, "native_networkconf_id")));
    let tagged_network_ids = match as_array(get(raw, "tagged_networkconf_ids")) {
        Some(items) => {
            let list = collect_strings(items);
            if list.len() > 0 {
                Some(list)
            } else {
                None
            }
        },
        None => None,
    };
    let is_trunk = match &mode {
        Some(m) => str_eq(m.as_str(), "trunk"),
        None => false,
    };
    let tagged_all = if is_trunk && opt_eq(tagged_mgmt, "auto") {
        Some(true)
    } else {
        None
    };
    let poe = non_empty_owned(as_str(get(raw, "poe_mode")));
    let speed = match (as_bool(get(raw, "autoneg")), as_str(get(raw, "speed"))) {
        (Some(false), Some(s)) => if !is_empty_text(s) {
            Some(owned(s))
        } else {
            None
        },
        _ => None,
    };
    ApplyPortEntry {
        index,
        name,
        mode,
        native_network_id,
        tagged_network_ids,
        tagged_all,
        poe,
        speed,
        reset: false,
    }
}


// ── validating an entry ────────────────────────────────────────────

/// Message of an entry that asks for all VLANs and lists tagged networks.
pub open spec fn tagged_conflict_message(index: u32) -> Seq<char> {
    "port "@ + decimal(index as nat) + ": tagged_all=true conflicts with a non-empty tagged_network_ids list"@
}

/// Session ids of the networks `ids` designate, in order; the first failure.
pub open spec fn resolve_all(ids: Seq<Seq<char>>, nets: Seq<JsonValue>) -> Result<Seq<Seq<char>>, ErrorView>
    decreases ids.len(),
{
    if ids.len() == 0 {
        Ok(Seq::empty())
    } else {
        match resolve_all(ids.drop_last(), nets) {
            Err(e) => Err(e),
            Ok(done) => match spec_resolve_network_to_id(nets, ids.last()) {
                Ok(id) => Ok(done.push(id)),
                Err(e) => Err(e),
            },
        }
    }
}

/// An optional value parsed by `parse`, the error prefixed with the port.
pub open spec fn parsed_opt<A>(
    index: u32,
    raw: Option<String>,
    parse: spec_fn(Seq<char>) -> Option<A>,
    message: spec_fn(Seq<char>) -> Seq<char>,
) -> Result<Option<A>, ErrorView> {
    match raw {
        Some(r) => match parse(r@) {
            Some(x) => Ok(Some(x)),
            None => Err(spec_context_err(index, ErrorView::ValidationFailed(message(r@)))),
        },
        None => Ok(None),
    }
}

/// The native network of an entry, resolved.
pub open spec fn entry_native(e: ApplyPortEntry, nets: Seq<JsonValue>) -> Result<Option<Seq<char>>, ErrorView> {
    match e.native_network_id {
        Some(id) => match spec_resolve_network_to_id(nets, id@) {
            Ok(x) => Ok(Some(x)),
            Err(err) => Err(spec_context_err(e.index, err)),
        },
        None => Ok(None),
    }
}

/// The tagged networks of an entry, resolved; none when all VLANs are asked for.
pub open spec fn entry_tagged(e: ApplyPortEntry, nets: Seq<JsonValue>) -> Result<Option<Seq<Seq<char>>>, ErrorView> {
    if e.tagged_all == Some(true) {
        Ok(None)
    } else {
        match e.tagged_network_ids {
            Some(l) => match resolve_all(string_views(l@), nets) {
                Ok(v) => Ok(Some(v)),
                Err(err) => Err(spec_context_err(e.index, err)),
            },
            None => Ok(None),
        }
    }
}

/// The update an apply-request entry asks for, or the first problem with it:
/// all VLANs together with tagged networks, then an invalid mode, native
/// network, tagged network, PoE mode or speed. Asking for all VLANs makes the
/// port a trunk with no tagged list.
pub open spec fn spec_entry_to_update(e: ApplyPortEntry, nets: Seq<JsonValue>) -> Result<UpdateView, ErrorView> {
    if e.tagged_all == Some(true) && (e.tagged_network_ids matches Some(l) && l@.len() > 0) {
        Err(ErrorView::ValidationFailed(tagged_conflict_message(e.index)))
    } else {
        match parsed_opt(e.index, e.mode, |r: Seq<char>| mode_from_name(r), |r: Seq<char>| invalid_mode_message(r)) {
            Err(x) => Err(x),
            Ok(mode) => match entry_native(e, nets) {
                Err(x) => Err(x),
                Ok(native) => match entry_tagged(e, nets) {
                    Err(x) => Err(x),
                    Ok(tagged) => match parsed_opt(
                        e.index,
                        e.poe,
                        |r: Seq<char>| poe_from_name(r),
                        |r: Seq<char>| invalid_poe_message(r),
                    ) {
                        Err(x) => Err(x),
                        Ok(poe) => match parsed_opt(
                            e.index,
                            e.speed,
                            |r: Seq<char>| speed_from_name(r),
                            |r: Seq<char>| invalid_speed_message(r),
                        ) {
                            Err(x) => Err(x),
                            Ok(speed) => Ok(
                                UpdateView {
                                    name: opt_view(e.name),
                                    mode: if e.tagged_all == Some(true) {
                                        Some(PortMode::Trunk)
                                    } else {
                                        mode
                                    },
                                    native_network_id: native,
                                    tagged_network_ids: tagged,
                                    poe_mode: poe,
                                    speed_setting: speed,
                                },
                            ),
                        },
                    },
                },
            },
        }
    }
}

fn resolve_tagged(index: u32, list: &Vec<String>, networks: &[JsonValue]) -> (res: Result<Vec<String>, CoreError>)
    ensures
        match resolve_all(string_views(list@), networks@) {
            Ok(v) => res matches Ok(r) && string_views(r@) == v,
            Err(e) => res matches Err(x) && x@ == spec_context_err(index, e),
        },
{
    let ghost ids = string_views(list@);
    let mut out: Vec<String> = Vec::new();
    let mut i: usize = 0;
    assert(ids.take(0) =~= Seq::<Seq<char>>::empty());
    assert(string_views(out@) =~= Seq::<Seq<char>>::empty());
    while i < list.len()
        invariant
            i <= list.len(),
            ids == string_views(list@),
            resolve_all(ids.take(i as int), networks@) == Ok::<Seq<Seq<char>>, ErrorView>(string_views(out@)),
        decreases list.len() - i,
    {
        assert(ids.take(i + 1).drop_last() =~= ids.take(i as int));
        assert(ids.take(i + 1).last() == list@[i as int]@);
        match resolve_network_to_id(list[i].as_str(), networks) {
            Ok(id) => {
                let ghost prev = out@;
                out.push(id);
                assert(string_views(out@) =~= string_views(prev).push(id@));
            },
            Err(e) => {
                proof {
                    lemma_resolve_all_err(ids, networks@, i as int);
                }
                return Err(context_err(index, e));
            },
        }
        i = i + 1;
    }
    assert(ids.take(list.len() as int) =~= ids);
    Ok(out)
}

proof fn lemma_resolve_all_err(ids: Seq<Seq<char>>, nets: Seq<JsonValue>, i: int)
    requires
        0 <= i < ids.len(),
        resolve_all(ids.take(i + 1), nets) is Err,
    ensures
        resolve_all(ids, nets) == resolve_all(ids.take(i + 1), nets),
    decreases ids.len(),
{
    if i + 1 < ids.len() {
        assert(ids.drop_last().take(i + 1) =~= ids.take(i + 1));
        lemma_resolve_all_err(ids.drop_last(), nets, i);
    } else {
        assert(ids.take(i + 1) =~= ids);
    }
}

/// Validates an apply-request entry into a profile update; network names are
/// resolved to session ids and every error names the port.
pub fn entry_to_update(entry: &ApplyPortEntry, networks: &[JsonValue]) -> (res: Result<PortProfileUpdate, CoreError>)
    ensures
        match spec_entry_to_update(*entry, networks@) {
            Ok(u) => res matches Ok(r) && r@ == u,
            Err(e) => res matches Err(x) && x@ == e,
        },
{
    let tagged_all = entry.tagged_all == Some(true);
    if tagged_all {
        if let Some(list) = &entry.tagged_network_ids {
            if list.len() > 0 {
                let mut message = String::new();
                push_str(&mut message, "port ");
                let n = u64_to_decimal(entry.index as u64);
                push_str(&mut message, n.as_str());
                push_str(&mut message, ": tagged_all=true conflicts with a non-empty tagged_network_ids list");
                return Err(CoreError::ValidationFailed { message });
            }
        }
    }
    let mode = match &entry.mode {
        Some(m) => match parse_apply_mode(m.as_str()) {
            Ok(x) => Some(x),
            Err(e) => {
                return Err(context_err(entry.index, e));
            },
        },
        None => None,
    };
    let mode = if tagged_all {
        Some(PortMode::Trunk)
    } else {
        mode
    };
    let native_network_id = match &entry.native_network_id {
        Some(id) => match resolve_network_to_id(id.as_str(), networks) {
            Ok(x) => Some(x),
            Err(e) => {
                return Err(context_err(entry.index, e));
            },
        },
        None => None,
    };
    let tagged_network_ids = if tagged_all {
        None
    } else {
        match &entry.tagged_network_ids {
            Some(list) => match resolve_tagged(entry.index, list, networks) {
                Ok(v) => Some(v),
                Err(e) => {
                    return Err(e);
                },
            },
            None => None,
        }
    };
    let poe_mode = match &entry.poe {
        Some(p) => match parse_apply_poe(p.as_str()) {
            Ok(x) => Some(x),
            Err(e) => {
                return Err(context_err(entry.index, e));
            },
        },
        None => None,
    };
    let speed_setting = match &entry.speed {
        Some(sp) => match parse_apply_speed(sp.as_str()) {
            Ok(x) => Some(x),
            Err(e) => {
                return Err(context_err(entry.index, e));
            },
        },
        None => None,
    };
    Ok(PortProfileUpdate {
        name: entry.name.clone(),
        mode,
        native_network_id,
        tagged_network_ids,
        poe_mode,
        speed_setting,
    })
}


// ── batches ────────────────────────────────────────────────────────

/// The first problem among the entries that are not resets.
pub open spec fn plan_error(entries: Seq<ApplyPortEntry>, nets: Seq<JsonValue>) -> Option<ErrorView>
    decreases entries.len(),
{
    if entries.len() == 0 {
        None
    } else {
        match plan_error(entries.drop_last(), nets) {
            Some(e) => Some(e),
            None => {
                let e = entries.last();
                if e.reset {
                    None
                } else {
                    match spec_entry_to_update(e, nets) {
                        Err(x) => Some(x),
                        Ok(_) => None,
                    }
                }
            },
        }
    }
}

/// `op` is what entry `e` asks of its port.
pub open spec fn op_for(e: ApplyPortEntry, nets: Seq<JsonValue>, op: (u32, PortOp)) -> bool {
    &&& op.0 == e.index
    &&& if e.reset {
        op.1 is Reset
    } else {
        op.1 matches PortOp::Update(u) && spec_entry_to_update(e, nets) == Ok::<UpdateView, ErrorView>(u@)
    }
}

/// `ops` are the operations the entries ask for, one per entry, in order.
pub open spec fn planned(entries: Seq<ApplyPortEntry>, nets: Seq<JsonValue>, ops: Seq<(u32, PortOp)>) -> bool {
    &&& ops.len() == entries.len()
    &&& forall|j: int| 0 <= j < entries.len() ==> #[trigger] op_for(entries[j], nets, ops[j])
}

proof fn lemma_plan_error_prefix(entries: Seq<ApplyPortEntry>, nets: Seq<JsonValue>, i: int)
    requires
        0 <= i < entries.len(),
        plan_error(entries.take(i + 1), nets) is Some,
    ensures
        plan_error(entries, nets) == plan_error(entries.take(i + 1), nets),
    decreases entries.len(),
{
    if i + 1 < entries.len() {
        assert(entries.drop_last().take(i + 1) =~= entries.take(i + 1));
        lemma_plan_error_prefix(entries.drop_last(), nets, i);
    } else {
        assert(entries.take(i + 1) =~= entries);
    }
}

/// Validates every entry of a request, before anything is changed, into the
/// operation it asks for; fails on the first invalid entry.
pub fn plan_port_ops(request: &ApplyPortsRequest, networks: &[JsonValue]) -> (res: Result<Vec<(u32, PortOp)>, CoreError>)
    ensures
        match plan_error(request.ports@, networks@) {
            Some(e) => res matches Err(x) && x@ == e,
            None => res matches Ok(ops) && planned(request.ports@, networks@, ops@),
        },
{
    let ghost entries = request.ports@;
    let mut ops: Vec<(u32, PortOp)> = Vec::new();
    let mut i: usize = 0;
    while i < request.ports.len()
        invariant
            i <= request.ports.len(),
            entries == request.ports@,
            plan_error(entries.take(i as int), networks@) is None,
            ops@.len() == i,
            forall|j: int| 0 <= j < i ==> #[trigger] op_for(entries[j], networks@, ops@[j]),
        decreases request.ports.len() - i,
    {
        assert(entries.take(i + 1).drop_last() =~= entries.take(i as int));
        assert(entries.take(i + 1).last() == entries[i as int]);
        let entry = &request.ports[i];
        if entry.reset {
            ops.push((entry.index, PortOp::Reset));
        } else {
            match entry_to_update(entry, networks) {
                Ok(u) => {
                    ops.push((entry.index, PortOp::Update(u)));
                },
                Err(e) => {
                    proof {
                        lemma_plan_error_prefix(entries, networks@, i as int);
                    }
                    return Err(e);
                },
            }
        }
        i = i + 1;
    }
    assert(entries.take(request.ports.len() as int) =~= entries);
    Ok(ops)
}

/// Applies a batch request to a device's override list: every entry is
/// validated first and nothing changes when one is invalid; then resets drop
/// their port's entries and updates are spliced in, in request order. Ports
/// the request does not name keep their entries.
pub fn apply_port_entries(
    overrides: &mut Vec<JsonValue>,
    request: &ApplyPortsRequest,
    networks: &[JsonValue],
) -> (res: Result<ApplyPortsSummary, CoreError>)
    ensures
        match plan_error(request.ports@, networks@) {
            Some(e) => res matches Err(x) && x@ == e && final(overrides)@ == old(overrides)@,
            None => res matches Ok(s) && exists|ops: Seq<(u32, PortOp)>|
                #[trigger] planned(request.ports@, networks@, ops)
                && ops_applied(old(overrides)@, ops, final(overrides)@, s.reset as nat)
                && s.applied == update_count(ops),
        },
{
    match plan_port_ops(request, networks) {
        Err(e) => Err(e),
        Ok(ops) => {
            let summary = splice_port_ops(overrides, &ops);
            assert(planned(request.ports@, networks@, ops@));
            Ok(summary)
        },
    }
}


// ── exporting ──────────────────────────────────────────────────────

/// Where an exported entry comes from.
pub enum ExportSource {
    /// An override entry of a port.
    Override(u32, JView),
    /// A live port without an override entry, with its name.
    Placeholder(u32, Option<Seq<char>>),
}

/// Port index of an export source.
pub open spec fn export_key(s: ExportSource) -> u32 {
    match s {
        ExportSource::Override(i, _) => i,
        ExportSource::Placeholder(i, _) => i,
    }
}

/// Port indices of export sources.
pub open spec fn export_keys(srcs: Seq<ExportSource>) -> Seq<u32> {
    srcs.map_values(|x: ExportSource| export_key(x))
}

/// `e` is the exported entry for `src`: a placeholder carries only index and name.
pub open spec fn is_export_entry(e: ApplyPortEntry, src: ExportSource) -> bool {
    match src {
        ExportSource::Override(i, raw) => is_override_entry(e, i, raw),
        ExportSource::Placeholder(i, name) => {
            &&& e.index == i
            &&& opt_view(e.name) == name
            &&& e.mode is None
            &&& e.native_network_id is None
            &&& e.tagged_network_ids is None
            &&& e.tagged_all is None
            &&& e.poe is None
            &&& e.speed is None
            &&& !e.reset
        },
    }
}

/// Port `idx` has an override entry.
pub open spec fn has_override(ov: Seq<JsonValue>, idx: u32) -> bool {
    exists|j: int| 0 <= j < indexed(ov).len() && #[trigger] indexed(ov)[j].0 == idx
}

/// Placeholders for the live ports without an override entry, in order.
pub open spec fn uncovered_rows(rows: Seq<(u32, JView)>, ov: Seq<JsonValue>) -> Seq<ExportSource>
    decreases rows.len(),
{
    if rows.len() == 0 {
        Seq::empty()
    } else if has_override(ov, rows.last().0) {
        uncovered_rows(rows.drop_last(), ov)
    } else {
        uncovered_rows(rows.drop_last(), ov).push(
            ExportSource::Placeholder(rows.last().0, member_str(rows.last().1, "name"@)),
        )
    }
}

/// What the export lists: every override entry with a port index; with
/// `include_all`, also a placeholder for every live port lacking one.
pub open spec fn export_sources(ov: Seq<JsonValue>, table: Seq<JsonValue>, include_all: bool) -> Seq<ExportSource> {
    let from_ov = indexed(ov).map_values(|e: (u32, JView)| ExportSource::Override(e.0, e.1));
    if include_all {
        from_ov + uncovered_rows(indexed(table), ov)
    } else {
        from_ov
    }
}

/// Builds the apply request that reproduces a device's override entries,
/// sorted by port index (equal indices keep their order). With `include_all`,
/// live ports without an override get a placeholder entry (index and name).
pub fn export_port_entries(overrides: &Vec<JsonValue>, port_table: &Vec<JsonValue>, include_all: bool) -> (res: ApplyPortsRequest)
    ensures
        ({
            let srcs = export_sources(overrides@, port_table@, include_all);
            exists|order: Seq<int>| #[trigger] stable_sorting(export_keys(srcs), order)
                && res.ports@.len() == srcs.len()
                && forall|j: int| 0 <= j < order.len() ==> is_export_entry(#[trigger] res.ports@[j], srcs[order[j]])
        }),
{
    let ghost ov = overrides@;
    let ghost srcs = export_sources(overrides@, port_table@, include_all);
    let mut entries: Vec<ApplyPortEntry> = Vec::new();
    let mut keys: Vec<u32> = Vec::new();
    let mut i: usize = 0;
    while i < overrides.len()
        invariant
            ov == overrides@,
            i <= overrides.len(),
            entries@.len() == indexed(ov.take(i as int)).len(),
            keys@.len() == entries@.len(),
            forall|j: int| 0 <= j < entries@.len() ==> {
                let e = #[trigger] indexed(ov.take(i as int))[j];
                keys@[j] == e.0 && is_override_entry(entries@[j], e.0, e.1)
            },
        decreases overrides.len() - i,
    {
        let ghost pre = indexed(ov.take(i as int));
        assert(ov.take(i + 1).drop_last() =~= ov.take(i as int));
        assert(ov.take(i + 1).last() == ov[i as int]);
        let raw = &overrides[i];
        if let Some(idx) = port_idx(raw) {
            entries.push(override_to_entry(idx, raw));
            keys.push(idx);
        }
        assert(forall|j: int| 0 <= j < pre.len() ==> indexed(ov.take(i + 1))[j] == pre[j]);
        i = i + 1;
    }
    assert(ov.take(overrides.len() as int) =~= ov);
    let ghost from_ov = indexed(ov).map_values(|e: (u32, JView)| ExportSource::Override(e.0, e.1));
    let covered_count = keys.len();
    if include_all {
        let ghost rows = indexed(port_table@);
        let ghost ts = port_table@;
        let mut r: usize = 0;
        while r < port_table.len()
            invariant
                ov == overrides@,
                ts == port_table@,
                rows == indexed(ts),
                r <= port_table.len(),
                covered_count == indexed(ov).len(),
                entries@.len() == keys@.len(),
                entries@.len() == covered_count + uncovered_rows(indexed(ts.take(r as int)), ov).len(),
                forall|j: int| 0 <= j < covered_count ==> #[trigger] keys@[j] == indexed(ov)[j].0,
                forall|j: int| 0 <= j < covered_count ==> is_override_entry(#[trigger] entries@[j], indexed(ov)[j].0, indexed(ov)[j].1),
                forall|j: int| covered_count <= j < entries@.len() ==> {
                    let src = #[trigger] uncovered_rows(indexed(ts.take(r as int)), ov)[j - covered_count];
                    keys@[j] == export_key(src) && is_export_entry(entries@[j], src)
                },
            decreases port_table.len() - r,
        {
            let ghost pre_rows = indexed(ts.take(r as int));
            let ghost pre = uncovered_rows(pre_rows, ov);
            assert(ts.take(r + 1).drop_last() =~= ts.take(r as int));
            assert(ts.take(r + 1).last() == ts[r as int]);
            let row = &port_table[r];
            if let Some(idx) = port_idx(row) {
                let mut k: usize = 0;
                let mut seen = false;
                while k < covered_count
                    invariant
                        k <= covered_count,
                        covered_count <= keys@.len(),
                        covered_count == indexed(ov).len(),
                        forall|j: int| 0 <= j < covered_count ==> #[trigger] keys@[j] == indexed(ov)[j].0,
                        seen == exists|j: int| 0 <= j < k && #[trigger] indexed(ov)[j].0 == idx,
                    decreases covered_count - k,
                {
                    if keys[k] == idx {
                        seen = true;
                    }
                    proof {
                        if !seen {
                            assert forall|j: int| 0 <= j < k + 1 implies #[trigger] indexed(ov)[j].0 != idx by {
                                if j == k {
                                    assert(keys@[j] == indexed(ov)[j].0);
                                }
                            }
                        } else {
                            assert(keys@[k as int] == idx ==> indexed(ov)[k as int].0 == idx);
                        }
                    }
                    k = k + 1;
                }
                assert(seen == has_override(ov, idx));
                if !seen {
                    let name = match as_str(get(row, "name")) {
                        Some(n) => Some(owned(n)),
                        None => None,
                    };
                    entries.push(ApplyPortEntry {
                        index: idx,
                        name,
                        mode: None,
                        native_network_id: None,
                        tagged_network_ids: None,
                        tagged_all: None,
                        poe: None,
                        speed: None,
                        reset: false,
                    });
                    keys.push(idx);
                }
            }
            proof {
                let nr = indexed(ts.take(r + 1));
                if spec_port_idx(ts[r as int]@) is Some {
                    assert(nr.drop_last() =~= pre_rows);
                } else {
                    assert(nr == pre_rows);
                }
            }
            assert(forall|j: int| 0 <= j < pre.len() ==> uncovered_rows(indexed(ts.take(r + 1)), ov)[j] == pre[j]);
            r = r + 1;
        }
        assert(ts.take(port_table.len() as int) =~= ts);
    }
    assert(forall|j: int| 0 <= j < keys@.len() ==> keys@[j] == export_keys(srcs)[j]);
    assert(export_keys(srcs) =~= keys@);
    let ports = stable_sort_by_key(entries, &keys);
    ApplyPortsRequest { ports }
}


/// A batch apply leaves the override entries of every port its request does
/// not list exactly as they were.
pub proof fn lemma_unlisted_port_kept(
    old: Seq<JsonValue>,
    entries: Seq<ApplyPortEntry>,
    nets: Seq<JsonValue>,
    ops: Seq<(u32, PortOp)>,
    new: Seq<JsonValue>,
    resets: nat,
    p: u32,
)
    requires
        planned(entries, nets, ops),
        ops_applied(old, ops, new, resets),
        forall|j: int| 0 <= j < entries.len() ==> #[trigger] entries[j].index != p,
    ensures
        port_entries(new, p) == port_entries(old, p),
{
    assert forall|j: int| 0 <= j < ops.len() implies #[trigger] ops[j].0 != p by {
        assert(op_for(entries[j], nets, ops[j]));
        assert(entries[j].index != p);
    }
    lemma_unnamed_port_kept(old, ops, new, resets, p);
}

// ── export, then apply ─────────────────────────────────────────────

/// The settings of a port that an override entry holds, as an export reads
/// them: name, mode, whether every VLAN is tagged, native network, tagged
/// networks, PoE mode and pinned speed.
pub open spec fn override_settings(raw: JView) -> (
    Option<Seq<char>>,
    Option<Seq<char>>,
    bool,
    Option<Seq<char>>,
    Option<Seq<Seq<char>>>,
    Option<PoeMode>,
    Option<Seq<char>>,
) {
    (
        non_empty(member_str(raw, "name"@)),
        override_mode_name(member_str(raw, "op_mode"@), member_str(raw, "tagged_vlan_mgmt"@)),
        member_str(raw, "tagged_vlan_mgmt"@) == Some("auto"@),
        non_empty(member_str(raw, "native_networkconf_id"@)),
        override_tagged(raw),
        match non_empty(member_str(raw, "poe_mode"@)) {
            Some(p) => poe_from_name(p),
            None => None,
        },
        override_speed(raw),
    )
}

/// `id` is the session `_id` of one of the networks.
pub open spec fn is_network_id(nets: Seq<JsonValue>, id: Seq<char>) -> bool {
    exists|i: int| 0 <= i < nets.len() && record_id(#[trigger] nets[i]@) == Some(id)
}

proof fn lemma_ids_resolve(l: Seq<Seq<char>>, nets: Seq<JsonValue>)
    requires
        forall|j: int| 0 <= j < l.len() ==> is_network_id(nets, #[trigger] l[j]),
    ensures
        resolve_all(l, nets) == Ok::<Seq<Seq<char>>, ErrorView>(l),
    decreases l.len(),
{
    if l.len() > 0 {
        assert forall|j: int| 0 <= j < l.drop_last().len() implies is_network_id(nets, #[trigger] l.drop_last()[j]) by {
            assert(l.drop_last()[j] == l[j]);
        }
        lemma_ids_resolve(l.drop_last(), nets);
        assert(is_network_id(nets, l[l.len() - 1]));
        let i = choose|i: int| 0 <= i < nets.len() && record_id(#[trigger] nets[i]@) == Some(l.last());
        lemma_exact_id_wins(nets, l.last(), i);
        assert(l.drop_last().push(l.last()) =~= l);
    } else {
        assert(l =~= Seq::<Seq<char>>::empty());
    }
}

/// An override entry an export and a later apply carry over unchanged: its
/// PoE mode and pinned speed are names the apply request knows, the networks
/// it names are networks' session ids, and its VLAN settings are not one of the
/// two shapes an apply request cannot express (all VLANs together with a
/// tagged list, a custom list that is empty).
pub open spec fn round_trips(raw: JView, nets: Seq<JsonValue>) -> bool {
    let mode = override_mode_name(member_str(raw, "op_mode"@), member_str(raw, "tagged_vlan_mgmt"@));
    let mgmt = member_str(raw, "tagged_vlan_mgmt"@);
    &&& (non_empty(member_str(raw, "poe_mode"@)) matches Some(p) ==> poe_from_name(p) is Some)
    &&& (override_speed(raw) matches Some(sp) ==> (sp == "10"@ || sp == "100"@ || sp == "1000"@ || sp == "2500"@
        || sp == "5000"@ || sp == "10000"@))
    &&& (non_empty(member_str(raw, "native_networkconf_id"@)) matches Some(id) ==> is_network_id(nets, id))
    &&& (override_tagged(raw) matches Some(l) ==> forall|j: int| 0 <= j < l.len() ==> is_network_id(nets, #[trigger] l[j]))
    &&& !(mode == Some("trunk"@) && mgmt == Some("auto"@) && override_tagged(raw) is Some)
    &&& !(mode == Some("trunk"@) && mgmt == Some("custom"@) && override_tagged(raw) is None)
}

proof fn lemma_jstrings_str_array(l: Seq<Seq<char>>)
    ensures
        jstrings(l.map_values(|s: Seq<char>| JView::Str(s))) == l,
    decreases l.len(),
{
    if l.len() > 0 {
        lemma_jstrings_str_array(l.drop_last());
        assert(l.map_values(|s: Seq<char>| JView::Str(s)).drop_last() =~= l.drop_last().map_values(
            |s: Seq<char>| JView::Str(s),
        ));
        assert(l.drop_last().push(l.last()) =~= l);
    }
}

proof fn lemma_names_distinct()
    ensures
        "mirror"@ != "switch"@,
        "block_all"@ != "auto"@,
        "block_all"@ != "custom"@,
        "auto"@ != "custom"@,
        "access"@ != "trunk"@,
        "access"@ != "mirror"@,
        "trunk"@ != "mirror"@,
{
    reveal_strlit("mirror");
    reveal_strlit("switch");
    reveal_strlit("block_all");
    reveal_strlit("auto");
    reveal_strlit("custom");
    reveal_strlit("access");
    reveal_strlit("trunk");
    assert("mirror"@[0] != "switch"@[0]);
    assert("auto"@[0] != "custom"@[0]);
    assert("access"@[0] != "mirror"@[0]);
}

/// The entry an export produces for an override entry that round-trips is
/// accepted by an apply request.
proof fn lemma_exported_entry_accepted(e: ApplyPortEntry, index: u32, m: Seq<(Seq<char>, JView)>, nets: Seq<JsonValue>)
    requires
        is_override_entry(e, index, JView::Object(m)),
        round_trips(JView::Object(m), nets),
    ensures
        spec_entry_to_update(e, nets) is Ok,
{
    let raw = JView::Object(m);
    lemma_names_distinct();
    crate::ports::overrides::lemma_keys_distinct();
    reveal_strlit("10");
    reveal_strlit("100");
    reveal_strlit("1000");
    reveal_strlit("2500");
    reveal_strlit("5000");
    reveal_strlit("10000");
    reveal_strlit("auto");
    reveal_strlit("on");
    reveal_strlit("off");
    reveal_strlit("pasv24");
    reveal_strlit("passthrough");
    if let Some(l) = override_tagged(raw) {
        lemma_jstrings_str_array(l);
        lemma_ids_resolve(l, nets);
    }
    if let Some(id) = non_empty(member_str(raw, "native_networkconf_id"@)) {
        let i = choose|i: int| 0 <= i < nets.len() && record_id(#[trigger] nets[i]@) == Some(id);
        lemma_exact_id_wins(nets, id, i);
    }
    assert(spec_entry_to_update(e, nets) is Ok);
}

/// Applying what an export of an override entry asks for to that entry
/// keeps the port's settings: the entry an export produces for it is
/// accepted, and afterwards name, mode, all-VLAN tagging, native network,
/// tagged networks, PoE mode and pinned speed read as before.
pub proof fn lemma_export_apply_keeps_settings(
    e: ApplyPortEntry,
    index: u32,
    m: Seq<(Seq<char>, JView)>,
    nets: Seq<JsonValue>,
    after: Seq<(Seq<char>, JView)>,
)
    requires
        is_override_entry(e, index, JView::Object(m)),
        round_trips(JView::Object(m), nets),
        spec_entry_to_update(e, nets) is Ok ==> forall|k: Seq<char>| k != "port_idx"@ ==> #[trigger] mget(after, k)
            == updated_member(mget(m, k), spec_entry_to_update(e, nets)->Ok_0, k),
    ensures
        spec_entry_to_update(e, nets) is Ok,
        override_settings(JView::Object(after)) == override_settings(JView::Object(m)),
{
    let raw = JView::Object(m);
    lemma_names_distinct();
    crate::ports::overrides::lemma_keys_distinct();
    reveal_strlit("10");
    reveal_strlit("100");
    reveal_strlit("1000");
    reveal_strlit("2500");
    reveal_strlit("5000");
    reveal_strlit("10000");
    reveal_strlit("auto");
    reveal_strlit("on");
    reveal_strlit("off");
    reveal_strlit("pasv24");
    reveal_strlit("passthrough");
    if let Some(l) = override_tagged(raw) {
        lemma_jstrings_str_array(l);
        lemma_ids_resolve(l, nets);
    }
    if let Some(id) = non_empty(member_str(raw, "native_networkconf_id"@)) {
        let i = choose|i: int| 0 <= i < nets.len() && record_id(#[trigger] nets[i]@) == Some(id);
        lemma_exact_id_wins(nets, id, i);
    }
    lemma_exported_entry_accepted(e, index, m, nets);
    assert(spec_entry_to_update(e, nets) is Ok);
    let u = spec_entry_to_update(e, nets)->Ok_0;
    let a = JView::Object(after);
    assert(mget(after, "name"@) == updated_member(mget(m, "name"@), u, "name"@));
    assert(mget(after, "op_mode"@) == updated_member(mget(m, "op_mode"@), u, "op_mode"@));
    assert(mget(after, "tagged_vlan_mgmt"@) == updated_member(mget(m, "tagged_vlan_mgmt"@), u, "tagged_vlan_mgmt"@));
    assert(mget(after, "native_networkconf_id"@) == updated_member(
        mget(m, "native_networkconf_id"@),
        u,
        "native_networkconf_id"@,
    ));
    assert(mget(after, "tagged_networkconf_ids"@) == updated_member(
        mget(m, "tagged_networkconf_ids"@),
        u,
        "tagged_networkconf_ids"@,
    ));
    assert(mget(after, "poe_mode"@) == updated_member(mget(m, "poe_mode"@), u, "poe_mode"@));
    assert(mget(after, "autoneg"@) == updated_member(mget(m, "autoneg"@), u, "autoneg"@));
    assert(mget(after, "speed"@) == updated_member(mget(m, "speed"@), u, "speed"@));
    assert(override_settings(a).0 == override_settings(raw).0);
    assert(override_settings(a).1 == override_settings(raw).1);
    assert(override_settings(a).2 == override_settings(raw).2);
    assert(override_settings(a).3 == override_settings(raw).3);
    assert(override_settings(a).4 == override_settings(raw).4);
    assert(override_settings(a).5 == override_settings(raw).5);
    assert(override_settings(a).6 == override_settings(raw).6) by {
        if let Some(sp) = override_speed(raw) {
            assert(opt_view(e.speed) == Some(sp));
            assert(sp[0] != "auto"@[0]);
            assert(sp != "auto"@);
            let st = speed_from_name(sp)->Some_0;
            assert(u.speed_setting == Some(st));
            assert(st != PortSpeedSetting::Auto);
            assert(crate::ports::overrides::speed_wire_name(st) == sp);
            assert(mget(after, "autoneg"@) == Some(JView::Bool(false)));
            assert(mget(after, "speed"@) == Some(JView::Str(sp)));
        } else {
            assert(u.speed_setting is None);
        }
    }
}

/// Positions of the entries that carry a port index, in order.
pub open spec fn indexed_positions(s: Seq<JsonValue>) -> Seq<int>
    decreases s.len(),
{
    if s.len() == 0 {
        Seq::empty()
    } else {
        match spec_port_idx(s.last()@) {
            Some(_) => indexed_positions(s.drop_last()).push(s.len() - 1),
            None => indexed_positions(s.drop_last()),
        }
    }
}

proof fn lemma_indexed_positions(s: Seq<JsonValue>)
    ensures
        indexed_positions(s).len() == indexed(s).len(),
        forall|t: int| 0 <= t < indexed(s).len() ==> {
            let i = #[trigger] indexed_positions(s)[t];
            &&& 0 <= i < s.len()
            &&& spec_port_idx(s[i]@) == Some(indexed(s)[t].0)
            &&& s[i]@ == indexed(s)[t].1
        },
        forall|a: int, b: int| 0 <= a < b < indexed(s).len() ==> #[trigger] indexed_positions(s)[a] < #[trigger] indexed_positions(s)[b],
    decreases s.len(),
{
    if s.len() > 0 {
        let init = s.drop_last();
        lemma_indexed_positions(init);
        assert forall|t: int| 0 <= t < indexed_positions(init).len() implies init[indexed_positions(init)[t]] == s[indexed_positions(init)[t]] by {}
    }
}

/// Override lists whose entries name every port at most once.
pub open spec fn ports_distinct(ov: Seq<JsonValue>) -> bool {
    forall|a: int, b: int| 0 <= a < b < ov.len() && #[trigger] spec_port_idx(ov[a]@) is Some ==> spec_port_idx(ov[a]@)
        != #[trigger] spec_port_idx(ov[b]@)
}

/// What a batch holds on to while it performs an exported request's
/// operations: the position each operation's port has in the list.
spec fn batch_facts(
    ov: Seq<JsonValue>,
    nets: Seq<JsonValue>,
    entries: Seq<ApplyPortEntry>,
    ops: Seq<(u32, PortOp)>,
    pos: Seq<int>,
) -> bool {
    &&& ops.len() == entries.len()
    &&& pos.len() == ops.len()
    &&& ports_distinct(ov)
    &&& forall|j: int| 0 <= j < ops.len() ==> {
        let q = #[trigger] pos[j];
        &&& 0 <= q < ov.len()
        &&& spec_port_idx(ov[q]@) == Some(ops[j].0)
        &&& is_override_entry(entries[j], ops[j].0, ov[q]@)
        &&& round_trips(ov[q]@, nets)
        &&& ops[j].1 matches PortOp::Update(u) && spec_entry_to_update(entries[j], nets) == Ok::<UpdateView, ErrorView>(u@)
    }
    &&& forall|a: int, b: int| 0 <= a < ops.len() && 0 <= b < ops.len() && a != b ==> #[trigger] pos[a] != #[trigger] pos[b]
}

/// The state after `k` operations keeps every entry's port and settings, and
/// an entry no operation has reached yet is untouched.
spec fn batch_state(ov: Seq<JsonValue>, s: Seq<JsonValue>, pos: Seq<int>, k: int) -> bool {
    &&& s.len() == ov.len()
    &&& forall|i: int| 0 <= i < ov.len() ==> spec_port_idx(#[trigger] s[i]@) == spec_port_idx(ov[i]@)
    &&& forall|i: int| 0 <= i < ov.len() && spec_port_idx(ov[i]@) is Some ==> override_settings(#[trigger] s[i]@)
        == override_settings(ov[i]@)
    &&& forall|i: int| 0 <= i < ov.len() && (forall|j: int| 0 <= j < k ==> #[trigger] pos[j] != i) ==> #[trigger] s[i]
        == ov[i]
}

proof fn lemma_batch_step(
    ov: Seq<JsonValue>,
    nets: Seq<JsonValue>,
    entries: Seq<ApplyPortEntry>,
    ops: Seq<(u32, PortOp)>,
    pos: Seq<int>,
    s: Seq<JsonValue>,
    next: Seq<JsonValue>,
    k: int,
)
    requires
        batch_facts(ov, nets, entries, ops, pos),
        0 <= k < ops.len(),
        batch_state(ov, s, pos, k),
        step_applied(s, ops[k].0, ops[k].1, next),
    ensures
        batch_state(ov, next, pos, k + 1),
{
    let t = ops[k].0;
    let q = pos[k];
    let u = ops[k].1->Update_0;
    assert(spec_port_idx(ov[q]@) == Some(t));
    assert forall|i: int| 0 <= i < q implies spec_port_idx(#[trigger] s[i]@) != Some(t) by {
        assert(spec_port_idx(s[i]@) == spec_port_idx(ov[i]@));
        if spec_port_idx(ov[i]@) is Some {
            assert(spec_port_idx(ov[i]@) != spec_port_idx(ov[q]@));
        }
    }
    assert(spec_port_idx(s[q]@) == Some(t));
    lemma_port_slot_at(s, t, q);
    assert forall|j: int| 0 <= j < k implies #[trigger] pos[j] != q by {}
    assert(s[q] == ov[q]);
    assert(upserted(s, t, u@, next));
    let m = object_members(ov[q]@);
    assert(ov[q]@ == JView::Object(m)) by {
        if !(ov[q]@ is Object) {
            assert(jget(ov[q]@, "port_idx"@) is None);
        }
    }
    assert(is_updated_entry(m, next[q]@, t, u@));
    let after = object_members(next[q]@);
    assert(next[q]@ == JView::Object(after));
    lemma_export_apply_keeps_settings(entries[k], t, m, nets, after);
    lemma_updated_entry_index(m, next[q]@, t, u@);
    assert forall|i: int| 0 <= i < ov.len() && (forall|j: int| 0 <= j < k + 1 ==> #[trigger] pos[j] != i) implies #[trigger] next[i]
        == ov[i] by {
        assert(pos[k] != i);
        assert(next[i] == s[i]);
    }
    assert forall|i: int| 0 <= i < ov.len() implies spec_port_idx(#[trigger] next[i]@) == spec_port_idx(ov[i]@) by {
        if i != q {
            assert(next[i] == s[i]);
        }
    }
    assert forall|i: int| 0 <= i < ov.len() && spec_port_idx(ov[i]@) is Some implies override_settings(#[trigger] next[i]@)
        == override_settings(ov[i]@) by {
        if i != q {
            assert(next[i] == s[i]);
        }
    }
}

proof fn lemma_batch_trace(
    ov: Seq<JsonValue>,
    nets: Seq<JsonValue>,
    entries: Seq<ApplyPortEntry>,
    ops: Seq<(u32, PortOp)>,
    pos: Seq<int>,
    trace: Seq<Seq<JsonValue>>,
    k: int,
)
    requires
        batch_facts(ov, nets, entries, ops, pos),
        valid_trace(ov, ops, trace),
        0 <= k <= ops.len(),
    ensures
        batch_state(ov, trace[k], pos, k),
    decreases k,
{
    if k > 0 {
        lemma_batch_trace(ov, nets, entries, ops, pos, trace, k - 1);
        let j = k - 1;
        assert(step_applied(trace[j], ops[j].0, ops[j].1, trace[j + 1]));
        assert(j + 1 == k);
        lemma_batch_step(ov, nets, entries, ops, pos, trace[j], trace[k], j);
    }
}

proof fn lemma_no_plan_error(entries: Seq<ApplyPortEntry>, nets: Seq<JsonValue>)
    requires
        forall|j: int| 0 <= j < entries.len() ==> !(#[trigger] entries[j]).reset && spec_entry_to_update(entries[j], nets) is Ok,
    ensures
        plan_error(entries, nets) is None,
    decreases entries.len(),
{
    if entries.len() > 0 {
        assert forall|j: int| 0 <= j < entries.drop_last().len() implies !(#[trigger] entries.drop_last()[j]).reset
            && spec_entry_to_update(entries.drop_last()[j], nets) is Ok by {
            assert(entries.drop_last()[j] == entries[j]);
        }
        lemma_no_plan_error(entries.drop_last(), nets);
        assert(entries.last() == entries[entries.len() - 1]);
    }
}

proof fn lemma_all_updates(ops: Seq<(u32, PortOp)>)
    requires
        forall|j: int| 0 <= j < ops.len() ==> (#[trigger] ops[j]).1 is Update,
    ensures
        update_count(ops) == ops.len(),
    decreases ops.len(),
{
    if ops.len() > 0 {
        assert forall|j: int| 0 <= j < ops.drop_last().len() implies (#[trigger] ops.drop_last()[j]).1 is Update by {
            assert(ops.drop_last()[j] == ops[j]);
        }
        lemma_all_updates(ops.drop_last());
        assert(ops.last() == ops[ops.len() - 1]);
    }
}

/// Exporting a device's port overrides and applying the request to the same
/// overrides keeps every port's settings: when every port has at most one
/// override entry and each entry round-trips (see [`round_trips`]), the
/// exported request (`entries`, as [`export_port_entries`] describes it
/// without placeholders) is accepted whole, every entry is applied as an
/// update, and afterwards each entry of the list still names the same port
/// with the same name, mode, all-VLAN tagging, native and tagged networks,
/// PoE mode and pinned speed; entries without a port index stay as they were.
pub proof fn lemma_export_apply_batch_keeps_settings(
    ov: Seq<JsonValue>,
    table: Seq<JsonValue>,
    nets: Seq<JsonValue>,
    entries: Seq<ApplyPortEntry>,
    ops: Seq<(u32, PortOp)>,
    new: Seq<JsonValue>,
    resets: nat,
)
    requires
        ({
            let srcs = export_sources(ov, table, false);
            exists|order: Seq<int>| #[trigger] stable_sorting(export_keys(srcs), order)
                && entries.len() == srcs.len()
                && forall|j: int| 0 <= j < order.len() ==> is_export_entry(#[trigger] entries[j], srcs[order[j]])
        }),
        ports_distinct(ov),
        forall|i: int| 0 <= i < ov.len() && spec_port_idx(#[trigger] ov[i]@) is Some ==> round_trips(ov[i]@, nets),
    ensures
        plan_error(entries, nets) is None,
        planned(entries, nets, ops) && ops_applied(ov, ops, new, resets) ==> {
            &&& update_count(ops) == entries.len()
            &&& new.len() == ov.len()
            &&& forall|i: int| 0 <= i < ov.len() ==> spec_port_idx(#[trigger] new[i]@) == spec_port_idx(ov[i]@)
            &&& forall|i: int| 0 <= i < ov.len() && spec_port_idx(ov[i]@) is Some ==> override_settings(#[trigger] new[i]@)
                == override_settings(ov[i]@)
            &&& forall|i: int| 0 <= i < ov.len() && spec_port_idx(ov[i]@) is None ==> #[trigger] new[i] == ov[i]
        },
{
    let srcs = export_sources(ov, table, false);
    let order = choose|order: Seq<int>| #[trigger] stable_sorting(export_keys(srcs), order)
        && entries.len() == srcs.len()
        && forall|j: int| 0 <= j < order.len() ==> is_export_entry(#[trigger] entries[j], srcs[order[j]]);
    lemma_indexed_positions(ov);
    let ip = indexed_positions(ov);
    let ix = indexed(ov);
    assert(srcs == ix.map_values(|e: (u32, JView)| ExportSource::Override(e.0, e.1)));
    let pos = Seq::new(entries.len(), |j: int| ip[order[j]]);
    assert forall|j: int| 0 <= j < entries.len() implies {
        let q = #[trigger] pos[j];
        &&& 0 <= q < ov.len()
        &&& spec_port_idx(ov[q]@) == Some(entries[j].index)
        &&& is_override_entry(entries[j], entries[j].index, ov[q]@)
        &&& round_trips(ov[q]@, nets)
    } by {
        let t = order[j];
        assert(0 <= t < ix.len());
        assert(srcs[t] == ExportSource::Override(ix[t].0, ix[t].1));
        assert(is_export_entry(entries[j], srcs[t]));
        assert(ip[t] == pos[j]);
    }
    assert forall|j: int| 0 <= j < entries.len() implies !(#[trigger] entries[j]).reset && spec_entry_to_update(entries[j], nets) is Ok by {
        let q = pos[j];
        let m = object_members(ov[q]@);
        assert(ov[q]@ == JView::Object(m)) by {
            if !(ov[q]@ is Object) {
                assert(jget(ov[q]@, "port_idx"@) is None);
            }
        }
        lemma_exported_entry_accepted(entries[j], entries[j].index, m, nets);
    }
    lemma_no_plan_error(entries, nets);
    if planned(entries, nets, ops) && ops_applied(ov, ops, new, resets) {
        assert forall|j: int| 0 <= j < ops.len() implies (#[trigger] ops[j]).1 is Update by {
            assert(op_for(entries[j], nets, ops[j]));
        }
        lemma_all_updates(ops);
        assert forall|a: int, b: int| 0 <= a < ops.len() && 0 <= b < ops.len() && a != b implies #[trigger] pos[a] != #[trigger] pos[b] by {
            assert(order[a] != order[b]);
            if order[a] < order[b] {
                assert(ip[order[a]] < ip[order[b]]);
            } else {
                assert(ip[order[b]] < ip[order[a]]);
            }
        }
        assert forall|j: int| 0 <= j < ops.len() implies {
            let q = #[trigger] pos[j];
            &&& 0 <= q < ov.len()
            &&& spec_port_idx(ov[q]@) == Some(ops[j].0)
            &&& is_override_entry(entries[j], ops[j].0, ov[q]@)
            &&& round_trips(ov[q]@, nets)
            &&& ops[j].1 matches PortOp::Update(u) && spec_entry_to_update(entries[j], nets) == Ok::<UpdateView, ErrorView>(u@)
        } by {
            assert(op_for(entries[j], nets, ops[j]));
        }
        assert(batch_facts(ov, nets, entries, ops, pos));
        let trace = choose|trace: Seq<Seq<JsonValue>>|
            #[trigger] valid_trace(ov, ops, trace) && trace.last() == new && resets == reset_count(ops, trace, ops.len() as int);
        lemma_batch_trace(ov, nets, entries, ops, pos, trace, ops.len() as int);
        assert(trace[ops.len() as int] == new);
        assert forall|i: int| 0 <= i < ov.len() && spec_port_idx(ov[i]@) is None implies #[trigger] new[i] == ov[i] by {
            assert forall|j: int| 0 <= j < ops.len() implies #[trigger] pos[j] != i by {
                assert(spec_port_idx(ov[pos[j]]@) is Some);
            }
        }
    }
}

} // verus!
