//! JSON bodies of firewall policy create and update calls.
use vstd::prelude::*;

use crate::error::{CoreError, ErrorView};
use crate::integration::{
    AclRuleOrdering, FirewallPolicyCreateUpdate, FirewallPolicyOrdering, FirewallPolicyResponse,
    FirewallZoneCreateUpdate, FirewallZoneResponse,
};
use crate::model::entity::EntityId;
use crate::support::{all_uuids, id_texts, require_uuid, require_uuids};
use crate::json::{
    as_array, as_str, clone_value, collect_strings, jarray, jstr, jstrings, jview_members, mget, obj_lookup, JView,
    JsonValue,
};
use crate::convert::firewall::spec_policy_action;
use crate::model::firewall::FirewallAction;
use crate::payloads::traffic::{build_endpoint_json, spec_endpoint};
use crate::requests::policy::{
    CreateFirewallPolicyRequest, CreateFirewallZoneRequest, UpdateFirewallPolicyRequest, UpdateFirewallZoneRequest,
};
use crate::text::{opt_view, owned, string_views};

verus! {

/// Wire name of a policy action; blocking is `DROP`.
pub open spec fn spec_action_type(a: FirewallAction) -> Seq<char> {
    match a {
        FirewallAction::Allow => "ALLOW"@,
        FirewallAction::Block => "DROP"@,
        FirewallAction::Reject => "REJECT"@,
    }
}

/// The action object of a policy: `{"type": name}`.
pub open spec fn action_object(a: FirewallAction) -> JView {
    JView::Object(seq![("type"@, JView::Str(spec_action_type(a)))])
}

/// The protocol scope object of a policy: `{"ipVersion": version}`.
pub open spec fn scope_object(version: Seq<char>) -> JView {
    JView::Object(seq![("ipVersion"@, JView::Str(version))])
}

fn action_json(a: FirewallAction) -> (res: JsonValue)
    ensures
        res@ == action_object(a),
{
    let name = match a {
        FirewallAction::Allow => "ALLOW",
        FirewallAction::Block => "DROP",
        FirewallAction::Reject => "REJECT",
    };
    let members = vec![(owned("type"), JsonValue::Str(owned(name)))];
    proof {
        crate::json::lemma_jview_members(members@);
    }
    assert(jview_members(members@) =~= seq![("type"@, JView::Str(spec_action_type(a)))]);
    JsonValue::Object(members)
}

fn scope_json(version: &str) -> (res: JsonValue)
    ensures
        res@ == scope_object(version@),
{
    let members = vec![(owned("ipVersion"), JsonValue::Str(owned(version)))];
    proof {
        crate::json::lemma_jview_members(members@);
    }
    assert(jview_members(members@) =~= seq![("ipVersion"@, JView::Str(version@))]);
    JsonValue::Object(members)
}

/// Optional filter view.
pub open spec fn opt_filter(f: Option<crate::requests::policy::TrafficFilterSpec>) -> Option<crate::requests::policy::FilterView> {
    match f {
        Some(x) => Some(x@),
        None => None,
    }
}

/// The create call for a firewall policy: its endpoints from the zones and
/// filters (the first endpoint error is the call's), its action, its IP
/// version (both versions unless one is named), and the other settings as
/// given.
pub fn firewall_policy_create_body(req: &CreateFirewallPolicyRequest) -> (res: Result<FirewallPolicyCreateUpdate, CoreError>)
    ensures
        match spec_endpoint(req.source_zone_id.text(), opt_filter(req.source_filter)) {
            Err(e) => res matches Err(x) && x@ == e,
            Ok(src) => match spec_endpoint(req.destination_zone_id.text(), opt_filter(req.destination_filter)) {
                Err(e) => res matches Err(x) && x@ == e,
                Ok(dst) => res matches Ok(b) && {
                    &&& b.name@ == req.name@
                    &&& opt_view(b.description) == opt_view(req.description)
                    &&& b.enabled == req.enabled
                    &&& b.action@ == action_object(req.action)
                    &&& b.source@ == src
                    &&& b.destination@ == dst
                    &&& b.ip_protocol_scope@ == scope_object(
                        match req.ip_version {
                            Some(v) => v@,
                            None => "IPV4_AND_IPV6"@,
                        },
                    )
                    &&& b.logging_enabled == req.logging_enabled
                    &&& b.ipsec_filter is None
                    &&& b.schedule is None
                    &&& match (b.connection_state_filter, req.connection_states) {
                        (Some(x), Some(y)) => string_views(x@) == string_views(y@),
                        (None, None) => true,
                        _ => false,
                    }
                },
            },
        },
{
    let source = build_endpoint_json(req.source_zone_id.as_str(), req.source_filter.as_ref())?;
    let destination = build_endpoint_json(req.destination_zone_id.as_str(), req.destination_filter.as_ref())?;
    let scope = match &req.ip_version {
        Some(v) => scope_json(v.as_str()),
        None => scope_json("IPV4_AND_IPV6"),
    };
    let states = match &req.connection_states {
        Some(v) => Some(crate::text::copy_strings(v)),
        None => None,
    };
    Ok(
        FirewallPolicyCreateUpdate {
            name: req.name.clone(),
            description: match &req.description {
                Some(d) => Some(d.clone()),
                None => None,
            },
            enabled: req.enabled,
            action: action_json(req.action),
            source,
            destination,
            ip_protocol_scope: scope,
            logging_enabled: req.logging_enabled,
            ipsec_filter: None,
            schedule: None,
            connection_state_filter: states,
        },
    )
}

/// Zone text of a stored endpoint, empty without one.
pub open spec fn zone_text(zone: Option<String>) -> Seq<char> {
    match zone {
        Some(z) => z@,
        None => Seq::empty(),
    }
}

/// One endpoint of an update call: the stored endpoint (`stored`, its JSON)
/// unless a new filter is given, which then applies to the stored zone.
pub open spec fn updated_endpoint(
    zone: Option<String>,
    filter: Option<crate::requests::policy::TrafficFilterSpec>,
    stored: JView,
) -> Result<JView, ErrorView> {
    match filter {
        Some(f) => spec_endpoint(zone_text(zone), Some(f@)),
        None => Ok(stored),
    }
}

fn endpoint_update(zone: &Option<String>, filter: &Option<crate::requests::policy::TrafficFilterSpec>, stored: &JsonValue) -> (res: Result<JsonValue, CoreError>)
    ensures
        match updated_endpoint(*zone, *filter, stored@) {
            Ok(j) => res matches Ok(v) && v@ == j,
            Err(e) => res matches Err(x) && x@ == e,
        },
{
    match filter {
        Some(spec) => {
            let text: &str = match zone {
                Some(z) => z.as_str(),
                None => "",
            };
            proof {
                reveal_strlit("");
                assert(text@ =~= zone_text(*zone));
            }
            build_endpoint_json(text, Some(spec))
        },
        None => Ok(clone_value(stored)),
    }
}

/// The update call for a stored firewall policy: every setting the update
/// leaves unset keeps its stored value; a new source or destination filter
/// applies to the stored zone. `stored_source` and `stored_destination` are
/// the JSON of the stored endpoints. The connection states default to the
/// stored ones, the IPsec filter and schedule are the stored ones.
pub fn firewall_policy_update_body(
    existing: &FirewallPolicyResponse,
    stored_source: &JsonValue,
    stored_destination: &JsonValue,
    update: &UpdateFirewallPolicyRequest,
) -> (res: Result<FirewallPolicyCreateUpdate, CoreError>)
    ensures
        ({
            let src_zone = match existing.source {
                Some(s) => s.zone_id,
                None => None,
            };
            let dst_zone = match existing.destination {
                Some(d) => d.zone_id,
                None => None,
            };
            let extra = jview_members(existing.extra@);
            match updated_endpoint(src_zone, update.source_filter, stored_source@) {
                Err(e) => res matches Err(x) && x@ == e,
                Ok(src) => match updated_endpoint(dst_zone, update.destination_filter, stored_destination@) {
                    Err(e) => res matches Err(x) && x@ == e,
                    Ok(dst) => res matches Ok(b) && {
                        &&& b.name@ == match update.name {
                            Some(n) => n@,
                            None => existing.name@,
                        }
                        &&& opt_view(b.description) == match update.description {
                            Some(d) => Some(d@),
                            None => opt_view(existing.description),
                        }
                        &&& b.enabled == match update.enabled {
                            Some(e) => e,
                            None => existing.enabled,
                        }
                        &&& b.action@ == match update.action {
                            Some(a) => action_object(a),
                            None => existing.action@,
                        }
                        &&& b.source@ == src
                        &&& b.destination@ == dst
                        &&& b.ip_protocol_scope@ == match update.ip_version {
                            Some(v) => scope_object(v@),
                            None => match existing.ip_protocol_scope {
                                Some(s) => s@,
                                None => scope_object("IPV4_AND_IPV6"@),
                            },
                        }
                        &&& b.logging_enabled == match update.logging_enabled {
                            Some(l) => l,
                            None => existing.logging_enabled,
                        }
                        &&& opt_view(b.ipsec_filter) == jstr(mget(extra, "ipsecFilter"@))
                        &&& match b.schedule {
                            Some(s) => mget(extra, "schedule"@) == Some(s@),
                            None => mget(extra, "schedule"@) is None,
                        }
                        &&& match update.connection_states {
                            Some(c) => b.connection_state_filter matches Some(x) && string_views(x@) == string_views(c@),
                            None => match jarray(mget(extra, "connectionStateFilter"@)) {
                                Some(items) => b.connection_state_filter matches Some(x) && string_views(x@) == jstrings(items),
                                None => b.connection_state_filter is None,
                            },
                        }
                    },
                },
            }
        }),
{
    let src_zone = match &existing.source {
        Some(s) => &s.zone_id,
        None => &None,
    };
    let dst_zone = match &existing.destination {
        Some(d) => &d.zone_id,
        None => &None,
    };
    let source = endpoint_update(src_zone, &update.source_filter, stored_source)?;
    let destination = endpoint_update(dst_zone, &update.destination_filter, stored_destination)?;
    let action = match update.action {
        Some(a) => action_json(a),
        None => clone_value(&existing.action),
    };
    let scope = match &update.ip_version {
        Some(v) => scope_json(v.as_str()),
        None => match &existing.ip_protocol_scope {
            Some(s) => clone_value(s),
            None => scope_json("IPV4_AND_IPV6"),
        },
    };
    let states = match &update.connection_states {
        Some(c) => Some(crate::text::copy_strings(c)),
        None => match as_array(obj_lookup(&existing.extra, "connectionStateFilter")) {
            Some(items) => Some(collect_strings(items)),
            None => None,
        },
    };
    let ipsec_filter = match as_str(obj_lookup(&existing.extra, "ipsecFilter")) {
        Some(s) => Some(owned(s)),
        None => None,
    };
    let schedule = match obj_lookup(&existing.extra, "schedule") {
        Some(s) => Some(clone_value(s)),
        None => None,
    };
    Ok(
        FirewallPolicyCreateUpdate {
            name: match &update.name {
                Some(n) => n.clone(),
                None => existing.name.clone(),
            },
            description: match &update.description {
                Some(d) => Some(d.clone()),
                None => match &existing.description {
                    Some(d) => Some(d.clone()),
                    None => None,
                },
            },
            enabled: match update.enabled {
                Some(e) => e,
                None => existing.enabled,
            },
            action,
            source,
            destination,
            ip_protocol_scope: scope,
            logging_enabled: match update.logging_enabled {
                Some(l) => l,
                None => existing.logging_enabled,
            },
            ipsec_filter,
            schedule,
            connection_state_filter: states,
        },
    )
}

/// The error of an Integration API operation on a legacy id.
pub open spec fn legacy_id_error() -> ErrorView {
    ErrorView::Unsupported("Integration API operation on legacy ID"@, "UUID-based entity ID"@)
}

/// The reorder call for the policies of a zone pair: the zones' UUIDs and
/// the new order, all before the system-defined policies. A legacy id among
/// the zones (source first) or the policies is refused.
pub fn firewall_policy_ordering_request(
    source_zone: &EntityId,
    destination_zone: &EntityId,
    ordered_ids: &Vec<EntityId>,
) -> (res: Result<(String, String, FirewallPolicyOrdering), CoreError>)
    ensures
        if source_zone is Uuid && destination_zone is Uuid && all_uuids(ordered_ids@) {
            res matches Ok(r) && {
                &&& r.0@ == source_zone.text()
                &&& r.1@ == destination_zone.text()
                &&& string_views(r.2.before_system_defined@) == id_texts(ordered_ids@)
                &&& r.2.after_system_defined@.len() == 0
            }
        } else {
            res matches Err(e) && e@ == legacy_id_error()
        },
{
    let src = owned(require_uuid(source_zone)?);
    let dst = owned(require_uuid(destination_zone)?);
    let ids = require_uuids(ordered_ids)?;
    Ok((src, dst, FirewallPolicyOrdering { before_system_defined: ids, after_system_defined: Vec::new() }))
}

/// The reorder call for the ACL rules: their UUIDs in the new order; a
/// legacy id is refused.
pub fn acl_rule_ordering_body(ordered_ids: &Vec<EntityId>) -> (res: Result<AclRuleOrdering, CoreError>)
    ensures
        if all_uuids(ordered_ids@) {
            res matches Ok(b) && string_views(b.ordered_acl_rule_ids@) == id_texts(ordered_ids@)
        } else {
            res matches Err(e) && e@ == legacy_id_error()
        },
{
    let ids = require_uuids(ordered_ids)?;
    Ok(AclRuleOrdering { ordered_acl_rule_ids: ids })
}

/// The create call for a firewall zone: its name and its networks' UUIDs;
/// a legacy network id is refused.
pub fn firewall_zone_create_body(req: &CreateFirewallZoneRequest) -> (res: Result<FirewallZoneCreateUpdate, CoreError>)
    ensures
        if all_uuids(req.network_ids@) {
            res matches Ok(b) && b.name@ == req.name@ && string_views(b.network_ids@) == id_texts(req.network_ids@)
        } else {
            res matches Err(e) && e@ == legacy_id_error()
        },
{
    let ids = require_uuids(&req.network_ids)?;
    Ok(FirewallZoneCreateUpdate { name: req.name.clone(), network_ids: ids })
}

/// The update call for a stored firewall zone: the new name and networks
/// where given, else the stored ones; a legacy network id is refused.
pub fn firewall_zone_update_body(existing: &FirewallZoneResponse, update: &UpdateFirewallZoneRequest) -> (res: Result<
    FirewallZoneCreateUpdate,
    CoreError,
>)
    ensures
        match update.network_ids {
            Some(ids) if !all_uuids(ids@) => res matches Err(e) && e@ == legacy_id_error(),
            _ => res matches Ok(b) && {
                &&& b.name@ == match update.name {
                    Some(n) => n@,
                    None => existing.name@,
                }
                &&& string_views(b.network_ids@) == match update.network_ids {
                    Some(ids) => id_texts(ids@),
                    None => string_views(existing.network_ids@),
                }
            },
        },
{
    let network_ids = match &update.network_ids {
        Some(ids) => require_uuids(ids)?,
        None => crate::text::copy_strings(&existing.network_ids),
    };
    let name = match &update.name {
        Some(n) => n.clone(),
        None => existing.name.clone(),
    };
    Ok(FirewallZoneCreateUpdate { name, network_ids })
}

/// The action a policy create or update writes reads back as the same
/// action.
pub proof fn lemma_policy_action_read_back(a: FirewallAction)
    ensures
        spec_policy_action(action_object(a)) == a,
{
    reveal_strlit("type");
    reveal_strlit("ALLOW");
    reveal_strlit("DROP");
    reveal_strlit("REJECT");
    assert("ALLOW"@.len() == 5 && "DROP"@.len() == 4 && "REJECT"@.len() == 6);
    reveal_with_fuel(mget, 2);
}

} // verus!
