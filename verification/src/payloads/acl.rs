//! Source and destination filters of ACL rule calls.
use vstd::prelude::*;

use crate::convert::nat_policy::opt_jview;
use crate::integration::{AclRuleCreateUpdate, AclRuleResponse};
use crate::json::{clone_members, clone_value, jview_members, mget, obj_set, JView, JsonValue};
use crate::model::entity::EntityId;
use crate::model::firewall::FirewallAction;
use crate::requests::policy::{CreateAclRuleRequest, UpdateAclRuleRequest};
use crate::text::{opt_str_view, opt_view, owned};

verus! {

/// Member `k` of an ACL filter once the given zone, port and protocol are
/// set over `cur`.
pub open spec fn acl_member(
    cur: Option<JView>,
    k: Seq<char>,
    zone_id: Option<Seq<char>>,
    port: Option<Seq<char>>,
    protocol: Option<Seq<char>>,
) -> Option<JView> {
    if k == "protocol"@ && protocol is Some {
        Some(JView::Str(protocol->Some_0))
    } else if k == "port"@ && port is Some {
        Some(JView::Str(port->Some_0))
    } else if k == "zoneId"@ && zone_id is Some {
        Some(JView::Str(zone_id->Some_0))
    } else {
        cur
    }
}

fn set_filter_fields(filter: &mut Vec<(String, JsonValue)>, zone_id: Option<&EntityId>, port: Option<&str>, protocol: Option<&str>)
    ensures
        forall|k: Seq<char>| #[trigger] mget(jview_members(final(filter)@), k) == acl_member(
            mget(jview_members(old(filter)@), k),
            k,
            match zone_id {
                Some(z) => Some(z.text()),
                None => None,
            },
            opt_str_view(port),
            opt_str_view(protocol),
        ),
        final(filter)@.len() == 0 ==> old(filter)@.len() == 0 && zone_id is None && port is None && protocol is None,
        zone_id is None && port is None && protocol is None ==> final(filter)@ == old(filter)@,
{
    let ghost before = jview_members(filter@);
    proof {
        crate::json::lemma_jview_members(filter@);
    }
    if let Some(z) = zone_id {
        obj_set(filter, owned("zoneId"), JsonValue::Str(owned(z.as_str())));
    }
    if let Some(p) = port {
        obj_set(filter, owned("port"), JsonValue::Str(owned(p)));
    }
    if let Some(p) = protocol {
        obj_set(filter, owned("protocol"), JsonValue::Str(owned(p)));
    }
    proof {
        crate::json::lemma_jview_members(filter@);
        if filter@.len() == 0 {
            let after = jview_members(filter@);
            assert(after.len() == 0);
            assert(mget(after, "zoneId"@) is None);
            assert(mget(after, "port"@) is None);
            assert(mget(after, "protocol"@) is None);
            if before.len() > 0 {
                let k0 = before[0].0;
                assert(mget(before, k0) == Some(before[0].1));
                assert(mget(after, k0) is None);
            }
        }
    }
}

/// An ACL filter on a zone, with the port and protocol where given.
pub fn build_acl_filter_value(zone_id: &EntityId, port: Option<&str>, protocol: Option<&str>) -> (res: JsonValue)
    ensures
        res@ matches JView::Object(m) && forall|k: Seq<char>| #[trigger] mget(m, k) == acl_member(
            None,
            k,
            Some(zone_id.text()),
            opt_str_view(port),
            opt_str_view(protocol),
        ),
{
    let mut filter: Vec<(String, JsonValue)> = Vec::new();
    set_filter_fields(&mut filter, Some(zone_id), port, protocol);
    JsonValue::Object(filter)
}

/// An existing ACL filter (an object, else none) with the zone, port and
/// protocol set where given; `None` when the result has no members.
pub fn merge_acl_filter_value(
    existing: Option<JsonValue>,
    zone_id: Option<&EntityId>,
    port: Option<&str>,
    protocol: Option<&str>,
) -> (res: Option<JsonValue>)
    ensures
        ({
            let base = match existing {
                Some(JsonValue::Object(m)) => jview_members(m@),
                _ => Seq::empty(),
            };
            if base.len() == 0 && zone_id is None && port is None && protocol is None {
                res is None
            } else {
                res matches Some(v) && v@ matches JView::Object(m) && forall|k: Seq<char>| #[trigger] mget(m, k)
                    == acl_member(
                    mget(base, k),
                    k,
                    match zone_id {
                        Some(z) => Some(z.text()),
                        None => None,
                    },
                    opt_str_view(port),
                    opt_str_view(protocol),
                )
            }
        }),
{
    let mut filter: Vec<(String, JsonValue)> = match existing {
        Some(JsonValue::Object(m)) => m,
        _ => Vec::new(),
    };
    let ghost base = jview_members(filter@);
    proof {
        crate::json::lemma_jview_members(filter@);
    }
    set_filter_fields(&mut filter, zone_id, port, protocol);
    if filter.len() == 0 {
        None
    } else {
        Some(JsonValue::Object(filter))
    }
}

/// `v` is an ACL filter: the members of `base` with the given zone, port
/// and protocol set.
pub open spec fn is_acl_filter(
    v: JView,
    base: Seq<(Seq<char>, JView)>,
    zone_id: Option<Seq<char>>,
    port: Option<Seq<char>>,
    protocol: Option<Seq<char>>,
) -> bool {
    v matches JView::Object(m) && forall|k: Seq<char>| #[trigger] mget(m, k) == acl_member(
        mget(base, k),
        k,
        zone_id,
        port,
        protocol,
    )
}

/// `res` is the stored filter `existing` updated with the given zone, port
/// and protocol: none when nothing is stored or given.
pub open spec fn is_merged_acl_filter(
    res: Option<JView>,
    existing: Option<JView>,
    zone_id: Option<Seq<char>>,
    port: Option<Seq<char>>,
    protocol: Option<Seq<char>>,
) -> bool {
    let base = match existing {
        Some(JView::Object(m)) => m,
        _ => Seq::empty(),
    };
    if base.len() == 0 && zone_id is None && port is None && protocol is None {
        res is None
    } else {
        res matches Some(v) && is_acl_filter(v, base, zone_id, port, protocol)
    }
}

/// Wire name of an ACL rule action; blocking is `BLOCK`.
pub open spec fn acl_action_name(a: FirewallAction) -> Seq<char> {
    match a {
        FirewallAction::Allow => "ALLOW"@,
        FirewallAction::Block => "BLOCK"@,
        FirewallAction::Reject => "REJECT"@,
    }
}

fn action_name(a: FirewallAction) -> (res: String)
    ensures
        res@ == acl_action_name(a),
{
    match a {
        FirewallAction::Allow => owned("ALLOW"),
        FirewallAction::Block => owned("BLOCK"),
        FirewallAction::Reject => owned("REJECT"),
    }
}

fn opt_str(s: &Option<String>) -> (res: Option<&str>)
    ensures
        opt_str_view(res) == opt_view(*s),
{
    match s {
        Some(x) => Some(x.as_str()),
        None => None,
    }
}

fn clone_opt(v: &Option<JsonValue>) -> (res: Option<JsonValue>)
    ensures
        opt_jview(res) == opt_jview(*v),
{
    match v {
        Some(x) => Some(clone_value(x)),
        None => None,
    }
}

fn clone_text(s: &Option<String>) -> (res: Option<String>)
    ensures
        opt_view(res) == opt_view(*s),
{
    match s {
        Some(x) => Some(x.clone()),
        None => None,
    }
}

/// The create call for an ACL rule: its settings as given, and source and
/// destination filters of its zones, ports and protocol.
pub fn acl_rule_create_body(req: &CreateAclRuleRequest) -> (res: AclRuleCreateUpdate)
    ensures
        res.name@ == req.name@,
        res.rule_type@ == req.rule_type@,
        res.action@ == acl_action_name(req.action),
        res.enabled == req.enabled,
        opt_view(res.description) == opt_view(req.description),
        res.source_filter matches Some(f) && is_acl_filter(
            f@,
            Seq::empty(),
            Some(req.source_zone_id.text()),
            opt_view(req.source_port),
            opt_view(req.protocol),
        ),
        res.destination_filter matches Some(f) && is_acl_filter(
            f@,
            Seq::empty(),
            Some(req.destination_zone_id.text()),
            opt_view(req.destination_port),
            opt_view(req.protocol),
        ),
        opt_jview(res.enforcing_device_filter) == opt_jview(req.enforcing_device_filter),
{
    let protocol = opt_str(&req.protocol);
    let source = build_acl_filter_value(&req.source_zone_id, opt_str(&req.source_port), protocol);
    let destination = build_acl_filter_value(&req.destination_zone_id, opt_str(&req.destination_port), protocol);
    AclRuleCreateUpdate {
        name: req.name.clone(),
        rule_type: req.rule_type.clone(),
        action: action_name(req.action),
        enabled: req.enabled,
        description: clone_text(&req.description),
        source_filter: Some(source),
        destination_filter: Some(destination),
        enforcing_device_filter: clone_opt(&req.enforcing_device_filter),
    }
}

/// The update call for a stored ACL rule: each setting the update gives
/// replaces the stored one; the filters are the stored ones with the given
/// zones, ports and protocol set; the device filter stays the stored one.
pub fn acl_rule_update_body(existing: &AclRuleResponse, update: &UpdateAclRuleRequest) -> (res: AclRuleCreateUpdate)
    ensures
        res.name@ == match update.name {
            Some(n) => n@,
            None => existing.name@,
        },
        res.rule_type@ == match update.rule_type {
            Some(t) => t@,
            None => existing.rule_type@,
        },
        res.action@ == match update.action {
            Some(a) => acl_action_name(a),
            None => existing.action@,
        },
        res.enabled == match update.enabled {
            Some(e) => e,
            None => existing.enabled,
        },
        opt_view(res.description) == match update.description {
            Some(d) => Some(d@),
            None => opt_view(existing.description),
        },
        is_merged_acl_filter(
            opt_jview(res.source_filter),
            opt_jview(existing.source_filter),
            match update.source_zone_id {
                Some(z) => Some(z.text()),
                None => None,
            },
            opt_view(update.source_port),
            opt_view(update.protocol),
        ),
        is_merged_acl_filter(
            opt_jview(res.destination_filter),
            opt_jview(existing.destination_filter),
            match update.destination_zone_id {
                Some(z) => Some(z.text()),
                None => None,
            },
            opt_view(update.destination_port),
            opt_view(update.protocol),
        ),
        opt_jview(res.enforcing_device_filter) == opt_jview(existing.enforcing_device_filter),
{
    let protocol = opt_str(&update.protocol);
    let source = merge_acl_filter_value(
        clone_opt(&existing.source_filter),
        update.source_zone_id.as_ref(),
        opt_str(&update.source_port),
        protocol,
    );
    let destination = merge_acl_filter_value(
        clone_opt(&existing.destination_filter),
        update.destination_zone_id.as_ref(),
        opt_str(&update.destination_port),
        protocol,
    );
    AclRuleCreateUpdate {
        name: match &update.name {
            Some(n) => n.clone(),
            None => existing.name.clone(),
        },
        rule_type: match &update.rule_type {
            Some(t) => t.clone(),
            None => existing.rule_type.clone(),
        },
        action: match update.action {
            Some(a) => action_name(a),
            None => existing.action.clone(),
        },
        enabled: match update.enabled {
            Some(e) => e,
            None => existing.enabled,
        },
        description: match &update.description {
            Some(d) => Some(d.clone()),
            None => clone_text(&existing.description),
        },
        source_filter: source,
        destination_filter: destination,
        enforcing_device_filter: clone_opt(&existing.enforcing_device_filter),
    }
}


/// Each ACL action has its own wire name: `ALLOW`, `BLOCK`, `REJECT`.
pub proof fn lemma_acl_action_names(a: FirewallAction)
    ensures
        acl_action_name(a) == "ALLOW"@ <==> a == FirewallAction::Allow,
        acl_action_name(a) == "BLOCK"@ <==> a == FirewallAction::Block,
        acl_action_name(a) == "REJECT"@ <==> a == FirewallAction::Reject,
{
    reveal_strlit("ALLOW");
    reveal_strlit("BLOCK");
    reveal_strlit("REJECT");
    assert("ALLOW"@.len() == 5 && "BLOCK"@.len() == 5 && "REJECT"@.len() == 6);
    assert("ALLOW"@[0] != "BLOCK"@[0]);
}

} // verus!
