use unifly_api::convert::firewall::firewall_policy_from_response;
use unifly_api::error::CoreError;
use unifly_api::integration::{FirewallPolicyDestination, FirewallPolicyResponse, FirewallPolicySource};
use unifly_api::json::JsonValue;
use unifly_api::model::entity::EntityId;
use unifly_api::model::firewall::FirewallAction;
use unifly_api::payloads::firewall::{firewall_policy_create_body, firewall_policy_update_body};
use unifly_api::requests::policy::{
    CreateFirewallPolicyRequest, PortSpec, TrafficFilterSpec, UpdateFirewallPolicyRequest,
};

const SRC: &str = "d2864b8e-56fb-4945-b69f-6d424fa5b248";
const DST: &str = "5888bc93-aaae-4242-ae2f-2050d76211fd";

fn s(x: &str) -> JsonValue {
    JsonValue::Str(x.to_string())
}

fn obj(pairs: Vec<(&str, JsonValue)>) -> JsonValue {
    JsonValue::Object(pairs.into_iter().map(|(k, v)| (k.to_string(), v)).collect())
}

fn create_request() -> CreateFirewallPolicyRequest {
    CreateFirewallPolicyRequest {
        name: "Block IoT".into(),
        action: FirewallAction::Block,
        source_zone_id: EntityId::from_text(SRC.into()),
        destination_zone_id: EntityId::from_text(DST.into()),
        enabled: true,
        logging_enabled: true,
        allow_return_traffic: true,
        description: Some("iot".into()),
        ip_version: None,
        connection_states: Some(vec!["NEW".into()]),
        source_filter: None,
        destination_filter: None,
        src_network: None,
        src_ip: None,
        src_port: None,
        dst_network: None,
        dst_ip: None,
        dst_port: None,
    }
}

fn empty_update() -> UpdateFirewallPolicyRequest {
    UpdateFirewallPolicyRequest {
        name: None,
        action: None,
        allow_return_traffic: None,
        enabled: None,
        description: None,
        ip_version: None,
        connection_states: None,
        source_filter: None,
        destination_filter: None,
        logging_enabled: None,
        src_network: None,
        src_ip: None,
        src_port: None,
        dst_network: None,
        dst_ip: None,
        dst_port: None,
    }
}

fn stored_policy() -> FirewallPolicyResponse {
    FirewallPolicyResponse {
        id: "policy-1".into(),
        name: "Stored".into(),
        description: Some("old".into()),
        enabled: false,
        action: obj(vec![("type", s("ALLOW"))]),
        ip_protocol_scope: Some(obj(vec![("ipVersion", s("IPV4"))])),
        logging_enabled: false,
        metadata: None,
        source: Some(FirewallPolicySource { zone_id: Some(SRC.into()), traffic_filter: None }),
        destination: Some(FirewallPolicyDestination { zone_id: Some(DST.into()), traffic_filter: None }),
        extra: vec![
            ("ipsecFilter".to_string(), s("MATCH_ENCRYPTED")),
            ("schedule".to_string(), obj(vec![("mode", s("ALWAYS"))])),
            (
                "connectionStateFilter".to_string(),
                JsonValue::Array(vec![s("ESTABLISHED"), JsonValue::UInt(3), s("RELATED")]),
            ),
        ],
    }
}

#[test]
fn create_body_maps_block_to_drop_and_defaults_ip_version() {
    let body = firewall_policy_create_body(&create_request()).expect("body");
    assert_eq!(body.name, "Block IoT");
    assert_eq!(body.description.as_deref(), Some("iot"));
    assert!(body.enabled);
    assert!(body.logging_enabled);
    assert_eq!(body.action, obj(vec![("type", s("DROP"))]));
    assert_eq!(body.ip_protocol_scope, obj(vec![("ipVersion", s("IPV4_AND_IPV6"))]));
    assert_eq!(body.source, obj(vec![("zoneId", s(SRC))]));
    assert_eq!(body.destination, obj(vec![("zoneId", s(DST))]));
    assert_eq!(body.ipsec_filter, None);
    assert_eq!(body.schedule, None);
    assert_eq!(body.connection_state_filter, Some(vec!["NEW".to_string()]));
}

#[test]
fn create_body_keeps_named_ip_version() {
    let mut req = create_request();
    req.action = FirewallAction::Reject;
    req.ip_version = Some("IPV6".into());
    let body = firewall_policy_create_body(&req).expect("body");
    assert_eq!(body.action, obj(vec![("type", s("REJECT"))]));
    assert_eq!(body.ip_protocol_scope, obj(vec![("ipVersion", s("IPV6"))]));
}

#[test]
fn create_body_reports_a_bad_port() {
    let mut req = create_request();
    req.source_filter = Some(TrafficFilterSpec::Port {
        ports: PortSpec::Values { items: vec!["http".into()], match_opposite: false },
    });
    assert!(matches!(firewall_policy_create_body(&req), Err(CoreError::ValidationFailed { .. })));
}

#[test]
fn update_body_keeps_stored_settings() {
    let existing = stored_policy();
    let stored_src = obj(vec![("zoneId", s(SRC)), ("note", s("kept"))]);
    let stored_dst = obj(vec![("zoneId", s(DST))]);
    let body = firewall_policy_update_body(&existing, &stored_src, &stored_dst, &empty_update()).expect("body");
    assert_eq!(body.name, "Stored");
    assert_eq!(body.description.as_deref(), Some("old"));
    assert!(!body.enabled);
    assert_eq!(body.action, obj(vec![("type", s("ALLOW"))]));
    assert_eq!(body.ip_protocol_scope, obj(vec![("ipVersion", s("IPV4"))]));
    assert_eq!(body.source, obj(vec![("zoneId", s(SRC)), ("note", s("kept"))]));
    assert_eq!(body.destination, obj(vec![("zoneId", s(DST))]));
    assert_eq!(body.ipsec_filter.as_deref(), Some("MATCH_ENCRYPTED"));
    assert_eq!(body.schedule, Some(obj(vec![("mode", s("ALWAYS"))])));
    assert_eq!(body.connection_state_filter, Some(vec!["ESTABLISHED".to_string(), "RELATED".to_string()]));
}

#[test]
fn update_body_applies_new_settings_and_filter_to_stored_zone() {
    let existing = stored_policy();
    let stored_src = obj(vec![("zoneId", s(SRC))]);
    let stored_dst = obj(vec![("zoneId", s(DST))]);
    let mut update = empty_update();
    update.name = Some("Renamed".into());
    update.action = Some(FirewallAction::Block);
    update.enabled = Some(true);
    update.ip_version = Some("IPV6".into());
    update.connection_states = Some(vec!["NEW".into()]);
    update.destination_filter = Some(TrafficFilterSpec::Port {
        ports: PortSpec::Values { items: vec!["443".into()], match_opposite: false },
    });
    let body = firewall_policy_update_body(&existing, &stored_src, &stored_dst, &update).expect("body");
    assert_eq!(body.name, "Renamed");
    assert!(body.enabled);
    assert_eq!(body.action, obj(vec![("type", s("DROP"))]));
    assert_eq!(body.ip_protocol_scope, obj(vec![("ipVersion", s("IPV6"))]));
    assert_eq!(body.connection_state_filter, Some(vec!["NEW".to_string()]));
    assert_eq!(body.source, obj(vec![("zoneId", s(SRC))]));
    let JsonValue::Object(members) = &body.destination else { panic!("object") };
    assert_eq!(members[0], ("zoneId".to_string(), s(DST)));
    assert_eq!(members[1].0, "trafficFilter");
}

#[test]
fn update_body_without_stored_zone_uses_empty_zone() {
    let mut existing = stored_policy();
    existing.source = None;
    existing.extra = Vec::new();
    existing.ip_protocol_scope = None;
    let stored = obj(vec![]);
    let mut update = empty_update();
    update.source_filter = Some(TrafficFilterSpec::Port {
        ports: PortSpec::Values { items: vec!["22".into()], match_opposite: false },
    });
    let body = firewall_policy_update_body(&existing, &stored, &obj(vec![]), &update).expect("body");
    let JsonValue::Object(members) = &body.source else { panic!("object") };
    assert_eq!(members[0], ("zoneId".to_string(), s("")));
    assert_eq!(body.ip_protocol_scope, obj(vec![("ipVersion", s("IPV4_AND_IPV6"))]));
    assert_eq!(body.ipsec_filter, None);
    assert_eq!(body.schedule, None);
    assert_eq!(body.connection_state_filter, None);
}

#[test]
fn written_policy_action_reads_back() {
    for action in [FirewallAction::Allow, FirewallAction::Block, FirewallAction::Reject] {
        let mut req = create_request();
        req.action = action;
        let body = firewall_policy_create_body(&req).expect("body");
        let mut stored = stored_policy();
        stored.action = body.action;
        assert_eq!(firewall_policy_from_response(stored).action, action);
    }
}
