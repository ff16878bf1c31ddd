use unifly_api::error::CoreError;
use unifly_api::json::JsonValue;
use unifly_api::model::dns::DnsPolicyType;
use unifly_api::model::entity::EntityId;
use unifly_api::model::firewall::FirewallAction;
use unifly_api::model::network::WifiSecurityMode;
use unifly_api::net::parse_ipv4_cidr;
use unifly_api::payloads::dns::build_create_dns_policy_fields;
use unifly_api::payloads::traffic::{build_endpoint_json, build_port_filter_json, traffic_matching_list_items};
use unifly_api::payloads::wifi::build_create_wifi_broadcast_payload;
use unifly_api::requests::dns::CreateDnsPolicyRequest;
use unifly_api::requests::network::CreateWifiBroadcastSettings;
use unifly_api::requests::policy::{
    CreateFirewallPolicyRequest, PortSpec, TrafficFilterSpec, TrafficFilterSpecWire,
};

fn s(x: &str) -> JsonValue {
    JsonValue::Str(x.to_string())
}

fn obj(pairs: Vec<(&str, JsonValue)>) -> JsonValue {
    JsonValue::Object(pairs.into_iter().map(|(k, v)| (k.to_string(), v)).collect())
}

fn member<'a>(m: &'a [(String, JsonValue)], key: &str) -> Option<&'a JsonValue> {
    m.iter().find(|(k, _)| k == key).map(|(_, v)| v)
}

fn field<'a>(v: &'a JsonValue, key: &str) -> Option<&'a JsonValue> {
    match v {
        JsonValue::Object(m) => member(m, key),
        _ => None,
    }
}

fn items_len(v: Option<&JsonValue>) -> Option<usize> {
    match v {
        Some(JsonValue::Array(items)) => Some(items.len()),
        _ => None,
    }
}

#[test]
fn dns_create_fields_use_type_specific_schema_keys() {
    let fields = build_create_dns_policy_fields(&CreateDnsPolicyRequest {
        name: "example.com".into(),
        policy_type: DnsPolicyType::ARecord,
        enabled: true,
        domain: Some("example.com".into()),
        domains: None,
        upstream: None,
        value: Some("192.168.1.10".into()),
        ttl_seconds: Some(600),
        priority: None,
        ipv4_address: None,
        ipv6_address: None,
        target_domain: None,
        mail_server_domain: None,
        text: None,
        ip_address: None,
        server_domain: None,
        service: None,
        protocol: None,
        port: None,
        weight: None,
    })
    .expect("valid DNS fields");
    assert_eq!(member(&fields, "domain"), Some(&s("example.com")));
    assert_eq!(member(&fields, "ipv4Address"), Some(&s("192.168.1.10")));
    assert_eq!(member(&fields, "ttlSeconds"), Some(&JsonValue::UInt(600)));
    assert!(member(&fields, "value").is_none());
    assert!(member(&fields, "ttl").is_none());
}

#[test]
fn parse_ipv4_cidr_accepts_valid_input() {
    let (host, prefix) = parse_ipv4_cidr("192.168.10.1/24").expect("valid CIDR");
    assert_eq!(host.to_text(), "192.168.10.1");
    assert_eq!(prefix, 24);
}

#[test]
fn parse_ipv4_cidr_rejects_invalid_prefix() {
    assert!(parse_ipv4_cidr("192.168.10.1/40").is_err());
}

#[test]
fn parse_ipv4_cidr_rejects_missing_prefix() {
    assert!(parse_ipv4_cidr("192.168.10.1").is_err());
}

#[test]
fn traffic_matching_list_items_prefer_raw_payloads() {
    let raw_items = [obj(vec![("type", s("PORT_NUMBER")), ("value", JsonValue::UInt(443))])];
    let items = traffic_matching_list_items(&["80".into()], Some(&raw_items));
    assert_eq!(items, vec![obj(vec![("type", s("PORT_NUMBER")), ("value", JsonValue::UInt(443))])]);
}

#[test]
fn build_endpoint_json_ip_with_port_nests_port_filter() {
    let spec = TrafficFilterSpec::IpAddress {
        addresses: vec!["10.0.40.10".into()],
        match_opposite: false,
        ports: Some(PortSpec::Values { items: vec!["80".into()], match_opposite: false }),
    };
    let result = build_endpoint_json("zone-uuid", Some(&spec)).expect("build endpoint json");
    let tf = field(&result, "trafficFilter").expect("trafficFilter present");
    assert_eq!(field(tf, "type"), Some(&s("IP_ADDRESS")));
    let ip_filter = field(tf, "ipAddressFilter").expect("ipAddressFilter present");
    assert_eq!(items_len(field(ip_filter, "items")), Some(1));
    let port_filter = field(tf, "portFilter").expect("portFilter present");
    assert_eq!(items_len(field(port_filter, "items")), Some(1));
    let Some(JsonValue::Array(port_items)) = field(port_filter, "items") else { panic!("items") };
    assert_eq!(field(&port_items[0], "type"), Some(&s("PORT_NUMBER")));
    assert_eq!(field(&port_items[0], "value"), Some(&JsonValue::UInt(80)));
}

#[test]
fn build_endpoint_json_ip_without_port_omits_port_filter() {
    let spec = TrafficFilterSpec::IpAddress { addresses: vec!["10.0.0.1".into()], match_opposite: false, ports: None };
    let result = build_endpoint_json("zone-uuid", Some(&spec)).expect("build endpoint json");
    let tf = field(&result, "trafficFilter").expect("trafficFilter present");
    assert!(field(tf, "portFilter").is_none());
}

#[test]
fn build_port_filter_json_rejects_invalid_port_number() {
    let spec = PortSpec::Values { items: vec!["abc".into()], match_opposite: false };
    let err = build_port_filter_json(&spec).expect_err("invalid port should error");
    assert!(matches!(err, CoreError::ValidationFailed { .. }), "expected ValidationFailed, got {err:?}");
}

#[test]
fn build_port_filter_json_rejects_invalid_port_range() {
    let spec = PortSpec::Values { items: vec!["80-abc".into()], match_opposite: false };
    let err = build_port_filter_json(&spec).expect_err("invalid range end should error");
    assert!(matches!(err, CoreError::ValidationFailed { .. }));
}

#[test]
fn full_roundtrip_ip_address_with_port_matching_list() {
    let mut req = CreateFirewallPolicyRequest {
        name: "Apple Companion Link".into(),
        action: FirewallAction::Allow,
        source_zone_id: EntityId::from_text("d2864b8e-56fb-4945-b69f-6d424fa5b248".into()),
        destination_zone_id: EntityId::from_text("5888bc93-aaae-4242-ae2f-2050d76211fd".into()),
        enabled: true,
        logging_enabled: false,
        allow_return_traffic: true,
        description: None,
        ip_version: None,
        connection_states: None,
        source_filter: None,
        destination_filter: Some(TrafficFilterSpec::from_wire(TrafficFilterSpecWire::IpAddress {
            addresses: vec!["10.0.10.2".into()],
            match_opposite: false,
            ports: Some(PortSpec::MatchingList { list_id: "companion-link-ports-uuid".into(), match_opposite: false }),
        })),
        src_network: None,
        src_ip: None,
        src_port: None,
        dst_network: None,
        dst_ip: None,
        dst_port: None,
    };
    req.resolve_filters().expect("resolve");
    let wire = build_endpoint_json("5888bc93-aaae-4242-ae2f-2050d76211fd", req.destination_filter.as_ref())
        .expect("build endpoint json");
    let tf = field(&wire, "trafficFilter").expect("trafficFilter");
    assert_eq!(field(tf, "type"), Some(&s("IP_ADDRESS")));
    let pf = field(tf, "portFilter").expect("portFilter");
    assert_eq!(field(pf, "type"), Some(&s("TRAFFIC_MATCHING_LIST")));
    assert_eq!(field(pf, "trafficMatchingListId"), Some(&s("companion-link-ports-uuid")));
}

#[test]
fn build_endpoint_json_ip_with_port_matching_list_emits_traffic_matching_list() {
    let spec = TrafficFilterSpec::IpAddress {
        addresses: vec!["10.0.0.5".into()],
        match_opposite: false,
        ports: Some(PortSpec::MatchingList {
            list_id: "24740a56-9cb9-4890-a5ac-589d30914a55".into(),
            match_opposite: false,
        }),
    };
    let result = build_endpoint_json("zone-uuid", Some(&spec)).expect("build endpoint json");
    let tf = field(&result, "trafficFilter").expect("trafficFilter");
    let port_filter = field(tf, "portFilter").expect("portFilter present");
    assert_eq!(field(port_filter, "type"), Some(&s("TRAFFIC_MATCHING_LIST")));
    assert_eq!(field(port_filter, "trafficMatchingListId"), Some(&s("24740a56-9cb9-4890-a5ac-589d30914a55")));
}

#[test]
fn wifi_create_payload_uses_integration_field_names() {
    let payload = build_create_wifi_broadcast_payload(&CreateWifiBroadcastSettings {
        name: "Main".into(),
        ssid: "Main".into(),
        security_mode: WifiSecurityMode::Wpa2Personal,
        passphrase: Some("supersecret".into()),
        enabled: true,
        network_id: None,
        hide_ssid: true,
        broadcast_type: Some("STANDARD".into()),
        frequencies_ghz: Some(vec!["2.4".into(), "5.0".into()]),
        band_steering: true,
        fast_roaming: Some(true),
    });
    assert_eq!(payload.name, "Main");
    assert!(member(&payload.body, "ssid").is_none());
    assert_eq!(member(&payload.body, "hideName"), Some(&JsonValue::Bool(true)));
    let Some(JsonValue::Array(frequencies)) = member(&payload.body, "broadcastingFrequenciesGHz") else {
        panic!("frequencies array")
    };
    assert_eq!(frequencies.len(), 2);
    assert_eq!(frequencies[1], JsonValue::Decimal("5.0".into()));
    assert_eq!(member(&payload.body, "bandSteeringEnabled"), Some(&JsonValue::Bool(true)));
    assert_eq!(member(&payload.body, "bssTransitionEnabled"), Some(&JsonValue::Bool(true)));
}
