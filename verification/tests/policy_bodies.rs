use unifly_api::convert::dns::dns_policy_from_response;
use unifly_api::convert::nat_policy::nat_policy_from_v2;
use unifly_api::convert::vpn::{existing_subnets, openvpn_port_suggestions};
use unifly_api::error::CoreError;
use unifly_api::integration::{AclRuleResponse, DnsPolicyResponse, FirewallZoneResponse};
use unifly_api::json::JsonValue;
use unifly_api::model::dns::DnsPolicyType;
use unifly_api::model::entity::EntityId;
use unifly_api::model::firewall::{FirewallAction, FirewallGroupType, NatType};
use unifly_api::payloads::acl::{acl_rule_create_body, acl_rule_update_body};
use unifly_api::payloads::dns::{build_create_dns_policy_fields, build_update_dns_policy_fields};
use unifly_api::payloads::firewall::{
    acl_rule_ordering_body, firewall_policy_ordering_request, firewall_zone_create_body, firewall_zone_update_body,
};
use unifly_api::payloads::groups::{firewall_group_create_body, firewall_group_update_body};
use unifly_api::payloads::nat_rules::create_nat_rule_body;
use unifly_api::requests::dns::{CreateDnsPolicyRequest, UpdateDnsPolicyRequest};
use unifly_api::requests::policy::{
    CreateAclRuleRequest, CreateNatPolicyRequest, CreateFirewallZoneRequest, UpdateAclRuleRequest, UpdateFirewallZoneRequest,
};
use unifly_api::stats::{
    has_flow_app_data, report_body, report_path, site_dpi_body, site_dpi_usable, station_dpi_body, ReportKind,
};

const A: &str = "550e8400-e29b-41d4-a716-446655440000";
const B: &str = "550e8400-e29b-41d4-a716-446655440001";

fn s(x: &str) -> JsonValue {
    JsonValue::Str(x.to_string())
}

fn obj(pairs: Vec<(&str, JsonValue)>) -> JsonValue {
    JsonValue::Object(pairs.into_iter().map(|(k, v)| (k.to_string(), v)).collect())
}

fn strs(items: &[&str]) -> JsonValue {
    JsonValue::Array(items.iter().map(|x| s(x)).collect())
}

fn field<'a>(v: &'a JsonValue, key: &str) -> Option<&'a JsonValue> {
    match v {
        JsonValue::Object(m) => m.iter().find(|(k, _)| k == key).map(|(_, v)| v),
        _ => None,
    }
}

fn uuid(x: &str) -> EntityId {
    EntityId::Uuid(x.to_string())
}

fn legacy_error() -> CoreError {
    CoreError::Unsupported {
        operation: "Integration API operation on legacy ID".to_string(),
        required: "UUID-based entity ID".to_string(),
    }
}

#[test]
fn report_paths_and_bodies() {
    assert_eq!(report_path("hourly", ReportKind::Site), "stat/report/hourly.site");
    assert_eq!(report_path("daily", ReportKind::Client), "stat/report/daily.user");
    assert_eq!(report_path("5minutes", ReportKind::Gateway), "stat/report/5minutes.gw");
    assert_eq!(
        report_body(ReportKind::Site, None, Some(100), Some(-5), None),
        obj(vec![
            ("attrs", strs(&["bytes", "num_sta", "time", "wlan-num_sta", "lan-num_sta"])),
            ("start", JsonValue::UInt(100)),
            ("end", JsonValue::NegInt(-5)),
        ])
    );
    let custom = vec!["rx_bytes".to_string()];
    let macs = vec!["aa:bb".to_string()];
    assert_eq!(
        report_body(ReportKind::Device, Some(&custom), None, None, Some(&macs)),
        obj(vec![("attrs", strs(&["rx_bytes"])), ("macs", strs(&["aa:bb"]))])
    );
    assert_eq!(
        report_body(ReportKind::Gateway, None, None, None, None),
        obj(vec![(
            "attrs",
            strs(&["bytes", "time", "wan-tx_bytes", "wan-rx_bytes", "lan-rx_bytes", "lan-tx_bytes"])
        )])
    );
}

#[test]
fn dpi_bodies_and_fallback_decisions() {
    let macs = vec!["aa:bb".to_string()];
    assert_eq!(station_dpi_body("by_app", &macs), obj(vec![("type", s("by_app")), ("macs", strs(&["aa:bb"]))]));
    assert_eq!(site_dpi_body("by_cat"), obj(vec![("type", s("by_cat"))]));
    assert!(has_flow_app_data(&obj(vec![("top_all_traffic_by_application", strs(&["x"]))])));
    assert!(!has_flow_app_data(&obj(vec![("top_all_traffic_by_application", strs(&[]))])));
    assert!(!has_flow_app_data(&obj(vec![])));
    let records = vec![obj(vec![("site", s("x"))]), obj(vec![("by_app", strs(&[]))])];
    assert!(site_dpi_usable(&records, "by_app"));
    assert!(!site_dpi_usable(&records, "by_cat"));
    assert!(!site_dpi_usable(&Vec::new(), "by_app"));
}

#[test]
fn wireguard_subnets_and_openvpn_ports() {
    let raw = obj(vec![("subnets", JsonValue::Array(vec![s("10.0.0.0/24"), JsonValue::UInt(3), s("10.1.0.0/24")]))]);
    assert_eq!(existing_subnets(&raw), vec!["10.0.0.0/24".to_string(), "10.1.0.0/24".to_string()]);
    assert!(existing_subnets(&obj(vec![])).is_empty());
    let ports = obj(vec![(
        "available_ports",
        JsonValue::Array(vec![JsonValue::UInt(1194), JsonValue::UInt(70000), s("443"), JsonValue::UInt(65535)]),
    )]);
    assert_eq!(openvpn_port_suggestions(&ports), vec![1194, 65535]);
    assert!(openvpn_port_suggestions(&s("x")).is_empty());
}

#[test]
fn ordering_bodies_need_uuids() {
    let (src, dst, body) = firewall_policy_ordering_request(&uuid(A), &uuid(B), &vec![uuid(B), uuid(A)]).unwrap();
    assert_eq!(src, A);
    assert_eq!(dst, B);
    assert_eq!(body.before_system_defined, vec![B.to_string(), A.to_string()]);
    assert!(body.after_system_defined.is_empty());
    assert_eq!(
        firewall_policy_ordering_request(&EntityId::Legacy("z".into()), &uuid(B), &vec![]),
        Err(legacy_error())
    );
    assert_eq!(
        firewall_policy_ordering_request(&uuid(A), &uuid(B), &vec![uuid(A), EntityId::Legacy("p".into())]),
        Err(legacy_error())
    );
    assert_eq!(acl_rule_ordering_body(&vec![uuid(A)]).unwrap().ordered_acl_rule_ids, vec![A.to_string()]);
    assert_eq!(acl_rule_ordering_body(&vec![EntityId::Legacy("r".into())]), Err(legacy_error()));
}

#[test]
fn firewall_zone_bodies() {
    let req = CreateFirewallZoneRequest { name: "IoT".into(), description: None, network_ids: vec![uuid(A)] };
    let body = firewall_zone_create_body(&req).unwrap();
    assert_eq!(body.name, "IoT");
    assert_eq!(body.network_ids, vec![A.to_string()]);
    let bad = CreateFirewallZoneRequest { name: "IoT".into(), description: None, network_ids: vec![EntityId::Legacy("n".into())] };
    assert_eq!(firewall_zone_create_body(&bad), Err(legacy_error()));
    let existing = FirewallZoneResponse {
        id: B.into(),
        name: "Stored".into(),
        network_ids: vec![A.to_string()],
        metadata: JsonValue::Null,
    };
    let kept = firewall_zone_update_body(&existing, &UpdateFirewallZoneRequest::default()).unwrap();
    assert_eq!(kept.name, "Stored");
    assert_eq!(kept.network_ids, vec![A.to_string()]);
    let update = UpdateFirewallZoneRequest { name: Some("New".into()), description: None, network_ids: Some(vec![uuid(B)]) };
    let changed = firewall_zone_update_body(&existing, &update).unwrap();
    assert_eq!(changed.name, "New");
    assert_eq!(changed.network_ids, vec![B.to_string()]);
}

#[test]
fn acl_rule_bodies() {
    let req = CreateAclRuleRequest {
        name: "Block cams".into(),
        rule_type: "IP".into(),
        action: FirewallAction::Block,
        source_zone_id: uuid(A),
        destination_zone_id: uuid(B),
        description: None,
        protocol: Some("TCP".into()),
        source_port: None,
        destination_port: Some("443".into()),
        source_filter: None,
        destination_filter: None,
        enforcing_device_filter: None,
        enabled: true,
    };
    let body = acl_rule_create_body(&req);
    assert_eq!(body.action, "BLOCK");
    assert_eq!(body.rule_type, "IP");
    let src = body.source_filter.as_ref().unwrap();
    assert_eq!(field(src, "zoneId"), Some(&s(A)));
    assert_eq!(field(src, "protocol"), Some(&s("TCP")));
    assert_eq!(field(src, "port"), None);
    let dst = body.destination_filter.as_ref().unwrap();
    assert_eq!(field(dst, "port"), Some(&s("443")));

    let existing = AclRuleResponse {
        id: A.into(),
        name: "Stored".into(),
        rule_type: "IP".into(),
        action: "ALLOW".into(),
        enabled: false,
        index: 3,
        description: Some("old".into()),
        source_filter: Some(obj(vec![("zoneId", s(A)), ("port", s("22"))])),
        destination_filter: None,
        enforcing_device_filter: Some(obj(vec![("type", s("ALL"))])),
        metadata: JsonValue::Null,
    };
    let kept = acl_rule_update_body(&existing, &UpdateAclRuleRequest::default());
    assert_eq!(kept.name, "Stored");
    assert_eq!(kept.action, "ALLOW");
    assert!(!kept.enabled);
    assert_eq!(kept.description.as_deref(), Some("old"));
    assert_eq!(kept.source_filter, Some(obj(vec![("zoneId", s(A)), ("port", s("22"))])));
    assert_eq!(kept.destination_filter, None);
    assert_eq!(kept.enforcing_device_filter, Some(obj(vec![("type", s("ALL"))])));

    let update = UpdateAclRuleRequest {
        action: Some(FirewallAction::Reject),
        source_port: Some("23".into()),
        destination_zone_id: Some(uuid(B)),
        ..UpdateAclRuleRequest::default()
    };
    let changed = acl_rule_update_body(&existing, &update);
    assert_eq!(changed.action, "REJECT");
    let src = changed.source_filter.as_ref().unwrap();
    assert_eq!(field(src, "zoneId"), Some(&s(A)));
    assert_eq!(field(src, "port"), Some(&s("23")));
    let dst = changed.destination_filter.as_ref().unwrap();
    assert_eq!(field(dst, "zoneId"), Some(&s(B)));
}

#[test]
fn firewall_group_bodies() {
    let members = vec!["80".to_string(), "443".to_string()];
    assert_eq!(
        firewall_group_create_body("web", FirewallGroupType::PortGroup, &members),
        obj(vec![("name", s("web")), ("group_type", s("port-group")), ("group_members", strs(&["80", "443"]))])
    );
    let groups = vec![
        obj(vec![("_id", s("g1")), ("name", s("one")), ("group_members", strs(&["1"]))]),
        obj(vec![("_id", s("g2")), ("name", s("two")), ("group_members", strs(&["2"])), ("site_id", s("s"))]),
    ];
    let renamed = firewall_group_update_body(&groups, "g2", Some("deux"), None).unwrap();
    assert_eq!(field(&renamed, "name"), Some(&s("deux")));
    assert_eq!(field(&renamed, "group_members"), Some(&strs(&["2"])));
    assert_eq!(field(&renamed, "site_id"), Some(&s("s")));
    let refilled = firewall_group_update_body(&groups, "g1", None, Some(&members)).unwrap();
    assert_eq!(field(&refilled, "name"), Some(&s("one")));
    assert_eq!(field(&refilled, "group_members"), Some(&strs(&["80", "443"])));
    assert_eq!(
        firewall_group_update_body(&groups, "g9", None, None),
        Err(CoreError::NotFound { entity_type: "firewall group".into(), identifier: "g9".into() })
    );
}

fn dns_request(policy_type: DnsPolicyType) -> CreateDnsPolicyRequest {
    CreateDnsPolicyRequest {
        name: "printer.home".into(),
        policy_type,
        enabled: true,
        domain: None,
        domains: None,
        upstream: None,
        value: Some("192.168.1.20".into()),
        ttl_seconds: Some(120),
        priority: Some(10),
        ipv4_address: None,
        ipv6_address: None,
        target_domain: None,
        mail_server_domain: None,
        text: None,
        ip_address: None,
        server_domain: None,
        service: None,
        protocol: None,
        port: None,
        weight: None,
    }
}

#[test]
fn dns_create_fields_read_back_as_the_policy() {
    for (t, name, ttl) in [
        (DnsPolicyType::ARecord, "A", Some(120)),
        (DnsPolicyType::CnameRecord, "CNAME", Some(120)),
        (DnsPolicyType::MxRecord, "MX", None),
        (DnsPolicyType::ForwardDomain, "FORWARD_DOMAIN", None),
    ] {
        let fields = build_create_dns_policy_fields(&dns_request(t)).expect("valid fields");
        let policy = dns_policy_from_response(DnsPolicyResponse {
            id: A.into(),
            policy_type: name.into(),
            enabled: true,
            domain: Some("printer.home".into()),
            metadata: JsonValue::Null,
            extra: fields,
        });
        assert_eq!(policy.policy_type, t);
        assert_eq!(policy.value, "192.168.1.20");
        assert_eq!(policy.ttl_seconds, ttl);
    }
}

#[test]
fn created_nat_rule_reads_back_as_the_request() {
    for (kind, expected, iface_key) in [
        ("Destination", NatType::Destination, "in_interface"),
        ("snat", NatType::Source, "out_interface"),
        ("MASQUERADE", NatType::Masquerade, "out_interface"),
    ] {
        let req = CreateNatPolicyRequest {
            name: "web".into(),
            nat_type: kind.into(),
            description: None,
            enabled: true,
            interface_id: None,
            protocol: Some("TCP_AND_UDP".into()),
            src_address: None,
            src_port: Some("1000".into()),
            dst_address: Some("203.0.113.5".into()),
            dst_port: Some("443".into()),
            translated_address: Some("192.168.1.10".into()),
            translated_port: Some("8443".into()),
        };
        let JsonValue::Object(mut members) = create_nat_rule_body(&req, 7, Some("wan-id")) else { panic!("object") };
        assert!(members.iter().any(|(k, _)| k == iface_key));
        members.push(("_id".to_string(), s("rule-1")));
        let policy = nat_policy_from_v2(&JsonValue::Object(members)).expect("a policy");
        assert_eq!(policy.name, "web");
        assert!(policy.enabled);
        assert_eq!(policy.nat_type, expected);
        assert_eq!(policy.protocol.as_deref(), Some("tcp_udp"));
        assert_eq!(policy.src_address, None);
        assert_eq!(policy.src_port.as_deref(), Some("1000"));
        assert_eq!(policy.dst_address.as_deref(), Some("203.0.113.5"));
        assert_eq!(policy.dst_port.as_deref(), Some("443"));
        assert_eq!(policy.translated_address.as_deref(), Some("192.168.1.10"));
        assert_eq!(policy.translated_port.as_deref(), Some("8443"));
        assert_eq!(policy.interface_id, Some(EntityId::Legacy("wan-id".into())));
    }
}

#[test]
fn dns_update_fields_read_back_new_or_stored_values() {
    let stored = || DnsPolicyResponse {
        id: A.into(),
        policy_type: "A".into(),
        enabled: true,
        domain: Some("printer.home".into()),
        metadata: JsonValue::Null,
        extra: vec![
            ("ipv4Address".to_string(), s("192.168.1.20")),
            ("ttlSeconds".to_string(), JsonValue::UInt(300)),
        ],
    };
    let reread = |fields| {
        let mut r = stored();
        r.extra = fields;
        dns_policy_from_response(r)
    };
    let keep = UpdateDnsPolicyRequest::default();
    let kept = reread(build_update_dns_policy_fields(&stored(), &keep).expect("fields"));
    assert_eq!(kept.value, "192.168.1.20");
    assert_eq!(kept.ttl_seconds, Some(300));
    let change = UpdateDnsPolicyRequest { value: Some("192.168.1.21".into()), ttl_seconds: Some(60), ..Default::default() };
    let changed = reread(build_update_dns_policy_fields(&stored(), &change).expect("fields"));
    assert_eq!(changed.value, "192.168.1.21");
    assert_eq!(changed.ttl_seconds, Some(60));
}
