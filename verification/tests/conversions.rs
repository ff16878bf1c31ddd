use unifly_api::convert::dns::{dns_policy_from_response, dns_value_from_extra};
use unifly_api::convert::firewall::{
    acl_rule_from_response, convert_port_filter, firewall_policy_from_response, firewall_zone_from_response,
};
use unifly_api::convert::network::network_from_details;
use unifly_api::convert::supporting::{site_from_response, site_from_session, traffic_matching_list_from_response};
use unifly_api::integration::{
    AclRuleResponse, DestTrafficFilter, DnsPolicyResponse, FirewallPolicyDestination, FirewallPolicyResponse,
    FirewallZoneResponse, IpAddressFilter, IpAddressItem, NetworkDetailsResponse, PortFilter, PortItem, SiteResponse,
    TrafficMatchingListResponse,
};
use unifly_api::json::JsonValue;
use unifly_api::model::dns::DnsPolicyType;
use unifly_api::model::entity::{DataSource, EntityId, EntityOrigin};
use unifly_api::model::firewall::{AclAction, AclRuleType, FirewallAction, IpSpec, IpVersion, PortSpec, TrafficFilter};
use unifly_api::model::network::{Ipv6Mode, NetworkManagement};
use unifly_api::net::{IpAddress, Ipv4, Ipv6};

const UUID_A: &str = "00000000-0000-0000-0000-000000000000";
const UUID_B: &str = "5888bc93-aaae-4242-ae2f-2050d76211fd";

fn s(x: &str) -> JsonValue {
    JsonValue::Str(x.to_string())
}

fn obj(pairs: Vec<(&str, JsonValue)>) -> JsonValue {
    JsonValue::Object(pairs.into_iter().map(|(k, v)| (k.to_string(), v)).collect())
}

fn members(pairs: Vec<(&str, JsonValue)>) -> Vec<(String, JsonValue)> {
    pairs.into_iter().map(|(k, v)| (k.to_string(), v)).collect()
}

#[test]
fn integration_dns_policy_uses_type_specific_fields() {
    let response = DnsPolicyResponse {
        id: UUID_A.into(),
        policy_type: "A".into(),
        enabled: true,
        domain: Some("example.com".into()),
        metadata: obj(vec![("origin", s("USER"))]),
        extra: members(vec![("ipv4Address", s("192.168.1.10")), ("ttlSeconds", JsonValue::UInt(600))]),
    };
    let dns = dns_policy_from_response(response);
    assert_eq!(dns.value, "192.168.1.10");
    assert_eq!(dns.ttl_seconds, Some(600));
}

#[test]
fn dns_srv_value_lists_present_parts() {
    let extra = members(vec![
        ("serverDomain", s("sip.example.com")),
        ("service", s("_sip")),
        ("protocol", s("._tcp")),
        ("port", JsonValue::UInt(5060)),
        ("weight", JsonValue::UInt(5)),
    ]);
    assert_eq!(
        dns_value_from_extra(DnsPolicyType::SrvRecord, &extra),
        "sip.example.com service=_sip._tcp port=5060 weight=5"
    );
    assert_eq!(dns_value_from_extra(DnsPolicyType::SrvRecord, &Vec::new()), "");
    assert_eq!(dns_value_from_extra(DnsPolicyType::CnameRecord, &extra), "");
}

#[test]
fn dns_policy_unknown_type_is_forward_domain() {
    let response = DnsPolicyResponse {
        id: UUID_A.into(),
        policy_type: "FORWARD_DOMAIN".into(),
        enabled: true,
        domain: None,
        metadata: obj(vec![("origin", s("USER_DEFINED"))]),
        extra: members(vec![("ipAddress", s("1.1.1.1")), ("ttlSeconds", JsonValue::UInt(4_294_967_297))]),
    };
    let dns = dns_policy_from_response(response);
    assert_eq!(dns.policy_type, DnsPolicyType::ForwardDomain);
    assert_eq!(dns.domain, "");
    assert_eq!(dns.value, "1.1.1.1");
    assert_eq!(dns.ttl_seconds, Some(1));
    assert_eq!(dns.origin, Some(EntityOrigin::UserDefined));
}

#[test]
fn integration_traffic_matching_list_formats_structured_items() {
    let response = TrafficMatchingListResponse {
        id: UUID_A.into(),
        name: "Ports".into(),
        list_type: "PORT".into(),
        extra: members(vec![(
            "items",
            JsonValue::Array(vec![
                obj(vec![("type", s("PORT_NUMBER")), ("value", JsonValue::UInt(443))]),
                obj(vec![("type", s("PORT_RANGE")), ("start", JsonValue::UInt(1000)), ("stop", JsonValue::UInt(2000))]),
            ]),
        )]),
    };
    let list = traffic_matching_list_from_response(response);
    assert_eq!(list.items, vec!["443".to_owned(), "1000-2000".to_owned()]);
}

#[test]
fn legacy_site_uses_desc_as_display_name() {
    let converted = site_from_session("abc123".into(), "default".into(), Some("Main Office".into()));
    assert_eq!(converted.internal_name, "default");
    assert_eq!(converted.name, "Main Office");
}

#[test]
fn legacy_site_falls_back_to_name_when_desc_empty() {
    let converted = site_from_session("abc123".into(), "branch-1".into(), Some(String::new()));
    assert_eq!(converted.name, "branch-1");
    assert_eq!(converted.id, EntityId::Legacy("abc123".into()));
    assert_eq!(converted.source, DataSource::SessionApi);
}

#[test]
fn integration_site_keeps_reference_and_name() {
    let site = site_from_response(SiteResponse { id: UUID_B.into(), internal_reference: "default".into(), name: "HQ".into() });
    assert_eq!(site.id, EntityId::Uuid(UUID_B.into()));
    assert_eq!(site.internal_name, "default");
    assert_eq!(site.name, "HQ");
}

#[test]
fn port_filter_items_render_ranges_and_unknowns() {
    let spec = convert_port_filter(&PortFilter::Ports {
        items: vec![
            PortItem::Number { value: "443".into() },
            PortItem::Range { start_port: "8000".into(), end_port: "9000".into() },
            PortItem::Unknown,
        ],
        match_opposite: true,
    });
    assert_eq!(spec, PortSpec::Values { items: vec!["443".into(), "8000-9000".into(), "?".into()], match_opposite: true });
    assert_eq!(convert_port_filter(&PortFilter::Unknown), PortSpec::Values { items: vec![], match_opposite: false });
}

#[test]
fn firewall_policy_converts_destination_and_flat_source_zone() {
    let policy = firewall_policy_from_response(FirewallPolicyResponse {
        id: UUID_A.into(),
        name: "Block".into(),
        description: None,
        enabled: true,
        action: obj(vec![("type", s("REJECT"))]),
        ip_protocol_scope: Some(obj(vec![("ipVersion", s("IPV6_ONLY"))])),
        logging_enabled: true,
        metadata: Some(obj(vec![("origin", s("SYSTEM_DEFINED"))])),
        source: None,
        destination: Some(FirewallPolicyDestination {
            zone_id: Some(UUID_B.into()),
            traffic_filter: Some(DestTrafficFilter::IpAddress {
                ip_address_filter: IpAddressFilter::Specific {
                    items: vec![IpAddressItem::Address { value: "10.0.0.1".into() }],
                    match_opposite: true,
                },
                port_filter: None,
            }),
        }),
        extra: members(vec![
            ("index", JsonValue::UInt(7)),
            ("sourceFirewallZoneId", s("D2864B8E-56FB-4945-B69F-6D424FA5B248")),
            ("connectionStateFilter", JsonValue::Array(vec![s("NEW"), JsonValue::UInt(3), s("ESTABLISHED")])),
        ]),
    });
    assert_eq!(policy.action, FirewallAction::Reject);
    assert_eq!(policy.ip_version, IpVersion::Ipv6);
    assert_eq!(policy.index, Some(7));
    assert_eq!(policy.source.zone_id, Some(EntityId::Uuid("d2864b8e-56fb-4945-b69f-6d424fa5b248".into())));
    assert!(policy.source.filter.is_none());
    assert_eq!(policy.destination.zone_id, Some(EntityId::Uuid(UUID_B.into())));
    assert_eq!(
        policy.destination.filter,
        Some(TrafficFilter::IpAddress {
            addresses: vec![IpSpec::Address { value: "10.0.0.1".into() }],
            match_opposite: true,
            mac_addresses: vec![],
            ports: None,
        })
    );
    assert_eq!(policy.destination_summary.as_deref(), Some("NOT ip(10.0.0.1)"));
    assert_eq!(policy.connection_states, vec!["NEW".to_string(), "ESTABLISHED".to_string()]);
    assert_eq!(policy.origin, Some(EntityOrigin::SystemDefined));
}

#[test]
fn firewall_policy_defaults_to_block_and_both_versions() {
    let policy = firewall_policy_from_response(FirewallPolicyResponse {
        id: UUID_A.into(),
        name: "Default".into(),
        description: Some("d".into()),
        enabled: false,
        action: obj(vec![]),
        ip_protocol_scope: None,
        logging_enabled: false,
        metadata: None,
        source: None,
        destination: None,
        extra: Vec::new(),
    });
    assert_eq!(policy.action, FirewallAction::Block);
    assert_eq!(policy.ip_version, IpVersion::Both);
    assert_eq!(policy.index, None);
    assert_eq!(policy.source.zone_id, None);
    assert!(policy.connection_states.is_empty());
    assert_eq!(policy.origin, None);
}

#[test]
fn zone_and_acl_rule_conversions() {
    let zone = firewall_zone_from_response(FirewallZoneResponse {
        id: UUID_A.into(),
        name: "LAN".into(),
        network_ids: vec![UUID_B.into()],
        metadata: obj(vec![("management", s("ORCHESTRATED"))]),
    });
    assert_eq!(zone.network_ids, vec![EntityId::Uuid(UUID_B.into())]);
    assert_eq!(zone.origin, Some(EntityOrigin::Orchestrated));
    let rule = acl_rule_from_response(AclRuleResponse {
        id: UUID_A.into(),
        name: "r".into(),
        rule_type: "MAC".into(),
        action: "DENY".into(),
        enabled: true,
        index: 1,
        description: None,
        source_filter: None,
        destination_filter: None,
        enforcing_device_filter: None,
        metadata: JsonValue::Null,
    });
    assert_eq!(rule.rule_type, AclRuleType::Mac);
    assert_eq!(rule.action, AclAction::Block);
}

fn network(extra: Vec<(String, JsonValue)>, metadata: JsonValue) -> NetworkDetailsResponse {
    NetworkDetailsResponse {
        id: UUID_A.into(),
        name: "LAN".into(),
        enabled: true,
        management: "USER_DEFINED".into(),
        vlan_id: 65546,
        default: true,
        dhcp_guarding: None,
        metadata,
        extra,
    }
}

#[test]
fn network_reads_ipv4_dhcp_and_ipv6_settings() {
    let extra = members(vec![
        (
            "ipv4Configuration",
            obj(vec![
                ("hostIpAddress", s("192.168.1.1")),
                ("prefixLength", JsonValue::UInt(24)),
                (
                    "dhcpConfiguration",
                    obj(vec![
                        ("mode", s("SERVER")),
                        ("ipAddressRange", obj(vec![("start", s("192.168.1.100")), ("end", s("192.168.1.200"))])),
                        ("leaseTimeSeconds", JsonValue::UInt(86400)),
                        (
                            "dnsServerIpAddressesOverride",
                            JsonValue::Array(vec![s("1.1.1.1"), s("bogus"), s("2606:4700::1111")]),
                        ),
                    ]),
                ),
                ("ntp", obj(vec![("server", s("::1"))])),
                ("pxe", obj(vec![("enabled", JsonValue::Bool(true))])),
            ]),
        ),
        (
            "ipv6Configuration",
            obj(vec![
                ("interfaceType", s("PREFIX_DELEGATION")),
                ("clientAddressAssignment", obj(vec![("slaacEnabled", JsonValue::Bool(true))])),
                ("dhcpv6", obj(vec![("enabled", JsonValue::Bool(true))])),
                ("additionalHostIpSubnets", JsonValue::Array(vec![s("2001:db8::/64")])),
            ]),
        ),
        ("internetAccessEnabled", JsonValue::Bool(false)),
    ]);
    let metadata = obj(vec![("zoneId", s(UUID_B)), ("isolationEnabled", JsonValue::Bool(true))]);
    let net = network_from_details(network(extra, metadata));
    assert_eq!(net.id, EntityId::Uuid(UUID_A.into()));
    assert_eq!(net.vlan_id, Some(10));
    assert_eq!(net.management, Some(NetworkManagement::Gateway));
    assert_eq!(net.subnet.as_deref(), Some("192.168.1.1/24"));
    assert_eq!(net.gateway_ip, Some(Ipv4 { a: 192, b: 168, c: 1, d: 1 }));
    let dhcp = net.dhcp.expect("dhcp");
    assert!(dhcp.enabled);
    assert_eq!(dhcp.range_start, Some(Ipv4 { a: 192, b: 168, c: 1, d: 100 }));
    assert_eq!(dhcp.range_stop, Some(Ipv4 { a: 192, b: 168, c: 1, d: 200 }));
    assert_eq!(dhcp.lease_time_secs, Some(86400));
    assert_eq!(
        dhcp.dns_servers,
        vec![
            IpAddress::V4(Ipv4 { a: 1, b: 1, c: 1, d: 1 }),
            IpAddress::V6(Ipv6 { groups: [0x2606, 0x4700, 0, 0, 0, 0, 0, 0x1111] }),
        ]
    );
    assert_eq!(dhcp.gateway, net.gateway_ip);
    assert_eq!(net.ntp_server, Some(IpAddress::V6(Ipv6 { groups: [0, 0, 0, 0, 0, 0, 0, 1] })));
    assert!(net.pxe_enabled);
    assert!(net.ipv6_enabled);
    assert_eq!(net.ipv6_mode, Some(Ipv6Mode::PrefixDelegation));
    assert!(net.slaac_enabled);
    assert!(net.dhcpv6_enabled);
    assert_eq!(net.ipv6_prefix.as_deref(), Some("2001:db8::/64"));
    assert_eq!(net.firewall_zone_id, Some(EntityId::Uuid(UUID_B.into())));
    assert!(net.isolation_enabled);
    assert!(!net.internet_access_enabled);
    assert_eq!(net.origin, Some(EntityOrigin::UserDefined));
}

#[test]
fn network_reads_legacy_dhcp_server_and_device_management() {
    let extra = members(vec![
        (
            "ipv4Configuration",
            obj(vec![
                ("host", s("10.0.0.1")),
                ("prefix", JsonValue::UInt(16)),
                ("dhcp", obj(vec![("server", obj(vec![("enabled", JsonValue::Bool(true)), ("gateway", s("10.0.0.254"))]))])),
            ]),
        ),
        ("deviceId", s("switch-1")),
    ]);
    let net = network_from_details(network(extra, JsonValue::Null));
    assert_eq!(net.management, Some(NetworkManagement::Switch));
    assert_eq!(net.subnet.as_deref(), Some("10.0.0.1/16"));
    let dhcp = net.dhcp.expect("dhcp");
    assert!(dhcp.enabled);
    assert_eq!(dhcp.gateway, Some(Ipv4 { a: 10, b: 0, c: 0, d: 254 }));
    assert!(!net.ipv6_enabled);
    assert!(net.internet_access_enabled);
}

#[test]
fn network_without_ipv4_has_no_management_or_dhcp() {
    let net = network_from_details(network(Vec::new(), JsonValue::Null));
    assert_eq!(net.management, None);
    assert!(net.dhcp.is_none());
    assert!(net.subnet.is_none());
}
