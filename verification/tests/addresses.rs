use unifly_api::convert::device::uplink_bandwidth;
use unifly_api::convert::helpers::{parse_legacy_wan_ipv6, parse_session_device_wan_ipv6, pick_ipv6_from_value};
use unifly_api::convert::network::network_from_details;
use unifly_api::convert::records::{vpn_server_from_fields, vpn_tunnel_from_fields};
use unifly_api::integration::NetworkDetailsResponse;
use unifly_api::json::JsonValue;
use unifly_api::model::device::Bandwidth;
use unifly_api::model::entity::EntityId;
use unifly_api::model::network::NetworkManagement;
use unifly_api::net::{parse_ipv4, parse_ipv6, Ipv4};
use unifly_api::payloads::network::create_network_body;
use unifly_api::requests::network::CreateNetworkRequest;
use unifly_api::text::trim;

fn s(x: &str) -> JsonValue {
    JsonValue::Str(x.to_string())
}

fn obj(pairs: Vec<(&str, JsonValue)>) -> JsonValue {
    JsonValue::Object(members(pairs))
}

fn members(pairs: Vec<(&str, JsonValue)>) -> Vec<(String, JsonValue)> {
    pairs.into_iter().map(|(k, v)| (k.to_string(), v)).collect()
}

fn canonical(text: &str) -> String {
    parse_ipv6(text).expect("an IPv6 address").to_text()
}

#[test]
fn ipv6_text_compresses_first_longest_zero_run() {
    assert_eq!(canonical("2001:DB8:0:0:0:0:0:1"), "2001:db8::1");
    assert_eq!(canonical("::"), "::");
    assert_eq!(canonical("::1"), "::1");
    assert_eq!(canonical("1::"), "1::");
    assert_eq!(canonical("1:0:0:2:0:0:0:3"), "1:0:0:2::3");
    assert_eq!(canonical("1:0:0:2:0:0:3:4"), "1::2:0:0:3:4");
    assert_eq!(canonical("1:2:3:4:5:6:0:8"), "1:2:3:4:5:6:0:8");
    assert_eq!(canonical("fe80:0000:0000:0000:0abc:0000:0000:0001"), "fe80::abc:0:0:1");
}

#[test]
fn ipv6_text_shows_ipv4_mapped_dotted() {
    assert_eq!(canonical("::ffff:192.168.1.1"), "::ffff:192.168.1.1");
    assert_eq!(canonical("0:0:0:0:0:ffff:c0a8:0101"), "::ffff:192.168.1.1");
    assert_eq!(canonical("::1.2.3.4"), "::102:304");
}

#[test]
fn ipv6_link_local_is_fe80_slash_10() {
    assert!(parse_ipv6("fe80::1").unwrap().is_unicast_link_local());
    assert!(parse_ipv6("febf::1").unwrap().is_unicast_link_local());
    assert!(!parse_ipv6("fec0::1").unwrap().is_unicast_link_local());
    assert!(!parse_ipv6("2001:db8::1").unwrap().is_unicast_link_local());
}

#[test]
fn trim_drops_unicode_white_space() {
    assert_eq!(trim("  a b \t\n"), "a b");
    assert_eq!(trim("\u{a0}x\u{3000}"), "x");
    assert_eq!(trim("   "), "");
    assert_eq!(trim("x"), "x");
}

#[test]
fn pick_ipv6_prefers_global_addresses() {
    let items = JsonValue::Array(vec![s("fe80::1"), s("2001:DB8::5/64"), s("2001:db8::6")]);
    assert_eq!(pick_ipv6_from_value(&items), Some("2001:db8::5".to_string()));
    let local_only = JsonValue::Array(vec![s("bad"), s("fe80::2"), s("fe80::3")]);
    assert_eq!(pick_ipv6_from_value(&local_only), Some("fe80::2".to_string()));
    assert_eq!(pick_ipv6_from_value(&s("  2001:db8::7 /64 ")), Some("2001:db8::7".to_string()));
    assert_eq!(pick_ipv6_from_value(&s("10.0.0.1")), None);
    assert_eq!(pick_ipv6_from_value(&JsonValue::UInt(5)), None);
    assert_eq!(pick_ipv6_from_value(&JsonValue::Array(vec![])), None);
}

#[test]
fn wan_ipv6_reads_wan1_then_top_level() {
    let extra = members(vec![
        ("wan1", obj(vec![("ipv6", JsonValue::Array(vec![s("fe80::1")]))])),
        ("ipv6", s("2001:db8::9")),
    ]);
    assert_eq!(parse_legacy_wan_ipv6(&extra), Some("fe80::1".to_string()));
    let fallback = members(vec![("wan1", obj(vec![("ipv6", s("bad"))])), ("ipv6", JsonValue::Array(vec![s("2001:db8::9")]))]);
    assert_eq!(parse_session_device_wan_ipv6(&fallback), Some("2001:db8::9".to_string()));
    assert_eq!(parse_legacy_wan_ipv6(&members(vec![("wan1", s("x"))])), None);
    assert_eq!(parse_legacy_wan_ipv6(&Vec::new()), None);
}

#[test]
fn vpn_listing_records() {
    let server = vpn_server_from_fields(&members(vec![
        ("id", s("550E8400-E29B-41D4-A716-446655440000")),
        ("name", s("Road warriors")),
        ("serverType", s("OPENVPN")),
        ("enabled", JsonValue::Bool(true)),
    ]));
    assert_eq!(server.id, EntityId::Uuid("550e8400-e29b-41d4-a716-446655440000".to_string()));
    assert_eq!(server.name.as_deref(), Some("Road warriors"));
    assert_eq!(server.server_type, "OPENVPN");
    assert_eq!(server.enabled, Some(true));
    assert_eq!(server.port, None);
    let tunnel = vpn_tunnel_from_fields(&members(vec![("id", s("nope")), ("type", s("IPSEC")), ("tunnelType", s("X"))]));
    assert_eq!(tunnel.id, EntityId::Legacy("unknown".to_string()));
    assert_eq!(tunnel.tunnel_type, "IPSEC");
    assert_eq!(tunnel.enabled, None);
    let bare = vpn_tunnel_from_fields(&Vec::new());
    assert_eq!(bare.tunnel_type, "UNKNOWN");
    assert!(!bare.has_psk);
}

#[test]
fn uplink_bandwidth_reads_alternate_names() {
    let u = obj(vec![("txBytesPerSecond", JsonValue::UInt(100)), ("rx_bytes-r", JsonValue::UInt(7))]);
    assert_eq!(uplink_bandwidth(&u), Some(Bandwidth { tx_bytes_per_sec: 100, rx_bytes_per_sec: 7 }));
    let first_wins = obj(vec![("txRateBps", s("fast")), ("txBytesPerSecond", JsonValue::UInt(100)), ("rxRateBps", JsonValue::UInt(3))]);
    assert_eq!(uplink_bandwidth(&first_wins), Some(Bandwidth { tx_bytes_per_sec: 0, rx_bytes_per_sec: 3 }));
    assert_eq!(uplink_bandwidth(&obj(vec![("txRateBps", JsonValue::UInt(0))])), None);
}

#[test]
fn ipv4_text_reads_back() {
    for ip in [
        Ipv4 { a: 0, b: 0, c: 0, d: 0 },
        Ipv4 { a: 10, b: 0, c: 99, d: 255 },
        Ipv4 { a: 192, b: 168, c: 1, d: 100 },
    ] {
        assert_eq!(parse_ipv4(&ip.to_text()), Some(ip));
    }
}

#[test]
fn created_gateway_network_reads_back() {
    let req = CreateNetworkRequest {
        name: "IoT".into(),
        vlan_id: Some(30),
        subnet: Some("10.30.0.1/24".into()),
        management: None,
        purpose: None,
        dhcp_enabled: true,
        enabled: true,
        dhcp_range_start: Some("10.30.0.100".into()),
        dhcp_range_stop: Some("10.30.0.200".into()),
        dhcp_lease_time: Some(3600),
        dns_servers: None,
        firewall_zone_id: Some("550E8400-E29B-41D4-A716-446655440000".into()),
        isolation_enabled: true,
        internet_access_enabled: false,
    };
    let body = create_network_body(&req).expect("body");
    let net = network_from_details(NetworkDetailsResponse {
        id: "550e8400-e29b-41d4-a716-446655440009".into(),
        name: body.name.clone(),
        enabled: body.enabled,
        management: body.management.clone(),
        vlan_id: body.vlan_id,
        default: false,
        dhcp_guarding: None,
        metadata: JsonValue::Null,
        extra: body.extra,
    });
    assert_eq!(net.management, Some(NetworkManagement::Gateway));
    assert_eq!(net.subnet.as_deref(), Some("10.30.0.1/24"));
    assert_eq!(net.gateway_ip, Some(Ipv4 { a: 10, b: 30, c: 0, d: 1 }));
    let dhcp = net.dhcp.expect("dhcp");
    assert!(dhcp.enabled);
    assert_eq!(dhcp.lease_time_secs, Some(3600));
    assert_eq!(dhcp.range_start, Some(Ipv4 { a: 10, b: 30, c: 0, d: 100 }));
    assert_eq!(dhcp.range_stop, Some(Ipv4 { a: 10, b: 30, c: 0, d: 200 }));
    assert!(net.isolation_enabled);
    assert!(!net.internet_access_enabled);
    assert_eq!(net.firewall_zone_id, Some(EntityId::Uuid("550e8400-e29b-41d4-a716-446655440000".into())));
}

#[test]
fn ipv6_text_reads_back() {
    for text in ["::", "::1", "2001:db8::1", "1:0:0:2:0:0:3:4", "fe80::abc:0:0:1", "::ffff:10.0.0.1", "1:2:3:4:5:6:7:8"] {
        let ip = parse_ipv6(text).expect("an address");
        assert_eq!(parse_ipv6(&ip.to_text()), Some(ip));
    }
}
