use unifly_api::convert::vpn::{
    is_vpn_setting_key, magic_site_to_site_vpn_config_from_raw, remote_access_vpn_server_from_raw,
    site_to_site_vpn_from_raw, vpn_client_connection_from_raw, vpn_client_profile_from_raw, vpn_setting_from_raw,
    vpn_setting_key_rank, wireguard_peer_from_raw,
};
use unifly_api::json::JsonValue;
use unifly_api::model::entity::EntityId;
use unifly_api::support::{redact_sensitive_value, should_redact_field};

fn s(x: &str) -> JsonValue {
    JsonValue::Str(x.to_string())
}

fn b(x: bool) -> JsonValue {
    JsonValue::Bool(x)
}

fn n(x: u64) -> JsonValue {
    JsonValue::UInt(x)
}

fn obj(pairs: Vec<(&str, JsonValue)>) -> JsonValue {
    JsonValue::Object(pairs.into_iter().map(|(k, v)| (k.to_string(), v)).collect())
}

fn member<'a>(m: &'a [(String, JsonValue)], key: &str) -> Option<&'a JsonValue> {
    m.iter().find(|(k, _)| k == key).map(|(_, v)| v)
}

fn field<'a>(v: &'a JsonValue, key: &str) -> Option<&'a JsonValue> {
    match v {
        JsonValue::Object(m) => member(m, key),
        _ => None,
    }
}

const REDACTED: &str = "***REDACTED***";

#[test]
fn site_to_site_vpn_from_raw_maps_legacy_networkconf_record() {
    let raw = obj(vec![
        ("_id", s("vpn123")),
        ("name", s("Branch Tunnel")),
        ("purpose", s("site-vpn")),
        ("enabled", b(true)),
        ("vpn_type", s("ipsec-vpn")),
        ("ipsec_local_ip", s("10.0.0.1")),
        ("ipsec_interface", s("WAN1")),
        ("ipsec_peer_ip", s("198.51.100.10")),
        ("remote_vpn_subnets", JsonValue::Array(vec![s("10.10.0.0/24")])),
    ]);
    let vpn = site_to_site_vpn_from_raw(&raw).expect("site-vpn should map");
    assert_eq!(vpn.id, EntityId::Legacy("vpn123".into()));
    assert_eq!(vpn.name, "Branch Tunnel");
    assert_eq!(vpn.vpn_type, "ipsec-vpn");
    assert_eq!(vpn.local_ip.as_deref(), Some("10.0.0.1"));
    assert_eq!(vpn.interface.as_deref(), Some("WAN1"));
    assert_eq!(vpn.remote_host.as_deref(), Some("198.51.100.10"));
    assert_eq!(vpn.remote_vpn_subnets, vec!["10.10.0.0/24"]);
}

#[test]
fn vpn_setting_from_raw_filters_to_known_keys() {
    let raw = obj(vec![("key", s("teleport")), ("enabled", b(true)), ("_id", s("abc123")), ("site_id", s("default"))]);
    let setting = vpn_setting_from_raw(&raw).expect("teleport should be recognized");
    assert_eq!(setting.key, "teleport");
    assert_eq!(setting.enabled, Some(true));
    assert!(member(&setting.fields, "_id").is_none());
    assert!(member(&setting.fields, "site_id").is_none());
}

#[test]
fn remote_access_vpn_server_from_raw_maps_legacy_networkconf_record() {
    let raw = obj(vec![
        ("_id", s("vpn456")),
        ("name", s("WireGuard Remote Access")),
        ("purpose", s("remote-user-vpn")),
        ("enabled", b(true)),
        ("vpn_type", s("wireguard")),
        ("local_port", n(51820)),
        ("wireguard_local_wan_ip", s("203.0.113.10")),
        ("wireguard_interface", s("WAN1")),
        ("ip_subnet", s("192.168.42.1/24")),
        ("radiusprofile_id", s("radius123")),
        ("exposed_to_site_vpn", b(true)),
        ("x_wireguard_private_key", s("secret")),
    ]);
    let server = remote_access_vpn_server_from_raw(&raw).expect("remote-user-vpn should map");
    assert_eq!(server.id, EntityId::Legacy("vpn456".into()));
    assert_eq!(server.name, "WireGuard Remote Access");
    assert_eq!(server.vpn_type, "wireguard");
    assert_eq!(server.local_port, Some(51820));
    assert_eq!(server.local_wan_ip.as_deref(), Some("203.0.113.10"));
    assert_eq!(server.interface.as_deref(), Some("WAN1"));
    assert_eq!(server.gateway_subnet.as_deref(), Some("192.168.42.1/24"));
    assert_eq!(server.radius_profile_id.as_deref(), Some("radius123"));
    assert_eq!(server.exposed_to_site_vpn, Some(true));
    assert_eq!(member(&server.fields, "x_wireguard_private_key"), Some(&s(REDACTED)));
}

#[test]
fn wireguard_peer_from_raw_maps_legacy_v2_record() {
    let raw = obj(vec![
        ("_id", s("peer789")),
        ("networkId", s("server123")),
        ("name", s("Laptop")),
        ("interface_ip", s("192.168.42.2")),
        ("interface_ipv6", s("fd00::2")),
        ("public_key", s("pubkey")),
        ("private_key", s("secret")),
        ("preshared_key", s("psk")),
        ("allowed_ips", JsonValue::Array(vec![s("10.0.0.0/24")])),
    ]);
    let peer = wireguard_peer_from_raw(&raw, None).expect("WireGuard peer should map");
    assert_eq!(peer.id, EntityId::Legacy("peer789".into()));
    assert_eq!(peer.server_id, Some(EntityId::Legacy("server123".into())));
    assert_eq!(peer.name, "Laptop");
    assert_eq!(peer.interface_ip.as_deref(), Some("192.168.42.2"));
    assert_eq!(peer.interface_ipv6.as_deref(), Some("fd00::2"));
    assert_eq!(peer.public_key.as_deref(), Some("pubkey"));
    assert_eq!(peer.allowed_ips, vec!["10.0.0.0/24"]);
    assert!(peer.has_private_key);
    assert!(peer.has_preshared_key);
    assert_eq!(member(&peer.fields, "private_key"), Some(&s(REDACTED)));
    assert_eq!(member(&peer.fields, "preshared_key"), Some(&s(REDACTED)));
}

#[test]
fn vpn_client_connection_from_raw_maps_v2_record() {
    let raw = obj(vec![
        ("network_id", s("vpn-client-1")),
        ("name", s("Branch Client")),
        ("type", s("openvpn-client")),
        ("status", s("CONNECTED")),
        ("local_ip", s("10.0.0.2")),
        ("remote_ip", s("198.51.100.10")),
        ("username", s("branch-user")),
        ("password", s("secret")),
    ]);
    let connection = vpn_client_connection_from_raw(&raw).expect("VPN connection should map");
    assert_eq!(connection.id, EntityId::Legacy("vpn-client-1".into()));
    assert_eq!(connection.name.as_deref(), Some("Branch Client"));
    assert_eq!(connection.connection_type.as_deref(), Some("openvpn-client"));
    assert_eq!(connection.status.as_deref(), Some("CONNECTED"));
    assert_eq!(connection.local_address.as_deref(), Some("10.0.0.2"));
    assert_eq!(connection.remote_address.as_deref(), Some("198.51.100.10"));
    assert_eq!(connection.username.as_deref(), Some("branch-user"));
    assert_eq!(member(&connection.fields, "password"), Some(&s(REDACTED)));
}

#[test]
fn vpn_client_profile_from_raw_maps_legacy_networkconf_record() {
    let raw = obj(vec![
        ("_id", s("vpn-client-1")),
        ("name", s("Branch Client")),
        ("purpose", s("vpn-client")),
        ("enabled", b(false)),
        ("vpn_type", s("openvpn-client")),
        ("remote_host", s("198.51.100.10")),
        ("remote_port", n(1194)),
        ("local_address", s("10.0.0.2")),
        ("username", s("branch-user")),
        ("interface", s("WAN1")),
        ("route_distance", n(15)),
        ("password", s("secret")),
    ]);
    let client = vpn_client_profile_from_raw(&raw).expect("vpn-client should map");
    assert_eq!(client.id, EntityId::Legacy("vpn-client-1".into()));
    assert_eq!(client.name, "Branch Client");
    assert!(!client.enabled);
    assert_eq!(client.vpn_type, "openvpn-client");
    assert_eq!(client.server_address.as_deref(), Some("198.51.100.10"));
    assert_eq!(client.server_port, Some(1194));
    assert_eq!(client.local_address.as_deref(), Some("10.0.0.2"));
    assert_eq!(client.username.as_deref(), Some("branch-user"));
    assert_eq!(client.interface.as_deref(), Some("WAN1"));
    assert_eq!(client.route_distance, Some(15));
    assert_eq!(member(&client.fields, "password"), Some(&s(REDACTED)));
}

#[test]
fn magic_site_to_site_vpn_config_from_raw_maps_v2_record() {
    let raw = obj(vec![
        ("id", s("magic-1")),
        ("name", s("HQ <-> Branch")),
        ("status", s("CONNECTED")),
        ("enabled", b(true)),
        ("localSiteName", s("HQ")),
        ("remoteSiteName", s("Branch")),
        ("token", s("secret")),
    ]);
    let config = magic_site_to_site_vpn_config_from_raw(&raw).expect("magic site-to-site should map");
    assert_eq!(config.id, EntityId::Legacy("magic-1".into()));
    assert_eq!(config.name.as_deref(), Some("HQ <-> Branch"));
    assert_eq!(config.status.as_deref(), Some("CONNECTED"));
    assert_eq!(config.enabled, Some(true));
    assert_eq!(config.local_site_name.as_deref(), Some("HQ"));
    assert_eq!(config.remote_site_name.as_deref(), Some("Branch"));
    assert_eq!(member(&config.fields, "token"), Some(&s(REDACTED)));
}

#[test]
fn redact_sensitive_value_masks_nested_vpn_secrets() {
    let redacted = redact_sensitive_value(&obj(vec![
        ("enabled", b(true)),
        ("public_key", s("keep-me")),
        ("x_private_key", s("secret")),
        ("nested", obj(vec![("psk", s("hide-me")), ("certificatePem", s("hide-me-too"))])),
    ]));
    assert_eq!(field(&redacted, "enabled"), Some(&b(true)));
    assert_eq!(field(&redacted, "public_key"), Some(&s("keep-me")));
    assert_eq!(field(&redacted, "x_private_key"), Some(&s(REDACTED)));
    let nested = field(&redacted, "nested").expect("nested");
    assert_eq!(field(nested, "psk"), Some(&s(REDACTED)));
    assert_eq!(field(nested, "certificatePem"), Some(&s(REDACTED)));
}

// ── further cases ──

#[test]
fn redaction_is_idempotent_on_a_sample() {
    let raw = obj(vec![
        ("password", s("x")),
        ("list", JsonValue::Array(vec![obj(vec![("token", s("t")), ("name", s("n"))])])),
    ]);
    let once = redact_sensitive_value(&raw);
    assert_eq!(redact_sensitive_value(&once), once);
}

#[test]
fn should_redact_field_ignores_case() {
    assert!(should_redact_field("X_PRIVATE_KEY"));
    assert!(should_redact_field("SharedKey_shared_key"));
    assert!(!should_redact_field("public_key"));
}

#[test]
fn site_to_site_vpn_requires_site_vpn_purpose() {
    let raw = obj(vec![("_id", s("vpn1")), ("purpose", s("corporate"))]);
    assert!(site_to_site_vpn_from_raw(&raw).is_none());
    assert!(site_to_site_vpn_from_raw(&s("not an object")).is_none());
}

#[test]
fn vpn_client_profile_without_purpose_needs_client_type() {
    let with_type = obj(vec![("_id", s("c1")), ("type", s("wireguard-client")), ("port", n(70000)), ("server_port", n(51820))]);
    let profile = vpn_client_profile_from_raw(&with_type).expect("client type should map");
    assert_eq!(profile.vpn_type, "wireguard-client");
    assert!(profile.enabled);
    assert_eq!(profile.server_port, Some(51820));
    let without = obj(vec![("_id", s("c2")), ("vpn_type", s("openvpn-server"))]);
    assert!(vpn_client_profile_from_raw(&without).is_none());
    let other_purpose = obj(vec![("_id", s("c3")), ("purpose", s("site-vpn")), ("vpn_type", s("x-client"))]);
    assert!(vpn_client_profile_from_raw(&other_purpose).is_none());
}

#[test]
fn wireguard_peer_falls_back_to_default_server() {
    let raw = obj(vec![("_id", s("p1")), ("network_id", s(""))]);
    let peer = wireguard_peer_from_raw(&raw, Some("srv")).expect("peer");
    assert_eq!(peer.server_id, Some(EntityId::Legacy("srv".into())));
    assert!(!peer.has_private_key);
    assert!(wireguard_peer_from_raw(&obj(vec![("name", s("x"))]), None).is_none());
}

#[test]
fn vpn_setting_keys_and_order() {
    assert!(is_vpn_setting_key("openvpn"));
    assert!(!is_vpn_setting_key("mgmt"));
    assert_eq!(vpn_setting_key_rank("magic_site_to_site_vpn"), Some(0));
    assert_eq!(vpn_setting_key_rank("teleport"), Some(3));
    assert!(vpn_setting_from_raw(&obj(vec![("key", s("mgmt"))])).is_none());
    let setting = vpn_setting_from_raw(&obj(vec![("key", s("openvpn")), ("shared_key", s("k"))])).expect("openvpn");
    assert_eq!(setting.enabled, None);
    assert_eq!(member(&setting.fields, "shared_key"), Some(&s(REDACTED)));
    assert!(member(&setting.fields, "key").is_none());
}
