use unifly_api::convert::event::{resolve_event_templates, resolve_event_templates_within};
use unifly_api::convert::records::{
    country_from_fields, dpi_application_from_fields, dpi_enabled, radius_profile_from_fields, site_setting,
    sysinfo_from_session, system_info_from_integration, system_info_from_session, wan_from_fields,
};
use unifly_api::convert::vpn::{matches_legacy_id, vpn_setting_by_key, vpn_settings_from_raw};
use unifly_api::error::CoreError;
use unifly_api::integration::{WifiBroadcastDetailsResponse};
use unifly_api::json::JsonValue;
use unifly_api::model::entity::EntityId;
use unifly_api::model::network::WifiSecurityMode;
use unifly_api::net::{IpAddress, Ipv4};
use unifly_api::payloads::wifi::{build_update_wifi_broadcast_payload, ensure_wifi_payload_defaults};
use unifly_api::requests::network::UpdateWifiBroadcastRequest;

fn s(x: &str) -> JsonValue {
    JsonValue::Str(x.to_string())
}

fn obj(pairs: Vec<(&str, JsonValue)>) -> JsonValue {
    JsonValue::Object(members(pairs))
}

fn members(pairs: Vec<(&str, JsonValue)>) -> Vec<(String, JsonValue)> {
    pairs.into_iter().map(|(k, v)| (k.to_string(), v)).collect()
}

fn member<'a>(m: &'a [(String, JsonValue)], key: &str) -> Option<&'a JsonValue> {
    m.iter().find(|(k, _)| k == key).map(|(_, v)| v)
}

#[test]
fn wan_record_reads_addresses() {
    let wan = wan_from_fields(&members(vec![
        ("id", s("5888bc93-aaae-4242-ae2f-2050d76211fd")),
        ("name", s("WAN1")),
        ("ipAddress", s("not-an-ip")),
        ("ip", s("203.0.113.2")),
        ("gateway", s("203.0.113.1")),
        ("dns", JsonValue::Array(vec![s("1.1.1.1"), JsonValue::UInt(8), s("x")])),
    ]));
    assert_eq!(wan.id, EntityId::Uuid("5888bc93-aaae-4242-ae2f-2050d76211fd".into()));
    assert_eq!(wan.name.as_deref(), Some("WAN1"));
    assert_eq!(wan.ip, Some(IpAddress::V4(Ipv4 { a: 203, b: 0, c: 113, d: 2 })));
    assert_eq!(wan.gateway, Some(IpAddress::V4(Ipv4 { a: 203, b: 0, c: 113, d: 1 })));
    assert_eq!(wan.dns, vec![IpAddress::V4(Ipv4 { a: 1, b: 1, c: 1, d: 1 })]);
    let unnamed = wan_from_fields(&members(vec![("id", s("wan-1"))]));
    assert_eq!(unnamed.id, EntityId::Legacy("unknown".into()));
    assert!(unnamed.ip.is_none());
}

#[test]
fn reference_records_use_their_defaults() {
    let profile = radius_profile_from_fields(&Vec::new());
    assert_eq!(profile.name, "Unknown");
    let app = dpi_application_from_fields(&members(vec![
        ("id", JsonValue::UInt(4_294_967_296 + 7)),
        ("categoryId", JsonValue::UInt(3)),
        ("txBytes", JsonValue::UInt(10)),
    ]));
    assert_eq!(app.id, 7);
    assert_eq!(app.category_id, 3);
    assert_eq!(app.tx_bytes, 10);
    assert_eq!(app.rx_bytes, 0);
    assert_eq!(app.name, "Unknown");
    let country = country_from_fields(&members(vec![("code", s("DE"))]));
    assert_eq!(country.code, "DE");
    assert_eq!(country.name, "Unknown");
}

#[test]
fn system_info_from_both_apis() {
    let info = system_info_from_integration(&members(vec![
        ("name", s("UDM")),
        ("version", s("9.0.1")),
        ("update_available", JsonValue::Bool(true)),
    ]));
    assert_eq!(info.controller_name.as_deref(), Some("UDM"));
    assert_eq!(info.version, "9.0.1");
    assert_eq!(info.update_available, Some(true));
    assert!(info.ip.is_none());
    let record = || {
        obj(vec![
            ("hostname", s("unifi")),
            ("ip_addrs", JsonValue::Array(vec![s("192.168.1.1"), s("10.0.0.1")])),
            ("uptime", JsonValue::UInt(3600)),
        ])
    };
    let raw = record();
    let info = system_info_from_session(&raw);
    assert_eq!(info.version, "unknown");
    assert_eq!(info.ip, Some(IpAddress::V4(Ipv4 { a: 192, b: 168, c: 1, d: 1 })));
    assert_eq!(info.uptime_secs, Some(3600));
    let sys = sysinfo_from_session(record());
    assert_eq!(sys.ip_addrs, vec!["192.168.1.1".to_string(), "10.0.0.1".to_string()]);
    assert_eq!(sys.hostname.as_deref(), Some("unifi"));
    assert_eq!(sys.extra, raw);
}

#[test]
fn site_settings_lookup_and_dpi_flag() {
    let mgmt = || obj(vec![("key", s("mgmt")), ("enabled", JsonValue::Bool(true))]);
    let settings = vec![
        mgmt(),
        obj(vec![("key", s("dpi")), ("enabled", JsonValue::Bool(true))]),
        obj(vec![("key", s("dpi")), ("enabled", JsonValue::Bool(false))]),
    ];
    assert!(dpi_enabled(&settings));
    assert_eq!(site_setting(&settings, "mgmt").unwrap(), settings[0]);
    assert_eq!(
        site_setting(&settings, "nope"),
        Err(CoreError::NotFound { entity_type: "setting".into(), identifier: "nope".into() })
    );
    assert!(!dpi_enabled(&vec![mgmt()]));
}

#[test]
fn vpn_settings_come_sorted_by_key() {
    let raw = vec![
        obj(vec![("key", s("teleport")), ("enabled", JsonValue::Bool(true))]),
        obj(vec![("key", s("mgmt"))]),
        obj(vec![("key", s("openvpn")), ("enabled", JsonValue::Bool(false))]),
        s("junk"),
        obj(vec![("key", s("magic_site_to_site_vpn"))]),
    ];
    let settings = vpn_settings_from_raw(&raw);
    let keys: Vec<&str> = settings.iter().map(|s| s.key.as_str()).collect();
    assert_eq!(keys, vec!["magic_site_to_site_vpn", "openvpn", "teleport"]);
    let found = vpn_setting_by_key(settings, "openvpn").expect("openvpn");
    assert_eq!(found.enabled, Some(false));
    let missing = vpn_setting_by_key(Vec::new(), "teleport");
    assert_eq!(missing, Err(CoreError::NotFound { entity_type: "vpn setting".into(), identifier: "teleport".into() }));
}

#[test]
fn legacy_id_matching() {
    assert!(matches_legacy_id(&EntityId::Legacy("abc".into()), "abc"));
    assert!(!matches_legacy_id(&EntityId::Uuid("abc".into()), "abc"));
    assert!(!matches_legacy_id(&EntityId::Legacy("abc".into()), "abd"));
}

#[test]
fn event_templates_fill_known_keys_and_unwrap_unknown_ones() {
    let extra = obj(vec![("user", s("alice")), ("ap", s("Lobby")), ("n", JsonValue::UInt(3))]);
    assert_eq!(resolve_event_templates("User {user} connected to {ap}", &extra), "User alice connected to Lobby");
    assert_eq!(resolve_event_templates("count {n}", &extra), "count n");
    assert_eq!(resolve_event_templates("no placeholders", &extra), "no placeholders");
    assert_eq!(resolve_event_templates("open { only", &extra), "open { only");
    assert_eq!(resolve_event_templates("{a{user}", &extra), "a{user");
}

#[test]
fn wifi_update_payload_keeps_stored_fields_and_fills_defaults() {
    let existing = WifiBroadcastDetailsResponse {
        id: "5888bc93-aaae-4242-ae2f-2050d76211fd".into(),
        name: "Main".into(),
        broadcast_type: "STANDARD".into(),
        enabled: true,
        network: Some(obj(vec![("id", s("net-1"))])),
        security_configuration: obj(vec![("mode", s("WPA2_PERSONAL")), ("passphrase", s("old"))]),
        broadcasting_device_filter: None,
        metadata: JsonValue::Null,
        extra: members(vec![("ssid", s("Main")), ("clientIsolationEnabled", JsonValue::Bool(true)), ("vlan", JsonValue::UInt(5))]),
    };
    let update = UpdateWifiBroadcastRequest {
        name: None,
        ssid: Some("Renamed".into()),
        security_mode: Some(WifiSecurityMode::Wpa3Personal),
        passphrase: None,
        enabled: Some(false),
        hide_ssid: Some(true),
    };
    let payload = build_update_wifi_broadcast_payload(&existing, &update);
    assert_eq!(payload.name, "Renamed");
    assert!(!payload.enabled);
    assert_eq!(payload.broadcast_type, "STANDARD");
    assert!(member(&payload.body, "ssid").is_none());
    assert_eq!(member(&payload.body, "vlan"), Some(&JsonValue::UInt(5)));
    assert_eq!(member(&payload.body, "clientIsolationEnabled"), Some(&JsonValue::Bool(true)));
    assert_eq!(member(&payload.body, "hideName"), Some(&JsonValue::Bool(true)));
    assert_eq!(member(&payload.body, "network"), Some(&obj(vec![("id", s("net-1"))])));
    assert_eq!(member(&payload.body, "mloEnabled"), Some(&JsonValue::Bool(false)));
    let Some(JsonValue::Object(sec)) = member(&payload.body, "securityConfiguration") else { panic!("security") };
    assert_eq!(member(sec, "mode"), Some(&s("WPA3_PERSONAL")));
    assert_eq!(member(sec, "passphrase"), Some(&s("old")));
}

#[test]
fn wifi_defaults_only_fill_gaps() {
    let mut body = members(vec![("uapsdEnabled", JsonValue::Bool(false))]);
    ensure_wifi_payload_defaults(&mut body, "IOT_OPTIMIZED");
    assert_eq!(member(&body, "uapsdEnabled"), Some(&JsonValue::Bool(false)));
    assert_eq!(member(&body, "hideName"), Some(&JsonValue::Bool(false)));
    assert!(member(&body, "broadcastingFrequenciesGHz").is_none());
    let len = body.len();
    ensure_wifi_payload_defaults(&mut body, "IOT_OPTIMIZED");
    assert_eq!(body.len(), len);
}

#[test]
fn bounded_template_resolution_stops_after_the_given_steps() {
    let extra = obj(vec![("user", s("alice")), ("loop", s("{loop}"))]);
    assert_eq!(resolve_event_templates_within("hi {user}", &extra, 1).as_deref(), Some("hi alice"));
    assert_eq!(resolve_event_templates_within("hi {user}", &extra, 0), None);
    assert_eq!(resolve_event_templates_within("plain", &extra, 0).as_deref(), Some("plain"));
    assert_eq!(resolve_event_templates_within("{loop}", &extra, 50), None);
}
