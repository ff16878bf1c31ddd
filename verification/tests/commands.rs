use base64::engine::general_purpose::URL_SAFE_NO_PAD;
use base64::Engine;
use unifly_api::auth::{check_mfa_cookie, login_step, session_probe_url, totp_code_valid, LoginStep};
use unifly_api::convert::wifi::{extra_flag, has_extra, is_iot_optimized, wifi_network_id, wifi_security_mode_of};
use unifly_api::json::JsonValue;
use unifly_api::model::entity::EntityId;
use unifly_api::model::firewall::{firewall_action_from_name, FirewallAction};
use unifly_api::model::network::WifiSecurityMode;
use unifly_api::session::cached_session_expiry;
use unifly_api::stations::{
    authorize_guest_body, clear_fixed_ip_body, fixed_ip_removals, forget_station_body, plan_fixed_ip,
    station_command_body, FixedIpPlan,
};

fn s(x: &str) -> JsonValue {
    JsonValue::Str(x.to_string())
}

fn obj(pairs: Vec<(&str, JsonValue)>) -> JsonValue {
    JsonValue::Object(pairs.into_iter().map(|(k, v)| (k.to_string(), v)).collect())
}

fn members(pairs: Vec<(&str, JsonValue)>) -> Vec<(String, JsonValue)> {
    pairs.into_iter().map(|(k, v)| (k.to_string(), v)).collect()
}

#[test]
fn login_status_decides_next_step() {
    assert_eq!(login_step(499), LoginStep::SecondFactor);
    assert_eq!(login_step(200), LoginStep::LoggedIn);
    assert_eq!(login_step(204), LoginStep::LoggedIn);
    assert_eq!(login_step(299), LoginStep::LoggedIn);
    assert_eq!(login_step(300), LoginStep::Failed);
    assert_eq!(login_step(401), LoginStep::Failed);
    assert_eq!(login_step(199), LoginStep::Failed);
}

#[test]
fn totp_code_must_be_six_digits() {
    assert!(totp_code_valid("123456"));
    assert!(totp_code_valid("000000"));
    assert!(!totp_code_valid("12345"));
    assert!(!totp_code_valid("1234567"));
    assert!(!totp_code_valid("12a456"));
    assert!(!totp_code_valid(""));
}

#[test]
fn mfa_cookie_must_be_ubic_2fa() {
    assert_eq!(check_mfa_cookie("UBIC_2FA=abc; Path=/"), Ok(()));
    assert_eq!(
        check_mfa_cookie("TOKEN=abc"),
        Err("unexpected MFA cookie format (expected UBIC_2FA=...): TOKEN=abc".to_string())
    );
}

#[test]
fn session_probe_url_trims_slashes() {
    assert_eq!(
        session_probe_url("https://10.0.0.1//", "/proxy/network/", "default"),
        "https://10.0.0.1/proxy/network/api/s/default/self"
    );
    assert_eq!(session_probe_url("https://ctl:8443", "", "abc"), "https://ctl:8443/api/s/abc/self");
}

#[test]
fn station_command_bodies() {
    assert_eq!(
        station_command_body("kick-sta", "aa:bb"),
        obj(vec![("cmd", s("kick-sta")), ("mac", s("aa:bb"))])
    );
    assert_eq!(
        forget_station_body("aa:bb"),
        obj(vec![("cmd", s("forget-sta")), ("macs", JsonValue::Array(vec![s("aa:bb")]))])
    );
    assert_eq!(clear_fixed_ip_body(), obj(vec![("use_fixedip", JsonValue::Bool(false))]));
}

#[test]
fn authorize_guest_body_adds_given_limits() {
    assert_eq!(
        authorize_guest_body("aa:bb", 60, None, None, None),
        obj(vec![("cmd", s("authorize-guest")), ("mac", s("aa:bb")), ("minutes", JsonValue::UInt(60))])
    );
    assert_eq!(
        authorize_guest_body("aa:bb", 30, Some(512), None, Some(100)),
        obj(vec![
            ("cmd", s("authorize-guest")),
            ("mac", s("aa:bb")),
            ("minutes", JsonValue::UInt(30)),
            ("up", JsonValue::UInt(512)),
            ("bytes", JsonValue::UInt(100)),
        ])
    );
}

#[test]
fn fixed_ip_updates_matching_user_in_any_case() {
    let users = vec![
        ("u1".to_string(), "11:22:33:44:55:66".to_string()),
        ("u2".to_string(), "AA:BB:CC:DD:EE:FF".to_string()),
    ];
    let plan = plan_fixed_ip(&users, "aa:bb:cc:dd:ee:ff", "10.0.0.5", "net1");
    assert_eq!(
        plan,
        FixedIpPlan::Update {
            user_id: "u2".to_string(),
            body: obj(vec![
                ("use_fixedip", JsonValue::Bool(true)),
                ("fixed_ip", s("10.0.0.5")),
                ("network_id", s("net1")),
            ]),
        }
    );
}

#[test]
fn fixed_ip_creates_user_under_lowercase_mac() {
    let users = vec![("u1".to_string(), "11:22:33:44:55:66".to_string())];
    let plan = plan_fixed_ip(&users, "AA:BB:CC:DD:EE:FF", "10.0.0.5", "net1");
    assert_eq!(
        plan,
        FixedIpPlan::Create {
            body: obj(vec![
                ("mac", s("aa:bb:cc:dd:ee:ff")),
                ("use_fixedip", JsonValue::Bool(true)),
                ("fixed_ip", s("10.0.0.5")),
                ("network_id", s("net1")),
            ]),
        }
    );
}

#[test]
fn fixed_ip_removals_filter_by_mac_and_network() {
    let users = vec![
        ("u1".to_string(), "AA:BB".to_string(), Some("net1".to_string())),
        ("u2".to_string(), "aa:bb".to_string(), Some("net2".to_string())),
        ("u3".to_string(), "cc:dd".to_string(), Some("net1".to_string())),
        ("u4".to_string(), "aa:bb".to_string(), None),
    ];
    assert_eq!(
        fixed_ip_removals(&users, "aa:bb", None),
        Ok(vec!["u1".to_string(), "u2".to_string(), "u4".to_string()])
    );
    assert_eq!(fixed_ip_removals(&users, "aa:bb", Some("net2")), Ok(vec!["u2".to_string()]));
    assert_eq!(
        fixed_ip_removals(&users, "ee:ff", None),
        Err("no known user with MAC ee:ff".to_string())
    );
    assert_eq!(
        fixed_ip_removals(&users, "cc:dd", Some("net2")),
        Err("no reservation for MAC cc:dd on network net2".to_string())
    );
}

#[test]
fn firewall_action_names_in_any_case() {
    assert_eq!(firewall_action_from_name("allow"), Some(FirewallAction::Allow));
    assert_eq!(firewall_action_from_name("BLOCK"), Some(FirewallAction::Block));
    assert_eq!(firewall_action_from_name("Reject"), Some(FirewallAction::Reject));
    assert_eq!(firewall_action_from_name("drop"), None);
}

#[test]
fn wifi_security_mode_prefers_type_then_mode() {
    let typed = obj(vec![("type", s("WPA3_PERSONAL")), ("mode", s("WPA2_PERSONAL"))]);
    assert_eq!(wifi_security_mode_of(&typed), WifiSecurityMode::Wpa3Personal);
    let moded = obj(vec![("mode", s("WPA2_WPA3_ENTERPRISE"))]);
    assert_eq!(wifi_security_mode_of(&moded), WifiSecurityMode::Wpa2Wpa3Enterprise);
    let unknown = obj(vec![("type", s("OWE"))]);
    assert_eq!(wifi_security_mode_of(&unknown), WifiSecurityMode::Open);
    assert_eq!(wifi_security_mode_of(&obj(vec![])), WifiSecurityMode::Open);
}

#[test]
fn wifi_broadcast_details() {
    assert!(is_iot_optimized("IOT_OPTIMIZED"));
    assert!(!is_iot_optimized("STANDARD"));
    let net = obj(vec![("networkId", s("550E8400-E29B-41D4-A716-446655440000"))]);
    assert_eq!(
        wifi_network_id(Some(&net)),
        Some(EntityId::Uuid("550e8400-e29b-41d4-a716-446655440000".to_string()))
    );
    let by_id = obj(vec![("id", s("550e8400-e29b-41d4-a716-446655440001"))]);
    assert_eq!(
        wifi_network_id(Some(&by_id)),
        Some(EntityId::Uuid("550e8400-e29b-41d4-a716-446655440001".to_string()))
    );
    let bad = obj(vec![("networkId", s("not-a-uuid"))]);
    assert_eq!(wifi_network_id(Some(&bad)), None);
    assert_eq!(wifi_network_id(None), None);
    let extra = members(vec![("hideName", JsonValue::Bool(true)), ("uapsdEnabled", s("yes"))]);
    assert!(extra_flag(&extra, "hideName"));
    assert!(!extra_flag(&extra, "uapsdEnabled"));
    assert!(!extra_flag(&extra, "missing"));
    assert!(has_extra(&extra, "uapsdEnabled"));
    assert!(!has_extra(&extra, "missing"));
}

#[test]
fn cached_session_expiry_subtracts_margin() {
    let header = URL_SAFE_NO_PAD.encode(r#"{"alg":"HS256"}"#);
    let payload = URL_SAFE_NO_PAD.encode(r#"{"exp":1700000000}"#);
    let token = format!("TOKEN={header}.{payload}.sig; Path=/");
    assert_eq!(cached_session_expiry(&token), 1_700_000_000 - 60);
    let early = URL_SAFE_NO_PAD.encode(r#"{"exp":30}"#);
    assert_eq!(cached_session_expiry(&format!("TOKEN={header}.{early}.sig")), 0);
    assert!(cached_session_expiry("TOKEN=garbage") >= 7200);
}
