use unifly_api::error::CoreError;
use unifly_api::json::{clone_members, clone_value, JsonValue};
use unifly_api::model::device::{PoeMode, PortMode, PortSpeedSetting, PortState, StpState};
use unifly_api::ports::entries::{apply_port_entries, entry_to_update, export_port_entries, override_to_entry};
use unifly_api::ports::networks::{build_network_lookup, NetworkLookup};
use unifly_api::ports::overrides::apply_update;
use unifly_api::ports::profile::build_profile;
use unifly_api::ports::{classify_mode, parse_speed, PortProfileUpdate};
use unifly_api::requests::ports::ApplyPortEntry;

fn s(x: &str) -> JsonValue {
    JsonValue::Str(x.to_string())
}

fn n(x: u64) -> JsonValue {
    JsonValue::UInt(x)
}

fn obj(pairs: Vec<(&str, JsonValue)>) -> JsonValue {
    JsonValue::Object(pairs.into_iter().map(|(k, v)| (k.to_string(), v)).collect())
}

fn member<'a>(m: &'a [(String, JsonValue)], key: &str) -> Option<&'a JsonValue> {
    m.iter().find(|(k, _)| k == key).map(|(_, v)| v)
}

fn sample_networks() -> NetworkLookup {
    build_network_lookup(&[
        obj(vec![("_id", s("n1")), ("name", s("infra")), ("vlan", n(10))]),
        obj(vec![("_id", s("n2")), ("name", s("personal")), ("vlan", n(20))]),
    ])
}

#[test]
fn classify_mode_detects_mirror() {
    assert_eq!(classify_mode(Some("mirror"), None, &[]), PortMode::Mirror);
}

#[test]
fn classify_mode_detects_access_and_trunk() {
    assert_eq!(classify_mode(Some("switch"), Some("block_all"), &[]), PortMode::Access);
    assert_eq!(classify_mode(Some("switch"), Some("auto"), &[]), PortMode::Trunk);
    assert_eq!(classify_mode(Some("switch"), Some("custom"), &["n2".to_string()]), PortMode::Trunk);
}

#[test]
fn parse_speed_autoneg_beats_explicit() {
    assert_eq!(parse_speed(Some("1000"), Some(true)), Some(PortSpeedSetting::Auto));
    assert_eq!(parse_speed(Some("1000"), Some(false)), Some(PortSpeedSetting::Mbps1000));
}

#[test]
fn build_profile_uses_overrides_before_live_state() {
    let row = obj(vec![
        ("port_idx", n(10)),
        ("up", JsonValue::Bool(true)),
        ("speed", n(1000)),
        ("name", s("auto-name")),
        ("tagged_vlan_mgmt", s("auto")),
        ("native_networkconf_id", s("n1")),
        ("poe_mode", s("auto")),
        ("stp_state", s("forwarding")),
    ]);
    let override_ = obj(vec![
        ("port_idx", n(10)),
        ("name", s("mac-mini")),
        ("tagged_vlan_mgmt", s("custom")),
        ("tagged_networkconf_ids", JsonValue::Array(vec![s("n2")])),
        ("native_networkconf_id", s("n1")),
        ("poe_mode", s("off")),
        ("autoneg", JsonValue::Bool(false)),
        ("speed", s("1000")),
    ]);
    let profile = build_profile(10, Some(&row), Some(&override_), &sample_networks());
    assert_eq!(profile.name.as_deref(), Some("mac-mini"));
    assert_eq!(profile.mode, PortMode::Trunk);
    assert_eq!(profile.native_vlan_id, Some(10));
    assert_eq!(profile.native_network_name.as_deref(), Some("infra"));
    assert_eq!(profile.tagged_vlan_ids, vec![20]);
    assert_eq!(profile.tagged_network_names, vec!["personal"]);
    assert_eq!(profile.poe_mode, Some(PoeMode::Off));
    assert_eq!(profile.speed_setting, Some(PortSpeedSetting::Mbps1000));
    assert_eq!(profile.link_speed_mbps, Some(1000));
    assert_eq!(profile.stp_state, StpState::Forwarding);
    assert_eq!(profile.link_state, PortState::Up);
}

#[test]
fn apply_update_access_mode_clears_tagged_list() {
    let mut target = vec![
        ("port_idx".to_string(), n(10)),
        ("tagged_networkconf_ids".to_string(), JsonValue::Array(vec![s("old")])),
    ];
    apply_update(
        &mut target,
        &PortProfileUpdate {
            mode: Some(PortMode::Access),
            native_network_id: Some("n1".into()),
            ..PortProfileUpdate::default()
        },
    );
    assert_eq!(member(&target, "tagged_vlan_mgmt"), Some(&s("block_all")));
    assert_eq!(member(&target, "tagged_networkconf_ids"), Some(&JsonValue::Array(vec![])));
    assert_eq!(member(&target, "native_networkconf_id"), Some(&s("n1")));
    assert_eq!(member(&target, "op_mode"), Some(&s("switch")));
}

#[test]
fn apply_update_trunk_with_tagged_list_marks_custom() {
    let mut target = vec![("port_idx".to_string(), n(10))];
    apply_update(
        &mut target,
        &PortProfileUpdate {
            mode: Some(PortMode::Trunk),
            native_network_id: Some("n1".into()),
            tagged_network_ids: Some(vec!["n2".into()]),
            ..PortProfileUpdate::default()
        },
    );
    assert_eq!(member(&target, "tagged_vlan_mgmt"), Some(&s("custom")));
    assert_eq!(member(&target, "tagged_networkconf_ids"), Some(&JsonValue::Array(vec![s("n2")])));
}

#[test]
fn apply_update_speed_fixed_disables_autoneg() {
    let mut target = Vec::new();
    apply_update(
        &mut target,
        &PortProfileUpdate { speed_setting: Some(PortSpeedSetting::Mbps2500), ..PortProfileUpdate::default() },
    );
    assert_eq!(member(&target, "autoneg"), Some(&JsonValue::Bool(false)));
    assert_eq!(member(&target, "speed"), Some(&s("2500")));
}

#[test]
fn apply_update_speed_auto_omits_speed_field() {
    let mut target = vec![("speed".to_string(), s("1000"))];
    apply_update(
        &mut target,
        &PortProfileUpdate { speed_setting: Some(PortSpeedSetting::Auto), ..PortProfileUpdate::default() },
    );
    assert_eq!(member(&target, "autoneg"), Some(&JsonValue::Bool(true)));
    assert_eq!(member(&target, "speed"), None);
}

#[test]
fn override_to_entry_round_trips_basic_fields() {
    let raw = obj(vec![
        ("port_idx", n(1)),
        ("name", s("uplink")),
        ("op_mode", s("switch")),
        ("tagged_vlan_mgmt", s("auto")),
        ("native_networkconf_id", s("n1")),
        ("poe_mode", s("auto")),
        ("autoneg", JsonValue::Bool(true)),
    ]);
    let entry = override_to_entry(1, &raw);
    assert_eq!(entry.index, 1);
    assert_eq!(entry.name.as_deref(), Some("uplink"));
    assert_eq!(entry.mode.as_deref(), Some("trunk"));
    assert_eq!(entry.native_network_id.as_deref(), Some("n1"));
    assert_eq!(entry.tagged_all, Some(true));
    assert_eq!(entry.poe.as_deref(), Some("auto"));
    assert!(entry.speed.is_none());
}

#[test]
fn override_to_entry_pinned_speed_emits_value() {
    let raw = obj(vec![("port_idx", n(4)), ("autoneg", JsonValue::Bool(false)), ("speed", s("1000"))]);
    let entry = override_to_entry(4, &raw);
    assert_eq!(entry.speed.as_deref(), Some("1000"));
}

#[test]
fn override_to_entry_access_mode_from_block_all() {
    let raw = obj(vec![("port_idx", n(2)), ("op_mode", s("switch")), ("tagged_vlan_mgmt", s("block_all"))]);
    let entry = override_to_entry(2, &raw);
    assert_eq!(entry.mode.as_deref(), Some("access"));
    assert!(entry.tagged_all.is_none());
}

#[test]
fn entry_to_update_rejects_invalid_strings() {
    let networks: Vec<JsonValue> = vec![];
    let entry = ApplyPortEntry { index: 1, mode: Some("bogus".into()), ..ApplyPortEntry::default() };
    let err = entry_to_update(&entry, &networks).expect_err("invalid mode should error");
    assert!(matches!(err, CoreError::ValidationFailed { .. }));
}

#[test]
fn entry_to_update_rejects_tagged_all_with_non_empty_list() {
    let networks: Vec<JsonValue> = vec![obj(vec![("_id", s("n1")), ("name", s("infra"))])];
    let entry = ApplyPortEntry {
        index: 1,
        tagged_all: Some(true),
        tagged_network_ids: Some(vec!["infra".into()]),
        ..ApplyPortEntry::default()
    };
    let err = entry_to_update(&entry, &networks).expect_err("conflict should error");
    assert!(matches!(err, CoreError::ValidationFailed { .. }));
}

#[test]
fn pinned_speeds_read_back_from_their_decimal_text() {
    let pinned = [
        PortSpeedSetting::Mbps10,
        PortSpeedSetting::Mbps100,
        PortSpeedSetting::Mbps1000,
        PortSpeedSetting::Mbps2500,
        PortSpeedSetting::Mbps5000,
        PortSpeedSetting::Mbps10000,
    ];
    for st in pinned {
        let text = st.as_mbps().unwrap().to_string();
        assert_eq!(parse_speed(Some(&text), None), Some(st));
        assert_eq!(parse_speed(Some(&text), Some(false)), Some(st));
        assert_eq!(parse_speed(Some(&text), Some(true)), Some(PortSpeedSetting::Auto));
    }
    assert_eq!(parse_speed(Some("40000"), None), None);
    assert_eq!(parse_speed(None, Some(false)), None);
}

#[test]
fn applying_an_exported_override_keeps_the_port_settings() {
    let nets = vec![
        obj(vec![("_id", s("n1")), ("name", s("infra")), ("vlan", n(10))]),
        obj(vec![("_id", s("n2")), ("name", s("personal")), ("vlan", n(20))]),
    ];
    let overrides = vec![
        vec![
            ("port_idx", n(3)),
            ("name", s("uplink")),
            ("op_mode", s("switch")),
            ("tagged_vlan_mgmt", s("custom")),
            ("tagged_networkconf_ids", JsonValue::Array(vec![s("n2")])),
            ("native_networkconf_id", s("n1")),
            ("poe_mode", s("pasv24")),
            ("autoneg", JsonValue::Bool(false)),
            ("speed", s("1000")),
        ],
        vec![("port_idx", n(4)), ("op_mode", s("switch")), ("tagged_vlan_mgmt", s("auto")), ("poe_mode", s("off"))],
        vec![("port_idx", n(5)), ("tagged_vlan_mgmt", s("block_all")), ("native_networkconf_id", s("n2"))],
    ];
    let keys = ["name", "tagged_vlan_mgmt", "tagged_networkconf_ids", "native_networkconf_id", "poe_mode", "speed"];
    for (i, pairs) in overrides.into_iter().enumerate() {
        let raw = obj(pairs);
        let entry = override_to_entry(3 + i as u32, &raw);
        let update = entry_to_update(&entry, &nets).expect("exported entry applies");
        let JsonValue::Object(before) = raw else { unreachable!() };
        let mut after = clone_members(&before);
        apply_update(&mut after, &update);
        for key in keys {
            let b = member(&before, key);
            let a = member(&after, key);
            let empty_list = JsonValue::Array(vec![]);
            if key == "tagged_networkconf_ids" && b.is_none() {
                assert!(a.is_none() || a == Some(&empty_list), "{key}");
            } else {
                assert_eq!(a, b, "{key}");
            }
        }
    }
}

#[test]
fn exporting_then_applying_a_device_keeps_every_port() {
    let nets = vec![
        obj(vec![("_id", s("n1")), ("name", s("infra")), ("vlan", n(10))]),
        obj(vec![("_id", s("n2")), ("name", s("personal")), ("vlan", n(20))]),
    ];
    let overrides = vec![
        obj(vec![
            ("port_idx", n(7)),
            ("name", s("uplink")),
            ("op_mode", s("switch")),
            ("tagged_vlan_mgmt", s("custom")),
            ("tagged_networkconf_ids", JsonValue::Array(vec![s("n2")])),
            ("native_networkconf_id", s("n1")),
            ("poe_mode", s("off")),
            ("autoneg", JsonValue::Bool(false)),
            ("speed", s("2500")),
        ]),
        obj(vec![("note", s("no port"))]),
        obj(vec![("port_idx", n(2)), ("op_mode", s("mirror")), ("poe_mode", s("auto"))]),
    ];
    let request = export_port_entries(&overrides, &vec![], false);
    assert_eq!(request.ports.len(), 2);
    assert_eq!(request.ports[0].index, 2);
    let mut after: Vec<JsonValue> = overrides.iter().map(clone_value).collect();
    let summary = apply_port_entries(&mut after, &request, &nets).expect("export applies");
    assert_eq!(summary.applied, 2);
    assert_eq!(after.len(), overrides.len());
    let keys = ["port_idx", "name", "op_mode", "tagged_vlan_mgmt", "tagged_networkconf_ids", "native_networkconf_id", "poe_mode", "autoneg", "speed"];
    for (a, b) in after.iter().zip(overrides.iter()) {
        let (JsonValue::Object(am), JsonValue::Object(bm)) = (a, b) else { unreachable!() };
        for key in keys {
            assert_eq!(member(am, key), member(bm, key), "{key}");
        }
    }
}
