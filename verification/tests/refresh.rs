use unifly_api::json::JsonValue;
use unifly_api::net::{IpAddress, Ipv4};
use unifly_api::refresh::{
    merge_session_clients, merge_session_devices, unseen_events, ClientRecord, DeviceRecord, EventRecord,
    SessionClientRecord, SessionDeviceRecord, SessionUserRecord,
};

fn v4(a: u8, b: u8, c: u8, d: u8) -> IpAddress {
    IpAddress::V4(Ipv4 { a, b, c, d })
}

fn client(mac: &str, ip: Option<IpAddress>) -> ClientRecord {
    ClientRecord {
        mac: mac.to_string(),
        ip,
        hostname: None,
        tx_bytes: None,
        rx_bytes: None,
        uplink_device_mac: None,
        use_fixedip: false,
        fixed_ip: None,
    }
}

fn session_client(mac: &str, ip: &str, tx: i64, rx: i64, wired: Option<bool>) -> SessionClientRecord {
    SessionClientRecord {
        mac: mac.to_string(),
        ip: Some(ip.to_string()),
        hostname: Some(format!("host-{mac}")),
        tx_bytes: Some(tx),
        rx_bytes: Some(rx),
        is_wired: wired,
        sw_mac: Some("sw:00".to_string()),
        ap_mac: Some("ap:00".to_string()),
    }
}

fn user(mac: &str, fixed: Option<bool>, ip: Option<&str>) -> SessionUserRecord {
    SessionUserRecord { mac: mac.to_string(), use_fixedip: fixed, fixed_ip: ip.map(|s| s.to_string()) }
}

fn event(key: &str) -> EventRecord {
    EventRecord { key: key.to_string(), event_type: "EVT_X".to_string(), message: format!("message {key}") }
}

#[test]
fn clients_take_traffic_from_the_session_client_with_their_ip() {
    let clients = vec![client("aa:01", Some(v4(10, 0, 0, 5))), client("aa:02", None)];
    let session = vec![session_client("aa:01", "10.0.0.5", 100, 200, Some(false))];
    let merged = merge_session_clients(clients, &session, &vec![]);
    assert_eq!(merged.len(), 2);
    assert_eq!(merged[0].tx_bytes, Some(100));
    assert_eq!(merged[0].rx_bytes, Some(200));
    assert_eq!(merged[0].hostname.as_deref(), Some("host-aa:01"));
    assert_eq!(merged[0].uplink_device_mac.as_deref(), Some("ap:00"));
    assert_eq!(merged[1], client("aa:02", None));
}

#[test]
fn wired_or_unflagged_session_clients_give_the_switch_as_uplink() {
    let clients = vec![client("aa:01", Some(v4(10, 0, 0, 5))), client("aa:02", Some(v4(10, 0, 0, 6)))];
    let session = vec![
        session_client("aa:01", "10.0.0.5", 1, 2, Some(true)),
        session_client("aa:02", "10.0.0.6", 1, 2, None),
    ];
    let merged = merge_session_clients(clients, &session, &vec![]);
    assert_eq!(merged[0].uplink_device_mac.as_deref(), Some("sw:00"));
    assert_eq!(merged[1].uplink_device_mac.as_deref(), Some("sw:00"));
}

#[test]
fn the_last_session_client_with_an_ip_wins_and_known_fields_stay() {
    let mut c = client("aa:01", Some(v4(10, 0, 0, 5)));
    c.tx_bytes = Some(7);
    c.hostname = Some("kept".to_string());
    let session = vec![
        session_client("x1", "10.0.0.5", 100, 200, Some(true)),
        session_client("x2", "10.0.0.5", 300, 400, Some(true)),
    ];
    let merged = merge_session_clients(vec![c], &session, &vec![]);
    assert_eq!(merged[0].tx_bytes, Some(7));
    assert_eq!(merged[0].rx_bytes, Some(400));
    assert_eq!(merged[0].hostname.as_deref(), Some("kept"));
}

#[test]
fn negative_session_counters_are_dropped() {
    let session = vec![session_client("aa:01", "10.0.0.5", -1, 5, Some(true))];
    let merged = merge_session_clients(vec![client("aa:01", Some(v4(10, 0, 0, 5)))], &session, &vec![]);
    assert_eq!(merged[0].tx_bytes, None);
    assert_eq!(merged[0].rx_bytes, Some(5));
}

#[test]
fn reservations_come_from_the_user_with_the_lowercased_mac() {
    let users = vec![user("AA:BB:CC:00:00:01", Some(true), Some("10.0.0.50"))];
    let merged = merge_session_clients(vec![client("aa:bb:cc:00:00:01", None)], &vec![], &users);
    assert!(merged[0].use_fixedip);
    assert_eq!(merged[0].fixed_ip, Some(v4(10, 0, 0, 50)));
}

#[test]
fn reservations_fall_back_to_the_mac_of_the_session_client_with_the_ip() {
    let session = vec![session_client("bb:00", "10.0.0.5", 1, 1, Some(true))];
    let users = vec![user("BB:00", Some(false), Some("not an ip"))];
    let mut c = client("aa:00", Some(v4(10, 0, 0, 5)));
    c.use_fixedip = true;
    c.fixed_ip = Some(v4(1, 1, 1, 1));
    let merged = merge_session_clients(vec![c], &session, &users);
    assert!(!merged[0].use_fixedip);
    assert_eq!(merged[0].fixed_ip, None);
}

#[test]
fn clients_without_a_user_keep_their_reservation() {
    let mut c = client("aa:00", None);
    c.use_fixedip = true;
    c.fixed_ip = Some(v4(1, 1, 1, 1));
    let merged = merge_session_clients(vec![c], &vec![], &vec![user("cc:00", Some(true), None)]);
    assert!(merged[0].use_fixedip);
    assert_eq!(merged[0].fixed_ip, Some(v4(1, 1, 1, 1)));
}

fn port_row(idx: u64, name: &str) -> JsonValue {
    JsonValue::Object(vec![
        ("port_idx".to_string(), JsonValue::UInt(idx)),
        ("name".to_string(), JsonValue::Str(name.to_string())),
    ])
}

fn device(mac: &str) -> DeviceRecord {
    DeviceRecord { mac: mac.to_string(), client_count: None, wan_ipv6: None, ports: vec![] }
}

#[test]
fn devices_take_station_count_ipv6_and_ports_from_the_session_device() {
    let extra = vec![
        ("ipv6".to_string(), JsonValue::Str("2001:db8::5".to_string())),
        ("port_table".to_string(), JsonValue::Array(vec![port_row(1, "Port 1"), port_row(2, "Port 2")])),
    ];
    let session = vec![SessionDeviceRecord { mac: "dd:01".to_string(), num_sta: Some(12), extra }];
    let merged = merge_session_devices(vec![device("dd:01"), device("dd:02")], &session);
    assert_eq!(merged.len(), 2);
    assert_eq!(merged[0].client_count, Some(12));
    assert_eq!(merged[0].wan_ipv6.as_deref(), Some("2001:db8::5"));
    assert_eq!(merged[0].ports.len(), 2);
    assert_eq!(merged[0].ports[1].index, 2);
    assert_eq!(merged[1], device("dd:02"));
}

#[test]
fn devices_keep_what_they_have() {
    let mut d = device("dd:01");
    d.client_count = Some(3);
    d.wan_ipv6 = Some("2001:db8::1".to_string());
    let session = vec![SessionDeviceRecord { mac: "dd:01".to_string(), num_sta: Some(-4), extra: vec![] }];
    let merged = merge_session_devices(vec![d], &session);
    assert_eq!(merged[0].client_count, Some(3));
    assert_eq!(merged[0].wan_ipv6.as_deref(), Some("2001:db8::1"));
    assert!(merged[0].ports.is_empty());
}

#[test]
fn negative_station_counts_are_dropped() {
    let session = vec![SessionDeviceRecord { mac: "dd:01".to_string(), num_sta: Some(-4), extra: vec![] }];
    let merged = merge_session_devices(vec![device("dd:01")], &session);
    assert_eq!(merged[0].client_count, None);
}

#[test]
fn unseen_events_skip_stored_keys_and_repeats() {
    let seen = vec!["k1".to_string()];
    let events = vec![event("k1"), event("k2"), event("k3"), event("k2")];
    let fresh = unseen_events(&seen, &events);
    assert_eq!(fresh, vec![event("k2"), event("k3")]);
}

#[test]
fn unseen_events_of_an_empty_batch_are_none() {
    assert!(unseen_events(&vec!["k".to_string()], &vec![]).is_empty());
    assert_eq!(unseen_events(&vec![], &vec![event("a")]), vec![event("a")]);
}
