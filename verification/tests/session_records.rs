use unifly_api::convert::session_client::{client_from_session, ClientType, SessionClientInput};
use unifly_api::convert::session_device::{device_from_session, SessionDeviceInput};
use unifly_api::json::JsonValue;
use unifly_api::model::device::{DeviceState, DeviceType};
use unifly_api::model::entity::EntityId;
use unifly_api::net::{IpAddress, Ipv4};

fn client(wired: Option<bool>, sw_port: Option<i64>) -> SessionClientInput {
    SessionClientInput {
        id: "abc".into(),
        mac: "aa:bb:cc:dd:ee:ff".into(),
        ip: None,
        name: None,
        hostname: None,
        is_wired: wired,
        is_guest: None,
        authorized: None,
        sw_mac: Some("11:22:33:44:55:66".into()),
        ap_mac: None,
        sw_port,
        network_id: None,
        tx_bytes: None,
        rx_bytes: None,
        blocked: None,
    }
}

#[test]
fn wired_session_client_carries_switch_port() {
    let c = client_from_session(client(Some(true), Some(9)));
    assert_eq!(c.switch_port, Some(9));
    assert_eq!(c.client_type, ClientType::Wired);
    assert_eq!(c.uplink_device_mac.as_deref(), Some("11:22:33:44:55:66"));
}

#[test]
fn wireless_session_client_drops_switch_port() {
    let c = client_from_session(client(Some(false), Some(9)));
    assert!(c.switch_port.is_none());
    assert_eq!(c.client_type, ClientType::Wireless);
    assert_eq!(c.uplink_device_mac, None);
}

#[test]
fn session_clients_default_to_wireless_and_carry_guest_counters() {
    let mut r = client(None, Some(3));
    r.is_guest = Some(true);
    r.authorized = Some(true);
    r.tx_bytes = Some(10);
    r.rx_bytes = Some(-1);
    r.ip = Some("10.0.0.9".into());
    r.blocked = Some(true);
    let c = client_from_session(r);
    assert_eq!(c.client_type, ClientType::Wireless);
    assert_eq!(c.switch_port, None);
    let guest = c.guest_auth.expect("guest");
    assert!(guest.authorized);
    assert_eq!((guest.tx_bytes, guest.rx_bytes), (Some(10), None));
    assert_eq!(c.ip, Some(IpAddress::V4(Ipv4 { a: 10, b: 0, c: 0, d: 9 })));
    assert!(c.blocked);
    assert_eq!(c.id, EntityId::Legacy("abc".into()));
}

#[test]
fn session_devices_are_typed_and_counted() {
    let d = device_from_session(SessionDeviceInput {
        id: String::new(),
        mac: "fc:ec:da:00:00:01".into(),
        ip: Some("192.168.1.2".into()),
        name: Some("Core".into()),
        model: Some("USW-24".into()),
        device_type: "usw".into(),
        state: 1,
        version: Some("7.0.1".into()),
        upgradable: Some(true),
        serial: None,
        uptime: Some(-5),
        num_sta: Some(12),
        extra: vec![(
            "port_table".to_string(),
            JsonValue::Array(vec![JsonValue::Object(vec![("port_idx".to_string(), JsonValue::UInt(1))])]),
        )],
    });
    assert_eq!(d.id, EntityId::Legacy("fc:ec:da:00:00:01".into()));
    assert_eq!(d.device_type, DeviceType::Switch);
    assert_eq!(d.state, DeviceState::Online);
    assert!(d.has_switching && !d.has_access_point);
    assert!(d.firmware_updatable);
    assert_eq!(d.uptime_secs, None);
    assert_eq!(d.client_count, Some(12));
    assert_eq!(d.ports.len(), 1);
    assert_eq!(d.ip, Some(IpAddress::V4(Ipv4 { a: 192, b: 168, c: 1, d: 2 })));
}
