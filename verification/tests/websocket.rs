use unifly_api::json::JsonValue;
use unifly_api::model::event::{EventCategory, EventSeverity};
use unifly_api::websocket::{replace_text, websocket_target, websocket_url, ws_event_fields, ws_route, WsRoute};

fn obj(pairs: Vec<(&str, JsonValue)>) -> JsonValue {
    JsonValue::Object(pairs.into_iter().map(|(k, v)| (k.to_string(), v)).collect())
}

fn s(x: &str) -> JsonValue {
    JsonValue::Str(x.to_string())
}

#[test]
fn messages_route_by_key() {
    assert_eq!(ws_route("device:sync"), WsRoute { sync_device: true, announce_event: false });
    assert_eq!(ws_route("device:update"), WsRoute { sync_device: true, announce_event: false });
    assert_eq!(ws_route("EVT_SW_Lost_Contact"), WsRoute { sync_device: false, announce_event: true });
    assert_eq!(ws_route("evt_lower"), WsRoute { sync_device: false, announce_event: false });
    assert_eq!(ws_route("EVT"), WsRoute { sync_device: false, announce_event: false });
}

#[test]
fn websocket_url_follows_the_controller_url() {
    let path = "/proxy/network/wss/s/{site}/events";
    assert_eq!(
        websocket_url(true, Some("192.168.1.1"), None, path, "default"),
        "wss://192.168.1.1/proxy/network/wss/s/default/events"
    );
    assert_eq!(
        websocket_url(false, None, Some(8443), "/wss/s/{site}/events?{site}", "b"),
        "ws://localhost:8443/wss/s/b/events?b"
    );
    assert_eq!(replace_text("{site}{site}x{sit", "{site}", "s"), "ssx{sit");
}

#[test]
fn websocket_target_requires_a_valid_url() {
    assert_eq!(
        websocket_target(true, Some("unifi.local"), Some(443), "/wss/{site}", "default").as_deref(),
        Some("wss://unifi.local:443/wss/default")
    );
    assert_eq!(websocket_target(true, Some("bad host"), None, "/wss/{site}", "default"), None);
}

#[test]
fn websocket_events_take_macs_site_and_message() {
    let extra = obj(vec![
        ("sw", s("aa:bb")),
        ("ap", s("cc:dd")),
        ("sta", s("11:22")),
        ("port", JsonValue::UInt(4)),
    ]);
    let f = ws_event_fields("EVT_SW_Lost_Contact", &"device".to_string(), "", "Switch lost on {port}", &extra);
    assert_eq!(f.category, EventCategory::Device);
    assert_eq!(f.severity, EventSeverity::Warning);
    assert_eq!(f.event_type, "EVT_SW_Lost_Contact");
    assert_eq!(f.message, "Switch lost on port");
    assert_eq!(f.device_mac.as_deref(), Some("aa:bb"));
    assert_eq!(f.client_mac.as_deref(), Some("11:22"));
    assert_eq!(f.site_id, None);

    let extra = obj(vec![("mac", JsonValue::UInt(1)), ("sw", s("aa:bb")), ("user", s("u1")), ("sta", s("s1"))]);
    let f = ws_event_fields("EVT_AP_Error", &"wlan".to_string(), "site-1", "", &extra);
    assert_eq!(f.category, EventCategory::Network);
    assert_eq!(f.severity, EventSeverity::Error);
    assert_eq!(f.device_mac, None);
    assert_eq!(f.client_mac.as_deref(), Some("u1"));
    assert_eq!(f.site_id.as_deref(), Some("site-1"));
}
