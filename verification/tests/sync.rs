use unifly_api::json::JsonValue;
use unifly_api::model::device::Bandwidth;
use unifly_api::sync::{sync_device_fields, DeviceSyncFields};

fn obj(pairs: Vec<(&str, JsonValue)>) -> JsonValue {
    JsonValue::Object(pairs.into_iter().map(|(k, v)| (k.to_string(), v)).collect())
}

fn stored() -> DeviceSyncFields {
    DeviceSyncFields {
        uplink_bandwidth: Some(Bandwidth { tx_bytes_per_sec: 1, rx_bytes_per_sec: 2 }),
        uptime_secs: Some(50),
        client_count: Some(3),
        wan_ipv6: Some("2001:db8::1".to_string()),
    }
}

#[test]
fn device_sync_takes_the_uplink_rates_uptime_and_station_count() {
    let data = obj(vec![
        ("uplink", obj(vec![("tx_bytes-r", JsonValue::UInt(1000)), ("rx_bytes_r", JsonValue::UInt(2000))])),
        ("_uptime", JsonValue::UInt(3600)),
        ("uptime", JsonValue::UInt(1)),
        ("num_sta", JsonValue::UInt(17)),
        ("ipv6", JsonValue::Str("2001:db8::9".to_string())),
    ]);
    let r = sync_device_fields(&data, stored());
    assert_eq!(r.uplink_bandwidth, Some(Bandwidth { tx_bytes_per_sec: 1000, rx_bytes_per_sec: 2000 }));
    assert_eq!(r.uptime_secs, Some(3600));
    assert_eq!(r.client_count, Some(17));
    assert_eq!(r.wan_ipv6.as_deref(), Some("2001:db8::9"));
}

#[test]
fn device_sync_falls_back_to_top_level_rates() {
    let data = obj(vec![("tx_bytes-r", JsonValue::UInt(0)), ("rx_bytes-r", JsonValue::UInt(5))]);
    let r = sync_device_fields(&data, stored());
    assert_eq!(r.uplink_bandwidth, Some(Bandwidth { tx_bytes_per_sec: 0, rx_bytes_per_sec: 5 }));
}

#[test]
fn device_sync_keeps_stored_values_without_usable_fields() {
    let data = obj(vec![
        ("tx_bytes-r", JsonValue::UInt(0)),
        ("rx_bytes-r", JsonValue::UInt(0)),
        ("_uptime", JsonValue::NegInt(-5)),
        ("uptime", JsonValue::UInt(99)),
    ]);
    assert_eq!(sync_device_fields(&data, stored()), stored());
    assert_eq!(sync_device_fields(&JsonValue::Null, stored()), stored());
}

#[test]
fn device_sync_cuts_station_counts_to_32_bits() {
    let data = obj(vec![("num_sta", JsonValue::UInt((1u64 << 32) + 7))]);
    assert_eq!(sync_device_fields(&data, stored()).client_count, Some(7));
}
