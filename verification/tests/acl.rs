use unifly_api::json::JsonValue;
use unifly_api::model::entity::EntityId;
use unifly_api::payloads::acl::{build_acl_filter_value, merge_acl_filter_value};

fn field<'a>(v: &'a JsonValue, key: &str) -> Option<&'a JsonValue> {
    match v {
        JsonValue::Object(m) => m.iter().find(|(k, _)| k == key).map(|(_, v)| v),
        _ => None,
    }
}

#[test]
fn acl_filter_holds_zone_port_and_protocol() {
    let zone = EntityId::Legacy("zone-1".into());
    let v = build_acl_filter_value(&zone, Some("443"), None);
    assert_eq!(field(&v, "zoneId"), Some(&JsonValue::Str("zone-1".into())));
    assert_eq!(field(&v, "port"), Some(&JsonValue::Str("443".into())));
    assert!(field(&v, "protocol").is_none());
}

#[test]
fn acl_filter_merge_keeps_existing_members() {
    let existing = JsonValue::Object(vec![("zoneId".into(), JsonValue::Str("old".into())), ("x".into(), JsonValue::UInt(1))]);
    let v = merge_acl_filter_value(Some(existing), None, None, Some("tcp")).expect("non-empty");
    assert_eq!(field(&v, "zoneId"), Some(&JsonValue::Str("old".into())));
    assert_eq!(field(&v, "x"), Some(&JsonValue::UInt(1)));
    assert_eq!(field(&v, "protocol"), Some(&JsonValue::Str("tcp".into())));
    assert_eq!(merge_acl_filter_value(None, None, None, None), None);
    assert_eq!(merge_acl_filter_value(Some(JsonValue::Bool(true)), None, None, None), None);
}
