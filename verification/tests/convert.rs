use unifly_api::convert::device::{infer_device_type, infer_device_type_integration, map_device_state};
use unifly_api::convert::event::map_event_category;
use unifly_api::model::device::{DeviceState, DeviceType};
use unifly_api::model::event::EventCategory;

#[test]
fn device_type_from_legacy_type_field() {
    assert_eq!(infer_device_type("uap", None), DeviceType::AccessPoint);
    assert_eq!(infer_device_type("usw", None), DeviceType::Switch);
    assert_eq!(infer_device_type("ugw", None), DeviceType::Gateway);
    assert_eq!(infer_device_type("udm", None), DeviceType::Gateway);
}

#[test]
fn device_type_from_model_fallback() {
    assert_eq!(infer_device_type("unknown", Some(&"UAP-AC-Pro".into())), DeviceType::AccessPoint);
    assert_eq!(infer_device_type("unknown", Some(&"U6-LR".into())), DeviceType::AccessPoint);
    assert_eq!(infer_device_type("unknown", Some(&"USW-24-PoE".into())), DeviceType::Switch);
    assert_eq!(infer_device_type("unknown", Some(&"UDM-Pro".into())), DeviceType::Gateway);
    assert_eq!(infer_device_type("unknown", Some(&"UCG-Max".into())), DeviceType::Gateway);
}

#[test]
fn integration_device_type_gateway_by_model() {
    assert_eq!(infer_device_type_integration(&["switching".into()], "UCG-Max"), DeviceType::Gateway);
    assert_eq!(
        infer_device_type_integration(&["switching".into(), "routing".into()], "UDM-Pro"),
        DeviceType::Gateway
    );
}

#[test]
fn device_state_mapping() {
    assert_eq!(map_device_state(0), DeviceState::Offline);
    assert_eq!(map_device_state(1), DeviceState::Online);
    assert_eq!(map_device_state(2), DeviceState::PendingAdoption);
    assert_eq!(map_device_state(4), DeviceState::Updating);
    assert_eq!(map_device_state(5), DeviceState::GettingReady);
    assert_eq!(map_device_state(99), DeviceState::Unknown);
}

#[test]
fn event_category_mapping() {
    assert_eq!(map_event_category(Some(&"wlan".into())), EventCategory::Network);
    assert_eq!(map_event_category(Some(&"device".into())), EventCategory::Device);
    assert_eq!(map_event_category(Some(&"admin".into())), EventCategory::Admin);
    assert_eq!(map_event_category(None), EventCategory::Unknown);
}

#[test]
fn model_inference_ignores_ascii_case() {
    for model in ["usw-lite-8", "USW-Lite-8", "uSw-LITE-8"] {
        assert_eq!(infer_device_type("other", Some(&model.to_string())), DeviceType::Switch);
    }
    assert_eq!(infer_device_type("usw", Some(&"uap-ac".to_string())), DeviceType::Switch);
    assert_eq!(infer_device_type("other", None), DeviceType::Other);
}
