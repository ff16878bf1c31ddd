use unifly_api::model::entity::EntityId;
use unifly_api::model::firewall::FirewallAction;
use unifly_api::requests::policy::{
    default_acl_rule_type, CreateFirewallPolicyRequest, PortSpec, TrafficFilterSpec, TrafficFilterSpecWire,
    UpdateFirewallPolicyRequest,
};

fn request(name: &str, action: FirewallAction, src: &str, dst: &str) -> CreateFirewallPolicyRequest {
    CreateFirewallPolicyRequest {
        name: name.into(),
        action,
        source_zone_id: EntityId::from_text(src.into()),
        destination_zone_id: EntityId::from_text(dst.into()),
        enabled: true,
        logging_enabled: false,
        allow_return_traffic: true,
        description: None,
        ip_version: None,
        connection_states: None,
        source_filter: None,
        destination_filter: None,
        src_network: None,
        src_ip: None,
        src_port: None,
        dst_network: None,
        dst_ip: None,
        dst_port: None,
    }
}

fn strings(items: &[&str]) -> Vec<String> {
    items.iter().map(|s| s.to_string()).collect()
}

#[test]
fn resolve_filters_combines_dst_ip_and_dst_port() {
    let mut req = request(
        "Allow Awair",
        FirewallAction::Allow,
        "d2864b8e-56fb-4945-b69f-6d424fa5b248",
        "5888bc93-aaae-4242-ae2f-2050d76211fd",
    );
    req.dst_ip = Some(strings(&["10.0.40.10"]));
    req.dst_port = Some(strings(&["80"]));
    req.resolve_filters().expect("ip + port should be allowed");
    match &req.destination_filter {
        Some(TrafficFilterSpec::IpAddress { addresses, ports, .. }) => {
            assert_eq!(addresses, &["10.0.40.10"]);
            let Some(PortSpec::Values { items, .. }) = ports else { panic!("expected PortSpec::Values, got {ports:?}") };
            assert_eq!(items, &["80"]);
        }
        other => panic!("expected IpAddress filter with ports, got {other:?}"),
    }
}

#[test]
fn resolve_filters_rejects_network_plus_ip() {
    let mut req = request("Conflict", FirewallAction::Block, "aaa", "bbb");
    req.dst_network = Some(strings(&["net-uuid"]));
    req.dst_ip = Some(strings(&["10.0.0.1"]));
    assert!(req.resolve_filters().is_err());
}

#[test]
fn resolve_filters_converts_dst_ip_only() {
    let mut req = request("Allow Awair", FirewallAction::Allow, "aaa", "bbb");
    req.dst_ip = Some(strings(&["10.0.40.10"]));
    req.resolve_filters().expect("should resolve");
    match &req.destination_filter {
        Some(TrafficFilterSpec::IpAddress { addresses, .. }) => assert_eq!(addresses, &["10.0.40.10"]),
        other => panic!("expected IpAddress filter, got {other:?}"),
    }
}

#[test]
fn resolve_filters_rejects_shorthand_plus_full_filter() {
    let mut req = request("Conflict", FirewallAction::Block, "aaa", "bbb");
    req.dst_ip = Some(strings(&["10.0.0.1"]));
    req.destination_filter = Some(TrafficFilterSpec::from_wire(TrafficFilterSpecWire::IpAddress {
        addresses: strings(&["10.0.0.2"]),
        match_opposite: false,
        ports: None,
    }));
    let err = req.resolve_filters().expect_err("should conflict");
    assert!(err.contains("cannot combine"), "got: {err}");
}

#[test]
fn resolve_filters_update_request_works() {
    let mut req = UpdateFirewallPolicyRequest { dst_port: Some(strings(&["443", "8443"])), ..Default::default() };
    req.resolve_filters().expect("should resolve");
    let Some(TrafficFilterSpec::Port { ports: PortSpec::Values { items, .. } }) = &req.destination_filter else {
        panic!("expected Port filter with values, got {:?}", req.destination_filter)
    };
    assert_eq!(items, &["443", "8443"]);
}

#[test]
fn destination_filter_accepts_legacy_port_variant_shape() {
    let mut req = request(
        "Block port 80",
        FirewallAction::Block,
        "d2864b8e-56fb-4945-b69f-6d424fa5b248",
        "5888bc93-aaae-4242-ae2f-2050d76211fd",
    );
    req.destination_filter = Some(TrafficFilterSpec::from_wire(TrafficFilterSpecWire::Port {
        ports: PortSpec::Values { items: strings(&["80"]), match_opposite: false },
        match_opposite: true,
    }));
    let Some(TrafficFilterSpec::Port { ports: PortSpec::Values { items, match_opposite } }) = &req.destination_filter
    else {
        panic!("expected Port with PortSpec::Values, got {:?}", req.destination_filter)
    };
    assert_eq!(items, &["80"]);
    assert!(*match_opposite);
}

#[test]
fn destination_filter_accepts_ip_address_with_port_matching_list() {
    let mut req = request(
        "Apple Companion Link",
        FirewallAction::Allow,
        "d2864b8e-56fb-4945-b69f-6d424fa5b248",
        "5888bc93-aaae-4242-ae2f-2050d76211fd",
    );
    req.destination_filter = Some(TrafficFilterSpec::from_wire(TrafficFilterSpecWire::IpAddress {
        addresses: strings(&["10.0.10.2", "10.0.10.4"]),
        match_opposite: false,
        ports: Some(PortSpec::MatchingList {
            list_id: "24740a56-9cb9-4890-a5ac-589d30914a55".into(),
            match_opposite: false,
        }),
    }));
    req.resolve_filters().expect("no shorthand, no-op");
    let Some(TrafficFilterSpec::IpAddress { addresses, ports: Some(PortSpec::MatchingList { list_id, .. }), .. }) =
        &req.destination_filter
    else {
        panic!("expected IpAddress with PortSpec::MatchingList, got {:?}", req.destination_filter)
    };
    assert_eq!(addresses, &["10.0.10.2", "10.0.10.4"]);
    assert_eq!(list_id, "24740a56-9cb9-4890-a5ac-589d30914a55");
}

#[test]
fn create_acl_rule_request_defaults_rule_type() {
    assert_eq!(default_acl_rule_type(), "IP");
}

#[test]
fn resolve_filters_src_network_with_ports_nests_ports() {
    let mut req = request("Net", FirewallAction::Allow, "aaa", "bbb");
    req.src_network = Some(strings(&["n1", "n2"]));
    req.src_port = Some(strings(&["22"]));
    req.resolve_filters().expect("network + port should be allowed");
    match &req.source_filter {
        Some(TrafficFilterSpec::Network { network_ids, match_opposite, ports }) => {
            assert_eq!(network_ids, &["n1", "n2"]);
            assert!(!match_opposite);
            assert_eq!(ports, &Some(PortSpec::Values { items: strings(&["22"]), match_opposite: false }));
        }
        other => panic!("expected Network filter, got {other:?}"),
    }
    assert!(req.destination_filter.is_none());
}

#[test]
fn resolve_filters_without_shorthand_changes_nothing() {
    let mut req = request("Plain", FirewallAction::Allow, "aaa", "bbb");
    let before = req.clone();
    req.resolve_filters().expect("nothing to resolve");
    assert_eq!(req, before);
}
