//! JSON bodies of network and WiFi broadcast calls.
use vstd::prelude::*;

use crate::convert::network::{ipv4_at, network_described, opt_text};
use crate::error::{CoreError, ErrorView};
use crate::integration::{NetworkCreateUpdate, NetworkDetailsResponse};
use crate::json::{clone_members, clone_value, jview_members, lemma_jview_members, mget, obj_delete, obj_lookup, obj_set, JView, JsonValue};
use crate::model::entity::uuid_text;
use crate::model::network::{Network, NetworkManagement, NetworkPurpose, WifiSecurityMode};
use crate::net::{ipv4_text, lemma_ipv4_text_round_trip, parse_ipv4_cidr, spec_parse_ipv4_cidr, Ipv4};
use crate::requests::network::{CreateNetworkRequest, UpdateNetworkRequest};
use crate::text::{decimal, is_empty_text, opt_view, owned};

verus! {

/// Wire name of a WiFi security mode.
pub open spec fn spec_wifi_security_mode_name(mode: WifiSecurityMode) -> Seq<char> {
    match mode {
        WifiSecurityMode::Open => "OPEN"@,
        WifiSecurityMode::Wpa2Personal => "WPA2_PERSONAL"@,
        WifiSecurityMode::Wpa3Personal => "WPA3_PERSONAL"@,
        WifiSecurityMode::Wpa2Wpa3Personal => "WPA2_WPA3_PERSONAL"@,
        WifiSecurityMode::Wpa2Enterprise => "WPA2_ENTERPRISE"@,
        WifiSecurityMode::Wpa3Enterprise => "WPA3_ENTERPRISE"@,
        WifiSecurityMode::Wpa2Wpa3Enterprise => "WPA2_WPA3_ENTERPRISE"@,
    }
}

/// Wire name of a WiFi security mode.
pub fn wifi_security_mode_name(mode: WifiSecurityMode) -> (res: &'static str)
    ensures
        res@ == spec_wifi_security_mode_name(mode),
{
    match mode {
        WifiSecurityMode::Open => "OPEN",
        WifiSecurityMode::Wpa2Personal => "WPA2_PERSONAL",
        WifiSecurityMode::Wpa3Personal => "WPA3_PERSONAL",
        WifiSecurityMode::Wpa2Wpa3Personal => "WPA2_WPA3_PERSONAL",
        WifiSecurityMode::Wpa2Enterprise => "WPA2_ENTERPRISE",
        WifiSecurityMode::Wpa3Enterprise => "WPA3_ENTERPRISE",
        WifiSecurityMode::Wpa2Wpa3Enterprise => "WPA2_WPA3_ENTERPRISE",
    }
}

/// Name of a broadcast: its name, or its SSID when the name is empty.
pub fn wifi_payload_name(name: &str, ssid: &str) -> (res: String)
    ensures
        res@ == if name@.len() == 0 { ssid@ } else { name@ },
{
    if is_empty_text(name) {
        owned(ssid)
    } else {
        owned(name)
    }
}

/// Wire name of a network management.
pub open spec fn management_name(m: NetworkManagement) -> Seq<char> {
    match m {
        NetworkManagement::Gateway => "GATEWAY"@,
        NetworkManagement::Switch => "SWITCH"@,
        NetworkManagement::Unmanaged => "UNMANAGED"@,
    }
}

/// Management of a new network: as asked, otherwise unmanaged for a VLAN-only
/// network, gateway-managed when a purpose, subnet or DHCP is given, else
/// unmanaged.
pub open spec fn create_management(req: CreateNetworkRequest) -> NetworkManagement {
    match req.management {
        Some(m) => m,
        None => if req.purpose == Some(NetworkPurpose::VlanOnly) {
            NetworkManagement::Unmanaged
        } else if req.purpose is Some || req.subnet is Some || req.dhcp_enabled {
            NetworkManagement::Gateway
        } else {
            NetworkManagement::Unmanaged
        },
    }
}

/// DHCP configuration of a new gateway network.
pub open spec fn dhcp_configuration(req: CreateNetworkRequest) -> JView {
    let mode = seq![("mode"@, JView::Str(if req.dhcp_enabled { "SERVER"@ } else { "NONE"@ }))];
    let lease = match req.dhcp_lease_time {
        Some(l) => mode.push(("leaseTimeSeconds"@, JView::UInt(l as u64))),
        None => mode,
    };
    match (req.dhcp_range_start, req.dhcp_range_stop) {
        (Some(a), Some(b)) => JView::Object(
            lease.push(("ipAddressRange"@, JView::Object(seq![("start"@, JView::Str(a@)), ("end"@, JView::Str(b@))]))),
        ),
        _ => JView::Object(lease),
    }
}

/// IPv4 configuration of a new gateway network with host `ip` and prefix `p`.
pub open spec fn ipv4_configuration(req: CreateNetworkRequest, ip: Ipv4, p: u8) -> JView {
    JView::Object(
        seq![
            ("hostIpAddress"@, JView::Str(ipv4_text(ip))),
            ("prefixLength"@, JView::UInt(p as u64)),
            ("dhcpConfiguration"@, dhcp_configuration(req)),
        ],
    )
}

/// The problem with a new network's subnet, if any.
pub open spec fn create_error(req: CreateNetworkRequest) -> Option<ErrorView> {
    if create_management(req) == NetworkManagement::Gateway {
        match req.subnet {
            Some(c) => match spec_parse_ipv4_cidr(c@) {
                Err(e) => Some(e),
                Ok(_) => None,
            },
            None => None,
        }
    } else {
        None
    }
}

/// The extra fields of a new network.
pub open spec fn create_extra_member(req: CreateNetworkRequest, k: Seq<char>) -> Option<JView> {
    let gateway = create_management(req) == NetworkManagement::Gateway;
    if k == "zoneId"@ {
        match req.firewall_zone_id {
            Some(z) => Some(JView::Str(z@)),
            None => None,
        }
    } else if k == "isolationEnabled"@ && gateway {
        Some(JView::Bool(req.isolation_enabled))
    } else if k == "internetAccessEnabled"@ && gateway {
        Some(JView::Bool(req.internet_access_enabled))
    } else if k == "ipv4Configuration"@ && gateway {
        match req.subnet {
            Some(c) => match spec_parse_ipv4_cidr(c@) {
                Ok(hp) => Some(ipv4_configuration(req, hp.0, hp.1)),
                Err(_) => None,
            },
            None => None,
        }
    } else {
        None
    }
}

proof fn lemma_network_keys_distinct()
    ensures
        "zoneId"@ != "isolationEnabled"@,
        "zoneId"@ != "internetAccessEnabled"@,
        "zoneId"@ != "ipv4Configuration"@,
        "isolationEnabled"@ != "internetAccessEnabled"@,
        "isolationEnabled"@ != "ipv4Configuration"@,
        "internetAccessEnabled"@ != "ipv4Configuration"@,
        "isolationEnabled"@ != "mdnsForwardingEnabled"@,
        "internetAccessEnabled"@ != "mdnsForwardingEnabled"@,
        "isolationEnabled"@ != "ipv6Configuration"@,
        "internetAccessEnabled"@ != "ipv6Configuration"@,
        "mdnsForwardingEnabled"@ != "ipv6Configuration"@,
{
    reveal_strlit("zoneId");
    reveal_strlit("isolationEnabled");
    reveal_strlit("internetAccessEnabled");
    reveal_strlit("ipv4Configuration");
    reveal_strlit("mdnsForwardingEnabled");
    reveal_strlit("ipv6Configuration");
    assert("zoneId"@.len() == 6);
    assert("isolationEnabled"@.len() == 16);
    assert("internetAccessEnabled"@.len() == 21);
    assert("ipv4Configuration"@.len() == 17);
    assert("mdnsForwardingEnabled"@.len() == 21);
    assert("ipv6Configuration"@.len() == 17);
    assert("internetAccessEnabled"@[0] != "mdnsForwardingEnabled"@[0]);
    assert("ipv4Configuration"@[3] != "ipv6Configuration"@[3]);
}

fn text_member(key: &str, value: String) -> (res: (String, JsonValue))
    ensures
        res.0@ == key@,
        res.1@ == JView::Str(value@),
{
    (owned(key), JsonValue::Str(value))
}

fn dhcp_configuration_json(req: &CreateNetworkRequest) -> (res: JsonValue)
    ensures
        res@ == dhcp_configuration(*req),
{
    let mut members: Vec<(String, JsonValue)> = Vec::new();
    members.push(text_member("mode", owned(if req.dhcp_enabled { "SERVER" } else { "NONE" })));
    if let Some(l) = req.dhcp_lease_time {
        members.push((owned("leaseTimeSeconds"), JsonValue::UInt(l as u64)));
    }
    if let (Some(a), Some(b)) = (&req.dhcp_range_start, &req.dhcp_range_stop) {
        let range = vec![text_member("start", a.clone()), text_member("end", b.clone())];
        proof {
            lemma_jview_members(range@);
        }
        let range_v = JsonValue::Object(range);
        assert(range_v@ == JView::Object(seq![("start"@, JView::Str(a@)), ("end"@, JView::Str(b@))])) by {
            assert(jview_members(range@) =~= seq![("start"@, JView::Str(a@)), ("end"@, JView::Str(b@))]);
        }
        members.push((owned("ipAddressRange"), range_v));
    }
    proof {
        lemma_jview_members(members@);
    }
    let res = JsonValue::Object(members);
    assert(res@ == dhcp_configuration(*req)) by {
        assert(jview_members(members@) =~= dhcp_configuration(*req)->Object_0);
    }
    res
}

/// Builds the body of a network create call. A gateway-managed network gets
/// its isolation and internet flags and, with a subnet, its IPv4 and DHCP
/// configuration; fails when the subnet is no valid `a.b.c.d/n`.
pub fn create_network_body(req: &CreateNetworkRequest) -> (res: Result<NetworkCreateUpdate, CoreError>)
    ensures
        match create_error(*req) {
            Some(e) => res matches Err(x) && x@ == e,
            None => res matches Ok(body) && {
                &&& body.name == req.name
                &&& body.enabled == req.enabled
                &&& body.management@ == management_name(create_management(*req))
                &&& body.vlan_id == match req.vlan_id {
                    Some(v) => v as i32,
                    None => 1,
                }
                &&& body.dhcp_guarding is None
                &&& forall|k: Seq<char>| #[trigger] mget(jview_members(body.extra@), k) == create_extra_member(*req, k)
            },
        },
{
    proof {
        lemma_network_keys_distinct();
    }
    let management = match req.management {
        Some(m) => m,
        None => if req.purpose == Some(NetworkPurpose::VlanOnly) {
            NetworkManagement::Unmanaged
        } else if req.purpose.is_some() || req.subnet.is_some() || req.dhcp_enabled {
            NetworkManagement::Gateway
        } else {
            NetworkManagement::Unmanaged
        },
    };
    let mut extra: Vec<(String, JsonValue)> = Vec::new();
    if let Some(zone) = &req.firewall_zone_id {
        obj_set(&mut extra, owned("zoneId"), JsonValue::Str(zone.clone()));
    }
    let ghost e1 = jview_members(extra@);
    assert(forall|k: Seq<char>| #[trigger] mget(e1, k) == if k == "zoneId"@ {
        create_extra_member(*req, k)
    } else {
        None
    });
    if management == NetworkManagement::Gateway {
        obj_set(&mut extra, owned("isolationEnabled"), JsonValue::Bool(req.isolation_enabled));
        obj_set(&mut extra, owned("internetAccessEnabled"), JsonValue::Bool(req.internet_access_enabled));
        if let Some(cidr) = &req.subnet {
            let (host, prefix) = match parse_ipv4_cidr(cidr.as_str()) {
                Ok(hp) => hp,
                Err(e) => {
                    return Err(e);
                },
            };
            let dhcp = dhcp_configuration_json(req);
            let config = vec![
                text_member("hostIpAddress", host.to_text()),
                (owned("prefixLength"), JsonValue::UInt(prefix as u64)),
                (owned("dhcpConfiguration"), dhcp),
            ];
            proof {
                lemma_jview_members(config@);
            }
            let config_v = JsonValue::Object(config);
            assert(config_v@ == ipv4_configuration(*req, host, prefix)) by {
                assert(jview_members(config@) =~= ipv4_configuration(*req, host, prefix)->Object_0);
            }
            obj_set(&mut extra, owned("ipv4Configuration"), config_v);
        }
    }
    let management_text = match management {
        NetworkManagement::Gateway => owned("GATEWAY"),
        NetworkManagement::Switch => owned("SWITCH"),
        NetworkManagement::Unmanaged => owned("UNMANAGED"),
    };
    let vlan_id: i32 = match req.vlan_id {
        Some(v) => v as i32,
        None => 1,
    };
    Ok(NetworkCreateUpdate {
        name: req.name.clone(),
        enabled: req.enabled,
        management: management_text,
        vlan_id,
        dhcp_guarding: None,
        extra,
    })
}

/// The extra fields of an updated network: the flags the update sets,
/// IPv6 prefix delegation added when IPv6 is turned on without a
/// configuration, the IPv6 configuration dropped when it is turned off.
pub open spec fn update_extra_member(existing: Seq<(Seq<char>, JView)>, update: UpdateNetworkRequest, k: Seq<char>) -> Option<JView> {
    if k == "isolationEnabled"@ && update.isolation_enabled is Some {
        Some(JView::Bool(update.isolation_enabled->Some_0))
    } else if k == "internetAccessEnabled"@ && update.internet_access_enabled is Some {
        Some(JView::Bool(update.internet_access_enabled->Some_0))
    } else if k == "mdnsForwardingEnabled"@ && update.mdns_forwarding_enabled is Some {
        Some(JView::Bool(update.mdns_forwarding_enabled->Some_0))
    } else if k == "ipv6Configuration"@ {
        match update.ipv6_enabled {
            Some(true) => match mget(existing, k) {
                Some(v) => Some(v),
                None => Some(JView::Object(seq![("type"@, JView::Str("PREFIX_DELEGATION"@))])),
            },
            Some(false) => None,
            None => mget(existing, k),
        }
    } else {
        mget(existing, k)
    }
}

/// Builds the body of a network update call from the network as it is and
/// the update; unset fields keep the network's values.
pub fn update_network_body(existing: &NetworkDetailsResponse, update: &UpdateNetworkRequest) -> (body: NetworkCreateUpdate)
    ensures
        body.name@ == match update.name {
            Some(n) => n@,
            None => existing.name@,
        },
        body.enabled == match update.enabled {
            Some(e) => e,
            None => existing.enabled,
        },
        body.management@ == existing.management@,
        body.vlan_id == match update.vlan_id {
            Some(v) => v as i32,
            None => existing.vlan_id,
        },
        match (body.dhcp_guarding, existing.dhcp_guarding) {
            (Some(a), Some(b)) => a@ == b@,
            (None, None) => true,
            _ => false,
        },
        forall|k: Seq<char>| #[trigger] mget(jview_members(body.extra@), k) == update_extra_member(
            jview_members(existing.extra@),
            *update,
            k,
        ),
{
    proof {
        lemma_network_keys_distinct();
    }
    let mut extra = clone_members(&existing.extra);
    if let Some(v) = update.isolation_enabled {
        obj_set(&mut extra, owned("isolationEnabled"), JsonValue::Bool(v));
    }
    if let Some(v) = update.internet_access_enabled {
        obj_set(&mut extra, owned("internetAccessEnabled"), JsonValue::Bool(v));
    }
    if let Some(v) = update.mdns_forwarding_enabled {
        obj_set(&mut extra, owned("mdnsForwardingEnabled"), JsonValue::Bool(v));
    }
    if let Some(on) = update.ipv6_enabled {
        if on {
            if obj_lookup(&extra, "ipv6Configuration").is_none() {
                let members = vec![text_member("type", owned("PREFIX_DELEGATION"))];
                proof {
                    lemma_jview_members(members@);
                }
                let v = JsonValue::Object(members);
                assert(v@ == JView::Object(seq![("type"@, JView::Str("PREFIX_DELEGATION"@))])) by {
                    assert(jview_members(members@) =~= seq![("type"@, JView::Str("PREFIX_DELEGATION"@))]);
                }
                obj_set(&mut extra, owned("ipv6Configuration"), v);
            }
        } else {
            obj_delete(&mut extra, "ipv6Configuration");
        }
    }
    let dhcp_guarding = match &existing.dhcp_guarding {
        Some(g) => Some(clone_value(g)),
        None => None,
    };
    NetworkCreateUpdate {
        name: match &update.name {
            Some(n) => n.clone(),
            None => existing.name.clone(),
        },
        enabled: match update.enabled {
            Some(e) => e,
            None => existing.enabled,
        },
        management: existing.management.clone(),
        vlan_id: match update.vlan_id {
            Some(v) => v as i32,
            None => existing.vlan_id,
        },
        dhcp_guarding,
        extra,
    }
}

proof fn lemma_created_network_keys()
    ensures
        "deviceId"@ != "zoneId"@,
        "deviceId"@ != "isolationEnabled"@,
        "deviceId"@ != "internetAccessEnabled"@,
        "deviceId"@ != "ipv4Configuration"@,
        "zoneId"@ != "ipv4Configuration"@,
        "isolationEnabled"@ != "ipv4Configuration"@,
        "internetAccessEnabled"@ != "ipv4Configuration"@,
        "zoneId"@ != "isolationEnabled"@,
        "zoneId"@ != "internetAccessEnabled"@,
        "isolationEnabled"@ != "internetAccessEnabled"@,
        "hostIpAddress"@ != "prefixLength"@,
        "hostIpAddress"@ != "dhcpConfiguration"@,
        "prefixLength"@ != "dhcpConfiguration"@,
        "mode"@ != "leaseTimeSeconds"@,
        "mode"@ != "ipAddressRange"@,
        "leaseTimeSeconds"@ != "ipAddressRange"@,
        "start"@ != "end"@,
        "SERVER"@ != "NONE"@,
{
    lemma_network_keys_distinct();
    reveal_strlit("deviceId");
    reveal_strlit("zoneId");
    reveal_strlit("isolationEnabled");
    reveal_strlit("internetAccessEnabled");
    reveal_strlit("ipv4Configuration");
    reveal_strlit("hostIpAddress");
    reveal_strlit("prefixLength");
    reveal_strlit("dhcpConfiguration");
    reveal_strlit("mode");
    reveal_strlit("leaseTimeSeconds");
    reveal_strlit("ipAddressRange");
    reveal_strlit("start");
    reveal_strlit("end");
    reveal_strlit("SERVER");
    reveal_strlit("NONE");
    assert("deviceId"@.len() == 8 && "zoneId"@.len() == 6 && "isolationEnabled"@.len() == 16);
    assert("internetAccessEnabled"@.len() == 21 && "ipv4Configuration"@.len() == 17);
    assert("hostIpAddress"@.len() == 13 && "prefixLength"@.len() == 12 && "dhcpConfiguration"@.len() == 17);
    assert("mode"@.len() == 4 && "leaseTimeSeconds"@.len() == 16 && "ipAddressRange"@.len() == 14);
    assert("start"@.len() == 5 && "end"@.len() == 3 && "SERVER"@.len() == 6 && "NONE"@.len() == 4);
}

/// A gateway network created from a request reads back with the request's
/// settings: read from a record whose other fields are those the create call
/// wrote (whatever its metadata), the network is gateway-managed, has the
/// requested subnet and gateway, a DHCP service as requested, the requested
/// isolation and internet access, and the requested firewall zone.
pub proof fn lemma_network_read_back(
    req: CreateNetworkRequest,
    net: Network,
    id: Seq<char>,
    name: Seq<char>,
    enabled: bool,
    management: Seq<char>,
    vlan_id: i32,
    is_default: bool,
    metadata: JView,
    extra: Seq<(Seq<char>, JView)>,
    host: Ipv4,
    prefix: u8,
)
    requires
        create_management(req) == NetworkManagement::Gateway,
        req.subnet matches Some(c) && spec_parse_ipv4_cidr(c@) == Ok::<(Ipv4, u8), ErrorView>((host, prefix)),
        forall|k: Seq<char>| #[trigger] mget(extra, k) == create_extra_member(req, k),
        network_described(net, id, name, enabled, management, vlan_id, is_default, metadata, extra),
    ensures
        net.management == Some(NetworkManagement::Gateway),
        net.gateway_ip == Some(host),
        opt_text(net.subnet) == Some(ipv4_text(host) + "/"@ + decimal(prefix as nat)),
        net.dhcp matches Some(d) && {
            &&& d.enabled == req.dhcp_enabled
            &&& d.lease_time_secs == match req.dhcp_lease_time {
                Some(l) => Some(l as u64),
                None => None,
            }
            &&& d.gateway == Some(host)
            &&& match (req.dhcp_range_start, req.dhcp_range_stop) {
                (Some(a), Some(b)) => d.range_start == ipv4_at(Some(JView::Str(a@))) && d.range_stop == ipv4_at(
                    Some(JView::Str(b@)),
                ),
                _ => d.range_start is None && d.range_stop is None,
            }
        },
        net.isolation_enabled == req.isolation_enabled,
        net.internet_access_enabled == req.internet_access_enabled,
        req.firewall_zone_id matches Some(z) ==> match uuid_text(z@) {
            Some(u) => net.firewall_zone_id matches Some(x) && x is Uuid && x.text() == u,
            None => net.firewall_zone_id is None,
        },
{
    lemma_created_network_keys();
    assert(mget(extra, "deviceId"@) == create_extra_member(req, "deviceId"@));
    assert(mget(extra, "zoneId"@) == create_extra_member(req, "zoneId"@));
    assert(mget(extra, "isolationEnabled"@) == create_extra_member(req, "isolationEnabled"@));
    assert(mget(extra, "internetAccessEnabled"@) == create_extra_member(req, "internetAccessEnabled"@));
    assert(mget(extra, "ipv4Configuration"@) == create_extra_member(req, "ipv4Configuration"@));
    lemma_ipv4_text_round_trip(host);
    reveal_with_fuel(mget, 4);
}


/// Each network management and each WiFi security mode has its own wire
/// name.
pub proof fn lemma_network_wire_names(m: NetworkManagement, s: WifiSecurityMode)
    ensures
        management_name(m) == "GATEWAY"@ <==> m == NetworkManagement::Gateway,
        management_name(m) == "SWITCH"@ <==> m == NetworkManagement::Switch,
        management_name(m) == "UNMANAGED"@ <==> m == NetworkManagement::Unmanaged,
        spec_wifi_security_mode_name(s) == "OPEN"@ <==> s == WifiSecurityMode::Open,
        spec_wifi_security_mode_name(s) == "WPA2_PERSONAL"@ <==> s == WifiSecurityMode::Wpa2Personal,
        spec_wifi_security_mode_name(s) == "WPA3_PERSONAL"@ <==> s == WifiSecurityMode::Wpa3Personal,
        spec_wifi_security_mode_name(s) == "WPA2_WPA3_PERSONAL"@ <==> s == WifiSecurityMode::Wpa2Wpa3Personal,
        spec_wifi_security_mode_name(s) == "WPA2_ENTERPRISE"@ <==> s == WifiSecurityMode::Wpa2Enterprise,
        spec_wifi_security_mode_name(s) == "WPA3_ENTERPRISE"@ <==> s == WifiSecurityMode::Wpa3Enterprise,
        spec_wifi_security_mode_name(s) == "WPA2_WPA3_ENTERPRISE"@ <==> s == WifiSecurityMode::Wpa2Wpa3Enterprise,
{
    reveal_strlit("GATEWAY");
    reveal_strlit("SWITCH");
    reveal_strlit("UNMANAGED");
    reveal_strlit("OPEN");
    reveal_strlit("WPA2_PERSONAL");
    reveal_strlit("WPA3_PERSONAL");
    reveal_strlit("WPA2_WPA3_PERSONAL");
    reveal_strlit("WPA2_ENTERPRISE");
    reveal_strlit("WPA3_ENTERPRISE");
    reveal_strlit("WPA2_WPA3_ENTERPRISE");
    assert("GATEWAY"@.len() == 7 && "SWITCH"@.len() == 6 && "UNMANAGED"@.len() == 9 && "OPEN"@.len() == 4);
    assert("WPA2_PERSONAL"@.len() == 13 && "WPA3_PERSONAL"@.len() == 13 && "WPA2_WPA3_PERSONAL"@.len() == 18);
    assert("WPA2_ENTERPRISE"@.len() == 15 && "WPA3_ENTERPRISE"@.len() == 15 && "WPA2_WPA3_ENTERPRISE"@.len() == 20);
    assert("WPA2_PERSONAL"@[3] != "WPA3_PERSONAL"@[3]);
    assert("WPA2_ENTERPRISE"@[3] != "WPA3_ENTERPRISE"@[3]);
}

} // verus!
