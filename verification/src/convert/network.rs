//! Networks as the Integration API describes them. A network's settings sit
//! either among its top-level fields or in its metadata; the top level wins.
use vstd::prelude::*;

use crate::convert::helpers::{map_origin, spec_map_origin};
use crate::integration::NetworkDetailsResponse;
use crate::json::{
    as_array, as_bool, as_str, as_u64, get, get_opt, jarray, jbool, jget, jget_opt, jstr, ju64,
    jview_items, jview_members, lemma_jview_items, mget, obj_lookup, deref_opt, JView, JsonValue,
};
use crate::model::entity::{integration_id_text, integration_uuid, canonical_uuid, uuid_text, DataSource, EntityId};
use crate::model::network::{DhcpConfig, Ipv6Mode, Network, NetworkManagement};
use crate::net::{ip_matches, is_ip_text, parse_ip, parse_ipv4, spec_parse_ipv4, IpAddress, Ipv4};
use crate::text::{decimal, owned, push_str, str_eq, u64_to_decimal};

verus! {

/// Setting `key` of a network: its top-level field, else its metadata's.
pub open spec fn nfield(extra: Seq<(Seq<char>, JView)>, metadata: JView, key: Seq<char>) -> Option<JView> {
    match mget(extra, key) {
        Some(v) => Some(v),
        None => jget(metadata, key),
    }
}

/// Member `k1` of an optional object, or `k2` when it has no `k1`.
pub open spec fn either(v: Option<JView>, k1: Seq<char>, k2: Seq<char>) -> Option<JView> {
    match jget_opt(v, k1) {
        Some(x) => Some(x),
        None => jget_opt(v, k2),
    }
}

/// The IPv4 address a string value denotes.
pub open spec fn ipv4_at(v: Option<JView>) -> Option<Ipv4> {
    match jstr(v) {
        Some(s) => spec_parse_ipv4(s),
        None => None,
    }
}

/// A flag, `d` when absent or not a boolean.
pub open spec fn flag(v: Option<JView>, d: bool) -> bool {
    match jbool(v) {
        Some(b) => b,
        None => d,
    }
}

/// The texts among `items` that denote IP addresses, in order.
pub open spec fn ip_texts(items: Seq<JView>) -> Seq<Seq<char>>
    decreases items.len(),
{
    if items.len() == 0 {
        Seq::empty()
    } else {
        let rest = ip_texts(items.drop_last());
        match items.last() {
            JView::Str(s) if is_ip_text(s) => rest.push(s),
            _ => rest,
        }
    }
}

/// The address texts of an optional array; none when it is not one.
pub open spec fn ip_texts_of(v: Option<JView>) -> Seq<Seq<char>> {
    match jarray(v) {
        Some(items) => ip_texts(items),
        None => Seq::empty(),
    }
}

/// `ips` are the addresses `texts` denote, one for one.
pub open spec fn ips_match(ips: Seq<IpAddress>, texts: Seq<Seq<char>>) -> bool {
    ips.len() == texts.len() && forall|i: int| 0 <= i < ips.len() ==> ip_matches(#[trigger] ips[i], texts[i])
}

/// The `host/prefix` subnet text of an IPv4 configuration.
pub open spec fn spec_subnet(v: Option<JView>) -> Option<Seq<char>> {
    match (jstr(either(v, "hostIpAddress"@, "host"@)), ju64(either(v, "prefixLength"@, "prefix"@))) {
        (Some(h), Some(p)) => Some(h + "/"@ + decimal(p as nat)),
        _ => None,
    }
}

/// `res` is the DHCP service an IPv4 configuration describes, with
/// `gateway` the network's gateway: a `dhcpConfiguration` member, else a
/// `dhcp.server` member, else none.
pub open spec fn dhcp_described(res: Option<DhcpConfig>, v: JView, gateway: Option<Ipv4>) -> bool {
    match jget(v, "dhcpConfiguration"@) {
        Some(cfg) => res matches Some(d) && {
            let range = jget(cfg, "ipAddressRange"@);
            &&& d.enabled == (jstr(jget(cfg, "mode"@)) == Some("SERVER"@))
            &&& d.range_start == ipv4_at(either(range, "start"@, "rangeStart"@))
            &&& d.range_stop == ipv4_at(either(range, "end"@, "rangeStop"@))
            &&& d.lease_time_secs == ju64(jget(cfg, "leaseTimeSeconds"@))
            &&& ips_match(d.dns_servers@, ip_texts_of(jget(cfg, "dnsServerIpAddressesOverride"@)))
            &&& d.gateway == gateway
        },
        None => match jget_opt(jget(v, "dhcp"@), "server"@) {
            Some(server) => res matches Some(d) && {
                &&& d.enabled == flag(jget(server, "enabled"@), false)
                &&& d.range_start == ipv4_at(jget(server, "rangeStart"@))
                &&& d.range_stop == ipv4_at(jget(server, "rangeStop"@))
                &&& d.lease_time_secs == ju64(jget(server, "leaseTimeSec"@))
                &&& ips_match(d.dns_servers@, ip_texts_of(jget_opt(jget(server, "dnsOverride"@), "servers"@)))
                &&& d.gateway == match ipv4_at(jget(server, "gateway"@)) {
                    Some(g) => Some(g),
                    None => gateway,
                }
            },
            None => res is None,
        },
    }
}

/// The IPv6 mode an IPv6 configuration names.
pub open spec fn spec_ipv6_mode(v: Option<JView>) -> Option<Ipv6Mode> {
    match jstr(either(v, "interfaceType"@, "type"@)) {
        Some(s) => if s == "PREFIX_DELEGATION"@ {
            Some(Ipv6Mode::PrefixDelegation)
        } else if s == "STATIC"@ {
            Some(Ipv6Mode::Static)
        } else {
            None
        },
        None => None,
    }
}

/// An IPv6 address-assignment flag: `clientAddressAssignment.<primary>`,
/// else `<section>.enabled`, else off.
pub open spec fn assignment_flag(v: Option<JView>, primary: Seq<char>, section: Seq<char>) -> bool {
    match jbool(jget_opt(jget_opt(v, "clientAddressAssignment"@), primary)) {
        Some(b) => b,
        None => flag(jget_opt(jget_opt(v, section), "enabled"@), false),
    }
}

/// The IPv6 prefix of an IPv6 configuration: its first additional subnet
/// when that is a string, else its `prefix`.
pub open spec fn spec_ipv6_prefix(v: Option<JView>) -> Option<Seq<char>> {
    match jarray(jget_opt(v, "additionalHostIpSubnets"@)) {
        Some(items) if items.len() > 0 && items[0] is Str => jstr(Some(items[0])),
        _ => jstr(jget_opt(v, "prefix"@)),
    }
}

/// Who manages a network: a switch when it names a device, else the gateway
/// when it has an IPv4 configuration.
pub open spec fn spec_management(has_ipv4: bool, has_device_id: bool) -> Option<NetworkManagement> {
    if has_device_id {
        Some(NetworkManagement::Switch)
    } else if has_ipv4 {
        Some(NetworkManagement::Gateway)
    } else {
        None
    }
}

/// `net` is the network a record with these fields describes.
pub open spec fn network_described(
    net: Network,
    id: Seq<char>,
    name: Seq<char>,
    enabled: bool,
    management: Seq<char>,
    vlan_id: i32,
    is_default: bool,
    metadata: JView,
    extra: Seq<(Seq<char>, JView)>,
) -> bool {
    let ipv4 = nfield(extra, metadata, "ipv4Configuration"@);
    let ipv6 = nfield(extra, metadata, "ipv6Configuration"@);
    let gateway = ipv4_at(either(ipv4, "hostIpAddress"@, "host"@));
    &&& net.id is Uuid && net.id.text() == integration_id_text(id)
    &&& net.name@ == name
    &&& net.enabled == enabled
    &&& net.management == spec_management(ipv4 is Some, mget(extra, "deviceId"@) is Some)
    &&& net.purpose is None
    &&& net.is_default == is_default
    &&& net.vlan_id == Some(vlan_id as u16)
    &&& opt_text(net.subnet) == spec_subnet(ipv4)
    &&& net.gateway_ip == gateway
    &&& match ipv4 {
        Some(v) => dhcp_described(net.dhcp, v, gateway),
        None => net.dhcp is None,
    }
    &&& net.ipv6_enabled == ipv6 is Some
    &&& net.ipv6_mode == spec_ipv6_mode(ipv6)
    &&& opt_text(net.ipv6_prefix) == spec_ipv6_prefix(ipv6)
    &&& net.dhcpv6_enabled == assignment_flag(ipv6, "dhcpv6Enabled"@, "dhcpv6"@)
    &&& net.slaac_enabled == assignment_flag(ipv6, "slaacEnabled"@, "slaac"@)
    &&& match jstr(jget_opt(jget_opt(ipv4, "ntp"@), "server"@)) {
        Some(t) if is_ip_text(t) => net.ntp_server matches Some(ip) && ip_matches(ip, t),
        _ => net.ntp_server is None,
    }
    &&& net.pxe_enabled == flag(jget_opt(jget_opt(ipv4, "pxe"@), "enabled"@), false)
    &&& opt_text(net.tftp_server) == jstr(jget_opt(jget_opt(ipv4, "tftp"@), "server"@))
    &&& match jstr(nfield(extra, metadata, "zoneId"@)) {
        Some(z) => match uuid_text(z) {
            Some(u) => net.firewall_zone_id matches Some(z) && z is Uuid && z.text() == u,
            None => net.firewall_zone_id is None,
        },
        None => net.firewall_zone_id is None,
    }
    &&& net.isolation_enabled == flag(nfield(extra, metadata, "isolationEnabled"@), false)
    &&& net.internet_access_enabled == flag(nfield(extra, metadata, "internetAccessEnabled"@), true)
    &&& net.mdns_forwarding_enabled == flag(nfield(extra, metadata, "mdnsForwardingEnabled"@), false)
    &&& net.cellular_backup_enabled == flag(nfield(extra, metadata, "cellularBackupEnabled"@), false)
    &&& net.origin == spec_map_origin(management)
    &&& net.source == DataSource::IntegrationApi
}

/// View of an optional text.
pub open spec fn opt_text(o: Option<String>) -> Option<Seq<char>> {
    match o {
        Some(s) => Some(s@),
        None => None,
    }
}

fn net_field<'a>(extra: &'a Vec<(String, JsonValue)>, metadata: &'a JsonValue, key: &str) -> (res: Option<
    &'a JsonValue,
>)
    ensures
        deref_opt(res) == nfield(jview_members(extra@), metadata@, key@),
{
    match obj_lookup(extra, key) {
        Some(v) => Some(v),
        None => get(metadata, key),
    }
}

fn get_either<'a>(v: Option<&'a JsonValue>, k1: &str, k2: &str) -> (res: Option<&'a JsonValue>)
    ensures
        deref_opt(res) == either(deref_opt(v), k1@, k2@),
{
    match get_opt(v, k1) {
        Some(x) => Some(x),
        None => get_opt(v, k2),
    }
}

fn ipv4_of(v: Option<&JsonValue>) -> (res: Option<Ipv4>)
    ensures
        res == ipv4_at(deref_opt(v)),
{
    match as_str(v) {
        Some(s) => parse_ipv4(s),
        None => None,
    }
}

fn flag_of(v: Option<&JsonValue>, d: bool) -> (res: bool)
    ensures
        res == flag(deref_opt(v), d),
{
    match as_bool(v) {
        Some(b) => b,
        None => d,
    }
}

/// The addresses among the items that are address texts, in order.
pub fn ip_list(items: &Vec<JsonValue>) -> (res: Vec<IpAddress>)
    ensures
        ips_match(res@, ip_texts(jview_items(items@))),
{
    proof {
        lemma_jview_items(items@);
    }
    let mut out: Vec<IpAddress> = Vec::new();
    let mut i: usize = 0;
    while i < items.len()
        invariant
            i <= items.len(),
            jview_items(items@).len() == items.len(),
            forall|j: int| 0 <= j < items.len() ==> #[trigger] jview_items(items@)[j] == items@[j]@,
            ips_match(out@, ip_texts(jview_items(items@).take(i as int))),
        decreases items.len() - i,
    {
        let ghost vs = jview_items(items@);
        let ghost before = out@;
        assert(vs.take(i + 1).drop_last() =~= vs.take(i as int));
        assert(vs.take(i + 1).last() == items@[i as int]@);
        match &items[i] {
            JsonValue::Str(s) => {
                match parse_ip(s.as_str()) {
                    Some(ip) => {
                        out.push(ip);
                        assert(ips_match(out@, ip_texts(vs.take(i as int)).push(s@))) by {
                            assert forall|j: int| 0 <= j < out@.len() implies ip_matches(
                                #[trigger] out@[j],
                                ip_texts(vs.take(i as int)).push(s@)[j],
                            ) by {
                                if j < before.len() {
                                    assert(out@[j] == before[j]);
                                }
                            }
                        }
                    },
                    None => {},
                }
            },
            _ => {},
        }
        i = i + 1;
    }
    assert(jview_items(items@).take(items.len() as int) =~= jview_items(items@));
    out
}

fn ip_list_of(v: Option<&JsonValue>) -> (res: Vec<IpAddress>)
    ensures
        ips_match(res@, ip_texts_of(deref_opt(v))),
{
    match as_array(v) {
        Some(items) => ip_list(items),
        None => Vec::new(),
    }
}

fn subnet_of(v: Option<&JsonValue>) -> (res: Option<String>)
    ensures
        opt_text(res) == spec_subnet(deref_opt(v)),
{
    let host = match as_str(get_either(v, "hostIpAddress", "host")) {
        Some(h) => h,
        None => {
            return None;
        },
    };
    let prefix = match as_u64(get_either(v, "prefixLength", "prefix")) {
        Some(p) => p,
        None => {
            return None;
        },
    };
    let mut s = owned(host);
    push_str(&mut s, "/");
    let p = u64_to_decimal(prefix);
    push_str(&mut s, p.as_str());
    Some(s)
}

/// The DHCP service an IPv4 configuration describes (see [`dhcp_described`]).
pub fn dhcp_of(v: &JsonValue, gateway: Option<Ipv4>) -> (res: Option<DhcpConfig>)
    ensures
        dhcp_described(res, v@, gateway),
{
    proof {
        reveal_strlit("SERVER");
    }
    if let Some(cfg) = get(v, "dhcpConfiguration") {
        let mode_server = match as_str(get(cfg, "mode")) {
            Some(m) => str_eq(m, "SERVER"),
            None => false,
        };
        let range = get(cfg, "ipAddressRange");
        return Some(
            DhcpConfig {
                enabled: mode_server,
                range_start: ipv4_of(get_either(range, "start", "rangeStart")),
                range_stop: ipv4_of(get_either(range, "end", "rangeStop")),
                lease_time_secs: as_u64(get(cfg, "leaseTimeSeconds")),
                dns_servers: ip_list_of(get(cfg, "dnsServerIpAddressesOverride")),
                gateway,
            },
        );
    }
    let server = match get_opt(get(v, "dhcp"), "server") {
        Some(s) => s,
        None => {
            return None;
        },
    };
    let own_gateway = ipv4_of(get(server, "gateway"));
    Some(
        DhcpConfig {
            enabled: flag_of(get(server, "enabled"), false),
            range_start: ipv4_of(get(server, "rangeStart")),
            range_stop: ipv4_of(get(server, "rangeStop")),
            lease_time_secs: as_u64(get(server, "leaseTimeSec")),
            dns_servers: ip_list_of(get_opt(get(server, "dnsOverride"), "servers")),
            gateway: match own_gateway {
                Some(g) => Some(g),
                None => gateway,
            },
        },
    )
}

fn ipv6_mode_of(v: Option<&JsonValue>) -> (res: Option<Ipv6Mode>)
    ensures
        res == spec_ipv6_mode(deref_opt(v)),
{
    match as_str(get_either(v, "interfaceType", "type")) {
        Some(s) => if str_eq(s, "PREFIX_DELEGATION") {
            Some(Ipv6Mode::PrefixDelegation)
        } else if str_eq(s, "STATIC") {
            Some(Ipv6Mode::Static)
        } else {
            None
        },
        None => None,
    }
}

fn assignment_flag_of(v: Option<&JsonValue>, primary: &str, section: &str) -> (res: bool)
    ensures
        res == assignment_flag(deref_opt(v), primary@, section@),
{
    match as_bool(get_opt(get_opt(v, "clientAddressAssignment"), primary)) {
        Some(b) => b,
        None => flag_of(get_opt(get_opt(v, section), "enabled"), false),
    }
}

fn ipv6_prefix_of(v: Option<&JsonValue>) -> (res: Option<String>)
    ensures
        opt_text(res) == spec_ipv6_prefix(deref_opt(v)),
{
    if let Some(items) = as_array(get_opt(v, "additionalHostIpSubnets")) {
        proof {
            lemma_jview_items(items@);
        }
        if items.len() > 0 {
            if let JsonValue::Str(s) = &items[0] {
                return Some(owned(s.as_str()));
            }
        }
    }
    match as_str(get_opt(v, "prefix")) {
        Some(s) => Some(owned(s)),
        None => None,
    }
}

fn zone_id_of(v: Option<&JsonValue>) -> (res: Option<EntityId>)
    ensures
        match jstr(deref_opt(v)) {
            Some(z) => match uuid_text(z) {
                Some(u) => res matches Some(id) && id is Uuid && id.text() == u,
                None => res is None,
            },
            None => res is None,
        },
{
    match as_str(v) {
        Some(z) => match canonical_uuid(z) {
            Some(u) => Some(EntityId::Uuid(u)),
            None => None,
        },
        None => None,
    }
}

fn ntp_of(v: Option<&JsonValue>) -> (res: Option<IpAddress>)
    ensures
        match jstr(deref_opt(v)) {
            Some(t) if is_ip_text(t) => res matches Some(ip) && ip_matches(ip, t),
            _ => res is None,
        },
{
    match as_str(v) {
        Some(t) => parse_ip(t),
        None => None,
    }
}

/// The network a record with these fields describes (see
/// [`network_described`]).
pub fn parse_network_fields(
    id: String,
    name: String,
    enabled: bool,
    management_str: &str,
    vlan_id: i32,
    is_default: bool,
    metadata: &JsonValue,
    extra: &Vec<(String, JsonValue)>,
) -> (res: Network)
    ensures
        network_described(
            res,
            id@,
            name@,
            enabled,
            management_str@,
            vlan_id,
            is_default,
            metadata@,
            jview_members(extra@),
        ),
{
    let ipv4 = net_field(extra, metadata, "ipv4Configuration");
    let ipv6 = net_field(extra, metadata, "ipv6Configuration");
    let gateway_ip = ipv4_of(get_either(ipv4, "hostIpAddress", "host"));
    let dhcp = match ipv4 {
        Some(v) => dhcp_of(v, gateway_ip),
        None => None,
    };
    let has_ipv4 = ipv4.is_some();
    let has_device_id = obj_lookup(extra, "deviceId").is_some();
    let management = if has_device_id {
        Some(NetworkManagement::Switch)
    } else if has_ipv4 {
        Some(NetworkManagement::Gateway)
    } else {
        None
    };
    let tftp_server = match as_str(get_opt(get_opt(ipv4, "tftp"), "server")) {
        Some(s) => Some(owned(s)),
        None => None,
    };
    Network {
        id: integration_uuid(id),
        name,
        enabled,
        management,
        purpose: None,
        is_default,
        vlan_id: Some(vlan_id as u16),
        subnet: subnet_of(ipv4),
        gateway_ip,
        dhcp,
        ipv6_enabled: ipv6.is_some(),
        ipv6_mode: ipv6_mode_of(ipv6),
        ipv6_prefix: ipv6_prefix_of(ipv6),
        dhcpv6_enabled: assignment_flag_of(ipv6, "dhcpv6Enabled", "dhcpv6"),
        slaac_enabled: assignment_flag_of(ipv6, "slaacEnabled", "slaac"),
        ntp_server: ntp_of(get_opt(get_opt(ipv4, "ntp"), "server")),
        pxe_enabled: flag_of(get_opt(get_opt(ipv4, "pxe"), "enabled"), false),
        tftp_server,
        firewall_zone_id: zone_id_of(net_field(extra, metadata, "zoneId")),
        isolation_enabled: flag_of(net_field(extra, metadata, "isolationEnabled"), false),
        internet_access_enabled: flag_of(net_field(extra, metadata, "internetAccessEnabled"), true),
        mdns_forwarding_enabled: flag_of(net_field(extra, metadata, "mdnsForwardingEnabled"), false),
        cellular_backup_enabled: flag_of(net_field(extra, metadata, "cellularBackupEnabled"), false),
        origin: map_origin(management_str),
        source: DataSource::IntegrationApi,
    }
}

/// The network an Integration API network record describes.
pub fn network_from_details(n: NetworkDetailsResponse) -> (res: Network)
    ensures
        network_described(
            res,
            n.id@,
            n.name@,
            n.enabled,
            n.management@,
            n.vlan_id,
            n.default,
            n.metadata@,
            jview_members(n.extra@),
        ),
{
    parse_network_fields(n.id, n.name, n.enabled, n.management.as_str(), n.vlan_id, n.default, &n.metadata, &n.extra)
}


/// A converted network's IPv6 mode is the one its IPv6 configuration names
/// by `interfaceType` (or, without one, `type`): static exactly for
/// `STATIC`, prefix delegation exactly for `PREFIX_DELEGATION`, none
/// otherwise.
pub proof fn lemma_network_ipv6_mode(
    net: Network,
    id: Seq<char>,
    name: Seq<char>,
    enabled: bool,
    management: Seq<char>,
    vlan_id: i32,
    is_default: bool,
    metadata: JView,
    extra: Seq<(Seq<char>, JView)>,
)
    requires
        network_described(net, id, name, enabled, management, vlan_id, is_default, metadata, extra),
    ensures
        ({
            let named = jstr(either(nfield(extra, metadata, "ipv6Configuration"@), "interfaceType"@, "type"@));
            &&& net.ipv6_mode == Some(Ipv6Mode::Static) <==> named == Some("STATIC"@)
            &&& net.ipv6_mode == Some(Ipv6Mode::PrefixDelegation) <==> named == Some("PREFIX_DELEGATION"@)
            &&& net.ipv6_mode is None <==> !(named == Some("STATIC"@) || named == Some("PREFIX_DELEGATION"@))
        }),
{
    reveal_strlit("STATIC");
    reveal_strlit("PREFIX_DELEGATION");
    assert("STATIC"@.len() == 6 && "PREFIX_DELEGATION"@.len() == 17);
}

/// A converted network is switch-managed exactly when its record names a
/// `deviceId`, gateway-managed exactly when it has no `deviceId` but an IPv4
/// configuration, and unmanaged otherwise.
pub proof fn lemma_network_management(
    net: Network,
    id: Seq<char>,
    name: Seq<char>,
    enabled: bool,
    management: Seq<char>,
    vlan_id: i32,
    is_default: bool,
    metadata: JView,
    extra: Seq<(Seq<char>, JView)>,
)
    requires
        network_described(net, id, name, enabled, management, vlan_id, is_default, metadata, extra),
    ensures
        net.management == Some(NetworkManagement::Switch) <==> mget(extra, "deviceId"@) is Some,
        net.management == Some(NetworkManagement::Gateway) <==> (mget(extra, "deviceId"@) is None && nfield(
            extra,
            metadata,
            "ipv4Configuration"@,
        ) is Some),
        net.management is None <==> (mget(extra, "deviceId"@) is None && nfield(extra, metadata, "ipv4Configuration"@)
            is None),
{
}

} // verus!
