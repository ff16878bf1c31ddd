//! Firewall policies, zones and ACL rules as the Integration API describes
//! them.
use vstd::prelude::*;

use crate::convert::helpers::{origin_from_metadata, spec_origin_from_metadata};
use crate::integration::{
    AclRuleResponse, DestTrafficFilter, DomainFilter, FirewallPolicyDestination, FirewallPolicyResponse,
    FirewallPolicySource, FirewallZoneResponse, IpAddressFilter, IpAddressItem, MacAddressFilter, PortFilter,
    PortItem, SourceTrafficFilter,
};
use crate::json::{
    as_array, as_str, collect_strings, deref_opt, get, get_opt, jarray, jget, jget_opt, jstr, jstrings,
    jview_members, mget, obj_lookup, JView, JsonValue,
};
use crate::model::entity::{integration_id_text, integration_uuid, canonical_uuid, uuid_text, DataSource, EntityId, EntityOrigin};
use crate::model::firewall::{
    AclAction, AclRule, AclRuleType, FirewallAction, FirewallPolicy, FirewallZone, IpSpec, IpVersion,
    PolicyEndpoint, PortSpec, TrafficFilter,
};
use crate::text::{copy_strings, owned, push_str, str_eq, string_views};

verus! {

/// `ids` are the UUID identifiers with the texts `texts`, one for one.
pub open spec fn uuid_ids(ids: Seq<EntityId>, texts: Seq<String>) -> bool {
    &&& ids.len() == texts.len()
    &&& forall|i: int| #![trigger ids[i]] 0 <= i < ids.len() ==> ids[i] is Uuid && ids[i].text() == integration_id_text(texts[i]@)
}

/// `id` is the UUID identifier with text `t`.
pub open spec fn is_uuid_id(id: EntityId, t: Seq<char>) -> bool {
    id is Uuid && id.text() == integration_id_text(t)
}

/// Display text of a port item: a number, `start-end`, or `?`.
pub open spec fn port_item_text(item: PortItem) -> Seq<char> {
    match item {
        PortItem::Number { value } => value@,
        PortItem::Range { start_port, end_port } => start_port@ + "-"@ + end_port@,
        PortItem::Unknown => "?"@,
    }
}

/// `ps` is the port specification of the port filter `pf`.
pub open spec fn is_port_spec_of(ps: PortSpec, pf: PortFilter) -> bool {
    match pf {
        PortFilter::Ports { items, match_opposite } => ps matches PortSpec::Values { items: out, match_opposite: m }
            && m == match_opposite && string_views(out@) == items@.map_values(|it: PortItem| port_item_text(it)),
        PortFilter::TrafficMatchingList { traffic_matching_list_id, match_opposite } => ps matches PortSpec::MatchingList {
            list_id,
            match_opposite: m,
        } && is_uuid_id(list_id, traffic_matching_list_id@) && m == match_opposite,
        PortFilter::Unknown => ps matches PortSpec::Values { items: out, match_opposite: m } && out@.len() == 0 && !m,
    }
}

/// Optional form of [`is_port_spec_of`].
pub open spec fn is_opt_port_spec_of(ps: Option<PortSpec>, pf: Option<PortFilter>) -> bool {
    match pf {
        Some(f) => ps matches Some(p) && is_port_spec_of(p, f),
        None => ps is None,
    }
}

/// `spec` is the address specification of `item`.
pub open spec fn is_ip_spec_of(spec: IpSpec, item: IpAddressItem) -> bool {
    match item {
        IpAddressItem::Address { value } => spec matches IpSpec::Address { value: v } && v@ == value@,
        IpAddressItem::Range { start, stop } => spec matches IpSpec::Range { start: a, stop: b } && a@ == start@
            && b@ == stop@,
        IpAddressItem::Subnet { value } => spec matches IpSpec::Subnet { value: v } && v@ == value@,
    }
}

/// `specs` are the address specifications of the address filter `f`.
pub open spec fn is_ip_specs_of(specs: Seq<IpSpec>, f: IpAddressFilter) -> bool {
    match f {
        IpAddressFilter::Specific { items, .. } => specs.len() == items@.len() && forall|i: int|
            #![trigger specs[i]]
            0 <= i < specs.len() ==> is_ip_spec_of(specs[i], items@[i]),
        IpAddressFilter::TrafficMatchingList { traffic_matching_list_id, .. } => specs.len() == 1
            && (specs[0] matches IpSpec::MatchingList { list_id } && is_uuid_id(list_id, traffic_matching_list_id@)),
        IpAddressFilter::Unknown => specs.len() == 0,
    }
}

/// Whether an address filter matches the opposite of its addresses.
pub open spec fn ip_filter_opposite(f: IpAddressFilter) -> bool {
    match f {
        IpAddressFilter::Specific { match_opposite, .. } => match_opposite,
        IpAddressFilter::TrafficMatchingList { match_opposite, .. } => match_opposite,
        IpAddressFilter::Unknown => false,
    }
}

/// MAC addresses of an optional MAC filter; none without one.
pub open spec fn mac_list(f: Option<MacAddressFilter>) -> Seq<String> {
    match f {
        Some(m) => m.mac_addresses@,
        None => Seq::empty(),
    }
}

/// `tf` is the traffic filter of a policy source's filter `f`.
pub open spec fn is_source_filter_of(tf: TrafficFilter, f: SourceTrafficFilter) -> bool {
    match f {
        SourceTrafficFilter::Network { network_filter, mac_address_filter, port_filter } => tf matches TrafficFilter::Network {
            network_ids,
            match_opposite,
            mac_addresses,
            ports,
        } && uuid_ids(network_ids@, network_filter.network_ids@) && match_opposite == network_filter.match_opposite
            && mac_addresses@ == mac_list(mac_address_filter) && is_opt_port_spec_of(ports, port_filter),
        SourceTrafficFilter::IpAddress { ip_address_filter, mac_address_filter, port_filter } => tf matches TrafficFilter::IpAddress {
            addresses,
            match_opposite,
            mac_addresses,
            ports,
        } && is_ip_specs_of(addresses@, ip_address_filter) && match_opposite == ip_filter_opposite(ip_address_filter)
            && mac_addresses@ == mac_list(mac_address_filter) && is_opt_port_spec_of(ports, port_filter),
        SourceTrafficFilter::MacAddress { mac_address_filter, port_filter } => tf matches TrafficFilter::MacAddress {
            mac_addresses,
            ports,
        } && mac_addresses@ == mac_address_filter.mac_addresses@ && is_opt_port_spec_of(ports, port_filter),
        SourceTrafficFilter::Port { port_filter } => tf matches TrafficFilter::Port { ports } && is_port_spec_of(
            ports,
            port_filter,
        ),
        SourceTrafficFilter::Region { region_filter, port_filter } => tf matches TrafficFilter::Region { regions, ports }
            && regions@ == region_filter.regions@ && is_opt_port_spec_of(ports, port_filter),
        SourceTrafficFilter::Unknown => tf matches TrafficFilter::Other { raw_type } && raw_type@ == "UNKNOWN"@,
    }
}

/// Domains of a domain filter; none for an unknown one.
pub open spec fn domain_list(f: DomainFilter) -> Seq<String> {
    match f {
        DomainFilter::Specific { domains } => domains@,
        DomainFilter::Unknown => Seq::empty(),
    }
}

/// `tf` is the traffic filter of a policy destination's filter `f`.
pub open spec fn is_dest_filter_of(tf: TrafficFilter, f: DestTrafficFilter) -> bool {
    match f {
        DestTrafficFilter::Network { network_filter, port_filter } => tf matches TrafficFilter::Network {
            network_ids,
            match_opposite,
            mac_addresses,
            ports,
        } && uuid_ids(network_ids@, network_filter.network_ids@) && match_opposite == network_filter.match_opposite
            && mac_addresses@.len() == 0 && is_opt_port_spec_of(ports, port_filter),
        DestTrafficFilter::IpAddress { ip_address_filter, port_filter } => tf matches TrafficFilter::IpAddress {
            addresses,
            match_opposite,
            mac_addresses,
            ports,
        } && is_ip_specs_of(addresses@, ip_address_filter) && match_opposite == ip_filter_opposite(ip_address_filter)
            && mac_addresses@.len() == 0 && is_opt_port_spec_of(ports, port_filter),
        DestTrafficFilter::Port { port_filter } => tf matches TrafficFilter::Port { ports } && is_port_spec_of(
            ports,
            port_filter,
        ),
        DestTrafficFilter::Region { region_filter, port_filter } => tf matches TrafficFilter::Region { regions, ports }
            && regions@ == region_filter.regions@ && is_opt_port_spec_of(ports, port_filter),
        DestTrafficFilter::Application { application_filter, port_filter } => tf matches TrafficFilter::Application {
            application_ids,
            ports,
        } && application_ids@ == application_filter.application_ids@ && is_opt_port_spec_of(ports, port_filter),
        DestTrafficFilter::ApplicationCategory { application_category_filter, port_filter } => tf matches TrafficFilter::ApplicationCategory {
            category_ids,
            ports,
        } && category_ids@ == application_category_filter.application_category_ids@ && is_opt_port_spec_of(
            ports,
            port_filter,
        ),
        DestTrafficFilter::Domain { domain_filter, port_filter } => tf matches TrafficFilter::Domain { domains, ports }
            && domains@ == domain_list(domain_filter) && is_opt_port_spec_of(ports, port_filter),
        DestTrafficFilter::Unknown => tf matches TrafficFilter::Other { raw_type } && raw_type@ == "UNKNOWN"@,
    }
}

/// `id` is the zone a flat zone-id value names: a UUID text.
pub open spec fn flat_zone_of(id: Option<EntityId>, flat: Option<JView>) -> bool {
    match jstr(flat) {
        Some(t) => match uuid_text(t) {
            Some(u) => id matches Some(z) && z is Uuid && z.text() == u,
            None => id is None,
        },
        None => id is None,
    }
}

/// `ep` is a policy source: the structured source when there is one, else
/// only the zone a flat zone-id value names.
pub open spec fn is_source_endpoint_of(ep: PolicyEndpoint, src: Option<FirewallPolicySource>, flat: Option<JView>) -> bool {
    match src {
        Some(s) => {
            &&& match s.zone_id {
                Some(z) => ep.zone_id matches Some(id) && is_uuid_id(id, z@),
                None => ep.zone_id is None,
            }
            &&& match s.traffic_filter {
                Some(f) => ep.filter matches Some(tf) && is_source_filter_of(tf, f),
                None => ep.filter is None,
            }
        },
        None => flat_zone_of(ep.zone_id, flat) && ep.filter is None,
    }
}

/// `ep` is a policy destination (see [`is_source_endpoint_of`]).
pub open spec fn is_dest_endpoint_of(ep: PolicyEndpoint, dst: Option<FirewallPolicyDestination>, flat: Option<JView>) -> bool {
    match dst {
        Some(d) => {
            &&& match d.zone_id {
                Some(z) => ep.zone_id matches Some(id) && is_uuid_id(id, z@),
                None => ep.zone_id is None,
            }
            &&& match d.traffic_filter {
                Some(f) => ep.filter matches Some(tf) && is_dest_filter_of(tf, f),
                None => ep.filter is None,
            }
        },
        None => flat_zone_of(ep.zone_id, flat) && ep.filter is None,
    }
}

/// Action a policy's action object names; blocking unless it says `ALLOW`
/// or `REJECT`.
pub open spec fn spec_policy_action(action: JView) -> FirewallAction {
    match jstr(jget(action, "type"@)) {
        Some(a) => if a == "ALLOW"@ {
            FirewallAction::Allow
        } else if a == "REJECT"@ {
            FirewallAction::Reject
        } else {
            FirewallAction::Block
        },
        None => FirewallAction::Block,
    }
}

/// IP version a policy's protocol scope names; both unless it names one.
pub open spec fn spec_ip_version(scope: Option<JView>) -> IpVersion {
    match jstr(jget_opt(scope, "ipVersion"@)) {
        Some(s) => if s == "IPV4_ONLY"@ || s == "IPV4"@ {
            IpVersion::Ipv4
        } else if s == "IPV6_ONLY"@ || s == "IPV6"@ {
            IpVersion::Ipv6
        } else {
            IpVersion::Both
        },
        None => IpVersion::Both,
    }
}

/// A JSON integer that fits 64 signed bits.
pub open spec fn json_i64(v: Option<JView>) -> Option<i64> {
    match v {
        Some(JView::UInt(n)) => if n <= i64::MAX {
            Some(n as i64)
        } else {
            None
        },
        Some(JView::NegInt(n)) => Some(n),
        _ => None,
    }
}

/// Summary text of an optional filter.
pub open spec fn opt_summary(f: Option<TrafficFilter>) -> Option<Seq<char>> {
    match f {
        Some(t) => Some(t.spec_summary()),
        None => None,
    }
}

/// View of an optional text.
pub open spec fn opt_string(o: Option<String>) -> Option<Seq<char>> {
    match o {
        Some(s) => Some(s@),
        None => None,
    }
}

/// `fp` is the policy a firewall policy record describes.
pub open spec fn is_policy_of(fp: FirewallPolicy, p: FirewallPolicyResponse) -> bool {
    let extra = jview_members(p.extra@);
    &&& is_uuid_id(fp.id, p.id@)
    &&& fp.name@ == p.name@
    &&& opt_string(fp.description) == opt_string(p.description)
    &&& fp.enabled == p.enabled
    &&& fp.index == match json_i64(mget(extra, "index"@)) {
        Some(i) => Some(i as i32),
        None => None,
    }
    &&& fp.action == spec_policy_action(p.action@)
    &&& fp.ip_version == spec_ip_version(
        match p.ip_protocol_scope {
            Some(v) => Some(v@),
            None => None,
        },
    )
    &&& is_source_endpoint_of(fp.source, p.source, mget(extra, "sourceFirewallZoneId"@))
    &&& is_dest_endpoint_of(fp.destination, p.destination, mget(extra, "destinationFirewallZoneId"@))
    &&& opt_string(fp.source_summary) == opt_summary(fp.source.filter)
    &&& opt_string(fp.destination_summary) == opt_summary(fp.destination.filter)
    &&& fp.protocol_summary is None
    &&& fp.schedule is None
    &&& opt_string(fp.ipsec_mode) == jstr(mget(extra, "ipsecFilter"@))
    &&& string_views(fp.connection_states@) == match jarray(mget(extra, "connectionStateFilter"@)) {
        Some(items) => jstrings(items),
        None => Seq::empty(),
    }
    &&& fp.logging_enabled == p.logging_enabled
    &&& fp.origin == match p.metadata {
        Some(m) => spec_origin_from_metadata(m@),
        None => None,
    }
    &&& fp.data_source == DataSource::IntegrationApi
}

fn uuid_id(t: &String) -> (res: EntityId)
    ensures
        is_uuid_id(res, t@),
{
    integration_uuid(t.clone())
}

fn uuid_id_list(texts: &Vec<String>) -> (res: Vec<EntityId>)
    ensures
        uuid_ids(res@, texts@),
{
    let mut out: Vec<EntityId> = Vec::new();
    let mut i: usize = 0;
    while i < texts.len()
        invariant
            i <= texts@.len(),
            uuid_ids(out@, texts@.take(i as int)),
        decreases texts.len() - i,
    {
        out.push(uuid_id(&texts[i]));
        i = i + 1;
        assert forall|j: int| #![trigger out@[j]] 0 <= j < out@.len() implies out@[j] is Uuid && out@[j].text()
            == integration_id_text(texts@.take(i as int)[j]@) by {
            if j < i - 1 {
                assert(texts@.take(i as int)[j] == texts@.take(i - 1)[j]);
            }
        }
    }
    assert(texts@.take(texts@.len() as int) =~= texts@);
    out
}

fn port_item_string(item: &PortItem) -> (res: String)
    ensures
        res@ == port_item_text(*item),
{
    match item {
        PortItem::Number { value } => value.clone(),
        PortItem::Range { start_port, end_port } => {
            let mut s = start_port.clone();
            push_str(&mut s, "-");
            push_str(&mut s, end_port.as_str());
            s
        },
        PortItem::Unknown => owned("?"),
    }
}

/// The port specification of a port filter.
pub fn convert_port_filter(pf: &PortFilter) -> (res: PortSpec)
    ensures
        is_port_spec_of(res, *pf),
{
    match pf {
        PortFilter::Ports { items, match_opposite } => {
            let mut out: Vec<String> = Vec::new();
            let mut i: usize = 0;
            while i < items.len()
                invariant
                    i <= items@.len(),
                    string_views(out@) == items@.take(i as int).map_values(|it: PortItem| port_item_text(it)),
                decreases items.len() - i,
            {
                let t = port_item_string(&items[i]);
                let ghost before = out@;
                out.push(t);
                i = i + 1;
                assert(string_views(out@) =~= items@.take(i as int).map_values(|it: PortItem| port_item_text(it))) by {
                    assert(string_views(out@) =~= string_views(before).push(t@));
                    assert(items@.take(i as int).map_values(|it: PortItem| port_item_text(it)) =~= items@.take(
                        i - 1,
                    ).map_values(|it: PortItem| port_item_text(it)).push(port_item_text(items@[i - 1])));
                }
            }
            assert(items@.take(items@.len() as int) =~= items@);
            PortSpec::Values { items: out, match_opposite: *match_opposite }
        },
        PortFilter::TrafficMatchingList { traffic_matching_list_id, match_opposite } => PortSpec::MatchingList {
            list_id: uuid_id(traffic_matching_list_id),
            match_opposite: *match_opposite,
        },
        PortFilter::Unknown => PortSpec::Values { items: Vec::new(), match_opposite: false },
    }
}

fn convert_opt_port_filter(pf: &Option<PortFilter>) -> (res: Option<PortSpec>)
    ensures
        is_opt_port_spec_of(res, *pf),
{
    match pf {
        Some(f) => Some(convert_port_filter(f)),
        None => None,
    }
}

fn ip_spec_of(item: &IpAddressItem) -> (res: IpSpec)
    ensures
        is_ip_spec_of(res, *item),
{
    match item {
        IpAddressItem::Address { value } => IpSpec::Address { value: value.clone() },
        IpAddressItem::Range { start, stop } => IpSpec::Range { start: start.clone(), stop: stop.clone() },
        IpAddressItem::Subnet { value } => IpSpec::Subnet { value: value.clone() },
    }
}

/// The address specifications of an address filter.
pub fn convert_ip_address_filter(f: &IpAddressFilter) -> (res: Vec<IpSpec>)
    ensures
        is_ip_specs_of(res@, *f),
{
    match f {
        IpAddressFilter::Specific { items, .. } => {
            let mut out: Vec<IpSpec> = Vec::new();
            let mut i: usize = 0;
            while i < items.len()
                invariant
                    i <= items@.len(),
                    out@.len() == i,
                    forall|j: int| #![trigger out@[j]] 0 <= j < i ==> is_ip_spec_of(out@[j], items@[j]),
                decreases items.len() - i,
            {
                out.push(ip_spec_of(&items[i]));
                i = i + 1;
            }
            out
        },
        IpAddressFilter::TrafficMatchingList { traffic_matching_list_id, .. } => {
            let mut out: Vec<IpSpec> = Vec::new();
            out.push(IpSpec::MatchingList { list_id: uuid_id(traffic_matching_list_id) });
            out
        },
        IpAddressFilter::Unknown => Vec::new(),
    }
}

/// Whether an address filter matches the opposite of its addresses.
pub fn ip_filter_match_opposite(f: &IpAddressFilter) -> (res: bool)
    ensures
        res == ip_filter_opposite(*f),
{
    match f {
        IpAddressFilter::Specific { match_opposite, .. } => *match_opposite,
        IpAddressFilter::TrafficMatchingList { match_opposite, .. } => *match_opposite,
        IpAddressFilter::Unknown => false,
    }
}

fn mac_addresses_of(f: &Option<MacAddressFilter>) -> (res: Vec<String>)
    ensures
        res@ == mac_list(*f),
{
    match f {
        Some(m) => copy_strings(&m.mac_addresses),
        None => Vec::new(),
    }
}

fn copy_ids(v: &Vec<i64>) -> (res: Vec<i64>)
    ensures
        res@ == v@,
{
    let mut out: Vec<i64> = Vec::new();
    let mut i: usize = 0;
    while i < v.len()
        invariant
            i <= v@.len(),
            out@ == v@.take(i as int),
        decreases v.len() - i,
    {
        out.push(v[i]);
        i = i + 1;
        assert(out@ =~= v@.take(i as int));
    }
    assert(v@.take(v@.len() as int) =~= v@);
    out
}

fn unknown_filter() -> (res: TrafficFilter)
    ensures
        res matches TrafficFilter::Other { raw_type } && raw_type@ == "UNKNOWN"@,
{
    TrafficFilter::Other { raw_type: owned("UNKNOWN") }
}

/// The traffic filter of a policy source's filter.
pub fn convert_source_traffic_filter(f: &SourceTrafficFilter) -> (res: TrafficFilter)
    ensures
        is_source_filter_of(res, *f),
{
    match f {
        SourceTrafficFilter::Network { network_filter, mac_address_filter, port_filter } => TrafficFilter::Network {
            network_ids: uuid_id_list(&network_filter.network_ids),
            match_opposite: network_filter.match_opposite,
            mac_addresses: mac_addresses_of(mac_address_filter),
            ports: convert_opt_port_filter(port_filter),
        },
        SourceTrafficFilter::IpAddress { ip_address_filter, mac_address_filter, port_filter } => TrafficFilter::IpAddress {
            addresses: convert_ip_address_filter(ip_address_filter),
            match_opposite: ip_filter_match_opposite(ip_address_filter),
            mac_addresses: mac_addresses_of(mac_address_filter),
            ports: convert_opt_port_filter(port_filter),
        },
        SourceTrafficFilter::MacAddress { mac_address_filter, port_filter } => TrafficFilter::MacAddress {
            mac_addresses: copy_strings(&mac_address_filter.mac_addresses),
            ports: convert_opt_port_filter(port_filter),
        },
        SourceTrafficFilter::Port { port_filter } => TrafficFilter::Port { ports: convert_port_filter(port_filter) },
        SourceTrafficFilter::Region { region_filter, port_filter } => TrafficFilter::Region {
            regions: copy_strings(&region_filter.regions),
            ports: convert_opt_port_filter(port_filter),
        },
        SourceTrafficFilter::Unknown => unknown_filter(),
    }
}

/// The traffic filter of a policy destination's filter.
pub fn convert_dest_traffic_filter(f: &DestTrafficFilter) -> (res: TrafficFilter)
    ensures
        is_dest_filter_of(res, *f),
{
    match f {
        DestTrafficFilter::Network { network_filter, port_filter } => TrafficFilter::Network {
            network_ids: uuid_id_list(&network_filter.network_ids),
            match_opposite: network_filter.match_opposite,
            mac_addresses: Vec::new(),
            ports: convert_opt_port_filter(port_filter),
        },
        DestTrafficFilter::IpAddress { ip_address_filter, port_filter } => TrafficFilter::IpAddress {
            addresses: convert_ip_address_filter(ip_address_filter),
            match_opposite: ip_filter_match_opposite(ip_address_filter),
            mac_addresses: Vec::new(),
            ports: convert_opt_port_filter(port_filter),
        },
        DestTrafficFilter::Port { port_filter } => TrafficFilter::Port { ports: convert_port_filter(port_filter) },
        DestTrafficFilter::Region { region_filter, port_filter } => TrafficFilter::Region {
            regions: copy_strings(&region_filter.regions),
            ports: convert_opt_port_filter(port_filter),
        },
        DestTrafficFilter::Application { application_filter, port_filter } => TrafficFilter::Application {
            application_ids: copy_ids(&application_filter.application_ids),
            ports: convert_opt_port_filter(port_filter),
        },
        DestTrafficFilter::ApplicationCategory { application_category_filter, port_filter } => TrafficFilter::ApplicationCategory {
            category_ids: copy_ids(&application_category_filter.application_category_ids),
            ports: convert_opt_port_filter(port_filter),
        },
        DestTrafficFilter::Domain { domain_filter, port_filter } => {
            let domains = match domain_filter {
                DomainFilter::Specific { domains } => copy_strings(domains),
                DomainFilter::Unknown => Vec::new(),
            };
            TrafficFilter::Domain { domains, ports: convert_opt_port_filter(port_filter) }
        },
        DestTrafficFilter::Unknown => unknown_filter(),
    }
}

fn flat_zone(flat: Option<&JsonValue>) -> (res: Option<EntityId>)
    ensures
        flat_zone_of(res, deref_opt(flat)),
{
    match as_str(flat) {
        Some(t) => match canonical_uuid(t) {
            Some(u) => Some(EntityId::Uuid(u)),
            None => None,
        },
        None => None,
    }
}

fn opt_uuid_id(z: &Option<String>) -> (res: Option<EntityId>)
    ensures
        match *z {
            Some(t) => res matches Some(id) && is_uuid_id(id, t@),
            None => res is None,
        },
{
    match z {
        Some(t) => Some(uuid_id(t)),
        None => None,
    }
}

/// The source endpoint of a policy (see [`is_source_endpoint_of`]).
pub fn convert_policy_endpoint(endpoint: &Option<FirewallPolicySource>, flat_zone_id: Option<&JsonValue>) -> (res:
    PolicyEndpoint)
    ensures
        is_source_endpoint_of(res, *endpoint, deref_opt(flat_zone_id)),
{
    match endpoint {
        Some(ep) => PolicyEndpoint {
            zone_id: opt_uuid_id(&ep.zone_id),
            filter: match &ep.traffic_filter {
                Some(f) => Some(convert_source_traffic_filter(f)),
                None => None,
            },
        },
        None => PolicyEndpoint { zone_id: flat_zone(flat_zone_id), filter: None },
    }
}

/// The destination endpoint of a policy (see [`is_dest_endpoint_of`]).
pub fn convert_dest_policy_endpoint(endpoint: &Option<FirewallPolicyDestination>, flat_zone_id: Option<&JsonValue>) -> (res:
    PolicyEndpoint)
    ensures
        is_dest_endpoint_of(res, *endpoint, deref_opt(flat_zone_id)),
{
    match endpoint {
        Some(ep) => PolicyEndpoint {
            zone_id: opt_uuid_id(&ep.zone_id),
            filter: match &ep.traffic_filter {
                Some(f) => Some(convert_dest_traffic_filter(f)),
                None => None,
            },
        },
        None => PolicyEndpoint { zone_id: flat_zone(flat_zone_id), filter: None },
    }
}

fn summary_of(f: &Option<TrafficFilter>) -> (res: Option<String>)
    ensures
        opt_string(res) == opt_summary(*f),
{
    match f {
        Some(t) => Some(t.summary()),
        None => None,
    }
}

fn policy_action(action: &JsonValue) -> (res: FirewallAction)
    ensures
        res == spec_policy_action(action@),
{
    match as_str(get(action, "type")) {
        Some(a) => if str_eq(a, "ALLOW") {
            FirewallAction::Allow
        } else if str_eq(a, "REJECT") {
            FirewallAction::Reject
        } else {
            FirewallAction::Block
        },
        None => FirewallAction::Block,
    }
}

fn ip_version_of(scope: Option<&JsonValue>) -> (res: IpVersion)
    ensures
        res == spec_ip_version(deref_opt(scope)),
{
    match as_str(get_opt(scope, "ipVersion")) {
        Some(s) => if str_eq(s, "IPV4_ONLY") || str_eq(s, "IPV4") {
            IpVersion::Ipv4
        } else if str_eq(s, "IPV6_ONLY") || str_eq(s, "IPV6") {
            IpVersion::Ipv6
        } else {
            IpVersion::Both
        },
        None => IpVersion::Both,
    }
}

fn index_of(v: Option<&JsonValue>) -> (res: Option<i32>)
    ensures
        res == match json_i64(deref_opt(v)) {
            Some(i) => Some(i as i32),
            None => None,
        },
{
    match v {
        Some(JsonValue::UInt(n)) => if *n <= 0x7fff_ffff_ffff_ffff {
            Some((*n as i64) as i32)
        } else {
            None
        },
        Some(JsonValue::NegInt(n)) => Some(*n as i32),
        _ => None,
    }
}

/// The firewall policy a policy record describes (see [`is_policy_of`]).
pub fn firewall_policy_from_response(p: FirewallPolicyResponse) -> (res: FirewallPolicy)
    ensures
        is_policy_of(res, p),
{
    let action = policy_action(&p.action);
    let index = index_of(obj_lookup(&p.extra, "index"));
    let source = convert_policy_endpoint(&p.source, obj_lookup(&p.extra, "sourceFirewallZoneId"));
    let destination = convert_dest_policy_endpoint(&p.destination, obj_lookup(&p.extra, "destinationFirewallZoneId"));
    let source_summary = summary_of(&source.filter);
    let destination_summary = summary_of(&destination.filter);
    let ip_version = ip_version_of(p.ip_protocol_scope.as_ref());
    let ipsec_mode = match as_str(obj_lookup(&p.extra, "ipsecFilter")) {
        Some(s) => Some(owned(s)),
        None => None,
    };
    let connection_states = match as_array(obj_lookup(&p.extra, "connectionStateFilter")) {
        Some(items) => collect_strings(items),
        None => {
            let v: Vec<String> = Vec::new();
            assert(string_views(v@) =~= Seq::<Seq<char>>::empty());
            v
        },
    };
    let origin = match &p.metadata {
        Some(m) => origin_from_metadata(m),
        None => None,
    };
    FirewallPolicy {
        id: integration_uuid(p.id),
        name: p.name,
        description: p.description,
        enabled: p.enabled,
        index,
        action,
        ip_version,
        source,
        destination,
        source_summary,
        destination_summary,
        protocol_summary: None,
        schedule: None,
        ipsec_mode,
        connection_states,
        logging_enabled: p.logging_enabled,
        origin,
        data_source: DataSource::IntegrationApi,
    }
}

/// The firewall zone a zone record describes.
pub fn firewall_zone_from_response(z: FirewallZoneResponse) -> (res: FirewallZone)
    ensures
        is_uuid_id(res.id, z.id@),
        res.name@ == z.name@,
        uuid_ids(res.network_ids@, z.network_ids@),
        res.origin == spec_origin_from_metadata(z.metadata@),
        res.source == DataSource::IntegrationApi,
{
    let network_ids = uuid_id_list(&z.network_ids);
    let origin = origin_from_metadata(&z.metadata);
    FirewallZone { id: integration_uuid(z.id), name: z.name, network_ids, origin, source: DataSource::IntegrationApi }
}

/// The ACL rule a rule record describes: a MAC rule when its type is `MAC`
/// (else IPv4), allowing when its action is `ALLOW` (else blocking).
pub fn acl_rule_from_response(r: AclRuleResponse) -> (res: AclRule)
    ensures
        is_uuid_id(res.id, r.id@),
        res.name@ == r.name@,
        res.enabled == r.enabled,
        res.rule_type == (if r.rule_type@ == "MAC"@ { AclRuleType::Mac } else { AclRuleType::Ipv4 }),
        res.action == (if r.action@ == "ALLOW"@ { AclAction::Allow } else { AclAction::Block }),
        res.source_summary is None,
        res.destination_summary is None,
        res.origin == spec_origin_from_metadata(r.metadata@),
        res.source == DataSource::IntegrationApi,
{
    let rule_type = if str_eq(r.rule_type.as_str(), "MAC") {
        AclRuleType::Mac
    } else {
        AclRuleType::Ipv4
    };
    let action = if str_eq(r.action.as_str(), "ALLOW") {
        AclAction::Allow
    } else {
        AclAction::Block
    };
    let origin = origin_from_metadata(&r.metadata);
    AclRule {
        id: integration_uuid(r.id),
        name: r.name,
        enabled: r.enabled,
        rule_type,
        action,
        source_summary: None,
        destination_summary: None,
        origin,
        source: DataSource::IntegrationApi,
    }
}


/// A converted policy's IP version is the one its protocol scope names:
/// IPv4 exactly for `IPV4` or `IPV4_ONLY`, IPv6 exactly for `IPV6` or
/// `IPV6_ONLY`, and both when the scope names no version or another one.
pub proof fn lemma_policy_ip_version(fp: FirewallPolicy, p: FirewallPolicyResponse)
    requires
        is_policy_of(fp, p),
    ensures
        ({
            let named = match p.ip_protocol_scope {
                Some(v) => jstr(jget(v@, "ipVersion"@)),
                None => None,
            };
            &&& fp.ip_version == IpVersion::Ipv4 <==> (named == Some("IPV4"@) || named == Some("IPV4_ONLY"@))
            &&& fp.ip_version == IpVersion::Ipv6 <==> (named == Some("IPV6"@) || named == Some("IPV6_ONLY"@))
            &&& fp.ip_version == IpVersion::Both <==> !(named == Some("IPV4"@) || named == Some("IPV4_ONLY"@)
                || named == Some("IPV6"@) || named == Some("IPV6_ONLY"@))
        }),
{
    reveal_strlit("IPV4");
    reveal_strlit("IPV4_ONLY");
    reveal_strlit("IPV6");
    reveal_strlit("IPV6_ONLY");
    assert("IPV4"@[3] != "IPV6"@[3]);
    assert("IPV4_ONLY"@[3] != "IPV6_ONLY"@[3]);
}


/// A policy's action type decides its action: `ALLOW` allows, `REJECT`
/// rejects, and any other type (or none) blocks.
pub proof fn lemma_policy_action_by_type(action: JView)
    ensures
        spec_policy_action(action) == FirewallAction::Allow <==> jstr(jget(action, "type"@)) == Some("ALLOW"@),
        spec_policy_action(action) == FirewallAction::Reject <==> jstr(jget(action, "type"@)) == Some("REJECT"@),
        spec_policy_action(action) == FirewallAction::Block <==> !(jstr(jget(action, "type"@)) == Some("ALLOW"@)
            || jstr(jget(action, "type"@)) == Some("REJECT"@)),
{
    reveal_strlit("ALLOW");
    reveal_strlit("REJECT");
    assert("ALLOW"@.len() == 5 && "REJECT"@.len() == 6);
}

} // verus!
