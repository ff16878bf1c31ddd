//! Firewall policy, zone, ACL and NAT requests, and the resolution of the
//! shorthand filter fields of a firewall policy request.
use vstd::prelude::*;

use crate::json::JsonValue;
use crate::model::entity::EntityId;
use crate::model::firewall::FirewallAction;
use crate::text::{owned, push_str, str_eq, string_views};

verus! {

/// Port side of a filter: inline values, or a firewall port group by its
/// `external_id`.
#[derive(Debug, Clone, PartialEq, Eq)]
pub enum PortSpec {
    /// Inline port values (single ports or ranges such as `8000-9000`).
    Values { items: Vec<String>, match_opposite: bool },
    /// A port group by its `external_id`.
    MatchingList { list_id: String, match_opposite: bool },
}

/// Traffic filter of one side of a firewall policy.
#[derive(Debug, Clone, PartialEq, Eq)]
pub enum TrafficFilterSpec {
    Network { network_ids: Vec<String>, match_opposite: bool, ports: Option<PortSpec> },
    IpAddress { addresses: Vec<String>, match_opposite: bool, ports: Option<PortSpec> },
    Port { ports: PortSpec },
}

/// The mathematical form of a [`PortSpec`].
pub enum PortSpecView {
    Values(Seq<Seq<char>>, bool),
    MatchingList(Seq<char>, bool),
}

/// The mathematical form of a [`TrafficFilterSpec`].
pub enum FilterView {
    Network(Seq<Seq<char>>, bool, Option<PortSpecView>),
    IpAddress(Seq<Seq<char>>, bool, Option<PortSpecView>),
    Port(PortSpecView),
}

impl View for PortSpec {
    type V = PortSpecView;

    open spec fn view(&self) -> PortSpecView {
        match self {
            PortSpec::Values { items, match_opposite } => PortSpecView::Values(string_views(items@), *match_opposite),
            PortSpec::MatchingList { list_id, match_opposite } => PortSpecView::MatchingList(list_id@, *match_opposite),
        }
    }
}

/// View of an optional port side.
pub open spec fn opt_ports_view(p: Option<PortSpec>) -> Option<PortSpecView> {
    match p {
        Some(x) => Some(x@),
        None => None,
    }
}

impl View for TrafficFilterSpec {
    type V = FilterView;

    open spec fn view(&self) -> FilterView {
        match self {
            TrafficFilterSpec::Network { network_ids, match_opposite, ports } => FilterView::Network(
                string_views(network_ids@),
                *match_opposite,
                opt_ports_view(*ports),
            ),
            TrafficFilterSpec::IpAddress { addresses, match_opposite, ports } => FilterView::IpAddress(
                string_views(addresses@),
                *match_opposite,
                opt_ports_view(*ports),
            ),
            TrafficFilterSpec::Port { ports } => FilterView::Port(ports@),
        }
    }
}

/// View of an optional filter.
pub open spec fn opt_filter_view(f: Option<TrafficFilterSpec>) -> Option<FilterView> {
    match f {
        Some(x) => Some(x@),
        None => None,
    }
}

/// View of an optional list of strings.
pub open spec fn opt_list_view(o: Option<Vec<String>>) -> Option<Seq<Seq<char>>> {
    match o {
        Some(v) => Some(string_views(v@)),
        None => None,
    }
}

/// A filter as files written before port groups existed may hold it: a
/// `Port` filter there has flat values and its own `match_opposite`.
#[derive(Debug, Clone, PartialEq, Eq)]
pub enum TrafficFilterSpecWire {
    Network { network_ids: Vec<String>, match_opposite: bool, ports: Option<PortSpec> },
    IpAddress { addresses: Vec<String>, match_opposite: bool, ports: Option<PortSpec> },
    Port { ports: PortSpec, match_opposite: bool },
}

/// A port side written either in the tagged form or as a flat list of values.
#[derive(Debug, Clone, PartialEq, Eq)]
pub enum PortSpecCompat {
    Tagged(PortSpec),
    LegacyArray(Vec<String>),
}

/// The port side a compatible form denotes: a flat list is inline values.
pub fn port_spec_from_compat(c: PortSpecCompat) -> (res: PortSpec)
    ensures
        res@ == match c {
            PortSpecCompat::Tagged(p) => p@,
            PortSpecCompat::LegacyArray(items) => PortSpecView::Values(string_views(items@), false),
        },
{
    match c {
        PortSpecCompat::Tagged(p) => p,
        PortSpecCompat::LegacyArray(items) => PortSpec::Values { items, match_opposite: false },
    }
}

/// A port side with `match_opposite` set when `also` is.
pub open spec fn with_opposite(p: PortSpecView, also: bool) -> PortSpecView {
    match p {
        PortSpecView::Values(items, mo) => PortSpecView::Values(items, mo || also),
        PortSpecView::MatchingList(id, mo) => PortSpecView::MatchingList(id, mo || also),
    }
}

impl TrafficFilterSpec {
    /// The filter a stored form denotes: the legacy `match_opposite` of a
    /// `Port` filter is folded into its port side.
    pub fn from_wire(wire: TrafficFilterSpecWire) -> (res: TrafficFilterSpec)
        ensures
            res@ == match wire {
                TrafficFilterSpecWire::Network { network_ids, match_opposite, ports } => FilterView::Network(
                    string_views(network_ids@),
                    match_opposite,
                    opt_ports_view(ports),
                ),
                TrafficFilterSpecWire::IpAddress { addresses, match_opposite, ports } => FilterView::IpAddress(
                    string_views(addresses@),
                    match_opposite,
                    opt_ports_view(ports),
                ),
                TrafficFilterSpecWire::Port { ports, match_opposite } => FilterView::Port(
                    with_opposite(ports@, match_opposite),
                ),
            },
    {
        match wire {
            TrafficFilterSpecWire::Network { network_ids, match_opposite, ports } => TrafficFilterSpec::Network {
                network_ids,
                match_opposite,
                ports,
            },
            TrafficFilterSpecWire::IpAddress { addresses, match_opposite, ports } => TrafficFilterSpec::IpAddress {
                addresses,
                match_opposite,
                ports,
            },
            TrafficFilterSpecWire::Port { ports, match_opposite: legacy } => {
                let ports = match ports {
                    PortSpec::Values { items, match_opposite } => PortSpec::Values {
                        items,
                        match_opposite: match_opposite || legacy,
                    },
                    PortSpec::MatchingList { list_id, match_opposite } => PortSpec::MatchingList {
                        list_id,
                        match_opposite: match_opposite || legacy,
                    },
                };
                TrafficFilterSpec::Port { ports }
            },
        }
    }
}

/// Request to create a firewall policy.
#[derive(Debug, Clone, PartialEq, Eq)]
pub struct CreateFirewallPolicyRequest {
    pub name: String,
    pub action: FirewallAction,
    pub source_zone_id: EntityId,
    pub destination_zone_id: EntityId,
    pub enabled: bool,
    pub logging_enabled: bool,
    pub allow_return_traffic: bool,
    pub description: Option<String>,
    pub ip_version: Option<String>,
    pub connection_states: Option<Vec<String>>,
    pub source_filter: Option<TrafficFilterSpec>,
    pub destination_filter: Option<TrafficFilterSpec>,
    /// Shorthand for a source network filter.
    pub src_network: Option<Vec<String>>,
    /// Shorthand for a source address filter.
    pub src_ip: Option<Vec<String>>,
    /// Shorthand for source ports.
    pub src_port: Option<Vec<String>>,
    /// Shorthand for a destination network filter.
    pub dst_network: Option<Vec<String>>,
    /// Shorthand for a destination address filter.
    pub dst_ip: Option<Vec<String>>,
    /// Shorthand for destination ports.
    pub dst_port: Option<Vec<String>>,
}

/// Default of the flags that are on unless stated.
pub fn default_true() -> (res: bool)
    ensures
        res,
{
    true
}

/// Request to update a firewall policy; unset fields stay as they are.
#[derive(Debug, Clone, Default, PartialEq, Eq)]
pub struct UpdateFirewallPolicyRequest {
    pub name: Option<String>,
    pub action: Option<FirewallAction>,
    pub allow_return_traffic: Option<bool>,
    pub enabled: Option<bool>,
    pub description: Option<String>,
    pub ip_version: Option<String>,
    pub connection_states: Option<Vec<String>>,
    pub source_filter: Option<TrafficFilterSpec>,
    pub destination_filter: Option<TrafficFilterSpec>,
    pub logging_enabled: Option<bool>,
    pub src_network: Option<Vec<String>>,
    pub src_ip: Option<Vec<String>>,
    pub src_port: Option<Vec<String>>,
    pub dst_network: Option<Vec<String>>,
    pub dst_ip: Option<Vec<String>>,
    pub dst_port: Option<Vec<String>>,
}

/// The filter of one side (`prefix` is `src` or `dst`) given its full filter
/// and its shorthand lists. A network list and an address list exclude each
/// other, and shorthand excludes a full filter; ports go with either list, or
/// alone make a port filter.
pub open spec fn spec_resolve_side(
    prefix: Seq<char>,
    existing: Option<FilterView>,
    networks: Option<Seq<Seq<char>>>,
    ips: Option<Seq<Seq<char>>>,
    ports: Option<Seq<Seq<char>>>,
) -> Result<Option<FilterView>, Seq<char>> {
    if networks is Some && ips is Some {
        Err("cannot combine "@ + prefix + "_network and "@ + prefix + "_ip"@)
    } else if (networks is Some || ips is Some || ports is Some) && existing is Some {
        Err("cannot combine shorthand fields with "@ + if prefix == "src"@ {
            "source_filter"@
        } else {
            "destination_filter"@
        })
    } else if existing is Some {
        Ok(existing)
    } else {
        let port_spec = match ports {
            Some(items) => Some(PortSpecView::Values(items, false)),
            None => None,
        };
        match networks {
            Some(n) => Ok(Some(FilterView::Network(n, false, port_spec))),
            None => match ips {
                Some(a) => Ok(Some(FilterView::IpAddress(a, false, port_spec))),
                None => match port_spec {
                    Some(p) => Ok(Some(FilterView::Port(p))),
                    None => Ok(None),
                },
            },
        }
    }
}

/// Resolves one side of a firewall policy's filters from its full filter and
/// shorthand lists (see [`spec_resolve_side`]).
pub fn resolve_side(
    prefix: &str,
    existing: Option<TrafficFilterSpec>,
    networks: Option<Vec<String>>,
    ips: Option<Vec<String>>,
    ports: Option<Vec<String>>,
) -> (res: Result<Option<TrafficFilterSpec>, String>)
    ensures
        match spec_resolve_side(prefix@, opt_filter_view(existing), opt_list_view(networks), opt_list_view(ips), opt_list_view(ports)) {
            Ok(f) => res matches Ok(r) && opt_filter_view(r) == f,
            Err(m) => res matches Err(e) && e@ == m,
        },
{
    if networks.is_some() && ips.is_some() {
        let mut m = String::new();
        push_str(&mut m, "cannot combine ");
        push_str(&mut m, prefix);
        push_str(&mut m, "_network and ");
        push_str(&mut m, prefix);
        push_str(&mut m, "_ip");
        return Err(m);
    }
    let has_shorthand = networks.is_some() || ips.is_some() || ports.is_some();
    if has_shorthand && existing.is_some() {
        let mut m = String::new();
        push_str(&mut m, "cannot combine shorthand fields with ");
        if str_eq(prefix, "src") {
            push_str(&mut m, "source_filter");
        } else {
            push_str(&mut m, "destination_filter");
        }
        return Err(m);
    }
    if let Some(existing) = existing {
        return Ok(Some(existing));
    }
    let port_spec = match ports {
        Some(items) => Some(PortSpec::Values { items, match_opposite: false }),
        None => None,
    };
    match networks {
        Some(network_ids) => Ok(Some(TrafficFilterSpec::Network { network_ids, match_opposite: false, ports: port_spec })),
        None => match ips {
            Some(addresses) => Ok(Some(TrafficFilterSpec::IpAddress { addresses, match_opposite: false, ports: port_spec })),
            None => match port_spec {
                Some(p) => Ok(Some(TrafficFilterSpec::Port { ports: p })),
                None => Ok(None),
            },
        },
    }
}


impl CreateFirewallPolicyRequest {
    /// Turns the shorthand `src_*`/`dst_*` fields into the source and
    /// destination filters, source side first. The shorthand fields and each
    /// side's filter are taken as the side is resolved; a conflict on a side
    /// is reported and leaves that side's filter cleared and the later side
    /// as it was.
    pub fn resolve_filters(&mut self) -> (res: Result<(), String>)
        ensures
            ({
                let o = *old(self);
                let f = *final(self);
                let src = spec_resolve_side(
                    "src"@,
                    opt_filter_view(o.source_filter),
                    opt_list_view(o.src_network),
                    opt_list_view(o.src_ip),
                    opt_list_view(o.src_port),
                );
                let dst = spec_resolve_side(
                    "dst"@,
                    opt_filter_view(o.destination_filter),
                    opt_list_view(o.dst_network),
                    opt_list_view(o.dst_ip),
                    opt_list_view(o.dst_port),
                );
                &&& f.src_network is None && f.src_ip is None && f.src_port is None
                &&& f.name == o.name && f.action == o.action && f.source_zone_id == o.source_zone_id
                &&& f.destination_zone_id == o.destination_zone_id && f.enabled == o.enabled
                &&& f.logging_enabled == o.logging_enabled && f.allow_return_traffic == o.allow_return_traffic
                &&& f.description == o.description && f.ip_version == o.ip_version
                &&& f.connection_states == o.connection_states
                &&& match src {
                    Err(m) => {
                        &&& res matches Err(e) && e@ == m
                        &&& f.source_filter is None
                        &&& f.destination_filter == o.destination_filter
                        &&& f.dst_network == o.dst_network && f.dst_ip == o.dst_ip && f.dst_port == o.dst_port
                    },
                    Ok(s) => {
                        &&& opt_filter_view(f.source_filter) == s
                        &&& f.dst_network is None && f.dst_ip is None && f.dst_port is None
                        &&& match dst {
                            Err(m) => res matches Err(e) && e@ == m && f.destination_filter is None,
                            Ok(d) => res is Ok && opt_filter_view(f.destination_filter) == d,
                        }
                    },
                }
            }),
    {
        let existing = self.source_filter.take();
        let networks = self.src_network.take();
        let ips = self.src_ip.take();
        let ports = self.src_port.take();
        match resolve_side("src", existing, networks, ips, ports) {
            Ok(f) => {
                self.source_filter = f;
            },
            Err(e) => {
                return Err(e);
            },
        }
        let existing = self.destination_filter.take();
        let networks = self.dst_network.take();
        let ips = self.dst_ip.take();
        let ports = self.dst_port.take();
        match resolve_side("dst", existing, networks, ips, ports) {
            Ok(f) => {
                self.destination_filter = f;
                Ok(())
            },
            Err(e) => Err(e),
        }
    }
}

impl UpdateFirewallPolicyRequest {
    /// Turns the shorthand `src_*`/`dst_*` fields into the source and
    /// destination filters, source side first. The shorthand fields and each
    /// side's filter are taken as the side is resolved; a conflict on a side
    /// is reported and leaves that side's filter cleared and the later side
    /// as it was.
    pub fn resolve_filters(&mut self) -> (res: Result<(), String>)
        ensures
            ({
                let o = *old(self);
                let f = *final(self);
                let src = spec_resolve_side(
                    "src"@,
                    opt_filter_view(o.source_filter),
                    opt_list_view(o.src_network),
                    opt_list_view(o.src_ip),
                    opt_list_view(o.src_port),
                );
                let dst = spec_resolve_side(
                    "dst"@,
                    opt_filter_view(o.destination_filter),
                    opt_list_view(o.dst_network),
                    opt_list_view(o.dst_ip),
                    opt_list_view(o.dst_port),
                );
                &&& f.src_network is None && f.src_ip is None && f.src_port is None
                &&& f.name == o.name && f.action == o.action && f.allow_return_traffic == o.allow_return_traffic
                &&& f.enabled == o.enabled && f.description == o.description && f.ip_version == o.ip_version
                &&& f.connection_states == o.connection_states && f.logging_enabled == o.logging_enabled
                &&& match src {
                    Err(m) => {
                        &&& res matches Err(e) && e@ == m
                        &&& f.source_filter is None
                        &&& f.destination_filter == o.destination_filter
                        &&& f.dst_network == o.dst_network && f.dst_ip == o.dst_ip && f.dst_port == o.dst_port
                    },
                    Ok(s) => {
                        &&& opt_filter_view(f.source_filter) == s
                        &&& f.dst_network is None && f.dst_ip is None && f.dst_port is None
                        &&& match dst {
                            Err(m) => res matches Err(e) && e@ == m && f.destination_filter is None,
                            Ok(d) => res is Ok && opt_filter_view(f.destination_filter) == d,
                        }
                    },
                }
            }),
    {
        let existing = self.source_filter.take();
        let networks = self.src_network.take();
        let ips = self.src_ip.take();
        let ports = self.src_port.take();
        match resolve_side("src", existing, networks, ips, ports) {
            Ok(f) => {
                self.source_filter = f;
            },
            Err(e) => {
                return Err(e);
            },
        }
        let existing = self.destination_filter.take();
        let networks = self.dst_network.take();
        let ips = self.dst_ip.take();
        let ports = self.dst_port.take();
        match resolve_side("dst", existing, networks, ips, ports) {
            Ok(f) => {
                self.destination_filter = f;
                Ok(())
            },
            Err(e) => Err(e),
        }
    }
}

/// Request to create a firewall zone.
#[derive(Debug, Clone, PartialEq, Eq)]
pub struct CreateFirewallZoneRequest {
    pub name: String,
    pub description: Option<String>,
    pub network_ids: Vec<EntityId>,
}

/// Request to update a firewall zone; unset fields stay as they are.
#[derive(Debug, Clone, Default, PartialEq, Eq)]
pub struct UpdateFirewallZoneRequest {
    pub name: Option<String>,
    pub description: Option<String>,
    pub network_ids: Option<Vec<EntityId>>,
}

/// Request to create an ACL rule.
#[derive(Debug, PartialEq, Eq)]
pub struct CreateAclRuleRequest {
    pub name: String,
    pub rule_type: String,
    pub action: FirewallAction,
    pub source_zone_id: EntityId,
    pub destination_zone_id: EntityId,
    pub description: Option<String>,
    pub protocol: Option<String>,
    pub source_port: Option<String>,
    pub destination_port: Option<String>,
    pub source_filter: Option<TrafficFilterSpec>,
    pub destination_filter: Option<TrafficFilterSpec>,
    pub enforcing_device_filter: Option<JsonValue>,
    pub enabled: bool,
}

/// Default rule type of an ACL rule: `IP`.
pub fn default_acl_rule_type() -> (res: String)
    ensures
        res@ == "IP"@,
{
    owned("IP")
}

/// Request to update an ACL rule; unset fields stay as they are.
#[derive(Debug, Default, PartialEq, Eq)]
pub struct UpdateAclRuleRequest {
    pub name: Option<String>,
    pub rule_type: Option<String>,
    pub action: Option<FirewallAction>,
    pub enabled: Option<bool>,
    pub description: Option<String>,
    pub source_zone_id: Option<EntityId>,
    pub destination_zone_id: Option<EntityId>,
    pub protocol: Option<String>,
    pub source_port: Option<String>,
    pub destination_port: Option<String>,
    pub source_filter: Option<TrafficFilterSpec>,
    pub destination_filter: Option<TrafficFilterSpec>,
    pub enforcing_device_filter: Option<JsonValue>,
}

/// Request to create a NAT policy.
#[derive(Debug, Clone, PartialEq, Eq)]
pub struct CreateNatPolicyRequest {
    pub name: String,
    /// `masquerade`, `source` or `destination`.
    pub nat_type: String,
    pub description: Option<String>,
    pub enabled: bool,
    pub interface_id: Option<EntityId>,
    /// `tcp`, `udp`, `tcp_udp` or `all`.
    pub protocol: Option<String>,
    pub src_address: Option<String>,
    pub src_port: Option<String>,
    pub dst_address: Option<String>,
    pub dst_port: Option<String>,
    pub translated_address: Option<String>,
    pub translated_port: Option<String>,
}

/// Request to update a NAT policy; unset fields stay as they are.
#[derive(Debug, Clone, Default, PartialEq, Eq)]
pub struct UpdateNatPolicyRequest {
    pub name: Option<String>,
    pub nat_type: Option<String>,
    pub description: Option<String>,
    pub enabled: Option<bool>,
    pub interface_id: Option<EntityId>,
    pub protocol: Option<String>,
    pub src_address: Option<String>,
    pub src_port: Option<String>,
    pub dst_address: Option<String>,
    pub dst_port: Option<String>,
    pub translated_address: Option<String>,
    pub translated_port: Option<String>,
}

} // verus!
