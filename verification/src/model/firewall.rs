//! Firewall zones, policies, traffic filters, NAT policies, groups and ACL rules.
use vstd::prelude::*;

use super::entity::{DataSource, EntityId, EntityOrigin};
use crate::text::{decimal, join, join_seqs, lowercase, push_str, str_eq, string_views, to_lowercase, u64_to_decimal};

verus! {

/// Action of a firewall policy.
#[derive(Debug, Clone, Copy, PartialEq, Eq, Structural)]
pub enum FirewallAction {
    Allow,
    Block,
    Reject,
}

/// The action a name denotes, in any letter case: `allow`, `block` or
/// `reject`.
pub open spec fn spec_action_from_name(name: Seq<char>) -> Option<FirewallAction> {
    let l = lowercase(name);
    if l == "allow"@ {
        Some(FirewallAction::Allow)
    } else if l == "block"@ {
        Some(FirewallAction::Block)
    } else if l == "reject"@ {
        Some(FirewallAction::Reject)
    } else {
        None
    }
}

/// The action a name denotes, in any letter case; `None` for other names.
pub fn firewall_action_from_name(name: &str) -> (res: Option<FirewallAction>)
    ensures
        res == spec_action_from_name(name@),
{
    let l = to_lowercase(name);
    if str_eq(l.as_str(), "allow") {
        Some(FirewallAction::Allow)
    } else if str_eq(l.as_str(), "block") {
        Some(FirewallAction::Block)
    } else if str_eq(l.as_str(), "reject") {
        Some(FirewallAction::Reject)
    } else {
        None
    }
}

/// IP version a policy applies to.
#[derive(Debug, Clone, Copy, PartialEq, Eq, Structural)]
pub enum IpVersion {
    Ipv4,
    Ipv6,
    Both,
}

/// Firewall zone: a container of networks between which policies operate.
#[derive(Debug, Clone, PartialEq, Eq)]
pub struct FirewallZone {
    pub id: EntityId,
    pub name: String,
    pub network_ids: Vec<EntityId>,
    pub origin: Option<EntityOrigin>,
    pub source: DataSource,
}

/// Source or destination of a policy: a zone and an optional traffic filter.
#[derive(Debug, Clone, PartialEq, Eq)]
pub struct PolicyEndpoint {
    pub zone_id: Option<EntityId>,
    pub filter: Option<TrafficFilter>,
}

/// Traffic filter applied to a source or destination.
#[derive(Debug, Clone, PartialEq, Eq)]
pub enum TrafficFilter {
    Network {
        network_ids: Vec<EntityId>,
        match_opposite: bool,
        mac_addresses: Vec<String>,
        ports: Option<PortSpec>,
    },
    IpAddress {
        addresses: Vec<IpSpec>,
        match_opposite: bool,
        mac_addresses: Vec<String>,
        ports: Option<PortSpec>,
    },
    MacAddress { mac_addresses: Vec<String>, ports: Option<PortSpec> },
    Port { ports: PortSpec },
    Region { regions: Vec<String>, ports: Option<PortSpec> },
    Application { application_ids: Vec<i64>, ports: Option<PortSpec> },
    ApplicationCategory { category_ids: Vec<i64>, ports: Option<PortSpec> },
    Domain { domains: Vec<String>, ports: Option<PortSpec> },
    /// Catch-all for filter types not yet modeled.
    Other { raw_type: String },
}

/// Port specification.
#[derive(Debug, Clone, PartialEq, Eq)]
pub enum PortSpec {
    Values { items: Vec<String>, match_opposite: bool },
    MatchingList { list_id: EntityId, match_opposite: bool },
}

/// IP address specification.
#[derive(Debug, Clone, PartialEq, Eq)]
pub enum IpSpec {
    Address { value: String },
    Range { start: String, stop: String },
    Subnet { value: String },
    MatchingList { list_id: EntityId },
}

/// `"NOT "` for an inverted match, empty otherwise.
pub open spec fn negation_prefix(match_opposite: bool) -> Seq<char> {
    if match_opposite {
        "NOT "@
    } else {
        Seq::empty()
    }
}

/// Display text of one IP specification.
pub open spec fn ip_spec_text(a: IpSpec) -> Seq<char> {
    match a {
        IpSpec::Address { value } => value@,
        IpSpec::Subnet { value } => value@,
        IpSpec::Range { start, stop } => start@ + "-"@ + stop@,
        IpSpec::MatchingList { list_id } => "list:"@ + list_id.text(),
    }
}

/// Display of a list of items: all of them when there are at most two,
/// otherwise the first two and a count of the rest.
pub open spec fn short_list(items: Seq<Seq<char>>) -> Seq<char> {
    if items.len() <= 2 {
        join_seqs(items, ", "@)
    } else {
        items[0] + ", "@ + items[1] + " +"@ + decimal((items.len() - 2) as nat) + " more"@
    }
}

/// Summary of a port specification.
pub open spec fn port_spec_summary(spec: PortSpec) -> Seq<char> {
    match spec {
        PortSpec::Values { items, match_opposite } => negation_prefix(match_opposite) + "port("@
            + join_seqs(string_views(items@), ","@) + ")"@,
        PortSpec::MatchingList { list_id, match_opposite } => negation_prefix(match_opposite)
            + "port(list:"@ + list_id.text() + ")"@,
    }
}

impl TrafficFilter {
    /// Human-readable summary of the filter for table display.
    pub open spec fn spec_summary(self) -> Seq<char> {
        match self {
            TrafficFilter::Network { network_ids, match_opposite, .. } => negation_prefix(
                match_opposite,
            ) + "net("@ + decimal(network_ids@.len()) + " networks)"@,
            TrafficFilter::IpAddress { addresses, match_opposite, .. } => negation_prefix(
                match_opposite,
            ) + "ip("@ + short_list(addresses@.map_values(|a: IpSpec| ip_spec_text(a))) + ")"@,
            TrafficFilter::MacAddress { mac_addresses, .. } => "mac("@ + decimal(
                mac_addresses@.len(),
            ) + ")"@,
            TrafficFilter::Port { ports } => port_spec_summary(ports),
            TrafficFilter::Region { regions, .. } => "region("@ + join_seqs(
                string_views(regions@),
                ","@,
            ) + ")"@,
            TrafficFilter::Application { application_ids, .. } => "app("@ + decimal(
                application_ids@.len(),
            ) + " apps)"@,
            TrafficFilter::ApplicationCategory { category_ids, .. } => "cat("@ + decimal(
                category_ids@.len(),
            ) + " categories)"@,
            TrafficFilter::Domain { domains, .. } => if domains@.len() <= 2 {
                "domain("@ + join_seqs(string_views(domains@), ", "@) + ")"@
            } else {
                "domain("@ + domains@[0]@ + " +"@ + decimal((domains@.len() - 1) as nat)
                    + " more)"@
            },
            TrafficFilter::Other { raw_type } => "("@ + raw_type@ + ")"@,
        }
    }

    /// Human-readable summary of the filter for table display.
    pub fn summary(&self) -> (res: String)
        ensures
            res@ == self.spec_summary(),
    {
        match self {
            TrafficFilter::Network { network_ids, match_opposite, .. } => {
                let mut s = negation(*match_opposite);
                push_str(&mut s, "net(");
                let n = u64_to_decimal(network_ids.len() as u64);
                push_str(&mut s, n.as_str());
                push_str(&mut s, " networks)");
                s
            },
            TrafficFilter::IpAddress { addresses, match_opposite, .. } => {
                let mut items: Vec<String> = Vec::new();
                let mut i: usize = 0;
                while i < addresses.len()
                    invariant
                        i <= addresses.len(),
                        string_views(items@) == addresses@.take(i as int).map_values(
                            |a: IpSpec| ip_spec_text(a),
                        ),
                    decreases addresses.len() - i,
                {
                    let shown = ip_spec_display(&addresses[i]);
                    let ghost prev = items@;
                    items.push(shown);
                    assert(items@ == prev.push(shown));
                    assert(string_views(items@) =~= string_views(prev).push(shown@));
                    assert(addresses@.take(i + 1) =~= addresses@.take(i as int).push(addresses@[i as int]));
                    i = i + 1;
                    assert(string_views(items@) =~= addresses@.take(i as int).map_values(
                        |a: IpSpec| ip_spec_text(a),
                    ));
                }
                assert(addresses@.take(addresses.len() as int) =~= addresses@);
                let mut s = negation(*match_opposite);
                push_str(&mut s, "ip(");
                let shown = short_list_display(&items);
                push_str(&mut s, shown.as_str());
                push_str(&mut s, ")");
                s
            },
            TrafficFilter::MacAddress { mac_addresses, .. } => {
                let mut s = String::new();
                push_str(&mut s, "mac(");
                let n = u64_to_decimal(mac_addresses.len() as u64);
                push_str(&mut s, n.as_str());
                push_str(&mut s, ")");
                s
            },
            TrafficFilter::Port { ports } => summarize_ports(ports),
            TrafficFilter::Region { regions, .. } => {
                let mut s = String::new();
                push_str(&mut s, "region(");
                let joined = join(regions, ",");
                push_str(&mut s, joined.as_str());
                push_str(&mut s, ")");
                s
            },
            TrafficFilter::Application { application_ids, .. } => {
                let mut s = String::new();
                push_str(&mut s, "app(");
                let n = u64_to_decimal(application_ids.len() as u64);
                push_str(&mut s, n.as_str());
                push_str(&mut s, " apps)");
                s
            },
            TrafficFilter::ApplicationCategory { category_ids, .. } => {
                let mut s = String::new();
                push_str(&mut s, "cat(");
                let n = u64_to_decimal(category_ids.len() as u64);
                push_str(&mut s, n.as_str());
                push_str(&mut s, " categories)");
                s
            },
            TrafficFilter::Domain { domains, .. } => {
                let mut s = String::new();
                push_str(&mut s, "domain(");
                if domains.len() <= 2 {
                    let joined = join(domains, ", ");
                    push_str(&mut s, joined.as_str());
                    push_str(&mut s, ")");
                } else {
                    push_str(&mut s, domains[0].as_str());
                    push_str(&mut s, " +");
                    let n = u64_to_decimal((domains.len() - 1) as u64);
                    push_str(&mut s, n.as_str());
                    push_str(&mut s, " more)");
                }
                s
            },
            TrafficFilter::Other { raw_type } => {
                let mut s = String::new();
                push_str(&mut s, "(");
                push_str(&mut s, raw_type.as_str());
                push_str(&mut s, ")");
                s
            },
        }
    }
}

fn negation(match_opposite: bool) -> (res: String)
    ensures
        res@ == negation_prefix(match_opposite),
{
    let mut s = String::new();
    if match_opposite {
        push_str(&mut s, "NOT ");
    }
    s
}

fn ip_spec_display(a: &IpSpec) -> (res: String)
    ensures
        res@ == ip_spec_text(*a),
{
    match a {
        IpSpec::Address { value } => value.clone(),
        IpSpec::Subnet { value } => value.clone(),
        IpSpec::Range { start, stop } => {
            let mut s = start.clone();
            push_str(&mut s, "-");
            push_str(&mut s, stop.as_str());
            s
        },
        IpSpec::MatchingList { list_id } => {
            let mut s = String::new();
            push_str(&mut s, "list:");
            push_str(&mut s, list_id.as_str());
            s
        },
    }
}

fn short_list_display(items: &Vec<String>) -> (res: String)
    ensures
        res@ == short_list(string_views(items@)),
{
    if items.len() <= 2 {
        join(items, ", ")
    } else {
        let mut s = items[0].clone();
        push_str(&mut s, ", ");
        push_str(&mut s, items[1].as_str());
        push_str(&mut s, " +");
        let n = u64_to_decimal((items.len() - 2) as u64);
        push_str(&mut s, n.as_str());
        push_str(&mut s, " more");
        s
    }
}

/// Summary of a port specification for table display.
pub fn summarize_ports(spec: &PortSpec) -> (res: String)
    ensures
        res@ == port_spec_summary(*spec),
{
    match spec {
        PortSpec::Values { items, match_opposite } => {
            let mut s = negation(*match_opposite);
            push_str(&mut s, "port(");
            let joined = join(items, ",");
            push_str(&mut s, joined.as_str());
            push_str(&mut s, ")");
            s
        },
        PortSpec::MatchingList { list_id, match_opposite } => {
            let mut s = negation(*match_opposite);
            push_str(&mut s, "port(list:");
            push_str(&mut s, list_id.as_str());
            push_str(&mut s, ")");
            s
        },
    }
}

/// Firewall policy: a rule between two zones.
#[derive(Debug, Clone, PartialEq, Eq)]
pub struct FirewallPolicy {
    pub id: EntityId,
    pub name: String,
    pub description: Option<String>,
    pub enabled: bool,
    pub index: Option<i32>,
    pub action: FirewallAction,
    pub ip_version: IpVersion,
    pub source: PolicyEndpoint,
    pub destination: PolicyEndpoint,
    pub source_summary: Option<String>,
    pub destination_summary: Option<String>,
    pub protocol_summary: Option<String>,
    pub schedule: Option<String>,
    pub ipsec_mode: Option<String>,
    pub connection_states: Vec<String>,
    pub logging_enabled: bool,
    pub origin: Option<EntityOrigin>,
    pub data_source: DataSource,
}

/// NAT policy type.
#[derive(Debug, Clone, Copy, PartialEq, Eq, Structural)]
pub enum NatType {
    Masquerade,
    Source,
    Destination,
}

/// NAT policy: masquerade, source NAT or destination NAT rule.
#[derive(Debug, Clone, PartialEq, Eq)]
pub struct NatPolicy {
    pub id: EntityId,
    pub name: String,
    pub description: Option<String>,
    pub enabled: bool,
    pub nat_type: NatType,
    pub interface_id: Option<EntityId>,
    pub protocol: Option<String>,
    pub src_address: Option<String>,
    pub src_port: Option<String>,
    pub dst_address: Option<String>,
    pub dst_port: Option<String>,
    pub translated_address: Option<String>,
    pub translated_port: Option<String>,
    pub origin: Option<EntityOrigin>,
    pub data_source: DataSource,
}

/// Type of firewall group.
#[derive(Debug, Clone, Copy, PartialEq, Eq, Structural)]
pub enum FirewallGroupType {
    PortGroup,
    AddressGroup,
    Ipv6AddressGroup,
}

impl FirewallGroupType {
    /// Display name of the group type.
    pub open spec fn spec_name(self) -> Seq<char> {
        match self {
            FirewallGroupType::PortGroup => "port-group"@,
            FirewallGroupType::AddressGroup => "address-group"@,
            FirewallGroupType::Ipv6AddressGroup => "ipv6-address-group"@,
        }
    }

    /// Display name of the group type (its `Display` text).
    pub fn display_name(&self) -> (res: &'static str)
        ensures
            res@ == self.spec_name(),
    {
        match self {
            FirewallGroupType::PortGroup => "port-group",
            FirewallGroupType::AddressGroup => "address-group",
            FirewallGroupType::Ipv6AddressGroup => "ipv6-address-group",
        }
    }
}

/// Firewall group: port group, address group or IPv6 address group.
#[derive(Debug, Clone, PartialEq, Eq)]
pub struct FirewallGroup {
    pub id: EntityId,
    pub external_id: Option<String>,
    pub name: String,
    pub group_type: FirewallGroupType,
    pub group_members: Vec<String>,
    pub source: DataSource,
}

/// ACL rule action.
#[derive(Debug, Clone, Copy, PartialEq, Eq, Structural)]
pub enum AclAction {
    Allow,
    Block,
}

/// ACL rule type.
#[derive(Debug, Clone, Copy, PartialEq, Eq, Structural)]
pub enum AclRuleType {
    Ipv4,
    Mac,
}

/// ACL rule.
#[derive(Debug, Clone, PartialEq, Eq)]
pub struct AclRule {
    pub id: EntityId,
    pub name: String,
    pub enabled: bool,
    pub rule_type: AclRuleType,
    pub action: AclAction,
    pub source_summary: Option<String>,
    pub destination_summary: Option<String>,
    pub origin: Option<EntityOrigin>,
    pub source: DataSource,
}

} // verus!
