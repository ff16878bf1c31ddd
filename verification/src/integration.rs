//! Request and response bodies of the Integration API that the library's
//! logic builds or reads.
use vstd::prelude::*;

use crate::json::{JView, JsonValue};
use crate::text::{decimal, u64_to_decimal, push_str};

verus! {

/// An address item of an IP address filter.
#[derive(Debug, Clone, PartialEq, Eq)]
pub enum IpAddressItem {
    Address { value: String },
    Range { start: String, stop: String },
    Subnet { value: String },
}

/// A port item of a port filter.
#[derive(Debug, Clone, PartialEq, Eq)]
pub enum PortItem {
    Number { value: String },
    Range { start_port: String, end_port: String },
    Unknown,
}

/// A filter on MAC addresses.
#[derive(Debug, Clone, PartialEq, Eq)]
pub struct MacAddressFilter {
    pub mac_addresses: Vec<String>,
}

/// A filter on applications.
#[derive(Debug, Clone, PartialEq, Eq)]
pub struct ApplicationFilter {
    pub application_ids: Vec<i64>,
}

/// A filter on application categories.
#[derive(Debug, Clone, PartialEq, Eq)]
pub struct ApplicationCategoryFilter {
    pub application_category_ids: Vec<i64>,
}

/// A filter on regions.
#[derive(Debug, Clone, PartialEq, Eq)]
pub struct RegionFilter {
    pub regions: Vec<String>,
}

/// A filter on domains.
#[derive(Debug, Clone, PartialEq, Eq)]
pub enum DomainFilter {
    Specific { domains: Vec<String> },
    Unknown,
}

/// Partial update of a firewall policy's flags.
#[derive(Debug, Clone, PartialEq, Eq)]
pub struct FirewallPolicyPatch {
    pub enabled: Option<bool>,
    pub logging_enabled: Option<bool>,
}

/// Body of a voucher creation call.
#[derive(Debug, Clone, PartialEq, Eq)]
pub struct VoucherCreateRequest {
    pub name: String,
    pub count: Option<i32>,
    pub time_limit_minutes: i64,
    pub authorized_guest_limit: Option<i64>,
    pub data_usage_limit_m_bytes: Option<i64>,
    pub rx_rate_limit_kbps: Option<i64>,
    pub tx_rate_limit_kbps: Option<i64>,
}

/// Body of a device action call.
#[derive(Debug, Clone, PartialEq, Eq)]
pub struct DeviceActionRequest {
    pub action: String,
}

/// Body of a device adoption call.
#[derive(Debug, Clone, PartialEq, Eq)]
pub struct DeviceAdoptionRequest {
    pub mac_address: String,
    pub ignore_device_limit: bool,
}

/// Body of a client action call.
#[derive(Debug, Clone, PartialEq, Eq)]
pub struct ClientActionRequest {
    pub action: String,
}

/// Body of a port action call.
#[derive(Debug, Clone, PartialEq, Eq)]
pub struct PortActionRequest {
    pub action: String,
}

/// A DNS policy as the Integration API returns it.
#[derive(Debug, PartialEq, Eq)]
pub struct DnsPolicyResponse {
    /// The policy's UUID, in text form.
    pub id: String,
    /// Wire name of the policy type.
    pub policy_type: String,
    pub enabled: bool,
    pub domain: Option<String>,
    pub metadata: JsonValue,
    /// Every other field of the policy.
    pub extra: Vec<(String, JsonValue)>,
}

/// Body of a network create or update call.
#[derive(Debug, PartialEq, Eq)]
pub struct NetworkCreateUpdate {
    pub name: String,
    pub enabled: bool,
    /// `GATEWAY`, `SWITCH` or `UNMANAGED`.
    pub management: String,
    pub vlan_id: i32,
    pub dhcp_guarding: Option<JsonValue>,
    /// Every other field of the network.
    pub extra: Vec<(String, JsonValue)>,
}

/// A network as the Integration API returns it.
#[derive(Debug, PartialEq, Eq)]
pub struct NetworkDetailsResponse {
    /// The network's UUID, in text form.
    pub id: String,
    pub name: String,
    pub enabled: bool,
    pub management: String,
    pub vlan_id: i32,
    pub default: bool,
    pub dhcp_guarding: Option<JsonValue>,
    pub metadata: JsonValue,
    /// Every other field of the network.
    pub extra: Vec<(String, JsonValue)>,
}

/// A NAT policy as the Integration API returns it.
#[derive(Debug, PartialEq, Eq)]
pub struct NatPolicyResponse {
    /// The policy's UUID, in text form.
    pub id: String,
    pub name: String,
    pub description: Option<String>,
    pub enabled: bool,
    /// `MASQUERADE`, `SOURCE_NAT` or `DESTINATION_NAT`.
    pub nat_type: String,
    /// UUID text of the interface.
    pub interface_id: Option<String>,
    pub protocol: Option<String>,
    pub source: Option<JsonValue>,
    pub destination: Option<JsonValue>,
    pub translated_address: Option<String>,
    pub translated_port: Option<String>,
    pub metadata: Option<JsonValue>,
    /// Every other field of the policy.
    pub extra: Vec<(String, JsonValue)>,
}

/// Decimal text of a signed integer.
pub open spec fn signed_decimal(n: int) -> Seq<char> {
    if n < 0 {
        "-"@ + decimal((-n) as nat)
    } else {
        decimal(n as nat)
    }
}

/// The text of a port value, given as a number or as text; `None` for other values.
pub open spec fn spec_port_value_text(v: JView) -> Option<Seq<char>> {
    match v {
        JView::UInt(n) => Some(decimal(n as nat)),
        JView::NegInt(n) => Some(signed_decimal(n as int)),
        JView::Str(s) => Some(s),
        _ => None,
    }
}

/// Reads a port value given as a number or as text.
pub fn port_value_text(v: &JsonValue) -> (res: Option<String>)
    ensures
        match res {
            Some(s) => spec_port_value_text(v@) == Some(s@),
            None => spec_port_value_text(v@) is None,
        },
{
    match v {
        JsonValue::UInt(n) => Some(u64_to_decimal(*n)),
        JsonValue::NegInt(n) => {
            let n = *n;
            let magnitude: u64 = if n < 0 {
                (-(n as i128)) as u64
            } else {
                n as u64
            };
            let digits = u64_to_decimal(magnitude);
            if n < 0 {
                let mut s = String::new();
                push_str(&mut s, "-");
                push_str(&mut s, digits.as_str());
                Some(s)
            } else {
                Some(digits)
            }
        },
        JsonValue::Str(s) => Some(s.clone()),
        _ => None,
    }
}

/// A filter on networks, by their UUID texts.
#[derive(Debug, Clone, PartialEq, Eq)]
pub struct NetworkFilter {
    pub network_ids: Vec<String>,
    pub match_opposite: bool,
}

/// A filter on IP addresses.
#[derive(Debug, Clone, PartialEq, Eq)]
pub enum IpAddressFilter {
    Specific { items: Vec<IpAddressItem>, match_opposite: bool },
    /// A traffic matching list, by its UUID text.
    TrafficMatchingList { traffic_matching_list_id: String, match_opposite: bool },
    Unknown,
}

/// A filter on ports.
#[derive(Debug, Clone, PartialEq, Eq)]
pub enum PortFilter {
    Ports { items: Vec<PortItem>, match_opposite: bool },
    /// A traffic matching list, by its UUID text.
    TrafficMatchingList { traffic_matching_list_id: String, match_opposite: bool },
    Unknown,
}

/// Traffic filter of a policy's source.
#[derive(Debug, Clone, PartialEq, Eq)]
pub enum SourceTrafficFilter {
    Network {
        network_filter: NetworkFilter,
        mac_address_filter: Option<MacAddressFilter>,
        port_filter: Option<PortFilter>,
    },
    IpAddress {
        ip_address_filter: IpAddressFilter,
        mac_address_filter: Option<MacAddressFilter>,
        port_filter: Option<PortFilter>,
    },
    MacAddress { mac_address_filter: MacAddressFilter, port_filter: Option<PortFilter> },
    Port { port_filter: PortFilter },
    Region { region_filter: RegionFilter, port_filter: Option<PortFilter> },
    Unknown,
}

/// Traffic filter of a policy's destination.
#[derive(Debug, Clone, PartialEq, Eq)]
pub enum DestTrafficFilter {
    Network { network_filter: NetworkFilter, port_filter: Option<PortFilter> },
    IpAddress { ip_address_filter: IpAddressFilter, port_filter: Option<PortFilter> },
    Port { port_filter: PortFilter },
    Region { region_filter: RegionFilter, port_filter: Option<PortFilter> },
    Application { application_filter: ApplicationFilter, port_filter: Option<PortFilter> },
    ApplicationCategory { application_category_filter: ApplicationCategoryFilter, port_filter: Option<PortFilter> },
    Domain { domain_filter: DomainFilter, port_filter: Option<PortFilter> },
    Unknown,
}

/// Source endpoint of a firewall policy.
#[derive(Debug, Clone, PartialEq, Eq)]
pub struct FirewallPolicySource {
    /// UUID text of the zone.
    pub zone_id: Option<String>,
    pub traffic_filter: Option<SourceTrafficFilter>,
}

/// Destination endpoint of a firewall policy.
#[derive(Debug, Clone, PartialEq, Eq)]
pub struct FirewallPolicyDestination {
    /// UUID text of the zone.
    pub zone_id: Option<String>,
    pub traffic_filter: Option<DestTrafficFilter>,
}

/// A firewall policy as the Integration API returns it.
#[derive(Debug, PartialEq, Eq)]
pub struct FirewallPolicyResponse {
    /// The policy's UUID, in text form.
    pub id: String,
    pub name: String,
    pub description: Option<String>,
    pub enabled: bool,
    pub action: JsonValue,
    pub ip_protocol_scope: Option<JsonValue>,
    pub logging_enabled: bool,
    pub metadata: Option<JsonValue>,
    pub source: Option<FirewallPolicySource>,
    pub destination: Option<FirewallPolicyDestination>,
    /// Every other field of the policy.
    pub extra: Vec<(String, JsonValue)>,
}

/// A firewall zone as the Integration API returns it.
#[derive(Debug, PartialEq, Eq)]
pub struct FirewallZoneResponse {
    /// The zone's UUID, in text form.
    pub id: String,
    pub name: String,
    /// UUID texts of the zone's networks.
    pub network_ids: Vec<String>,
    pub metadata: JsonValue,
}

/// An ACL rule as the Integration API returns it.
#[derive(Debug, PartialEq, Eq)]
pub struct AclRuleResponse {
    /// The rule's UUID, in text form.
    pub id: String,
    pub name: String,
    pub rule_type: String,
    pub action: String,
    pub enabled: bool,
    pub index: i32,
    pub description: Option<String>,
    pub source_filter: Option<JsonValue>,
    pub destination_filter: Option<JsonValue>,
    pub enforcing_device_filter: Option<JsonValue>,
    pub metadata: JsonValue,
}

/// Body of a WiFi broadcast create or update call.
#[derive(Debug, PartialEq, Eq)]
pub struct WifiBroadcastCreateUpdate {
    pub name: String,
    pub broadcast_type: String,
    pub enabled: bool,
    /// Every other field of the broadcast.
    pub body: Vec<(String, JsonValue)>,
}

/// A WiFi broadcast as the Integration API returns it.
#[derive(Debug, PartialEq, Eq)]
pub struct WifiBroadcastDetailsResponse {
    /// The broadcast's UUID, in text form.
    pub id: String,
    pub name: String,
    pub broadcast_type: String,
    pub enabled: bool,
    pub network: Option<JsonValue>,
    pub security_configuration: JsonValue,
    pub broadcasting_device_filter: Option<JsonValue>,
    pub metadata: JsonValue,
    /// Every other field of the broadcast.
    pub extra: Vec<(String, JsonValue)>,
}

/// A traffic matching list as the Integration API returns it.
#[derive(Debug, PartialEq, Eq)]
pub struct TrafficMatchingListResponse {
    /// The list's UUID, in text form.
    pub id: String,
    pub name: String,
    pub list_type: String,
    /// Every other field of the list.
    pub extra: Vec<(String, JsonValue)>,
}

/// A site as the Integration API returns it.
#[derive(Debug, PartialEq, Eq)]
pub struct SiteResponse {
    /// The site's UUID, in text form.
    pub id: String,
    pub internal_reference: String,
    pub name: String,
}

/// Order of the user-defined firewall policies of a zone pair, before and
/// after the system-defined ones (policy UUID texts).
#[derive(Debug, PartialEq, Eq)]
pub struct FirewallPolicyOrdering {
    pub before_system_defined: Vec<String>,
    pub after_system_defined: Vec<String>,
}

/// Order of the ACL rules (rule UUID texts).
#[derive(Debug, PartialEq, Eq)]
pub struct AclRuleOrdering {
    pub ordered_acl_rule_ids: Vec<String>,
}

/// Body of an ACL rule create or update call.
#[derive(Debug, PartialEq, Eq)]
pub struct AclRuleCreateUpdate {
    pub name: String,
    pub rule_type: String,
    pub action: String,
    pub enabled: bool,
    pub description: Option<String>,
    pub source_filter: Option<JsonValue>,
    pub destination_filter: Option<JsonValue>,
    pub enforcing_device_filter: Option<JsonValue>,
}

/// Body of a firewall zone create or update call.
#[derive(Debug, PartialEq, Eq)]
pub struct FirewallZoneCreateUpdate {
    pub name: String,
    /// UUID texts of the zone's networks.
    pub network_ids: Vec<String>,
}

/// Body of a firewall policy create or update call.
#[derive(Debug, PartialEq, Eq)]
pub struct FirewallPolicyCreateUpdate {
    pub name: String,
    pub description: Option<String>,
    pub enabled: bool,
    pub action: JsonValue,
    pub source: JsonValue,
    pub destination: JsonValue,
    pub ip_protocol_scope: JsonValue,
    pub logging_enabled: bool,
    pub ipsec_filter: Option<String>,
    pub schedule: Option<JsonValue>,
    pub connection_state_filter: Option<Vec<String>>,
}

} // verus!
