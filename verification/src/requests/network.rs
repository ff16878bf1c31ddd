//! Network and WiFi broadcast requests.
use vstd::prelude::*;

use crate::model::entity::EntityId;
use crate::model::network::{NetworkManagement, NetworkPurpose, WifiSecurityMode};

verus! {

/// Request to create a network.
#[derive(Debug, Clone, PartialEq, Eq)]
pub struct CreateNetworkRequest {
    pub name: String,
    pub vlan_id: Option<u16>,
    /// Gateway address and prefix, as `a.b.c.d/n`.
    pub subnet: Option<String>,
    pub management: Option<NetworkManagement>,
    pub purpose: Option<NetworkPurpose>,
    pub dhcp_enabled: bool,
    pub enabled: bool,
    pub dhcp_range_start: Option<String>,
    pub dhcp_range_stop: Option<String>,
    pub dhcp_lease_time: Option<u32>,
    pub dns_servers: Option<Vec<String>>,
    pub firewall_zone_id: Option<String>,
    pub isolation_enabled: bool,
    pub internet_access_enabled: bool,
}

/// DHCP overrides of a network update.
#[derive(Debug, Clone, Default, PartialEq, Eq)]
pub struct DhcpUpdate {
    pub dns_servers: Option<Vec<String>>,
}

/// Request to update a network; unset fields stay as they are.
#[derive(Debug, Clone, Default, PartialEq, Eq)]
pub struct UpdateNetworkRequest {
    pub name: Option<String>,
    pub vlan_id: Option<u16>,
    pub subnet: Option<String>,
    pub dhcp_enabled: Option<bool>,
    pub enabled: Option<bool>,
    pub isolation_enabled: Option<bool>,
    pub internet_access_enabled: Option<bool>,
    pub mdns_forwarding_enabled: Option<bool>,
    pub ipv6_enabled: Option<bool>,
    pub dhcp: Option<DhcpUpdate>,
}

/// Default of the flags that are on unless stated.
pub fn default_enabled() -> (res: bool)
    ensures
        res,
{
    true
}

/// Request to update a WiFi broadcast; unset fields stay as they are.
#[derive(Debug, Clone, Default, PartialEq, Eq)]
pub struct UpdateWifiBroadcastRequest {
    pub name: Option<String>,
    pub ssid: Option<String>,
    pub security_mode: Option<WifiSecurityMode>,
    pub passphrase: Option<String>,
    pub enabled: Option<bool>,
    pub hide_ssid: Option<bool>,
}

/// Request to create a WiFi broadcast, its frequencies already rendered as
/// decimal texts.
#[derive(Debug, Clone, PartialEq, Eq)]
pub struct CreateWifiBroadcastSettings {
    pub name: String,
    pub ssid: String,
    pub security_mode: WifiSecurityMode,
    pub passphrase: Option<String>,
    pub enabled: bool,
    pub network_id: Option<EntityId>,
    pub hide_ssid: bool,
    pub broadcast_type: Option<String>,
    pub frequencies_ghz: Option<Vec<String>>,
    pub band_steering: bool,
    pub fast_roaming: Option<bool>,
}

} // verus!
