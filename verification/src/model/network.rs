//! Network and WiFi settings.
use vstd::prelude::*;

use crate::model::entity::{DataSource, EntityId, EntityOrigin};
use crate::net::{IpAddress, Ipv4};

verus! {

/// Which device manages a network.
#[derive(Debug, Clone, Copy, PartialEq, Eq, Structural)]
pub enum NetworkManagement {
    Gateway,
    Switch,
    Unmanaged,
}

/// What a network is for.
#[derive(Debug, Clone, Copy, PartialEq, Eq, Structural)]
pub enum NetworkPurpose {
    Corporate,
    Guest,
    VlanOnly,
}

/// Security mode of a WiFi broadcast.
#[derive(Debug, Clone, Copy, PartialEq, Eq, Structural)]
pub enum WifiSecurityMode {
    Open,
    Wpa2Personal,
    Wpa3Personal,
    Wpa2Wpa3Personal,
    Wpa2Enterprise,
    Wpa3Enterprise,
    Wpa2Wpa3Enterprise,
}

/// How a network hands out IPv6 addresses.
#[derive(Debug, Clone, Copy, PartialEq, Eq, Structural)]
pub enum Ipv6Mode {
    PrefixDelegation,
    Static,
}

/// DHCP service of a network.
#[derive(Debug, Clone, PartialEq, Eq)]
pub struct DhcpConfig {
    pub enabled: bool,
    pub range_start: Option<Ipv4>,
    pub range_stop: Option<Ipv4>,
    pub lease_time_secs: Option<u64>,
    pub dns_servers: Vec<IpAddress>,
    pub gateway: Option<Ipv4>,
}

/// A network (LAN, VLAN) of the site.
#[derive(Debug, Clone, PartialEq, Eq)]
pub struct Network {
    pub id: EntityId,
    pub name: String,
    pub enabled: bool,
    pub management: Option<NetworkManagement>,
    pub purpose: Option<NetworkPurpose>,
    pub is_default: bool,
    pub vlan_id: Option<u16>,
    pub subnet: Option<String>,
    pub gateway_ip: Option<Ipv4>,
    pub dhcp: Option<DhcpConfig>,
    pub ipv6_enabled: bool,
    pub ipv6_mode: Option<Ipv6Mode>,
    pub ipv6_prefix: Option<String>,
    pub dhcpv6_enabled: bool,
    pub slaac_enabled: bool,
    pub ntp_server: Option<IpAddress>,
    pub pxe_enabled: bool,
    pub tftp_server: Option<String>,
    pub firewall_zone_id: Option<EntityId>,
    pub isolation_enabled: bool,
    pub internet_access_enabled: bool,
    pub mdns_forwarding_enabled: bool,
    pub cellular_backup_enabled: bool,
    pub origin: Option<EntityOrigin>,
    pub source: DataSource,
}

} // verus!
