//! Auxiliary resources: traffic matching lists, RADIUS profiles, device tags.
use vstd::prelude::*;

use crate::json::JsonValue;
use crate::net::IpAddress;

use super::entity::{DataSource, EntityId, EntityOrigin};

verus! {

/// A traffic matching list (ports, IPv4 or IPv6 addresses).
#[derive(Debug, Clone, PartialEq, Eq)]
pub struct TrafficMatchingList {
    pub id: EntityId,
    pub name: String,
    /// List type: PORTS, IPV4_ADDRESSES, IPV6_ADDRESSES.
    pub list_type: String,
    pub items: Vec<String>,
    pub origin: Option<EntityOrigin>,
}

/// A RADIUS profile.
#[derive(Debug, Clone, PartialEq, Eq)]
pub struct RadiusProfile {
    pub id: EntityId,
    pub name: String,
}

/// A device tag.
#[derive(Debug, Clone, PartialEq, Eq)]
pub struct DeviceTag {
    pub id: EntityId,
    pub name: String,
}


/// A VPN setting (teleport, magic site-to-site, OpenVPN, peer-to-peer).
#[derive(Debug, PartialEq, Eq)]
pub struct VpnSetting {
    pub key: String,
    pub enabled: Option<bool>,
    /// The setting's other fields, secrets redacted.
    pub fields: Vec<(String, JsonValue)>,
}

/// A site-to-site VPN.
#[derive(Debug, PartialEq, Eq)]
pub struct SiteToSiteVpn {
    pub id: EntityId,
    pub name: String,
    pub enabled: bool,
    pub vpn_type: String,
    pub remote_site_id: Option<String>,
    pub local_ip: Option<String>,
    pub interface: Option<String>,
    pub remote_host: Option<String>,
    pub remote_vpn_subnets: Vec<String>,
    /// All fields of the record, secrets redacted.
    pub fields: Vec<(String, JsonValue)>,
}

/// A remote-access VPN server.
#[derive(Debug, PartialEq, Eq)]
pub struct RemoteAccessVpnServer {
    pub id: EntityId,
    pub name: String,
    pub enabled: bool,
    pub vpn_type: String,
    pub local_port: Option<u16>,
    pub local_wan_ip: Option<String>,
    pub interface: Option<String>,
    pub gateway_subnet: Option<String>,
    pub radius_profile_id: Option<String>,
    pub exposed_to_site_vpn: Option<bool>,
    /// All fields of the record, secrets redacted.
    pub fields: Vec<(String, JsonValue)>,
}

/// A WireGuard peer of a remote-access server.
#[derive(Debug, PartialEq, Eq)]
pub struct WireGuardPeer {
    pub id: EntityId,
    pub server_id: Option<EntityId>,
    pub name: String,
    pub interface_ip: Option<String>,
    pub interface_ipv6: Option<String>,
    pub public_key: Option<String>,
    pub allowed_ips: Vec<String>,
    pub has_private_key: bool,
    pub has_preshared_key: bool,
    /// All fields of the record, secrets redacted.
    pub fields: Vec<(String, JsonValue)>,
}

/// An active VPN client connection.
#[derive(Debug, PartialEq, Eq)]
pub struct VpnClientConnection {
    pub id: EntityId,
    pub name: Option<String>,
    pub connection_type: Option<String>,
    pub status: Option<String>,
    pub local_address: Option<String>,
    pub remote_address: Option<String>,
    pub username: Option<String>,
    /// All fields of the record, secrets redacted.
    pub fields: Vec<(String, JsonValue)>,
}

/// A VPN client profile.
#[derive(Debug, PartialEq, Eq)]
pub struct VpnClientProfile {
    pub id: EntityId,
    pub name: String,
    pub enabled: bool,
    pub vpn_type: String,
    pub server_address: Option<String>,
    pub server_port: Option<u16>,
    pub local_address: Option<String>,
    pub username: Option<String>,
    pub interface: Option<String>,
    pub route_distance: Option<u32>,
    /// All fields of the record, secrets redacted.
    pub fields: Vec<(String, JsonValue)>,
}

/// A magic site-to-site VPN configuration.
#[derive(Debug, PartialEq, Eq)]
pub struct MagicSiteToSiteVpnConfig {
    pub id: EntityId,
    pub name: Option<String>,
    pub status: Option<String>,
    pub enabled: Option<bool>,
    pub local_site_name: Option<String>,
    pub remote_site_name: Option<String>,
    /// All fields of the record, secrets redacted.
    pub fields: Vec<(String, JsonValue)>,
}

/// A site of the controller.
#[derive(Debug, Clone, PartialEq, Eq)]
pub struct Site {
    pub id: EntityId,
    /// The site's short name, as the controller refers to it.
    pub internal_name: String,
    /// The site's display name.
    pub name: String,
    pub device_count: Option<u32>,
    pub client_count: Option<u32>,
    pub source: DataSource,
}

/// A VPN server of the gateway as the Integration API lists it.
#[derive(Debug, PartialEq, Eq)]
pub struct VpnServer {
    pub id: EntityId,
    pub name: Option<String>,
    pub server_type: String,
    pub enabled: Option<bool>,
    pub subnet: Option<String>,
    pub port: Option<u16>,
    pub wan_ip: Option<String>,
    pub connected_clients: Option<u32>,
    pub protocol: Option<String>,
    /// Every other field of the server.
    pub extra: Vec<(String, JsonValue)>,
}

/// A site-to-site VPN tunnel as the Integration API lists it.
#[derive(Debug, PartialEq, Eq)]
pub struct VpnTunnel {
    pub id: EntityId,
    pub name: Option<String>,
    pub tunnel_type: String,
    pub enabled: Option<bool>,
    pub peer_address: Option<String>,
    pub local_subnets: Vec<String>,
    pub remote_subnets: Vec<String>,
    pub has_psk: bool,
    pub ike_version: Option<String>,
    /// Every other field of the tunnel.
    pub extra: Vec<(String, JsonValue)>,
}

/// A WAN interface of the gateway.
#[derive(Debug, Clone, PartialEq, Eq)]
pub struct WanInterface {
    pub id: EntityId,
    pub name: Option<String>,
    pub ip: Option<IpAddress>,
    pub gateway: Option<IpAddress>,
    pub dns: Vec<IpAddress>,
}

/// A DPI application with its traffic counters.
#[derive(Debug, Clone, PartialEq, Eq)]
pub struct DpiApplication {
    pub id: u32,
    pub name: String,
    pub category_id: u32,
    pub tx_bytes: u64,
    pub rx_bytes: u64,
}

/// A country the controller knows, by its code.
#[derive(Debug, Clone, PartialEq, Eq)]
pub struct Country {
    pub code: String,
    pub name: String,
}

/// Controller information.
#[derive(Debug, Clone, PartialEq, Eq)]
pub struct SystemInfo {
    pub controller_name: Option<String>,
    pub version: String,
    pub build: Option<String>,
    pub hostname: Option<String>,
    pub ip: Option<IpAddress>,
    pub uptime_secs: Option<u64>,
    pub update_available: Option<bool>,
}

/// System settings the Session API reports.
#[derive(Debug, PartialEq, Eq)]
pub struct SysInfo {
    pub timezone: Option<String>,
    pub autobackup: Option<bool>,
    pub hostname: Option<String>,
    pub ip_addrs: Vec<String>,
    pub live_chat: Option<String>,
    pub data_retention_days: Option<u32>,
    /// The whole record.
    pub extra: JsonValue,
}

} // verus!
