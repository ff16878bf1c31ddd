//! Device, port and port-profile domain types.
use vstd::prelude::*;

verus! {

/// Throughput of an uplink, in bytes per second each way.
#[derive(Debug, Clone, Copy, PartialEq, Eq, Structural)]
pub struct Bandwidth {
    pub tx_bytes_per_sec: u64,
    pub rx_bytes_per_sec: u64,
}

/// Canonical device type, normalized from both API surfaces.
#[derive(Debug, Clone, Copy, PartialEq, Eq, Structural)]
pub enum DeviceType {
    Gateway,
    Switch,
    AccessPoint,
    Other,
}

/// Device operational state.
#[derive(Debug, Clone, Copy, PartialEq, Eq, Structural)]
pub enum DeviceState {
    Online,
    Offline,
    PendingAdoption,
    Updating,
    GettingReady,
    Adopting,
    Deleting,
    ConnectionInterrupted,
    Isolated,
    Unknown,
}

impl DeviceState {
    /// The device is online.
    pub fn is_online(&self) -> (res: bool)
        ensures
            res == (*self == DeviceState::Online),
    {
        matches!(self, DeviceState::Online)
    }

    /// The device is moving between states (updating, getting ready,
    /// adopting or waiting for adoption).
    pub fn is_transitional(&self) -> (res: bool)
        ensures
            res == (*self == DeviceState::Updating || *self == DeviceState::GettingReady
                || *self == DeviceState::Adopting || *self == DeviceState::PendingAdoption),
    {
        matches!(
            self,
            DeviceState::Updating | DeviceState::GettingReady | DeviceState::Adopting
                | DeviceState::PendingAdoption
        )
    }
}

/// Link state of a port.
#[derive(Debug, Clone, Copy, PartialEq, Eq, Structural)]
pub enum PortState {
    Up,
    Down,
    Unknown,
}

/// Physical connector of a port.
#[derive(Debug, Clone, Copy, PartialEq, Eq, Structural)]
pub enum PortConnector {
    Rj45,
    Sfp,
    SfpPlus,
    Sfp28,
    Qsfp28,
}

/// PoE status of a port.
#[derive(Debug, Clone, PartialEq, Eq)]
pub struct PoeInfo {
    pub standard: Option<String>,
    pub enabled: bool,
    pub state: PortState,
}

/// Port on a switch or gateway.
#[derive(Debug, Clone, PartialEq, Eq)]
pub struct Port {
    pub index: u32,
    pub name: Option<String>,
    pub state: PortState,
    pub speed_mbps: Option<u32>,
    pub max_speed_mbps: Option<u32>,
    pub connector: Option<PortConnector>,
    pub poe: Option<PoeInfo>,
}

/// High-level operational mode of a switch port's VLAN profile.
#[derive(Debug, Clone, Copy, PartialEq, Eq, Structural)]
pub enum PortMode {
    /// Single untagged VLAN.
    Access,
    /// Untagged native VLAN plus tagged VLANs.
    Trunk,
    /// Port mirrors another port.
    Mirror,
    /// Mode could not be determined.
    Unknown,
}

/// Spanning-tree state of a port.
#[derive(Debug, Clone, Copy, PartialEq, Eq, Structural)]
pub enum StpState {
    Disabled,
    Blocking,
    Listening,
    Learning,
    Forwarding,
    Broken,
    Unknown,
}

/// Configured PoE mode of a port.
#[derive(Debug, Clone, Copy, PartialEq, Eq, Structural)]
pub enum PoeMode {
    Auto,
    Off,
    Passive24V,
    Passthrough,
    Other,
}

/// Configured link speed of a port; `Auto` negotiates.
#[derive(Debug, Clone, Copy, PartialEq, Eq, Structural)]
pub enum PortSpeedSetting {
    Auto,
    Mbps10,
    Mbps100,
    Mbps1000,
    Mbps2500,
    Mbps5000,
    Mbps10000,
}

impl PortSpeedSetting {
    /// Link speed in Mbps of a pinned setting.
    pub open spec fn spec_mbps(self) -> Option<u32> {
        match self {
            PortSpeedSetting::Auto => None,
            PortSpeedSetting::Mbps10 => Some(10),
            PortSpeedSetting::Mbps100 => Some(100),
            PortSpeedSetting::Mbps1000 => Some(1000),
            PortSpeedSetting::Mbps2500 => Some(2500),
            PortSpeedSetting::Mbps5000 => Some(5000),
            PortSpeedSetting::Mbps10000 => Some(10000),
        }
    }

    /// Numeric link speed in Mbps, or `None` for `Auto`.
    pub fn as_mbps(self) -> (res: Option<u32>)
        ensures
            res == self.spec_mbps(),
    {
        match self {
            PortSpeedSetting::Auto => None,
            PortSpeedSetting::Mbps10 => Some(10),
            PortSpeedSetting::Mbps100 => Some(100),
            PortSpeedSetting::Mbps1000 => Some(1000),
            PortSpeedSetting::Mbps2500 => Some(2500),
            PortSpeedSetting::Mbps5000 => Some(5000),
            PortSpeedSetting::Mbps10000 => Some(10000),
        }
    }
}

/// VLAN and physical profile of a switch port, merged from the live port
/// table and the user's port overrides.
#[derive(Debug, Clone, PartialEq, Eq)]
pub struct PortProfile {
    pub index: u32,
    pub name: Option<String>,
    pub link_state: PortState,
    pub mode: PortMode,
    pub native_network_id: Option<String>,
    pub native_vlan_id: Option<u16>,
    pub native_network_name: Option<String>,
    pub tagged_network_ids: Vec<String>,
    pub tagged_vlan_ids: Vec<u16>,
    pub tagged_network_names: Vec<String>,
    pub tagged_all: bool,
    pub poe_mode: Option<PoeMode>,
    pub speed_setting: Option<PortSpeedSetting>,
    pub link_speed_mbps: Option<u32>,
    pub stp_state: StpState,
    pub port_profile_id: Option<String>,
}

} // verus!
