//! Conversions from the controller's wire values into domain types.
pub mod device;
pub mod dns;
pub mod event;
pub mod firewall;
pub mod helpers;
pub mod interface;
pub mod nat_policy;
pub mod supporting;
pub mod network;
pub mod records;
pub mod session_client;
pub mod session_device;
pub mod vpn;
pub mod wifi;
