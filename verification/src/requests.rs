//! Typed request payloads of controller commands.
pub mod dns;
pub mod network;
pub mod policy;
pub mod ports;
pub mod traffic;
pub mod vouchers;
pub mod vpn;
