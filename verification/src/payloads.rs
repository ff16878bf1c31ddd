//! JSON bodies of controller calls built from typed requests.
pub mod acl;
pub mod dns;
pub mod firewall;
pub mod groups;
pub mod nat_rules;
pub mod network;
pub mod traffic;
pub mod wifi;
