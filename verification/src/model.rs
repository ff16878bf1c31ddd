//! Domain types shared by both controller API surfaces.
pub mod device;
pub mod dns;
pub mod entity;
pub mod event;
pub mod firewall;
pub mod network;
pub mod supporting;
