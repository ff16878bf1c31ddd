//! Verified core of a UniFi network controller client: domain models,
//! conversions from the controller's wire records, request validation and
//! the switch-port override logic.
use vstd::prelude::*;

pub mod auth;
pub mod convert;
pub mod error;
pub mod integration;
pub mod json;
pub mod lifecycle;
pub mod model;
pub mod net;
pub mod order;
pub mod payloads;
pub mod ports;
pub mod refresh;
pub mod requests;
pub mod session;
pub mod stations;
pub mod stats;
pub mod support;
pub mod sync;
pub mod text;
pub mod websocket;

verus! {

} // verus!
