//! Event classification.
use vstd::prelude::*;

verus! {

/// Category of a controller event.
#[derive(Debug, Clone, Copy, PartialEq, Eq, Structural)]
pub enum EventCategory {
    Network,
    Device,
    Client,
    System,
    Admin,
    Firewall,
    Vpn,
    Unknown,
}

/// Severity of a controller event.
#[derive(Debug, Clone, Copy, PartialEq, Eq, Structural)]
pub enum EventSeverity {
    Info,
    Warning,
    Error,
}

} // verus!
