//! Switch port apply requests.
use vstd::prelude::*;

verus! {

/// One switch's port configuration described as a single resource.
#[derive(Debug, Clone, Default, PartialEq, Eq)]
pub struct ApplyPortsRequest {
    /// Per-port overrides to splice into the device's port overrides.
    pub ports: Vec<ApplyPortEntry>,
}

/// Per-port override of an [`ApplyPortsRequest`]. Every field but `index` is
/// optional; a missing field leaves the existing override value untouched.
#[derive(Debug, Clone, Default, PartialEq, Eq)]
pub struct ApplyPortEntry {
    /// 1-based port index.
    pub index: u32,
    /// User-facing port label.
    pub name: Option<String>,
    /// `"access"`, `"trunk"` or `"mirror"`.
    pub mode: Option<String>,
    /// Native network: a session `_id` or a network name.
    pub native_network_id: Option<String>,
    /// Tagged networks; `Some` of an empty list clears the list.
    pub tagged_network_ids: Option<Vec<String>>,
    /// Whether a trunk carries all VLANs.
    pub tagged_all: Option<bool>,
    /// `"on"`, `"off"`, `"auto"`, `"pasv24"` or `"passthrough"`.
    pub poe: Option<String>,
    /// `"auto"`, `"10"`, `"100"`, `"1000"`, `"2500"`, `"5000"` or `"10000"`.
    pub speed: Option<String>,
    /// Drop this port's override entirely.
    pub reset: bool,
}

/// The flag is unset (used to omit `reset: false` when serializing).
pub fn is_false(b: &bool) -> (res: bool)
    ensures
        res == !*b,
{
    !*b
}

} // verus!
