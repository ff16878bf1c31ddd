//! Hotspot voucher requests.
use vstd::prelude::*;

verus! {

/// Request to create hotspot vouchers.
#[derive(Debug, Clone, PartialEq, Eq)]
pub struct CreateVouchersRequest {
    pub count: u32,
    pub name: Option<String>,
    pub time_limit_minutes: Option<u32>,
    pub data_usage_limit_mb: Option<u64>,
    pub rx_rate_limit_kbps: Option<u64>,
    pub tx_rate_limit_kbps: Option<u64>,
    pub authorized_guest_limit: Option<u32>,
}

} // verus!
