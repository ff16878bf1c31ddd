//! The integer side of a live device update pushed over the WebSocket: the
//! uplink bandwidth, uptime, station count and WAN IPv6 address that a raw
//! Session API device record brings to the stored device.
use vstd::prelude::*;

use crate::convert::helpers::{parse_session_device_wan_ipv6, wan_ipv6};
use crate::json::{as_u64, get, get_opt, jget, jget_opt, ju64, JView, JsonValue};
use crate::model::device::Bandwidth;
use crate::text::opt_view;

verus! {

/// The fields of a stored device that a live update may change, besides its
/// floating-point statistics.
#[derive(Debug, Clone, PartialEq, Eq)]
pub struct DeviceSyncFields {
    pub uplink_bandwidth: Option<Bandwidth>,
    pub uptime_secs: Option<u64>,
    pub client_count: Option<u32>,
    pub wan_ipv6: Option<String>,
}

/// Member `first` of `v` when present, else member `second`.
pub open spec fn first_present(v: Option<JView>, first: Seq<char>, second: Seq<char>) -> Option<JView> {
    match jget_opt(v, first) {
        Some(x) => Some(x),
        None => jget_opt(v, second),
    }
}

/// One direction of the uplink rate: the uplink's `<dir>_bytes-r` (or, when
/// absent, `<dir>_bytes_r`) as an unsigned integer, else the record's own
/// `<dir>_bytes-r`.
pub open spec fn uplink_rate(data: JView, dashed: Seq<char>, underscored: Seq<char>) -> Option<u64> {
    match ju64(first_present(jget(data, "uplink"@), dashed, underscored)) {
        Some(n) => Some(n),
        None => ju64(jget(data, dashed)),
    }
}

/// The uplink bandwidth after an update: both rates known and one of them
/// non-zero, else the stored bandwidth.
pub open spec fn synced_bandwidth(data: JView, stored: Option<Bandwidth>) -> Option<Bandwidth> {
    match (uplink_rate(data, "tx_bytes-r"@, "tx_bytes_r"@), uplink_rate(data, "rx_bytes-r"@, "rx_bytes_r"@)) {
        (Some(tx), Some(rx)) if tx > 0 || rx > 0 => Some(Bandwidth { tx_bytes_per_sec: tx, rx_bytes_per_sec: rx }),
        _ => stored,
    }
}

/// The uptime after an update: `_uptime` (or, when absent, `uptime`) when it
/// is an integer that fits `i64` and is not negative, else the stored uptime.
pub open spec fn synced_uptime(data: JView, stored: Option<u64>) -> Option<u64> {
    match first_present(Some(data), "_uptime"@, "uptime"@) {
        Some(JView::UInt(n)) if n <= i64::MAX => Some(n),
        _ => stored,
    }
}

/// The client count after an update: `num_sta` cut to 32 bits when it is an
/// unsigned integer, else the stored count.
pub open spec fn synced_client_count(data: JView, stored: Option<u32>) -> Option<u32> {
    match ju64(jget(data, "num_sta"@)) {
        Some(n) => Some((n % 0x1_0000_0000) as u32),
        None => stored,
    }
}

/// The WAN IPv6 address after an update: the one an object record offers,
/// else the stored one.
pub open spec fn synced_wan_ipv6(data: JView, stored: Option<Seq<char>>) -> Option<Seq<char>> {
    match data {
        JView::Object(m) => match wan_ipv6(m) {
            Some(w) => Some(w),
            None => stored,
        },
        _ => stored,
    }
}

fn member_or<'a>(v: Option<&'a JsonValue>, first: &str, second: &str) -> (res: Option<&'a JsonValue>)
    ensures
        crate::json::deref_opt(res) == first_present(crate::json::deref_opt(v), first@, second@),
{
    match get_opt(v, first) {
        Some(x) => Some(x),
        None => get_opt(v, second),
    }
}

fn rate(data: &JsonValue, dashed: &str, underscored: &str) -> (res: Option<u64>)
    ensures
        res == uplink_rate(data@, dashed@, underscored@),
{
    match as_u64(member_or(get(data, "uplink"), dashed, underscored)) {
        Some(n) => Some(n),
        None => as_u64(get(data, dashed)),
    }
}

/// Applies the integer fields of a raw device record (`data`) to a stored
/// device's: the uplink bandwidth, uptime, station count and WAN IPv6
/// address it carries replace the stored ones, which stay otherwise.
pub fn sync_device_fields(data: &JsonValue, stored: DeviceSyncFields) -> (res: DeviceSyncFields)
    ensures
        res.uplink_bandwidth == synced_bandwidth(data@, stored.uplink_bandwidth),
        res.uptime_secs == synced_uptime(data@, stored.uptime_secs),
        res.client_count == synced_client_count(data@, stored.client_count),
        opt_view(res.wan_ipv6) == synced_wan_ipv6(data@, opt_view(stored.wan_ipv6)),
{
    let tx = rate(data, "tx_bytes-r", "tx_bytes_r");
    let rx = rate(data, "rx_bytes-r", "rx_bytes_r");
    let uplink_bandwidth = match (tx, rx) {
        (Some(t), Some(r)) => if t > 0 || r > 0 {
            Some(Bandwidth { tx_bytes_per_sec: t, rx_bytes_per_sec: r })
        } else {
            stored.uplink_bandwidth
        },
        _ => stored.uplink_bandwidth,
    };
    let uptime_secs = match member_or(Some(data), "_uptime", "uptime") {
        Some(JsonValue::UInt(n)) => if *n <= 0x7fff_ffff_ffff_ffff {
            Some(*n)
        } else {
            stored.uptime_secs
        },
        _ => stored.uptime_secs,
    };
    let client_count = match as_u64(get(data, "num_sta")) {
        Some(n) => {
            let c: u32 = n as u32;
            assert(c == (n % 0x1_0000_0000) as u32) by (bit_vector)
                requires
                    c == n as u32,
            ;
            Some(c)
        },
        None => stored.client_count,
    };
    let wan_ipv6 = match data {
        JsonValue::Object(m) => match parse_session_device_wan_ipv6(m) {
            Some(w) => Some(w),
            None => stored.wan_ipv6,
        },
        _ => stored.wan_ipv6,
    };
    DeviceSyncFields { uplink_bandwidth, uptime_secs, client_count, wan_ipv6 }
}

} // verus!
