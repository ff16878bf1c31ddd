//! Devices as the Session API lists them, besides their floating-point
//! statistics, radios and timestamps.
use vstd::prelude::*;

use crate::convert::device::{infer_device_type, map_device_state, spec_infer_device_type, spec_map_device_state};
use crate::convert::helpers::{parse_legacy_wan_ipv6, wan_ipv6};
use crate::convert::interface::{is_session_port, items_with_number, parse_session_ports};
use crate::json::{jarray, jview_members, mget, JsonValue};
use crate::model::device::{DeviceState, DeviceType, Port};
use crate::model::entity::{is_entity_id_of, EntityId};
use crate::net::{ip_matches, is_ip_text, parse_ip, IpAddress};
use crate::text::{is_empty_text, opt_view};

verus! {

/// A device record of the Session API, as far as its conversion reads it.
#[derive(Debug, PartialEq, Eq)]
pub struct SessionDeviceInput {
    pub id: String,
    pub mac: String,
    pub ip: Option<String>,
    pub name: Option<String>,
    pub model: Option<String>,
    /// The `type` field (`uap`, `usw`, `ugw`, `udm`, ...).
    pub device_type: String,
    pub state: i32,
    pub version: Option<String>,
    pub upgradable: Option<bool>,
    pub serial: Option<String>,
    pub uptime: Option<i64>,
    pub num_sta: Option<i64>,
    /// The record's other members.
    pub extra: Vec<(String, JsonValue)>,
}

/// The device a Session API record describes, without its floating-point
/// statistics, radios and timestamps.
#[derive(Debug, PartialEq, Eq)]
pub struct SessionDeviceSummary {
    pub id: EntityId,
    pub mac: String,
    pub ip: Option<IpAddress>,
    pub wan_ipv6: Option<String>,
    pub name: Option<String>,
    pub model: Option<String>,
    pub device_type: DeviceType,
    pub state: DeviceState,
    pub firmware_version: Option<String>,
    pub firmware_updatable: bool,
    pub serial: Option<String>,
    pub ports: Vec<Port>,
    pub has_switching: bool,
    pub has_access_point: bool,
    pub uptime_secs: Option<u64>,
    pub client_count: Option<u32>,
}

/// `ip` is the address an optional text names, `None` when there is no
/// text or it names none.
pub open spec fn is_ip_of(ip: Option<IpAddress>, text: Option<Seq<char>>) -> bool {
    match text {
        Some(t) if is_ip_text(t) => ip matches Some(a) && ip_matches(a, t),
        _ => ip is None,
    }
}

/// A counter that fits: `n` when it is not negative (and, for 32 bits, at
/// most `u32::MAX`).
pub open spec fn counter_u64(n: Option<i64>) -> Option<u64> {
    match n {
        Some(v) if v >= 0 => Some(v as u64),
        _ => None,
    }
}

/// See [`counter_u64`].
pub open spec fn counter_u32(n: Option<i64>) -> Option<u32> {
    match n {
        Some(v) if 0 <= v <= u32::MAX => Some(v as u32),
        _ => None,
    }
}

/// `d` is the device Session API record `r` describes: identified by its id
/// (its MAC when the id is empty), typed by its `type` field and model,
/// switching for switches and gateways, an access point for access points,
/// with the ports of its port table.
pub open spec fn is_session_device(d: SessionDeviceSummary, r: SessionDeviceInput) -> bool {
    let t = spec_infer_device_type(r.device_type@, opt_view(r.model));
    let rows = items_with_number(
        match jarray(mget(jview_members(r.extra@), "port_table"@)) {
            Some(a) => a,
            None => Seq::empty(),
        },
        "port_idx"@,
    );
    &&& is_entity_id_of(d.id, if r.id@.len() == 0 { r.mac@ } else { r.id@ })
    &&& d.mac@ == r.mac@
    &&& is_ip_of(d.ip, opt_view(r.ip))
    &&& opt_view(d.wan_ipv6) == wan_ipv6(jview_members(r.extra@))
    &&& d.name == r.name
    &&& d.model == r.model
    &&& d.device_type == t
    &&& d.state == spec_map_device_state(r.state)
    &&& d.firmware_version == r.version
    &&& d.firmware_updatable == (r.upgradable == Some(true))
    &&& d.serial == r.serial
    &&& d.ports@.len() == rows.len()
    &&& forall|j: int| 0 <= j < rows.len() ==> is_session_port(#[trigger] d.ports@[j], rows[j])
    &&& d.has_switching == (t == DeviceType::Switch || t == DeviceType::Gateway)
    &&& d.has_access_point == (t == DeviceType::AccessPoint)
    &&& d.uptime_secs == counter_u64(r.uptime)
    &&& d.client_count == counter_u32(r.num_sta)
}

fn text_ip(t: &Option<String>) -> (res: Option<IpAddress>)
    ensures
        is_ip_of(res, opt_view(*t)),
{
    match t {
        Some(s) => parse_ip(s.as_str()),
        None => None,
    }
}

/// The device a Session API record describes (see [`is_session_device`]).
pub fn device_from_session(r: SessionDeviceInput) -> (d: SessionDeviceSummary)
    ensures
        is_session_device(d, r),
{
    let ghost r0 = r;
    let device_type = infer_device_type(r.device_type.as_str(), r.model.as_ref());
    let state = map_device_state(r.state);
    let id_text = if is_empty_text(r.id.as_str()) {
        r.mac.clone()
    } else {
        r.id.clone()
    };
    let ip = text_ip(&r.ip);
    let wan_ipv6 = parse_legacy_wan_ipv6(&r.extra);
    let ports = parse_session_ports(&r.extra);
    let uptime_secs = match r.uptime {
        Some(v) => if v >= 0 {
            Some(v as u64)
        } else {
            None
        },
        None => None,
    };
    let client_count = match r.num_sta {
        Some(v) => if 0 <= v && v <= 0xffff_ffff {
            Some(v as u32)
        } else {
            None
        },
        None => None,
    };
    let firmware_updatable = match r.upgradable {
        Some(true) => true,
        _ => false,
    };
    SessionDeviceSummary {
        id: EntityId::from_text(id_text),
        mac: r.mac,
        ip,
        wan_ipv6,
        name: r.name,
        model: r.model,
        device_type,
        state,
        firmware_version: r.version,
        firmware_updatable,
        serial: r.serial,
        ports,
        has_switching: device_type == DeviceType::Switch || device_type == DeviceType::Gateway,
        has_access_point: device_type == DeviceType::AccessPoint,
        uptime_secs,
        client_count,
    }
}

} // verus!
