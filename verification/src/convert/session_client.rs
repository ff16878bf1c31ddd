//! Clients as the Session API lists them, besides their wireless details
//! and timestamps.
use vstd::prelude::*;

use crate::convert::session_device::{counter_u64, is_ip_of};
use crate::model::entity::{is_entity_id_of, EntityId};
use crate::net::{parse_ip, IpAddress};
use crate::text::opt_view;

verus! {

/// How a client is attached.
#[derive(Debug, Clone, Copy, PartialEq, Eq, Structural)]
pub enum ClientType {
    Wired,
    Wireless,
}

/// A client record of the Session API, as far as its conversion reads it.
#[derive(Debug, PartialEq, Eq)]
pub struct SessionClientInput {
    pub id: String,
    pub mac: String,
    pub ip: Option<String>,
    pub name: Option<String>,
    pub hostname: Option<String>,
    pub is_wired: Option<bool>,
    pub is_guest: Option<bool>,
    pub authorized: Option<bool>,
    /// MAC of the switch of a wired client.
    pub sw_mac: Option<String>,
    /// MAC of the access point of a wireless client.
    pub ap_mac: Option<String>,
    pub sw_port: Option<i64>,
    pub network_id: Option<String>,
    pub tx_bytes: Option<i64>,
    pub rx_bytes: Option<i64>,
    pub blocked: Option<bool>,
}

/// Guest authorization of a guest client.
#[derive(Debug, Clone, PartialEq, Eq)]
pub struct GuestAuthSummary {
    pub authorized: bool,
    pub tx_bytes: Option<u64>,
    pub rx_bytes: Option<u64>,
}

/// The client a Session API record describes, without its wireless details
/// and timestamps.
#[derive(Debug, PartialEq, Eq)]
pub struct SessionClientSummary {
    pub id: EntityId,
    pub mac: String,
    pub ip: Option<IpAddress>,
    pub name: Option<String>,
    pub hostname: Option<String>,
    pub client_type: ClientType,
    pub uplink_device_mac: Option<String>,
    pub switch_port: Option<u32>,
    pub network_id: Option<EntityId>,
    pub guest_auth: Option<GuestAuthSummary>,
    pub is_guest: bool,
    pub tx_bytes: Option<u64>,
    pub rx_bytes: Option<u64>,
    pub blocked: bool,
}

/// A port number that fits 32 bits.
pub open spec fn port_u32(n: Option<i64>) -> Option<u32> {
    match n {
        Some(v) if 0 <= v <= u32::MAX => Some(v as u32),
        _ => None,
    }
}

/// `c` is the client Session API record `r` describes. A client is wired
/// only when the record says so; a wired client hangs off its switch (and
/// port), a wireless one off its access point. A guest carries its
/// authorization and byte counters.
pub open spec fn is_session_client(c: SessionClientSummary, r: SessionClientInput) -> bool {
    let wired = r.is_wired == Some(true);
    let guest = r.is_guest == Some(true);
    &&& is_entity_id_of(c.id, r.id@)
    &&& c.mac@ == r.mac@
    &&& is_ip_of(c.ip, opt_view(r.ip))
    &&& c.name == r.name
    &&& c.hostname == r.hostname
    &&& c.client_type == if wired { ClientType::Wired } else { ClientType::Wireless }
    &&& c.uplink_device_mac == if wired { r.sw_mac } else { r.ap_mac }
    &&& c.switch_port == if wired { port_u32(r.sw_port) } else { None }
    &&& match r.network_id {
        Some(n) => c.network_id matches Some(x) && is_entity_id_of(x, n@),
        None => c.network_id is None,
    }
    &&& c.guest_auth == if guest {
        Some(
            GuestAuthSummary {
                authorized: r.authorized == Some(true),
                tx_bytes: counter_u64(r.tx_bytes),
                rx_bytes: counter_u64(r.rx_bytes),
            },
        )
    } else {
        None
    }
    &&& c.is_guest == guest
    &&& c.tx_bytes == counter_u64(r.tx_bytes)
    &&& c.rx_bytes == counter_u64(r.rx_bytes)
    &&& c.blocked == (r.blocked == Some(true))
}

fn counter_of(n: Option<i64>) -> (res: Option<u64>)
    ensures
        res == counter_u64(n),
{
    match n {
        Some(v) => if v >= 0 {
            Some(v as u64)
        } else {
            None
        },
        None => None,
    }
}

/// The client a Session API record describes (see [`is_session_client`]).
pub fn client_from_session(r: SessionClientInput) -> (c: SessionClientSummary)
    ensures
        is_session_client(c, r),
{
    let wired = r.is_wired == Some(true);
    let guest = r.is_guest == Some(true);
    let tx_bytes = counter_of(r.tx_bytes);
    let rx_bytes = counter_of(r.rx_bytes);
    let guest_auth = if guest {
        Some(GuestAuthSummary { authorized: r.authorized == Some(true), tx_bytes, rx_bytes })
    } else {
        None
    };
    let switch_port = if wired {
        match r.sw_port {
            Some(v) => if 0 <= v && v <= 0xffff_ffff {
                Some(v as u32)
            } else {
                None
            },
            None => None,
        }
    } else {
        None
    };
    let ip = match &r.ip {
        Some(s) => parse_ip(s.as_str()),
        None => None,
    };
    let network_id = match r.network_id {
        Some(n) => Some(EntityId::from_text(n)),
        None => None,
    };
    SessionClientSummary {
        id: EntityId::from_text(r.id),
        mac: r.mac,
        ip,
        name: r.name,
        hostname: r.hostname,
        client_type: if wired {
            ClientType::Wired
        } else {
            ClientType::Wireless
        },
        uplink_device_mac: if wired {
            r.sw_mac
        } else {
            r.ap_mac
        },
        switch_port,
        network_id,
        guest_auth,
        is_guest: guest,
        tx_bytes,
        rx_bytes,
        blocked: r.blocked == Some(true),
    }
}

} // verus!
