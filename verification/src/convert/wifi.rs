//! The settings of a WiFi broadcast the Integration API describes, other
//! than its frequencies.
use vstd::prelude::*;

use crate::json::{as_bool, as_str, deref_opt, get, get_opt, jbool, jget, jstr, jview_members, mget, obj_lookup, JView, JsonValue};
use crate::model::entity::{canonical_uuid, uuid_text, EntityId};
use crate::model::network::WifiSecurityMode;
use crate::payloads::network::spec_wifi_security_mode_name;
use crate::text::str_eq;

verus! {

/// The security mode a wire name denotes; open for any other name.
pub open spec fn spec_security_mode(name: Option<Seq<char>>) -> WifiSecurityMode {
    match name {
        Some(n) => if n == "WPA2_PERSONAL"@ {
            WifiSecurityMode::Wpa2Personal
        } else if n == "WPA3_PERSONAL"@ {
            WifiSecurityMode::Wpa3Personal
        } else if n == "WPA2_WPA3_PERSONAL"@ {
            WifiSecurityMode::Wpa2Wpa3Personal
        } else if n == "WPA2_ENTERPRISE"@ {
            WifiSecurityMode::Wpa2Enterprise
        } else if n == "WPA3_ENTERPRISE"@ {
            WifiSecurityMode::Wpa3Enterprise
        } else if n == "WPA2_WPA3_ENTERPRISE"@ {
            WifiSecurityMode::Wpa2Wpa3Enterprise
        } else {
            WifiSecurityMode::Open
        },
        None => WifiSecurityMode::Open,
    }
}

/// The security mode of a broadcast's security configuration: its `type`,
/// else its `mode`.
pub fn wifi_security_mode_of(config: &JsonValue) -> (res: WifiSecurityMode)
    ensures
        res == spec_security_mode(
            jstr(
                match jget(config@, "type"@) {
                    Some(v) => Some(v),
                    None => jget(config@, "mode"@),
                },
            ),
        ),
{
    let named = match get(config, "type") {
        Some(v) => as_str(Some(v)),
        None => as_str(get(config, "mode")),
    };
    match named {
        Some(n) => if str_eq(n, "WPA2_PERSONAL") {
            WifiSecurityMode::Wpa2Personal
        } else if str_eq(n, "WPA3_PERSONAL") {
            WifiSecurityMode::Wpa3Personal
        } else if str_eq(n, "WPA2_WPA3_PERSONAL") {
            WifiSecurityMode::Wpa2Wpa3Personal
        } else if str_eq(n, "WPA2_ENTERPRISE") {
            WifiSecurityMode::Wpa2Enterprise
        } else if str_eq(n, "WPA3_ENTERPRISE") {
            WifiSecurityMode::Wpa3Enterprise
        } else if str_eq(n, "WPA2_WPA3_ENTERPRISE") {
            WifiSecurityMode::Wpa2Wpa3Enterprise
        } else {
            WifiSecurityMode::Open
        },
        None => WifiSecurityMode::Open,
    }
}

/// Whether a broadcast is optimized for IoT devices (else standard).
pub fn is_iot_optimized(broadcast_type: &str) -> (res: bool)
    ensures
        res == (broadcast_type@ == "IOT_OPTIMIZED"@),
{
    str_eq(broadcast_type, "IOT_OPTIMIZED")
}

/// The network a broadcast serves: the UUID of its network reference's
/// `networkId`, else `id`.
pub fn wifi_network_id(network: Option<&JsonValue>) -> (res: Option<EntityId>)
    ensures
        ({
            let named = match network {
                Some(n) => match jget(n@, "networkId"@) {
                    Some(v) => Some(v),
                    None => jget(n@, "id"@),
                },
                None => None,
            };
            match jstr(named) {
                Some(t) => match uuid_text(t) {
                    Some(u) => res matches Some(id) && id is Uuid && id.text() == u,
                    None => res is None,
                },
                None => res is None,
            }
        }),
{
    let named = match network {
        Some(n) => match get(n, "networkId") {
            Some(v) => Some(v),
            None => get(n, "id"),
        },
        None => None,
    };
    match as_str(named) {
        Some(t) => match canonical_uuid(t) {
            Some(u) => Some(EntityId::Uuid(u)),
            None => None,
        },
        None => None,
    }
}

/// A flag among a broadcast's other fields; off unless it is `true`.
pub fn extra_flag(extra: &Vec<(String, JsonValue)>, key: &str) -> (res: bool)
    ensures
        res == (jbool(mget(jview_members(extra@), key@)) == Some(true)),
{
    match as_bool(obj_lookup(extra, key)) {
        Some(b) => b,
        None => false,
    }
}

/// Whether a broadcast has a member `key` among its other fields.
pub fn has_extra(extra: &Vec<(String, JsonValue)>, key: &str) -> (res: bool)
    ensures
        res == mget(jview_members(extra@), key@) is Some,
{
    obj_lookup(extra, key).is_some()
}


/// Each security mode has its own name, and any other name (or none) is
/// an open network; a mode's wire name reads back as the same mode.
pub proof fn lemma_security_mode_by_name(n: Seq<char>, m: WifiSecurityMode)
    ensures
        spec_security_mode(Some(n)) == WifiSecurityMode::Wpa2Personal <==> n == "WPA2_PERSONAL"@,
        spec_security_mode(Some(n)) == WifiSecurityMode::Wpa3Personal <==> n == "WPA3_PERSONAL"@,
        spec_security_mode(Some(n)) == WifiSecurityMode::Wpa2Wpa3Personal <==> n == "WPA2_WPA3_PERSONAL"@,
        spec_security_mode(Some(n)) == WifiSecurityMode::Wpa2Enterprise <==> n == "WPA2_ENTERPRISE"@,
        spec_security_mode(Some(n)) == WifiSecurityMode::Wpa3Enterprise <==> n == "WPA3_ENTERPRISE"@,
        spec_security_mode(Some(n)) == WifiSecurityMode::Wpa2Wpa3Enterprise <==> n == "WPA2_WPA3_ENTERPRISE"@,
        spec_security_mode(None) == WifiSecurityMode::Open,
        spec_security_mode(Some(spec_wifi_security_mode_name(m))) == m,
{
    reveal_strlit("OPEN");
    assert("OPEN"@.len() == 4);
    reveal_strlit("WPA2_PERSONAL");
    reveal_strlit("WPA3_PERSONAL");
    reveal_strlit("WPA2_WPA3_PERSONAL");
    reveal_strlit("WPA2_ENTERPRISE");
    reveal_strlit("WPA3_ENTERPRISE");
    reveal_strlit("WPA2_WPA3_ENTERPRISE");
    assert("WPA2_PERSONAL"@.len() == 13 && "WPA3_PERSONAL"@.len() == 13 && "WPA2_WPA3_PERSONAL"@.len() == 18);
    assert("WPA2_ENTERPRISE"@.len() == 15 && "WPA3_ENTERPRISE"@.len() == 15 && "WPA2_WPA3_ENTERPRISE"@.len() == 20);
    assert("WPA2_PERSONAL"@[3] != "WPA3_PERSONAL"@[3]);
    assert("WPA2_ENTERPRISE"@[3] != "WPA3_ENTERPRISE"@[3]);
}

} // verus!
