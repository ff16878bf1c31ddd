//! VPN records of the Session API (site-to-site VPNs, remote-access
//! servers, WireGuard peers, client connections and profiles, magic
//! site-to-site configurations, VPN settings). Every record keeps all its
//! fields with the secrets redacted.
use vstd::prelude::*;

use crate::json::{
    as_array, as_bool, as_str, as_u64, clone_members, collect_strings, get, jarray, jbool, jget, jstr, jstrings, ju64,
    jview, jview_items, jview_members, lemma_jview_items, mget, mremove, obj_delete, obj_lookup, JView, JsonValue,
};
use crate::error::{CoreError, ErrorView};
use crate::model::entity::EntityId;
use crate::model::supporting::{
    MagicSiteToSiteVpnConfig, RemoteAccessVpnServer, SiteToSiteVpn, VpnClientConnection, VpnClientProfile,
    VpnSetting, WireGuardPeer,
};
use crate::order::{stable_sort_by_key, stable_sorting};
use crate::support::{redact_members, redact_sensitive_value};
use crate::text::{ends_with, is_empty_text, opt_view, owned, seq_ends_with, str_eq, string_views};

verus! {

/// `id` is the legacy id `s`.
pub open spec fn is_legacy_id(id: EntityId, s: Seq<char>) -> bool {
    id is Legacy && id.text() == s
}

/// Views of a list of keys.
pub open spec fn key_views(keys: Seq<&str>) -> Seq<Seq<char>> {
    keys.map_values(|k: &str| k@)
}

/// The first of `keys` whose member is a non-empty string, its text.
pub open spec fn first_non_empty(m: Seq<(Seq<char>, JView)>, keys: Seq<Seq<char>>) -> Option<Seq<char>>
    decreases keys.len(),
{
    if keys.len() == 0 {
        None
    } else {
        match jstr(mget(m, keys[0])) {
            Some(s) if s.len() > 0 => Some(s),
            _ => first_non_empty(m, keys.drop_first()),
        }
    }
}

/// The text of the first of `keys` whose member is a non-empty string.
pub fn first_non_empty_string(fields: &Vec<(String, JsonValue)>, keys: &[&str]) -> (res: Option<String>)
    ensures
        opt_view(res) == first_non_empty(jview_members(fields@), key_views(keys@)),
{
    let ghost ks = key_views(keys@);
    let ghost m = jview_members(fields@);
    assert(ks.skip(0) =~= ks);
    let mut i: usize = 0;
    while i < keys.len()
        invariant
            i <= keys.len(),
            ks == key_views(keys@),
            m == jview_members(fields@),
            first_non_empty(m, ks) == first_non_empty(m, ks.skip(i as int)),
        decreases keys.len() - i,
    {
        assert(ks.skip(i as int)[0] == keys@[i as int]@);
        assert(ks.skip(i as int).drop_first() =~= ks.skip(i + 1));
        if let Some(s) = as_str(obj_lookup(fields, keys[i])) {
            if !is_empty_text(s) {
                return Some(owned(s));
            }
        }
        i = i + 1;
    }
    None
}

/// Text of member `k`, or `d` without one.
pub open spec fn text_or(m: Seq<(Seq<char>, JView)>, k: Seq<char>, d: Seq<char>) -> Seq<char> {
    match jstr(mget(m, k)) {
        Some(s) => s,
        None => d,
    }
}

/// Flag `k`, or `d` without one.
pub open spec fn flag_or(m: Seq<(Seq<char>, JView)>, k: Seq<char>, d: bool) -> bool {
    match jbool(mget(m, k)) {
        Some(b) => b,
        None => d,
    }
}

/// Text of member `k1`, or of `k2` when there is no member `k1` at all.
pub open spec fn text_of_either(m: Seq<(Seq<char>, JView)>, k1: Seq<char>, k2: Seq<char>) -> Option<Seq<char>> {
    match mget(m, k1) {
        Some(v) => jstr(Some(v)),
        None => jstr(mget(m, k2)),
    }
}

/// Texts of the string items of array member `k`.
pub open spec fn string_items(m: Seq<(Seq<char>, JView)>, k: Seq<char>) -> Seq<Seq<char>> {
    match jarray(mget(m, k)) {
        Some(items) => jstrings(items),
        None => Seq::empty(),
    }
}

/// A number member that fits 16 bits.
pub open spec fn small_u16(m: Seq<(Seq<char>, JView)>, k: Seq<char>) -> Option<u16> {
    match ju64(mget(m, k)) {
        Some(n) if n <= 0xffff => Some(n as u16),
        _ => None,
    }
}

/// The members of an object value.
pub open spec fn members_of(v: JView) -> Option<Seq<(Seq<char>, JView)>> {
    match v {
        JView::Object(m) => Some(m),
        _ => None,
    }
}

fn text_member_or(fields: &Vec<(String, JsonValue)>, key: &str, default: &str) -> (res: String)
    ensures
        res@ == text_or(jview_members(fields@), key@, default@),
{
    match as_str(obj_lookup(fields, key)) {
        Some(s) => owned(s),
        None => owned(default),
    }
}

fn flag_member_or(fields: &Vec<(String, JsonValue)>, key: &str, default: bool) -> (res: bool)
    ensures
        res == flag_or(jview_members(fields@), key@, default),
{
    match as_bool(obj_lookup(fields, key)) {
        Some(b) => b,
        None => default,
    }
}

fn text_member_either(fields: &Vec<(String, JsonValue)>, k1: &str, k2: &str) -> (res: Option<String>)
    ensures
        opt_view(res) == text_of_either(jview_members(fields@), k1@, k2@),
{
    let v = match obj_lookup(fields, k1) {
        Some(v) => as_str(Some(v)),
        None => as_str(obj_lookup(fields, k2)),
    };
    match v {
        Some(s) => Some(owned(s)),
        None => None,
    }
}

fn string_items_of(fields: &Vec<(String, JsonValue)>, key: &str) -> (res: Vec<String>)
    ensures
        string_views(res@) == string_items(jview_members(fields@), key@),
{
    match as_array(obj_lookup(fields, key)) {
        Some(items) => collect_strings(items),
        None => {
            let v: Vec<String> = Vec::new();
            assert(string_views(v@) =~= Seq::<Seq<char>>::empty());
            v
        },
    }
}

fn small_u16_of(fields: &Vec<(String, JsonValue)>, key: &str) -> (res: Option<u16>)
    ensures
        res == small_u16(jview_members(fields@), key@),
{
    match as_u64(obj_lookup(fields, key)) {
        Some(n) => if n <= 0xffff {
            Some(n as u16)
        } else {
            None
        },
        None => None,
    }
}

/// The fields of a record, secrets redacted.
pub fn redacted_fields(fields: &Vec<(String, JsonValue)>) -> (res: Vec<(String, JsonValue)>)
    ensures
        jview_members(res@) == redact_members(jview_members(fields@)),
{
    let whole = JsonValue::Object(clone_members(fields));
    match redact_sensitive_value(&whole) {
        JsonValue::Object(m) => m,
        _ => Vec::new(),
    }
}

/// The site-to-site VPN a network record describes; `None` unless it is an
/// object whose `purpose` is `site-vpn` and which has an `_id`.
pub fn site_to_site_vpn_from_raw(raw: &JsonValue) -> (res: Option<SiteToSiteVpn>)
    ensures
        match members_of(raw@) {
            Some(m) if jstr(mget(m, "purpose"@)) == Some("site-vpn"@) && jstr(mget(m, "_id"@)) is Some => res matches Some(v) && {
                &&& is_legacy_id(v.id, jstr(mget(m, "_id"@))->Some_0)
                &&& v.name@ == text_or(m, "name"@, Seq::empty())
                &&& v.enabled == flag_or(m, "enabled"@, true)
                &&& v.vpn_type@ == text_or(m, "vpn_type"@, "unknown"@)
                &&& opt_view(v.remote_host) == text_of_either(m, "ipsec_peer_ip"@, "openvpn_remote_host"@)
                &&& opt_view(v.local_ip) == text_of_either(m, "ipsec_local_ip"@, "openvpn_local_address"@)
                &&& opt_view(v.interface) == jstr(mget(m, "ipsec_interface"@))
                &&& opt_view(v.remote_site_id) == crate::text::non_empty(jstr(mget(m, "remote_site_id"@)))
                &&& string_views(v.remote_vpn_subnets@) == string_items(m, "remote_vpn_subnets"@)
                &&& jview_members(v.fields@) == redact_members(m)
            },
            _ => res is None,
        },
{
    proof {
        reveal_strlit("");
    }
    let fields = match raw {
        JsonValue::Object(m) => m,
        _ => {
            return None;
        },
    };
    match as_str(obj_lookup(fields, "purpose")) {
        Some(p) => if !str_eq(p, "site-vpn") {
            return None;
        },
        None => {
            return None;
        },
    }
    let id = match as_str(obj_lookup(fields, "_id")) {
        Some(s) => owned(s),
        None => {
            return None;
        },
    };
    let remote_site_id = match as_str(obj_lookup(fields, "remote_site_id")) {
        Some(s) => if !is_empty_text(s) {
            Some(owned(s))
        } else {
            None
        },
        None => None,
    };
    Some(
        SiteToSiteVpn {
            id: EntityId::Legacy(id),
            name: text_member_or(fields, "name", ""),
            enabled: flag_member_or(fields, "enabled", true),
            vpn_type: text_member_or(fields, "vpn_type", "unknown"),
            remote_site_id,
            local_ip: text_member_either(fields, "ipsec_local_ip", "openvpn_local_address"),
            interface: match as_str(obj_lookup(fields, "ipsec_interface")) {
                Some(s) => Some(owned(s)),
                None => None,
            },
            remote_host: text_member_either(fields, "ipsec_peer_ip", "openvpn_remote_host"),
            remote_vpn_subnets: string_items_of(fields, "remote_vpn_subnets"),
            fields: redacted_fields(fields),
        },
    )
}


/// The remote-access VPN server a network record describes; `None` unless it
/// is an object whose `purpose` is `remote-user-vpn` and which has an `_id`.
pub fn remote_access_vpn_server_from_raw(raw: &JsonValue) -> (res: Option<RemoteAccessVpnServer>)
    ensures
        match members_of(raw@) {
            Some(m) if jstr(mget(m, "purpose"@)) == Some("remote-user-vpn"@) && jstr(mget(m, "_id"@)) is Some => res matches Some(v) && {
                &&& is_legacy_id(v.id, jstr(mget(m, "_id"@))->Some_0)
                &&& v.name@ == text_or(m, "name"@, Seq::empty())
                &&& v.enabled == flag_or(m, "enabled"@, true)
                &&& v.vpn_type@ == text_or(m, "vpn_type"@, "unknown"@)
                &&& v.local_port == small_u16(m, "local_port"@)
                &&& opt_view(v.local_wan_ip) == first_non_empty(
                    m,
                    seq!["wireguard_local_wan_ip"@, "openvpn_local_wan_ip"@, "l2tp_local_wan_ip"@],
                )
                &&& opt_view(v.interface) == first_non_empty(
                    m,
                    seq!["wireguard_interface"@, "openvpn_interface"@, "l2tp_interface"@],
                )
                &&& opt_view(v.gateway_subnet) == first_non_empty(m, seq!["ip_subnet"@, "ipv6_subnet"@])
                &&& opt_view(v.radius_profile_id) == first_non_empty(m, seq!["radiusprofile_id"@])
                &&& v.exposed_to_site_vpn == jbool(mget(m, "exposed_to_site_vpn"@))
                &&& jview_members(v.fields@) == redact_members(m)
            },
            _ => res is None,
        },
{
    proof {
        reveal_strlit("");
    }
    let fields = match raw {
        JsonValue::Object(m) => m,
        _ => {
            return None;
        },
    };
    match as_str(obj_lookup(fields, "purpose")) {
        Some(p) => if !str_eq(p, "remote-user-vpn") {
            return None;
        },
        None => {
            return None;
        },
    }
    let id = match as_str(obj_lookup(fields, "_id")) {
        Some(s) => owned(s),
        None => {
            return None;
        },
    };
    let k1 = ["wireguard_local_wan_ip", "openvpn_local_wan_ip", "l2tp_local_wan_ip"];
    let k1 = k1.as_slice();
    let k2 = ["wireguard_interface", "openvpn_interface", "l2tp_interface"];
    let k2 = k2.as_slice();
    let k3 = ["ip_subnet", "ipv6_subnet"];
    let k3 = k3.as_slice();
    let k4 = ["radiusprofile_id"];
    let k4 = k4.as_slice();
    assert(key_views(k1@) =~= seq!["wireguard_local_wan_ip"@, "openvpn_local_wan_ip"@, "l2tp_local_wan_ip"@]);
    assert(key_views(k2@) =~= seq!["wireguard_interface"@, "openvpn_interface"@, "l2tp_interface"@]);
    assert(key_views(k3@) =~= seq!["ip_subnet"@, "ipv6_subnet"@]);
    assert(key_views(k4@) =~= seq!["radiusprofile_id"@]);
    Some(
        RemoteAccessVpnServer {
            id: EntityId::Legacy(id),
            name: text_member_or(fields, "name", ""),
            enabled: flag_member_or(fields, "enabled", true),
            vpn_type: text_member_or(fields, "vpn_type", "unknown"),
            local_port: small_u16_of(fields, "local_port"),
            local_wan_ip: first_non_empty_string(fields, k1),
            interface: first_non_empty_string(fields, k2),
            gateway_subnet: first_non_empty_string(fields, k3),
            radius_profile_id: first_non_empty_string(fields, k4),
            exposed_to_site_vpn: as_bool(obj_lookup(fields, "exposed_to_site_vpn")),
            fields: redacted_fields(fields),
        },
    )
}

/// Whether member `k` is a non-empty string.
pub open spec fn has_text(m: Seq<(Seq<char>, JView)>, k: Seq<char>) -> bool {
    match jstr(mget(m, k)) {
        Some(s) => s.len() > 0,
        None => false,
    }
}

fn has_text_of(fields: &Vec<(String, JsonValue)>, key: &str) -> (res: bool)
    ensures
        res == has_text(jview_members(fields@), key@),
{
    match as_str(obj_lookup(fields, key)) {
        Some(s) => !is_empty_text(s),
        None => false,
    }
}

/// The WireGuard peer a record describes; `None` unless it is an object with
/// an `_id`. A peer without its own network id belongs to `default_server_id`.
pub fn wireguard_peer_from_raw(raw: &JsonValue, default_server_id: Option<&str>) -> (res: Option<WireGuardPeer>)
    ensures
        match members_of(raw@) {
            Some(m) if jstr(mget(m, "_id"@)) is Some => res matches Some(v) && {
                &&& is_legacy_id(v.id, jstr(mget(m, "_id"@))->Some_0)
                &&& match first_non_empty(m, seq!["networkId"@, "network_id"@]) {
                    Some(s) => v.server_id matches Some(x) && is_legacy_id(x, s),
                    None => match default_server_id {
                        Some(d) => v.server_id matches Some(x) && is_legacy_id(x, d@),
                        None => v.server_id is None,
                    },
                }
                &&& v.name@ == text_or(m, "name"@, Seq::empty())
                &&& opt_view(v.interface_ip) == first_non_empty(m, seq!["interface_ip"@])
                &&& opt_view(v.interface_ipv6) == first_non_empty(m, seq!["interface_ipv6"@])
                &&& opt_view(v.public_key) == first_non_empty(m, seq!["public_key"@])
                &&& string_views(v.allowed_ips@) == string_items(m, "allowed_ips"@)
                &&& v.has_private_key == has_text(m, "private_key"@)
                &&& v.has_preshared_key == has_text(m, "preshared_key"@)
                &&& jview_members(v.fields@) == redact_members(m)
            },
            _ => res is None,
        },
{
    proof {
        reveal_strlit("");
    }
    let fields = match raw {
        JsonValue::Object(m) => m,
        _ => {
            return None;
        },
    };
    let id = match as_str(obj_lookup(fields, "_id")) {
        Some(s) => owned(s),
        None => {
            return None;
        },
    };
    let kn = ["networkId", "network_id"];
    let kn = kn.as_slice();
    let ki = ["interface_ip"];
    let ki = ki.as_slice();
    let ki6 = ["interface_ipv6"];
    let ki6 = ki6.as_slice();
    let kp = ["public_key"];
    let kp = kp.as_slice();
    assert(key_views(kn@) =~= seq!["networkId"@, "network_id"@]);
    assert(key_views(ki@) =~= seq!["interface_ip"@]);
    assert(key_views(ki6@) =~= seq!["interface_ipv6"@]);
    assert(key_views(kp@) =~= seq!["public_key"@]);
    let server_id = match first_non_empty_string(fields, kn) {
        Some(s) => Some(EntityId::Legacy(s)),
        None => match default_server_id {
            Some(d) => Some(EntityId::Legacy(owned(d))),
            None => None,
        },
    };
    Some(
        WireGuardPeer {
            id: EntityId::Legacy(id),
            server_id,
            name: text_member_or(fields, "name", ""),
            interface_ip: first_non_empty_string(fields, ki),
            interface_ipv6: first_non_empty_string(fields, ki6),
            public_key: first_non_empty_string(fields, kp),
            allowed_ips: string_items_of(fields, "allowed_ips"),
            has_private_key: has_text_of(fields, "private_key"),
            has_preshared_key: has_text_of(fields, "preshared_key"),
            fields: redacted_fields(fields),
        },
    )
}

/// The VPN client connection a record describes; `None` unless it is an
/// object with a non-empty network id or id.
pub fn vpn_client_connection_from_raw(raw: &JsonValue) -> (res: Option<VpnClientConnection>)
    ensures
        match members_of(raw@) {
            Some(m) if first_non_empty(m, seq!["network_id"@, "networkId"@, "id"@, "_id"@]) is Some => res matches Some(v) && {
                &&& is_legacy_id(v.id, first_non_empty(m, seq!["network_id"@, "networkId"@, "id"@, "_id"@])->Some_0)
                &&& opt_view(v.name) == first_non_empty(
                    m,
                    seq!["name"@, "display_name"@, "network_name"@, "server_name"@, "remote_name"@],
                )
                &&& opt_view(v.connection_type) == first_non_empty(m, seq!["type"@, "vpn_type"@, "connection_type"@])
                &&& opt_view(v.status) == first_non_empty(m, seq!["status"@, "state"@])
                &&& opt_view(v.local_address) == first_non_empty(m, seq!["local_ip"@, "local_address"@, "localAddress"@])
                &&& opt_view(v.remote_address) == first_non_empty(
                    m,
                    seq!["remote_ip"@, "remote_address"@, "remoteAddress"@, "server_ip"@, "serverAddress"@, "remote_host"@],
                )
                &&& opt_view(v.username) == first_non_empty(m, seq!["username"@, "user"@])
                &&& jview_members(v.fields@) == redact_members(m)
            },
            _ => res is None,
        },
{
    let fields = match raw {
        JsonValue::Object(m) => m,
        _ => {
            return None;
        },
    };
    let kid = ["network_id", "networkId", "id", "_id"];
    let kid = kid.as_slice();
    let kname = ["name", "display_name", "network_name", "server_name", "remote_name"];
    let kname = kname.as_slice();
    let ktype = ["type", "vpn_type", "connection_type"];
    let ktype = ktype.as_slice();
    let kstatus = ["status", "state"];
    let kstatus = kstatus.as_slice();
    let klocal = ["local_ip", "local_address", "localAddress"];
    let klocal = klocal.as_slice();
    let kremote = ["remote_ip", "remote_address", "remoteAddress", "server_ip", "serverAddress", "remote_host"];
    let kremote = kremote.as_slice();
    let kuser = ["username", "user"];
    let kuser = kuser.as_slice();
    assert(key_views(kid@) =~= seq!["network_id"@, "networkId"@, "id"@, "_id"@]);
    assert(key_views(kname@) =~= seq!["name"@, "display_name"@, "network_name"@, "server_name"@, "remote_name"@]);
    assert(key_views(ktype@) =~= seq!["type"@, "vpn_type"@, "connection_type"@]);
    assert(key_views(kstatus@) =~= seq!["status"@, "state"@]);
    assert(key_views(klocal@) =~= seq!["local_ip"@, "local_address"@, "localAddress"@]);
    assert(key_views(kremote@) =~= seq![
        "remote_ip"@,
        "remote_address"@,
        "remoteAddress"@,
        "server_ip"@,
        "serverAddress"@,
        "remote_host"@,
    ]);
    assert(key_views(kuser@) =~= seq!["username"@, "user"@]);
    let id = match first_non_empty_string(fields, kid) {
        Some(s) => s,
        None => {
            return None;
        },
    };
    Some(
        VpnClientConnection {
            id: EntityId::Legacy(id),
            name: first_non_empty_string(fields, kname),
            connection_type: first_non_empty_string(fields, ktype),
            status: first_non_empty_string(fields, kstatus),
            local_address: first_non_empty_string(fields, klocal),
            remote_address: first_non_empty_string(fields, kremote),
            username: first_non_empty_string(fields, kuser),
            fields: redacted_fields(fields),
        },
    )
}

/// The magic site-to-site VPN configuration a record describes; `None` unless
/// it is an object with a non-empty id.
pub fn magic_site_to_site_vpn_config_from_raw(raw: &JsonValue) -> (res: Option<MagicSiteToSiteVpnConfig>)
    ensures
        match members_of(raw@) {
            Some(m) if first_non_empty(m, seq!["id"@, "_id"@]) is Some => res matches Some(v) && {
                &&& is_legacy_id(v.id, first_non_empty(m, seq!["id"@, "_id"@])->Some_0)
                &&& opt_view(v.name) == first_non_empty(m, seq!["name"@, "display_name"@])
                &&& opt_view(v.status) == first_non_empty(m, seq!["status"@, "state"@])
                &&& v.enabled == jbool(mget(m, "enabled"@))
                &&& opt_view(v.local_site_name) == first_non_empty(m, seq!["localSiteName"@, "local_site_name"@, "local_site"@])
                &&& opt_view(v.remote_site_name) == first_non_empty(
                    m,
                    seq!["remoteSiteName"@, "remote_site_name"@, "remote_site"@],
                )
                &&& jview_members(v.fields@) == redact_members(m)
            },
            _ => res is None,
        },
{
    let fields = match raw {
        JsonValue::Object(m) => m,
        _ => {
            return None;
        },
    };
    let kid = ["id", "_id"];
    let kid = kid.as_slice();
    let kname = ["name", "display_name"];
    let kname = kname.as_slice();
    let kstatus = ["status", "state"];
    let kstatus = kstatus.as_slice();
    let klocal = ["localSiteName", "local_site_name", "local_site"];
    let klocal = klocal.as_slice();
    let kremote = ["remoteSiteName", "remote_site_name", "remote_site"];
    let kremote = kremote.as_slice();
    assert(key_views(kid@) =~= seq!["id"@, "_id"@]);
    assert(key_views(kname@) =~= seq!["name"@, "display_name"@]);
    assert(key_views(kstatus@) =~= seq!["status"@, "state"@]);
    assert(key_views(klocal@) =~= seq!["localSiteName"@, "local_site_name"@, "local_site"@]);
    assert(key_views(kremote@) =~= seq!["remoteSiteName"@, "remote_site_name"@, "remote_site"@]);
    let id = match first_non_empty_string(fields, kid) {
        Some(s) => s,
        None => {
            return None;
        },
    };
    Some(
        MagicSiteToSiteVpnConfig {
            id: EntityId::Legacy(id),
            name: first_non_empty_string(fields, kname),
            status: first_non_empty_string(fields, kstatus),
            enabled: as_bool(obj_lookup(fields, "enabled")),
            local_site_name: first_non_empty_string(fields, klocal),
            remote_site_name: first_non_empty_string(fields, kremote),
            fields: redacted_fields(fields),
        },
    )
}


/// The first of `keys` whose member is a number that fits 16 bits.
pub open spec fn first_small_u16(m: Seq<(Seq<char>, JView)>, keys: Seq<Seq<char>>) -> Option<u16>
    decreases keys.len(),
{
    if keys.len() == 0 {
        None
    } else {
        match small_u16(m, keys[0]) {
            Some(n) => Some(n),
            None => first_small_u16(m, keys.drop_first()),
        }
    }
}

fn first_small_u16_of(fields: &Vec<(String, JsonValue)>, keys: &[&str]) -> (res: Option<u16>)
    ensures
        res == first_small_u16(jview_members(fields@), key_views(keys@)),
{
    let ghost ks = key_views(keys@);
    let ghost m = jview_members(fields@);
    assert(ks.skip(0) =~= ks);
    let mut i: usize = 0;
    while i < keys.len()
        invariant
            i <= keys.len(),
            ks == key_views(keys@),
            m == jview_members(fields@),
            first_small_u16(m, ks) == first_small_u16(m, ks.skip(i as int)),
        decreases keys.len() - i,
    {
        assert(ks.skip(i as int)[0] == keys@[i as int]@);
        assert(ks.skip(i as int).drop_first() =~= ks.skip(i + 1));
        if let Some(n) = small_u16_of(fields, keys[i]) {
            return Some(n);
        }
        i = i + 1;
    }
    None
}

/// A number member that fits 32 bits.
pub open spec fn small_u32(m: Seq<(Seq<char>, JView)>, k: Seq<char>) -> Option<u32> {
    match ju64(mget(m, k)) {
        Some(n) if n <= 0xffff_ffff => Some(n as u32),
        _ => None,
    }
}

/// Whether a record with these members describes a VPN client: its purpose is
/// `vpn-client`, or it has no purpose and its type ends in `-client`.
pub open spec fn is_vpn_client_record(m: Seq<(Seq<char>, JView)>, vpn_type: Seq<char>) -> bool {
    match jstr(mget(m, "purpose"@)) {
        Some(p) => p == "vpn-client"@,
        None => seq_ends_with(vpn_type, "-client"@),
    }
}

/// The VPN client profile a network record describes; `None` unless it is an
/// object describing a VPN client (see `is_vpn_client_record`) with a
/// non-empty id.
pub fn vpn_client_profile_from_raw(raw: &JsonValue) -> (res: Option<VpnClientProfile>)
    ensures
        match members_of(raw@) {
            Some(m) => {
                let vpn_type = match first_non_empty(m, seq!["vpn_type"@, "type"@]) {
                    Some(t) => t,
                    None => Seq::<char>::empty(),
                };
                if is_vpn_client_record(m, vpn_type) && first_non_empty(m, seq!["_id"@, "id"@]) is Some {
                    res matches Some(v) && {
                        &&& is_legacy_id(v.id, first_non_empty(m, seq!["_id"@, "id"@])->Some_0)
                        &&& v.name@ == text_or(m, "name"@, Seq::empty())
                        &&& v.enabled == flag_or(m, "enabled"@, true)
                        &&& v.vpn_type@ == vpn_type
                        &&& opt_view(v.server_address) == first_non_empty(
                            m,
                            seq![
                                "remote_host"@,
                                "remote_address"@,
                                "server_address"@,
                                "server_ip"@,
                                "server"@,
                                "host"@,
                                "peer_ip"@,
                            ],
                        )
                        &&& v.server_port == first_small_u16(m, seq!["remote_port"@, "server_port"@, "port"@])
                        &&& opt_view(v.local_address) == first_non_empty(
                            m,
                            seq![
                                "local_address"@,
                                "local_ip"@,
                                "interface_ip"@,
                                "vpn_ip"@,
                                "openvpn_local_address"@,
                                "wireguard_local_address"@,
                            ],
                        )
                        &&& opt_view(v.username) == first_non_empty(m, seq!["username"@, "user"@])
                        &&& opt_view(v.interface) == first_non_empty(
                            m,
                            seq![
                                "interface"@,
                                "wan_interface"@,
                                "wan_network"@,
                                "bind_interface"@,
                                "openvpn_interface"@,
                                "wireguard_interface"@,
                            ],
                        )
                        &&& v.route_distance == small_u32(m, "route_distance"@)
                        &&& jview_members(v.fields@) == redact_members(m)
                    }
                } else {
                    res is None
                }
            },
            None => res is None,
        },
{
    proof {
        reveal_strlit("");
    }
    let fields = match raw {
        JsonValue::Object(m) => m,
        _ => {
            return None;
        },
    };
    let ktype = ["vpn_type", "type"];
    let ktype = ktype.as_slice();
    let kid = ["_id", "id"];
    let kid = kid.as_slice();
    let kserver = ["remote_host", "remote_address", "server_address", "server_ip", "server", "host", "peer_ip"];
    let kserver = kserver.as_slice();
    let kport = ["remote_port", "server_port", "port"];
    let kport = kport.as_slice();
    let klocal = [
        "local_address",
        "local_ip",
        "interface_ip",
        "vpn_ip",
        "openvpn_local_address",
        "wireguard_local_address",
    ];
    let klocal = klocal.as_slice();
    let kuser = ["username", "user"];
    let kuser = kuser.as_slice();
    let kiface = [
        "interface",
        "wan_interface",
        "wan_network",
        "bind_interface",
        "openvpn_interface",
        "wireguard_interface",
    ];
    let kiface = kiface.as_slice();
    assert(key_views(ktype@) =~= seq!["vpn_type"@, "type"@]);
    assert(key_views(kid@) =~= seq!["_id"@, "id"@]);
    assert(key_views(kserver@) =~= seq![
        "remote_host"@,
        "remote_address"@,
        "server_address"@,
        "server_ip"@,
        "server"@,
        "host"@,
        "peer_ip"@,
    ]);
    assert(key_views(kport@) =~= seq!["remote_port"@, "server_port"@, "port"@]);
    assert(key_views(klocal@) =~= seq![
        "local_address"@,
        "local_ip"@,
        "interface_ip"@,
        "vpn_ip"@,
        "openvpn_local_address"@,
        "wireguard_local_address"@,
    ]);
    assert(key_views(kuser@) =~= seq!["username"@, "user"@]);
    assert(key_views(kiface@) =~= seq![
        "interface"@,
        "wan_interface"@,
        "wan_network"@,
        "bind_interface"@,
        "openvpn_interface"@,
        "wireguard_interface"@,
    ]);
    let vpn_type = match first_non_empty_string(fields, ktype) {
        Some(t) => t,
        None => owned(""),
    };
    let ghost m = jview_members(fields@);
    assert(vpn_type@ == match first_non_empty(m, seq!["vpn_type"@, "type"@]) {
        Some(t) => t,
        None => Seq::<char>::empty(),
    });
    match as_str(obj_lookup(fields, "purpose")) {
        Some(p) => if !str_eq(p, "vpn-client") {
            return None;
        },
        None => if !ends_with(vpn_type.as_str(), "-client") {
            return None;
        },
    }
    let id = match first_non_empty_string(fields, kid) {
        Some(s) => s,
        None => {
            return None;
        },
    };
    let route_distance = match as_u64(obj_lookup(fields, "route_distance")) {
        Some(n) => if n <= 0xffff_ffff {
            Some(n as u32)
        } else {
            None
        },
        None => None,
    };
    Some(
        VpnClientProfile {
            id: EntityId::Legacy(id),
            name: text_member_or(fields, "name", ""),
            enabled: flag_member_or(fields, "enabled", true),
            vpn_type,
            server_address: first_non_empty_string(fields, kserver),
            server_port: first_small_u16_of(fields, kport),
            local_address: first_non_empty_string(fields, klocal),
            username: first_non_empty_string(fields, kuser),
            interface: first_non_empty_string(fields, kiface),
            route_distance,
            fields: redacted_fields(fields),
        },
    )
}

/// The keys of the VPN settings among the site settings, in ascending order.
pub open spec fn vpn_setting_keys() -> Seq<Seq<char>> {
    seq!["magic_site_to_site_vpn"@, "openvpn"@, "peer_to_peer"@, "teleport"@]
}

/// Position of a VPN setting key among `vpn_setting_keys()`, which lists them
/// in ascending string order.
pub open spec fn vpn_setting_rank(key: Seq<char>) -> Option<u32> {
    if key == vpn_setting_keys()[0] {
        Some(0)
    } else if key == vpn_setting_keys()[1] {
        Some(1)
    } else if key == vpn_setting_keys()[2] {
        Some(2)
    } else if key == vpn_setting_keys()[3] {
        Some(3)
    } else {
        None
    }
}

/// Position of `key` among the VPN setting keys, in ascending string order;
/// `None` for any other key.
pub fn vpn_setting_key_rank(key: &str) -> (res: Option<u32>)
    ensures
        res == vpn_setting_rank(key@),
{
    if str_eq(key, "magic_site_to_site_vpn") {
        Some(0)
    } else if str_eq(key, "openvpn") {
        Some(1)
    } else if str_eq(key, "peer_to_peer") {
        Some(2)
    } else if str_eq(key, "teleport") {
        Some(3)
    } else {
        None
    }
}

/// Whether `key` names a VPN setting.
pub fn is_vpn_setting_key(key: &str) -> (res: bool)
    ensures
        res == vpn_setting_keys().contains(key@),
{
    proof {
        reveal_strlit("magic_site_to_site_vpn");
        reveal_strlit("openvpn");
        reveal_strlit("peer_to_peer");
        reveal_strlit("teleport");
    }
    let r = vpn_setting_key_rank(key);
    proof {
        if vpn_setting_keys().contains(key@) {
            let j = choose|j: int| 0 <= j < 4 && vpn_setting_keys()[j] == key@;
            assert(vpn_setting_keys()[j] == key@);
        }
    }
    r.is_some()
}

/// The members left of a VPN setting record once its bookkeeping members
/// (`_id`, `key`, `site_id`) are dropped.
pub open spec fn setting_members(m: Seq<(Seq<char>, JView)>) -> Seq<(Seq<char>, JView)> {
    mremove(mremove(mremove(m, "_id"@), "key"@), "site_id"@)
}

/// The key of a site-setting record, when it is an object with a string key.
pub open spec fn setting_key(v: JView) -> Option<Seq<char>> {
    match members_of(v) {
        Some(m) => jstr(mget(m, "key"@)),
        None => None,
    }
}

/// Whether a site-setting record is a VPN setting: an object whose `key` is
/// a VPN setting key.
pub open spec fn is_vpn_setting_record(v: JView) -> bool {
    setting_key(v) matches Some(k) && vpn_setting_keys().contains(k)
}

/// `s` is the VPN setting the record `v` describes: its key, its members
/// less the bookkeeping ones with secrets redacted, and the `enabled` flag
/// read from those.
pub open spec fn is_vpn_setting_of(s: VpnSetting, v: JView) -> bool {
    &&& members_of(v) is Some
    &&& setting_key(v) == Some(s.key@)
    &&& jview_members(s.fields@) == redact_members(setting_members(members_of(v)->Some_0))
    &&& s.enabled == jbool(mget(jview_members(s.fields@), "enabled"@))
}

/// The VPN setting a site-setting record describes; `None` unless it is an
/// object whose `key` is a VPN setting key. Its fields drop the bookkeeping
/// members and redact secrets; `enabled` is read from them.
pub fn vpn_setting_from_raw(raw: &JsonValue) -> (res: Option<VpnSetting>)
    ensures
        if is_vpn_setting_record(raw@) {
            res matches Some(v) && is_vpn_setting_of(v, raw@)
        } else {
            res is None
        },
{
    let object = match raw {
        JsonValue::Object(m) => m,
        _ => {
            return None;
        },
    };
    let key = match as_str(obj_lookup(object, "key")) {
        Some(k) => k,
        None => {
            return None;
        },
    };
    if !is_vpn_setting_key(key) {
        return None;
    }
    let mut fields = clone_members(object);
    obj_delete(&mut fields, "_id");
    obj_delete(&mut fields, "key");
    obj_delete(&mut fields, "site_id");
    let fields = redacted_fields(&fields);
    let enabled = as_bool(obj_lookup(&fields, "enabled"));
    Some(VpnSetting { key: owned(key), enabled, fields })
}

/// Positions of the VPN setting records among `items`, in order.
pub open spec fn setting_positions(items: Seq<JView>) -> Seq<int>
    decreases items.len(),
{
    if items.len() == 0 {
        Seq::empty()
    } else {
        let r = setting_positions(items.drop_last());
        if is_vpn_setting_record(items.last()) {
            r.push(items.len() - 1)
        } else {
            r
        }
    }
}

/// Rank of a VPN setting record's key among the VPN setting keys.
pub open spec fn record_rank(v: JView) -> u32 {
    match setting_key(v) {
        Some(k) => match vpn_setting_rank(k) {
            Some(r) => r,
            None => 0,
        },
        None => 0,
    }
}

/// The VPN settings among the site-setting records, ordered by key; records
/// with equal keys keep their order.
pub fn vpn_settings_from_raw(raw: &Vec<JsonValue>) -> (res: Vec<VpnSetting>)
    ensures
        ({
            let items = jview_items(raw@);
            let ps = setting_positions(items);
            let ranks = ps.map_values(|p: int| record_rank(items[p]));
            exists|order: Seq<int>| #[trigger] stable_sorting(ranks, order) && res@.len() == ps.len() && forall|j: int|
                0 <= j < order.len() ==> is_vpn_setting_of(#[trigger] res@[j], items[ps[order[j]]])
        }),
{
    proof {
        crate::json::lemma_jview_items(raw@);
    }
    let ghost items = jview_items(raw@);
    let mut found: Vec<VpnSetting> = Vec::new();
    let mut keys: Vec<u32> = Vec::new();
    let mut i: usize = 0;
    while i < raw.len()
        invariant
            i <= raw@.len(),
            items == jview_items(raw@),
            items.len() == raw@.len(),
            forall|j: int| 0 <= j < raw@.len() ==> #[trigger] items[j] == raw@[j]@,
            found@.len() == setting_positions(items.take(i as int)).len(),
            keys@.len() == found@.len(),
            forall|j: int| 0 <= j < found@.len() ==> is_vpn_setting_of(
                #[trigger] found@[j],
                items[setting_positions(items.take(i as int))[j]],
            ),
            forall|j: int| 0 <= j < keys@.len() ==> #[trigger] keys@[j] == record_rank(
                items[setting_positions(items.take(i as int))[j]],
            ),
        decreases raw.len() - i,
    {
        let ghost before = setting_positions(items.take(i as int));
        assert(items.take(i + 1).drop_last() =~= items.take(i as int));
        assert(items.take(i + 1).last() == items[i as int]);
        if let Some(setting) = vpn_setting_from_raw(&raw[i]) {
            let rank = match vpn_setting_key_rank(setting.key.as_str()) {
                Some(r) => r,
                None => 0,
            };
            found.push(setting);
            keys.push(rank);
            assert(setting_positions(items.take(i + 1)) == before.push(i as int));
        } else {
            assert(setting_positions(items.take(i + 1)) == before);
        }
        i = i + 1;
    }
    assert(items.take(raw.len() as int) =~= items);
    let ghost ps = setting_positions(items);
    assert(keys@ =~= ps.map_values(|p: int| record_rank(items[p])));
    stable_sort_by_key(found, &keys)
}

/// Whether `id` is the legacy identifier `text`.
pub fn matches_legacy_id(id: &EntityId, text: &str) -> (res: bool)
    ensures
        res == is_legacy_id(*id, text@),
{
    match id {
        EntityId::Legacy(value) => str_eq(value.as_str(), text),
        EntityId::Uuid(_) => false,
    }
}

/// Position of the first setting with key `key`.
pub open spec fn key_index(settings: Seq<VpnSetting>, key: Seq<char>) -> Option<int>
    decreases settings.len(),
{
    if settings.len() == 0 {
        None
    } else if settings[0].key@ == key {
        Some(0)
    } else {
        match key_index(settings.drop_first(), key) {
            Some(i) => Some(i + 1),
            None => None,
        }
    }
}

/// The first of `settings` with key `key`; `NotFound` without one.
pub fn vpn_setting_by_key(settings: Vec<VpnSetting>, key: &str) -> (res: Result<VpnSetting, CoreError>)
    ensures
        match key_index(settings@, key@) {
            Some(i) => res matches Ok(s) && 0 <= i < settings@.len() && s == settings@[i],
            None => res matches Err(e) && e@ == ErrorView::NotFound("vpn setting"@, key@),
        },
{
    let ghost all = settings@;
    let mut i: usize = 0;
    assert(all.skip(0) =~= all);
    while i < settings.len()
        invariant
            settings@ == all,
            i <= all.len(),
            key_index(all, key@) == match key_index(all.skip(i as int), key@) {
                Some(j) => Some(j + i),
                None => None,
            },
        decreases settings.len() - i,
    {
        assert(all.skip(i as int).drop_first() =~= all.skip(i + 1));
        assert(all.skip(i as int)[0] == all[i as int]);
        if str_eq(settings[i].key.as_str(), key) {
            let mut rest = settings;
            let s = rest.remove(i);
            return Ok(s);
        }
        i = i + 1;
    }
    Err(CoreError::NotFound { entity_type: owned("vpn setting"), identifier: owned(key) })
}

/// The subnets WireGuard peers already use, as the controller reports them:
/// the strings among `subnets` (none without that array).
pub fn existing_subnets(raw: &JsonValue) -> (res: Vec<String>)
    ensures
        string_views(res@) == match jarray(jget(raw@, "subnets"@)) {
            Some(items) => jstrings(items),
            None => Seq::empty(),
        },
{
    match as_array(get(raw, "subnets")) {
        Some(items) => collect_strings(items),
        None => Vec::new(),
    }
}

/// The integers among `items` that are port numbers, in order.
pub open spec fn port_numbers(items: Seq<JView>) -> Seq<u16>
    decreases items.len(),
{
    if items.len() == 0 {
        Seq::empty()
    } else {
        let rest = port_numbers(items.drop_last());
        match items.last() {
            JView::UInt(n) if n <= 65535 => rest.push(n as u16),
            _ => rest,
        }
    }
}

/// The ports the controller suggests for an OpenVPN server: the port
/// numbers among `available_ports` (none without that array).
pub fn openvpn_port_suggestions(raw: &JsonValue) -> (res: Vec<u16>)
    ensures
        res@ == match jarray(jget(raw@, "available_ports"@)) {
            Some(items) => port_numbers(items),
            None => Seq::empty(),
        },
{
    let items = match as_array(get(raw, "available_ports")) {
        Some(items) => items,
        None => {
            return Vec::new();
        },
    };
    proof {
        lemma_jview_items(items@);
    }
    let ghost js = jview_items(items@);
    let mut out: Vec<u16> = Vec::new();
    let mut i: usize = 0;
    assert(js.take(0) =~= Seq::<JView>::empty());
    while i < items.len()
        invariant
            i <= items@.len(),
            js == jview_items(items@),
            js.len() == items@.len(),
            forall|j: int| 0 <= j < items@.len() ==> #[trigger] js[j] == jview(items@[j]),
            out@ == port_numbers(js.take(i as int)),
        decreases items.len() - i,
    {
        assert(js.take(i + 1).drop_last() =~= js.take(i as int));
        assert(js.take(i + 1).last() == js[i as int]);
        match &items[i] {
            JsonValue::UInt(n) => {
                if *n <= 65535 {
                    out.push(*n as u16);
                }
            },
            _ => {},
        }
        i = i + 1;
    }
    assert(js.take(js.len() as int) =~= js);
    out
}

} // verus!
