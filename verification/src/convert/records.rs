//! Reference records the controller lists on request: WAN interfaces, RADIUS
//! profiles, DPI applications, countries, controller and system
//! information, site settings.
use vstd::prelude::*;

use crate::convert::network::{ip_list, ip_texts, ips_match};
use crate::convert::supporting::member_either;
use crate::error::{CoreError, ErrorView};
use crate::json::{
    as_array, as_bool, as_str, as_u64, clone_value, collect_strings, deref_opt, get, jarray, jbool, jget, jstr,
    jstrings, ju64, jview_items, jview_members, lemma_jview_items, mget, obj_lookup, JView, JsonValue,
};
use crate::model::entity::{canonical_uuid, uuid_text, EntityId};
use crate::model::supporting::{
    Country, DpiApplication, RadiusProfile, SysInfo, SystemInfo, VpnServer, VpnTunnel, WanInterface,
};
use crate::net::{ip_matches, is_ip_text, parse_ip, IpAddress};
use crate::text::{opt_view, owned, str_eq, string_views};

verus! {

/// Text of member `k`, `d` without one.
pub open spec fn text_or_default(v: Option<JView>, d: Seq<char>) -> Seq<char> {
    match jstr(v) {
        Some(s) => s,
        None => d,
    }
}

/// `id` is the identifier an `id` value names: its UUID, else `unknown`.
pub open spec fn is_uuid_or_unknown(id: EntityId, v: Option<JView>) -> bool {
    match jstr(v) {
        Some(t) if uuid_text(t) is Some => id is Uuid && id.text() == uuid_text(t)->Some_0,
        _ => id is Legacy && id.text() == "unknown"@,
    }
}

/// `ip` is the address a text value denotes, when it denotes one.
pub open spec fn is_ip_of(ip: Option<IpAddress>, v: Option<JView>) -> bool {
    match jstr(v) {
        Some(t) if is_ip_text(t) => ip matches Some(a) && ip_matches(a, t),
        _ => ip is None,
    }
}

fn uuid_or_unknown(v: Option<&JsonValue>) -> (res: EntityId)
    ensures
        is_uuid_or_unknown(res, deref_opt(v)),
{
    match as_str(v) {
        Some(t) => match canonical_uuid(t) {
            Some(u) => EntityId::Uuid(u),
            None => EntityId::Legacy(owned("unknown")),
        },
        None => EntityId::Legacy(owned("unknown")),
    }
}

fn text_default(v: Option<&JsonValue>, d: &str) -> (res: String)
    ensures
        res@ == text_or_default(deref_opt(v), d@),
{
    match as_str(v) {
        Some(s) => owned(s),
        None => owned(d),
    }
}

fn opt_text(v: Option<&JsonValue>) -> (res: Option<String>)
    ensures
        opt_view(res) == jstr(deref_opt(v)),
{
    match as_str(v) {
        Some(s) => Some(owned(s)),
        None => None,
    }
}

fn ip_of(v: Option<&JsonValue>) -> (res: Option<IpAddress>)
    ensures
        is_ip_of(res, deref_opt(v)),
{
    match as_str(v) {
        Some(t) => parse_ip(t),
        None => None,
    }
}

fn lookup_either<'a>(m: &'a Vec<(String, JsonValue)>, k1: &str, k2: &str) -> (res: Option<&'a JsonValue>)
    ensures
        deref_opt(res) == member_either(jview_members(m@), k1@, k2@),
{
    match obj_lookup(m, k1) {
        Some(v) => Some(v),
        None => obj_lookup(m, k2),
    }
}

fn get_either<'a>(v: &'a JsonValue, k1: &str, k2: &str) -> (res: Option<&'a JsonValue>)
    ensures
        deref_opt(res) == match jget(v@, k1@) {
            Some(x) => Some(x),
            None => jget(v@, k2@),
        },
{
    match get(v, k1) {
        Some(x) => Some(x),
        None => get(v, k2),
    }
}

/// The VPN server an Integration API listing record describes: its kind is
/// `type`, else `serverType`, else `UNKNOWN`. The listing fills no other
/// setting: subnet, port, WAN address, client count and protocol stay unset
/// and no other field is kept.
pub fn vpn_server_from_fields(fields: &Vec<(String, JsonValue)>) -> (res: VpnServer)
    ensures
        ({
            let m = jview_members(fields@);
            &&& is_uuid_or_unknown(res.id, mget(m, "id"@))
            &&& opt_view(res.name) == jstr(mget(m, "name"@))
            &&& res.server_type@ == text_or_default(member_either(m, "type"@, "serverType"@), "UNKNOWN"@)
            &&& res.enabled == jbool(mget(m, "enabled"@))
            &&& res.subnet is None && res.port is None && res.wan_ip is None
            &&& res.connected_clients is None && res.protocol is None
            &&& res.extra@.len() == 0
        }),
{
    VpnServer {
        id: uuid_or_unknown(obj_lookup(fields, "id")),
        name: opt_text(obj_lookup(fields, "name")),
        server_type: text_default(lookup_either(fields, "type", "serverType"), "UNKNOWN"),
        enabled: as_bool(obj_lookup(fields, "enabled")),
        subnet: None,
        port: None,
        wan_ip: None,
        connected_clients: None,
        protocol: None,
        extra: Vec::new(),
    }
}

/// The VPN tunnel an Integration API listing record describes: its kind is
/// `type`, else `tunnelType`, else `UNKNOWN`. The listing fills no other
/// setting: no peer address, subnets, pre-shared key or IKE version, and no
/// other field is kept.
pub fn vpn_tunnel_from_fields(fields: &Vec<(String, JsonValue)>) -> (res: VpnTunnel)
    ensures
        ({
            let m = jview_members(fields@);
            &&& is_uuid_or_unknown(res.id, mget(m, "id"@))
            &&& opt_view(res.name) == jstr(mget(m, "name"@))
            &&& res.tunnel_type@ == text_or_default(member_either(m, "type"@, "tunnelType"@), "UNKNOWN"@)
            &&& res.enabled == jbool(mget(m, "enabled"@))
            &&& res.peer_address is None && res.ike_version is None && !res.has_psk
            &&& res.local_subnets@.len() == 0 && res.remote_subnets@.len() == 0
            &&& res.extra@.len() == 0
        }),
{
    VpnTunnel {
        id: uuid_or_unknown(obj_lookup(fields, "id")),
        name: opt_text(obj_lookup(fields, "name")),
        tunnel_type: text_default(lookup_either(fields, "type", "tunnelType"), "UNKNOWN"),
        enabled: as_bool(obj_lookup(fields, "enabled")),
        peer_address: None,
        local_subnets: Vec::new(),
        remote_subnets: Vec::new(),
        has_psk: false,
        ike_version: None,
        extra: Vec::new(),
    }
}

/// The WAN interface an Integration API record describes: its address is
/// `ipAddress`, else `ip`, when that denotes one; its DNS servers are the
/// address texts among `dns`.
pub fn wan_from_fields(fields: &Vec<(String, JsonValue)>) -> (res: WanInterface)
    ensures
        ({
            let m = jview_members(fields@);
            &&& is_uuid_or_unknown(res.id, mget(m, "id"@))
            &&& opt_view(res.name) == jstr(mget(m, "name"@))
            &&& match ip_of_member(m, "ipAddress"@) {
                Some(_) => is_ip_of(res.ip, mget(m, "ipAddress"@)),
                None => is_ip_of(res.ip, mget(m, "ip"@)),
            }
            &&& is_ip_of(res.gateway, mget(m, "gateway"@))
            &&& ips_match(res.dns@, match jarray(mget(m, "dns"@)) {
                Some(items) => ip_texts(items),
                None => Seq::empty(),
            })
        }),
{
    let ip = match ip_of(obj_lookup(fields, "ipAddress")) {
        Some(a) => Some(a),
        None => ip_of(obj_lookup(fields, "ip")),
    };
    let dns = match as_array(obj_lookup(fields, "dns")) {
        Some(items) => ip_list(items),
        None => Vec::new(),
    };
    WanInterface {
        id: uuid_or_unknown(obj_lookup(fields, "id")),
        name: opt_text(obj_lookup(fields, "name")),
        ip,
        gateway: ip_of(obj_lookup(fields, "gateway")),
        dns,
    }
}

/// The address text member `k` denotes, if it denotes one.
pub open spec fn ip_of_member(m: Seq<(Seq<char>, JView)>, k: Seq<char>) -> Option<Seq<char>> {
    match jstr(mget(m, k)) {
        Some(t) if is_ip_text(t) => Some(t),
        _ => None,
    }
}

/// The RADIUS profile an Integration API record describes.
pub fn radius_profile_from_fields(fields: &Vec<(String, JsonValue)>) -> (res: RadiusProfile)
    ensures
        is_uuid_or_unknown(res.id, mget(jview_members(fields@), "id"@)),
        res.name@ == text_or_default(mget(jview_members(fields@), "name"@), "Unknown"@),
{
    RadiusProfile { id: uuid_or_unknown(obj_lookup(fields, "id")), name: text_default(obj_lookup(fields, "name"), "Unknown") }
}

/// A counter member, 0 without one.
pub open spec fn count_or_zero(v: Option<JView>) -> u64 {
    match ju64(v) {
        Some(n) => n,
        None => 0,
    }
}

fn count_of(v: Option<&JsonValue>) -> (res: u64)
    ensures
        res == count_or_zero(deref_opt(v)),
{
    match as_u64(v) {
        Some(n) => n,
        None => 0,
    }
}

/// The DPI application an Integration API record describes; identifiers
/// are truncated to 32 bits.
pub fn dpi_application_from_fields(fields: &Vec<(String, JsonValue)>) -> (res: DpiApplication)
    ensures
        ({
            let m = jview_members(fields@);
            &&& res.id == count_or_zero(mget(m, "id"@)) as u32
            &&& res.name@ == text_or_default(mget(m, "name"@), "Unknown"@)
            &&& res.category_id == count_or_zero(mget(m, "categoryId"@)) as u32
            &&& res.tx_bytes == count_or_zero(mget(m, "txBytes"@))
            &&& res.rx_bytes == count_or_zero(mget(m, "rxBytes"@))
        }),
{
    DpiApplication {
        id: count_of(obj_lookup(fields, "id")) as u32,
        name: text_default(obj_lookup(fields, "name"), "Unknown"),
        category_id: count_of(obj_lookup(fields, "categoryId")) as u32,
        tx_bytes: count_of(obj_lookup(fields, "txBytes")),
        rx_bytes: count_of(obj_lookup(fields, "rxBytes")),
    }
}

/// The country an Integration API record describes.
pub fn country_from_fields(fields: &Vec<(String, JsonValue)>) -> (res: Country)
    ensures
        res.code@ == text_or_default(mget(jview_members(fields@), "code"@), Seq::empty()),
        res.name@ == text_or_default(mget(jview_members(fields@), "name"@), "Unknown"@),
{
    proof {
        reveal_strlit("");
    }
    Country { code: text_default(obj_lookup(fields, "code"), ""), name: text_default(obj_lookup(fields, "name"), "Unknown") }
}

/// Controller information from the Integration API's info record.
pub fn system_info_from_integration(fields: &Vec<(String, JsonValue)>) -> (res: SystemInfo)
    ensures
        ({
            let m = jview_members(fields@);
            &&& opt_view(res.controller_name) == jstr(member_either(m, "applicationName"@, "name"@))
            &&& res.version@ == text_or_default(member_either(m, "applicationVersion"@, "version"@), "unknown"@)
            &&& opt_view(res.build) == jstr(mget(m, "build"@))
            &&& opt_view(res.hostname) == jstr(mget(m, "hostname"@))
            &&& res.ip is None
            &&& res.uptime_secs == ju64(mget(m, "uptime"@))
            &&& res.update_available == jbool(member_either(m, "isUpdateAvailable"@, "update_available"@))
        }),
{
    SystemInfo {
        controller_name: opt_text(lookup_either(fields, "applicationName", "name")),
        version: text_default(lookup_either(fields, "applicationVersion", "version"), "unknown"),
        build: opt_text(obj_lookup(fields, "build")),
        hostname: opt_text(obj_lookup(fields, "hostname")),
        ip: None,
        uptime_secs: as_u64(obj_lookup(fields, "uptime")),
        update_available: as_bool(lookup_either(fields, "isUpdateAvailable", "update_available")),
    }
}

/// The first item of an array member.
pub open spec fn first_item(v: Option<JView>) -> Option<JView> {
    match jarray(v) {
        Some(items) if items.len() > 0 => Some(items[0]),
        _ => None,
    }
}

/// Controller information from the Session API's system record: its
/// address is the first of `ip_addrs` when that denotes one.
pub fn system_info_from_session(raw: &JsonValue) -> (res: SystemInfo)
    ensures
        opt_view(res.controller_name) == jstr(
            match jget(raw@, "controller_name"@) {
                Some(x) => Some(x),
                None => jget(raw@, "name"@),
            },
        ),
        res.version@ == text_or_default(jget(raw@, "version"@), "unknown"@),
        opt_view(res.build) == jstr(jget(raw@, "build"@)),
        opt_view(res.hostname) == jstr(jget(raw@, "hostname"@)),
        is_ip_of(res.ip, first_item(jget(raw@, "ip_addrs"@))),
        res.uptime_secs == ju64(jget(raw@, "uptime"@)),
        res.update_available == jbool(jget(raw@, "update_available"@)),
{
    let ip = match as_array(get(raw, "ip_addrs")) {
        Some(items) => {
            proof {
                lemma_jview_items(items@);
            }
            if items.len() > 0 {
                ip_of(Some(&items[0]))
            } else {
                None
            }
        },
        None => None,
    };
    SystemInfo {
        controller_name: opt_text(get_either(raw, "controller_name", "name")),
        version: text_default(get(raw, "version"), "unknown"),
        build: opt_text(get(raw, "build")),
        hostname: opt_text(get(raw, "hostname")),
        ip,
        uptime_secs: as_u64(get(raw, "uptime")),
        update_available: as_bool(get(raw, "update_available")),
    }
}

/// System settings from the Session API's system record; the data
/// retention is truncated to 32 bits and the whole record is kept.
pub fn sysinfo_from_session(raw: JsonValue) -> (res: SysInfo)
    ensures
        opt_view(res.timezone) == jstr(jget(raw@, "timezone"@)),
        res.autobackup == jbool(jget(raw@, "autobackup"@)),
        opt_view(res.hostname) == jstr(jget(raw@, "hostname"@)),
        string_views(res.ip_addrs@) == match jarray(jget(raw@, "ip_addrs"@)) {
            Some(items) => jstrings(items),
            None => Seq::empty(),
        },
        opt_view(res.live_chat) == jstr(jget(raw@, "live_chat"@)),
        res.data_retention_days == match ju64(jget(raw@, "data_retention_days"@)) {
            Some(n) => Some(n as u32),
            None => None,
        },
        res.extra@ == raw@,
{
    let ip_addrs = match as_array(get(&raw, "ip_addrs")) {
        Some(items) => collect_strings(items),
        None => {
            let v: Vec<String> = Vec::new();
            assert(string_views(v@) =~= Seq::<Seq<char>>::empty());
            v
        },
    };
    let data_retention_days = match as_u64(get(&raw, "data_retention_days")) {
        Some(n) => Some(n as u32),
        None => None,
    };
    SysInfo {
        timezone: opt_text(get(&raw, "timezone")),
        autobackup: as_bool(get(&raw, "autobackup")),
        hostname: opt_text(get(&raw, "hostname")),
        ip_addrs,
        live_chat: opt_text(get(&raw, "live_chat")),
        data_retention_days,
        extra: raw,
    }
}

/// Position of the first setting whose `key` is `key`.
pub open spec fn setting_index(settings: Seq<JView>, key: Seq<char>) -> Option<int>
    decreases settings.len(),
{
    if settings.len() == 0 {
        None
    } else if jstr(jget(settings[0], "key"@)) == Some(key) {
        Some(0)
    } else {
        match setting_index(settings.drop_first(), key) {
            Some(i) => Some(i + 1),
            None => None,
        }
    }
}

/// Position of the first site setting with key `key`.
pub fn find_setting(settings: &Vec<JsonValue>, key: &str) -> (res: Option<usize>)
    ensures
        match res {
            Some(j) => setting_index(jview_items(settings@), key@) == Some(j as int) && j < settings@.len(),
            None => setting_index(jview_items(settings@), key@) is None,
        },
{
    proof {
        lemma_jview_items(settings@);
    }
    let ghost vs = jview_items(settings@);
    let mut i: usize = 0;
    assert(vs.skip(0) =~= vs);
    while i < settings.len()
        invariant
            i <= settings@.len(),
            vs == jview_items(settings@),
            vs.len() == settings@.len(),
            forall|j: int| 0 <= j < settings@.len() ==> #[trigger] vs[j] == settings@[j]@,
            setting_index(vs, key@) == match setting_index(vs.skip(i as int), key@) {
                Some(j) => Some(j + i),
                None => None,
            },
        decreases settings.len() - i,
    {
        let ghost rest = vs.skip(i as int);
        assert(rest.drop_first() =~= vs.skip(i + 1));
        assert(rest[0] == settings@[i as int]@);
        let hit = match as_str(get(&settings[i], "key")) {
            Some(k) => str_eq(k, key),
            None => false,
        };
        if hit {
            return Some(i);
        }
        i = i + 1;
    }
    None
}

/// The site setting with key `key`; `NotFound` when there is none.
pub fn site_setting(settings: &Vec<JsonValue>, key: &str) -> (res: Result<JsonValue, CoreError>)
    ensures
        match setting_index(jview_items(settings@), key@) {
            Some(i) => res matches Ok(v) && v@ == jview_items(settings@)[i],
            None => res matches Err(e) && e@ == ErrorView::NotFound("setting"@, key@),
        },
{
    proof {
        lemma_jview_items(settings@);
    }
    match find_setting(settings, key) {
        Some(i) => Ok(clone_value(&settings[i])),
        None => Err(CoreError::NotFound { entity_type: owned("setting"), identifier: owned(key) }),
    }
}

/// Whether deep packet inspection is on: the `enabled` flag of the `dpi`
/// site setting, off without one.
pub fn dpi_enabled(settings: &Vec<JsonValue>) -> (res: bool)
    ensures
        res == match setting_index(jview_items(settings@), "dpi"@) {
            Some(i) => jbool(jget(jview_items(settings@)[i], "enabled"@)) == Some(true),
            None => false,
        },
{
    proof {
        lemma_jview_items(settings@);
    }
    match find_setting(settings, "dpi") {
        Some(i) => match as_bool(get(&settings[i], "enabled")) {
            Some(b) => b,
            None => false,
        },
        None => false,
    }
}

} // verus!
