//! JSON bodies of WiFi broadcast create and update calls.
use vstd::prelude::*;

use crate::integration::{WifiBroadcastCreateUpdate, WifiBroadcastDetailsResponse};
use crate::json::{clone_members, clone_value, jget, jview, jview_items, jview_members, mget, obj_delete, obj_lookup, obj_set, JView, JsonValue};
use crate::payloads::network::{spec_wifi_security_mode_name, wifi_payload_name, wifi_security_mode_name};
use crate::requests::network::{CreateWifiBroadcastSettings, UpdateWifiBroadcastRequest};
use crate::text::{owned, str_eq, string_views};

verus! {

/// The frequencies a standard broadcast uses unless told otherwise: 2.4 and
/// 5 GHz, as JSON numbers.
pub open spec fn default_frequencies() -> JView {
    JView::Array(seq![JView::Decimal("2.4"@), JView::Decimal("5.0"@)])
}

/// The value a WiFi body gets for `k` when it has none; standard broadcasts
/// get more defaults than others.
pub open spec fn wifi_default(k: Seq<char>, standard: bool) -> Option<JView> {
    if k == "clientIsolationEnabled"@ || k == "multicastToUnicastConversionEnabled"@ || k == "hideName"@ {
        Some(JView::Bool(false))
    } else if k == "uapsdEnabled"@ {
        Some(JView::Bool(true))
    } else if standard && k == "broadcastingFrequenciesGHz"@ {
        Some(default_frequencies())
    } else if standard && (k == "mloEnabled"@ || k == "bandSteeringEnabled"@ || k == "arpProxyEnabled"@
        || k == "bssTransitionEnabled"@ || k == "advertiseDeviceName"@) {
        Some(JView::Bool(false))
    } else {
        None
    }
}

/// Member `k` of a WiFi body once the defaults fill what it lacks.
pub open spec fn with_wifi_default(cur: Option<JView>, k: Seq<char>, standard: bool) -> Option<JView> {
    match cur {
        Some(v) => Some(v),
        None => wifi_default(k, standard),
    }
}

fn set_default(body: &mut Vec<(String, JsonValue)>, key: &str, value: JsonValue)
    ensures
        forall|k: Seq<char>| #[trigger] mget(jview_members(final(body)@), k) == if k == key@ {
            match mget(jview_members(old(body)@), k) {
                Some(v) => Some(v),
                None => Some(value@),
            }
        } else {
            mget(jview_members(old(body)@), k)
        },
{
    if obj_lookup(body, key).is_none() {
        obj_set(body, owned(key), value);
    }
}

fn frequencies_value(texts: &Vec<String>) -> (res: JsonValue)
    ensures
        res@ == JView::Array(string_views(texts@).map_values(|t: Seq<char>| JView::Decimal(t))),
{
    let mut items: Vec<JsonValue> = Vec::new();
    let mut i: usize = 0;
    while i < texts.len()
        invariant
            i <= texts@.len(),
            jview_items(items@) == string_views(texts@).take(i as int).map_values(|t: Seq<char>| JView::Decimal(t)),
        decreases texts.len() - i,
    {
        let ghost before = items@;
        let t = texts[i].clone();
        items.push(JsonValue::Decimal(t));
        i = i + 1;
        proof {
            assert(items@.drop_last() =~= before);
            assert(items@.last() == JsonValue::Decimal(t));
            assert(t@ == texts@[i - 1]@);
            assert(jview(items@.last()) == JView::Decimal(texts@[i - 1]@));
            assert(jview_items(items@) == jview_items(before).push(JView::Decimal(texts@[i - 1]@)));
            let f = |t: Seq<char>| JView::Decimal(t);
            assert(string_views(texts@).take(i as int) =~= string_views(texts@).take(i - 1).push(texts@[i - 1]@));
            assert(string_views(texts@).take(i as int).map_values(f) =~= string_views(texts@).take(i - 1).map_values(
                f,
            ).push(f(texts@[i - 1]@)));
        }
    }
    assert(string_views(texts@).take(texts@.len() as int) =~= string_views(texts@));
    JsonValue::Array(items)
}

/// Fills the members a WiFi body lacks with their defaults (see
/// [`wifi_default`]); members it has stay as they are.
pub fn ensure_wifi_payload_defaults(body: &mut Vec<(String, JsonValue)>, broadcast_type: &str)
    ensures
        forall|k: Seq<char>| #[trigger] mget(jview_members(final(body)@), k) == with_wifi_default(
            mget(jview_members(old(body)@), k),
            k,
            broadcast_type@ == "STANDARD"@,
        ),
{
    set_default(body, "clientIsolationEnabled", JsonValue::Bool(false));
    set_default(body, "multicastToUnicastConversionEnabled", JsonValue::Bool(false));
    set_default(body, "hideName", JsonValue::Bool(false));
    set_default(body, "uapsdEnabled", JsonValue::Bool(true));
    if str_eq(broadcast_type, "STANDARD") {
        let texts = vec![owned("2.4"), owned("5.0")];
        assert(string_views(texts@) =~= seq!["2.4"@, "5.0"@]);
        let freqs = frequencies_value(&texts);
        proof {
            reveal_strlit("2.4");
            reveal_strlit("5.0");
            assert(string_views(texts@).map_values(|t: Seq<char>| JView::Decimal(t)) =~= seq![
                JView::Decimal("2.4"@),
                JView::Decimal("5.0"@),
            ]);
        }
        assert(freqs@ == default_frequencies());
        set_default(body, "broadcastingFrequenciesGHz", freqs);
        set_default(body, "mloEnabled", JsonValue::Bool(false));
        set_default(body, "bandSteeringEnabled", JsonValue::Bool(false));
        set_default(body, "arpProxyEnabled", JsonValue::Bool(false));
        set_default(body, "bssTransitionEnabled", JsonValue::Bool(false));
        set_default(body, "advertiseDeviceName", JsonValue::Bool(false));
    }
}

/// Members of a security configuration: its mode, then its passphrase
/// when one is given.
pub open spec fn security_members(mode: Seq<char>, passphrase: Option<Seq<char>>) -> Seq<(Seq<char>, JView)> {
    match passphrase {
        Some(p) => seq![("mode"@, JView::Str(mode)), ("passphrase"@, JView::Str(p))],
        None => seq![("mode"@, JView::Str(mode))],
    }
}

/// Frequencies as a JSON array of numbers.
pub open spec fn frequency_array(texts: Seq<String>) -> JView {
    JView::Array(string_views(texts).map_values(|t: Seq<char>| JView::Decimal(t)))
}

/// Member `k` of a create call's body before the defaults are filled in.
pub open spec fn create_member(req: CreateWifiBroadcastSettings, k: Seq<char>) -> Option<JView> {
    if k == "securityConfiguration"@ {
        Some(
            JView::Object(
                security_members(spec_wifi_security_mode_name(req.security_mode), crate::text::opt_view(req.passphrase)),
            ),
        )
    } else if k == "network"@ {
        match req.network_id {
            Some(id) => Some(JView::Object(seq![("id"@, JView::Str(id.text()))])),
            None => None,
        }
    } else if k == "hideName"@ {
        Some(JView::Bool(req.hide_ssid))
    } else if k == "bandSteeringEnabled"@ && req.band_steering {
        Some(JView::Bool(true))
    } else if k == "bssTransitionEnabled"@ && req.fast_roaming == Some(true) {
        Some(JView::Bool(true))
    } else if k == "broadcastingFrequenciesGHz"@ {
        match req.frequencies_ghz {
            Some(f) => Some(frequency_array(f@)),
            None => None,
        }
    } else {
        None
    }
}

/// Broadcast type of a create call: the requested one, else `STANDARD`.
pub open spec fn create_broadcast_type(req: CreateWifiBroadcastSettings) -> Seq<char> {
    match req.broadcast_type {
        Some(t) => t@,
        None => "STANDARD"@,
    }
}

/// The create call for a WiFi broadcast: its name (the SSID when the name is
/// empty), type, enabled flag, and a body with the security configuration,
/// network, visibility, roaming and frequency settings, the defaults filling
/// the rest.
pub fn build_create_wifi_broadcast_payload(req: &CreateWifiBroadcastSettings) -> (res: WifiBroadcastCreateUpdate)
    ensures
        res.name@ == if req.name@.len() == 0 { req.ssid@ } else { req.name@ },
        res.broadcast_type@ == create_broadcast_type(*req),
        res.enabled == req.enabled,
        forall|k: Seq<char>| #[trigger] mget(jview_members(res.body@), k) == with_wifi_default(
            create_member(*req, k),
            k,
            create_broadcast_type(*req) == "STANDARD"@,
        ),
{
    proof {
        reveal_strlit("securityConfiguration");
        assert("securityConfiguration"@.len() == 21);
        reveal_strlit("network");
        assert("network"@.len() == 7);
        reveal_strlit("hideName");
        assert("hideName"@.len() == 8);
        reveal_strlit("bandSteeringEnabled");
        assert("bandSteeringEnabled"@.len() == 19);
        reveal_strlit("bssTransitionEnabled");
        assert("bssTransitionEnabled"@.len() == 20);
        reveal_strlit("broadcastingFrequenciesGHz");
        assert("broadcastingFrequenciesGHz"@.len() == 26);
        reveal_strlit("clientIsolationEnabled");
        assert("clientIsolationEnabled"@.len() == 22);
        reveal_strlit("multicastToUnicastConversionEnabled");
        assert("multicastToUnicastConversionEnabled"@.len() == 35);
        reveal_strlit("uapsdEnabled");
        assert("uapsdEnabled"@.len() == 12);
        reveal_strlit("mloEnabled");
        assert("mloEnabled"@.len() == 10);
        reveal_strlit("arpProxyEnabled");
        assert("arpProxyEnabled"@.len() == 15);
        reveal_strlit("advertiseDeviceName");
        assert("advertiseDeviceName"@.len() == 19);
        reveal_strlit("broadcastingDeviceFilter");
        assert("broadcastingDeviceFilter"@.len() == 24);
        reveal_strlit("ssid");
        assert("ssid"@.len() == 4);
        reveal_strlit("hideSsid");
        assert("hideSsid"@.len() == 8);
        reveal_strlit("bandSteering");
        assert("bandSteering"@.len() == 12);
        reveal_strlit("fastRoaming");
        assert("fastRoaming"@.len() == 11);
        reveal_strlit("frequencies");
        assert("frequencies"@.len() == 11);
        reveal_strlit("mode");
        assert("mode"@.len() == 4);
        reveal_strlit("passphrase");
        assert("passphrase"@.len() == 10);
    }
    let broadcast_type = match &req.broadcast_type {
        Some(t) => t.clone(),
        None => owned("STANDARD"),
    };
    let mut security: Vec<(String, JsonValue)> = Vec::new();
    security.push((owned("mode"), JsonValue::Str(owned(wifi_security_mode_name(req.security_mode)))));
    if let Some(p) = &req.passphrase {
        security.push((owned("passphrase"), JsonValue::Str(p.clone())));
    }
    let ghost sec = jview_members(security@);
    assert(sec =~= security_members(spec_wifi_security_mode_name(req.security_mode), crate::text::opt_view(req.passphrase))) by {
        crate::json::lemma_jview_members(security@);
    }
    let mut body: Vec<(String, JsonValue)> = Vec::new();
    obj_set(&mut body, owned("securityConfiguration"), JsonValue::Object(security));
    if let Some(id) = &req.network_id {
        let mut net: Vec<(String, JsonValue)> = Vec::new();
        net.push((owned("id"), JsonValue::Str(owned(id.as_str()))));
        assert(jview_members(net@) =~= seq![("id"@, JView::Str(id.text()))]) by {
            crate::json::lemma_jview_members(net@);
        }
        obj_set(&mut body, owned("network"), JsonValue::Object(net));
    }
    obj_set(&mut body, owned("hideName"), JsonValue::Bool(req.hide_ssid));
    if req.band_steering {
        obj_set(&mut body, owned("bandSteeringEnabled"), JsonValue::Bool(true));
    }
    if req.fast_roaming == Some(true) {
        obj_set(&mut body, owned("bssTransitionEnabled"), JsonValue::Bool(true));
    }
    if let Some(f) = &req.frequencies_ghz {
        obj_set(&mut body, owned("broadcastingFrequenciesGHz"), frequencies_value(f));
    }
    let ghost before = body@;
    assert forall|k: Seq<char>| #[trigger] mget(jview_members(before), k) == create_member(*req, k) by {}
    ensure_wifi_payload_defaults(&mut body, broadcast_type.as_str());
    WifiBroadcastCreateUpdate {
        name: wifi_payload_name(req.name.as_str(), req.ssid.as_str()),
        broadcast_type,
        enabled: req.enabled,
        body,
    }
}

/// The keys of a stored broadcast that an update body leaves out.
pub open spec fn dropped_wifi_key(k: Seq<char>) -> bool {
    k == "ssid"@ || k == "hideSsid"@ || k == "bandSteering"@ || k == "fastRoaming"@ || k == "frequencies"@
}

/// Member `k` of an update call's body, other than its security
/// configuration, before the defaults are filled in.
pub open spec fn update_member(existing: WifiBroadcastDetailsResponse, update: UpdateWifiBroadcastRequest, k: Seq<char>) -> Option<JView> {
    if k == "network"@ && existing.network is Some {
        Some(existing.network->Some_0@)
    } else if k == "broadcastingDeviceFilter"@ && existing.broadcasting_device_filter is Some {
        Some(existing.broadcasting_device_filter->Some_0@)
    } else if k == "hideName"@ && update.hide_ssid is Some {
        Some(JView::Bool(update.hide_ssid->Some_0))
    } else if dropped_wifi_key(k) {
        None
    } else {
        mget(jview_members(existing.extra@), k)
    }
}

/// Member `k` of an update call's security configuration: the new mode and
/// passphrase where given, the stored configuration's members otherwise.
pub open spec fn update_security_member(
    existing: WifiBroadcastDetailsResponse,
    update: UpdateWifiBroadcastRequest,
    k: Seq<char>,
) -> Option<JView> {
    if k == "passphrase"@ && update.passphrase is Some {
        Some(JView::Str(update.passphrase->Some_0@))
    } else if k == "mode"@ && update.security_mode is Some {
        Some(JView::Str(spec_wifi_security_mode_name(update.security_mode->Some_0)))
    } else {
        jget(existing.security_configuration@, k)
    }
}

/// The update call for a stored WiFi broadcast: the stored fields, less the
/// ones the API no longer takes, with the network, device filter, visibility
/// and security configuration brought up to date and the defaults filling
/// the rest. The name is the new name, else the new SSID, else the stored
/// name; the type stays.
pub fn build_update_wifi_broadcast_payload(
    existing: &WifiBroadcastDetailsResponse,
    update: &UpdateWifiBroadcastRequest,
) -> (res: WifiBroadcastCreateUpdate)
    ensures
        res.name@ == match update.name {
            Some(n) => n@,
            None => match update.ssid {
                Some(s) => s@,
                None => existing.name@,
            },
        },
        res.broadcast_type@ == existing.broadcast_type@,
        res.enabled == match update.enabled {
            Some(e) => e,
            None => existing.enabled,
        },
        match mget(jview_members(res.body@), "securityConfiguration"@) {
            Some(JView::Object(sm)) => forall|k: Seq<char>| #[trigger] mget(sm, k) == update_security_member(
                *existing,
                *update,
                k,
            ),
            _ => false,
        },
        forall|k: Seq<char>| k != "securityConfiguration"@ ==> #[trigger] mget(jview_members(res.body@), k)
            == with_wifi_default(update_member(*existing, *update, k), k, existing.broadcast_type@ == "STANDARD"@),
{
    proof {
        reveal_strlit("securityConfiguration");
        assert("securityConfiguration"@.len() == 21);
        reveal_strlit("network");
        assert("network"@.len() == 7);
        reveal_strlit("hideName");
        assert("hideName"@.len() == 8);
        reveal_strlit("bandSteeringEnabled");
        assert("bandSteeringEnabled"@.len() == 19);
        reveal_strlit("bssTransitionEnabled");
        assert("bssTransitionEnabled"@.len() == 20);
        reveal_strlit("broadcastingFrequenciesGHz");
        assert("broadcastingFrequenciesGHz"@.len() == 26);
        reveal_strlit("clientIsolationEnabled");
        assert("clientIsolationEnabled"@.len() == 22);
        reveal_strlit("multicastToUnicastConversionEnabled");
        assert("multicastToUnicastConversionEnabled"@.len() == 35);
        reveal_strlit("uapsdEnabled");
        assert("uapsdEnabled"@.len() == 12);
        reveal_strlit("mloEnabled");
        assert("mloEnabled"@.len() == 10);
        reveal_strlit("arpProxyEnabled");
        assert("arpProxyEnabled"@.len() == 15);
        reveal_strlit("advertiseDeviceName");
        assert("advertiseDeviceName"@.len() == 19);
        reveal_strlit("broadcastingDeviceFilter");
        assert("broadcastingDeviceFilter"@.len() == 24);
        reveal_strlit("ssid");
        assert("ssid"@.len() == 4);
        reveal_strlit("hideSsid");
        assert("hideSsid"@.len() == 8);
        reveal_strlit("bandSteering");
        assert("bandSteering"@.len() == 12);
        reveal_strlit("fastRoaming");
        assert("fastRoaming"@.len() == 11);
        reveal_strlit("frequencies");
        assert("frequencies"@.len() == 11);
        reveal_strlit("mode");
        assert("mode"@.len() == 4);
        reveal_strlit("passphrase");
        assert("passphrase"@.len() == 10);
    }
    let mut body = clone_members(&existing.extra);
    obj_delete(&mut body, "ssid");
    obj_delete(&mut body, "hideSsid");
    obj_delete(&mut body, "bandSteering");
    obj_delete(&mut body, "fastRoaming");
    obj_delete(&mut body, "frequencies");
    if let Some(network) = &existing.network {
        obj_set(&mut body, owned("network"), clone_value(network));
    }
    if let Some(filter) = &existing.broadcasting_device_filter {
        obj_set(&mut body, owned("broadcastingDeviceFilter"), clone_value(filter));
    }
    if let Some(hidden) = update.hide_ssid {
        obj_set(&mut body, owned("hideName"), JsonValue::Bool(hidden));
    }
    let mut security: Vec<(String, JsonValue)> = match &existing.security_configuration {
        JsonValue::Object(m) => clone_members(m),
        _ => Vec::new(),
    };
    if let Some(mode) = update.security_mode {
        obj_set(&mut security, owned("mode"), JsonValue::Str(owned(wifi_security_mode_name(mode))));
    }
    if let Some(p) = &update.passphrase {
        obj_set(&mut security, owned("passphrase"), JsonValue::Str(p.clone()));
    }
    let ghost sec = jview_members(security@);
    assert forall|k: Seq<char>| #[trigger] mget(sec, k) == update_security_member(*existing, *update, k) by {}
    obj_set(&mut body, owned("securityConfiguration"), JsonValue::Object(security));
    let ghost before = body@;
    ensure_wifi_payload_defaults(&mut body, existing.broadcast_type.as_str());
    assert(wifi_default("securityConfiguration"@, existing.broadcast_type@ == "STANDARD"@) is None);
    let name = match &update.name {
        Some(n) => n.clone(),
        None => match &update.ssid {
            Some(s) => s.clone(),
            None => existing.name.clone(),
        },
    };
    let enabled = match update.enabled {
        Some(e) => e,
        None => existing.enabled,
    };
    WifiBroadcastCreateUpdate { name, broadcast_type: existing.broadcast_type.clone(), enabled, body }
}

} // verus!
