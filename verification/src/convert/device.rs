//! Device type and state inference.
use vstd::prelude::*;

use crate::json::{as_u64, deref_opt, get, jget, ju64, JView, JsonValue};
use crate::model::device::{Bandwidth, DeviceState, DeviceType};
use crate::text::{lower_seq, seq_starts_with, starts_with, str_eq, to_uppercase, uppercase};

verus! {

/// Device type implied by an uppercase model name.
pub open spec fn model_prefix_type(upper: Seq<char>) -> DeviceType {
    if seq_starts_with(upper, "UAP"@) || seq_starts_with(upper, "U6"@) || seq_starts_with(
        upper,
        "U7"@,
    ) {
        DeviceType::AccessPoint
    } else if seq_starts_with(upper, "USW"@) || seq_starts_with(upper, "USL"@) {
        DeviceType::Switch
    } else if is_gateway_model(upper) {
        DeviceType::Gateway
    } else {
        DeviceType::Other
    }
}

/// The uppercase model name belongs to a gateway family.
pub open spec fn is_gateway_model(upper: Seq<char>) -> bool {
    seq_starts_with(upper, "UGW"@) || seq_starts_with(upper, "UDM"@) || seq_starts_with(
        upper,
        "UDR"@,
    ) || seq_starts_with(upper, "UXG"@) || seq_starts_with(upper, "UCG"@) || seq_starts_with(
        upper,
        "UCK"@,
    )
}

/// Device type from the Session API `type` field, falling back to the model name.
pub open spec fn spec_infer_device_type(device_type: Seq<char>, model: Option<Seq<char>>) -> DeviceType {
    if device_type == "uap"@ {
        DeviceType::AccessPoint
    } else if device_type == "usw"@ {
        DeviceType::Switch
    } else if device_type == "ugw"@ || device_type == "udm"@ {
        DeviceType::Gateway
    } else {
        match model {
            Some(m) => model_prefix_type(uppercase(m)),
            None => DeviceType::Other,
        }
    }
}

/// Device type implied by an already uppercased model name.
pub fn device_type_from_model(upper: &str) -> (res: DeviceType)
    ensures
        res == model_prefix_type(upper@),
{
    if starts_with(upper, "UAP") || starts_with(upper, "U6") || starts_with(upper, "U7") {
        DeviceType::AccessPoint
    } else if starts_with(upper, "USW") || starts_with(upper, "USL") {
        DeviceType::Switch
    } else if gateway_model(upper) {
        DeviceType::Gateway
    } else {
        DeviceType::Other
    }
}

/// The uppercased model name belongs to a gateway family.
pub fn gateway_model(upper: &str) -> (res: bool)
    ensures
        res == is_gateway_model(upper@),
{
    starts_with(upper, "UGW") || starts_with(upper, "UDM") || starts_with(upper, "UDR")
        || starts_with(upper, "UXG") || starts_with(upper, "UCG") || starts_with(upper, "UCK")
}

/// Device type from the Session API `type` field (`uap`, `usw`, `ugw`, `udm`),
/// falling back to the uppercased model name's family prefix.
/// The model name is read without regard to ASCII case: the result is also
/// the one for the model in ASCII lowercase.
pub fn infer_device_type(device_type: &str, model: Option<&String>) -> (res: DeviceType)
    ensures
        res == spec_infer_device_type(
            device_type@,
            match model {
                Some(m) => Some(m@),
                None => None,
            },
        ),
        res == spec_infer_device_type(
            device_type@,
            match model {
                Some(m) => Some(lower_seq(m@)),
                None => None,
            },
        ),
{
    if str_eq(device_type, "uap") {
        DeviceType::AccessPoint
    } else if str_eq(device_type, "usw") {
        DeviceType::Switch
    } else if str_eq(device_type, "ugw") || str_eq(device_type, "udm") {
        DeviceType::Gateway
    } else {
        match model {
            Some(m) => {
                let upper = to_uppercase(m.as_str());
                device_type_from_model(upper.as_str())
            },
            None => DeviceType::Other,
        }
    }
}

/// How the `type` field and the model name share the decision: a known type
/// (`uap`, `usw`, `ugw`, `udm`) decides alone and the model is not read; any
/// other type is not read, and the model decides, or `Other` without one.
pub proof fn lemma_device_type_sources(t: Seq<char>, m: Seq<char>)
    ensures
        (t == "uap"@ || t == "usw"@ || t == "ugw"@ || t == "udm"@) ==> spec_infer_device_type(t, Some(m))
            == spec_infer_device_type(t, None),
        !(t == "uap"@ || t == "usw"@ || t == "ugw"@ || t == "udm"@) ==> spec_infer_device_type(t, Some(m))
            == spec_infer_device_type(""@, Some(m)) && spec_infer_device_type(t, None) == DeviceType::Other,
{
    reveal_strlit("");
    reveal_strlit("uap");
    reveal_strlit("usw");
    reveal_strlit("ugw");
    reveal_strlit("udm");
    assert(""@ =~= Seq::<char>::empty());
    assert(""@ != "uap"@ && ""@ != "usw"@ && ""@ != "ugw"@ && ""@ != "udm"@);
}

/// Session API state code of a device.
pub open spec fn spec_map_device_state(code: i32) -> DeviceState {
    if code == 0 {
        DeviceState::Offline
    } else if code == 1 {
        DeviceState::Online
    } else if code == 2 {
        DeviceState::PendingAdoption
    } else if code == 4 {
        DeviceState::Updating
    } else if code == 5 {
        DeviceState::GettingReady
    } else {
        DeviceState::Unknown
    }
}

/// Maps the Session API numeric device state.
pub fn map_device_state(code: i32) -> (res: DeviceState)
    ensures
        res == spec_map_device_state(code),
{
    match code {
        0 => DeviceState::Offline,
        1 => DeviceState::Online,
        2 => DeviceState::PendingAdoption,
        4 => DeviceState::Updating,
        5 => DeviceState::GettingReady,
        _ => DeviceState::Unknown,
    }
}

/// Integration API state name of a device.
pub open spec fn spec_map_integration_device_state(state: Seq<char>) -> DeviceState {
    if state == "ONLINE"@ {
        DeviceState::Online
    } else if state == "OFFLINE"@ {
        DeviceState::Offline
    } else if state == "PENDING_ADOPTION"@ {
        DeviceState::PendingAdoption
    } else if state == "UPDATING"@ {
        DeviceState::Updating
    } else if state == "GETTING_READY"@ {
        DeviceState::GettingReady
    } else if state == "ADOPTING"@ {
        DeviceState::Adopting
    } else if state == "DELETING"@ {
        DeviceState::Deleting
    } else if state == "CONNECTION_INTERRUPTED"@ {
        DeviceState::ConnectionInterrupted
    } else if state == "ISOLATED"@ {
        DeviceState::Isolated
    } else {
        DeviceState::Unknown
    }
}

/// Maps the Integration API device state name.
pub fn map_integration_device_state(state: &str) -> (res: DeviceState)
    ensures
        res == spec_map_integration_device_state(state@),
{
    if str_eq(state, "ONLINE") {
        DeviceState::Online
    } else if str_eq(state, "OFFLINE") {
        DeviceState::Offline
    } else if str_eq(state, "PENDING_ADOPTION") {
        DeviceState::PendingAdoption
    } else if str_eq(state, "UPDATING") {
        DeviceState::Updating
    } else if str_eq(state, "GETTING_READY") {
        DeviceState::GettingReady
    } else if str_eq(state, "ADOPTING") {
        DeviceState::Adopting
    } else if str_eq(state, "DELETING") {
        DeviceState::Deleting
    } else if str_eq(state, "CONNECTION_INTERRUPTED") {
        DeviceState::ConnectionInterrupted
    } else if str_eq(state, "ISOLATED") {
        DeviceState::Isolated
    } else {
        DeviceState::Unknown
    }
}

/// The feature list names `f`.
pub open spec fn has_feature(features: Seq<String>, f: Seq<char>) -> bool {
    exists|i: int| 0 <= i < features.len() && #[trigger] features[i]@ == f
}

/// Device type from the Integration API feature list and the uppercased model name.
pub open spec fn spec_infer_device_type_integration(
    features: Seq<String>,
    model: Seq<char>,
) -> DeviceType {
    if is_gateway_model(uppercase(model)) || (has_feature(features, "switching"@) && has_feature(
        features,
        "routing"@,
    )) || has_feature(features, "gateway"@) {
        DeviceType::Gateway
    } else if has_feature(features, "accessPoint"@) {
        DeviceType::AccessPoint
    } else if has_feature(features, "switching"@) {
        DeviceType::Switch
    } else {
        spec_infer_device_type(""@, Some(model))
    }
}

/// The feature list names `f`.
pub fn feature_present(features: &[String], f: &str) -> (res: bool)
    ensures
        res == has_feature(features@, f@),
{
    let mut i: usize = 0;
    while i < features.len()
        invariant
            i <= features.len(),
            forall|k: int| 0 <= k < i ==> features@[k]@ != f@,
        decreases features.len() - i,
    {
        if str_eq(features[i].as_str(), f) {
            return true;
        }
        i = i + 1;
    }
    false
}

/// Device type from the Integration API: gateway model families and the
/// `gateway` or `switching`+`routing` features make a gateway, then
/// `accessPoint`, then `switching`; otherwise the model name decides.
pub fn infer_device_type_integration(features: &[String], model: &str) -> (res: DeviceType)
    ensures
        res == spec_infer_device_type_integration(features@, model@),
{
    let upper = to_uppercase(model);
    let is_gateway = gateway_model(upper.as_str());
    if is_gateway || (feature_present(features, "switching") && feature_present(features, "routing"))
        || feature_present(features, "gateway") {
        DeviceType::Gateway
    } else if feature_present(features, "accessPoint") {
        DeviceType::AccessPoint
    } else if feature_present(features, "switching") {
        DeviceType::Switch
    } else {
        let model_owned = model.to_owned();
        infer_device_type("", Some(&model_owned))
    }
}

/// The first of three members of a value that is present.
pub open spec fn first_member3(v: JView, k1: Seq<char>, k2: Seq<char>, k3: Seq<char>) -> Option<JView> {
    match jget(v, k1) {
        Some(x) => Some(x),
        None => match jget(v, k2) {
            Some(x) => Some(x),
            None => jget(v, k3),
        },
    }
}

/// A rate of an uplink statistics record: the first of its three names that
/// is present, read as an unsigned integer, else 0.
pub open spec fn uplink_rate(v: JView, k1: Seq<char>, k2: Seq<char>, k3: Seq<char>) -> u64 {
    match ju64(first_member3(v, k1, k2, k3)) {
        Some(n) => n,
        None => 0,
    }
}

fn rate_of(v: &JsonValue, k1: &str, k2: &str, k3: &str) -> (res: u64)
    ensures
        res == uplink_rate(v@, k1@, k2@, k3@),
{
    let found = match get(v, k1) {
        Some(x) => Some(x),
        None => match get(v, k2) {
            Some(x) => Some(x),
            None => get(v, k3),
        },
    };
    assert(deref_opt(found) == first_member3(v@, k1@, k2@, k3@));
    match as_u64(found) {
        Some(n) => n,
        None => 0,
    }
}

/// The bandwidth an uplink statistics record reports: transmit rate from
/// `txRateBps`, `txBytesPerSecond` or `tx_bytes-r`, receive rate likewise;
/// none when both are zero.
pub fn uplink_bandwidth(uplink: &JsonValue) -> (res: Option<Bandwidth>)
    ensures
        ({
            let tx = uplink_rate(uplink@, "txRateBps"@, "txBytesPerSecond"@, "tx_bytes-r"@);
            let rx = uplink_rate(uplink@, "rxRateBps"@, "rxBytesPerSecond"@, "rx_bytes-r"@);
            if tx == 0 && rx == 0 {
                res is None
            } else {
                res == Some(Bandwidth { tx_bytes_per_sec: tx, rx_bytes_per_sec: rx })
            }
        }),
{
    let tx = rate_of(uplink, "txRateBps", "txBytesPerSecond", "tx_bytes-r");
    let rx = rate_of(uplink, "rxRateBps", "rxBytesPerSecond", "rx_bytes-r");
    if tx == 0 && rx == 0 {
        None
    } else {
        Some(Bandwidth { tx_bytes_per_sec: tx, rx_bytes_per_sec: rx })
    }
}


/// The Session API's state codes each have their own state: `0` offline,
/// `1` online, `2` pending adoption, `4` updating, `5` getting ready; every
/// other code is unknown.
pub proof fn lemma_device_state_by_code(code: i32)
    ensures
        spec_map_device_state(code) == DeviceState::Offline <==> code == 0,
        spec_map_device_state(code) == DeviceState::Online <==> code == 1,
        spec_map_device_state(code) == DeviceState::PendingAdoption <==> code == 2,
        spec_map_device_state(code) == DeviceState::Updating <==> code == 4,
        spec_map_device_state(code) == DeviceState::GettingReady <==> code == 5,
        spec_map_device_state(code) == DeviceState::Unknown <==> !(code == 0 || code == 1 || code == 2 || code == 4
            || code == 5),
{
}

/// The Integration API's state names each have their own state, and any
/// other name is unknown.
pub proof fn lemma_integration_device_state_by_name(s: Seq<char>)
    ensures
        spec_map_integration_device_state(s) == DeviceState::Online <==> s == "ONLINE"@,
        spec_map_integration_device_state(s) == DeviceState::Offline <==> s == "OFFLINE"@,
        spec_map_integration_device_state(s) == DeviceState::PendingAdoption <==> s == "PENDING_ADOPTION"@,
        spec_map_integration_device_state(s) == DeviceState::Updating <==> s == "UPDATING"@,
        spec_map_integration_device_state(s) == DeviceState::GettingReady <==> s == "GETTING_READY"@,
        spec_map_integration_device_state(s) == DeviceState::Adopting <==> s == "ADOPTING"@,
        spec_map_integration_device_state(s) == DeviceState::Deleting <==> s == "DELETING"@,
        spec_map_integration_device_state(s) == DeviceState::ConnectionInterrupted <==> s == "CONNECTION_INTERRUPTED"@,
        spec_map_integration_device_state(s) == DeviceState::Isolated <==> s == "ISOLATED"@,
{
    reveal_strlit("ONLINE");
    reveal_strlit("OFFLINE");
    reveal_strlit("PENDING_ADOPTION");
    reveal_strlit("UPDATING");
    reveal_strlit("GETTING_READY");
    reveal_strlit("ADOPTING");
    reveal_strlit("DELETING");
    reveal_strlit("CONNECTION_INTERRUPTED");
    reveal_strlit("ISOLATED");
    assert("ONLINE"@.len() == 6 && "OFFLINE"@.len() == 7 && "PENDING_ADOPTION"@.len() == 16);
    assert("GETTING_READY"@.len() == 13 && "CONNECTION_INTERRUPTED"@.len() == 22);
    assert("UPDATING"@.len() == 8 && "ADOPTING"@.len() == 8 && "DELETING"@.len() == 8 && "ISOLATED"@.len() == 8);
    assert("UPDATING"@[0] == 'U' && "ADOPTING"@[0] == 'A' && "DELETING"@[0] == 'D' && "ISOLATED"@[0] == 'I');
}

/// A model name decides the device type by its family prefix: `UAP`, `U6`
/// and `U7` are access points, `USW` and `USL` switches, `UGW`, `UDM`, `UDR`,
/// `UXG`, `UCG` and `UCK` gateways, and a model with none of these prefixes
/// is of another kind.
pub proof fn lemma_model_prefix_type(u: Seq<char>)
    ensures
        (seq_starts_with(u, "UAP"@) || seq_starts_with(u, "U6"@) || seq_starts_with(u, "U7"@)) ==> model_prefix_type(u)
            == DeviceType::AccessPoint,
        (seq_starts_with(u, "USW"@) || seq_starts_with(u, "USL"@)) ==> model_prefix_type(u) == DeviceType::Switch,
        is_gateway_model(u) ==> model_prefix_type(u) == DeviceType::Gateway,
        model_prefix_type(u) == DeviceType::Other <==> !(seq_starts_with(u, "UAP"@) || seq_starts_with(u, "U6"@)
            || seq_starts_with(u, "U7"@) || seq_starts_with(u, "USW"@) || seq_starts_with(u, "USL"@)
            || is_gateway_model(u)),
{
    reveal_strlit("UAP");
    reveal_strlit("U6");
    reveal_strlit("U7");
    reveal_strlit("USW");
    reveal_strlit("USL");
    reveal_strlit("UGW");
    reveal_strlit("UDM");
    reveal_strlit("UDR");
    reveal_strlit("UXG");
    reveal_strlit("UCG");
    reveal_strlit("UCK");
    if u.len() >= 2 {
        let c = u[1];
        assert(seq_starts_with(u, "UAP"@) ==> c == 'A') by {
            if seq_starts_with(u, "UAP"@) {
                assert(u.subrange(0, 3)[1] == u[1]);
            }
        }
        assert(seq_starts_with(u, "U6"@) ==> c == '6') by {
            if seq_starts_with(u, "U6"@) {
                assert(u.subrange(0, 2)[1] == u[1]);
            }
        }
        assert(seq_starts_with(u, "U7"@) ==> c == '7') by {
            if seq_starts_with(u, "U7"@) {
                assert(u.subrange(0, 2)[1] == u[1]);
            }
        }
        assert(seq_starts_with(u, "USW"@) || seq_starts_with(u, "USL"@) ==> c == 'S') by {
            if seq_starts_with(u, "USW"@) || seq_starts_with(u, "USL"@) {
                assert(u.subrange(0, 3)[1] == u[1]);
            }
        }
        assert(is_gateway_model(u) ==> (c == 'G' || c == 'D' || c == 'X' || c == 'C')) by {
            if is_gateway_model(u) {
                assert(u.subrange(0, 3)[1] == u[1]);
            }
        }
    }
}


/// The Integration API's feature list types a device: a gateway when it
/// routes (a `gateway` feature, or `switching` with `routing`) or its model
/// is a gateway's; otherwise an access point with `accessPoint`; otherwise a
/// switch with `switching`; otherwise its model decides.
pub proof fn lemma_integration_device_type_by_features(features: Seq<String>, model: Seq<char>)
    ensures
        ({
            let gw = is_gateway_model(uppercase(model)) || (has_feature(features, "switching"@) && has_feature(
                features,
                "routing"@,
            )) || has_feature(features, "gateway"@);
            let t = spec_infer_device_type_integration(features, model);
            &&& gw ==> t == DeviceType::Gateway
            &&& !gw && has_feature(features, "accessPoint"@) ==> t == DeviceType::AccessPoint
            &&& !gw && !has_feature(features, "accessPoint"@) && has_feature(features, "switching"@) ==> t
                == DeviceType::Switch
            &&& !gw && !has_feature(features, "accessPoint"@) && !has_feature(features, "switching"@) ==> t
                == model_prefix_type(uppercase(model))
        }),
{
    reveal_strlit("");
    reveal_strlit("uap");
    reveal_strlit("usw");
    reveal_strlit("ugw");
    reveal_strlit("udm");
    assert(""@ =~= Seq::<char>::empty());
    assert(""@ != "uap"@ && ""@ != "usw"@ && ""@ != "ugw"@ && ""@ != "udm"@);
}

} // verus!
