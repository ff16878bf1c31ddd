//! Port and interface conversions.
use vstd::prelude::*;

use crate::json::{
    as_array, as_bool, as_str, as_u64, get, jarray, jbool, jget, jstr, ju64, jview, jview_items, jview_members,
    lemma_jview_items, mget, obj_lookup, deref_opt, JView, JsonValue,
};
use crate::model::device::{PoeInfo, Port, PortConnector, PortState};
use crate::text::{owned, str_eq};

verus! {

/// Port link state named by the controller.
pub open spec fn spec_parse_port_state(raw: Seq<char>) -> PortState {
    if raw == "UP"@ || raw == "up"@ {
        PortState::Up
    } else if raw == "DOWN"@ || raw == "down"@ {
        PortState::Down
    } else {
        PortState::Unknown
    }
}

/// Parses a port link state (`UP`/`up`, `DOWN`/`down`).
pub fn parse_port_state(raw: &str) -> (res: PortState)
    ensures
        res == spec_parse_port_state(raw@),
{
    if str_eq(raw, "UP") || str_eq(raw, "up") {
        PortState::Up
    } else if str_eq(raw, "DOWN") || str_eq(raw, "down") {
        PortState::Down
    } else {
        PortState::Unknown
    }
}

/// Port connector named by the controller.
pub open spec fn spec_parse_port_connector(raw: Seq<char>) -> Option<PortConnector> {
    if raw == "RJ45"@ || raw == "rj45"@ {
        Some(PortConnector::Rj45)
    } else if raw == "SFP"@ || raw == "sfp"@ {
        Some(PortConnector::Sfp)
    } else if raw == "SFPPLUS"@ || raw == "SFP+"@ || raw == "sfp+"@ {
        Some(PortConnector::SfpPlus)
    } else if raw == "SFP28"@ || raw == "sfp28"@ {
        Some(PortConnector::Sfp28)
    } else if raw == "QSFP28"@ || raw == "qsfp28"@ {
        Some(PortConnector::Qsfp28)
    } else {
        None
    }
}

/// Parses a port connector name.
pub fn parse_port_connector(raw: &str) -> (res: Option<PortConnector>)
    ensures
        res == spec_parse_port_connector(raw@),
{
    if str_eq(raw, "RJ45") || str_eq(raw, "rj45") {
        Some(PortConnector::Rj45)
    } else if str_eq(raw, "SFP") || str_eq(raw, "sfp") {
        Some(PortConnector::Sfp)
    } else if str_eq(raw, "SFPPLUS") || str_eq(raw, "SFP+") || str_eq(raw, "sfp+") {
        Some(PortConnector::SfpPlus)
    } else if str_eq(raw, "SFP28") || str_eq(raw, "sfp28") {
        Some(PortConnector::Sfp28)
    } else if str_eq(raw, "QSFP28") || str_eq(raw, "qsfp28") {
        Some(PortConnector::Qsfp28)
    } else {
        None
    }
}


/// Truncation of a number to 32 bits.
pub open spec fn trunc32(n: u64) -> u32 {
    (n % 0x1_0000_0000) as u32
}

/// A number member, truncated to 32 bits.
pub open spec fn member_u32(v: JView, key: Seq<char>) -> Option<u32> {
    match ju64(jget(v, key)) {
        Some(n) => Some(trunc32(n)),
        None => None,
    }
}

/// The items that have a number member `key`, in order.
pub open spec fn items_with_number(items: Seq<JView>, key: Seq<char>) -> Seq<JView>
    decreases items.len(),
{
    if items.len() == 0 {
        Seq::empty()
    } else if ju64(jget(items.last(), key)) is Some {
        items_with_number(items.drop_last(), key).push(items.last())
    } else {
        items_with_number(items.drop_last(), key)
    }
}

/// The items of array member `key`; nothing without one.
pub open spec fn array_member(v: Option<JView>, key: Seq<char>) -> Seq<JView> {
    match jarray(match v {
        Some(x) => jget(x, key),
        None => None,
    }) {
        Some(a) => a,
        None => Seq::empty(),
    }
}

/// Port state named by a member; unknown without one.
pub open spec fn member_port_state(v: JView, key: Seq<char>) -> PortState {
    match jstr(jget(v, key)) {
        Some(s) => spec_parse_port_state(s),
        None => PortState::Unknown,
    }
}

/// `port` is the port an Integration API port entry `p` describes.
pub open spec fn is_integration_port(port: Port, p: JView) -> bool {
    &&& member_u32(p, "idx"@) == Some(port.index)
    &&& crate::text::opt_view(port.name) == jstr(jget(p, "name"@))
    &&& port.state == member_port_state(p, "state"@)
    &&& port.speed_mbps == member_u32(p, "speedMbps"@)
    &&& port.max_speed_mbps == member_u32(p, "maxSpeedMbps"@)
    &&& port.connector == match jstr(jget(p, "connector"@)) {
        Some(c) => spec_parse_port_connector(c),
        None => None,
    }
    &&& match jget(p, "poe"@) {
        Some(poe) => port.poe matches Some(info) && {
            &&& crate::text::opt_view(info.standard) == jstr(jget(poe, "standard"@))
            &&& info.enabled == (jbool(jget(poe, "enabled"@)) == Some(true))
            &&& info.state == member_port_state(poe, "state"@)
        },
        None => port.poe is None,
    }
}

fn opt_text(v: Option<&JsonValue>) -> (res: Option<String>)
    ensures
        crate::text::opt_view(res) == jstr(deref_opt(v)),
{
    match as_str(v) {
        Some(s) => Some(owned(s)),
        None => None,
    }
}

fn opt_u32(v: Option<&JsonValue>) -> (res: Option<u32>)
    ensures
        res == match ju64(deref_opt(v)) {
            Some(n) => Some(trunc32(n)),
            None => None,
        },
{
    match as_u64(v) {
        Some(n) => Some((n % 0x1_0000_0000) as u32),
        None => None,
    }
}

fn state_of(v: Option<&JsonValue>) -> (res: PortState)
    ensures
        res == match jstr(deref_opt(v)) {
            Some(s) => spec_parse_port_state(s),
            None => PortState::Unknown,
        },
{
    match as_str(v) {
        Some(s) => parse_port_state(s),
        None => PortState::Unknown,
    }
}

/// The ports of an Integration API `interfaces` value: each entry of `ports`
/// with an `idx`, in order.
pub fn parse_integration_ports(interfaces: &JsonValue) -> (res: Vec<Port>)
    ensures
        ({
            let entries = items_with_number(array_member(Some(interfaces@), "ports"@), "idx"@);
            &&& res@.len() == entries.len()
            &&& forall|j: int| 0 <= j < entries.len() ==> is_integration_port(#[trigger] res@[j], entries[j])
        }),
{
    let ports = match as_array(get(interfaces, "ports")) {
        Some(a) => a,
        None => {
            let v: Vec<Port> = Vec::new();
            return v;
        },
    };
    proof {
        lemma_jview_items(ports@);
    }
    let ghost items = jview_items(ports@);
    let mut out: Vec<Port> = Vec::new();
    let mut i: usize = 0;
    while i < ports.len()
        invariant
            i <= ports.len(),
            items == jview_items(ports@),
            items == array_member(Some(interfaces@), "ports"@),
            items.len() == ports@.len(),
            forall|j: int| 0 <= j < ports@.len() ==> #[trigger] items[j] == jview(ports@[j]),
            out@.len() == items_with_number(items.take(i as int), "idx"@).len(),
            forall|j: int| 0 <= j < out@.len() ==> is_integration_port(
                #[trigger] out@[j],
                items_with_number(items.take(i as int), "idx"@)[j],
            ),
        decreases ports.len() - i,
    {
        let ghost pre = items_with_number(items.take(i as int), "idx"@);
        assert(items.take(i + 1).drop_last() =~= items.take(i as int));
        assert(items.take(i + 1).last() == ports@[i as int]@);
        let p = &ports[i];
        if let Some(idx) = as_u64(get(p, "idx")) {
            let poe = match get(p, "poe") {
                Some(poe) => Some(
                    PoeInfo {
                        standard: opt_text(get(poe, "standard")),
                        enabled: as_bool(get(poe, "enabled")) == Some(true),
                        state: state_of(get(poe, "state")),
                    },
                ),
                None => None,
            };
            let connector = match as_str(get(p, "connector")) {
                Some(c) => parse_port_connector(c),
                None => None,
            };
            let port = Port {
                index: (idx % 0x1_0000_0000) as u32,
                name: opt_text(get(p, "name")),
                state: state_of(get(p, "state")),
                speed_mbps: opt_u32(get(p, "speedMbps")),
                max_speed_mbps: opt_u32(get(p, "maxSpeedMbps")),
                connector,
                poe,
            };
            out.push(port);
        }
        assert(forall|j: int| 0 <= j < pre.len() ==> items_with_number(items.take(i + 1), "idx"@)[j] == pre[j]);
        i = i + 1;
    }
    assert(items.take(ports.len() as int) =~= items);
    out
}

/// PoE standard of a session port by its capability bits.
pub open spec fn poe_standard(caps: u64) -> Seq<char> {
    if caps == 7 {
        "802.3bt"@
    } else if caps == 3 {
        "802.3at"@
    } else {
        "802.3af"@
    }
}

/// Connector of a session port's `media`.
pub open spec fn media_connector(m: Seq<char>) -> Option<PortConnector> {
    if m == "GE"@ || m == "FE"@ {
        Some(PortConnector::Rj45)
    } else if m == "SFP"@ {
        Some(PortConnector::Sfp)
    } else if m == "SFP+"@ {
        Some(PortConnector::SfpPlus)
    } else {
        None
    }
}

/// A boolean member, false unless present and true.
pub open spec fn flag(v: JView, key: Seq<char>) -> bool {
    jbool(jget(v, key)) == Some(true)
}

/// `port` is the port a Session API `port_table` row `p` describes.
pub open spec fn is_session_port(port: Port, p: JView) -> bool {
    &&& member_u32(p, "port_idx"@) == Some(port.index)
    &&& crate::text::opt_view(port.name) == jstr(jget(p, "name"@))
    &&& port.state == if flag(p, "up"@) { PortState::Up } else { PortState::Down }
    &&& port.speed_mbps == member_u32(p, "speed"@)
    &&& port.max_speed_mbps is None
    &&& port.connector == match jstr(jget(p, "media"@)) {
        Some(m) => media_connector(m),
        None => None,
    }
    &&& if flag(p, "port_poe"@) {
        port.poe matches Some(info) && {
            &&& crate::text::opt_view(info.standard) == match ju64(jget(p, "poe_caps"@)) {
                Some(c) => Some(poe_standard(c)),
                None => None,
            }
            &&& info.enabled == flag(p, "poe_enable"@)
            &&& info.state == if flag(p, "poe_good"@) { PortState::Up } else { PortState::Down }
        }
    } else {
        port.poe is None
    }
}

fn flag_of(v: Option<&JsonValue>) -> (res: bool)
    ensures
        res == (jbool(deref_opt(v)) == Some(true)),
{
    as_bool(v) == Some(true)
}

fn session_port(p: &JsonValue, idx: u64) -> (port: Port)
    requires
        ju64(jget(p@, "port_idx"@)) == Some(idx),
    ensures
        is_session_port(port, p@),
{
    let up = flag_of(get(p, "up"));
    let connector = match as_str(get(p, "media")) {
        Some(m) => if str_eq(m, "GE") || str_eq(m, "FE") {
            Some(PortConnector::Rj45)
        } else if str_eq(m, "SFP") {
            Some(PortConnector::Sfp)
        } else if str_eq(m, "SFP+") {
            Some(PortConnector::SfpPlus)
        } else {
            None
        },
        None => None,
    };
    let poe = if flag_of(get(p, "port_poe")) {
        let standard = match as_u64(get(p, "poe_caps")) {
            Some(caps) => Some(owned(if caps == 7 {
                "802.3bt"
            } else if caps == 3 {
                "802.3at"
            } else {
                "802.3af"
            })),
            None => None,
        };
        Some(
            PoeInfo {
                standard,
                enabled: flag_of(get(p, "poe_enable")),
                state: if flag_of(get(p, "poe_good")) { PortState::Up } else { PortState::Down },
            },
        )
    } else {
        None
    };
    Port {
        index: (idx % 0x1_0000_0000) as u32,
        name: opt_text(get(p, "name")),
        state: if up { PortState::Up } else { PortState::Down },
        speed_mbps: opt_u32(get(p, "speed")),
        max_speed_mbps: None,
        connector,
        poe,
    }
}

/// The ports of a Session API device record (its `port_table`): each row with
/// a `port_idx`, in order.
pub fn parse_session_ports(extra: &Vec<(String, JsonValue)>) -> (res: Vec<Port>)
    ensures
        ({
            let entries = items_with_number(
                match jarray(mget(jview_members(extra@), "port_table"@)) {
                    Some(a) => a,
                    None => Seq::empty(),
                },
                "port_idx"@,
            );
            &&& res@.len() == entries.len()
            &&& forall|j: int| 0 <= j < entries.len() ==> is_session_port(#[trigger] res@[j], entries[j])
        }),
{
    let ports = match as_array(obj_lookup(extra, "port_table")) {
        Some(a) => a,
        None => {
            let v: Vec<Port> = Vec::new();
            return v;
        },
    };
    proof {
        lemma_jview_items(ports@);
    }
    let ghost items = jview_items(ports@);
    let mut out: Vec<Port> = Vec::new();
    let mut i: usize = 0;
    while i < ports.len()
        invariant
            i <= ports.len(),
            items == jview_items(ports@),
            items == match jarray(mget(jview_members(extra@), "port_table"@)) {
                Some(a) => a,
                None => Seq::empty(),
            },
            items.len() == ports@.len(),
            forall|j: int| 0 <= j < ports@.len() ==> #[trigger] items[j] == jview(ports@[j]),
            out@.len() == items_with_number(items.take(i as int), "port_idx"@).len(),
            forall|j: int| 0 <= j < out@.len() ==> is_session_port(
                #[trigger] out@[j],
                items_with_number(items.take(i as int), "port_idx"@)[j],
            ),
        decreases ports.len() - i,
    {
        let ghost pre = items_with_number(items.take(i as int), "port_idx"@);
        assert(items.take(i + 1).drop_last() =~= items.take(i as int));
        assert(items.take(i + 1).last() == ports@[i as int]@);
        let p = &ports[i];
        if let Some(idx) = as_u64(get(p, "port_idx")) {
            out.push(session_port(p, idx));
        }
        assert(forall|j: int| 0 <= j < pre.len() ==> items_with_number(items.take(i + 1), "port_idx"@)[j] == pre[j]);
        i = i + 1;
    }
    assert(items.take(ports.len() as int) =~= items);
    out
}


/// A Session API port reports PoE exactly when its row says `port_poe`, and
/// then its standard follows the capability bits: `7` is 802.3bt, `3` is
/// 802.3at, any other value 802.3af, and no bits no standard.
pub proof fn lemma_session_poe_standard(port: Port, p: JView)
    requires
        is_session_port(port, p),
    ensures
        port.poe is Some <==> flag(p, "port_poe"@),
        flag(p, "port_poe"@) ==> match ju64(jget(p, "poe_caps"@)) {
            Some(c) => crate::text::opt_view(port.poe->Some_0.standard) == Some(
                if c == 7 {
                    "802.3bt"@
                } else if c == 3 {
                    "802.3at"@
                } else {
                    "802.3af"@
                },
            ),
            None => port.poe->Some_0.standard is None,
        },
{
}


/// Each link state has its own names, in upper or lower case: `UP`/`up`
/// is up, `DOWN`/`down` down, anything else unknown.
pub proof fn lemma_port_state_by_name(s: Seq<char>)
    ensures
        spec_parse_port_state(s) == PortState::Up <==> (s == "UP"@ || s == "up"@),
        spec_parse_port_state(s) == PortState::Down <==> (s == "DOWN"@ || s == "down"@),
{
    reveal_strlit("UP");
    reveal_strlit("up");
    reveal_strlit("DOWN");
    reveal_strlit("down");
    assert("UP"@.len() == 2 && "up"@.len() == 2 && "DOWN"@.len() == 4 && "down"@.len() == 4);
}

/// Each connector has its own names: `RJ45`, `SFP`, `SFPPLUS`/`SFP+`,
/// `SFP28` and `QSFP28` (also in lower case, where the controller uses it);
/// any other name is no connector.
pub proof fn lemma_port_connector_by_name(s: Seq<char>)
    ensures
        spec_parse_port_connector(s) == Some(PortConnector::Rj45) <==> (s == "RJ45"@ || s == "rj45"@),
        spec_parse_port_connector(s) == Some(PortConnector::Sfp) <==> (s == "SFP"@ || s == "sfp"@),
        spec_parse_port_connector(s) == Some(PortConnector::SfpPlus) <==> (s == "SFPPLUS"@ || s == "SFP+"@ || s
            == "sfp+"@),
        spec_parse_port_connector(s) == Some(PortConnector::Sfp28) <==> (s == "SFP28"@ || s == "sfp28"@),
        spec_parse_port_connector(s) == Some(PortConnector::Qsfp28) <==> (s == "QSFP28"@ || s == "qsfp28"@),
        media_connector(s) == Some(PortConnector::Rj45) <==> (s == "GE"@ || s == "FE"@),
        media_connector(s) == Some(PortConnector::Sfp) <==> s == "SFP"@,
        media_connector(s) == Some(PortConnector::SfpPlus) <==> s == "SFP+"@,
        media_connector(s) is None <==> !(s == "GE"@ || s == "FE"@ || s == "SFP"@ || s == "SFP+"@),
{
    reveal_strlit("RJ45");
    reveal_strlit("rj45");
    reveal_strlit("SFP");
    reveal_strlit("sfp");
    reveal_strlit("SFPPLUS");
    reveal_strlit("SFP+");
    reveal_strlit("sfp+");
    reveal_strlit("SFP28");
    reveal_strlit("sfp28");
    reveal_strlit("QSFP28");
    reveal_strlit("qsfp28");
    reveal_strlit("GE");
    reveal_strlit("FE");
    assert("RJ45"@.len() == 4 && "rj45"@.len() == 4 && "SFP+"@.len() == 4 && "sfp+"@.len() == 4);
    assert("RJ45"@[0] == 'R' && "rj45"@[0] == 'r' && "SFP+"@[0] == 'S' && "sfp+"@[0] == 's');
    assert("SFP"@.len() == 3 && "sfp"@.len() == 3 && "SFPPLUS"@.len() == 7);
    assert("SFP28"@.len() == 5 && "sfp28"@.len() == 5 && "QSFP28"@.len() == 6 && "qsfp28"@.len() == 6);
    assert("GE"@.len() == 2 && "FE"@.len() == 2);
}

} // verus!
