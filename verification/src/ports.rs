//! Switch port profiles and port overrides.
//!
//! A device reports a live `port_table` and a user-edited `port_overrides`
//! list. This module merges both into normalized [`PortProfile`]s, applies
//! profile updates to a single port's override entry while leaving every other
//! entry alone, and converts override entries to and from apply requests.
use vstd::prelude::*;

use crate::error::{CoreError, ErrorView};
use crate::model::device::{PoeMode, PortMode, PortProfile, PortSpeedSetting, PortState, StpState};
use crate::requests::ports::ApplyPortEntry;
use crate::text::{debug_quoted, decimal, opt_str_view, opt_view, push_str, quote, str_eq, string_views, u64_to_decimal};

pub mod entries;
pub mod networks;
pub mod overrides;
pub mod profile;

verus! {

/// Desired update of a single port's profile; unset fields leave the existing
/// override value untouched.
#[derive(Debug, Clone, Default, PartialEq, Eq)]
pub struct PortProfileUpdate {
    /// User-facing port label.
    pub name: Option<String>,
    /// Operational mode.
    pub mode: Option<PortMode>,
    /// Session `_id` of the native network.
    pub native_network_id: Option<String>,
    /// Session `_id`s of tagged networks; `Some` of an empty list clears them.
    pub tagged_network_ids: Option<Vec<String>>,
    /// PoE configuration.
    pub poe_mode: Option<PoeMode>,
    /// Configured link speed.
    pub speed_setting: Option<PortSpeedSetting>,
}

/// The mathematical form of a [`PortProfileUpdate`].
pub struct UpdateView {
    pub name: Option<Seq<char>>,
    pub mode: Option<PortMode>,
    pub native_network_id: Option<Seq<char>>,
    pub tagged_network_ids: Option<Seq<Seq<char>>>,
    pub poe_mode: Option<PoeMode>,
    pub speed_setting: Option<PortSpeedSetting>,
}

impl View for PortProfileUpdate {
    type V = UpdateView;

    open spec fn view(&self) -> UpdateView {
        UpdateView {
            name: opt_view(self.name),
            mode: self.mode,
            native_network_id: opt_view(self.native_network_id),
            tagged_network_ids: match self.tagged_network_ids {
                Some(v) => Some(string_views(v@)),
                None => None,
            },
            poe_mode: self.poe_mode,
            speed_setting: self.speed_setting,
        }
    }
}

/// Counts of the operations of a batch port apply.
#[derive(Debug, Default, Clone, Copy, PartialEq, Eq)]
pub struct ApplyPortsSummary {
    /// Ports that had an override applied or refreshed.
    pub applied: usize,
    /// Ports whose override entry was removed.
    pub reset: usize,
}

// ── string classifications ─────────────────────────────────────────

/// Mode of a port from its `op_mode`, `tagged_vlan_mgmt` and tagged networks.
pub open spec fn spec_classify_mode(
    op_mode: Option<Seq<char>>,
    tagged_vlan_mgmt: Option<Seq<char>>,
    tagged_count: nat,
) -> PortMode {
    if op_mode == Some("mirror"@) {
        PortMode::Mirror
    } else if tagged_vlan_mgmt == Some("block_all"@) {
        PortMode::Access
    } else if tagged_vlan_mgmt == Some("auto"@) || tagged_vlan_mgmt == Some("custom"@) {
        PortMode::Trunk
    } else if tagged_count == 0 {
        PortMode::Unknown
    } else {
        PortMode::Trunk
    }
}

fn opt_is(o: Option<&str>, lit: &str) -> (res: bool)
    ensures
        res == (opt_str_view(o) == Some(lit@)),
{
    match o {
        Some(s) => str_eq(s, lit),
        None => false,
    }
}

/// Mode of a port: `mirror` op mode, then `block_all` (access), `auto` or
/// `custom` (trunk); otherwise a trunk exactly when networks are tagged.
pub fn classify_mode(op_mode: Option<&str>, tagged_vlan_mgmt: Option<&str>, tagged_ids: &[String]) -> (res: PortMode)
    ensures
        res == spec_classify_mode(opt_str_view(op_mode), opt_str_view(tagged_vlan_mgmt), tagged_ids@.len()),
{
    if opt_is(op_mode, "mirror") {
        return PortMode::Mirror;
    }
    if opt_is(tagged_vlan_mgmt, "block_all") {
        PortMode::Access
    } else if opt_is(tagged_vlan_mgmt, "auto") || opt_is(tagged_vlan_mgmt, "custom") {
        PortMode::Trunk
    } else if tagged_ids.len() == 0 {
        PortMode::Unknown
    } else {
        PortMode::Trunk
    }
}

/// PoE mode of a live port or override value.
pub open spec fn spec_parse_poe_mode(raw: Seq<char>) -> PoeMode {
    if raw == "auto"@ {
        PoeMode::Auto
    } else if raw == "off"@ {
        PoeMode::Off
    } else if raw == "pasv24"@ {
        PoeMode::Passive24V
    } else if raw == "passthrough"@ {
        PoeMode::Passthrough
    } else {
        PoeMode::Other
    }
}

/// Parses the PoE mode of a port; unknown values are `Other`.
pub fn parse_poe_mode(raw: &str) -> (res: PoeMode)
    ensures
        res == spec_parse_poe_mode(raw@),
{
    if str_eq(raw, "auto") {
        PoeMode::Auto
    } else if str_eq(raw, "off") {
        PoeMode::Off
    } else if str_eq(raw, "pasv24") {
        PoeMode::Passive24V
    } else if str_eq(raw, "passthrough") {
        PoeMode::Passthrough
    } else {
        PoeMode::Other
    }
}

/// Speed setting named by a wire or request value.
pub open spec fn speed_from_name(raw: Seq<char>) -> Option<PortSpeedSetting> {
    if raw == "auto"@ {
        Some(PortSpeedSetting::Auto)
    } else if raw == "10"@ {
        Some(PortSpeedSetting::Mbps10)
    } else if raw == "100"@ {
        Some(PortSpeedSetting::Mbps100)
    } else if raw == "1000"@ {
        Some(PortSpeedSetting::Mbps1000)
    } else if raw == "2500"@ {
        Some(PortSpeedSetting::Mbps2500)
    } else if raw == "5000"@ {
        Some(PortSpeedSetting::Mbps5000)
    } else if raw == "10000"@ {
        Some(PortSpeedSetting::Mbps10000)
    } else {
        None
    }
}

fn speed_by_name(raw: &str) -> (res: Option<PortSpeedSetting>)
    ensures
        res == speed_from_name(raw@),
{
    if str_eq(raw, "auto") {
        Some(PortSpeedSetting::Auto)
    } else if str_eq(raw, "10") {
        Some(PortSpeedSetting::Mbps10)
    } else if str_eq(raw, "100") {
        Some(PortSpeedSetting::Mbps100)
    } else if str_eq(raw, "1000") {
        Some(PortSpeedSetting::Mbps1000)
    } else if str_eq(raw, "2500") {
        Some(PortSpeedSetting::Mbps2500)
    } else if str_eq(raw, "5000") {
        Some(PortSpeedSetting::Mbps5000)
    } else if str_eq(raw, "10000") {
        Some(PortSpeedSetting::Mbps10000)
    } else {
        None
    }
}

/// Configured speed of a port: autonegotiation wins over a pinned speed.
pub open spec fn spec_parse_speed(raw: Option<Seq<char>>, autoneg: Option<bool>) -> Option<PortSpeedSetting> {
    if autoneg == Some(true) {
        Some(PortSpeedSetting::Auto)
    } else {
        match raw {
            Some(s) => speed_from_name(s),
            None => None,
        }
    }
}

/// Configured speed of a port from its `speed` and `autoneg` values.
pub fn parse_speed(raw: Option<&str>, autoneg: Option<bool>) -> (res: Option<PortSpeedSetting>)
    ensures
        res == spec_parse_speed(opt_str_view(raw), autoneg),
{
    if autoneg == Some(true) {
        return Some(PortSpeedSetting::Auto);
    }
    match raw {
        Some(s) => speed_by_name(s),
        None => None,
    }
}

/// Reading back a port speed: a pinned speed written as its decimal Mbps
/// text reads as the same speed unless autonegotiation is on;
/// autonegotiation reads as `Auto` whatever the text; without text, or with
/// a text that names no speed, nothing is read.
pub proof fn lemma_speed_text_round_trip(st: PortSpeedSetting, autoneg: Option<bool>, raw: Option<Seq<char>>, s: Seq<char>)
    ensures
        st != PortSpeedSetting::Auto && autoneg != Some(true) ==> spec_parse_speed(
            Some(decimal(st.spec_mbps()->Some_0 as nat)),
            autoneg,
        ) == Some(st),
        spec_parse_speed(raw, Some(true)) == Some(PortSpeedSetting::Auto),
        autoneg != Some(true) ==> spec_parse_speed(None, autoneg) is None,
        autoneg != Some(true) && !(s == "auto"@ || s == "10"@ || s == "100"@ || s == "1000"@ || s == "2500"@
            || s == "5000"@ || s == "10000"@) ==> spec_parse_speed(Some(s), autoneg) is None,
{
    reveal_strlit("auto");
    reveal_strlit("10");
    reveal_strlit("100");
    reveal_strlit("1000");
    reveal_strlit("2500");
    reveal_strlit("5000");
    reveal_strlit("10000");
    reveal_with_fuel(decimal, 6);
    if st != PortSpeedSetting::Auto && autoneg != Some(true) {
        let t = decimal(st.spec_mbps()->Some_0 as nat);
        match st {
            PortSpeedSetting::Mbps10 => {
                assert(t =~= "10"@);
            },
            PortSpeedSetting::Mbps100 => {
                assert(t =~= "100"@);
            },
            PortSpeedSetting::Mbps1000 => {
                assert(t =~= "1000"@);
                assert(t[0] != "auto"@[0]);
            },
            PortSpeedSetting::Mbps2500 => {
                assert(t =~= "2500"@);
                assert(t[0] != "auto"@[0] && t[0] != "1000"@[0]);
            },
            PortSpeedSetting::Mbps5000 => {
                assert(t =~= "5000"@);
                assert(t[0] != "auto"@[0] && t[0] != "1000"@[0] && t[0] != "2500"@[0]);
            },
            PortSpeedSetting::Mbps10000 => {
                assert(t =~= "10000"@);

            },
            PortSpeedSetting::Auto => {},
        }
    }
}

/// Spanning-tree state named by the switch.
pub open spec fn spec_parse_stp_state(raw: Seq<char>) -> StpState {
    if raw == "disabled"@ {
        StpState::Disabled
    } else if raw == "blocking"@ {
        StpState::Blocking
    } else if raw == "listening"@ {
        StpState::Listening
    } else if raw == "learning"@ {
        StpState::Learning
    } else if raw == "forwarding"@ {
        StpState::Forwarding
    } else if raw == "broken"@ {
        StpState::Broken
    } else {
        StpState::Unknown
    }
}

/// Parses a spanning-tree state; unknown values are `Unknown`.
pub fn parse_stp_state(raw: &str) -> (res: StpState)
    ensures
        res == spec_parse_stp_state(raw@),
{
    if str_eq(raw, "disabled") {
        StpState::Disabled
    } else if str_eq(raw, "blocking") {
        StpState::Blocking
    } else if str_eq(raw, "listening") {
        StpState::Listening
    } else if str_eq(raw, "learning") {
        StpState::Learning
    } else if str_eq(raw, "forwarding") {
        StpState::Forwarding
    } else if str_eq(raw, "broken") {
        StpState::Broken
    } else {
        StpState::Unknown
    }
}

// ── apply-request parsing ──────────────────────────────────────────

/// Mode named in an apply request.
pub open spec fn mode_from_name(raw: Seq<char>) -> Option<PortMode> {
    if raw == "access"@ {
        Some(PortMode::Access)
    } else if raw == "trunk"@ {
        Some(PortMode::Trunk)
    } else if raw == "mirror"@ {
        Some(PortMode::Mirror)
    } else {
        None
    }
}

/// Message of an invalid apply-request mode.
pub open spec fn invalid_mode_message(raw: Seq<char>) -> Seq<char> {
    "invalid mode "@ + debug_quoted(raw) + ", expected access | trunk | mirror"@
}

/// Parses an apply-request mode: `access`, `trunk` or `mirror`.
pub fn parse_apply_mode(raw: &str) -> (res: Result<PortMode, CoreError>)
    ensures
        match mode_from_name(raw@) {
            Some(m) => res == Ok::<PortMode, CoreError>(m),
            None => res matches Err(e) && e@ == ErrorView::ValidationFailed(invalid_mode_message(raw@)),
        },
{
    if str_eq(raw, "access") {
        Ok(PortMode::Access)
    } else if str_eq(raw, "trunk") {
        Ok(PortMode::Trunk)
    } else if str_eq(raw, "mirror") {
        Ok(PortMode::Mirror)
    } else {
        let mut message = String::new();
        push_str(&mut message, "invalid mode ");
        let q = quote(raw);
        push_str(&mut message, q.as_str());
        push_str(&mut message, ", expected access | trunk | mirror");
        Err(CoreError::ValidationFailed { message })
    }
}

/// PoE mode named in an apply request (`on` is the same as `auto`).
pub open spec fn poe_from_name(raw: Seq<char>) -> Option<PoeMode> {
    if raw == "on"@ || raw == "auto"@ {
        Some(PoeMode::Auto)
    } else if raw == "off"@ {
        Some(PoeMode::Off)
    } else if raw == "pasv24"@ {
        Some(PoeMode::Passive24V)
    } else if raw == "passthrough"@ {
        Some(PoeMode::Passthrough)
    } else {
        None
    }
}

/// Message of an invalid apply-request PoE mode.
pub open spec fn invalid_poe_message(raw: Seq<char>) -> Seq<char> {
    "invalid poe "@ + debug_quoted(raw) + ", expected on | off | auto | pasv24 | passthrough"@
}

/// Parses an apply-request PoE mode.
pub fn parse_apply_poe(raw: &str) -> (res: Result<PoeMode, CoreError>)
    ensures
        match poe_from_name(raw@) {
            Some(m) => res == Ok::<PoeMode, CoreError>(m),
            None => res matches Err(e) && e@ == ErrorView::ValidationFailed(invalid_poe_message(raw@)),
        },
{
    if str_eq(raw, "on") || str_eq(raw, "auto") {
        Ok(PoeMode::Auto)
    } else if str_eq(raw, "off") {
        Ok(PoeMode::Off)
    } else if str_eq(raw, "pasv24") {
        Ok(PoeMode::Passive24V)
    } else if str_eq(raw, "passthrough") {
        Ok(PoeMode::Passthrough)
    } else {
        let mut message = String::new();
        push_str(&mut message, "invalid poe ");
        let q = quote(raw);
        push_str(&mut message, q.as_str());
        push_str(&mut message, ", expected on | off | auto | pasv24 | passthrough");
        Err(CoreError::ValidationFailed { message })
    }
}

/// Message of an invalid apply-request speed.
pub open spec fn invalid_speed_message(raw: Seq<char>) -> Seq<char> {
    "invalid speed "@ + debug_quoted(raw) + ", expected auto | 10 | 100 | 1000 | 2500 | 5000 | 10000"@
}

/// Parses an apply-request speed.
pub fn parse_apply_speed(raw: &str) -> (res: Result<PortSpeedSetting, CoreError>)
    ensures
        match speed_from_name(raw@) {
            Some(m) => res == Ok::<PortSpeedSetting, CoreError>(m),
            None => res matches Err(e) && e@ == ErrorView::ValidationFailed(invalid_speed_message(raw@)),
        },
{
    match speed_by_name(raw) {
        Some(s) => Ok(s),
        None => {
            let mut message = String::new();
            push_str(&mut message, "invalid speed ");
            let q = quote(raw);
            push_str(&mut message, q.as_str());
            push_str(&mut message, ", expected auto | 10 | 100 | 1000 | 2500 | 5000 | 10000");
            Err(CoreError::ValidationFailed { message })
        },
    }
}

/// An error with the port index prefixed to validation messages.
pub open spec fn spec_context_err(port_index: u32, err: ErrorView) -> ErrorView {
    match err {
        ErrorView::ValidationFailed(m) => ErrorView::ValidationFailed(
            "port "@ + decimal(port_index as nat) + ": "@ + m,
        ),
        other => other,
    }
}

/// Prefixes `port {index}: ` to a validation error's message; other errors pass through.
pub fn context_err(port_index: u32, err: CoreError) -> (res: CoreError)
    ensures
        res@ == spec_context_err(port_index, err@),
{
    match err {
        CoreError::ValidationFailed { message } => {
            let mut m = String::new();
            push_str(&mut m, "port ");
            let n = u64_to_decimal(port_index as u64);
            push_str(&mut m, n.as_str());
            push_str(&mut m, ": ");
            push_str(&mut m, message.as_str());
            CoreError::ValidationFailed { message: m }
        },
        other => other,
    }
}

} // verus!
