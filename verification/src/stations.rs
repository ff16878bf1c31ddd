//! Client (station) commands of the Session API and the DHCP reservations
//! of its user records: the bodies of the calls and which records they
//! touch.
use vstd::prelude::*;

use crate::json::{jview_items, jview_members, JView, JsonValue};
use crate::text::{lowercase, owned, push_str, str_eq, string_views, to_lowercase};

verus! {

/// Body of a station-manager command on one client.
pub fn station_command_body(cmd: &str, mac: &str) -> (res: JsonValue)
    ensures
        res@ == JView::Object(seq![("cmd"@, JView::Str(cmd@)), ("mac"@, JView::Str(mac@))]),
{
    let members = vec![(owned("cmd"), JsonValue::Str(owned(cmd))), (owned("mac"), JsonValue::Str(owned(mac)))];
    proof {
        crate::json::lemma_jview_members(members@);
    }
    assert(jview_members(members@) =~= seq![("cmd"@, JView::Str(cmd@)), ("mac"@, JView::Str(mac@))]);
    JsonValue::Object(members)
}

/// Body of the command that forgets a client.
pub fn forget_station_body(mac: &str) -> (res: JsonValue)
    ensures
        res@ == JView::Object(
            seq![("cmd"@, JView::Str("forget-sta"@)), ("macs"@, JView::Array(seq![JView::Str(mac@)]))],
        ),
{
    let macs = vec![JsonValue::Str(owned(mac))];
    proof {
        crate::json::lemma_jview_items(macs@);
    }
    assert(jview_items(macs@) =~= seq![JView::Str(mac@)]);
    let members = vec![(owned("cmd"), JsonValue::Str(owned("forget-sta"))), (owned("macs"), JsonValue::Array(macs))];
    proof {
        crate::json::lemma_jview_members(members@);
    }
    assert(jview_members(members@) =~= seq![
        ("cmd"@, JView::Str("forget-sta"@)),
        ("macs"@, JView::Array(seq![JView::Str(mac@)])),
    ]);
    JsonValue::Object(members)
}

/// `m` followed by member `k` holding `n`, when `n` is given.
pub open spec fn with_limit(m: Seq<(Seq<char>, JView)>, k: Seq<char>, n: Option<u32>) -> Seq<(Seq<char>, JView)> {
    match n {
        Some(v) => m.push((k, JView::UInt(v as u64))),
        None => m,
    }
}

fn push_limit(members: &mut Vec<(String, JsonValue)>, key: &str, n: Option<u32>)
    ensures
        jview_members(final(members)@) == with_limit(jview_members(old(members)@), key@, n),
{
    if let Some(v) = n {
        let ghost before = members@;
        let k = owned(key);
        members.push((k, JsonValue::UInt(v as u64)));
        assert(members@.drop_last() =~= before);
        assert(members@.last().0@ == key@);
        assert(crate::json::jview(members@.last().1) == JView::UInt(v as u64));
        assert(jview_members(members@) == jview_members(before).push((key@, JView::UInt(v as u64))));
    }
}

/// Body of the command that authorizes a guest for `minutes`, with its
/// upload and download limits (kbit/s) and data quota (MB) where given.
pub fn authorize_guest_body(mac: &str, minutes: u32, up_kbps: Option<u32>, down_kbps: Option<u32>, quota_mb: Option<u32>) -> (res: JsonValue)
    ensures
        res@ == JView::Object(
            with_limit(
                with_limit(
                    with_limit(
                        seq![
                            ("cmd"@, JView::Str("authorize-guest"@)),
                            ("mac"@, JView::Str(mac@)),
                            ("minutes"@, JView::UInt(minutes as u64)),
                        ],
                        "up"@,
                        up_kbps,
                    ),
                    "down"@,
                    down_kbps,
                ),
                "bytes"@,
                quota_mb,
            ),
        ),
{
    let mut members = vec![
        (owned("cmd"), JsonValue::Str(owned("authorize-guest"))),
        (owned("mac"), JsonValue::Str(owned(mac))),
        (owned("minutes"), JsonValue::UInt(minutes as u64)),
    ];
    proof {
        crate::json::lemma_jview_members(members@);
    }
    assert(jview_members(members@) =~= seq![
        ("cmd"@, JView::Str("authorize-guest"@)),
        ("mac"@, JView::Str(mac@)),
        ("minutes"@, JView::UInt(minutes as u64)),
    ]);
    push_limit(&mut members, "up", up_kbps);
    push_limit(&mut members, "down", down_kbps);
    push_limit(&mut members, "bytes", quota_mb);
    JsonValue::Object(members)
}

/// Members of a reservation: fixed address `ip` on network `network_id`.
pub open spec fn reservation_members(ip: Seq<char>, network_id: Seq<char>) -> Seq<(Seq<char>, JView)> {
    seq![("use_fixedip"@, JView::Bool(true)), ("fixed_ip"@, JView::Str(ip)), ("network_id"@, JView::Str(network_id))]
}

/// What setting a client's fixed address does.
#[derive(Debug, PartialEq, Eq)]
pub enum FixedIpPlan {
    /// Update the existing user record with this id.
    Update { user_id: String, body: JsonValue },
    /// Create a user record.
    Create { body: JsonValue },
}

/// Position of the first user record (id, MAC) whose MAC is `mac` in any
/// letter case.
pub open spec fn user_index(users: Seq<(String, String)>, mac: Seq<char>) -> Option<int>
    decreases users.len(),
{
    if users.len() == 0 {
        None
    } else if lowercase(users[0].1@) == lowercase(mac) {
        Some(0)
    } else {
        match user_index(users.drop_first(), mac) {
            Some(i) => Some(i + 1),
            None => None,
        }
    }
}

fn reservation_body(mac: Option<&str>, ip: &str, network_id: &str) -> (res: JsonValue)
    ensures
        res@ == JView::Object(
            match mac {
                Some(m) => seq![("mac"@, JView::Str(m@))] + reservation_members(ip@, network_id@),
                None => reservation_members(ip@, network_id@),
            },
        ),
{
    let mut members: Vec<(String, JsonValue)> = Vec::new();
    if let Some(m) = mac {
        members.push((owned("mac"), JsonValue::Str(owned(m))));
    }
    members.push((owned("use_fixedip"), JsonValue::Bool(true)));
    members.push((owned("fixed_ip"), JsonValue::Str(owned(ip))));
    members.push((owned("network_id"), JsonValue::Str(owned(network_id))));
    proof {
        crate::json::lemma_jview_members(members@);
    }
    assert(jview_members(members@) =~= match mac {
        Some(m) => seq![("mac"@, JView::Str(m@))] + reservation_members(ip@, network_id@),
        None => reservation_members(ip@, network_id@),
    });
    JsonValue::Object(members)
}

/// How to give client `mac` the fixed address `ip` on `network_id`, given
/// the known user records as (id, MAC) pairs: update the first record with
/// that MAC (in any letter case), else create one under the lowercase MAC.
pub fn plan_fixed_ip(users: &Vec<(String, String)>, mac: &str, ip: &str, network_id: &str) -> (res: FixedIpPlan)
    ensures
        match user_index(users@, mac@) {
            Some(i) => res matches FixedIpPlan::Update { user_id, body } && 0 <= i < users@.len() && user_id@
                == users@[i].0@ && body@ == JView::Object(reservation_members(ip@, network_id@)),
            None => res matches FixedIpPlan::Create { body } && body@ == JView::Object(
                seq![("mac"@, JView::Str(lowercase(mac@)))] + reservation_members(ip@, network_id@),
            ),
        },
{
    let normalized = to_lowercase(mac);
    let mut i: usize = 0;
    assert(users@.skip(0) =~= users@);
    while i < users.len()
        invariant
            i <= users@.len(),
            normalized@ == lowercase(mac@),
            user_index(users@, mac@) == match user_index(users@.skip(i as int), mac@) {
                Some(j) => Some(j + i),
                None => None,
            },
        decreases users.len() - i,
    {
        assert(users@.skip(i as int).drop_first() =~= users@.skip(i + 1));
        assert(users@.skip(i as int)[0] == users@[i as int]);
        let candidate = to_lowercase(users[i].1.as_str());
        if str_eq(candidate.as_str(), normalized.as_str()) {
            let body = reservation_body(None, ip, network_id);
            return FixedIpPlan::Update { user_id: users[i].0.clone(), body };
        }
        i = i + 1;
    }
    FixedIpPlan::Create { body: reservation_body(Some(normalized.as_str()), ip, network_id) }
}

/// Whether a user record (id, MAC, network) holds a reservation of `mac`
/// to clear: its MAC matches in any letter case, and its network is
/// `network_id` when one is given.
pub open spec fn is_reservation_of(u: (String, String, Option<String>), mac: Seq<char>, network_id: Option<Seq<char>>) -> bool {
    &&& lowercase(u.1@) == lowercase(mac)
    &&& match network_id {
        Some(n) => u.2 matches Some(x) && x@ == n,
        None => true,
    }
}

/// Ids of the records among `users` that hold a reservation to clear.
pub open spec fn reservation_ids(users: Seq<(String, String, Option<String>)>, mac: Seq<char>, network_id: Option<Seq<char>>) -> Seq<Seq<char>>
    decreases users.len(),
{
    if users.len() == 0 {
        Seq::empty()
    } else {
        let rest = reservation_ids(users.drop_last(), mac, network_id);
        if is_reservation_of(users.last(), mac, network_id) {
            rest.push(users.last().0@)
        } else {
            rest
        }
    }
}

/// The user records whose reservation of `mac` (on `network_id`, when
/// given) is to be cleared, by id; an error naming the MAC (and network)
/// when there is none.
pub fn fixed_ip_removals(users: &Vec<(String, String, Option<String>)>, mac: &str, network_id: Option<&str>) -> (res: Result<Vec<String>, String>)
    ensures
        ({
            let nid = match network_id {
                Some(n) => Some(n@),
                None => None,
            };
            let ids = reservation_ids(users@, mac@, nid);
            if ids.len() == 0 {
                res matches Err(m) && m@ == match network_id {
                    Some(n) => "no reservation for MAC "@ + mac@ + " on network "@ + n@,
                    None => "no known user with MAC "@ + mac@,
                }
            } else {
                res matches Ok(v) && string_views(v@) == ids
            }
        }),
{
    let ghost nid = match network_id {
        Some(n) => Some(n@),
        None => None,
    };
    let normalized = to_lowercase(mac);
    let mut out: Vec<String> = Vec::new();
    let mut i: usize = 0;
    while i < users.len()
        invariant
            i <= users@.len(),
            normalized@ == lowercase(mac@),
            nid == match network_id {
                Some(n) => Some(n@),
                None => None,
            },
            string_views(out@) == reservation_ids(users@.take(i as int), mac@, nid),
        decreases users.len() - i,
    {
        assert(users@.take(i + 1).drop_last() =~= users@.take(i as int));
        assert(users@.take(i + 1).last() == users@[i as int]);
        let candidate = to_lowercase(users[i].1.as_str());
        let on_network = match network_id {
            Some(n) => match &users[i].2 {
                Some(x) => str_eq(x.as_str(), n),
                None => false,
            },
            None => true,
        };
        if str_eq(candidate.as_str(), normalized.as_str()) && on_network {
            let ghost before = out@;
            out.push(users[i].0.clone());
            assert(string_views(out@) =~= string_views(before).push(users@[i as int].0@));
        }
        i = i + 1;
    }
    assert(users@.take(users@.len() as int) =~= users@);
    if out.len() == 0 {
        let mut m = String::new();
        match network_id {
            Some(n) => {
                push_str(&mut m, "no reservation for MAC ");
                push_str(&mut m, mac);
                push_str(&mut m, " on network ");
                push_str(&mut m, n);
            },
            None => {
                push_str(&mut m, "no known user with MAC ");
                push_str(&mut m, mac);
            },
        }
        Err(m)
    } else {
        Ok(out)
    }
}

/// Body of the update that clears a reservation.
pub fn clear_fixed_ip_body() -> (res: JsonValue)
    ensures
        res@ == JView::Object(seq![("use_fixedip"@, JView::Bool(false))]),
{
    let members = vec![(owned("use_fixedip"), JsonValue::Bool(false))];
    proof {
        crate::json::lemma_jview_members(members@);
    }
    assert(jview_members(members@) =~= seq![("use_fixedip"@, JView::Bool(false))]);
    JsonValue::Object(members)
}

} // verus!
