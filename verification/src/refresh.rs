//! The data merging of a full refresh: Integration API clients and devices
//! completed from the Session API's records, and the events not seen before.
use vstd::prelude::*;

use crate::convert::helpers::{parse_session_device_wan_ipv6, wan_ipv6};
use crate::convert::interface::{is_session_port, items_with_number, parse_session_ports};
use crate::json::{jarray, jview_members, mget, JsonValue};
use crate::model::device::Port;
use crate::net::display::ipv6_text;
use crate::net::{ip_matches, ipv4_text, is_ip_text, parse_ip, IpAddress};
use crate::text::{lowercase, opt_view, str_eq, string_views, to_lowercase};

verus! {

/// The fields of a client that a refresh completes from the Session API.
#[derive(Debug, PartialEq, Eq)]
pub struct ClientRecord {
    /// The client's MAC address, as text.
    pub mac: String,
    pub ip: Option<IpAddress>,
    pub hostname: Option<String>,
    pub tx_bytes: Option<u64>,
    pub rx_bytes: Option<u64>,
    /// MAC of the switch or access point the client hangs off.
    pub uplink_device_mac: Option<String>,
    pub use_fixedip: bool,
    pub fixed_ip: Option<IpAddress>,
}

/// A client entry of the Session API, as far as the merge reads it.
#[derive(Debug, PartialEq, Eq)]
pub struct SessionClientRecord {
    pub mac: String,
    pub ip: Option<String>,
    pub hostname: Option<String>,
    pub tx_bytes: Option<i64>,
    pub rx_bytes: Option<i64>,
    pub is_wired: Option<bool>,
    /// MAC of the switch of a wired client.
    pub sw_mac: Option<String>,
    /// MAC of the access point of a wireless client.
    pub ap_mac: Option<String>,
}

/// A user record (DHCP reservation) of the Session API.
#[derive(Debug, PartialEq, Eq)]
pub struct SessionUserRecord {
    pub mac: String,
    pub use_fixedip: Option<bool>,
    pub fixed_ip: Option<String>,
}

/// The fields of a device that a refresh completes from the Session API.
#[derive(Debug, PartialEq, Eq)]
pub struct DeviceRecord {
    /// The device's MAC address, as text.
    pub mac: String,
    pub client_count: Option<u32>,
    pub wan_ipv6: Option<String>,
    pub ports: Vec<Port>,
}

/// A device entry of the Session API: its MAC, station count and other fields.
#[derive(Debug, PartialEq, Eq)]
pub struct SessionDeviceRecord {
    pub mac: String,
    pub num_sta: Option<i64>,
    pub extra: Vec<(String, JsonValue)>,
}

/// An event, with the key under which the event store keeps it.
#[derive(Debug, PartialEq, Eq)]
pub struct EventRecord {
    pub key: String,
    pub event_type: String,
    pub message: String,
}

// ── clients ────────────────────────────────────────────────────────

/// The text `std` displays for an IP address.
pub open spec fn ip_text(ip: IpAddress) -> Seq<char> {
    match ip {
        IpAddress::V4(a) => ipv4_text(a),
        IpAddress::V6(a) => ipv6_text(a.groups@),
    }
}

/// Position of the last session client whose IP is `t`.
pub open spec fn last_client_with_ip(session: Seq<SessionClientRecord>, t: Seq<char>) -> Option<int>
    decreases session.len(),
{
    if session.len() == 0 {
        None
    } else if session.last().ip matches Some(x) && x@ == t {
        Some(session.len() - 1)
    } else {
        last_client_with_ip(session.drop_last(), t)
    }
}

/// Position of the first session client whose IP is `t`.
pub open spec fn first_client_with_ip(session: Seq<SessionClientRecord>, t: Seq<char>) -> Option<int>
    decreases session.len(),
{
    if session.len() == 0 {
        None
    } else {
        match first_client_with_ip(session.drop_last(), t) {
            Some(j) => Some(j),
            None => if session.last().ip matches Some(x) && x@ == t {
                Some(session.len() - 1)
            } else {
                None
            },
        }
    }
}

/// Position of the last user record whose lowercase MAC is `m`.
pub open spec fn last_user_with_mac(users: Seq<SessionUserRecord>, m: Seq<char>) -> Option<int>
    decreases users.len(),
{
    if users.len() == 0 {
        None
    } else if lowercase(users.last().mac@) == m {
        Some(users.len() - 1)
    } else {
        last_user_with_mac(users.drop_last(), m)
    }
}

/// A byte counter of the Session API, kept when it is not negative.
pub open spec fn counter(n: Option<i64>) -> Option<u64> {
    match n {
        Some(v) if v >= 0 => Some(v as u64),
        _ => None,
    }
}

/// A client with the traffic fields it lacks filled from session client
/// `s`: bytes, hostname, and the uplink (the switch for a wired client,
/// which a missing flag counts as, else the access point).
pub open spec fn with_session_traffic(c: ClientRecord, s: SessionClientRecord) -> ClientRecord {
    ClientRecord {
        tx_bytes: if c.tx_bytes is Some { c.tx_bytes } else { counter(s.tx_bytes) },
        rx_bytes: if c.rx_bytes is Some { c.rx_bytes } else { counter(s.rx_bytes) },
        hostname: if c.hostname is Some { c.hostname } else { s.hostname },
        uplink_device_mac: if c.uplink_device_mac is Some {
            c.uplink_device_mac
        } else if s.is_wired != Some(false) {
            s.sw_mac
        } else {
            s.ap_mac
        },
        ..c
    }
}

/// A client with the traffic fields it lacks filled from the session client
/// with its IP (the last such entry).
pub open spec fn traffic_merged(c: ClientRecord, session: Seq<SessionClientRecord>) -> ClientRecord {
    match c.ip {
        Some(ip) => match last_client_with_ip(session, ip_text(ip)) {
            Some(j) => with_session_traffic(c, session[j]),
            None => c,
        },
        None => c,
    }
}

/// The user record of a client: the one with its MAC (in lowercase), else
/// the one with the MAC of the first session client with its IP.
pub open spec fn client_user(c: ClientRecord, session: Seq<SessionClientRecord>, users: Seq<SessionUserRecord>) -> Option<int> {
    match last_user_with_mac(users, lowercase(c.mac@)) {
        Some(u) => Some(u),
        None => match c.ip {
            Some(ip) => match first_client_with_ip(session, ip_text(ip)) {
                Some(j) => last_user_with_mac(users, lowercase(session[j].mac@)),
                None => None,
            },
            None => None,
        },
    }
}

/// `ip` is the address a reservation's text names, when it names one.
pub open spec fn is_fixed_ip_of(ip: Option<IpAddress>, text: Option<String>) -> bool {
    match text {
        Some(t) if is_ip_text(t@) => ip matches Some(a) && ip_matches(a, t@),
        _ => ip is None,
    }
}

/// `r` is client `c` merged with the Session API's clients and users: its
/// traffic fields completed, and its reservation taken from its user record
/// when it has one.
pub open spec fn is_merged_client(
    r: ClientRecord,
    c: ClientRecord,
    session: Seq<SessionClientRecord>,
    users: Seq<SessionUserRecord>,
) -> bool {
    let t = traffic_merged(c, session);
    match client_user(c, session, users) {
        Some(u) => r == ClientRecord {
            use_fixedip: users[u].use_fixedip == Some(true),
            fixed_ip: r.fixed_ip,
            ..t
        } && is_fixed_ip_of(r.fixed_ip, users[u].fixed_ip),
        None => r == t,
    }
}

fn ip_address_text(ip: &IpAddress) -> (res: String)
    ensures
        res@ == ip_text(*ip),
{
    match ip {
        IpAddress::V4(a) => a.to_text(),
        IpAddress::V6(a) => a.to_text(),
    }
}

fn last_session_by_ip(session: &Vec<SessionClientRecord>, t: &str) -> (res: Option<usize>)
    ensures
        match last_client_with_ip(session@, t@) {
            Some(j) => res matches Some(k) && k as int == j && 0 <= j < session@.len(),
            None => res is None,
        },
{
    let mut found: Option<usize> = None;
    let mut i: usize = 0;
    assert(session@.take(0) =~= Seq::<SessionClientRecord>::empty());
    while i < session.len()
        invariant
            i <= session@.len(),
            match last_client_with_ip(session@.take(i as int), t@) {
                Some(j) => found matches Some(k) && k as int == j && 0 <= j < i,
                None => found is None,
            },
        decreases session.len() - i,
    {
        assert(session@.take(i + 1).drop_last() =~= session@.take(i as int));
        assert(session@.take(i + 1).last() == session@[i as int]);
        let hit = match &session[i].ip {
            Some(x) => str_eq(x.as_str(), t),
            None => false,
        };
        if hit {
            found = Some(i);
        }
        i = i + 1;
    }
    assert(session@.take(session@.len() as int) =~= session@);
    found
}

fn first_session_by_ip(session: &Vec<SessionClientRecord>, t: &str) -> (res: Option<usize>)
    ensures
        match first_client_with_ip(session@, t@) {
            Some(j) => res matches Some(k) && k as int == j && 0 <= j < session@.len(),
            None => res is None,
        },
{
    let mut found: Option<usize> = None;
    let mut i: usize = 0;
    assert(session@.take(0) =~= Seq::<SessionClientRecord>::empty());
    while i < session.len()
        invariant
            i <= session@.len(),
            match first_client_with_ip(session@.take(i as int), t@) {
                Some(j) => found matches Some(k) && k as int == j && 0 <= j < i,
                None => found is None,
            },
        decreases session.len() - i,
    {
        assert(session@.take(i + 1).drop_last() =~= session@.take(i as int));
        assert(session@.take(i + 1).last() == session@[i as int]);
        let hit = match &session[i].ip {
            Some(x) => str_eq(x.as_str(), t),
            None => false,
        };
        if hit && found.is_none() {
            found = Some(i);
        }
        i = i + 1;
    }
    assert(session@.take(session@.len() as int) =~= session@);
    found
}

fn find_user_by_mac(users: &Vec<SessionUserRecord>, m: &str) -> (res: Option<usize>)
    ensures
        match last_user_with_mac(users@, m@) {
            Some(j) => res matches Some(k) && k as int == j && 0 <= j < users@.len(),
            None => res is None,
        },
{
    let mut found: Option<usize> = None;
    let mut i: usize = 0;
    assert(users@.take(0) =~= Seq::<SessionUserRecord>::empty());
    while i < users.len()
        invariant
            i <= users@.len(),
            match last_user_with_mac(users@.take(i as int), m@) {
                Some(j) => found matches Some(k) && k as int == j && 0 <= j < i,
                None => found is None,
            },
        decreases users.len() - i,
    {
        assert(users@.take(i + 1).drop_last() =~= users@.take(i as int));
        assert(users@.take(i + 1).last() == users@[i as int]);
        let l = to_lowercase(users[i].mac.as_str());
        if str_eq(l.as_str(), m) {
            found = Some(i);
        }
        i = i + 1;
    }
    assert(users@.take(users@.len() as int) =~= users@);
    found
}

fn counter_of(n: Option<i64>) -> (res: Option<u64>)
    ensures
        res == counter(n),
{
    match n {
        Some(v) => if v >= 0 {
            Some(v as u64)
        } else {
            None
        },
        None => None,
    }
}

fn clone_text(o: &Option<String>) -> (res: Option<String>)
    ensures
        res == *o,
{
    match o {
        Some(s) => Some(s.clone()),
        None => None,
    }
}

fn fill_traffic(c: ClientRecord, s: &SessionClientRecord) -> (res: ClientRecord)
    ensures
        res == with_session_traffic(c, *s),
{
    let tx_bytes = if c.tx_bytes.is_some() { c.tx_bytes } else { counter_of(s.tx_bytes) };
    let rx_bytes = if c.rx_bytes.is_some() { c.rx_bytes } else { counter_of(s.rx_bytes) };
    let wired = match s.is_wired {
        Some(false) => false,
        _ => true,
    };
    let uplink_device_mac = match c.uplink_device_mac {
        Some(u) => Some(u),
        None => if wired {
            clone_text(&s.sw_mac)
        } else {
            clone_text(&s.ap_mac)
        },
    };
    let hostname = match c.hostname {
        Some(h) => Some(h),
        None => clone_text(&s.hostname),
    };
    ClientRecord {
        mac: c.mac,
        ip: c.ip,
        hostname,
        tx_bytes,
        rx_bytes,
        uplink_device_mac,
        use_fixedip: c.use_fixedip,
        fixed_ip: c.fixed_ip,
    }
}

fn merge_client(c: ClientRecord, session: &Vec<SessionClientRecord>, users: &Vec<SessionUserRecord>) -> (res: ClientRecord)
    ensures
        is_merged_client(res, c, session@, users@),
{
    let ghost c0 = c;
    let ip_key = match &c.ip {
        Some(ip) => Some(ip_address_text(ip)),
        None => None,
    };
    let mut r = c;
    match &ip_key {
        Some(t) => {
            assert(c0.ip is Some && t@ == ip_text(c0.ip->Some_0));
            match last_session_by_ip(session, t.as_str()) {
                Some(j) => {
                    assert(last_client_with_ip(session@, t@) == Some(j as int));
                    r = fill_traffic(r, &session[j]);
                },
                None => {
                    assert(last_client_with_ip(session@, t@) is None);
                },
            }
        },
        None => {
            assert(c0.ip is None);
        },
    }
    assert(r == traffic_merged(c0, session@));
    let own = to_lowercase(r.mac.as_str());
    let user = match find_user_by_mac(users, own.as_str()) {
        Some(u) => Some(u),
        None => match &ip_key {
            Some(t) => match first_session_by_ip(session, t.as_str()) {
                Some(j) => {
                    let other = to_lowercase(session[j].mac.as_str());
                    find_user_by_mac(users, other.as_str())
                },
                None => None,
            },
            None => None,
        },
    };
    if let Some(u) = user {
        r.use_fixedip = users[u].use_fixedip == Some(true);
        r.fixed_ip = match &users[u].fixed_ip {
            Some(f) => parse_ip(f.as_str()),
            None => None,
        };
    }
    r
}

/// Completes the Integration API's clients from the Session API: each
/// client keeps its fields and gets, from the session client with its IP,
/// the traffic, hostname and uplink it lacks, and from its user record its
/// DHCP reservation (see [`is_merged_client`]).
pub fn merge_session_clients(
    clients: Vec<ClientRecord>,
    session: &Vec<SessionClientRecord>,
    users: &Vec<SessionUserRecord>,
) -> (res: Vec<ClientRecord>)
    ensures
        res@.len() == clients@.len(),
        forall|i: int| 0 <= i < res@.len() ==> is_merged_client(#[trigger] res@[i], clients@[i], session@, users@),
{
    let ghost orig = clients@;
    let n: usize = clients.len();
    assert(orig.len() == n);
    let mut rest = clients;
    let mut out: Vec<ClientRecord> = Vec::new();
    let mut k: usize = 0;
    while rest.len() > 0
        invariant
            k + rest@.len() == orig.len(),
            orig.len() <= usize::MAX,
            rest@ == orig.skip(k as int),
            out@.len() == k,
            forall|i: int| 0 <= i < k ==> is_merged_client(#[trigger] out@[i], orig[i], session@, users@),
        decreases rest.len(),
    {
        let c = rest.remove(0);
        assert(c == orig[k as int]);
        let m = merge_client(c, session, users);
        out.push(m);
        assert(rest@ =~= orig.skip(k + 1));
        k = k + 1;
    }
    out
}

// ── devices ────────────────────────────────────────────────────────

/// Position of the last session device whose MAC is `m`.
pub open spec fn last_device_with_mac(session: Seq<SessionDeviceRecord>, m: Seq<char>) -> Option<int>
    decreases session.len(),
{
    if session.len() == 0 {
        None
    } else if session.last().mac@ == m {
        Some(session.len() - 1)
    } else {
        last_device_with_mac(session.drop_last(), m)
    }
}

/// The rows of a session device's port table that carry a port index.
pub open spec fn session_port_rows(s: SessionDeviceRecord) -> Seq<crate::json::JView> {
    items_with_number(
        match jarray(mget(jview_members(s.extra@), "port_table"@)) {
            Some(a) => a,
            None => Seq::empty(),
        },
        "port_idx"@,
    )
}

/// `ports` are the ports a session device's port table describes.
pub open spec fn are_session_ports(ports: Seq<Port>, s: SessionDeviceRecord) -> bool {
    let rows = session_port_rows(s);
    ports.len() == rows.len() && forall|j: int| 0 <= j < rows.len() ==> is_session_port(#[trigger] ports[j], rows[j])
}

/// A station count that fits 32 bits.
pub open spec fn station_count(n: Option<i64>) -> Option<u32> {
    match n {
        Some(v) if 0 <= v <= u32::MAX => Some(v as u32),
        _ => None,
    }
}

/// `r` is device `d` completed from the session device with its MAC (the
/// last such entry): the client count and WAN IPv6 it lacks, and the ports
/// of the session record when it has none and the record has some.
pub open spec fn is_merged_device(r: DeviceRecord, d: DeviceRecord, session: Seq<SessionDeviceRecord>) -> bool {
    match last_device_with_mac(session, d.mac@) {
        None => r == d,
        Some(j) => {
            let s = session[j];
            &&& r.mac == d.mac
            &&& r.client_count == if d.client_count is Some { d.client_count } else { station_count(s.num_sta) }
            &&& opt_view(r.wan_ipv6) == if d.wan_ipv6 is Some {
                opt_view(d.wan_ipv6)
            } else {
                wan_ipv6(jview_members(s.extra@))
            }
            &&& if d.ports@.len() == 0 && session_port_rows(s).len() > 0 {
                are_session_ports(r.ports@, s)
            } else {
                r.ports@ == d.ports@
            }
        },
    }
}

fn find_device_by_mac(session: &Vec<SessionDeviceRecord>, m: &str) -> (res: Option<usize>)
    ensures
        match last_device_with_mac(session@, m@) {
            Some(j) => res matches Some(k) && k as int == j && 0 <= j < session@.len(),
            None => res is None,
        },
{
    let mut found: Option<usize> = None;
    let mut i: usize = 0;
    assert(session@.take(0) =~= Seq::<SessionDeviceRecord>::empty());
    while i < session.len()
        invariant
            i <= session@.len(),
            match last_device_with_mac(session@.take(i as int), m@) {
                Some(j) => found matches Some(k) && k as int == j && 0 <= j < i,
                None => found is None,
            },
        decreases session.len() - i,
    {
        assert(session@.take(i + 1).drop_last() =~= session@.take(i as int));
        assert(session@.take(i + 1).last() == session@[i as int]);
        if str_eq(session[i].mac.as_str(), m) {
            found = Some(i);
        }
        i = i + 1;
    }
    assert(session@.take(session@.len() as int) =~= session@);
    found
}

fn merge_device(d: DeviceRecord, session: &Vec<SessionDeviceRecord>) -> (res: DeviceRecord)
    ensures
        is_merged_device(res, d, session@),
{
    let ghost d0 = d;
    let mut r = d;
    if let Some(j) = find_device_by_mac(session, r.mac.as_str()) {
        let s = &session[j];
        if r.client_count.is_none() {
            r.client_count = match s.num_sta {
                Some(v) => if 0 <= v && v <= 0xffff_ffff {
                    Some(v as u32)
                } else {
                    None
                },
                None => None,
            };
        }
        if r.wan_ipv6.is_none() {
            r.wan_ipv6 = parse_session_device_wan_ipv6(&s.extra);
        }
        if r.ports.len() == 0 {
            let ports = parse_session_ports(&s.extra);
            if ports.len() > 0 {
                r.ports = ports;
            }
        }
        assert(r.mac == d0.mac);
    }
    r
}

/// Completes the Integration API's devices from the Session API: each
/// device keeps its fields and gets, from the session device with its MAC,
/// the client count, WAN IPv6 address and ports it lacks (see
/// [`is_merged_device`]).
pub fn merge_session_devices(devices: Vec<DeviceRecord>, session: &Vec<SessionDeviceRecord>) -> (res: Vec<DeviceRecord>)
    ensures
        res@.len() == devices@.len(),
        forall|i: int| 0 <= i < res@.len() ==> is_merged_device(#[trigger] res@[i], devices@[i], session@),
{
    let ghost orig = devices@;
    let n: usize = devices.len();
    assert(orig.len() == n);
    let mut rest = devices;
    let mut out: Vec<DeviceRecord> = Vec::new();
    let mut k: usize = 0;
    while rest.len() > 0
        invariant
            k + rest@.len() == orig.len(),
            orig.len() <= usize::MAX,
            rest@ == orig.skip(k as int),
            out@.len() == k,
            forall|i: int| 0 <= i < k ==> is_merged_device(#[trigger] out@[i], orig[i], session@),
        decreases rest.len(),
    {
        let d = rest.remove(0);
        assert(d == orig[k as int]);
        let m = merge_device(d, session);
        out.push(m);
        assert(rest@ =~= orig.skip(k + 1));
        k = k + 1;
    }
    out
}

// ── events ─────────────────────────────────────────────────────────

/// The positions of the events to announce: those whose key is neither
/// among the stored events' keys nor the key of an earlier event of the
/// batch.
pub open spec fn unseen_positions(seen: Seq<Seq<char>>, keys: Seq<Seq<char>>) -> Seq<int>
    decreases keys.len(),
{
    if keys.len() == 0 {
        Seq::empty()
    } else {
        let rest = unseen_positions(seen, keys.drop_last());
        let k = keys.last();
        if !seen.contains(k) && !keys.drop_last().contains(k) {
            rest.push(keys.len() - 1)
        } else {
            rest
        }
    }
}

/// The events of a batch that are announced, in order: those at
/// [`unseen_positions`].
pub open spec fn unseen_in_batch(seen: Seq<Seq<char>>, events: Seq<EventRecord>) -> Seq<EventRecord> {
    unseen_positions(seen, event_keys(events)).map_values(|k: int| events[k])
}

/// The keys of events.
pub open spec fn event_keys(events: Seq<EventRecord>) -> Seq<Seq<char>> {
    events.map_values(|e: EventRecord| e.key@)
}

fn key_among(keys: &Vec<String>, k: &str) -> (res: bool)
    ensures
        res == string_views(keys@).contains(k@),
{
    let ghost ks = string_views(keys@);
    let mut i: usize = 0;
    while i < keys.len()
        invariant
            i <= keys@.len(),
            ks == string_views(keys@),
            forall|j: int| 0 <= j < i ==> #[trigger] ks[j] != k@,
        decreases keys.len() - i,
    {
        assert(ks[i as int] == keys@[i as int]@);
        if str_eq(keys[i].as_str(), k) {
            return true;
        }
        i = i + 1;
    }
    false
}

/// The events of a batch not yet seen: those whose key is neither the key of
/// a stored event (`seen_keys`) nor that of an earlier event of the batch, in
/// order.
pub fn unseen_events(seen_keys: &Vec<String>, events: &Vec<EventRecord>) -> (res: Vec<EventRecord>)
    ensures
        ({
            let p = unseen_positions(string_views(seen_keys@), event_keys(events@));
            &&& res@.len() == p.len()
            &&& forall|i: int| 0 <= i < p.len() ==> 0 <= p[i] < events@.len() && #[trigger] res@[i] == events@[p[i]]
        }),
        res@ == unseen_in_batch(string_views(seen_keys@), events@),
{
    let ghost seen = string_views(seen_keys@);
    let ghost ks = event_keys(events@);
    let mut out: Vec<EventRecord> = Vec::new();
    let mut visited: Vec<String> = Vec::new();
    let mut i: usize = 0;
    let ghost mut p: Seq<int> = Seq::empty();
    assert(ks.take(0) =~= Seq::<Seq<char>>::empty());
    while i < events.len()
        invariant
            i <= events@.len(),
            ks == event_keys(events@),
            seen == string_views(seen_keys@),
            string_views(visited@) == ks.take(i as int),
            p == unseen_positions(seen, ks.take(i as int)),
            out@.len() == p.len(),
            forall|j: int| 0 <= j < p.len() ==> 0 <= #[trigger] p[j] < i,
            forall|j: int| 0 <= j < p.len() ==> #[trigger] out@[j] == events@[p[j]],
        decreases events.len() - i,
    {
        let ghost pre = ks.take(i as int);
        assert(ks.take(i + 1).drop_last() =~= pre);
        assert(ks.take(i + 1).last() == events@[i as int].key@);
        let k = events[i].key.as_str();
        let stored = key_among(seen_keys, k);
        let repeated = key_among(&visited, k);
        let ghost p0 = p;
        let ghost out0 = out@;
        if !stored && !repeated {
            let e = EventRecord {
                key: events[i].key.clone(),
                event_type: events[i].event_type.clone(),
                message: events[i].message.clone(),
            };
            assert(e == events@[i as int]);
            out.push(e);
            proof {
                p = p0.push(i as int);
            }
            assert forall|j: int| 0 <= j < p.len() implies #[trigger] out@[j] == events@[p[j]] by {
                if j < p0.len() {
                    assert(out@[j] == out0[j]);
                }
            }
        }
        assert(p == unseen_positions(seen, ks.take(i + 1)));
        let ghost vprev = visited@;
        visited.push(events[i].key.clone());
        assert(string_views(visited@) =~= string_views(vprev).push(events@[i as int].key@));
        assert(ks.take(i + 1) =~= pre.push(events@[i as int].key@));
        i = i + 1;
    }
    assert(ks.take(events@.len() as int) =~= ks);
    assert(forall|j: int| 0 <= j < p.len() ==> 0 <= #[trigger] p[j] < events@.len());
    assert(out@ =~= unseen_in_batch(seen, events@));
    out
}

proof fn lemma_unseen_positions_sound(seen: Seq<Seq<char>>, keys: Seq<Seq<char>>)
    ensures
        ({
            let p = unseen_positions(seen, keys);
            &&& forall|j: int| 0 <= j < p.len() ==> 0 <= #[trigger] p[j] < keys.len()
            &&& forall|j: int| 0 <= j < p.len() ==> !seen.contains(#[trigger] keys[p[j]])
            &&& forall|j: int, k: int| 0 <= j < k < p.len() ==> p[j] < p[k] && keys[#[trigger] p[j]] != keys[#[trigger] p[k]]
        }),
    decreases keys.len(),
{
    if keys.len() > 0 {
        let init = keys.drop_last();
        lemma_unseen_positions_sound(seen, init);
        let p0 = unseen_positions(seen, init);
        let k = keys.last();
        assert forall|j: int| 0 <= j < p0.len() implies keys[p0[j]] == init[p0[j]] by {}
        if !seen.contains(k) && !init.contains(k) {
            assert forall|j: int| 0 <= j < p0.len() implies keys[#[trigger] p0[j]] != k by {
                assert(init.contains(init[p0[j]]));
            }
        }
    }
}

proof fn lemma_unseen_positions_complete(seen: Seq<Seq<char>>, keys: Seq<Seq<char>>)
    ensures
        forall|i: int| 0 <= i < keys.len() && !seen.contains(#[trigger] keys[i]) ==> exists|j: int|
            0 <= j < unseen_positions(seen, keys).len() && keys[#[trigger] unseen_positions(seen, keys)[j]] == keys[i],
    decreases keys.len(),
{
    if keys.len() > 0 {
        let init = keys.drop_last();
        lemma_unseen_positions_complete(seen, init);
        let p0 = unseen_positions(seen, init);
        let p = unseen_positions(seen, keys);
        let k = keys.last();
        let fresh = !seen.contains(k) && !init.contains(k);
        assert(p == if fresh { p0.push(keys.len() - 1) } else { p0 });
        assert forall|i: int| 0 <= i < keys.len() && !seen.contains(#[trigger] keys[i]) implies exists|j: int|
            0 <= j < p.len() && keys[#[trigger] p[j]] == keys[i] by {
            let target = if i < keys.len() - 1 {
                i
            } else if fresh {
                -1
            } else {
                choose|i2: int| 0 <= i2 < init.len() && init[i2] == k
            };
            if target == -1 {
                assert(p[p0.len() as int] == keys.len() - 1);
            } else {
                assert(init[target] == keys[i]);
                assert(!seen.contains(init[target]));
                let j = choose|j: int| 0 <= j < p0.len() && init[#[trigger] p0[j]] == init[target];
                assert(p[j] == p0[j]);
                assert(0 <= p0[j] < init.len()) by {
                    lemma_unseen_positions_bounded(seen, init);
                }
                assert(keys[p[j]] == init[p0[j]]);
            }
        }
    }
}

proof fn lemma_unseen_positions_bounded(seen: Seq<Seq<char>>, keys: Seq<Seq<char>>)
    ensures
        forall|j: int| 0 <= j < unseen_positions(seen, keys).len() ==> 0 <= #[trigger] unseen_positions(seen, keys)[j] < keys.len(),
    decreases keys.len(),
{
    if keys.len() > 0 {
        let init = keys.drop_last();
        lemma_unseen_positions_bounded(seen, init);
        let p0 = unseen_positions(seen, init);
        let p = unseen_positions(seen, keys);
        let k = keys.last();
        let fresh = !seen.contains(k) && !init.contains(k);
        assert(p == if fresh { p0.push(keys.len() - 1) } else { p0 });
        assert forall|j: int| 0 <= j < p.len() implies 0 <= #[trigger] p[j] < keys.len() by {
            if j < p0.len() {
                assert(p[j] == p0[j]);
            }
        }
    }
}

/// The events a refresh announces are announced once: none of them is among
/// the stored events, no two share a key, they keep the batch's order, and
/// every event of the batch whose key is not stored has its key announced.
pub proof fn lemma_unseen_events_announced_once(seen: Seq<Seq<char>>, events: Seq<EventRecord>)
    ensures
        ({
            let out = unseen_in_batch(seen, events);
            let p = unseen_positions(seen, event_keys(events));
            &&& forall|j: int| 0 <= j < out.len() ==> !seen.contains(#[trigger] out[j].key@)
            &&& forall|j: int, k: int| 0 <= j < k < out.len() ==> #[trigger] out[j].key@ != #[trigger] out[k].key@
            &&& forall|j: int, k: int| 0 <= j < k < p.len() ==> p[j] < p[k]
            &&& forall|i: int| 0 <= i < events.len() && !seen.contains(#[trigger] events[i].key@) ==> exists|j: int|
                0 <= j < out.len() && #[trigger] out[j].key@ == events[i].key@
        }),
{
    let ks = event_keys(events);
    lemma_unseen_positions_sound(seen, ks);
    lemma_unseen_positions_complete(seen, ks);
    let out = unseen_in_batch(seen, events);
    let p = unseen_positions(seen, ks);
    assert forall|j: int| 0 <= j < out.len() implies #[trigger] out[j].key@ == ks[p[j]] by {
        assert(0 <= p[j] < ks.len());
    }
    assert forall|i: int| 0 <= i < events.len() && !seen.contains(#[trigger] events[i].key@) implies exists|j: int|
        0 <= j < out.len() && #[trigger] out[j].key@ == events[i].key@ by {
        assert(ks[i] == events[i].key@);
        let j = choose|j: int| 0 <= j < p.len() && ks[#[trigger] p[j]] == ks[i];
        assert(out[j].key@ == ks[p[j]]);
    }
    assert forall|j: int, k: int| 0 <= j < k < out.len() implies #[trigger] out[j].key@ != #[trigger] out[k].key@ by {
        assert(out[j].key@ == ks[p[j]]);
        assert(out[k].key@ == ks[p[k]]);
    }
}

} // verus!
