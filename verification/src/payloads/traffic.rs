//! JSON of firewall policy endpoints and traffic matching lists.
use vstd::prelude::*;

use crate::error::{CoreError, ErrorView};
use crate::json::{clone_value, jview_items, lemma_jview_items, jview, mget, string_array, str_array, JView, JsonValue};
use crate::requests::policy::{FilterView, PortSpec, PortSpecView, TrafficFilterSpec};
use crate::text::{
    char_pos, debug_quoted, lemma_char_pos, find_char, owned, parse_unsigned, push_str, quote, slice_chars, string_views,
    unsigned_value,
};

verus! {

/// The port number `u16::from_str` reads from `s`.
pub open spec fn port_number(s: Seq<char>) -> Option<u16> {
    match unsigned_value(s) {
        Some(v) => if v <= 65535 {
            Some(v as u16)
        } else {
            None
        },
        None => None,
    }
}

/// Message of an invalid port number.
pub open spec fn invalid_port_message(s: Seq<char>) -> Seq<char> {
    "invalid port number "@ + debug_quoted(s) + " (expected 0-65535)"@
}

/// A port number, or the error for an invalid one.
pub open spec fn spec_parse_port(s: Seq<char>) -> Result<u16, ErrorView> {
    match port_number(s) {
        Some(p) => Ok(p),
        None => Err(ErrorView::ValidationFailed(invalid_port_message(s))),
    }
}

/// Parses a port number in `0..=65535`.
pub fn parse_port(value: &str) -> (res: Result<u16, CoreError>)
    ensures
        match spec_parse_port(value@) {
            Ok(p) => res == Ok::<u16, CoreError>(p),
            Err(e) => res matches Err(x) && x@ == e,
        },
{
    match parse_unsigned(value, 65535) {
        Some(v) => Ok(v as u16),
        None => {
            let mut message = String::new();
            push_str(&mut message, "invalid port number ");
            let q = quote(value);
            push_str(&mut message, q.as_str());
            push_str(&mut message, " (expected 0-65535)");
            Err(CoreError::ValidationFailed { message })
        },
    }
}

/// An object with the given members.
pub open spec fn obj(members: Seq<(Seq<char>, JView)>) -> JView {
    JView::Object(members)
}

/// JSON of a port item: `a-b` is a range (split at the first `-`), anything
/// else a single port.
pub open spec fn spec_port_item(p: Seq<char>) -> Result<JView, ErrorView> {
    match char_pos(p, '-') {
        Some(i) => match spec_parse_port(p.take(i)) {
            Err(e) => Err(e),
            Ok(start) => match spec_parse_port(p.skip(i + 1)) {
                Err(e) => Err(e),
                Ok(end) => Ok(
                    obj(
                        seq![
                            ("type"@, JView::Str("PORT_NUMBER_RANGE"@)),
                            ("startPort"@, JView::UInt(start as u64)),
                            ("endPort"@, JView::UInt(end as u64)),
                        ],
                    ),
                ),
            },
        },
        None => match spec_parse_port(p) {
            Err(e) => Err(e),
            Ok(port) => Ok(obj(seq![("type"@, JView::Str("PORT_NUMBER"@)), ("value"@, JView::UInt(port as u64))])),
        },
    }
}

fn member(key: &str, value: JsonValue) -> (res: (String, JsonValue))
    ensures
        res.0@ == key@,
        res.1 == value,
{
    (owned(key), value)
}

fn text_value(s: &str) -> (res: JsonValue)
    ensures
        res@ == JView::Str(s@),
{
    JsonValue::Str(owned(s))
}

/// Builds the JSON of one port item.
pub fn build_port_item_json(p: &str) -> (res: Result<JsonValue, CoreError>)
    ensures
        match spec_port_item(p@) {
            Ok(j) => res matches Ok(v) && v@ == j,
            Err(e) => res matches Err(x) && x@ == e,
        },
{
    let (cs, dash) = find_char(p, '-');
    match dash {
        Some(i) => {
            let start_text = slice_chars(&cs, 0, i);
            let end_text = slice_chars(&cs, i + 1, cs.len());
            assert(start_text@ == p@.take(i as int));
            assert(end_text@ == p@.skip(i + 1));
            let start = match parse_port(start_text.as_str()) {
                Ok(x) => x,
                Err(e) => {
                    return Err(e);
                },
            };
            let end = match parse_port(end_text.as_str()) {
                Ok(x) => x,
                Err(e) => {
                    return Err(e);
                },
            };
            let members = vec![
                member("type", text_value("PORT_NUMBER_RANGE")),
                member("startPort", JsonValue::UInt(start as u64)),
                member("endPort", JsonValue::UInt(end as u64)),
            ];
            let v = JsonValue::Object(members);
            assert(v@ == spec_port_item(p@)->Ok_0) by {
                crate::json::lemma_jview_members(members@);
                assert(crate::json::jview_members(members@) =~= seq![
                    ("type"@, JView::Str("PORT_NUMBER_RANGE"@)),
                    ("startPort"@, JView::UInt(start as u64)),
                    ("endPort"@, JView::UInt(end as u64)),
                ]);
            }
            Ok(v)
        },
        None => {
            let port = match parse_port(p) {
                Ok(x) => x,
                Err(e) => {
                    return Err(e);
                },
            };
            let members = vec![member("type", text_value("PORT_NUMBER")), member("value", JsonValue::UInt(port as u64))];
            let v = JsonValue::Object(members);
            assert(v@ == spec_port_item(p@)->Ok_0) by {
                crate::json::lemma_jview_members(members@);
                assert(crate::json::jview_members(members@) =~= seq![
                    ("type"@, JView::Str("PORT_NUMBER"@)),
                    ("value"@, JView::UInt(port as u64)),
                ]);
            }
            Ok(v)
        },
    }
}


/// JSON of port items, in order; the first invalid item's error.
pub open spec fn spec_port_items(items: Seq<Seq<char>>) -> Result<Seq<JView>, ErrorView>
    decreases items.len(),
{
    if items.len() == 0 {
        Ok(Seq::empty())
    } else {
        match spec_port_items(items.drop_last()) {
            Err(e) => Err(e),
            Ok(done) => match spec_port_item(items.last()) {
                Ok(j) => Ok(done.push(j)),
                Err(e) => Err(e),
            },
        }
    }
}

proof fn lemma_port_items_err(items: Seq<Seq<char>>, i: int)
    requires
        0 <= i < items.len(),
        spec_port_items(items.take(i + 1)) is Err,
    ensures
        spec_port_items(items) == spec_port_items(items.take(i + 1)),
    decreases items.len(),
{
    if i + 1 < items.len() {
        assert(items.drop_last().take(i + 1) =~= items.take(i + 1));
        lemma_port_items_err(items.drop_last(), i);
    } else {
        assert(items.take(i + 1) =~= items);
    }
}

/// JSON of a port filter.
pub open spec fn spec_port_filter(p: PortSpecView) -> Result<JView, ErrorView> {
    match p {
        PortSpecView::Values(items, mo) => match spec_port_items(items) {
            Err(e) => Err(e),
            Ok(js) => Ok(
                obj(
                    seq![
                        ("type"@, JView::Str("PORTS"@)),
                        ("items"@, JView::Array(js)),
                        ("matchOpposite"@, JView::Bool(mo)),
                    ],
                ),
            ),
        },
        PortSpecView::MatchingList(id, mo) => Ok(
            obj(
                seq![
                    ("type"@, JView::Str("TRAFFIC_MATCHING_LIST"@)),
                    ("trafficMatchingListId"@, JView::Str(id)),
                    ("matchOpposite"@, JView::Bool(mo)),
                ],
            ),
        ),
    }
}

/// Builds the JSON of a port filter: inline items or a port group.
pub fn build_port_filter_json(spec: &PortSpec) -> (res: Result<JsonValue, CoreError>)
    ensures
        match spec_port_filter(spec@) {
            Ok(j) => res matches Ok(v) && v@ == j,
            Err(e) => res matches Err(x) && x@ == e,
        },
{
    match spec {
        PortSpec::Values { items, match_opposite } => {
            let ghost ps = string_views(items@);
            let mut out: Vec<JsonValue> = Vec::new();
            let mut i: usize = 0;
            assert(ps.take(0) =~= Seq::<Seq<char>>::empty());
            assert(jview_items(out@) =~= Seq::<JView>::empty());
            while i < items.len()
                invariant
                    i <= items.len(),
                    ps == string_views(items@),
                    spec@ == PortSpecView::Values(ps, *match_opposite),
                    spec_port_items(ps.take(i as int)) == Ok::<Seq<JView>, ErrorView>(jview_items(out@)),
                decreases items.len() - i,
            {
                assert(ps.take(i + 1).drop_last() =~= ps.take(i as int));
                assert(ps.take(i + 1).last() == items@[i as int]@);
                match build_port_item_json(items[i].as_str()) {
                    Ok(j) => {
                        let ghost prev = out@;
                        out.push(j);
                        assert(out@.drop_last() =~= prev);
                    },
                    Err(e) => {
                        assert(spec_port_items(ps.take(i + 1)) == Err::<Seq<JView>, ErrorView>(e@));
                        proof {
                            lemma_port_items_err(ps, i as int);
                        }
                        assert(spec_port_items(ps) == Err::<Seq<JView>, ErrorView>(e@));
                        assert(spec@ == PortSpecView::Values(ps, *match_opposite));
                        return Err(e);
                    },
                }
                i = i + 1;
            }
            assert(ps.take(items.len() as int) =~= ps);
            let members = vec![
                member("type", text_value("PORTS")),
                member("items", JsonValue::Array(out)),
                member("matchOpposite", JsonValue::Bool(*match_opposite)),
            ];
            let v = JsonValue::Object(members);
            assert(v@ == spec_port_filter(spec@)->Ok_0) by {
                crate::json::lemma_jview_members(members@);
                assert(crate::json::jview_members(members@) =~= seq![
                    ("type"@, JView::Str("PORTS"@)),
                    ("items"@, JView::Array(jview_items(out@))),
                    ("matchOpposite"@, JView::Bool(*match_opposite)),
                ]);
            }
            Ok(v)
        },
        PortSpec::MatchingList { list_id, match_opposite } => {
            let members = vec![
                member("type", text_value("TRAFFIC_MATCHING_LIST")),
                member("trafficMatchingListId", text_value(list_id.as_str())),
                member("matchOpposite", JsonValue::Bool(*match_opposite)),
            ];
            let v = JsonValue::Object(members);
            assert(v@ == spec_port_filter(spec@)->Ok_0) by {
                crate::json::lemma_jview_members(members@);
                assert(crate::json::jview_members(members@) =~= seq![
                    ("type"@, JView::Str("TRAFFIC_MATCHING_LIST"@)),
                    ("trafficMatchingListId"@, JView::Str(list_id@)),
                    ("matchOpposite"@, JView::Bool(*match_opposite)),
                ]);
            }
            Ok(v)
        },
    }
}

/// JSON of an address item: with a `/` a subnet, with a `-` a range (split at
/// the first `-`), otherwise one address.
pub open spec fn spec_ip_item(a: Seq<char>) -> JView {
    if char_pos(a, '/') is Some {
        obj(seq![("type"@, JView::Str("SUBNET"@)), ("value"@, JView::Str(a))])
    } else {
        match char_pos(a, '-') {
            Some(i) => obj(
                seq![
                    ("type"@, JView::Str("RANGE"@)),
                    ("start"@, JView::Str(a.take(i))),
                    ("stop"@, JView::Str(a.skip(i + 1))),
                ],
            ),
            None => obj(seq![("type"@, JView::Str("IP_ADDRESS"@)), ("value"@, JView::Str(a))]),
        }
    }
}

fn ip_item_json(a: &str) -> (res: JsonValue)
    ensures
        res@ == spec_ip_item(a@),
{
    let (cs, slash) = find_char(a, '/');
    if slash.is_some() {
        let members = vec![member("type", text_value("SUBNET")), member("value", text_value(a))];
        let v = JsonValue::Object(members);
        assert(v@ == spec_ip_item(a@)) by {
            crate::json::lemma_jview_members(members@);
            assert(crate::json::jview_members(members@) =~= seq![("type"@, JView::Str("SUBNET"@)), ("value"@, JView::Str(a@))]);
        }
        return v;
    }
    let (cs, dash) = find_char(a, '-');
    match dash {
        Some(i) => {
            assert(i < cs.len());
            let start = slice_chars(&cs, 0, i);
            let stop = slice_chars(&cs, i + 1, cs.len());
            assert(start@ == a@.take(i as int));
            assert(stop@ == a@.skip(i + 1));
            let members = vec![
                member("type", text_value("RANGE")),
                member("start", JsonValue::Str(start)),
                member("stop", JsonValue::Str(stop)),
            ];
            let v = JsonValue::Object(members);
            assert(v@ == spec_ip_item(a@)) by {
                crate::json::lemma_jview_members(members@);
                assert(crate::json::jview_members(members@) =~= seq![
                    ("type"@, JView::Str("RANGE"@)),
                    ("start"@, JView::Str(a@.take(i as int))),
                    ("stop"@, JView::Str(a@.skip(i + 1))),
                ]);
            }
            v
        },
        None => {
            let members = vec![member("type", text_value("IP_ADDRESS")), member("value", text_value(a))];
            let v = JsonValue::Object(members);
            assert(v@ == spec_ip_item(a@)) by {
                crate::json::lemma_jview_members(members@);
                assert(crate::json::jview_members(members@) =~= seq![("type"@, JView::Str("IP_ADDRESS"@)), ("value"@, JView::Str(a@))]);
            }
            v
        },
    }
}

/// The `portFilter` member, when there is a port side.
pub open spec fn with_port_filter(base: Seq<(Seq<char>, JView)>, ports: Option<PortSpecView>) -> Result<JView, ErrorView> {
    match ports {
        None => Ok(obj(base)),
        Some(p) => match spec_port_filter(p) {
            Err(e) => Err(e),
            Ok(pf) => Ok(obj(base.push(("portFilter"@, pf)))),
        },
    }
}

/// JSON of a traffic filter.
pub open spec fn spec_traffic_filter(f: FilterView) -> Result<JView, ErrorView> {
    match f {
        FilterView::Network(ids, mo, ports) => with_port_filter(
            seq![
                ("type"@, JView::Str("NETWORK"@)),
                ("networkFilter"@, obj(seq![("networkIds"@, str_array(ids)), ("matchOpposite"@, JView::Bool(mo))])),
            ],
            ports,
        ),
        FilterView::IpAddress(addrs, mo, ports) => with_port_filter(
            seq![
                ("type"@, JView::Str("IP_ADDRESS"@)),
                (
                    "ipAddressFilter"@,
                    obj(
                        seq![
                            ("type"@, JView::Str("IP_ADDRESSES"@)),
                            ("items"@, JView::Array(addrs.map_values(|a: Seq<char>| spec_ip_item(a)))),
                            ("matchOpposite"@, JView::Bool(mo)),
                        ],
                    ),
                ),
            ],
            ports,
        ),
        FilterView::Port(p) => match spec_port_filter(p) {
            Err(e) => Err(e),
            Ok(pf) => Ok(obj(seq![("type"@, JView::Str("PORT"@)), ("portFilter"@, pf)])),
        },
    }
}

/// JSON of a policy endpoint: its zone and, when given, its traffic filter.
pub open spec fn spec_endpoint(zone: Seq<char>, f: Option<FilterView>) -> Result<JView, ErrorView> {
    match f {
        None => Ok(obj(seq![("zoneId"@, JView::Str(zone))])),
        Some(x) => match spec_traffic_filter(x) {
            Err(e) => Err(e),
            Ok(tf) => Ok(obj(seq![("zoneId"@, JView::Str(zone)), ("trafficFilter"@, tf)])),
        },
    }
}

fn add_port_filter(members: &mut Vec<(String, JsonValue)>, ports: &Option<PortSpec>) -> (res: Result<(), CoreError>)
    ensures
        match with_port_filter(crate::json::jview_members(old(members)@), match ports {
            Some(p) => Some(p@),
            None => None,
        }) {
            Ok(j) => res is Ok && j == JView::Object(crate::json::jview_members(final(members)@)),
            Err(e) => res matches Err(x) && x@ == e,
        },
{
    match ports {
        None => Ok(()),
        Some(p) => match build_port_filter_json(p) {
            Err(e) => Err(e),
            Ok(pf) => {
                let ghost before = members@;
                members.push(member("portFilter", pf));
                proof {
                    crate::json::lemma_jview_members(members@);
                    crate::json::lemma_jview_members(before);
                    assert(members@.drop_last() =~= before);
                }
                Ok(())
            },
        },
    }
}

fn traffic_filter_json(spec: &TrafficFilterSpec) -> (res: Result<JsonValue, CoreError>)
    ensures
        match spec_traffic_filter(spec@) {
            Ok(j) => res matches Ok(v) && v@ == j,
            Err(e) => res matches Err(x) && x@ == e,
        },
{
    match spec {
        TrafficFilterSpec::Network { network_ids, match_opposite, ports } => {
            let inner = vec![
                member("networkIds", string_array(network_ids)),
                member("matchOpposite", JsonValue::Bool(*match_opposite)),
            ];
            let inner_v = JsonValue::Object(inner);
            let mut members = vec![member("type", text_value("NETWORK")), member("networkFilter", inner_v)];
            proof {
                crate::json::lemma_jview_members(inner@);
                crate::json::lemma_jview_members(members@);
                assert(crate::json::jview_members(inner@) =~= seq![
                    ("networkIds"@, str_array(string_views(network_ids@))),
                    ("matchOpposite"@, JView::Bool(*match_opposite)),
                ]);
                assert(crate::json::jview_members(members@) =~= seq![
                    ("type"@, JView::Str("NETWORK"@)),
                    ("networkFilter"@, inner_v@),
                ]);
            }
            match add_port_filter(&mut members, ports) {
                Ok(()) => Ok(JsonValue::Object(members)),
                Err(e) => Err(e),
            }
        },
        TrafficFilterSpec::IpAddress { addresses, match_opposite, ports } => {
            let mut items: Vec<JsonValue> = Vec::new();
            let mut i: usize = 0;
            while i < addresses.len()
                invariant
                    i <= addresses.len(),
                    jview_items(items@) == string_views(addresses@).take(i as int).map_values(
                        |a: Seq<char>| spec_ip_item(a),
                    ),
                decreases addresses.len() - i,
            {
                let ghost prev = items@;
                items.push(ip_item_json(addresses[i].as_str()));
                assert(items@.drop_last() =~= prev);
                assert(jview_items(items@) =~= string_views(addresses@).take(i + 1).map_values(
                    |a: Seq<char>| spec_ip_item(a),
                ));
                i = i + 1;
            }
            assert(string_views(addresses@).take(addresses.len() as int) =~= string_views(addresses@));
            let items_v = JsonValue::Array(items);
            let inner = vec![
                member("type", text_value("IP_ADDRESSES")),
                member("items", items_v),
                member("matchOpposite", JsonValue::Bool(*match_opposite)),
            ];
            let inner_v = JsonValue::Object(inner);
            let mut members = vec![member("type", text_value("IP_ADDRESS")), member("ipAddressFilter", inner_v)];
            proof {
                crate::json::lemma_jview_members(inner@);
                crate::json::lemma_jview_members(members@);
                assert(crate::json::jview_members(inner@) =~= seq![
                    ("type"@, JView::Str("IP_ADDRESSES"@)),
                    ("items"@, items_v@),
                    ("matchOpposite"@, JView::Bool(*match_opposite)),
                ]);
                assert(crate::json::jview_members(members@) =~= seq![
                    ("type"@, JView::Str("IP_ADDRESS"@)),
                    ("ipAddressFilter"@, inner_v@),
                ]);
            }
            match add_port_filter(&mut members, ports) {
                Ok(()) => Ok(JsonValue::Object(members)),
                Err(e) => Err(e),
            }
        },
        TrafficFilterSpec::Port { ports } => match build_port_filter_json(ports) {
            Err(e) => Err(e),
            Ok(pf) => {
                let members = vec![member("type", text_value("PORT")), member("portFilter", pf)];
                let v = JsonValue::Object(members);
                assert(v@ == spec_traffic_filter(spec@)->Ok_0) by {
                    crate::json::lemma_jview_members(members@);
                    assert(crate::json::jview_members(members@) =~= seq![
                        ("type"@, JView::Str("PORT"@)),
                        ("portFilter"@, spec_port_filter(ports@)->Ok_0),
                    ]);
                }
                Ok(v)
            },
        },
    }
}

/// Builds the JSON of a firewall policy endpoint: the zone and, when given,
/// the traffic filter (network, address or port filter, a port side nested
/// beside a network or address filter).
pub fn build_endpoint_json(zone_id: &str, filter: Option<&TrafficFilterSpec>) -> (res: Result<JsonValue, CoreError>)
    ensures
        match spec_endpoint(zone_id@, match filter {
            Some(f) => Some(f@),
            None => None,
        }) {
            Ok(j) => res matches Ok(v) && v@ == j,
            Err(e) => res matches Err(x) && x@ == e,
        },
{
    match filter {
        None => {
            let members = vec![member("zoneId", text_value(zone_id))];
            let v = JsonValue::Object(members);
            assert(v@ == spec_endpoint(zone_id@, None)->Ok_0) by {
                crate::json::lemma_jview_members(members@);
                assert(crate::json::jview_members(members@) =~= seq![("zoneId"@, JView::Str(zone_id@))]);
            }
            Ok(v)
        },
        Some(f) => match traffic_filter_json(f) {
            Err(e) => Err(e),
            Ok(tf) => {
                let members = vec![member("zoneId", text_value(zone_id)), member("trafficFilter", tf)];
                let v = JsonValue::Object(members);
                assert(v@ == spec_endpoint(zone_id@, Some(f@))->Ok_0) by {
                    crate::json::lemma_jview_members(members@);
                    assert(crate::json::jview_members(members@) =~= seq![
                        ("zoneId"@, JView::Str(zone_id@)),
                        ("trafficFilter"@, spec_traffic_filter(f@)->Ok_0),
                    ]);
                }
                Ok(v)
            },
        },
    }
}

/// String items.
pub open spec fn str_items(ss: Seq<Seq<char>>) -> Seq<JView> {
    ss.map_values(|s: Seq<char>| JView::Str(s))
}

/// Items of a traffic matching list: the raw items when given, otherwise the
/// entries as strings.
pub fn traffic_matching_list_items(entries: &[String], raw_items: Option<&[JsonValue]>) -> (res: Vec<JsonValue>)
    ensures
        jview_items(res@) == match raw_items {
            Some(r) => jview_items(r@),
            None => str_items(string_views(entries@)),
        },
{
    match raw_items {
        Some(r) => {
            proof {
                lemma_jview_items(r@);
            }
            let mut out: Vec<JsonValue> = Vec::new();
            let mut i: usize = 0;
            while i < r.len()
                invariant
                    i <= r.len(),
                    jview_items(r@).len() == r@.len(),
                    forall|j: int| 0 <= j < r@.len() ==> #[trigger] jview_items(r@)[j] == jview(r@[j]),
                    jview_items(out@) == jview_items(r@).take(i as int),
                decreases r.len() - i,
            {
                let ghost prev = out@;
                out.push(clone_value(&r[i]));
                assert(out@.drop_last() =~= prev);
                assert(jview_items(out@) =~= jview_items(r@).take(i + 1));
                i = i + 1;
            }
            assert(jview_items(r@).take(r.len() as int) =~= jview_items(r@));
            out
        },
        None => {
            let mut out: Vec<JsonValue> = Vec::new();
            let mut i: usize = 0;
            while i < entries.len()
                invariant
                    i <= entries.len(),
                    jview_items(out@) == str_items(string_views(entries@).take(i as int)),
                decreases entries.len() - i,
            {
                let ghost prev = out@;
                let text = entries[i].clone();
                assert(text@ == entries@[i as int]@);
                let item = JsonValue::Str(text);
                assert(item@ == JView::Str(text@));
                out.push(item);
                assert(out@.drop_last() =~= prev);
                assert(out@.last() == item);
                assert(string_views(entries@).take(i + 1).drop_last() =~= string_views(entries@).take(i as int));
                assert(jview_items(out@) == jview_items(prev).push(item@));
                assert(str_items(string_views(entries@).take(i + 1)) =~= str_items(string_views(entries@).take(i as int)).push(JView::Str(text@)));
                assert(jview_items(out@) =~= str_items(string_views(entries@).take(i + 1)));
                i = i + 1;
            }
            assert(string_views(entries@).take(entries.len() as int) =~= string_views(entries@));
            out
        },
    }
}


/// A port item with a `-` is a range from the port before the first `-` to
/// the port after it: when both sides are port numbers, the item's JSON is a
/// `PORT_NUMBER_RANGE` whose `startPort` is the first and `endPort` the
/// second. An item without a `-` that is a port number is a single
/// `PORT_NUMBER` with that value.
pub proof fn lemma_port_item_bounds(p: Seq<char>, i: int)
    ensures
        ({
            let first = 0 <= i < p.len() && p[i] == '-' && (forall|j: int| 0 <= j < i ==> p[j] != '-');
            first && port_number(p.take(i)) is Some && port_number(p.skip(i + 1)) is Some ==> (
            spec_port_item(p) matches Ok(JView::Object(m)) && mget(m, "type"@) == Some(JView::Str("PORT_NUMBER_RANGE"@))
                && mget(m, "startPort"@) == Some(JView::UInt(port_number(p.take(i))->Some_0 as u64)) && mget(
                m,
                "endPort"@,
            ) == Some(JView::UInt(port_number(p.skip(i + 1))->Some_0 as u64)))
        }),
        (forall|j: int| 0 <= j < p.len() ==> p[j] != '-') && port_number(p) is Some ==> (spec_port_item(p) matches Ok(
            JView::Object(m),
        ) && mget(m, "type"@) == Some(JView::Str("PORT_NUMBER"@)) && mget(m, "value"@) == Some(
            JView::UInt(port_number(p)->Some_0 as u64),
        )),
{
    lemma_char_pos(p, '-');
    reveal_strlit("type");
    reveal_strlit("startPort");
    reveal_strlit("endPort");
    reveal_strlit("value");
    assert("type"@.len() == 4 && "startPort"@.len() == 9 && "endPort"@.len() == 7 && "value"@.len() == 5);
    reveal_with_fuel(mget, 4);
}

/// An address item is a subnet when it has a `/` (kept whole), else a range
/// when it has a `-`, from the text before the first `-` to the text after
/// it (which rejoin into the item), else one address (kept whole).
pub proof fn lemma_ip_item_kind(a: Seq<char>)
    ensures
        (exists|j: int| 0 <= j < a.len() && a[j] == '/') ==> spec_ip_item(a) == obj(
            seq![("type"@, JView::Str("SUBNET"@)), ("value"@, JView::Str(a))],
        ),
        (forall|j: int| 0 <= j < a.len() ==> a[j] != '/') && (forall|j: int| 0 <= j < a.len() ==> a[j] != '-')
            ==> spec_ip_item(a) == obj(seq![("type"@, JView::Str("IP_ADDRESS"@)), ("value"@, JView::Str(a))]),
        (forall|j: int| 0 <= j < a.len() ==> a[j] != '/') && (exists|j: int| 0 <= j < a.len() && a[j] == '-')
            ==> exists|start: Seq<char>, stop: Seq<char>|
            #![trigger start + seq!['-'] + stop]
            spec_ip_item(a) == obj(
                seq![("type"@, JView::Str("RANGE"@)), ("start"@, JView::Str(start)), ("stop"@, JView::Str(stop))],
            ) && start + seq!['-'] + stop == a && (forall|j: int| 0 <= j < start.len() ==> start[j] != '-'),
{
    lemma_char_pos(a, '/');
    lemma_char_pos(a, '-');
    if let Some(i) = char_pos(a, '-') {
        assert(a.take(i) + seq!['-'] + a.skip(i + 1) =~= a);
        assert(forall|j: int| 0 <= j < a.take(i).len() ==> a.take(i)[j] != '-');
    }
}

/// Every valid port list becomes a `PORTS` filter with one JSON item per
/// port item, in order, and the list's own `matchOpposite`.
pub proof fn lemma_port_filter_values(items: Seq<Seq<char>>, mo: bool)
    ensures
        spec_port_items(items) is Ok ==> spec_port_filter(PortSpecView::Values(items, mo)) == Ok::<JView, ErrorView>(
            obj(
                seq![
                    ("type"@, JView::Str("PORTS"@)),
                    ("items"@, JView::Array(spec_port_items(items)->Ok_0)),
                    ("matchOpposite"@, JView::Bool(mo)),
                ],
            ),
        ),
        spec_port_items(items) matches Ok(js) ==> js.len() == items.len() && forall|j: int| 0 <= j < items.len()
            ==> spec_port_item(#[trigger] items[j]) == Ok::<JView, ErrorView>(js[j]),
    decreases items.len(),
{
    if items.len() > 0 {
        lemma_port_filter_values(items.drop_last(), mo);
        if spec_port_items(items) is Ok {
            assert forall|j: int| 0 <= j < items.len() - 1 implies items.drop_last()[j] == items[j] by {}
        }
    }
}

} // verus!
