//! Small shared conversion helpers.
use vstd::prelude::*;

use crate::model::entity::EntityOrigin;
use crate::json::{
    as_str, get, jget, jget_opt, jstr, jview_items, jview_members, lemma_jview_items, mget, obj_lookup, JView,
    JsonValue,
};
use crate::net::display::{ipv6_text, is_unicast_link_local};
use crate::net::{parse_ipv6, spec_parse_ipv6, Ipv6};
use crate::text::{char_pos, find_char, opt_view, slice_chars, str_eq, trim, trim_ws};

verus! {

/// Origin named by an Integration API `management` value.
pub open spec fn spec_map_origin(management: Seq<char>) -> Option<EntityOrigin> {
    if management == "USER_DEFINED"@ {
        Some(EntityOrigin::UserDefined)
    } else if management == "SYSTEM_DEFINED"@ {
        Some(EntityOrigin::SystemDefined)
    } else if management == "ORCHESTRATED"@ {
        Some(EntityOrigin::Orchestrated)
    } else {
        None
    }
}

/// Maps an Integration API `management` value to the entity origin.
pub fn map_origin(management: &str) -> (res: Option<EntityOrigin>)
    ensures
        res == spec_map_origin(management@),
{
    if str_eq(management, "USER_DEFINED") {
        Some(EntityOrigin::UserDefined)
    } else if str_eq(management, "SYSTEM_DEFINED") {
        Some(EntityOrigin::SystemDefined)
    } else if str_eq(management, "ORCHESTRATED") {
        Some(EntityOrigin::Orchestrated)
    } else {
        None
    }
}


/// Origin named by an entity's metadata: its `origin`, or without one its
/// `management`.
pub open spec fn spec_origin_from_metadata(metadata: JView) -> Option<EntityOrigin> {
    let named = match jget(metadata, "origin"@) {
        Some(v) => jstr(Some(v)),
        None => jstr(jget(metadata, "management"@)),
    };
    match named {
        Some(n) => spec_map_origin(n),
        None => None,
    }
}

/// Origin named by an entity's metadata.
pub fn origin_from_metadata(metadata: &JsonValue) -> (res: Option<EntityOrigin>)
    ensures
        res == spec_origin_from_metadata(metadata@),
{
    let named = match get(metadata, "origin") {
        Some(v) => as_str(Some(v)),
        None => as_str(get(metadata, "management")),
    };
    match named {
        Some(n) => map_origin(n),
        None => None,
    }
}

/// The IPv6 address an address text names: the text up to a `/` (a prefix
/// length), without surrounding whitespace, read as IPv6.
pub open spec fn ipv6_of_text(raw: Seq<char>) -> Option<Seq<u16>> {
    let t = trim_ws(raw);
    let head = match char_pos(t, '/') {
        Some(i) => t.take(i),
        None => t,
    };
    spec_parse_ipv6(trim_ws(head))
}

/// The IPv6 address a string value names.
pub open spec fn ipv6_of_value(v: JView) -> Option<Seq<u16>> {
    match v {
        JView::Str(t) => ipv6_of_text(t),
        _ => None,
    }
}

/// The first address the items name; with `global_only`, the first one
/// that is not link-local.
pub open spec fn first_ipv6(items: Seq<JView>, global_only: bool) -> Option<Seq<u16>>
    decreases items.len(),
{
    if items.len() == 0 {
        None
    } else {
        match first_ipv6(items.drop_last(), global_only) {
            Some(g) => Some(g),
            None => match ipv6_of_value(items.last()) {
                Some(g) if !global_only || !is_unicast_link_local(g) => Some(g),
                _ => None,
            },
        }
    }
}

/// The values an address member offers: the items of an array, else the
/// value itself.
pub open spec fn ipv6_candidates(v: JView) -> Seq<JView> {
    match v {
        JView::Array(items) => items,
        _ => seq![v],
    }
}

/// The address a value offers, as text: the first one that is not
/// link-local, else the first link-local one.
pub open spec fn pick_ipv6(v: JView) -> Option<Seq<char>> {
    let items = ipv6_candidates(v);
    match first_ipv6(items, true) {
        Some(g) => Some(ipv6_text(g)),
        None => match first_ipv6(items, false) {
            Some(g) => Some(ipv6_text(g)),
            None => None,
        },
    }
}

/// The WAN IPv6 address of a gateway record: the one `wan1.ipv6` offers,
/// else the one `ipv6` offers.
pub open spec fn wan_ipv6(m: Seq<(Seq<char>, JView)>) -> Option<Seq<char>> {
    match jget_opt(mget(m, "wan1"@), "ipv6"@) {
        Some(v) if pick_ipv6(v) is Some => pick_ipv6(v),
        _ => match mget(m, "ipv6"@) {
            Some(v) => pick_ipv6(v),
            None => None,
        },
    }
}

proof fn lemma_first_ipv6_prefix(items: Seq<JView>, k: int, global_only: bool)
    requires
        0 <= k <= items.len(),
        first_ipv6(items.take(k), global_only) is Some,
    ensures
        first_ipv6(items, global_only) == first_ipv6(items.take(k), global_only),
    decreases items.len(),
{
    if k < items.len() {
        assert(items.drop_last().take(k) =~= items.take(k));
        lemma_first_ipv6_prefix(items.drop_last(), k, global_only);
    } else {
        assert(items.take(k) =~= items);
    }
}

fn parse_ipv6_text(raw: &str) -> (res: Option<Ipv6>)
    ensures
        match res {
            Some(ip) => ipv6_of_text(raw@) == Some(ip.groups@),
            None => ipv6_of_text(raw@) is None,
        },
{
    let t = trim(raw);
    let (cs, pos) = find_char(t.as_str(), '/');
    let head = match pos {
        Some(i) => slice_chars(&cs, 0, i),
        None => slice_chars(&cs, 0, cs.len()),
    };
    assert(cs@.subrange(0, cs@.len() as int) =~= cs@);
    let h = trim(head.as_str());
    parse_ipv6(h.as_str())
}

fn value_ipv6(v: &JsonValue) -> (res: Option<Ipv6>)
    ensures
        match res {
            Some(ip) => ipv6_of_value(v@) == Some(ip.groups@),
            None => ipv6_of_value(v@) is None,
        },
{
    match v {
        JsonValue::Str(t) => parse_ipv6_text(t.as_str()),
        _ => None,
    }
}

fn pick_from_items(items: &Vec<JsonValue>) -> (res: Option<String>)
    ensures
        opt_view(res) == match first_ipv6(jview_items(items@), true) {
            Some(g) => Some(ipv6_text(g)),
            None => match first_ipv6(jview_items(items@), false) {
                Some(g) => Some(ipv6_text(g)),
                None => None,
            },
        },
{
    let ghost js = jview_items(items@);
    proof {
        lemma_jview_items(items@);
    }
    let mut link_local: Option<Ipv6> = None;
    let mut i: usize = 0;
    assert(js.take(0) =~= Seq::<JView>::empty());
    while i < items.len()
        invariant
            i <= items@.len(),
            js == jview_items(items@),
            js.len() == items@.len(),
            forall|j: int| 0 <= j < items@.len() ==> #[trigger] js[j] == crate::json::jview(items@[j]),
            first_ipv6(js.take(i as int), true) is None,
            match link_local {
                Some(ip) => first_ipv6(js.take(i as int), false) == Some(ip.groups@),
                None => first_ipv6(js.take(i as int), false) is None,
            },
        decreases items.len() - i,
    {
        assert(js.take(i + 1).drop_last() =~= js.take(i as int));
        assert(js.take(i + 1).last() == js[i as int]);
        match value_ipv6(&items[i]) {
            Some(ip) => {
                if !ip.is_unicast_link_local() {
                    proof {
                        lemma_first_ipv6_prefix(js, i + 1, true);
                    }
                    return Some(ip.to_text());
                }
                if link_local.is_none() {
                    link_local = Some(ip);
                }
            },
            None => {},
        }
        i = i + 1;
    }
    assert(js.take(js.len() as int) =~= js);
    match link_local {
        Some(ip) => Some(ip.to_text()),
        None => None,
    }
}

/// The address a value offers, as text: the first one that is not
/// link-local, else the first link-local one (an array offers its items, any
/// other value itself).
pub fn pick_ipv6_from_value(value: &JsonValue) -> (res: Option<String>)
    ensures
        opt_view(res) == pick_ipv6(value@),
{
    match value {
        JsonValue::Array(items) => {
            assert(value@ == JView::Array(jview_items(items@)));
            pick_from_items(items)
        },
        _ => {
            let ghost one = seq![value@];
            assert(one.drop_last() =~= Seq::<JView>::empty());
            assert(one.last() == value@);
            assert(ipv6_candidates(value@) == one);
            assert(first_ipv6(one.drop_last(), true) is None);
            assert(first_ipv6(one.drop_last(), false) is None);
            match value_ipv6(value) {
                Some(ip) => Some(ip.to_text()),
                None => None,
            }
        },
    }
}

/// The WAN IPv6 address of a gateway record (its other fields): the one
/// `wan1.ipv6` offers, else the one `ipv6` offers.
pub fn parse_legacy_wan_ipv6(extra: &Vec<(String, JsonValue)>) -> (res: Option<String>)
    ensures
        opt_view(res) == wan_ipv6(jview_members(extra@)),
{
    let wan = match obj_lookup(extra, "wan1") {
        Some(w) => get(w, "ipv6"),
        None => None,
    };
    if let Some(v) = wan {
        if let Some(text) = pick_ipv6_from_value(v) {
            return Some(text);
        }
    }
    match obj_lookup(extra, "ipv6") {
        Some(v) => pick_ipv6_from_value(v),
        None => None,
    }
}

/// The WAN IPv6 address of a device record of the Session API, read as for
/// a gateway record (see [`parse_legacy_wan_ipv6`]).
pub fn parse_session_device_wan_ipv6(extra: &Vec<(String, JsonValue)>) -> (res: Option<String>)
    ensures
        opt_view(res) == wan_ipv6(jview_members(extra@)),
{
    parse_legacy_wan_ipv6(extra)
}


/// Each origin has its own `management` name, and any other name has no
/// origin.
pub proof fn lemma_origin_by_name(m: Seq<char>)
    ensures
        spec_map_origin(m) == Some(EntityOrigin::UserDefined) <==> m == "USER_DEFINED"@,
        spec_map_origin(m) == Some(EntityOrigin::SystemDefined) <==> m == "SYSTEM_DEFINED"@,
        spec_map_origin(m) == Some(EntityOrigin::Orchestrated) <==> m == "ORCHESTRATED"@,
{
    reveal_strlit("USER_DEFINED");
    reveal_strlit("SYSTEM_DEFINED");
    reveal_strlit("ORCHESTRATED");
    assert("USER_DEFINED"@.len() == 12 && "SYSTEM_DEFINED"@.len() == 14 && "ORCHESTRATED"@.len() == 12);
    assert("USER_DEFINED"@[0] != "ORCHESTRATED"@[0]);
}

} // verus!
