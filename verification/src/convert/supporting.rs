//! Traffic matching lists and sites as the controller describes them.
use vstd::prelude::*;

use crate::integration::{signed_decimal, SiteResponse, TrafficMatchingListResponse};
use crate::json::{
    as_array, get, jget, jview_items, jview_members, lemma_jview_items, mget, obj_lookup, JView, JsonValue,
};
use crate::model::entity::{integration_id_text, integration_uuid, is_entity_id_of, DataSource, EntityId};
use crate::model::supporting::{Site, TrafficMatchingList};
use crate::text::{decimal, is_empty_text, push_str, string_views, u64_to_decimal};

verus! {

/// Text of a value given as a string or as an integer of 64 signed bits.
pub open spec fn text_or_int(v: Option<JView>) -> Option<Seq<char>> {
    match v {
        Some(JView::Str(s)) => Some(s),
        Some(JView::UInt(n)) => if n <= i64::MAX {
            Some(decimal(n as nat))
        } else {
            None
        },
        Some(JView::NegInt(n)) => Some(signed_decimal(n as int)),
        _ => None,
    }
}

/// Member `k1` of an object, or `k2` when it has no `k1`.
pub open spec fn member_either(m: Seq<(Seq<char>, JView)>, k1: Seq<char>, k2: Seq<char>) -> Option<JView> {
    match mget(m, k1) {
        Some(v) => Some(v),
        None => mget(m, k2),
    }
}

/// Text of a traffic matching list item: a string item itself; for an
/// object, its `value`, else its `start`/`startPort` and `stop`/`endPort`
/// joined by `-`.
pub open spec fn spec_item_text(item: JView) -> Option<Seq<char>> {
    match item {
        JView::Str(s) => Some(s),
        JView::Object(m) => match text_or_int(mget(m, "value"@)) {
            Some(v) => Some(v),
            None => match (member_either(m, "start"@, "startPort"@), member_either(m, "stop"@, "endPort"@)) {
                (Some(a), Some(b)) => match (text_or_int(Some(a)), text_or_int(Some(b))) {
                    (Some(x), Some(y)) => Some(x + "-"@ + y),
                    _ => None,
                },
                _ => None,
            },
        },
        _ => None,
    }
}

/// Texts of the items that have one, in order.
pub open spec fn item_texts(items: Seq<JView>) -> Seq<Seq<char>>
    decreases items.len(),
{
    if items.len() == 0 {
        Seq::empty()
    } else {
        let rest = item_texts(items.drop_last());
        match spec_item_text(items.last()) {
            Some(t) => rest.push(t),
            None => rest,
        }
    }
}

fn int_text(v: &JsonValue) -> (res: Option<String>)
    ensures
        match res {
            Some(s) => text_or_int(Some(v@)) == Some(s@),
            None => text_or_int(Some(v@)) is None,
        },
{
    match v {
        JsonValue::Str(s) => Some(s.clone()),
        JsonValue::UInt(n) => if *n <= 0x7fff_ffff_ffff_ffff {
            Some(u64_to_decimal(*n))
        } else {
            None
        },
        JsonValue::NegInt(n) => {
            let n = *n;
            let magnitude: u64 = if n < 0 {
                (-(n as i128)) as u64
            } else {
                n as u64
            };
            let digits = u64_to_decimal(magnitude);
            if n < 0 {
                let mut s = String::new();
                push_str(&mut s, "-");
                push_str(&mut s, digits.as_str());
                Some(s)
            } else {
                Some(digits)
            }
        },
        _ => None,
    }
}

fn opt_int_text(v: Option<&JsonValue>) -> (res: Option<String>)
    ensures
        match res {
            Some(s) => text_or_int(crate::json::deref_opt(v)) == Some(s@),
            None => text_or_int(crate::json::deref_opt(v)) is None,
        },
{
    match v {
        Some(x) => int_text(x),
        None => None,
    }
}

fn lookup_either<'a>(m: &'a Vec<(String, JsonValue)>, k1: &str, k2: &str) -> (res: Option<&'a JsonValue>)
    ensures
        crate::json::deref_opt(res) == member_either(jview_members(m@), k1@, k2@),
{
    match obj_lookup(m, k1) {
        Some(v) => Some(v),
        None => obj_lookup(m, k2),
    }
}

/// The text of a traffic matching list item (see [`spec_item_text`]).
pub fn traffic_matching_item_to_string(item: &JsonValue) -> (res: Option<String>)
    ensures
        match res {
            Some(s) => spec_item_text(item@) == Some(s@),
            None => spec_item_text(item@) is None,
        },
{
    match item {
        JsonValue::Str(s) => Some(s.clone()),
        JsonValue::Object(m) => {
            if let Some(v) = opt_int_text(obj_lookup(m, "value")) {
                return Some(v);
            }
            let start = lookup_either(m, "start", "startPort");
            let stop = lookup_either(m, "stop", "endPort");
            match (start, stop) {
                (Some(a), Some(b)) => match (int_text(a), int_text(b)) {
                    (Some(x), Some(y)) => {
                        let mut s = x;
                        push_str(&mut s, "-");
                        push_str(&mut s, y.as_str());
                        Some(s)
                    },
                    _ => None,
                },
                _ => None,
            }
        },
        _ => None,
    }
}

/// The texts of the items that have one (see [`item_texts`]).
pub fn traffic_matching_items(items: &Vec<JsonValue>) -> (res: Vec<String>)
    ensures
        string_views(res@) == item_texts(jview_items(items@)),
{
    proof {
        lemma_jview_items(items@);
    }
    let mut out: Vec<String> = Vec::new();
    let mut i: usize = 0;
    while i < items.len()
        invariant
            i <= items.len(),
            jview_items(items@).len() == items.len(),
            forall|j: int| 0 <= j < items.len() ==> #[trigger] jview_items(items@)[j] == items@[j]@,
            string_views(out@) == item_texts(jview_items(items@).take(i as int)),
        decreases items.len() - i,
    {
        let ghost vs = jview_items(items@);
        let ghost before = out@;
        assert(vs.take(i + 1).drop_last() =~= vs.take(i as int));
        assert(vs.take(i + 1).last() == items@[i as int]@);
        if let Some(t) = traffic_matching_item_to_string(&items[i]) {
            out.push(t);
            assert(string_views(out@) =~= string_views(before).push(t@));
        }
        i = i + 1;
    }
    assert(jview_items(items@).take(items.len() as int) =~= jview_items(items@));
    out
}

/// The traffic matching list a list record describes: its items are the
/// texts of the `items` member's entries that have one.
pub fn traffic_matching_list_from_response(t: TrafficMatchingListResponse) -> (res: TrafficMatchingList)
    ensures
        res.id is Uuid && res.id.text() == integration_id_text(t.id@),
        res.name@ == t.name@,
        res.list_type@ == t.list_type@,
        string_views(res.items@) == match mget(jview_members(t.extra@), "items"@) {
            Some(JView::Array(items)) => item_texts(items),
            _ => Seq::empty(),
        },
        res.origin is None,
{
    let items = match as_array(obj_lookup(&t.extra, "items")) {
        Some(a) => traffic_matching_items(a),
        None => {
            let v: Vec<String> = Vec::new();
            assert(string_views(v@) =~= Seq::<Seq<char>>::empty());
            v
        },
    };
    TrafficMatchingList { id: integration_uuid(t.id), name: t.name, list_type: t.list_type, items, origin: None }
}

/// The site a Session API site record describes: named by its description
/// when that is non-empty, else by its short name.
pub fn site_from_session(id: String, name: String, desc: Option<String>) -> (res: Site)
    ensures
        is_entity_id_of(res.id, id@),
        res.internal_name@ == name@,
        res.name@ == match desc {
            Some(d) if d@.len() > 0 => d@,
            _ => name@,
        },
        res.device_count is None,
        res.client_count is None,
        res.source == DataSource::SessionApi,
{
    let display = match desc {
        Some(d) => if !is_empty_text(d.as_str()) {
            d
        } else {
            name.clone()
        },
        None => name.clone(),
    };
    Site {
        id: EntityId::from_text(id),
        internal_name: name,
        name: display,
        device_count: None,
        client_count: None,
        source: DataSource::SessionApi,
    }
}

/// The site an Integration API site record describes.
pub fn site_from_response(s: SiteResponse) -> (res: Site)
    ensures
        res.id is Uuid && res.id.text() == integration_id_text(s.id@),
        res.internal_name@ == s.internal_reference@,
        res.name@ == s.name@,
        res.device_count is None,
        res.client_count is None,
        res.source == DataSource::IntegrationApi,
{
    Site {
        id: integration_uuid(s.id),
        internal_name: s.internal_reference,
        name: s.name,
        device_count: None,
        client_count: None,
        source: DataSource::IntegrationApi,
    }
}

} // verus!
