//! Historical reports and DPI statistics of the Session API: the paths and
//! bodies of the report calls, and which DPI answer is kept as the
//! controller's endpoints are tried in turn.
use vstd::prelude::*;

use crate::json::{
    as_array, get, jarray, jget, jview, jview_items, jview_members, lemma_jview_items, str_array, string_array, JView,
    JsonValue,
};
use crate::text::{owned, push_str, string_views};

verus! {

/// A kind of historical report.
#[derive(Debug, Clone, Copy, PartialEq, Eq, Structural)]
pub enum ReportKind {
    Site,
    Device,
    Client,
    Gateway,
}

/// Suffix of a report kind in its path.
pub open spec fn report_suffix(kind: ReportKind) -> Seq<char> {
    match kind {
        ReportKind::Site => "site"@,
        ReportKind::Device => "device"@,
        ReportKind::Client => "user"@,
        ReportKind::Gateway => "gw"@,
    }
}

/// Attributes a report asks for unless others are given.
pub open spec fn default_report_attrs(kind: ReportKind) -> Seq<Seq<char>> {
    match kind {
        ReportKind::Site => seq!["bytes"@, "num_sta"@, "time"@, "wlan-num_sta"@, "lan-num_sta"@],
        ReportKind::Device => seq!["bytes"@, "num_sta"@, "time"@, "rx_bytes"@, "tx_bytes"@],
        ReportKind::Client => seq!["bytes"@, "time"@, "rx_bytes"@, "tx_bytes"@],
        ReportKind::Gateway => seq![
            "bytes"@,
            "time"@,
            "wan-tx_bytes"@,
            "wan-rx_bytes"@,
            "lan-rx_bytes"@,
            "lan-tx_bytes"@,
        ],
    }
}

/// Path of a report over `interval` (`5minutes`, `hourly` or `daily`).
pub fn report_path(interval: &str, kind: ReportKind) -> (res: String)
    ensures
        res@ == "stat/report/"@ + interval@ + "."@ + report_suffix(kind),
{
    let mut p = owned("stat/report/");
    push_str(&mut p, interval);
    push_str(&mut p, ".");
    let suffix = match kind {
        ReportKind::Site => "site",
        ReportKind::Device => "device",
        ReportKind::Client => "user",
        ReportKind::Gateway => "gw",
    };
    push_str(&mut p, suffix);
    p
}

fn default_attrs(kind: ReportKind) -> (res: Vec<String>)
    ensures
        string_views(res@) == default_report_attrs(kind),
{
    let names: Vec<&str> = match kind {
        ReportKind::Site => vec!["bytes", "num_sta", "time", "wlan-num_sta", "lan-num_sta"],
        ReportKind::Device => vec!["bytes", "num_sta", "time", "rx_bytes", "tx_bytes"],
        ReportKind::Client => vec!["bytes", "time", "rx_bytes", "tx_bytes"],
        ReportKind::Gateway => vec!["bytes", "time", "wan-tx_bytes", "wan-rx_bytes", "lan-rx_bytes", "lan-tx_bytes"],
    };
    let mut out: Vec<String> = Vec::new();
    let mut i: usize = 0;
    while i < names.len()
        invariant
            i <= names@.len(),
            string_views(out@) == names@.take(i as int).map_values(|s: &str| s@),
        decreases names.len() - i,
    {
        let ghost prev = out@;
        out.push(owned(names[i]));
        assert(string_views(out@) =~= string_views(prev).push(names@[i as int]@));
        assert(names@.take(i + 1).map_values(|s: &str| s@) =~= names@.take(i as int).map_values(|s: &str| s@).push(
            names@[i as int]@,
        ));
        i = i + 1;
    }
    assert(names@.take(names@.len() as int) =~= names@);
    proof {
        reveal_strlit("bytes");
        reveal_strlit("num_sta");
        reveal_strlit("time");
        reveal_strlit("wlan-num_sta");
        reveal_strlit("lan-num_sta");
        reveal_strlit("rx_bytes");
        reveal_strlit("tx_bytes");
        reveal_strlit("wan-tx_bytes");
        reveal_strlit("wan-rx_bytes");
        reveal_strlit("lan-rx_bytes");
        reveal_strlit("lan-tx_bytes");
    }
    assert(string_views(out@) =~= default_report_attrs(kind));
    out
}

/// JSON number of a signed integer.
pub open spec fn int_json(n: i64) -> JView {
    if n >= 0 {
        JView::UInt(n as u64)
    } else {
        JView::NegInt(n)
    }
}

fn int_value(n: i64) -> (res: JsonValue)
    ensures
        res@ == int_json(n),
{
    if n >= 0 {
        JsonValue::UInt(n as u64)
    } else {
        JsonValue::NegInt(n)
    }
}

/// `m` followed by member `k` holding `v`, when `v` is given.
pub open spec fn with_member(m: Seq<(Seq<char>, JView)>, k: Seq<char>, v: Option<JView>) -> Seq<(Seq<char>, JView)> {
    match v {
        Some(x) => m.push((k, x)),
        None => m,
    }
}

fn push_member(members: &mut Vec<(String, JsonValue)>, key: &str, v: Option<JsonValue>)
    ensures
        jview_members(final(members)@) == with_member(
            jview_members(old(members)@),
            key@,
            match v {
                Some(x) => Some(x@),
                None => None,
            },
        ),
{
    if let Some(x) = v {
        let ghost before = members@;
        let ghost xv = x@;
        members.push((owned(key), x));
        assert(members@.drop_last() =~= before);
        assert(jview_members(members@) == jview_members(before).push((key@, xv)));
    }
}

/// Body of a report call: the attributes asked for (the given ones, else
/// the kind's defaults), then the time range bounds and the MAC filter
/// where given.
pub fn report_body(
    kind: ReportKind,
    attrs: Option<&Vec<String>>,
    start: Option<i64>,
    end: Option<i64>,
    macs: Option<&Vec<String>>,
) -> (res: JsonValue)
    ensures
        res@ == JView::Object(
            with_member(
                with_member(
                    with_member(
                        seq![
                            (
                                "attrs"@,
                                str_array(
                                    match attrs {
                                        Some(a) => string_views(a@),
                                        None => default_report_attrs(kind),
                                    },
                                ),
                            ),
                        ],
                        "start"@,
                        match start {
                            Some(s) => Some(int_json(s)),
                            None => None,
                        },
                    ),
                    "end"@,
                    match end {
                        Some(e) => Some(int_json(e)),
                        None => None,
                    },
                ),
                "macs"@,
                match macs {
                    Some(m) => Some(str_array(string_views(m@))),
                    None => None,
                },
            ),
        ),
{
    let list = match attrs {
        Some(a) => string_array(a),
        None => string_array(&default_attrs(kind)),
    };
    let mut members: Vec<(String, JsonValue)> = Vec::new();
    let ghost lv = list@;
    members.push((owned("attrs"), list));
    proof {
        crate::json::lemma_jview_members(members@);
    }
    assert(jview_members(members@) =~= seq![("attrs"@, lv)]);
    push_member(
        &mut members,
        "start",
        match start {
            Some(s) => Some(int_value(s)),
            None => None,
        },
    );
    push_member(
        &mut members,
        "end",
        match end {
            Some(e) => Some(int_value(e)),
            None => None,
        },
    );
    push_member(
        &mut members,
        "macs",
        match macs {
            Some(m) => Some(string_array(m)),
            None => None,
        },
    );
    JsonValue::Object(members)
}

/// Body of the per-station DPI call: the grouping (`by_app` or `by_cat`)
/// and the stations.
pub fn station_dpi_body(group_by: &str, macs: &Vec<String>) -> (res: JsonValue)
    ensures
        res@ == JView::Object(seq![("type"@, JView::Str(group_by@)), ("macs"@, str_array(string_views(macs@)))]),
{
    let m = string_array(macs);
    let members = vec![(owned("type"), JsonValue::Str(owned(group_by))), (owned("macs"), m)];
    proof {
        crate::json::lemma_jview_members(members@);
    }
    assert(jview_members(members@) =~= seq![
        ("type"@, JView::Str(group_by@)),
        ("macs"@, str_array(string_views(macs@))),
    ]);
    JsonValue::Object(members)
}

/// Body of the site DPI call: the grouping.
pub fn site_dpi_body(group_by: &str) -> (res: JsonValue)
    ensures
        res@ == JView::Object(seq![("type"@, JView::Str(group_by@))]),
{
    let members = vec![(owned("type"), JsonValue::Str(owned(group_by)))];
    proof {
        crate::json::lemma_jview_members(members@);
    }
    assert(jview_members(members@) =~= seq![("type"@, JView::Str(group_by@))]);
    JsonValue::Object(members)
}

/// Whether a traffic-flow answer carries application data: a non-empty
/// `top_all_traffic_by_application` array.
pub fn has_flow_app_data(v: &JsonValue) -> (res: bool)
    ensures
        res == (jarray(jget(v@, "top_all_traffic_by_application"@)) matches Some(a) && a.len() > 0),
{
    match as_array(get(v, "top_all_traffic_by_application")) {
        Some(a) => a.len() > 0,
        None => false,
    }
}

/// Whether a site DPI answer is kept: some record carries the grouping as a
/// member (an empty answer is not kept).
pub fn site_dpi_usable(records: &Vec<JsonValue>, group_by: &str) -> (res: bool)
    ensures
        res == exists|i: int| 0 <= i < records@.len() && #[trigger] jget(jview(records@[i]), group_by@) is Some,
{
    let mut i: usize = 0;
    while i < records.len()
        invariant
            i <= records@.len(),
            forall|j: int| 0 <= j < i ==> !(#[trigger] jget(jview(records@[j]), group_by@) is Some),
        decreases records.len() - i,
    {
        if get(&records[i], group_by).is_some() {
            assert(jget(jview(records@[i as int]), group_by@) is Some);
            return true;
        }
        i = i + 1;
    }
    false
}

} // verus!
