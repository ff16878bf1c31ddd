//! The WebSocket event stream: where it connects, what each message asks
//! for, and the fields of the event a message announces.
use vstd::prelude::*;

use crate::convert::event::{
    infer_ws_severity, map_event_category, resolve_event_templates, severity_of_upper, spec_map_event_category,
    template_run,
};
use crate::json::{deref_opt, get, jget, jstr, JView, JsonValue};
use crate::model::event::{EventCategory, EventSeverity};
use crate::text::{
    chars_of, decimal, is_empty_text, opt_view, owned, push_str, seq_starts_with, starts_with, str_eq, string_of, u64_to_decimal,
    uppercase,
};

verus! {

// ── routing ────────────────────────────────────────────────────────

/// What a WebSocket message asks for.
#[derive(Debug, Clone, Copy, PartialEq, Eq, Structural)]
pub struct WsRoute {
    /// The message carries a device record to apply to the stored device.
    pub sync_device: bool,
    /// The message is an event to announce.
    pub announce_event: bool,
}

/// The route of a message by its key: `device:sync` and `device:update`
/// update a device, keys starting with `EVT_` are events.
pub open spec fn spec_ws_route(key: Seq<char>) -> WsRoute {
    WsRoute {
        sync_device: key == "device:sync"@ || key == "device:update"@,
        announce_event: seq_starts_with(key, "EVT_"@),
    }
}

/// Routes a WebSocket message by its key (see [`spec_ws_route`]).
pub fn ws_route(key: &str) -> (r: WsRoute)
    ensures
        r == spec_ws_route(key@),
{
    WsRoute {
        sync_device: str_eq(key, "device:sync") || str_eq(key, "device:update"),
        announce_event: starts_with(key, "EVT_"),
    }
}

// ── the URL ────────────────────────────────────────────────────────

/// `s` with every occurrence of `pat` replaced by `rep`, scanning from the
/// left without overlaps, as `str::replace` does for a non-empty pattern.
pub open spec fn replace_all(s: Seq<char>, pat: Seq<char>, rep: Seq<char>) -> Seq<char>
    recommends
        pat.len() > 0,
    decreases s.len(),
{
    if pat.len() == 0 || s.len() == 0 {
        s
    } else if pat.len() <= s.len() && s.take(pat.len() as int) == pat {
        rep + replace_all(s.skip(pat.len() as int), pat, rep)
    } else {
        seq![s[0]] + replace_all(s.skip(1), pat, rep)
    }
}

fn matches_at(cs: &Vec<char>, i: usize, pat: &Vec<char>) -> (res: bool)
    requires
        i <= cs@.len(),
    ensures
        res == (pat@.len() <= cs@.len() - i && cs@.skip(i as int).take(pat@.len() as int) == pat@),
{
    if pat.len() > cs.len() - i {
        return false;
    }
    let mut j: usize = 0;
    while j < pat.len()
        invariant
            i + pat@.len() <= cs@.len(),
            cs@.len() == cs.len(),
            j <= pat@.len(),
            forall|k: int| 0 <= k < j ==> cs@[i + k] == pat@[k],
        decreases pat.len() - j,
    {
        if cs[i + j] != pat[j] {
            assert(cs@.skip(i as int).take(pat@.len() as int)[j as int] != pat@[j as int]);
            return false;
        }
        j = j + 1;
    }
    assert(cs@.skip(i as int).take(pat@.len() as int) =~= pat@);
    true
}

/// `s` with every occurrence of the non-empty `pat` replaced by `rep`.
pub fn replace_text(s: &str, pat: &str, rep: &str) -> (res: String)
    requires
        pat@.len() > 0,
    ensures
        res@ == replace_all(s@, pat@, rep@),
{
    let cs = chars_of(s);
    let ps = chars_of(pat);
    let mut out: Vec<char> = Vec::new();
    let mut i: usize = 0;
    assert(cs@.skip(0) =~= cs@);
    assert(out@ + replace_all(cs@, pat@, rep@) =~= replace_all(cs@, pat@, rep@));
    while i < cs.len()
        invariant
            i <= cs@.len(),
            cs@ == s@,
            ps@ == pat@,
            pat@.len() > 0,
            out@ + replace_all(cs@.skip(i as int), pat@, rep@) == replace_all(s@, pat@, rep@),
        decreases cs.len() - i,
    {
        let ghost rest = cs@.skip(i as int);
        let ghost before = out@;
        if matches_at(&cs, i, &ps) {
            let rc = chars_of(rep);
            let mut k: usize = 0;
            while k < rc.len()
                invariant
                    k <= rc@.len(),
                    out@ == before + rc@.take(k as int),
                decreases rc.len() - k,
            {
                out.push(rc[k]);
                assert(rc@.take(k + 1) =~= rc@.take(k as int).push(rc@[k as int]));
                k = k + 1;
            }
            assert(rc@.take(rc@.len() as int) =~= rc@);
            assert(rest.skip(pat@.len() as int) =~= cs@.skip(i + ps.len()));
            assert(before + (rep@ + replace_all(rest.skip(pat@.len() as int), pat@, rep@)) =~= out@
                + replace_all(cs@.skip(i + ps.len()), pat@, rep@));
            i = i + ps.len();
        } else {
            out.push(cs[i]);
            assert(rest.skip(1) =~= cs@.skip(i + 1));
            assert(rest[0] == cs@[i as int]);
            assert(before + (seq![rest[0]] + replace_all(rest.skip(1), pat@, rep@)) =~= out@ + replace_all(
                cs@.skip(i + 1),
                pat@,
                rep@,
            ));
            i = i + 1;
        }
    }
    assert(cs@.skip(i as int) =~= Seq::<char>::empty());
    assert(out@ + Seq::<char>::empty() =~= out@);
    string_of(&out)
}

/// The URL of the event stream: `wss` for an `https` controller, else
/// `ws`; the controller's host (`localhost` without one) and port, if any;
/// then the platform's path with `{site}` replaced by the site.
pub open spec fn spec_websocket_url(
    https: bool,
    host: Option<Seq<char>>,
    port: Option<u16>,
    path_template: Seq<char>,
    site: Seq<char>,
) -> Seq<char> {
    (if https {
        "wss"@
    } else {
        "ws"@
    }) + "://"@ + (match host {
        Some(h) => h,
        None => "localhost"@,
    }) + (match port {
        Some(p) => ":"@ + decimal(p as nat),
        None => Seq::empty(),
    }) + replace_all(path_template, "{site}"@, site)
}

/// Builds the URL of the event stream (see [`spec_websocket_url`]).
pub fn websocket_url(https: bool, host: Option<&str>, port: Option<u16>, path_template: &str, site: &str) -> (url: String)
    ensures
        url@ == spec_websocket_url(https, crate::text::opt_str_view(host), port, path_template@, site@),
{
    let mut url = if https {
        owned("wss")
    } else {
        owned("ws")
    };
    push_str(&mut url, "://");
    match host {
        Some(h) => push_str(&mut url, h),
        None => push_str(&mut url, "localhost"),
    }
    if let Some(p) = port {
        push_str(&mut url, ":");
        let d = u64_to_decimal(p as u64);
        push_str(&mut url, d.as_str());
    }
    proof {
        reveal_strlit("{site}");
    }
    let path = replace_text(path_template, "{site}", site);
    push_str(&mut url, path.as_str());
    url
}

/// Whether `url::Url::parse` accepts a text.
pub uninterp spec fn parses_as_url(s: Seq<char>) -> bool;

/// `url::Url::parse`: whether it accepts `s`, named by [`parses_as_url`]; the
/// outcome depends on the text alone.
#[verifier::external_body]
fn url_parses(s: &str) -> (res: bool)
    ensures
        res == parses_as_url(s@),
{
    url::Url::parse(s).is_ok()
}

/// The URL to open the event stream at: the one [`websocket_url`] builds,
/// when `url::Url::parse` accepts it; `None` otherwise, and the stream is
/// not opened.
pub fn websocket_target(
    https: bool,
    host: Option<&str>,
    port: Option<u16>,
    path_template: &str,
    site: &str,
) -> (res: Option<String>)
    ensures
        ({
            let u = spec_websocket_url(https, crate::text::opt_str_view(host), port, path_template@, site@);
            &&& parses_as_url(u) ==> (res matches Some(x) && x@ == u)
            &&& !parses_as_url(u) ==> res is None
        }),
{
    let url = websocket_url(https, host, port, path_template, site);
    if url_parses(url.as_str()) {
        Some(url)
    } else {
        None
    }
}

// ── events ─────────────────────────────────────────────────────────

/// The fields of the event a WebSocket message announces, besides its time.
#[derive(Debug, Clone, PartialEq, Eq)]
pub struct WsEventFields {
    pub category: EventCategory,
    pub severity: EventSeverity,
    /// The message's key, which is also the event's raw key.
    pub event_type: String,
    pub message: String,
    pub device_mac: Option<String>,
    pub client_mac: Option<String>,
    /// The site, as a legacy id; `None` for an empty site id.
    pub site_id: Option<String>,
}

/// The text of the first of the members `a`, `b` (and `c`) present in
/// `extra`, when that member is a string; `None` when it is present but not
/// a string, or when none is present.
pub open spec fn first_member_text(extra: JView, keys: Seq<Seq<char>>) -> Option<Seq<char>>
    decreases keys.len(),
{
    if keys.len() == 0 {
        None
    } else {
        match jget(extra, keys[0]) {
            Some(v) => jstr(Some(v)),
            None => first_member_text(extra, keys.drop_first()),
        }
    }
}

fn member_text(extra: &JsonValue, a: &str, b: &str, c: Option<&str>) -> (res: Option<String>)
    ensures
        opt_view(res) == first_member_text(
            extra@,
            match c {
                Some(k) => seq![a@, b@, k@],
                None => seq![a@, b@],
            },
        ),
{
    let ghost keys = match c {
        Some(k) => seq![a@, b@, k@],
        None => seq![a@, b@],
    };
    proof {
        assert(keys.drop_first()[0] == b@);
        assert(keys.drop_first().drop_first().len() == keys.len() - 2);
        reveal_with_fuel(first_member_text, 4);
    }
    let v = match get(extra, a) {
        Some(x) => Some(x),
        None => match get(extra, b) {
            Some(x) => Some(x),
            None => match c {
                Some(k) => get(extra, k),
                None => None,
            },
        },
    };
    match v {
        Some(JsonValue::Str(s)) => Some(s.clone()),
        _ => None,
    }
}

/// The fields of the event announced for a WebSocket message with `key`,
/// `subsystem`, `site_id`, `message` (empty without one) and other members
/// `extra`: category by subsystem, severity by key, the message with its
/// placeholders filled, the device MAC from the first of `mac`, `sw`, `ap`
/// present, the client MAC from the first of `user`, `sta` present (each
/// only when a string), and the site unless its id is empty. Filling the
/// placeholders must come to an end (see [`resolve_event_templates`]).
pub fn ws_event_fields(key: &str, subsystem: &String, site_id: &str, message: &str, extra: &JsonValue) -> (res: WsEventFields)
    requires
        exists|fuel: nat| #[trigger] template_run(message@, extra@, fuel) is Some,
    ensures
        res.category == spec_map_event_category(Some(subsystem@)),
        res.severity == severity_of_upper(uppercase(key@)),
        res.event_type@ == key@,
        exists|fuel: nat| #[trigger] template_run(message@, extra@, fuel) == Some(res.message@),
        opt_view(res.device_mac) == first_member_text(extra@, seq!["mac"@, "sw"@, "ap"@]),
        opt_view(res.client_mac) == first_member_text(extra@, seq!["user"@, "sta"@]),
        opt_view(res.site_id) == if site_id@.len() == 0 {
            None::<Seq<char>>
        } else {
            Some(site_id@)
        },
{
    let category = map_event_category(Some(subsystem));
    let severity = infer_ws_severity(key);
    let text = resolve_event_templates(message, extra);
    let device_mac = member_text(extra, "mac", "sw", Some("ap"));
    let client_mac = member_text(extra, "user", "sta", None);
    let site = if is_empty_text(site_id) {
        None
    } else {
        Some(owned(site_id))
    };
    WsEventFields {
        category,
        severity,
        event_type: owned(key),
        message: text,
        device_mac,
        client_mac,
        site_id: site,
    }
}

} // verus!
