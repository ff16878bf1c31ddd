//! Event category and severity inference, and event message templates.
use vstd::prelude::*;

use crate::model::event::{EventCategory, EventSeverity};
use crate::json::{get, jget, jstr, JView, JsonValue};
use crate::text::{char_pos, chars_of, lemma_char_pos, contains, find_char, owned, push_str, seq_contains, slice_chars, str_eq, to_uppercase, uppercase};

verus! {

/// Category of an event from its subsystem name.
pub open spec fn spec_map_event_category(subsystem: Option<Seq<char>>) -> EventCategory {
    match subsystem {
        Some(s) => if s == "wlan"@ || s == "lan"@ || s == "wan"@ {
            EventCategory::Network
        } else if s == "device"@ {
            EventCategory::Device
        } else if s == "client"@ {
            EventCategory::Client
        } else if s == "system"@ {
            EventCategory::System
        } else if s == "admin"@ {
            EventCategory::Admin
        } else if s == "firewall"@ {
            EventCategory::Firewall
        } else if s == "vpn"@ {
            EventCategory::Vpn
        } else {
            EventCategory::Unknown
        },
        None => EventCategory::Unknown,
    }
}

/// Maps an event's subsystem to its category.
pub fn map_event_category(subsystem: Option<&String>) -> (res: EventCategory)
    ensures
        res == spec_map_event_category(
            match subsystem {
                Some(s) => Some(s@),
                None => None,
            },
        ),
{
    match subsystem {
        Some(s) => {
            let s = s.as_str();
            if str_eq(s, "wlan") || str_eq(s, "lan") || str_eq(s, "wan") {
                EventCategory::Network
            } else if str_eq(s, "device") {
                EventCategory::Device
            } else if str_eq(s, "client") {
                EventCategory::Client
            } else if str_eq(s, "system") {
                EventCategory::System
            } else if str_eq(s, "admin") {
                EventCategory::Admin
            } else if str_eq(s, "firewall") {
                EventCategory::Firewall
            } else if str_eq(s, "vpn") {
                EventCategory::Vpn
            } else {
                EventCategory::Unknown
            }
        },
        None => EventCategory::Unknown,
    }
}

/// Severity of a live event from its already uppercased key.
pub open spec fn severity_of_upper(upper: Seq<char>) -> EventSeverity {
    if seq_contains(upper, "ERROR"@) || seq_contains(upper, "FAIL"@) {
        EventSeverity::Error
    } else if seq_contains(upper, "DISCONNECT"@) || seq_contains(upper, "LOST"@) || seq_contains(
        upper,
        "DOWN"@,
    ) {
        EventSeverity::Warning
    } else {
        EventSeverity::Info
    }
}

/// Severity of a live event from its uppercased key.
pub fn severity_from_upper_key(upper: &str) -> (res: EventSeverity)
    ensures
        res == severity_of_upper(upper@),
{
    if contains(upper, "ERROR") || contains(upper, "FAIL") {
        EventSeverity::Error
    } else if contains(upper, "DISCONNECT") || contains(upper, "LOST") || contains(upper, "DOWN") {
        EventSeverity::Warning
    } else {
        EventSeverity::Info
    }
}

/// Severity of a live event from its key: errors and failures, then
/// disconnects, losses and downs; everything else is informational.
pub fn infer_ws_severity(key: &str) -> (res: EventSeverity)
    ensures
        res == severity_of_upper(uppercase(key@)),
{
    let upper = to_uppercase(key);
    severity_from_upper_key(upper.as_str())
}

/// One substitution of an event message template: the first `{`, the next
/// `}` after it, and the key between them replaced by the key's string value
/// in `extra` (by the key itself when it has none); `None` when there is no
/// such pair left.
pub open spec fn template_step(r: Seq<char>, extra: JView) -> Option<Seq<char>> {
    match char_pos(r, '{') {
        None => None,
        Some(start) => match char_pos(r.skip(start), '}') {
            None => None,
            Some(end) => {
                let key = r.subrange(start + 1, start + end);
                let rep = match jstr(jget(extra, key)) {
                    Some(v) => v,
                    None => key,
                };
                Some(r.take(start) + rep + r.skip(start + end + 1))
            },
        },
    }
}

/// The message once substitutions stop, when they stop within `fuel` steps.
pub open spec fn template_run(r: Seq<char>, extra: JView, fuel: nat) -> Option<Seq<char>>
    decreases fuel,
{
    match template_step(r, extra) {
        None => Some(r),
        Some(next) => if fuel == 0 {
            None
        } else {
            template_run(next, extra, (fuel - 1) as nat)
        },
    }
}

/// One substitution step on `r` (see [`template_step`]).
fn substitute_once(r: &String, extra: &JsonValue) -> (res: Option<String>)
    ensures
        match template_step(r@, extra@) {
            Some(next) => res matches Some(x) && x@ == next,
            None => res is None,
        },
{
    let (cs, open) = find_char(r.as_str(), '{');
    let start = match open {
        Some(i) => i,
        None => {
            return None;
        },
    };
    let tail = slice_chars(&cs, start, cs.len());
    assert(tail@ == r@.skip(start as int));
    proof {
        lemma_char_pos(r@, '{');
        assert(tail@[0] == '{');
        lemma_char_pos(tail@, '}');
    }
    let (_, close) = find_char(tail.as_str(), '}');
    let end = match close {
        Some(e) => e,
        None => {
            return None;
        },
    };
    let key = slice_chars(&cs, start + 1, start + end);
    let rep = match get(extra, key.as_str()) {
        Some(JsonValue::Str(v)) => v.clone(),
        _ => key.clone(),
    };
    let mut next = slice_chars(&cs, 0, start);
    push_str(&mut next, rep.as_str());
    let rest = slice_chars(&cs, start + end + 1, cs.len());
    push_str(&mut next, rest.as_str());
    assert(next@ =~= r@.take(start as int) + rep@ + r@.skip(start + end + 1));
    Some(next)
}

/// Fills an event message's `{key}` placeholders from `extra`, one at a
/// time from the left, until none is left; a key without a string value
/// stands for itself. The substitutions must come to an end, as they do
/// unless a value brings its own placeholder back;
/// [`resolve_event_templates_within`] needs no such promise.
pub fn resolve_event_templates(msg: &str, extra: &JsonValue) -> (res: String)
    requires
        exists|fuel: nat| #[trigger] template_run(msg@, extra@, fuel) is Some,
    ensures
        exists|fuel: nat| #[trigger] template_run(msg@, extra@, fuel) == Some(res@),
{
    let ghost f0 = choose|fuel: nat| #[trigger] template_run(msg@, extra@, fuel) is Some;
    let ghost fin = template_run(msg@, extra@, f0)->Some_0;
    let ghost mut g: nat = f0;
    let mut result = owned(msg);
    loop
        invariant
            template_run(result@, extra@, g) == Some(fin),
            template_run(msg@, extra@, f0) == Some(fin),
        decreases g,
    {
        match substitute_once(&result, extra) {
            None => {
                return result;
            },
            Some(next) => {
                proof {
                    g = (g - 1) as nat;
                }
                result = next;
            },
        }
    }
}

/// [`resolve_event_templates`] with at most `max_steps` substitutions:
/// `None` when placeholders are still left after that many.
pub fn resolve_event_templates_within(msg: &str, extra: &JsonValue, max_steps: u64) -> (res: Option<String>)
    ensures
        match template_run(msg@, extra@, max_steps as nat) {
            Some(r) => res matches Some(x) && x@ == r,
            None => res is None,
        },
{
    let mut result = owned(msg);
    let mut left: u64 = max_steps;
    loop
        invariant
            template_run(result@, extra@, left as nat) == template_run(msg@, extra@, max_steps as nat),
        decreases left,
    {
        match substitute_once(&result, extra) {
            None => {
                return Some(result);
            },
            Some(next) => {
                if left == 0 {
                    return None;
                }
                left = left - 1;
                result = next;
            },
        }
    }
}


/// Each subsystem the controller names has its own category, and no other
/// subsystem (nor a missing one) reaches it: `wlan`, `lan` and `wan` are
/// network events, `device`, `client`, `system`, `admin`, `firewall` and
/// `vpn` their namesakes; everything else is unknown.
pub proof fn lemma_event_category_by_subsystem(s: Seq<char>)
    ensures
        spec_map_event_category(Some(s)) == EventCategory::Network <==> (s == "wlan"@ || s == "lan"@ || s == "wan"@),
        spec_map_event_category(Some(s)) == EventCategory::Device <==> s == "device"@,
        spec_map_event_category(Some(s)) == EventCategory::Client <==> s == "client"@,
        spec_map_event_category(Some(s)) == EventCategory::System <==> s == "system"@,
        spec_map_event_category(Some(s)) == EventCategory::Admin <==> s == "admin"@,
        spec_map_event_category(Some(s)) == EventCategory::Firewall <==> s == "firewall"@,
        spec_map_event_category(Some(s)) == EventCategory::Vpn <==> s == "vpn"@,
        spec_map_event_category(None) == EventCategory::Unknown,
{
    reveal_strlit("wlan");
    reveal_strlit("lan");
    reveal_strlit("wan");
    reveal_strlit("device");
    reveal_strlit("client");
    reveal_strlit("system");
    reveal_strlit("admin");
    reveal_strlit("firewall");
    reveal_strlit("vpn");
    assert("wlan"@.len() == 4 && "lan"@.len() == 3 && "wan"@.len() == 3 && "device"@.len() == 6);
    assert("client"@.len() == 6 && "system"@.len() == 6 && "admin"@.len() == 5 && "firewall"@.len() == 8);
    assert("vpn"@.len() == 3);
    assert("device"@[0] != "client"@[0] && "device"@[0] != "system"@[0] && "client"@[0] != "system"@[0]);
    assert("lan"@[0] != "wan"@[0] && "lan"@[0] != "vpn"@[0] && "wan"@[0] != "vpn"@[0]);
}


/// A live event's severity by its uppercased key: an error exactly when it
/// mentions `ERROR` or `FAIL`; otherwise a warning exactly when it mentions
/// `DISCONNECT`, `LOST` or `DOWN`; otherwise informational.
pub proof fn lemma_severity_by_key(upper: Seq<char>)
    ensures
        severity_of_upper(upper) == EventSeverity::Error <==> (seq_contains(upper, "ERROR"@) || seq_contains(
            upper,
            "FAIL"@,
        )),
        severity_of_upper(upper) == EventSeverity::Warning <==> (!(seq_contains(upper, "ERROR"@) || seq_contains(
            upper,
            "FAIL"@,
        )) && (seq_contains(upper, "DISCONNECT"@) || seq_contains(upper, "LOST"@) || seq_contains(upper, "DOWN"@))),
{
}

} // verus!
