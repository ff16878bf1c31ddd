//! Guards of controller operations and the redaction of secrets in raw
//! settings.
use vstd::prelude::*;

use crate::error::{CoreError, ErrorView};
use crate::json::{jview, jview_items, jview_members, lemma_jview_items, lemma_jview_members, JView, JsonValue};
use crate::model::entity::EntityId;
use crate::text::{contains, lower_seq, owned, seq_contains, string_views, to_ascii_lowercase};

verus! {

/// Error of an operation that needs the Integration API.
pub open spec fn spec_unsupported(operation: Seq<char>) -> ErrorView {
    ErrorView::Unsupported(operation, "Integration API"@)
}

/// Error of an operation that needs the Integration API.
pub fn unsupported(operation: &str) -> (res: CoreError)
    ensures
        res@ == spec_unsupported(operation@),
{
    CoreError::Unsupported { operation: owned(operation), required: owned("Integration API") }
}

/// The Session API client, or the error that the operation needs one.
pub fn require_session<T>(session: Option<&T>) -> (res: Result<&T, CoreError>)
    ensures
        match session {
            Some(s) => res == Ok::<&T, CoreError>(s),
            None => res matches Err(e) && e@ == ErrorView::Unsupported(
                "Session API operation"@,
                "Session API credentials (session or hybrid auth mode)"@,
            ),
        },
{
    match session {
        Some(s) => Ok(s),
        None => Err(
            CoreError::Unsupported {
                operation: owned("Session API operation"),
                required: owned("Session API credentials (session or hybrid auth mode)"),
            },
        ),
    }
}

/// The Integration API client and site, or the error that `operation` needs them.
pub fn require_integration<'a, T, S>(integration: Option<&'a T>, site_id: Option<S>, operation: &str) -> (res: Result<(&'a T, S), CoreError>)
    ensures
        match (integration, site_id) {
            (Some(c), Some(s)) => res matches Ok(p) && p.0 == c && p.1 == s,
            _ => res matches Err(e) && e@ == spec_unsupported(operation@),
        },
{
    let client = match integration {
        Some(c) => c,
        None => {
            return Err(unsupported(operation));
        },
    };
    match site_id {
        Some(s) => Ok((client, s)),
        None => Err(unsupported(operation)),
    }
}

/// The UUID text of an Integration API id, or the error for a legacy id.
pub fn require_uuid(id: &EntityId) -> (res: Result<&str, CoreError>)
    ensures
        match id {
            EntityId::Uuid(u) => res matches Ok(s) && s@ == u@,
            EntityId::Legacy(_) => res matches Err(e) && e@ == ErrorView::Unsupported(
                "Integration API operation on legacy ID"@,
                "UUID-based entity ID"@,
            ),
        },
{
    match id {
        EntityId::Uuid(u) => Ok(u.as_str()),
        EntityId::Legacy(_) => Err(
            CoreError::Unsupported {
                operation: owned("Integration API operation on legacy ID"),
                required: owned("UUID-based entity ID"),
            },
        ),
    }
}

/// Every id is an Integration API (UUID) id.
pub open spec fn all_uuids(ids: Seq<EntityId>) -> bool {
    forall|i: int| 0 <= i < ids.len() ==> #[trigger] ids[i] is Uuid
}

/// The texts of ids.
pub open spec fn id_texts(ids: Seq<EntityId>) -> Seq<Seq<char>> {
    ids.map_values(|id: EntityId| id.text())
}

/// The UUID texts of a list of ids, or the error of the first legacy id.
pub fn require_uuids(ids: &Vec<EntityId>) -> (res: Result<Vec<String>, CoreError>)
    ensures
        if all_uuids(ids@) {
            res matches Ok(v) && string_views(v@) == id_texts(ids@)
        } else {
            res matches Err(e) && e@ == ErrorView::Unsupported(
                "Integration API operation on legacy ID"@,
                "UUID-based entity ID"@,
            )
        },
{
    let mut out: Vec<String> = Vec::new();
    let mut i: usize = 0;
    while i < ids.len()
        invariant
            i <= ids@.len(),
            forall|j: int| 0 <= j < i ==> #[trigger] ids@[j] is Uuid,
            string_views(out@) == id_texts(ids@.take(i as int)),
        decreases ids.len() - i,
    {
        match require_uuid(&ids[i]) {
            Ok(u) => {
                let ghost prev = out@;
                out.push(owned(u));
                assert(string_views(out@) =~= string_views(prev).push(u@));
                assert(id_texts(ids@.take(i + 1)) =~= id_texts(ids@.take(i as int)).push(ids@[i as int].text()));
            },
            Err(e) => {
                return Err(e);
            },
        }
        i = i + 1;
    }
    assert(ids@.take(ids@.len() as int) =~= ids@);
    Ok(out)
}

/// The legacy string id of a VPN entity, or the error for a UUID.
pub fn require_legacy_id(id: &EntityId) -> (res: Result<&str, CoreError>)
    ensures
        match id {
            EntityId::Legacy(l) => res matches Ok(s) && s@ == l@,
            EntityId::Uuid(_) => res matches Err(e) && e@ == ErrorView::ValidationFailed(
                "VPN mutations require a legacy string id"@,
            ),
        },
{
    match id {
        EntityId::Legacy(l) => Ok(l.as_str()),
        EntityId::Uuid(_) => Err(CoreError::ValidationFailed { message: owned("VPN mutations require a legacy string id") }),
    }
}

// ── redaction ──────────────────────────────────────────────────────

/// The fragments that mark a setting's key as secret.
pub open spec fn secret_needles() -> Seq<Seq<char>> {
    seq![
        "private"@,
        "password"@,
        "secret"@,
        "token"@,
        "psk"@,
        "shared_key"@,
        "certificate"@,
        "dh_key"@,
    ]
}

/// A key is secret when its ASCII lowercase form contains one of the needles.
pub open spec fn spec_should_redact(key: Seq<char>) -> bool {
    exists|i: int| 0 <= i < secret_needles().len() && seq_contains(lower_seq(key), #[trigger] secret_needles()[i])
}

/// Whether a setting's key names a secret.
pub fn should_redact_field(key: &str) -> (res: bool)
    ensures
        res == spec_should_redact(key@),
{
    let lower = to_ascii_lowercase(key);
    let needles = [
        "private",
        "password",
        "secret",
        "token",
        "psk",
        "shared_key",
        "certificate",
        "dh_key",
    ];
    let ghost ns = secret_needles();
    let mut i: usize = 0;
    while i < 8
        invariant
            i <= 8,
            lower@ == lower_seq(key@),
            ns == secret_needles(),
            forall|j: int| 0 <= j < 8 ==> #[trigger] needles@[j]@ == ns[j],
            forall|j: int| 0 <= j < i ==> !seq_contains(lower@, #[trigger] ns[j]),
        decreases 8 - i,
    {
        if contains(lower.as_str(), needles[i]) {
            return true;
        }
        i = i + 1;
    }
    false
}

/// The text that replaces a secret.
pub open spec fn redacted_text() -> Seq<char> {
    "***REDACTED***"@
}

/// A value with the secrets of every object in it replaced by
/// `***REDACTED***`, at any depth.
pub open spec fn spec_redact(v: JView) -> JView
    decreases v, 0nat,
{
    match v {
        JView::Object(m) => JView::Object(redact_members(m)),
        JView::Array(items) => JView::Array(redact_items(items)),
        other => other,
    }
}

/// Items redacted one by one.
pub open spec fn redact_items(items: Seq<JView>) -> Seq<JView>
    decreases items, 1nat,
{
    if items.len() == 0 {
        Seq::empty()
    } else {
        redact_items(items.drop_last()).push(spec_redact(items.last()))
    }
}

/// Members with secret values replaced and the others redacted.
pub open spec fn redact_members(m: Seq<(Seq<char>, JView)>) -> Seq<(Seq<char>, JView)>
    decreases m, 1nat,
{
    if m.len() == 0 {
        Seq::empty()
    } else {
        redact_members(m.drop_last()).push(
            (
                m.last().0,
                if spec_should_redact(m.last().0) {
                    JView::Str(redacted_text())
                } else {
                    spec_redact(m.last().1)
                },
            ),
        )
    }
}

proof fn lemma_redact_items(items: Seq<JView>)
    ensures
        redact_items(items).len() == items.len(),
        forall|i: int| 0 <= i < items.len() ==> #[trigger] redact_items(items)[i] == spec_redact(items[i]),
    decreases items.len(),
{
    if items.len() > 0 {
        lemma_redact_items(items.drop_last());
    }
}

proof fn lemma_redact_members(m: Seq<(Seq<char>, JView)>)
    ensures
        redact_members(m).len() == m.len(),
        forall|i: int| 0 <= i < m.len() ==> #[trigger] redact_members(m)[i] == (
            m[i].0,
            if spec_should_redact(m[i].0) {
                JView::Str(redacted_text())
            } else {
                spec_redact(m[i].1)
            },
        ),
    decreases m.len(),
{
    if m.len() > 0 {
        lemma_redact_members(m.drop_last());
    }
}

/// Replaces every secret of a raw setting by `***REDACTED***`, at any depth.
pub fn redact_sensitive_value(value: &JsonValue) -> (res: JsonValue)
    ensures
        res@ == spec_redact(value@),
    decreases value,
{
    match value {
        JsonValue::Object(es) => {
            proof {
                lemma_jview_members(es@);
            }
            assert forall|j: int| 0 <= j < es@.len() implies decreases_to!(*value => #[trigger] es@[j].1) by {
                assert(decreases_to!(*value => *es));
                assert(decreases_to!(*es => es@));
                assert(decreases_to!(es@ => es@[j]));
                assert(decreases_to!(es@[j] => es@[j].1));
            }
            let ghost m = jview_members(es@);
            let mut out: Vec<(String, JsonValue)> = Vec::new();
            let mut i: usize = 0;
            while i < es.len()
                invariant
                    forall|j: int| 0 <= j < es@.len() ==> decreases_to!(*value => #[trigger] es@[j].1),
                    i <= es.len(),
                    m == jview_members(es@),
                    m.len() == es@.len(),
                    forall|j: int| 0 <= j < es@.len() ==> #[trigger] m[j] == (es@[j].0@, jview(es@[j].1)),
                    jview_members(out@).len() == i,
                    forall|j: int| 0 <= j < i ==> #[trigger] jview_members(out@)[j] == (
                        m[j].0,
                        if spec_should_redact(m[j].0) {
                            JView::Str(redacted_text())
                        } else {
                            spec_redact(m[j].1)
                        },
                    ),
                decreases es.len() - i,
            {
                let key = es[i].0.clone();
                let v = if should_redact_field(key.as_str()) {
                    JsonValue::Str(owned("***REDACTED***"))
                } else {
                    redact_sensitive_value(&es[i].1)
                };
                let ghost prev = out@;
                out.push((key, v));
                proof {
                    lemma_jview_members(out@);
                    lemma_jview_members(prev);
                    assert(out@.drop_last() =~= prev);
                }
                i = i + 1;
            }
            let res = JsonValue::Object(out);
            assert(res@ == spec_redact(value@)) by {
                lemma_jview_members(out@);
                lemma_redact_members(m);
                assert(jview_members(out@) =~= redact_members(m));
            }
            res
        },
        JsonValue::Array(items) => {
            proof {
                lemma_jview_items(items@);
            }
            assert forall|j: int| 0 <= j < items@.len() implies decreases_to!(*value => #[trigger] items@[j]) by {
                assert(decreases_to!(*value => *items));
                assert(decreases_to!(*items => items@));
                assert(decreases_to!(items@ => items@[j]));
            }
            let ghost vs = jview_items(items@);
            let mut out: Vec<JsonValue> = Vec::new();
            let mut i: usize = 0;
            while i < items.len()
                invariant
                    forall|j: int| 0 <= j < items@.len() ==> decreases_to!(*value => #[trigger] items@[j]),
                    i <= items.len(),
                    vs == jview_items(items@),
                    vs.len() == items@.len(),
                    forall|j: int| 0 <= j < items@.len() ==> #[trigger] vs[j] == jview(items@[j]),
                    jview_items(out@).len() == i,
                    forall|j: int| 0 <= j < i ==> #[trigger] jview_items(out@)[j] == spec_redact(vs[j]),
                decreases items.len() - i,
            {
                let v = redact_sensitive_value(&items[i]);
                let ghost prev = out@;
                out.push(v);
                proof {
                    lemma_jview_items(out@);
                    lemma_jview_items(prev);
                    assert(out@.drop_last() =~= prev);
                }
                i = i + 1;
            }
            let res = JsonValue::Array(out);
            assert(res@ == spec_redact(value@)) by {
                lemma_jview_items(out@);
                lemma_redact_items(vs);
                assert(jview_items(out@) =~= redact_items(vs));
            }
            res
        },
        JsonValue::Null => JsonValue::Null,
        JsonValue::Bool(b) => JsonValue::Bool(*b),
        JsonValue::UInt(n) => JsonValue::UInt(*n),
        JsonValue::NegInt(n) => JsonValue::NegInt(*n),
        JsonValue::Decimal(s) => JsonValue::Decimal(s.clone()),
        JsonValue::Str(s) => JsonValue::Str(s.clone()),
    }
}

/// Redacting twice is redacting once.
pub proof fn lemma_redact_idempotent(v: JView)
    ensures
        spec_redact(spec_redact(v)) == spec_redact(v),
    decreases v,
{
    match v {
        JView::Object(m) => {
            let r = redact_members(m);
            lemma_redact_members(m);
            lemma_redact_members(r);
            assert forall|i: int| 0 <= i < m.len() implies #[trigger] redact_members(r)[i] == r[i] by {
                if !spec_should_redact(m[i].0) {
                    assert(decreases_to!(v => m));
                    assert(decreases_to!(m => m[i]));
                    assert(decreases_to!(m[i] => m[i].1));
                    lemma_redact_idempotent(m[i].1);
                }
            }
            assert(redact_members(r) =~= r);
        },
        JView::Array(items) => {
            let r = redact_items(items);
            lemma_redact_items(items);
            lemma_redact_items(r);
            assert forall|i: int| 0 <= i < items.len() implies #[trigger] redact_items(r)[i] == r[i] by {
                assert(decreases_to!(v => items));
                assert(decreases_to!(items => items[i]));
                lemma_redact_idempotent(items[i]);
            }
            assert(redact_items(r) =~= r);
        },
        _ => {},
    }
}

/// Every secret member of every object in `v`, at any depth, holds
/// `***REDACTED***`.
pub open spec fn secrets_masked(v: JView) -> bool
    decreases v, 0nat,
{
    match v {
        JView::Object(m) => members_masked(m),
        JView::Array(items) => items_masked(items),
        _ => true,
    }
}

/// Every item has its secrets masked.
pub open spec fn items_masked(items: Seq<JView>) -> bool
    decreases items, 1nat,
{
    if items.len() == 0 {
        true
    } else {
        items_masked(items.drop_last()) && secrets_masked(items.last())
    }
}

/// Every secret member holds `***REDACTED***`, every other member has its
/// secrets masked.
pub open spec fn members_masked(m: Seq<(Seq<char>, JView)>) -> bool
    decreases m, 1nat,
{
    if m.len() == 0 {
        true
    } else {
        members_masked(m.drop_last()) && if spec_should_redact(m.last().0) {
            m.last().1 == JView::Str(redacted_text())
        } else {
            secrets_masked(m.last().1)
        }
    }
}

proof fn lemma_items_masked(items: Seq<JView>)
    requires
        forall|i: int| 0 <= i < items.len() ==> secrets_masked(#[trigger] items[i]),
    ensures
        items_masked(items),
    decreases items.len(),
{
    if items.len() > 0 {
        lemma_items_masked(items.drop_last());
    }
}

proof fn lemma_members_masked(m: Seq<(Seq<char>, JView)>)
    requires
        forall|i: int| 0 <= i < m.len() ==> (if spec_should_redact(#[trigger] m[i].0) {
            m[i].1 == JView::Str(redacted_text())
        } else {
            secrets_masked(m[i].1)
        }),
    ensures
        members_masked(m),
    decreases m.len(),
{
    if m.len() > 0 {
        assert forall|i: int| 0 <= i < m.drop_last().len() implies (if spec_should_redact(
            #[trigger] m.drop_last()[i].0,
        ) {
            m.drop_last()[i].1 == JView::Str(redacted_text())
        } else {
            secrets_masked(m.drop_last()[i].1)
        }) by {
            assert(m.drop_last()[i] == m[i]);
        }
        lemma_members_masked(m.drop_last());
        assert(spec_should_redact(m[m.len() - 1].0) || !spec_should_redact(m[m.len() - 1].0));
    }
}

/// Redaction masks every secret: after it, every member whose key names a
/// secret holds `***REDACTED***`, in every object at any depth.
pub proof fn lemma_redact_masks_secrets(v: JView)
    ensures
        secrets_masked(spec_redact(v)),
    decreases v,
{
    match v {
        JView::Object(m) => {
            let r = redact_members(m);
            lemma_redact_members(m);
            assert forall|i: int| 0 <= i < r.len() implies (if spec_should_redact(#[trigger] r[i].0) {
                r[i].1 == JView::Str(redacted_text())
            } else {
                secrets_masked(r[i].1)
            }) by {
                if !spec_should_redact(m[i].0) {
                    assert(decreases_to!(v => m));
                    assert(decreases_to!(m => m[i]));
                    assert(decreases_to!(m[i] => m[i].1));
                    lemma_redact_masks_secrets(m[i].1);
                }
            }
            lemma_members_masked(r);
        },
        JView::Array(items) => {
            let r = redact_items(items);
            lemma_redact_items(items);
            assert forall|i: int| 0 <= i < r.len() implies secrets_masked(#[trigger] r[i]) by {
                assert(decreases_to!(v => items));
                assert(decreases_to!(items => items[i]));
                lemma_redact_masks_secrets(items[i]);
            }
            lemma_items_masked(r);
        },
        _ => {},
    }
}

} // verus!
