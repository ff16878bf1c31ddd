//! Identifiers and provenance of entities.
use vstd::prelude::*;

use crate::text::lower_seq;

verus! {

/// Identifier of an entity: a UUID from the Integration API (held in its
/// textual form) or a legacy string id from the Session API.
#[derive(Debug, Clone, PartialEq, Eq)]
pub enum EntityId {
    Uuid(String),
    Legacy(String),
}

impl EntityId {
    /// The text of the identifier.
    pub open spec fn text(self) -> Seq<char> {
        match self {
            EntityId::Uuid(s) => s@,
            EntityId::Legacy(s) => s@,
        }
    }

    /// The text of the identifier, as its display form shows it.
    pub fn as_str(&self) -> (res: &str)
        ensures
            res@ == self.text(),
    {
        match self {
            EntityId::Uuid(s) => s.as_str(),
            EntityId::Legacy(s) => s.as_str(),
        }
    }

    /// A copy of the identifier with the same variant and text.
    pub fn duplicate(&self) -> (res: EntityId)
        ensures
            res == *self,
    {
        match self {
            EntityId::Uuid(s) => EntityId::Uuid(s.clone()),
            EntityId::Legacy(s) => EntityId::Legacy(s.clone()),
        }
    }
}

/// A hexadecimal digit, in either case.
pub open spec fn is_hex_char(c: char) -> bool {
    ('0' <= c && c <= '9') || ('a' <= c && c <= 'f') || ('A' <= c && c <= 'F')
}

/// Every character is a hexadecimal digit.
pub open spec fn all_hex(s: Seq<char>) -> bool {
    forall|i: int| 0 <= i < s.len() ==> is_hex_char(#[trigger] s[i])
}

/// The 32 digits of a hyphenated UUID text (groups of 8, 4, 4, 4 and 12).
pub open spec fn hyphenated_digits(s: Seq<char>) -> Option<Seq<char>> {
    if s.len() == 36 && s[8] == '-' && s[13] == '-' && s[18] == '-' && s[23] == '-' {
        let d = s.subrange(0, 8) + s.subrange(9, 13) + s.subrange(14, 18) + s.subrange(19, 23) + s.subrange(24, 36);
        if all_hex(d) {
            Some(d)
        } else {
            None
        }
    } else {
        None
    }
}

/// The 32 digits of a UUID text: simple (32 digits), hyphenated, braced
/// (`{` hyphenated `}`) or URN (`urn:uuid:` in any ASCII case, then
/// hyphenated); `None` for any other text.
pub open spec fn uuid_digits(s: Seq<char>) -> Option<Seq<char>> {
    if s.len() == 32 {
        if all_hex(s) {
            Some(s)
        } else {
            None
        }
    } else if s.len() == 36 {
        hyphenated_digits(s)
    } else if s.len() == 38 && s[0] == '{' && s[37] == '}' {
        hyphenated_digits(s.subrange(1, 37))
    } else if s.len() == 45 && lower_seq(s.take(9)) == "urn:uuid:"@ {
        hyphenated_digits(s.skip(9))
    } else {
        None
    }
}

/// The canonical text of the UUID a text denotes: its digits in lowercase,
/// hyphenated in groups of 8, 4, 4, 4 and 12.
pub open spec fn uuid_text(s: Seq<char>) -> Option<Seq<char>> {
    match uuid_digits(s) {
        Some(d) => {
            let l = lower_seq(d);
            Some(
                l.subrange(0, 8) + "-"@ + l.subrange(8, 12) + "-"@ + l.subrange(12, 16) + "-"@ + l.subrange(16, 20)
                    + "-"@ + l.subrange(20, 32),
            )
        },
        None => None,
    }
}

/// `uuid::Uuid::parse_str` followed by its `Display` rendering: the canonical
/// text of the UUID a text denotes (simple, hyphenated, braced or URN form),
/// `None` when it denotes none, as [`uuid_text`] states it.
#[verifier::external_body]
fn parse_uuid(s: &str) -> (res: Option<String>)
    ensures
        match res {
            Some(t) => uuid_text(s@) == Some(t@),
            None => uuid_text(s@) is None,
        },
{
    uuid::Uuid::parse_str(s).ok().map(|u| u.to_string())
}

/// `id` is the identifier a text denotes: a UUID when the text parses as
/// one (held in canonical form), a legacy id otherwise.
pub open spec fn is_entity_id_of(id: EntityId, s: Seq<char>) -> bool {
    match uuid_text(s) {
        Some(u) => id is Uuid && id.text() == u,
        None => id is Legacy && id.text() == s,
    }
}

/// The canonical text of the UUID `s` denotes, `None` when it denotes none.
pub fn canonical_uuid(s: &str) -> (res: Option<String>)
    ensures
        crate::text::opt_view(res) == uuid_text(s@),
{
    parse_uuid(s)
}

impl EntityId {
    /// The identifier a text denotes: a UUID when it parses as one, a legacy
    /// id otherwise.
    pub fn from_text(s: String) -> (res: EntityId)
        ensures
            is_entity_id_of(res, s@),
    {
        match parse_uuid(s.as_str()) {
            Some(u) => EntityId::Uuid(u),
            None => EntityId::Legacy(s),
        }
    }
}

/// The text an Integration API id is held by: the canonical text of the
/// UUID it denotes (as `uuid::Uuid` prints it), or the text as given when it
/// denotes none.
pub open spec fn integration_id_text(s: Seq<char>) -> Seq<char> {
    match uuid_text(s) {
        Some(u) => u,
        None => s,
    }
}

/// The identifier of an Integration API id: a UUID held by
/// [`integration_id_text`].
pub fn integration_uuid(s: String) -> (res: EntityId)
    ensures
        res is Uuid && res.text() == integration_id_text(s@),
{
    match parse_uuid(s.as_str()) {
        Some(u) => EntityId::Uuid(u),
        None => EntityId::Uuid(s),
    }
}

/// A device or client MAC address, as the controller reports it.
#[derive(Debug, Clone, PartialEq, Eq)]
pub struct MacAddress {
    pub value: String,
}

/// Who manages an entity.
#[derive(Debug, Clone, Copy, PartialEq, Eq, Structural)]
pub enum EntityOrigin {
    UserDefined,
    SystemDefined,
    Orchestrated,
}

/// Which API surface an entity came from.
#[derive(Debug, Clone, Copy, PartialEq, Eq, Structural)]
pub enum DataSource {
    IntegrationApi,
    SessionApi,
}

} // verus!
