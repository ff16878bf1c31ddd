//! The on-disk session cache of the Session API: where a profile's cached
//! session lives, when a cached session expires, and the expiry read from a
//! session token.
use vstd::prelude::*;

use vstd::string::StringSliceAdditionalSpecFns;

use base64::Engine;

use crate::text::{
    hex_padded, lemma_segments_nonempty, owned, push_str, segments, seq_ends_with, seq_starts_with, split_on,
    u64_to_hex16,
};

verus! {

/// Safety margin subtracted from a token's expiry, in seconds.
pub const EXPIRY_MARGIN_SECS: u64 = 60;

/// The djb2 hash of `bytes` (start 5381, multiply by 33 and add each byte),
/// wrapping at 64 bits.
pub open spec fn djb2(bytes: Seq<u8>) -> nat
    decreases bytes.len(),
{
    if bytes.len() == 0 {
        5381
    } else {
        (djb2(bytes.drop_last()) * 33 + bytes.last() as nat) % 0x1_0000_0000_0000_0000
    }
}

proof fn lemma_djb2_bound(bytes: Seq<u8>)
    ensures
        djb2(bytes) < 0x1_0000_0000_0000_0000,
    decreases bytes.len(),
{
    if bytes.len() > 0 {
        lemma_djb2_bound(bytes.drop_last());
    }
}

/// Non-cryptographic hash of a URL for a file name: the djb2 hash of its
/// UTF-8 bytes as 16 lowercase hexadecimal digits.
pub fn simple_hash(s: &str) -> (res: String)
    ensures
        res@ == hex_padded(djb2(s.spec_bytes()), 16),
{
    let bytes = s.as_bytes();
    let mut hash: u64 = 5381;
    let mut i: usize = 0;
    while i < bytes.len()
        invariant
            i <= bytes@.len(),
            bytes@ == s.spec_bytes(),
            hash as nat == djb2(bytes@.take(i as int)),
        decreases bytes@.len() - i,
    {
        assert(bytes@.take(i + 1).drop_last() =~= bytes@.take(i as int));
        let b = bytes[i];
        let next = hash.wrapping_mul(33).wrapping_add(b as u64);
        assert(next as nat == ((hash as nat) * 33 + b as nat) % 0x1_0000_0000_0000_0000) by (nonlinear_arith)
            requires
                next == (((hash as int * 33) % 0x1_0000_0000_0000_0000) + b as int) % 0x1_0000_0000_0000_0000,
                0 <= hash,
                0 <= b,
        ;
        hash = next;
        i = i + 1;
    }
    assert(bytes@.take(bytes@.len() as int) =~= bytes@);
    u64_to_hex16(hash)
}

/// A session cache of one profile on one controller.
#[derive(Debug, Clone, PartialEq, Eq)]
pub struct SessionCache {
    /// Directory of the cache files.
    pub cache_dir: String,
    /// File name of this profile's cache file.
    pub file_name: String,
}

/// `directories::ProjectDirs::from(qualifier, organization, application)`
/// and its `cache_dir`, as text: the platform's per-user cache directory for
/// the project, or `None` when no home directory is known. What it returns
/// depends on the environment, so nothing is stated of it. The directory is
/// held as text: one that is not valid Unicode has its invalid parts replaced
/// by U+FFFD (`to_string_lossy`), so its cache path names a different
/// directory.
#[verifier::external_body]
fn project_cache_dir(qualifier: &str, organization: &str, application: &str) -> (res: Option<String>) {
    directories::ProjectDirs::from(qualifier, organization, application)
        .map(|dirs| dirs.cache_dir().to_string_lossy().into_owned())
}

/// A file name that is one plain path component: not empty, without `/` or
/// `\\`, and neither `.` nor `..`.
pub open spec fn plain_file_name(f: Seq<char>) -> bool {
    &&& f.len() > 0
    &&& forall|i: int| 0 <= i < f.len() ==> #[trigger] f[i] != '/' && f[i] != '\\'
    &&& f != seq!['.']
    &&& f != seq!['.', '.']
}

/// A file name that joins a directory as its last component: one plain
/// path component without `:` (so it carries no Windows drive prefix).
pub open spec fn joinable_file_name(f: Seq<char>) -> bool {
    plain_file_name(f) && forall|i: int| 0 <= i < f.len() ==> #[trigger] f[i] != ':'
}

/// A directory text in Windows' verbatim form, starting with `\\?\`.
pub open spec fn verbatim_dir(d: Seq<char>) -> bool {
    seq_starts_with(d, seq!['\\', '\\', '?', '\\'])
}

/// `std::path::Path::join` of the cache directory and file name, as text
/// (`to_string_lossy`, exact for paths made of `str`s). As `Path::join` and
/// `PathBuf::push` document it, a file name that is one plain component is
/// adjoined as the last component, or replaces the directory (when it carries
/// a Windows prefix), so the result ends with it. A name without `:` carries
/// no prefix: it is appended after the directory, with at most one separator
/// (the platform's) between them. `push` rebuilds a directory in Windows'
/// verbatim form from its components, so for such a directory only the end
/// of the result is stated.
#[verifier::external_body]
fn join_path(dir: &str, file: &str) -> (res: String)
    ensures
        plain_file_name(file@) ==> seq_ends_with(res@, file@),
        joinable_file_name(file@) && !verbatim_dir(dir@) ==> seq_starts_with(res@, dir@) && res@.len() <= dir@.len()
            + 1 + file@.len(),
{
    std::path::Path::new(dir).join(file).to_string_lossy().into_owned()
}

impl SessionCache {
    /// The cache of `profile_name` on `controller_url` in directory `dir`;
    /// `None` without a directory.
    pub fn in_dir(dir: Option<String>, profile_name: &str, controller_url: &str) -> (res: Option<SessionCache>)
        ensures
            match dir {
                Some(d) => res matches Some(c) && c.cache_dir == d && c.file_name@ == profile_name@ + "_"@
                    + hex_padded(djb2(controller_url.spec_bytes()), 16) + ".json"@,
                None => res is None,
            },
    {
        match dir {
            Some(d) => {
                let mut file_name = owned(profile_name);
                push_str(&mut file_name, "_");
                let hash = simple_hash(controller_url);
                push_str(&mut file_name, hash.as_str());
                push_str(&mut file_name, ".json");
                Some(SessionCache { cache_dir: d, file_name })
            },
            None => None,
        }
    }

    /// The cache of `profile_name` on `controller_url`, in the platform's
    /// cache directory; `None` when that directory cannot be determined.
    pub fn new(profile_name: &str, controller_url: &str) -> (res: Option<SessionCache>)
        ensures
            res matches Some(c) ==> c.file_name@ == profile_name@ + "_"@ + hex_padded(
                djb2(controller_url.spec_bytes()),
                16,
            ) + ".json"@,
    {
        SessionCache::in_dir(project_cache_dir("", "", "unifly"), profile_name, controller_url)
    }

    /// Path of the cache file: the cache directory, then at most one
    /// separator, then the cache's file name, when that name is one plain path
    /// component without `:` (and the directory is not in Windows' verbatim
    /// form, for which only the end is stated).
    pub fn path(&self) -> (res: String)
        ensures
            plain_file_name(self.file_name@) ==> seq_ends_with(res@, self.file_name@),
            joinable_file_name(self.file_name@) && !verbatim_dir(self.cache_dir@) ==> seq_starts_with(
                res@,
                self.cache_dir@,
            ) && res@.len() <= self.cache_dir@.len() + 1 + self.file_name@.len(),
    {
        join_path(self.cache_dir.as_str(), self.file_name.as_str())
    }
}

/// Whether a cached session that expires at `expires_at` is still usable at `now`.
pub fn session_live(now: u64, expires_at: u64) -> (res: bool)
    ensures
        res == (now < expires_at),
{
    now < expires_at
}

/// `SystemTime::now()` as seconds since the Unix epoch; `None` for a clock
/// set before the epoch. It reads the clock, so nothing is stated of it.
#[verifier::external_body]
fn unix_now() -> (res: Option<u64>) {
    match std::time::SystemTime::now().duration_since(std::time::UNIX_EPOCH) {
        Ok(d) => Some(d.as_secs()),
        Err(_) => None,
    }
}

/// Expiry two hours after `now`; 0 without a clock reading.
pub fn expiry_after(now: Option<u64>) -> (res: u64)
    ensures
        res == match now {
            Some(s) => if s + 7200 <= u64::MAX { (s + 7200) as u64 } else { u64::MAX },
            None => 0,
        },
{
    match now {
        Some(s) => s.saturating_add(7200),
        None => 0,
    }
}

/// Default expiry of a session whose token names none: two hours from now.
pub fn fallback_expiry() -> (res: u64)
    ensures
        res == 0 || res >= 7200,
{
    expiry_after(unix_now())
}


// ── token expiry ───────────────────────────────────────────────────

/// The payload segment of a session cookie holding a JWT: the cookie's value
/// (after the first `=` of its first `;`-piece, up to the next `=`), which
/// must have exactly three `.`-separated parts; the middle one.
pub open spec fn jwt_payload(token: Seq<char>) -> Option<Seq<char>> {
    let first = segments(token, ';')[0];
    let kv = segments(first, '=');
    if kv.len() < 2 {
        None
    } else {
        let parts = segments(kv[1], '.');
        if parts.len() != 3 {
            None
        } else {
            Some(parts[1])
        }
    }
}

/// What URL-safe, unpadded base64 decoding gives for a text.
pub uninterp spec fn base64_url_decoded(text: Seq<char>) -> Option<Seq<u8>>;

/// `base64::engine::general_purpose::URL_SAFE_NO_PAD.decode`: the bytes a
/// URL-safe, unpadded base64 text encodes, `None` for a malformed text;
/// named by [`base64_url_decoded`].
#[verifier::external_body]
fn decode_base64_url(text: &str) -> (res: Option<Vec<u8>>)
    ensures
        match res {
            Some(b) => base64_url_decoded(text@) == Some(b@),
            None => base64_url_decoded(text@) is None,
        },
{
    base64::engine::general_purpose::URL_SAFE_NO_PAD.decode(text).ok()
}

/// What `serde_json` reads from `bytes` as a JSON value, member `key` as a `u64`.
pub uninterp spec fn json_u64_member(bytes: Seq<u8>, key: Seq<char>) -> Option<u64>;

/// `serde_json::from_slice::<serde_json::Value>` followed by member `key`
/// read with `Value::as_u64`: `None` when the bytes are no JSON, not an
/// object, or lack a non-negative integer member `key`; named by
/// [`json_u64_member`].
#[verifier::external_body]
fn read_u64_member(bytes: &[u8], key: &str) -> (res: Option<u64>)
    ensures
        res == json_u64_member(bytes@, key@),
{
    match serde_json::from_slice::<serde_json::Value>(bytes) {
        Ok(v) => v.get(key).and_then(serde_json::Value::as_u64),
        Err(_) => None,
    }
}

/// The `exp` claim of the JWT in a session cookie (`TOKEN=header.payload.sig`);
/// `None` for a malformed token or a payload without `exp`.
pub fn jwt_expiry(token: &str) -> (res: Option<u64>)
    ensures
        res == match jwt_payload(token@) {
            Some(p) => match base64_url_decoded(p) {
                Some(b) => json_u64_member(b, "exp"@),
                None => None,
            },
            None => None,
        },
{
    let pieces = split_on(token, ';');
    proof {
        lemma_segments_nonempty(token@, ';');
    }
    assert(pieces@[0]@ == segments(token@, ';')[0]);
    let kv = split_on(pieces[0].as_str(), '=');
    if kv.len() < 2 {
        return None;
    }
    assert(kv@[1]@ == segments(pieces@[0]@, '=')[1]);
    let parts = split_on(kv[1].as_str(), '.');
    if parts.len() != 3 {
        return None;
    }
    assert(parts@[1]@ == segments(kv@[1]@, '.')[1]);
    match decode_base64_url(parts[1].as_str()) {
        Some(bytes) => read_u64_member(bytes.as_slice(), "exp"),
        None => None,
    }
}

/// The expiry of the token a cookie carries, less the safety margin.
pub open spec fn spec_token_expiry(cookie: Seq<char>) -> Option<u64> {
    match jwt_payload(cookie) {
        Some(p) => match base64_url_decoded(p) {
            Some(b) => match json_u64_member(b, "exp"@) {
                Some(e) => Some(if e >= EXPIRY_MARGIN_SECS { (e - EXPIRY_MARGIN_SECS) as u64 } else { 0 }),
                None => None,
            },
            None => None,
        },
        None => None,
    }
}

/// When a freshly obtained session cookie is to be treated as expired: its
/// token's expiry less the safety margin (clamped at 0), or two hours from
/// now when the token names none.
pub fn cached_session_expiry(cookie: &str) -> (res: u64)
    ensures
        match spec_token_expiry(cookie@) {
            Some(e) => res == e,
            None => res == 0 || res >= 7200,
        },
{
    match jwt_expiry(cookie) {
        Some(exp) => exp.saturating_sub(EXPIRY_MARGIN_SECS),
        None => fallback_expiry(),
    }
}

} // verus!
