//! Decisions of the Session API's login handshake: the outcome of a login
//! response, the second factor, and the session probe.
use vstd::prelude::*;

use crate::text::{chars_of, owned, push_str, seq_starts_with, starts_with};

verus! {

/// What a login response calls for next.
#[derive(Debug, Clone, Copy, PartialEq, Eq, Structural)]
pub enum LoginStep {
    /// The controller asks for a second factor (HTTP 499).
    SecondFactor,
    /// The controller accepted the credentials (any 2xx status).
    LoggedIn,
    /// Any other status: the login failed.
    Failed,
}

/// The step a login response's status calls for.
pub open spec fn spec_login_step(status: u16) -> LoginStep {
    if status == 499 {
        LoginStep::SecondFactor
    } else if 200 <= status <= 299 {
        LoginStep::LoggedIn
    } else {
        LoginStep::Failed
    }
}

/// The step a login response's status calls for.
pub fn login_step(status: u16) -> (res: LoginStep)
    ensures
        res == spec_login_step(status),
{
    if status == 499 {
        LoginStep::SecondFactor
    } else if 200 <= status && status <= 299 {
        LoginStep::LoggedIn
    } else {
        LoginStep::Failed
    }
}

/// A one-time code is exactly six ASCII digits.
pub open spec fn spec_totp_valid(code: Seq<char>) -> bool {
    code.len() == 6 && forall|i: int| 0 <= i < 6 ==> '0' <= #[trigger] code[i] <= '9'
}

/// Whether a one-time code is exactly six ASCII digits.
pub fn totp_code_valid(code: &str) -> (res: bool)
    ensures
        res == spec_totp_valid(code@),
{
    let cs = chars_of(code);
    if cs.len() != 6 {
        return false;
    }
    let mut i: usize = 0;
    while i < 6
        invariant
            cs@ == code@,
            cs@.len() == 6,
            i <= 6,
            forall|j: int| 0 <= j < i ==> '0' <= #[trigger] code@[j] <= '9',
        decreases 6 - i,
    {
        if !('0' <= cs[i] && cs[i] <= '9') {
            return false;
        }
        i = i + 1;
    }
    true
}

/// The MFA cookie of a second-factor challenge must be a `UBIC_2FA` cookie;
/// the error names the cookie otherwise.
pub fn check_mfa_cookie(cookie: &str) -> (res: Result<(), String>)
    ensures
        match res {
            Ok(()) => seq_starts_with(cookie@, "UBIC_2FA="@),
            Err(m) => !seq_starts_with(cookie@, "UBIC_2FA="@) && m@
                == "unexpected MFA cookie format (expected UBIC_2FA=...): "@ + cookie@,
        },
{
    if starts_with(cookie, "UBIC_2FA=") {
        Ok(())
    } else {
        let mut m = owned("unexpected MFA cookie format (expected UBIC_2FA=...): ");
        push_str(&mut m, cookie);
        Err(m)
    }
}

/// `s` without its trailing `/` characters.
pub open spec fn trim_slashes(s: Seq<char>) -> Seq<char>
    decreases s.len(),
{
    if s.len() > 0 && s.last() == '/' {
        trim_slashes(s.drop_last())
    } else {
        s
    }
}

fn trimmed(s: &str) -> (res: String)
    ensures
        res@ == trim_slashes(s@),
{
    let cs = chars_of(s);
    let mut n: usize = cs.len();
    assert(cs@.take(n as int) =~= s@);
    while n > 0 && cs[n - 1] == '/'
        invariant
            n <= cs@.len(),
            cs@ == s@,
            trim_slashes(s@) == trim_slashes(cs@.take(n as int)),
        decreases n,
    {
        assert(cs@.take(n as int).drop_last() =~= cs@.take(n - 1));
        n = n - 1;
    }
    crate::text::slice_chars(&cs, 0, n)
}

/// The URL that probes whether a restored session is still valid: the base
/// URL and the platform's prefix without trailing slashes, then
/// `/api/s/{site}/self`.
pub fn session_probe_url(base: &str, prefix: &str, site: &str) -> (res: String)
    ensures
        res@ == trim_slashes(base@) + trim_slashes(prefix@) + "/api/s/"@ + site@ + "/self"@,
{
    let mut url = trimmed(base);
    let p = trimmed(prefix);
    push_str(&mut url, p.as_str());
    push_str(&mut url, "/api/s/");
    push_str(&mut url, site);
    push_str(&mut url, "/self");
    url
}

} // verus!
