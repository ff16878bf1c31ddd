//! Defaults of VPN requests.
use vstd::prelude::*;

use crate::text::owned;

verus! {

/// Default of the flags that are on unless stated.
pub fn default_enabled() -> (res: bool)
    ensures
        res,
{
    true
}

/// Default purpose of a site-to-site VPN: `site-vpn`.
pub fn default_purpose() -> (res: String)
    ensures
        res@ == "site-vpn"@,
{
    owned("site-vpn")
}

/// Default purpose of a remote-access VPN server: `remote-user-vpn`.
pub fn default_remote_access_purpose() -> (res: String)
    ensures
        res@ == "remote-user-vpn"@,
{
    owned("remote-user-vpn")
}

/// Default purpose of a VPN client profile: `vpn-client`.
pub fn default_vpn_client_purpose() -> (res: String)
    ensures
        res@ == "vpn-client"@,
{
    owned("vpn-client")
}

} // verus!
