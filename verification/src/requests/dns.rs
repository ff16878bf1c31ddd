//! DNS policy requests.
use vstd::prelude::*;

use crate::model::dns::DnsPolicyType;

verus! {

/// Request to create a DNS policy. Which record fields apply depends on the
/// policy type; `value` stands in for the type's main field.
#[derive(Debug, Clone, PartialEq, Eq)]
pub struct CreateDnsPolicyRequest {
    pub name: String,
    pub policy_type: DnsPolicyType,
    pub enabled: bool,
    pub domain: Option<String>,
    pub domains: Option<Vec<String>>,
    pub upstream: Option<String>,
    pub value: Option<String>,
    pub ttl_seconds: Option<u32>,
    pub priority: Option<u16>,
    pub ipv4_address: Option<String>,
    pub ipv6_address: Option<String>,
    pub target_domain: Option<String>,
    pub mail_server_domain: Option<String>,
    pub text: Option<String>,
    pub ip_address: Option<String>,
    pub server_domain: Option<String>,
    pub service: Option<String>,
    pub protocol: Option<String>,
    pub port: Option<u16>,
    pub weight: Option<u16>,
}

/// Request to update a DNS policy; unset fields stay as they are.
#[derive(Debug, Clone, Default, PartialEq, Eq)]
pub struct UpdateDnsPolicyRequest {
    pub name: Option<String>,
    pub enabled: Option<bool>,
    pub domain: Option<String>,
    pub domains: Option<Vec<String>>,
    pub upstream: Option<String>,
    pub value: Option<String>,
    pub ttl_seconds: Option<u32>,
    pub priority: Option<u16>,
    pub ipv4_address: Option<String>,
    pub ipv6_address: Option<String>,
    pub target_domain: Option<String>,
    pub mail_server_domain: Option<String>,
    pub text: Option<String>,
    pub ip_address: Option<String>,
    pub server_domain: Option<String>,
    pub service: Option<String>,
    pub protocol: Option<String>,
    pub port: Option<u16>,
    pub weight: Option<u16>,
}

} // verus!
