//! DNS policies.
use vstd::prelude::*;

use crate::model::entity::{DataSource, EntityId, EntityOrigin};

verus! {

/// Kind of a DNS policy.
#[derive(Debug, Clone, Copy, PartialEq, Eq, Structural)]
pub enum DnsPolicyType {
    ARecord,
    AaaaRecord,
    CnameRecord,
    MxRecord,
    TxtRecord,
    SrvRecord,
    ForwardDomain,
}

impl DnsPolicyType {
    /// The variant's name, as `Debug` renders it.
    pub open spec fn spec_debug_name(self) -> Seq<char> {
        match self {
            DnsPolicyType::ARecord => "ARecord"@,
            DnsPolicyType::AaaaRecord => "AaaaRecord"@,
            DnsPolicyType::CnameRecord => "CnameRecord"@,
            DnsPolicyType::MxRecord => "MxRecord"@,
            DnsPolicyType::TxtRecord => "TxtRecord"@,
            DnsPolicyType::SrvRecord => "SrvRecord"@,
            DnsPolicyType::ForwardDomain => "ForwardDomain"@,
        }
    }

    /// The variant's name, as `Debug` renders it.
    pub fn debug_name(self) -> (res: &'static str)
        ensures
            res@ == self.spec_debug_name(),
    {
        match self {
            DnsPolicyType::ARecord => "ARecord",
            DnsPolicyType::AaaaRecord => "AaaaRecord",
            DnsPolicyType::CnameRecord => "CnameRecord",
            DnsPolicyType::MxRecord => "MxRecord",
            DnsPolicyType::TxtRecord => "TxtRecord",
            DnsPolicyType::SrvRecord => "SrvRecord",
            DnsPolicyType::ForwardDomain => "ForwardDomain",
        }
    }
}

/// A DNS policy of the site.
#[derive(Debug, Clone, PartialEq, Eq)]
pub struct DnsPolicy {
    pub id: EntityId,
    pub policy_type: DnsPolicyType,
    pub domain: String,
    /// The record's value, as its type defines it.
    pub value: String,
    pub ttl_seconds: Option<u32>,
    pub origin: Option<EntityOrigin>,
    pub source: DataSource,
}

} // verus!
