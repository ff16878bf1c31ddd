//! JSON fields of DNS policy create and update calls.
//!
//! Each policy type has its own record fields; a request's generic `value`
//! stands in for the type's main field. The built fields are checked against
//! the type's required fields before they are sent.
use vstd::prelude::*;

use crate::error::{CoreError, ErrorView};
use crate::json::{clone_members, jstr, ju64, jview_members, mget, obj_set, JView, JsonValue};
use crate::model::dns::DnsPolicyType;
use crate::integration::DnsPolicyResponse;
use crate::requests::dns::{CreateDnsPolicyRequest, UpdateDnsPolicyRequest};
use crate::requests::policy::opt_list_view;
use crate::text::{is_empty_text, opt_str_view, opt_view, owned, push_str, str_eq};

verus! {

/// Wire name of a DNS policy type.
pub open spec fn spec_dns_policy_type_name(t: DnsPolicyType) -> Seq<char> {
    match t {
        DnsPolicyType::ARecord => "A"@,
        DnsPolicyType::AaaaRecord => "AAAA"@,
        DnsPolicyType::CnameRecord => "CNAME"@,
        DnsPolicyType::MxRecord => "MX"@,
        DnsPolicyType::TxtRecord => "TXT"@,
        DnsPolicyType::SrvRecord => "SRV"@,
        DnsPolicyType::ForwardDomain => "FORWARD_DOMAIN"@,
    }
}

/// Wire name of a DNS policy type.
pub fn dns_policy_type_name(policy_type: DnsPolicyType) -> (res: &'static str)
    ensures
        res@ == spec_dns_policy_type_name(policy_type),
{
    match policy_type {
        DnsPolicyType::ARecord => "A",
        DnsPolicyType::AaaaRecord => "AAAA",
        DnsPolicyType::CnameRecord => "CNAME",
        DnsPolicyType::MxRecord => "MX",
        DnsPolicyType::TxtRecord => "TXT",
        DnsPolicyType::SrvRecord => "SRV",
        DnsPolicyType::ForwardDomain => "FORWARD_DOMAIN",
    }
}

/// DNS policy type of a wire name; unknown names are forward domains.
pub open spec fn spec_dns_policy_type_from_name(name: Seq<char>) -> DnsPolicyType {
    if name == "A"@ {
        DnsPolicyType::ARecord
    } else if name == "AAAA"@ {
        DnsPolicyType::AaaaRecord
    } else if name == "CNAME"@ {
        DnsPolicyType::CnameRecord
    } else if name == "MX"@ {
        DnsPolicyType::MxRecord
    } else if name == "TXT"@ {
        DnsPolicyType::TxtRecord
    } else if name == "SRV"@ {
        DnsPolicyType::SrvRecord
    } else {
        DnsPolicyType::ForwardDomain
    }
}

/// DNS policy type of a wire name.
pub fn dns_policy_type_from_name(policy_type: &str) -> (res: DnsPolicyType)
    ensures
        res == spec_dns_policy_type_from_name(policy_type@),
{
    if str_eq(policy_type, "A") {
        DnsPolicyType::ARecord
    } else if str_eq(policy_type, "AAAA") {
        DnsPolicyType::AaaaRecord
    } else if str_eq(policy_type, "CNAME") {
        DnsPolicyType::CnameRecord
    } else if str_eq(policy_type, "MX") {
        DnsPolicyType::MxRecord
    } else if str_eq(policy_type, "TXT") {
        DnsPolicyType::TxtRecord
    } else if str_eq(policy_type, "SRV") {
        DnsPolicyType::SrvRecord
    } else {
        DnsPolicyType::ForwardDomain
    }
}

/// The domain of a policy: `domain`, else the first of `domains`, else a
/// non-empty fallback.
pub open spec fn spec_dns_domain(domain: Option<Seq<char>>, domains: Option<Seq<Seq<char>>>, fallback: Option<Seq<char>>) -> Option<Seq<char>> {
    match domain {
        Some(d) => Some(d),
        None => match domains {
            Some(ds) if ds.len() > 0 => Some(ds[0]),
            _ => match fallback {
                Some(f) if f.len() > 0 => Some(f),
                _ => None,
            },
        },
    }
}

/// The domain of a policy (see [`spec_dns_domain`]).
pub fn dns_domain_value(domain: Option<&str>, domains: Option<&[String]>, fallback: Option<&str>) -> (res: Option<String>)
    ensures
        opt_view(res) == spec_dns_domain(
            opt_str_view(domain),
            match domains {
                Some(d) => Some(d@.map_values(|s: String| s@)),
                None => None,
            },
            opt_str_view(fallback),
        ),
{
    if let Some(d) = domain {
        return Some(owned(d));
    }
    if let Some(ds) = domains {
        if ds.len() > 0 {
            return Some(ds[0].clone());
        }
    }
    match fallback {
        Some(f) => if !is_empty_text(f) {
            Some(owned(f))
        } else {
            None
        },
        None => None,
    }
}

/// The record fields of a request, whatever its policy type.
pub struct DnsRecordInput {
    pub upstream: Option<Seq<char>>,
    pub value: Option<Seq<char>>,
    pub ttl_seconds: Option<u32>,
    pub priority: Option<u16>,
    pub ipv4_address: Option<Seq<char>>,
    pub ipv6_address: Option<Seq<char>>,
    pub target_domain: Option<Seq<char>>,
    pub mail_server_domain: Option<Seq<char>>,
    pub text: Option<Seq<char>>,
    pub ip_address: Option<Seq<char>>,
    pub server_domain: Option<Seq<char>>,
    pub service: Option<Seq<char>>,
    pub protocol: Option<Seq<char>>,
    pub port: Option<u16>,
    pub weight: Option<u16>,
}

/// The record fields of a create request.
pub open spec fn create_input(r: CreateDnsPolicyRequest) -> DnsRecordInput {
    DnsRecordInput {
        upstream: opt_view(r.upstream),
        value: opt_view(r.value),
        ttl_seconds: r.ttl_seconds,
        priority: r.priority,
        ipv4_address: opt_view(r.ipv4_address),
        ipv6_address: opt_view(r.ipv6_address),
        target_domain: opt_view(r.target_domain),
        mail_server_domain: opt_view(r.mail_server_domain),
        text: opt_view(r.text),
        ip_address: opt_view(r.ip_address),
        server_domain: opt_view(r.server_domain),
        service: opt_view(r.service),
        protocol: opt_view(r.protocol),
        port: r.port,
        weight: r.weight,
    }
}

/// The record fields of an update request.
pub open spec fn update_input(r: UpdateDnsPolicyRequest) -> DnsRecordInput {
    DnsRecordInput {
        upstream: opt_view(r.upstream),
        value: opt_view(r.value),
        ttl_seconds: r.ttl_seconds,
        priority: r.priority,
        ipv4_address: opt_view(r.ipv4_address),
        ipv6_address: opt_view(r.ipv6_address),
        target_domain: opt_view(r.target_domain),
        mail_server_domain: opt_view(r.mail_server_domain),
        text: opt_view(r.text),
        ip_address: opt_view(r.ip_address),
        server_domain: opt_view(r.server_domain),
        service: opt_view(r.service),
        protocol: opt_view(r.protocol),
        port: r.port,
        weight: r.weight,
    }
}

/// The first of two optional values that is present.
pub open spec fn either<A>(a: Option<A>, b: Option<A>) -> Option<A> {
    match a {
        Some(x) => Some(x),
        None => b,
    }
}

/// A string field's value.
pub open spec fn str_field(o: Option<Seq<char>>) -> Option<JView> {
    match o {
        Some(s) => Some(JView::Str(s)),
        None => None,
    }
}

/// A 16-bit number field's value.
pub open spec fn u16_field(o: Option<u16>) -> Option<JView> {
    match o {
        Some(n) => Some(JView::UInt(n as u64)),
        None => None,
    }
}

/// A 32-bit number field's value.
pub open spec fn u32_field(o: Option<u32>) -> Option<JView> {
    match o {
        Some(n) => Some(JView::UInt(n as u64)),
        None => None,
    }
}

/// The value a policy of type `t` writes to record field `k`, if it writes one.
pub open spec fn record_member(t: DnsPolicyType, i: DnsRecordInput, k: Seq<char>) -> Option<JView> {
    match t {
        DnsPolicyType::ARecord => if k == "ipv4Address"@ {
            str_field(either(i.ipv4_address, i.value))
        } else if k == "ttlSeconds"@ {
            u32_field(i.ttl_seconds)
        } else {
            None
        },
        DnsPolicyType::AaaaRecord => if k == "ipv6Address"@ {
            str_field(either(i.ipv6_address, i.value))
        } else if k == "ttlSeconds"@ {
            u32_field(i.ttl_seconds)
        } else {
            None
        },
        DnsPolicyType::CnameRecord => if k == "targetDomain"@ {
            str_field(either(i.target_domain, i.value))
        } else if k == "ttlSeconds"@ {
            u32_field(i.ttl_seconds)
        } else {
            None
        },
        DnsPolicyType::MxRecord => if k == "mailServerDomain"@ {
            str_field(either(i.mail_server_domain, i.value))
        } else if k == "priority"@ {
            u16_field(i.priority)
        } else {
            None
        },
        DnsPolicyType::TxtRecord => if k == "text"@ {
            str_field(either(i.text, i.value))
        } else {
            None
        },
        DnsPolicyType::SrvRecord => if k == "serverDomain"@ {
            str_field(either(i.server_domain, i.value))
        } else if k == "service"@ {
            str_field(i.service)
        } else if k == "protocol"@ {
            str_field(i.protocol)
        } else if k == "port"@ {
            u16_field(i.port)
        } else if k == "priority"@ {
            u16_field(i.priority)
        } else if k == "weight"@ {
            u16_field(i.weight)
        } else {
            None
        },
        DnsPolicyType::ForwardDomain => if k == "ipAddress"@ {
            str_field(either(i.ip_address, either(i.upstream, i.value)))
        } else {
            None
        },
    }
}

/// The fields each policy type requires, in the order they are checked; the
/// flag marks a number.
pub open spec fn dns_requirements(t: DnsPolicyType) -> Seq<(Seq<char>, bool)> {
    seq![("domain"@, false)] + match t {
        DnsPolicyType::ARecord => seq![("ipv4Address"@, false), ("ttlSeconds"@, true)],
        DnsPolicyType::AaaaRecord => seq![("ipv6Address"@, false), ("ttlSeconds"@, true)],
        DnsPolicyType::CnameRecord => seq![("targetDomain"@, false), ("ttlSeconds"@, true)],
        DnsPolicyType::MxRecord => seq![("mailServerDomain"@, false), ("priority"@, true)],
        DnsPolicyType::TxtRecord => seq![("text"@, false)],
        DnsPolicyType::SrvRecord => seq![
            ("serverDomain"@, false),
            ("service"@, false),
            ("protocol"@, false),
            ("port"@, true),
            ("priority"@, true),
            ("weight"@, true),
        ],
        DnsPolicyType::ForwardDomain => seq![("ipAddress"@, false)],
    }
}

/// Field `r.0` is present as a string, or as a number when `r.1` is set.
pub open spec fn requirement_met(look: spec_fn(Seq<char>) -> Option<JView>, r: (Seq<char>, bool)) -> bool {
    if r.1 {
        ju64(look(r.0)) is Some
    } else {
        jstr(look(r.0)) is Some
    }
}

/// The first required field that is missing.
pub open spec fn first_missing(reqs: Seq<(Seq<char>, bool)>, look: spec_fn(Seq<char>) -> Option<JView>) -> Option<Seq<char>>
    decreases reqs.len(),
{
    if reqs.len() == 0 {
        None
    } else if !requirement_met(look, reqs[0]) {
        Some(reqs[0].0)
    } else {
        first_missing(reqs.drop_first(), look)
    }
}

/// Message of a missing required field.
pub open spec fn missing_message(t: DnsPolicyType, key: Seq<char>) -> Seq<char> {
    t.spec_debug_name() + " DNS policy requires `"@ + key + "`"@
}

pub(crate) proof fn lemma_dns_keys_distinct()
    ensures
        "domain"@ != "ipv4Address"@,
        "domain"@ != "ttlSeconds"@,
        "domain"@ != "ipv6Address"@,
        "domain"@ != "targetDomain"@,
        "domain"@ != "mailServerDomain"@,
        "domain"@ != "priority"@,
        "domain"@ != "text"@,
        "domain"@ != "serverDomain"@,
        "domain"@ != "service"@,
        "domain"@ != "protocol"@,
        "domain"@ != "port"@,
        "domain"@ != "weight"@,
        "domain"@ != "ipAddress"@,
        "ipv4Address"@ != "ttlSeconds"@,
        "ipv4Address"@ != "ipv6Address"@,
        "ipv4Address"@ != "targetDomain"@,
        "ipv4Address"@ != "mailServerDomain"@,
        "ipv4Address"@ != "priority"@,
        "ipv4Address"@ != "text"@,
        "ipv4Address"@ != "serverDomain"@,
        "ipv4Address"@ != "service"@,
        "ipv4Address"@ != "protocol"@,
        "ipv4Address"@ != "port"@,
        "ipv4Address"@ != "weight"@,
        "ipv4Address"@ != "ipAddress"@,
        "ttlSeconds"@ != "ipv6Address"@,
        "ttlSeconds"@ != "targetDomain"@,
        "ttlSeconds"@ != "mailServerDomain"@,
        "ttlSeconds"@ != "priority"@,
        "ttlSeconds"@ != "text"@,
        "ttlSeconds"@ != "serverDomain"@,
        "ttlSeconds"@ != "service"@,
        "ttlSeconds"@ != "protocol"@,
        "ttlSeconds"@ != "port"@,
        "ttlSeconds"@ != "weight"@,
        "ttlSeconds"@ != "ipAddress"@,
        "ipv6Address"@ != "targetDomain"@,
        "ipv6Address"@ != "mailServerDomain"@,
        "ipv6Address"@ != "priority"@,
        "ipv6Address"@ != "text"@,
        "ipv6Address"@ != "serverDomain"@,
        "ipv6Address"@ != "service"@,
        "ipv6Address"@ != "protocol"@,
        "ipv6Address"@ != "port"@,
        "ipv6Address"@ != "weight"@,
        "ipv6Address"@ != "ipAddress"@,
        "targetDomain"@ != "mailServerDomain"@,
        "targetDomain"@ != "priority"@,
        "targetDomain"@ != "text"@,
        "targetDomain"@ != "serverDomain"@,
        "targetDomain"@ != "service"@,
        "targetDomain"@ != "protocol"@,
        "targetDomain"@ != "port"@,
        "targetDomain"@ != "weight"@,
        "targetDomain"@ != "ipAddress"@,
        "mailServerDomain"@ != "priority"@,
        "mailServerDomain"@ != "text"@,
        "mailServerDomain"@ != "serverDomain"@,
        "mailServerDomain"@ != "service"@,
        "mailServerDomain"@ != "protocol"@,
        "mailServerDomain"@ != "port"@,
        "mailServerDomain"@ != "weight"@,
        "mailServerDomain"@ != "ipAddress"@,
        "priority"@ != "text"@,
        "priority"@ != "serverDomain"@,
        "priority"@ != "service"@,
        "priority"@ != "protocol"@,
        "priority"@ != "port"@,
        "priority"@ != "weight"@,
        "priority"@ != "ipAddress"@,
        "text"@ != "serverDomain"@,
        "text"@ != "service"@,
        "text"@ != "protocol"@,
        "text"@ != "port"@,
        "text"@ != "weight"@,
        "text"@ != "ipAddress"@,
        "serverDomain"@ != "service"@,
        "serverDomain"@ != "protocol"@,
        "serverDomain"@ != "port"@,
        "serverDomain"@ != "weight"@,
        "serverDomain"@ != "ipAddress"@,
        "service"@ != "protocol"@,
        "service"@ != "port"@,
        "service"@ != "weight"@,
        "service"@ != "ipAddress"@,
        "protocol"@ != "port"@,
        "protocol"@ != "weight"@,
        "protocol"@ != "ipAddress"@,
        "port"@ != "weight"@,
        "port"@ != "ipAddress"@,
        "weight"@ != "ipAddress"@,
{
    reveal_strlit("domain");
    reveal_strlit("ipv4Address");
    reveal_strlit("ttlSeconds");
    reveal_strlit("ipv6Address");
    reveal_strlit("targetDomain");
    reveal_strlit("mailServerDomain");
    reveal_strlit("priority");
    reveal_strlit("text");
    reveal_strlit("serverDomain");
    reveal_strlit("service");
    reveal_strlit("protocol");
    reveal_strlit("port");
    reveal_strlit("weight");
    reveal_strlit("ipAddress");
    assert("domain"@.len() == 6);
    assert("ipv4Address"@.len() == 11);
    assert("ttlSeconds"@.len() == 10);
    assert("ipv6Address"@.len() == 11);
    assert("targetDomain"@.len() == 12);
    assert("mailServerDomain"@.len() == 16);
    assert("priority"@.len() == 8);
    assert("text"@.len() == 4);
    assert("serverDomain"@.len() == 12);
    assert("service"@.len() == 7);
    assert("protocol"@.len() == 8);
    assert("port"@.len() == 4);
    assert("weight"@.len() == 6);
    assert("ipAddress"@.len() == 9);
    assert("domain"@[0] != "weight"@[0]);
    assert("ipv4Address"@[3] != "ipv6Address"@[3]);
    assert("targetDomain"@[0] != "serverDomain"@[0]);
    assert("priority"@[2] != "protocol"@[2]);
    assert("text"@[0] != "port"@[0]);
}

fn requirement_list(t: DnsPolicyType) -> (res: Vec<(&'static str, bool)>)
    ensures
        res@.map_values(|p: (&'static str, bool)| (p.0@, p.1)) == dns_requirements(t),
{
    let v = match t {
        DnsPolicyType::ARecord => vec![("domain", false), ("ipv4Address", false), ("ttlSeconds", true)],
        DnsPolicyType::AaaaRecord => vec![("domain", false), ("ipv6Address", false), ("ttlSeconds", true)],
        DnsPolicyType::CnameRecord => vec![("domain", false), ("targetDomain", false), ("ttlSeconds", true)],
        DnsPolicyType::MxRecord => vec![("domain", false), ("mailServerDomain", false), ("priority", true)],
        DnsPolicyType::TxtRecord => vec![("domain", false), ("text", false)],
        DnsPolicyType::SrvRecord => vec![
            ("domain", false),
            ("serverDomain", false),
            ("service", false),
            ("protocol", false),
            ("port", true),
            ("priority", true),
            ("weight", true),
        ],
        DnsPolicyType::ForwardDomain => vec![("domain", false), ("ipAddress", false)],
    };
    assert(v@.map_values(|p: (&'static str, bool)| (p.0@, p.1)) =~= dns_requirements(t));
    v
}

/// Checks that `fields` hold every field the policy type requires.
pub fn validate_dns_policy_fields(policy_type: DnsPolicyType, fields: &Vec<(String, JsonValue)>) -> (res: Result<(), CoreError>)
    ensures
        match first_missing(dns_requirements(policy_type), |k: Seq<char>| mget(jview_members(fields@), k)) {
            Some(key) => res matches Err(e) && e@ == ErrorView::ValidationFailed(missing_message(policy_type, key)),
            None => res is Ok,
        },
{
    let ghost look = |k: Seq<char>| mget(jview_members(fields@), k);
    let reqs = requirement_list(policy_type);
    let ghost rv = reqs@.map_values(|p: (&'static str, bool)| (p.0@, p.1));
    let mut i: usize = 0;
    assert(rv.skip(0) =~= rv);
    while i < reqs.len()
        invariant
            i <= reqs.len(),
            rv == reqs@.map_values(|p: (&'static str, bool)| (p.0@, p.1)),
            rv == dns_requirements(policy_type),
            look == (|k: Seq<char>| mget(jview_members(fields@), k)),
            first_missing(rv, look) == first_missing(rv.skip(i as int), look),
        decreases reqs.len() - i,
    {
        assert(rv.skip(i as int)[0] == (reqs@[i as int].0@, reqs@[i as int].1));
        assert(rv.skip(i as int).drop_first() =~= rv.skip(i + 1));
        let (key, number) = reqs[i];
        let value = crate::json::obj_lookup(fields, key);
        let met = if number {
            crate::json::as_u64(value).is_some()
        } else {
            crate::json::as_str(value).is_some()
        };
        if !met {
            let mut message = String::new();
            push_str(&mut message, policy_type.debug_name());
            push_str(&mut message, " DNS policy requires `");
            push_str(&mut message, key);
            push_str(&mut message, "`");
            return Err(CoreError::ValidationFailed { message });
        }
        i = i + 1;
    }
    Ok(())
}


/// The record fields of a request, as values.
pub struct DnsRecordValues {
    pub upstream: Option<String>,
    pub value: Option<String>,
    pub ttl_seconds: Option<u32>,
    pub priority: Option<u16>,
    pub ipv4_address: Option<String>,
    pub ipv6_address: Option<String>,
    pub target_domain: Option<String>,
    pub mail_server_domain: Option<String>,
    pub text: Option<String>,
    pub ip_address: Option<String>,
    pub server_domain: Option<String>,
    pub service: Option<String>,
    pub protocol: Option<String>,
    pub port: Option<u16>,
    pub weight: Option<u16>,
}

impl View for DnsRecordValues {
    type V = DnsRecordInput;

    open spec fn view(&self) -> DnsRecordInput {
        DnsRecordInput {
            upstream: opt_view(self.upstream),
            value: opt_view(self.value),
            ttl_seconds: self.ttl_seconds,
            priority: self.priority,
            ipv4_address: opt_view(self.ipv4_address),
            ipv6_address: opt_view(self.ipv6_address),
            target_domain: opt_view(self.target_domain),
            mail_server_domain: opt_view(self.mail_server_domain),
            text: opt_view(self.text),
            ip_address: opt_view(self.ip_address),
            server_domain: opt_view(self.server_domain),
            service: opt_view(self.service),
            protocol: opt_view(self.protocol),
            port: self.port,
            weight: self.weight,
        }
    }
}

fn first_of(a: &Option<String>, b: &Option<String>) -> (res: Option<String>)
    ensures
        opt_view(res) == either(opt_view(*a), opt_view(*b)),
{
    match a {
        Some(x) => Some(x.clone()),
        None => b.clone(),
    }
}

/// Sets string field `key` when a value is given.
pub fn insert_string_field(fields: &mut Vec<(String, JsonValue)>, key: &str, value: Option<String>)
    ensures
        forall|k: Seq<char>| #[trigger] mget(jview_members(final(fields)@), k) == if k == key@ && value is Some {
            str_field(opt_view(value))
        } else {
            mget(jview_members(old(fields)@), k)
        },
{
    if let Some(v) = value {
        let ghost vv = v@;
        obj_set(fields, owned(key), JsonValue::Str(v));
        assert(forall|k: Seq<char>| #[trigger] mget(jview_members(fields@), k) == if k == key@ {
            Some(JView::Str(vv))
        } else {
            mget(jview_members(old(fields)@), k)
        });
    }
}

/// Sets 16-bit number field `key` when a value is given.
pub fn insert_u16_field(fields: &mut Vec<(String, JsonValue)>, key: &str, value: Option<u16>)
    ensures
        forall|k: Seq<char>| #[trigger] mget(jview_members(final(fields)@), k) == if k == key@ && value is Some {
            u16_field(value)
        } else {
            mget(jview_members(old(fields)@), k)
        },
{
    if let Some(v) = value {
        obj_set(fields, owned(key), JsonValue::UInt(v as u64));
    }
}

/// Sets 32-bit number field `key` when a value is given.
pub fn insert_u32_field(fields: &mut Vec<(String, JsonValue)>, key: &str, value: Option<u32>)
    ensures
        forall|k: Seq<char>| #[trigger] mget(jview_members(final(fields)@), k) == if k == key@ && value is Some {
            u32_field(value)
        } else {
            mget(jview_members(old(fields)@), k)
        },
{
    if let Some(v) = value {
        obj_set(fields, owned(key), JsonValue::UInt(v as u64));
    }
}

/// Writes the record fields of policy type `t`.
fn insert_record_fields(fields: &mut Vec<(String, JsonValue)>, t: DnsPolicyType, i: &DnsRecordValues)
    ensures
        forall|k: Seq<char>| #[trigger] mget(jview_members(final(fields)@), k) == match record_member(t, i@, k) {
            Some(v) => Some(v),
            None => mget(jview_members(old(fields)@), k),
        },
{
    proof {
        lemma_dns_keys_distinct();
    }
    match t {
        DnsPolicyType::ARecord => {
            insert_string_field(fields, "ipv4Address", first_of(&i.ipv4_address, &i.value));
            insert_u32_field(fields, "ttlSeconds", i.ttl_seconds);
        },
        DnsPolicyType::AaaaRecord => {
            insert_string_field(fields, "ipv6Address", first_of(&i.ipv6_address, &i.value));
            insert_u32_field(fields, "ttlSeconds", i.ttl_seconds);
        },
        DnsPolicyType::CnameRecord => {
            insert_string_field(fields, "targetDomain", first_of(&i.target_domain, &i.value));
            insert_u32_field(fields, "ttlSeconds", i.ttl_seconds);
        },
        DnsPolicyType::MxRecord => {
            insert_string_field(fields, "mailServerDomain", first_of(&i.mail_server_domain, &i.value));
            insert_u16_field(fields, "priority", i.priority);
        },
        DnsPolicyType::TxtRecord => {
            insert_string_field(fields, "text", first_of(&i.text, &i.value));
        },
        DnsPolicyType::SrvRecord => {
            insert_string_field(fields, "serverDomain", first_of(&i.server_domain, &i.value));
            insert_string_field(fields, "service", i.service.clone());
            insert_string_field(fields, "protocol", i.protocol.clone());
            insert_u16_field(fields, "port", i.port);
            insert_u16_field(fields, "priority", i.priority);
            insert_u16_field(fields, "weight", i.weight);
        },
        DnsPolicyType::ForwardDomain => {
            let upstream_or_value = first_of(&i.upstream, &i.value);
            insert_string_field(fields, "ipAddress", first_of(&i.ip_address, &upstream_or_value));
        },
    }
}

/// Fields of a created policy of type `t` with domain `d`.
pub open spec fn create_member(t: DnsPolicyType, i: DnsRecordInput, d: Seq<char>, k: Seq<char>) -> Option<JView> {
    match record_member(t, i, k) {
        Some(v) => Some(v),
        None => if k == "domain"@ {
            Some(JView::Str(d))
        } else {
            None
        },
    }
}

/// The domain of a create request: its domain, first listed domain, or name.
pub open spec fn create_domain(req: CreateDnsPolicyRequest) -> Option<Seq<char>> {
    spec_dns_domain(opt_view(req.domain), opt_list_view(req.domains), Some(req.name@))
}

/// Builds the fields of a DNS policy create call: the domain and the policy
/// type's record fields, each record's main field falling back to `value`.
/// Fails without a domain or when a required field is missing.
pub fn build_create_dns_policy_fields(req: &CreateDnsPolicyRequest) -> (res: Result<Vec<(String, JsonValue)>, CoreError>)
    ensures
        match create_domain(*req) {
            None => res matches Err(e) && e@ == ErrorView::ValidationFailed("DNS policy requires `domain`"@),
            Some(d) => match first_missing(
                dns_requirements(req.policy_type),
                |k: Seq<char>| create_member(req.policy_type, create_input(*req), d, k),
            ) {
                Some(key) => res matches Err(e) && e@ == ErrorView::ValidationFailed(missing_message(req.policy_type, key)),
                None => res matches Ok(f) && forall|k: Seq<char>| #[trigger] mget(jview_members(f@), k)
                    == create_member(req.policy_type, create_input(*req), d, k),
            },
        },
{
    proof {
        lemma_dns_keys_distinct();
    }
    let domains = match &req.domains {
        Some(v) => Some(v.as_slice()),
        None => None,
    };
    let domain = match dns_domain_value(
        match &req.domain {
            Some(d) => Some(d.as_str()),
            None => None,
        },
        domains,
        Some(req.name.as_str()),
    ) {
        Some(d) => d,
        None => {
            return Err(CoreError::ValidationFailed { message: owned("DNS policy requires `domain`") });
        },
    };
    assert(opt_list_view(req.domains) == match domains {
        Some(d) => Some(d@.map_values(|s: String| s@)),
        None => None,
    });
    let ghost d = domain@;
    let mut fields: Vec<(String, JsonValue)> = Vec::new();
    obj_set(&mut fields, owned("domain"), JsonValue::Str(domain));
    let values = DnsRecordValues {
        upstream: req.upstream.clone(),
        value: req.value.clone(),
        ttl_seconds: req.ttl_seconds,
        priority: req.priority,
        ipv4_address: req.ipv4_address.clone(),
        ipv6_address: req.ipv6_address.clone(),
        target_domain: req.target_domain.clone(),
        mail_server_domain: req.mail_server_domain.clone(),
        text: req.text.clone(),
        ip_address: req.ip_address.clone(),
        server_domain: req.server_domain.clone(),
        service: req.service.clone(),
        protocol: req.protocol.clone(),
        port: req.port,
        weight: req.weight,
    };
    assert(values@ == create_input(*req));
    insert_record_fields(&mut fields, req.policy_type, &values);
    let ghost want = |k: Seq<char>| create_member(req.policy_type, create_input(*req), d, k);
    let ghost have = |k: Seq<char>| mget(jview_members(fields@), k);
    assert(have =~= want) by {
        assert(mget(jview_members(Seq::<(String, JsonValue)>::empty()), "domain"@) is None);
    }
    match validate_dns_policy_fields(req.policy_type, &fields) {
        Ok(()) => Ok(fields),
        Err(e) => Err(e),
    }
}


/// The domain an update writes: its domain, first listed domain, or the
/// policy's current domain when non-empty.
pub open spec fn update_domain(existing: DnsPolicyResponse, update: UpdateDnsPolicyRequest) -> Option<Seq<char>> {
    spec_dns_domain(opt_view(update.domain), opt_list_view(update.domains), opt_view(existing.domain))
}

/// Fields of an updated policy: the update's record fields over its domain
/// over the policy's current fields.
pub open spec fn update_member(existing: DnsPolicyResponse, update: UpdateDnsPolicyRequest, k: Seq<char>) -> Option<JView> {
    let t = spec_dns_policy_type_from_name(existing.policy_type@);
    match record_member(t, update_input(update), k) {
        Some(v) => Some(v),
        None => match update_domain(existing, update) {
            Some(d) if k == "domain"@ => Some(JView::Str(d)),
            _ => mget(jview_members(existing.extra@), k),
        },
    }
}

/// Builds the fields of a DNS policy update call: the policy's current
/// fields, with the update's domain and record fields written over them.
/// Fails when a field the policy type requires is missing.
pub fn build_update_dns_policy_fields(existing: &DnsPolicyResponse, update: &UpdateDnsPolicyRequest) -> (res: Result<Vec<(String, JsonValue)>, CoreError>)
    ensures
        ({
            let t = spec_dns_policy_type_from_name(existing.policy_type@);
            match first_missing(dns_requirements(t), |k: Seq<char>| update_member(*existing, *update, k)) {
                Some(key) => res matches Err(e) && e@ == ErrorView::ValidationFailed(missing_message(t, key)),
                None => res matches Ok(f) && forall|k: Seq<char>| #[trigger] mget(jview_members(f@), k)
                    == update_member(*existing, *update, k),
            }
        }),
{
    proof {
        lemma_dns_keys_distinct();
    }
    let policy_type = dns_policy_type_from_name(existing.policy_type.as_str());
    let mut fields = clone_members(&existing.extra);
    let domains = match &update.domains {
        Some(v) => Some(v.as_slice()),
        None => None,
    };
    assert(opt_list_view(update.domains) == match domains {
        Some(d) => Some(d@.map_values(|s: String| s@)),
        None => None,
    });
    let found = dns_domain_value(
        match &update.domain {
            Some(d) => Some(d.as_str()),
            None => None,
        },
        domains,
        match &existing.domain {
            Some(d) => Some(d.as_str()),
            None => None,
        },
    );
    if let Some(domain) = found {
        obj_set(&mut fields, owned("domain"), JsonValue::Str(domain));
    }
    let values = DnsRecordValues {
        upstream: update.upstream.clone(),
        value: update.value.clone(),
        ttl_seconds: update.ttl_seconds,
        priority: update.priority,
        ipv4_address: update.ipv4_address.clone(),
        ipv6_address: update.ipv6_address.clone(),
        target_domain: update.target_domain.clone(),
        mail_server_domain: update.mail_server_domain.clone(),
        text: update.text.clone(),
        ip_address: update.ip_address.clone(),
        server_domain: update.server_domain.clone(),
        service: update.service.clone(),
        protocol: update.protocol.clone(),
        port: update.port,
        weight: update.weight,
    };
    assert(values@ == update_input(*update));
    insert_record_fields(&mut fields, policy_type, &values);
    let ghost want = |k: Seq<char>| update_member(*existing, *update, k);
    let ghost have = |k: Seq<char>| mget(jview_members(fields@), k);
    assert(have =~= want);
    match validate_dns_policy_fields(policy_type, &fields) {
        Ok(()) => Ok(fields),
        Err(e) => Err(e),
    }
}

/// A DNS policy type's wire name reads back as the same type, each record
/// type is read only from its own name (`A`, `AAAA`, `CNAME`, `MX`, `TXT`,
/// `SRV`), and every other name is a forwarded domain.
pub proof fn lemma_dns_policy_type_names(t: DnsPolicyType, n: Seq<char>)
    ensures
        spec_dns_policy_type_from_name(spec_dns_policy_type_name(t)) == t,
        spec_dns_policy_type_from_name(n) == DnsPolicyType::ARecord <==> n == "A"@,
        spec_dns_policy_type_from_name(n) == DnsPolicyType::AaaaRecord <==> n == "AAAA"@,
        spec_dns_policy_type_from_name(n) == DnsPolicyType::CnameRecord <==> n == "CNAME"@,
        spec_dns_policy_type_from_name(n) == DnsPolicyType::MxRecord <==> n == "MX"@,
        spec_dns_policy_type_from_name(n) == DnsPolicyType::TxtRecord <==> n == "TXT"@,
        spec_dns_policy_type_from_name(n) == DnsPolicyType::SrvRecord <==> n == "SRV"@,
{
    reveal_strlit("A");
    reveal_strlit("AAAA");
    reveal_strlit("CNAME");
    reveal_strlit("MX");
    reveal_strlit("TXT");
    reveal_strlit("SRV");
    reveal_strlit("FORWARD_DOMAIN");
    assert("A"@.len() == 1 && "AAAA"@.len() == 4 && "CNAME"@.len() == 5 && "MX"@.len() == 2);
    assert("TXT"@.len() == 3 && "SRV"@.len() == 3 && "FORWARD_DOMAIN"@.len() == 14);
    assert("TXT"@[0] != "SRV"@[0]);
}

} // verus!
