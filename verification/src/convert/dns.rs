//! DNS policies as the Integration API describes them.
use vstd::prelude::*;

use crate::convert::helpers::{origin_from_metadata, spec_origin_from_metadata};
use crate::integration::DnsPolicyResponse;
use crate::json::{as_str, as_u64, jstr, ju64, jview_members, mget, obj_lookup, JView, JsonValue};
use crate::model::dns::{DnsPolicy, DnsPolicyType};
use crate::model::entity::{integration_id_text, integration_uuid, DataSource, EntityId};
use crate::payloads::dns::{
    create_member, dns_policy_type_from_name, either, lemma_dns_keys_distinct, spec_dns_policy_type_from_name,
    update_input, update_member, DnsRecordInput,
};
use crate::requests::dns::UpdateDnsPolicyRequest;
use crate::text::{decimal, is_empty_text, join, join_seqs, owned, push_str, string_views, u64_to_decimal};

verus! {

/// Text of member `k`, empty when it has none.
pub open spec fn text_or_empty(m: Seq<(Seq<char>, JView)>, k: Seq<char>) -> Seq<char> {
    match jstr(mget(m, k)) {
        Some(s) => s,
        None => Seq::empty(),
    }
}

/// `parts` followed by `name=n` when `n` is given.
pub open spec fn with_number(parts: Seq<Seq<char>>, name: Seq<char>, n: Option<u64>) -> Seq<Seq<char>> {
    match n {
        Some(v) => parts.push(name + "="@ + decimal(v as nat)),
        None => parts,
    }
}

/// The pieces of an SRV record's value: its server, its service and
/// protocol, then its port, priority and weight, each where present.
pub open spec fn srv_parts(m: Seq<(Seq<char>, JView)>) -> Seq<Seq<char>> {
    let server = text_or_empty(m, "serverDomain"@);
    let service = text_or_empty(m, "service"@);
    let protocol = text_or_empty(m, "protocol"@);
    let p0 = if server.len() > 0 {
        seq![server]
    } else {
        Seq::empty()
    };
    let p1 = if service.len() > 0 || protocol.len() > 0 {
        p0.push("service="@ + service + protocol)
    } else {
        p0
    };
    let p2 = with_number(p1, "port"@, ju64(mget(m, "port"@)));
    let p3 = with_number(p2, "priority"@, ju64(mget(m, "priority"@)));
    with_number(p3, "weight"@, ju64(mget(m, "weight"@)))
}

/// The value of a DNS record, read from the fields its type defines.
pub open spec fn spec_dns_value(t: DnsPolicyType, m: Seq<(Seq<char>, JView)>) -> Seq<char> {
    match t {
        DnsPolicyType::ARecord => text_or_empty(m, "ipv4Address"@),
        DnsPolicyType::AaaaRecord => text_or_empty(m, "ipv6Address"@),
        DnsPolicyType::CnameRecord => text_or_empty(m, "targetDomain"@),
        DnsPolicyType::MxRecord => text_or_empty(m, "mailServerDomain"@),
        DnsPolicyType::TxtRecord => text_or_empty(m, "text"@),
        DnsPolicyType::SrvRecord => join_seqs(srv_parts(m), " "@),
        DnsPolicyType::ForwardDomain => text_or_empty(m, "ipAddress"@),
    }
}

fn member_text(extra: &Vec<(String, JsonValue)>, key: &str) -> (res: String)
    ensures
        res@ == text_or_empty(jview_members(extra@), key@),
{
    proof {
        reveal_strlit("");
    }
    match as_str(obj_lookup(extra, key)) {
        Some(s) => owned(s),
        None => owned(""),
    }
}

fn push_number(parts: &mut Vec<String>, name: &str, n: Option<u64>)
    ensures
        string_views(final(parts)@) == with_number(string_views(old(parts)@), name@, n),
{
    if let Some(v) = n {
        let mut s = owned(name);
        push_str(&mut s, "=");
        let d = u64_to_decimal(v);
        push_str(&mut s, d.as_str());
        let ghost before = parts@;
        parts.push(s);
        assert(string_views(parts@) =~= string_views(before).push(s@));
    }
}

/// The value of a DNS record (see [`spec_dns_value`]).
pub fn dns_value_from_extra(policy_type: DnsPolicyType, extra: &Vec<(String, JsonValue)>) -> (res: String)
    ensures
        res@ == spec_dns_value(policy_type, jview_members(extra@)),
{
    match policy_type {
        DnsPolicyType::ARecord => member_text(extra, "ipv4Address"),
        DnsPolicyType::AaaaRecord => member_text(extra, "ipv6Address"),
        DnsPolicyType::CnameRecord => member_text(extra, "targetDomain"),
        DnsPolicyType::MxRecord => member_text(extra, "mailServerDomain"),
        DnsPolicyType::TxtRecord => member_text(extra, "text"),
        DnsPolicyType::SrvRecord => {
            let server = member_text(extra, "serverDomain");
            let service = member_text(extra, "service");
            let protocol = member_text(extra, "protocol");
            let mut parts: Vec<String> = Vec::new();
            if !is_empty_text(server.as_str()) {
                parts.push(server);
                assert(string_views(parts@) =~= seq![text_or_empty(jview_members(extra@), "serverDomain"@)]);
            } else {
                assert(string_views(parts@) =~= Seq::<Seq<char>>::empty());
            }
            if !is_empty_text(service.as_str()) || !is_empty_text(protocol.as_str()) {
                let mut s = owned("service=");
                push_str(&mut s, service.as_str());
                push_str(&mut s, protocol.as_str());
                let ghost before = parts@;
                parts.push(s);
                assert(string_views(parts@) =~= string_views(before).push(s@));
            }
            push_number(&mut parts, "port", as_u64(obj_lookup(extra, "port")));
            push_number(&mut parts, "priority", as_u64(obj_lookup(extra, "priority")));
            push_number(&mut parts, "weight", as_u64(obj_lookup(extra, "weight")));
            join(&parts, " ")
        },
        DnsPolicyType::ForwardDomain => member_text(extra, "ipAddress"),
    }
}

/// TTL of a record: its `ttlSeconds` truncated to 32 bits.
pub open spec fn spec_ttl(m: Seq<(Seq<char>, JView)>) -> Option<u32> {
    match ju64(mget(m, "ttlSeconds"@)) {
        Some(t) => Some(t as u32),
        None => None,
    }
}

/// The DNS policy a policy record describes.
pub fn dns_policy_from_response(d: DnsPolicyResponse) -> (res: DnsPolicy)
    ensures
        res.id is Uuid && res.id.text() == integration_id_text(d.id@),
        res.policy_type == spec_dns_policy_type_from_name(d.policy_type@),
        res.domain@ == match d.domain {
            Some(s) => s@,
            None => Seq::<char>::empty(),
        },
        res.value@ == spec_dns_value(res.policy_type, jview_members(d.extra@)),
        res.ttl_seconds == spec_ttl(jview_members(d.extra@)),
        res.origin == spec_origin_from_metadata(d.metadata@),
        res.source == DataSource::IntegrationApi,
{
    proof {
        reveal_strlit("");
    }
    let policy_type = dns_policy_type_from_name(d.policy_type.as_str());
    let value = dns_value_from_extra(policy_type, &d.extra);
    let ttl_seconds = match as_u64(obj_lookup(&d.extra, "ttlSeconds")) {
        Some(t) => Some(t as u32),
        None => None,
    };
    let origin = origin_from_metadata(&d.metadata);
    let domain = match d.domain {
        Some(s) => s,
        None => owned(""),
    };
    DnsPolicy { id: integration_uuid(d.id), policy_type, domain, value, ttl_seconds, origin, source: DataSource::IntegrationApi }
}

/// The main value a record input writes for a policy of type `t`: its
/// type's own field, else the generic value (for forwarding, the address,
/// else the upstream, else the value).
pub open spec fn written_value(t: DnsPolicyType, i: DnsRecordInput) -> Option<Seq<char>> {
    match t {
        DnsPolicyType::ARecord => either(i.ipv4_address, i.value),
        DnsPolicyType::AaaaRecord => either(i.ipv6_address, i.value),
        DnsPolicyType::CnameRecord => either(i.target_domain, i.value),
        DnsPolicyType::MxRecord => either(i.mail_server_domain, i.value),
        DnsPolicyType::TxtRecord => either(i.text, i.value),
        DnsPolicyType::SrvRecord => either(i.server_domain, i.value),
        DnsPolicyType::ForwardDomain => either(i.ip_address, either(i.upstream, i.value)),
    }
}

/// The TTL a record input writes: A, AAAA and CNAME records carry one.
pub open spec fn written_ttl(t: DnsPolicyType, i: DnsRecordInput) -> Option<u32> {
    match t {
        DnsPolicyType::ARecord | DnsPolicyType::AaaaRecord | DnsPolicyType::CnameRecord => i.ttl_seconds,
        _ => None,
    }
}

/// What a create call writes for a DNS record reads back: from the fields of
/// a created policy, the reader recovers the record's value (for every type
/// but SRV, whose value the reader composes from several fields) and its TTL.
pub proof fn lemma_dns_create_read_back(
    t: DnsPolicyType,
    i: DnsRecordInput,
    d: Seq<char>,
    m: Seq<(Seq<char>, JView)>,
)
    requires
        forall|k: Seq<char>| #[trigger] mget(m, k) == create_member(t, i, d, k),
    ensures
        t != DnsPolicyType::SrvRecord ==> spec_dns_value(t, m) == match written_value(t, i) {
            Some(v) => v,
            None => Seq::<char>::empty(),
        },
        spec_ttl(m) == written_ttl(t, i),
{
    lemma_dns_keys_distinct();
    assert(mget(m, "ipv4Address"@) == create_member(t, i, d, "ipv4Address"@));
    assert(mget(m, "ipv6Address"@) == create_member(t, i, d, "ipv6Address"@));
    assert(mget(m, "targetDomain"@) == create_member(t, i, d, "targetDomain"@));
    assert(mget(m, "mailServerDomain"@) == create_member(t, i, d, "mailServerDomain"@));
    assert(mget(m, "text"@) == create_member(t, i, d, "text"@));
    assert(mget(m, "ipAddress"@) == create_member(t, i, d, "ipAddress"@));
    assert(mget(m, "ttlSeconds"@) == create_member(t, i, d, "ttlSeconds"@));
    match i.ttl_seconds {
        Some(n) => {
            assert((n as u64) as u32 == n);
        },
        None => {},
    }
}

/// What an update writes for a DNS record reads back, and what it leaves
/// unset reads as before: from the fields of an updated policy, the reader
/// recovers the update's value (for every type but SRV) and TTL where the
/// update gives them, else the stored ones.
pub proof fn lemma_dns_update_read_back(
    existing: DnsPolicyResponse,
    update: UpdateDnsPolicyRequest,
    m: Seq<(Seq<char>, JView)>,
)
    requires
        forall|k: Seq<char>| #[trigger] mget(m, k) == update_member(existing, update, k),
    ensures
        ({
            let t = spec_dns_policy_type_from_name(existing.policy_type@);
            let stored = jview_members(existing.extra@);
            &&& t != DnsPolicyType::SrvRecord ==> spec_dns_value(t, m) == match written_value(t, update_input(update)) {
                Some(v) => v,
                None => spec_dns_value(t, stored),
            }
            &&& spec_ttl(m) == match written_ttl(t, update_input(update)) {
                Some(n) => Some(n),
                None => spec_ttl(stored),
            }
        }),
{
    lemma_dns_keys_distinct();
    let t = spec_dns_policy_type_from_name(existing.policy_type@);
    assert(mget(m, "ipv4Address"@) == update_member(existing, update, "ipv4Address"@));
    assert(mget(m, "ipv6Address"@) == update_member(existing, update, "ipv6Address"@));
    assert(mget(m, "targetDomain"@) == update_member(existing, update, "targetDomain"@));
    assert(mget(m, "mailServerDomain"@) == update_member(existing, update, "mailServerDomain"@));
    assert(mget(m, "text"@) == update_member(existing, update, "text"@));
    assert(mget(m, "ipAddress"@) == update_member(existing, update, "ipAddress"@));
    assert(mget(m, "ttlSeconds"@) == update_member(existing, update, "ttlSeconds"@));
    match update.ttl_seconds {
        Some(n) => {
            assert((n as u64) as u32 == n);
        },
        None => {},
    }
}

} // verus!
