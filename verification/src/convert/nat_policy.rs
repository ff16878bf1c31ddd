//! NAT policies from both API surfaces.
use vstd::prelude::*;

use crate::convert::helpers::{origin_from_metadata, spec_origin_from_metadata};
use crate::integration::NatPolicyResponse;
use crate::json::{as_bool, as_str, deref_opt, get, get_opt, jbool, jget, jget_opt, jstr, JView, JsonValue};
use crate::model::entity::{integration_id_text, integration_uuid, is_entity_id_of, DataSource, EntityId};
use crate::model::firewall::{NatPolicy, NatType};
use crate::text::{opt_view, owned, str_eq};

verus! {

/// NAT type of an Integration API policy type.
pub open spec fn integration_nat_type(t: Seq<char>) -> NatType {
    if t == "MASQUERADE"@ {
        NatType::Masquerade
    } else if t == "SOURCE_NAT"@ {
        NatType::Source
    } else {
        NatType::Destination
    }
}

/// NAT type of a Session API rule type (a missing type is destination NAT).
pub open spec fn session_nat_type(t: Option<Seq<char>>) -> NatType {
    if t == Some("MASQUERADE"@) {
        NatType::Masquerade
    } else if t == Some("SNAT"@) {
        NatType::Source
    } else {
        NatType::Destination
    }
}

/// View of an optional value.
pub open spec fn opt_jview(v: Option<JsonValue>) -> Option<JView> {
    match v {
        Some(x) => Some(x@),
        None => None,
    }
}

/// Text member `key` of an optional filter object.
pub open spec fn filter_text(filter: Option<JView>, key: Seq<char>) -> Option<Seq<char>> {
    jstr(jget_opt(filter, key))
}

fn text_of(v: Option<&JsonValue>) -> (res: Option<String>)
    ensures
        opt_view(res) == jstr(deref_opt(v)),
{
    match as_str(v) {
        Some(s) => Some(owned(s)),
        None => None,
    }
}

/// The NAT policy an Integration API response describes.
pub fn nat_policy_from_response(r: NatPolicyResponse) -> (p: NatPolicy)
    ensures
        p.id is Uuid && p.id.text() == integration_id_text(r.id@),
        p.name == r.name,
        p.description == r.description,
        p.enabled == r.enabled,
        p.nat_type == integration_nat_type(r.nat_type@),
        match r.interface_id {
            Some(i) => p.interface_id matches Some(x) && x is Uuid && x.text() == integration_id_text(i@),
            None => p.interface_id is None,
        },
        p.protocol == r.protocol,
        opt_view(p.src_address) == filter_text(opt_jview(r.source), "address"@),
        opt_view(p.src_port) == filter_text(opt_jview(r.source), "port"@),
        opt_view(p.dst_address) == filter_text(opt_jview(r.destination), "address"@),
        opt_view(p.dst_port) == filter_text(opt_jview(r.destination), "port"@),
        p.translated_address == r.translated_address,
        p.translated_port == r.translated_port,
        p.origin == match r.metadata {
            Some(m) => spec_origin_from_metadata(m@),
            None => None,
        },
        p.data_source == DataSource::IntegrationApi,
{
    let nat_type = if str_eq(r.nat_type.as_str(), "MASQUERADE") {
        NatType::Masquerade
    } else if str_eq(r.nat_type.as_str(), "SOURCE_NAT") {
        NatType::Source
    } else {
        NatType::Destination
    };
    let src_address = text_of(get_opt(r.source.as_ref(), "address"));
    let src_port = text_of(get_opt(r.source.as_ref(), "port"));
    let dst_address = text_of(get_opt(r.destination.as_ref(), "address"));
    let dst_port = text_of(get_opt(r.destination.as_ref(), "port"));
    let origin = match &r.metadata {
        Some(m) => origin_from_metadata(m),
        None => None,
    };
    NatPolicy {
        id: integration_uuid(r.id),
        name: r.name,
        description: r.description,
        enabled: r.enabled,
        nat_type,
        interface_id: match r.interface_id {
            Some(i) => Some(integration_uuid(i)),
            None => None,
        },
        protocol: r.protocol,
        src_address,
        src_port,
        dst_address,
        dst_port,
        translated_address: r.translated_address,
        translated_port: r.translated_port,
        origin,
        data_source: DataSource::IntegrationApi,
    }
}

/// `p` is the NAT policy a Session API (v2) rule `v` describes.
pub open spec fn is_nat_from_v2(p: NatPolicy, v: JView) -> bool {
    let src = jget(v, "source_filter"@);
    let dst = jget(v, "destination_filter"@);
    let iface = match jget(v, "in_interface"@) {
        Some(x) => jstr(Some(x)),
        None => jstr(jget(v, "out_interface"@)),
    };
    &&& jstr(jget(v, "_id"@)) matches Some(id) && is_entity_id_of(p.id, id)
    &&& p.name@ == match jstr(jget(v, "description"@)) {
        Some(d) => d,
        None => Seq::empty(),
    }
    &&& p.description is None
    &&& p.enabled == (jbool(jget(v, "enabled"@)) == Some(true))
    &&& p.nat_type == session_nat_type(jstr(jget(v, "type"@)))
    &&& match iface {
        Some(i) => p.interface_id matches Some(x) && is_entity_id_of(x, i),
        None => p.interface_id is None,
    }
    &&& opt_view(p.protocol) == jstr(jget(v, "protocol"@))
    &&& opt_view(p.src_address) == filter_text(src, "address"@)
    &&& opt_view(p.src_port) == filter_text(src, "port"@)
    &&& opt_view(p.dst_address) == filter_text(dst, "address"@)
    &&& opt_view(p.dst_port) == filter_text(dst, "port"@)
    &&& opt_view(p.translated_address) == jstr(jget(v, "ip_address"@))
    &&& opt_view(p.translated_port) == jstr(jget(v, "port"@))
    &&& p.origin is None
    &&& p.data_source == DataSource::SessionApi
}

/// The NAT policy a Session API (v2) rule describes; `None` without an `_id`.
pub fn nat_policy_from_v2(v: &JsonValue) -> (res: Option<NatPolicy>)
    ensures
        match res {
            Some(p) => is_nat_from_v2(p, v@),
            None => jstr(jget(v@, "_id"@)) is None,
        },
{
    let id_str = match as_str(get(v, "_id")) {
        Some(s) => s,
        None => {
            return None;
        },
    };
    let type_text = as_str(get(v, "type"));
    let nat_type = match type_text {
        Some(t) => if str_eq(t, "MASQUERADE") {
            NatType::Masquerade
        } else if str_eq(t, "SNAT") {
            NatType::Source
        } else {
            NatType::Destination
        },
        None => NatType::Destination,
    };
    let src = get(v, "source_filter");
    let dst = get(v, "destination_filter");
    let iface = match get(v, "in_interface") {
        Some(x) => as_str(Some(x)),
        None => as_str(get(v, "out_interface")),
    };
    Some(
        NatPolicy {
            id: EntityId::from_text(owned(id_str)),
            name: match as_str(get(v, "description")) {
                Some(d) => owned(d),
                None => String::new(),
            },
            description: None,
            enabled: as_bool(get(v, "enabled")) == Some(true),
            nat_type,
            interface_id: match iface {
                Some(i) => Some(EntityId::from_text(owned(i))),
                None => None,
            },
            protocol: text_of(get(v, "protocol")),
            src_address: text_of(get_opt(src, "address")),
            src_port: text_of(get_opt(src, "port")),
            dst_address: text_of(get_opt(dst, "address")),
            dst_port: text_of(get_opt(dst, "port")),
            translated_address: text_of(get(v, "ip_address")),
            translated_port: text_of(get(v, "port")),
            origin: None,
            data_source: DataSource::SessionApi,
        },
    )
}


/// NAT types by name: `MASQUERADE` masquerades and `SOURCE_NAT` (in the
/// Session API, `SNAT`) is source NAT; every other name, and a missing
/// Session API type, is destination NAT.
pub proof fn lemma_nat_type_by_name(t: Seq<char>, o: Option<Seq<char>>)
    ensures
        integration_nat_type(t) == NatType::Masquerade <==> t == "MASQUERADE"@,
        integration_nat_type(t) == NatType::Source <==> t == "SOURCE_NAT"@,
        session_nat_type(o) == NatType::Masquerade <==> o == Some("MASQUERADE"@),
        session_nat_type(o) == NatType::Source <==> o == Some("SNAT"@),
{
    reveal_strlit("MASQUERADE");
    reveal_strlit("SOURCE_NAT");
    reveal_strlit("SNAT");
    assert("MASQUERADE"@[0] != "SOURCE_NAT"@[0]);
    assert("MASQUERADE"@.len() == 10 && "SNAT"@.len() == 4);
}

} // verus!
