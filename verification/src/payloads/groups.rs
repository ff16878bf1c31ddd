//! Session API firewall groups: the body of a new group and of an update
//! merged into the stored record.
use vstd::prelude::*;

use crate::error::{CoreError, ErrorView};
use crate::json::{
    as_str, clone_members, get, jget, jstr, jview_members, lemma_jview_members, mget, obj_set, str_array, string_array,
    JView, JsonValue,
};
use crate::model::firewall::FirewallGroupType;
use crate::payloads::nat_rules::rule_slot;
use crate::ports::overrides::object_members;
use crate::text::{opt_str_view, owned, str_eq, string_views};

verus! {

/// The create call for a firewall group: its name, type and members.
pub fn firewall_group_create_body(name: &str, group_type: FirewallGroupType, members: &Vec<String>) -> (res: JsonValue)
    ensures
        res@ == JView::Object(
            seq![
                ("name"@, JView::Str(name@)),
                ("group_type"@, JView::Str(group_type.spec_name())),
                ("group_members"@, str_array(string_views(members@))),
            ],
        ),
{
    let list = string_array(members);
    let entries = vec![
        (owned("name"), JsonValue::Str(owned(name))),
        (owned("group_type"), JsonValue::Str(owned(group_type.display_name()))),
        (owned("group_members"), list),
    ];
    proof {
        lemma_jview_members(entries@);
    }
    assert(jview_members(entries@) =~= seq![
        ("name"@, JView::Str(name@)),
        ("group_type"@, JView::Str(group_type.spec_name())),
        ("group_members"@, str_array(string_views(members@))),
    ]);
    JsonValue::Object(entries)
}

/// Member `k` of an updated group record: the new name or members where
/// given, else the stored member.
pub open spec fn updated_group_member(
    stored: Seq<(Seq<char>, JView)>,
    k: Seq<char>,
    name: Option<Seq<char>>,
    members: Option<Seq<Seq<char>>>,
) -> Option<JView> {
    if k == "name"@ && name is Some {
        Some(JView::Str(name->Some_0))
    } else if k == "group_members"@ && members is Some {
        Some(str_array(members->Some_0))
    } else {
        mget(stored, k)
    }
}

/// The update call for the firewall group whose record `_id` is
/// `record_id` among the stored `groups`: the stored record with the new
/// name and members where given; `NotFound` when no record has that id.
pub fn firewall_group_update_body(
    groups: &Vec<JsonValue>,
    record_id: &str,
    name: Option<&str>,
    members: Option<&Vec<String>>,
) -> (res: Result<JsonValue, CoreError>)
    ensures
        match rule_slot(groups@, record_id@) {
            Some(i) => res matches Ok(v) && v@ matches JView::Object(m) && forall|k: Seq<char>| #[trigger] mget(m, k)
                == updated_group_member(
                object_members(groups@[i]@),
                k,
                opt_str_view(name),
                match members {
                    Some(l) => Some(string_views(l@)),
                    None => None,
                },
            ),
            None => res matches Err(e) && e@ == ErrorView::NotFound("firewall group"@, record_id@),
        },
{
    let i = match crate::payloads::nat_rules::find_record(groups, record_id, "firewall group") {
        Ok(i) => i,
        Err(e) => {
            return Err(e);
        },
    };
    let mut body = match &groups[i] {
        JsonValue::Object(m) => clone_members(m),
        _ => {
            // The record found has an `_id` member, so it is an object.
            assert(jget(groups@[i as int]@, "_id"@) is None);
            Vec::new()
        },
    };
    let ghost stored = jview_members(body@);
    assert(stored == object_members(groups@[i as int]@));
    let ghost mv = match members {
        Some(l) => Some(string_views(l@)),
        None => None,
    };
    if let Some(n) = name {
        obj_set(&mut body, owned("name"), JsonValue::Str(owned(n)));
    }
    let ghost mid = jview_members(body@);
    assert forall|k: Seq<char>| #[trigger] mget(mid, k) == (if k == "name"@ && name is Some {
        Some(JView::Str(opt_str_view(name)->Some_0))
    } else {
        mget(stored, k)
    }) by {
        reveal_strlit("name");
    }
    match members {
        Some(l) => {
            let list = string_array(l);
            let ghost lv = list@;
            obj_set(&mut body, owned("group_members"), list);
            assert forall|k: Seq<char>| #[trigger] mget(jview_members(body@), k) == updated_group_member(
                stored,
                k,
                opt_str_view(name),
                mv,
            ) by {
                reveal_strlit("name");
                reveal_strlit("group_members");
                if k == "group_members"@ {
                    assert(mget(jview_members(body@), k) == Some(lv));
                    assert("group_members"@.len() == 13 && "name"@.len() == 4);
                    assert(mv == Some(string_views(l@)));
                    assert(lv == str_array(string_views(l@)));
                } else {
                    assert(mget(jview_members(body@), k) == mget(mid, k));
                }
            }
        },
        None => {
            assert forall|k: Seq<char>| #[trigger] mget(jview_members(body@), k) == updated_group_member(
                stored,
                k,
                opt_str_view(name),
                mv,
            ) by {
                reveal_strlit("name");
                reveal_strlit("group_members");
                assert(mget(jview_members(body@), k) == mget(mid, k));
            }
        },
    }
    Ok(JsonValue::Object(body))
}

} // verus!
