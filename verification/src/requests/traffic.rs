//! Traffic matching list requests.
use vstd::prelude::*;

use crate::json::JsonValue;
use crate::text::owned;

verus! {

/// Request to create a traffic matching list.
#[derive(Debug, PartialEq, Eq)]
pub struct CreateTrafficMatchingListRequest {
    pub name: String,
    pub list_type: String,
    pub entries: Vec<String>,
    pub raw_items: Option<Vec<JsonValue>>,
    pub description: Option<String>,
}

/// Request to update a traffic matching list; unset fields stay as they are.
#[derive(Debug, Default, PartialEq, Eq)]
pub struct UpdateTrafficMatchingListRequest {
    pub name: Option<String>,
    pub entries: Option<Vec<String>>,
    pub raw_items: Option<Vec<JsonValue>>,
    pub description: Option<String>,
}

/// Default type of a traffic matching list: `IPV4`.
pub fn default_traffic_list_type() -> (res: String)
    ensures
        res@ == "IPV4"@,
{
    owned("IPV4")
}

} // verus!
