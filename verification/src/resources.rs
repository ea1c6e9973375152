//! The item metadata index read from the resources directory.
//!
//! The index file maps each item identifier to its display metadata. It must
//! exist under the resources directory when a connection is built; a missing
//! or malformed index aborts construction.

use vstd::prelude::*;
use serde_json::Value;

verus! {

/// Metadata for one item, as the index file records it.
pub struct Item {
    pub classify_type: String,
    pub description: Option<String>,
    pub icon: String,
    pub name: String,
    pub sort_id: i64,
    pub usage: Option<String>,
}

/// The decoded item index: identifier/metadata pairs in file order.
pub type ItemMap = Vec<(String, Item)>;

/// What `parse_item_map` yields on each index text.
pub uninterp spec fn spec_parse_item_map(s: Seq<char>) -> Option<ItemMap>;

/// Relies on serde_json to decode the item index: a JSON object mapping each
/// item identifier to `{classifyType, description?, icon, name, sortId,
/// usage?}`. The result is a function of the index text alone.
#[verifier::external_body]
pub fn parse_item_map(s: &str) -> (r: Option<ItemMap>)
    ensures
        r == spec_parse_item_map(s@),
{
    let v: Value = serde_json::from_str(s).ok()?;
    v.as_object()?.iter().map(|(k, iv)| Some((k.clone(), Item {
        classify_type: iv.get("classifyType")?.as_str()?.to_owned(),
        description: iv.get("description").and_then(Value::as_str).map(str::to_owned),
        icon: iv.get("icon")?.as_str()?.to_owned(),
        name: iv.get("name")?.as_str()?.to_owned(),
        sort_id: iv.get("sortId")?.as_i64()?,
        usage: iv.get("usage").and_then(Value::as_str).map(str::to_owned),
    }))).collect()
}

} // verus!
