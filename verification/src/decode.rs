//! Trusted decoding of notification payloads.
//!
//! The engine's payloads are JSON documents; decoding them is delegated to
//! serde_json, a collaborator the bridge does not reimplement. Each decoder
//! here extracts the fields of one documented wire schema into plain values.
//! A decoder's result depends on the payload text alone, so each is
//! specified by an uninterpreted name for that function of the text; all
//! verified logic over the decoded values takes them as arguments and is
//! proved for every value they could be.

use vstd::prelude::*;
use serde_json::Value;
use crate::correlation::RetValue;
use crate::events::{
    AsyncCallInfo, AsyncCallInfoDetails, ConnectionInfo, ConnectionInfoDetails, DropItem,
    InitFailed, Operator, RecruitResult, TaskChainInfo,
};

verus! {

/// What `decode_async_call_info` yields on each payload text.
pub uninterp spec fn spec_decode_async_call_info(s: Seq<char>) -> Option<AsyncCallInfo>;

/// What `decode_connection_info` yields on each payload text.
pub uninterp spec fn spec_decode_connection_info(s: Seq<char>) -> Option<ConnectionInfo>;

/// What `decode_init_failed` yields on each payload text.
pub uninterp spec fn spec_decode_init_failed(s: Seq<char>) -> Option<InitFailed>;

/// What `decode_recruit_results` yields on each payload text.
pub uninterp spec fn spec_decode_recruit_results(s: Seq<char>) -> Option<Vec<RecruitResult>>;

/// What `decode_drops` yields on each payload text.
pub uninterp spec fn spec_decode_drops(s: Seq<char>) -> Option<Vec<DropItem>>;

/// What `decode_task_chain` yields on each payload text.
pub uninterp spec fn spec_decode_task_chain(s: Seq<char>) -> Option<TaskChainInfo>;

/// Relies on serde_json (`from_str` and the `Value` accessors) to decode an
/// `AsyncCallInfo` payload `{uuid, what, async_call_id, details: {ret,
/// cost}}`; a boolean `ret` is kept as a boolean, any other value as its raw
/// JSON text. The result is a function of the payload text alone.
#[verifier::external_body]
pub fn decode_async_call_info(s: &str) -> (r: Option<AsyncCallInfo>)
    ensures
        r == spec_decode_async_call_info(s@),
{
    let v: Value = serde_json::from_str(s).ok()?;
    let d = v.get("details")?;
    let ret = match d.get("ret")? {
        Value::Bool(b) => RetValue::Bool(*b),
        other => RetValue::Raw(other.to_string()),
    };
    Some(AsyncCallInfo {
        uuid: v.get("uuid")?.as_str()?.to_owned(),
        what: v.get("what")?.as_str()?.to_owned(),
        async_call_id: i32::try_from(v.get("async_call_id")?.as_i64()?).ok()?,
        details: AsyncCallInfoDetails { ret, cost: i32::try_from(d.get("cost")?.as_i64()?).ok()? },
    })
}

/// Relies on serde_json to decode a `ConnectionInfo` payload `{what, why?,
/// uuid, details: {adb, address, config, width?, height?}}`. The result is a
/// function of the payload text alone.
#[verifier::external_body]
pub fn decode_connection_info(s: &str) -> (r: Option<ConnectionInfo>)
    ensures
        r == spec_decode_connection_info(s@),
{
    let v: Value = serde_json::from_str(s).ok()?;
    let d = v.get("details")?;
    Some(ConnectionInfo {
        what: v.get("what")?.as_str()?.to_owned(),
        why: v.get("why").and_then(Value::as_str).map(str::to_owned),
        uuid: v.get("uuid")?.as_str()?.to_owned(),
        details: ConnectionInfoDetails {
            adb: d.get("adb")?.as_str()?.to_owned(),
            address: d.get("address")?.as_str()?.to_owned(),
            config: d.get("config")?.as_str()?.to_owned(),
            height: d.get("height").and_then(Value::as_i64),
            width: d.get("width").and_then(Value::as_i64),
        },
    })
}

/// Relies on serde_json to decode an `InitFailed` payload `{what, why,
/// details}`, keeping the free-form `details` as its raw JSON text. The
/// result is a function of the payload text alone.
#[verifier::external_body]
pub fn decode_init_failed(s: &str) -> (r: Option<InitFailed>)
    ensures
        r == spec_decode_init_failed(s@),
{
    let v: Value = serde_json::from_str(s).ok()?;
    Some(InitFailed {
        what: v.get("what")?.as_str()?.to_owned(),
        why: v.get("why")?.as_str()?.to_owned(),
        details: v.get("details")?.to_string(),
    })
}

/// Relies on serde_json to decode the recruitment variant of a
/// `SubTaskExtraInfo` payload: the `details.result` array of `{level,
/// opers: [{name, level}], tags: [string]}` objects. The result is a
/// function of the payload text alone.
#[verifier::external_body]
pub fn decode_recruit_results(s: &str) -> (r: Option<Vec<RecruitResult>>)
    ensures
        r == spec_decode_recruit_results(s@),
{
    let v: Value = serde_json::from_str(s).ok()?;
    v.pointer("/details/result")?.as_array()?.iter().map(|rv| Some(RecruitResult {
        level: rv.get("level")?.as_i64()?,
        opers: rv.get("opers")?.as_array()?.iter().map(|o| Some(Operator {
            level: o.get("level").and_then(Value::as_i64).unwrap_or(0),
            name: o.get("name")?.as_str()?.to_owned(),
        })).collect::<Option<_>>()?,
        tags: rv.get("tags")?.as_array()?.iter().map(|t| Some(t.as_str()?.to_owned())).collect::<Option<_>>()?,
    })).collect()
}

/// Relies on serde_json to decode a task-chain notification `{taskchain,
/// taskid, uuid}`. The result is a function of the payload text alone.
#[verifier::external_body]
pub fn decode_task_chain(s: &str) -> (r: Option<TaskChainInfo>)
    ensures
        r == spec_decode_task_chain(s@),
{
    let v: Value = serde_json::from_str(s).ok()?;
    Some(TaskChainInfo {
        taskchain: v.get("taskchain")?.as_str()?.to_owned(),
        taskid: v.get("taskid")?.as_i64()?,
        uuid: v.get("uuid")?.as_str()?.to_owned(),
    })
}

/// Relies on serde_json to decode the battle-drop variant of a
/// `SubTaskExtraInfo` payload: the `details.drops` array of `{item_id,
/// item_name, quantity}` objects. The result is a function of the payload
/// text alone.
#[verifier::external_body]
pub fn decode_drops(s: &str) -> (r: Option<Vec<DropItem>>)
    ensures
        r == spec_decode_drops(s@),
{
    let v: Value = serde_json::from_str(s).ok()?;
    let to_drop = |dv: &Value| Some(DropItem {
        item_id: dv.get("item_id")?.as_str()?.to_owned(),
        item_name: dv.get("item_name")?.as_str()?.to_owned(),
        quantity: dv.get("quantity")?.as_i64()?,
    });
    v.get("details")?.get("drops")?.as_array()?.iter().map(to_drop).collect()
}

} // verus!
