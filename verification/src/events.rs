//! Typed events decoded from the engine's notification payloads.
//!
//! Every callback invocation carries a message kind and a JSON document.
//! The structs here are the decoded forms of the documents the bridge acts
//! on; the pure decision logic over them (classifying a connection
//! notification, summarising a recruitment result) is verified here, while
//! the JSON decoding itself sits behind the trusted functions in `decode`.

use vstd::prelude::*;
use crate::correlation::{CorrelationTable, RetValue};
use crate::decode::{
    decode_drops, decode_init_failed, decode_recruit_results, decode_task_chain, spec_decode_drops,
    spec_decode_init_failed, spec_decode_recruit_results, spec_decode_task_chain,
};
use crate::jsontext::{dec_i64, dec_u64, spec_dec, spec_dec_i64};
use crate::msg::{spec_msg_code, AsstMsg};
use crate::strutil::{join, spec_join, str_eq};

verus! {

/// A notification as it leaves the adapter: its classified kind and the raw
/// JSON payload text, still undecoded.
pub struct Events {
    pub kind: AsstMsg,
    pub params: String,
}

/// The payload of an `AsyncCallInfo` notification:
/// `{uuid, what, async_call_id, details: {ret, cost}}`.
pub struct AsyncCallInfo {
    pub uuid: String,
    pub what: String,
    pub async_call_id: i32,
    pub details: AsyncCallInfoDetails,
}

/// The `details` object of an `AsyncCallInfo` notification.
pub struct AsyncCallInfoDetails {
    pub ret: RetValue,
    pub cost: i32,
}

/// The payload of a `ConnectionInfo` notification:
/// `{what, why?, uuid, details: {adb, address, config, width?, height?}}`.
pub struct ConnectionInfo {
    pub what: String,
    pub why: Option<String>,
    pub uuid: String,
    pub details: ConnectionInfoDetails,
}

/// The `details` object of a `ConnectionInfo` notification.
pub struct ConnectionInfoDetails {
    pub adb: String,
    pub address: String,
    pub config: String,
    pub height: Option<i64>,
    pub width: Option<i64>,
}

/// The payload of an `InitFailed` notification: `{what, why, details}`,
/// with the free-form `details` kept as its raw JSON text.
pub struct InitFailed {
    pub what: String,
    pub why: String,
    pub details: String,
}

/// What a `ConnectionInfo` notification reports.
#[derive(Debug, Clone, Copy, PartialEq, Eq, Structural)]
pub enum ConnectionInfoWhat {
    ConnectFailed,
    Connected,
    UuidGot,
    UnsupportedResolution,
    ResolutionError,
    Reconnecting,
    Reconnected,
    Disconnect,
    ScreencapFailed,
    TouchModeNotAvailable,
    ResolutionGot,
    Unknown,
}

/// The classification of a `ConnectionInfo` notification's `what` field:
/// each documented tag maps to its own variant, anything else to `Unknown`.
pub open spec fn spec_connection_info_what(s: Seq<char>) -> ConnectionInfoWhat {
    if s == "ConnectFailed"@ {
        ConnectionInfoWhat::ConnectFailed
    } else if s == "Connected"@ {
        ConnectionInfoWhat::Connected
    } else if s == "UuidGot"@ {
        ConnectionInfoWhat::UuidGot
    } else if s == "UnsupportedResolution"@ {
        ConnectionInfoWhat::UnsupportedResolution
    } else if s == "ResolutionError"@ {
        ConnectionInfoWhat::ResolutionError
    } else if s == "Reconnecting"@ {
        ConnectionInfoWhat::Reconnecting
    } else if s == "Reconnected"@ {
        ConnectionInfoWhat::Reconnected
    } else if s == "Disconnect"@ {
        ConnectionInfoWhat::Disconnect
    } else if s == "ScreencapFailed"@ {
        ConnectionInfoWhat::ScreencapFailed
    } else if s == "TouchModeNotAvailable"@ {
        ConnectionInfoWhat::TouchModeNotAvailable
    } else if s == "ResolutionGot"@ {
        ConnectionInfoWhat::ResolutionGot
    } else {
        ConnectionInfoWhat::Unknown
    }
}

impl ConnectionInfoWhat {
    /// Classifies the `what` field of a `ConnectionInfo` notification.
    pub fn from_name(s: &str) -> (r: ConnectionInfoWhat)
        ensures
            r == spec_connection_info_what(s@),
    {
        if str_eq(s, "ConnectFailed") {
            ConnectionInfoWhat::ConnectFailed
        } else if str_eq(s, "Connected") {
            ConnectionInfoWhat::Connected
        } else if str_eq(s, "UuidGot") {
            ConnectionInfoWhat::UuidGot
        } else if str_eq(s, "UnsupportedResolution") {
            ConnectionInfoWhat::UnsupportedResolution
        } else if str_eq(s, "ResolutionError") {
            ConnectionInfoWhat::ResolutionError
        } else if str_eq(s, "Reconnecting") {
            ConnectionInfoWhat::Reconnecting
        } else if str_eq(s, "Reconnected") {
            ConnectionInfoWhat::Reconnected
        } else if str_eq(s, "Disconnect") {
            ConnectionInfoWhat::Disconnect
        } else if str_eq(s, "ScreencapFailed") {
            ConnectionInfoWhat::ScreencapFailed
        } else if str_eq(s, "TouchModeNotAvailable") {
            ConnectionInfoWhat::TouchModeNotAvailable
        } else if str_eq(s, "ResolutionGot") {
            ConnectionInfoWhat::ResolutionGot
        } else {
            ConnectionInfoWhat::Unknown
        }
    }
}

impl Events {
    /// Classifies one raw callback invocation into a typed event. An
    /// unrecognized message code yields `None`: the adapter discards the
    /// invocation instead of letting it unwind into the engine's thread.
    pub fn classify(code: i32, params: String) -> (r: Option<Events>)
        ensures
            match r {
                Some(e) => spec_msg_code(e.kind) == code as int && e.params == params,
                None => forall|m: AsstMsg| spec_msg_code(m) != code as int,
            },
    {
        match AsstMsg::from_code(code) {
            Some(kind) => Some(Events { kind, params }),
            None => None,
        }
    }
}

/// Records the result of the asynchronous call `async_id`, waking any
/// watcher awaiting it.
pub fn wake(wakes: &mut CorrelationTable, async_id: i32, ret: RetValue)
    ensures
        final(wakes)@ == old(wakes)@.insert(async_id, ret),
{
    wakes.wake(async_id, ret);
}

/// The `AsyncCallInfo` handler: the result it carries enters the correlation
/// table under its request identifier, and nothing else happens.
pub fn handle_async_call_info(wakes: &mut CorrelationTable, info: AsyncCallInfo)
    ensures
        final(wakes)@ == old(wakes)@.insert(info.async_call_id, info.details.ret),
{
    wake(wakes, info.async_call_id, info.details.ret);
}

/// The `ConnectionInfo` handler: a `UuidGot` notification stores the device
/// UUID into the shared cell — a later one overwrites an earlier one — and
/// every other notification leaves the cell alone (they are informational
/// only).
pub fn handle_connection_info(uuid: &mut Option<String>, info: ConnectionInfo)
    ensures
        spec_connection_info_what(info.what@) == ConnectionInfoWhat::UuidGot ==> *final(uuid)
            == Some(info.uuid),
        spec_connection_info_what(info.what@) != ConnectionInfoWhat::UuidGot ==> *final(uuid)
            == *old(uuid),
{
    let what = ConnectionInfoWhat::from_name(info.what.as_str());
    match what {
        ConnectionInfoWhat::UuidGot => {
            *uuid = Some(info.uuid);
        },
        _ => (),
    }
}

/// The payload shared by the task-chain notifications:
/// `{taskchain, taskid, uuid}`.
pub struct TaskChainInfo {
    pub taskchain: String,
    pub taskid: i64,
    pub uuid: String,
}

/// One operator offered by a recruitment tag combination.
pub struct Operator {
    pub level: i64,
    pub name: String,
}

/// One recruitment tag combination and the operators it can yield.
pub struct RecruitResult {
    pub level: i64,
    pub opers: Vec<Operator>,
    pub tags: Vec<String>,
}

/// One item drop reported after a battle.
pub struct DropItem {
    pub item_id: String,
    pub item_name: String,
    pub quantity: i64,
}

/// The star level of the best combination on offer.
pub open spec fn spec_max_level(rs: Seq<RecruitResult>) -> int
    decreases rs.len(),
{
    if rs.len() <= 1 {
        rs[0].level as int
    } else if rs.last().level as int >= spec_max_level(rs.drop_last()) {
        rs.last().level as int
    } else {
        spec_max_level(rs.drop_last())
    }
}

/// The highest star level among the offered combinations, as the recruitment
/// handler reports it.
pub fn max_result_level(rs: &Vec<RecruitResult>) -> (r: i64)
    requires
        rs@.len() > 0,
    ensures
        r as int == spec_max_level(rs@),
{
    let mut r: i64 = rs[0].level;
    let mut i: usize = 1;
    proof {
        assert(spec_max_level(rs@.take(1)) == rs@[0].level as int);
    }
    while i < rs.len()
        invariant
            1 <= i <= rs@.len(),
            r as int == spec_max_level(rs@.take(i as int)),
        decreases rs@.len() - i,
    {
        proof {
            assert(rs@.take(i + 1).drop_last() == rs@.take(i as int));
            assert(rs@.take(i + 1).last() == rs@[i as int]);
        }
        if rs[i].level >= r {
            r = rs[i].level;
        }
        i = i + 1;
    }
    proof {
        assert(rs@.take(rs@.len() as int) == rs@);
    }
    r
}

/// The indices of the combinations at level `lvl`, in order.
pub open spec fn spec_indices_at_level(rs: Seq<RecruitResult>, lvl: int) -> Seq<int>
    decreases rs.len(),
{
    if rs.len() == 0 {
        Seq::empty()
    } else if rs.last().level as int == lvl {
        spec_indices_at_level(rs.drop_last(), lvl).push(rs.len() - 1)
    } else {
        spec_indices_at_level(rs.drop_last(), lvl)
    }
}

/// The positions of the combinations whose star level equals `lvl` — used by
/// the recruitment handler to report every combination tied for the best
/// level.
pub fn indices_at_level(rs: &Vec<RecruitResult>, lvl: i64) -> (r: Vec<usize>)
    ensures
        r@.map_values(|u: usize| u as int) == spec_indices_at_level(rs@, lvl as int),
        forall|j: int| 0 <= j < r@.len() ==> (#[trigger] r@[j]) < rs@.len(),
    {
    let mut r: Vec<usize> = Vec::new();
    let mut i: usize = 0;
    while i < rs.len()
        invariant
            i <= rs@.len(),
            r@.map_values(|u: usize| u as int) == spec_indices_at_level(rs@.take(i as int), lvl as int),
            forall|j: int| 0 <= j < r@.len() ==> (#[trigger] r@[j]) < i,
        decreases rs@.len() - i,
    {
        proof {
            assert(rs@.take(i + 1).drop_last() == rs@.take(i as int));
            assert(rs@.take(i + 1).last() == rs@[i as int]);
        }
        if rs[i].level == lvl {
            r.push(i);
            proof {
                assert(r@.map_values(|u: usize| u as int) == r@.drop_last().map_values(
                    |u: usize| u as int,
                ).push(i as int));
            }
        }
        i = i + 1;
    }
    proof {
        assert(rs@.take(rs@.len() as int) == rs@);
    }
    r
}

/// The report line for one recruitment combination: its tags and the
/// operators it can yield, each list joined with commas.
pub open spec fn spec_combo_line(rr: RecruitResult) -> Seq<char> {
    "Tags Combo: ["@ + spec_join(rr.tags@.map_values(|t: String| t@), ", "@)
        + "] | Operators: ["@ + spec_join(rr.opers@.map_values(|o: Operator| o.name@), ", "@)
        + "]"@
}

/// Formats the report line for one recruitment combination.
pub fn combo_line(rr: &RecruitResult) -> (r: String)
    ensures
        r@ == spec_combo_line(*rr),
{
    let mut names: Vec<String> = Vec::new();
    let mut i: usize = 0;
    while i < rr.opers.len()
        invariant
            i <= rr.opers@.len(),
            names@.map_values(|t: String| t@) == rr.opers@.take(i as int).map_values(
                |o: Operator| o.name@,
            ),
        decreases rr.opers@.len() - i,
    {
        let ghost before = names@.map_values(|t: String| t@);
        names.push(rr.opers[i].name.clone());
        proof {
            assert(names@.map_values(|t: String| t@) =~= before.push(rr.opers@[i as int].name@));
            assert(rr.opers@.take(i + 1).map_values(|o: Operator| o.name@) =~= rr.opers@.take(
                i as int,
            ).map_values(|o: Operator| o.name@).push(rr.opers@[i as int].name@));
        }
        i = i + 1;
    }
    proof {
        assert(rr.opers@.take(rr.opers@.len() as int) == rr.opers@);
    }
    let mut r: String = "Tags Combo: [".to_owned();
    let tags_joined = join(&rr.tags, ", ");
    r.append(tags_joined.as_str());
    r.append("] | Operators: [");
    let names_joined = join(&names, ", ");
    r.append(names_joined.as_str());
    r.append("]");
    r
}

/// The report lines for the combinations tied for the best star level, in
/// order of appearance; no lines when nothing was offered.
pub open spec fn spec_best_combo_lines(rs: Seq<RecruitResult>) -> Seq<Seq<char>> {
    spec_indices_at_level(rs, spec_max_level(rs)).map_values(|i: int| spec_combo_line(rs[i]))
}

/// The report lines for every combination tied for the best star level.
pub fn best_combo_lines(rs: &Vec<RecruitResult>) -> (r: Vec<String>)
    ensures
        r@.map_values(|l: String| l@) == spec_best_combo_lines(rs@),
{
    let mut r: Vec<String> = Vec::new();
    if rs.len() == 0 {
        proof {
            assert(spec_indices_at_level(rs@, spec_max_level(rs@)).len() == 0);
            assert(r@.map_values(|l: String| l@) =~= spec_best_combo_lines(rs@));
        }
        return r;
    }
    let best = max_result_level(rs);
    let idxs = indices_at_level(rs, best);
    let ghost spec_idxs = spec_indices_at_level(rs@, spec_max_level(rs@));
    let mut k: usize = 0;
    while k < idxs.len()
        invariant
            k <= idxs@.len(),
            idxs@.map_values(|u: usize| u as int) == spec_idxs,
            forall|j: int| 0 <= j < idxs@.len() ==> (#[trigger] idxs@[j]) < rs@.len(),
            r@.map_values(|l: String| l@) == spec_idxs.take(k as int).map_values(
                |i: int| spec_combo_line(rs@[i]),
            ),
        decreases idxs@.len() - k,
    {
        let ghost before = r@.map_values(|l: String| l@);
        let line = combo_line(&rs[idxs[k]]);
        r.push(line);
        proof {
            assert(spec_idxs[k as int] == idxs@[k as int] as int);
            assert(r@.map_values(|l: String| l@) =~= before.push(
                spec_combo_line(rs@[idxs@[k as int] as int]),
            ));
            assert(spec_idxs.take(k + 1).map_values(|i: int| spec_combo_line(rs@[i]))
                =~= spec_idxs.take(k as int).map_values(|i: int| spec_combo_line(rs@[i])).push(
                spec_combo_line(rs@[spec_idxs[k as int]]),
            ));
        }
        k = k + 1;
    }
    proof {
        assert(spec_idxs.take(spec_idxs.len() as int) == spec_idxs);
    }
    r
}

/// The recruitment report for a `SubTaskExtraInfo` payload: one line per
/// combination tied for the best level, or nothing when the payload does not
/// decode as a recruitment result.
pub fn recruit_combo_report(params: &str) -> (r: Option<Vec<String>>)
    ensures
        match spec_decode_recruit_results(params@) {
            Some(rs) => r matches Some(lines) && lines@.map_values(|l: String| l@)
                == spec_best_combo_lines(rs@),
            None => r is None,
        },
{
    match decode_recruit_results(params) {
        Some(rs) => Some(best_combo_lines(&rs)),
        None => None,
    }
}

/// The drop report for a `SubTaskExtraInfo` payload: one line per reported
/// drop, or nothing when the payload does not decode as a battle result or
/// reports a negative quantity.
pub fn battle_drop_report(params: &str) -> (r: Option<Vec<String>>)
    ensures
        match spec_decode_drops(params@) {
            Some(ds) => (forall|j: int| 0 <= j < ds@.len() ==> (#[trigger] ds@[j]).quantity >= 0)
                ==> (r matches Some(lines) && lines@.map_values(|l: String| l@)
                == ds@.map_values(|d: DropItem| spec_drop_line(d))),
            None => r is None,
        },
{
    let decoded = decode_drops(params);
    proof {
        assert(decoded == spec_decode_drops(params@));
    }
    let ds = match decoded {
        Some(ds) => ds,
        None => {
            return None;
        },
    };
    proof {
        assert(spec_decode_drops(params@) == Some(ds));
    }
    let mut lines: Vec<String> = Vec::new();
    let mut i: usize = 0;
    while i < ds.len()
        invariant
            i <= ds@.len(),
            spec_decode_drops(params@) == Some(ds),
            lines@.map_values(|l: String| l@) == ds@.take(i as int).map_values(
                |d: DropItem| spec_drop_line(d),
            ),
        decreases ds@.len() - i,
    {
        if ds[i].quantity < 0 {
            proof {
                let sd = spec_decode_drops(params@)->Some_0;
                assert(sd == ds);
                assert(0 <= i < sd@.len() && sd@[i as int].quantity < 0);
                assert(!(forall|j: int|
                    0 <= j < sd@.len() ==> (#[trigger] sd@[j]).quantity >= 0));
            }
            return None;
        }
        let ghost before = lines@.map_values(|l: String| l@);
        let line = drop_line(&ds[i]);
        lines.push(line);
        proof {
            assert(lines@.map_values(|l: String| l@) =~= before.push(
                spec_drop_line(ds@[i as int]),
            ));
            assert(ds@.take(i + 1).map_values(|d: DropItem| spec_drop_line(d)) =~= ds@.take(
                i as int,
            ).map_values(|d: DropItem| spec_drop_line(d)).push(spec_drop_line(ds@[i as int])));
        }
        i = i + 1;
    }
    proof {
        assert(ds@.take(ds@.len() as int) == ds@);
    }
    Some(lines)
}

/// The report line for a task-chain notification: what the named task chain
/// did, or nothing for a kind that is not a task-chain start, completion or
/// error, or for a payload that does not decode.
pub fn task_chain_report(kind: AsstMsg, params: &str) -> (r: Option<String>)
    ensures
        match spec_decode_task_chain(params@) {
            Some(t) => match kind {
                AsstMsg::TaskChainStart => r matches Some(l) && l@ == "Start Task "@
                    + spec_dec_i64(t.taskid as int) + ": "@ + t.taskchain@,
                AsstMsg::TaskChainCompleted => r matches Some(l) && l@ == "Task "@ + spec_dec_i64(
                    t.taskid as int,
                ) + "("@ + t.taskchain@ + ") Finished"@,
                AsstMsg::TaskChainError => r matches Some(l) && l@ == "Task "@ + spec_dec_i64(
                    t.taskid as int,
                ) + " Errored: "@ + t.taskchain@,
                _ => r is None,
            },
            None => r is None,
        },
{
    match kind {
        AsstMsg::TaskChainStart | AsstMsg::TaskChainCompleted | AsstMsg::TaskChainError => (),
        _ => {
            return None;
        },
    }
    let info = match decode_task_chain(params) {
        Some(info) => info,
        None => {
            return None;
        },
    };
    let id = dec_i64(info.taskid);
    match kind {
        AsstMsg::TaskChainStart => {
            let mut l: String = "Start Task ".to_owned();
            l.append(id.as_str());
            l.append(": ");
            l.append(info.taskchain.as_str());
            Some(l)
        },
        AsstMsg::TaskChainCompleted => {
            let mut l: String = "Task ".to_owned();
            l.append(id.as_str());
            l.append("(");
            l.append(info.taskchain.as_str());
            l.append(") Finished");
            Some(l)
        },
        _ => {
            let mut l: String = "Task ".to_owned();
            l.append(id.as_str());
            l.append(" Errored: ");
            l.append(info.taskchain.as_str());
            Some(l)
        },
    }
}

/// The diagnostic line for an `InitFailed` payload: `what: why`, or nothing
/// when the payload does not decode.
pub fn init_failure_line(params: &str) -> (r: Option<String>)
    ensures
        match spec_decode_init_failed(params@) {
            Some(f) => r matches Some(l) && l@ == f.what@ + ": "@ + f.why@,
            None => r is None,
        },
{
    match decode_init_failed(params) {
        Some(f) => {
            let mut l = f.what;
            l.append(": ");
            l.append(f.why.as_str());
            Some(l)
        },
        None => None,
    }
}

/// The summary line for one reported drop: `name x quantity`.
pub open spec fn spec_drop_line(d: DropItem) -> Seq<char> {
    d.item_name@ + " x "@ + spec_dec(d.quantity as nat)
}

/// Formats one reported drop for the battle summary.
pub fn drop_line(d: &DropItem) -> (r: String)
    requires
        d.quantity >= 0,
    ensures
        r@ == spec_drop_line(*d),
{
    let mut r: String = d.item_name.clone();
    r.append(" x ");
    let n = dec_u64(d.quantity as u64);
    r.append(n.as_str());
    r
}

} // verus!
