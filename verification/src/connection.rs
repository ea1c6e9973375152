//! The connection to the engine: its builder, its lifecycle state machine,
//! and the dispatch decisions of its polling loop.
//!
//! The engine itself is an external native library; every call into it is
//! made by the embedding process, which hands the returned plain values
//! (status flags, handles' nullness, request identifiers, callback payloads)
//! to the functions here. Those functions are the verified decisions of the
//! lifecycle: what each engine reply means, which state follows, and what
//! the dispatch loop does with each event.

use vstd::prelude::*;
use crate::correlation::{CallbackWatcher, CorrelationTable, RetValue};
use crate::decode::{
    decode_async_call_info, decode_connection_info, spec_decode_async_call_info,
    spec_decode_connection_info,
};
use crate::events::{
    handle_async_call_info, handle_connection_info, spec_connection_info_what, ConnectionInfoWhat,
};
use crate::msg::AsstMsg;
use crate::options::{MAAOption, TouchMode};
use crate::resources::{parse_item_map, spec_parse_item_map, ItemMap};

verus! {

/// Where a connection stands in its lifecycle.
#[derive(Debug, Clone, Copy, PartialEq, Eq, Structural)]
pub enum ConnState {
    Uninitialized,
    ResourcesLoaded,
    HandleCreated,
    Polling,
    Connected,
    Destroyed,
}

/// An engine call reported a status flag other than success.
#[derive(Debug, Clone, Copy, PartialEq, Eq, Structural)]
pub struct EngineError {
    pub status: i32,
}

/// Why building a connection was aborted. Construction errors are fatal: no
/// partial connection is ever returned.
#[derive(Debug, Clone, Copy, PartialEq, Eq, Structural)]
pub enum BuildError {
    /// A resource-loading or option-setting call was rejected by the engine.
    EngineCall(EngineError),
    /// The item index file is absent from the resources directory.
    MissingItemIndex,
    /// The item index file exists but does not decode.
    ItemIndexMalformed,
    /// The engine returned a null handle.
    NullHandle,
    /// The asynchronous connect call could not be issued (request id zero).
    ConnectIssueFailed,
    /// The engine reported that connecting failed.
    ConnectFailed,
    /// The connect request resolved to a value that is not a boolean.
    UnexpectedCallbackValue,
}

/// Marker for the callback adapter handed to the engine at handle creation.
#[derive(Debug, Clone, Copy, PartialEq, Eq, Structural)]
pub struct EngineCallback;

/// The meaning of an engine status flag: `1` is success, anything else is a
/// rejection carrying the flag.
pub fn engine_flag_ok(ret: i32) -> (r: Result<(), EngineError>)
    ensures
        ret == 1 ==> r is Ok,
        ret != 1 ==> r == Result::<(), EngineError>::Err(EngineError { status: ret }),
{
    if ret == 1 {
        Ok(())
    } else {
        Err(EngineError { status: ret })
    }
}

/// The meaning of the engine's is-running flag.
pub fn interpret_running(ret: i32) -> (r: bool)
    ensures
        r == (ret == 1),
{
    ret == 1
}

/// The outcome of looking for the item index: a missing file is a fatal
/// construction error, and so is an index that does not decode.
pub fn parse_item_index(text: Option<&str>) -> (r: Result<ItemMap, BuildError>)
    ensures
        match text {
            Option::None => r == Result::<ItemMap, BuildError>::Err(BuildError::MissingItemIndex),
            Option::Some(s) => match spec_parse_item_map(s@) {
                Option::Some(m) => r == Result::<ItemMap, BuildError>::Ok(m),
                Option::None => r == Result::<ItemMap, BuildError>::Err(
                    BuildError::ItemIndexMalformed,
                ),
            },
        },
{
    match text {
        None => Err(BuildError::MissingItemIndex),
        Some(s) => match parse_item_map(s) {
            Some(m) => Ok(m),
            None => Err(BuildError::ItemIndexMalformed),
        },
    }
}

/// Configuration for a connection, accumulated through fluent setters and
/// then consumed by the build sequence.
pub struct MAABuilder {
    pub resources_path: String,
    pub adb_address: String,
    pub incremental_path: Option<String>,
    pub adb_path: Option<String>,
    pub work_dir: Option<String>,
    pub callback: Option<EngineCallback>,
    pub adb_config: Option<String>,
    pub maa_settings: MAAOption,
}

impl MAABuilder {
    /// A builder for a connection over `adb_address`, loading resources from
    /// `resources_path`, with the callback adapter installed and default
    /// options.
    pub fn new(resources_path: &str, adb_address: &str) -> (r: MAABuilder)
        ensures
            r.resources_path@ == resources_path@,
            r.adb_address@ == adb_address@,
            r.incremental_path is None,
            r.adb_path is None,
            r.work_dir is None,
            r.callback == Some(EngineCallback),
            r.adb_config is None,
            r.maa_settings == (MAAOption {
                touch_mode: TouchMode::MiniTouch,
                deployment_with_pause: false,
                adb_lite_enabled: false,
                kill_adb_on_exit: false,
            }),
    {
        MAABuilder {
            resources_path: resources_path.to_owned(),
            adb_address: adb_address.to_owned(),
            incremental_path: None,
            adb_path: None,
            work_dir: None,
            callback: Some(EngineCallback),
            adb_config: None,
            maa_settings: MAAOption::default(),
        }
    }

    pub fn with_incremental_path(self, path: &str) -> (r: MAABuilder)
        ensures
            r == (MAABuilder { incremental_path: r.incremental_path, ..self }),
            r.incremental_path matches Some(p) && p@ == path@,
    {
        MAABuilder { incremental_path: Some(path.to_owned()), ..self }
    }

    pub fn with_adb_path(self, path: &str) -> (r: MAABuilder)
        ensures
            r == (MAABuilder { adb_path: r.adb_path, ..self }),
            r.adb_path matches Some(p) && p@ == path@,
    {
        MAABuilder { adb_path: Some(path.to_owned()), ..self }
    }

    pub fn with_work_dir(self, path: &str) -> (r: MAABuilder)
        ensures
            r == (MAABuilder { work_dir: r.work_dir, ..self }),
            r.work_dir matches Some(p) && p@ == path@,
    {
        MAABuilder { work_dir: Some(path.to_owned()), ..self }
    }

    pub fn with_callback(self, callback: Option<EngineCallback>) -> (r: MAABuilder)
        ensures
            r == (MAABuilder { callback, ..self }),
    {
        MAABuilder { callback, ..self }
    }

    pub fn with_adb_config(self, config: Option<&str>) -> (r: MAABuilder)
        ensures
            match config {
                Option::Some(c) => (r.adb_config matches Some(p) && p@ == c@) && r == (
                MAABuilder { adb_config: r.adb_config, ..self }),
                Option::None => r == (MAABuilder { adb_config: None, ..self }),
            },
    {
        match config {
            Some(c) => MAABuilder { adb_config: Some(c.to_owned()), ..self },
            None => MAABuilder { adb_config: None, ..self },
        }
    }

    pub fn with_maa_settings(self, settings: MAAOption) -> (r: MAABuilder)
        ensures
            r == (MAABuilder { maa_settings: settings, ..self }),
    {
        MAABuilder { maa_settings: settings, ..self }
    }

    /// The step from a created (or null) handle to a live connection object.
    /// A null handle is a fatal construction error; otherwise the connection
    /// starts at `HandleCreated` with an empty correlation table, no device
    /// UUID yet, and the teardown flag down.
    pub fn make_connection(&self, handle_created: bool, session_id: i64, item_map: ItemMap) -> (r:
        Result<MAAConnection, BuildError>)
        requires
            self.callback is Some,
        ensures
            handle_created ==> (r matches Ok(c) && c.state == ConnState::HandleCreated && c.uuid
                is None && c.wakes@ == Map::<i32, RetValue>::empty() && !c.finished && c.target@
                == self.adb_address@ && c.id == session_id),
            !handle_created ==> r == Result::<MAAConnection, BuildError>::Err(
                BuildError::NullHandle,
            ),
    {
        if handle_created {
            Ok(
                MAAConnection {
                    state: ConnState::HandleCreated,
                    uuid: None,
                    target: self.adb_address.clone(),
                    id: session_id,
                    wakes: CorrelationTable::new(),
                    finished: false,
                    item_map,
                },
            )
        } else {
            Err(BuildError::NullHandle)
        }
    }
}

/// A live connection: the engine handle's owner-side state. The handle
/// itself is owned by the embedding process; everything the bridge decides
/// about is here as plain values.
pub struct MAAConnection {
    /// Lifecycle position.
    pub state: ConnState,
    /// The device UUID, set once the engine reports `UuidGot`.
    pub uuid: Option<String>,
    /// The adb address this connection targets.
    pub target: String,
    /// The session identifier the handle was created with.
    pub id: i64,
    /// Correlation table shared with every outstanding watcher.
    pub wakes: CorrelationTable,
    /// Write-once teardown flag observed by the dispatch loop.
    pub finished: bool,
    /// The decoded item index.
    pub item_map: ItemMap,
}

/// The connection after teardown, and whether this teardown was the first:
/// only the first sends the sentinel event that unblocks the dispatch loop
/// and releases the engine handle.
pub open spec fn spec_destroy(c: MAAConnection) -> (MAAConnection, bool) {
    (MAAConnection { state: ConnState::Destroyed, finished: true, ..c }, !c.finished)
}

impl MAAConnection {
    /// Marks the dispatch loop started: the step from `HandleCreated` (with
    /// its options applied) to `Polling`.
    pub fn start_polling(&mut self)
        requires
            old(self).state == ConnState::HandleCreated,
        ensures
            *final(self) == (MAAConnection { state: ConnState::Polling, ..*old(self) }),
    {
        self.state = ConnState::Polling;
    }

    /// The meaning of the request identifier returned by the asynchronous
    /// connect call: zero means the call could not be issued; anything else
    /// names the request a watcher can await.
    pub fn connect_watcher(&self, async_id: i32) -> (r: Result<CallbackWatcher, BuildError>)
        requires
            self.state == ConnState::Polling,
        ensures
            async_id != 0 ==> (r matches Ok(w) && w.id == async_id),
            async_id == 0 ==> r == Result::<CallbackWatcher, BuildError>::Err(
                BuildError::ConnectIssueFailed,
            ),
    {
        if async_id != 0 {
            Ok(CallbackWatcher::new(async_id))
        } else {
            Err(BuildError::ConnectIssueFailed)
        }
    }

    /// The meaning of the value the connect request resolved to: `true`
    /// completes the transition to `Connected`; `false` is a fatal connect
    /// failure; any other value is a fatal protocol violation. On failure
    /// the connection is left unchanged.
    pub fn on_connect_result(&mut self, ret: &RetValue) -> (r: Result<(), BuildError>)
        requires
            old(self).state == ConnState::Polling,
        ensures
            match ret {
                RetValue::Bool(true) => r is Ok && *final(self) == (MAAConnection {
                    state: ConnState::Connected,
                    ..*old(self)
                }),
                RetValue::Bool(false) => r == Result::<(), BuildError>::Err(
                    BuildError::ConnectFailed,
                ) && *final(self) == *old(self),
                RetValue::Raw(_) => r == Result::<(), BuildError>::Err(
                    BuildError::UnexpectedCallbackValue,
                ) && *final(self) == *old(self),
            },
    {
        match ret {
            RetValue::Bool(b) => {
                if *b {
                    self.state = ConnState::Connected;
                    Ok(())
                } else {
                    Err(BuildError::ConnectFailed)
                }
            },
            RetValue::Raw(_) => Err(BuildError::UnexpectedCallbackValue),
        }
    }

    /// One step of the dispatch loop on a received event. Returns whether
    /// the loop should keep running: teardown observed means stop, with the
    /// event left unprocessed. An `AsyncCallInfo` event records its result
    /// in the correlation table; a `ConnectionInfo` event reporting
    /// `UuidGot` stores the device UUID (a later `UuidGot` overwrites it);
    /// every other kind — and any payload that does not decode — changes
    /// nothing.
    pub fn process_event(&mut self, kind: AsstMsg, params: &str) -> (keep_running: bool)
        ensures
            keep_running == !old(self).finished,
            final(self).state == old(self).state,
            final(self).finished == old(self).finished,
            final(self).target == old(self).target,
            final(self).id == old(self).id,
            final(self).item_map == old(self).item_map,
            old(self).finished ==> final(self).wakes@ == old(self).wakes@
                && final(self).uuid == old(self).uuid,
            !old(self).finished && kind == AsstMsg::AsyncCallInfo ==> final(self).uuid
                == old(self).uuid && (match spec_decode_async_call_info(params@) {
                Option::Some(info) => final(self).wakes@
                    == old(self).wakes@.insert(info.async_call_id, info.details.ret),
                Option::None => final(self).wakes@ == old(self).wakes@,
            }),
            !old(self).finished && kind == AsstMsg::ConnectionInfo ==> final(self).wakes@
                == old(self).wakes@ && (match spec_decode_connection_info(params@) {
                Option::Some(info) => if spec_connection_info_what(info.what@)
                    == ConnectionInfoWhat::UuidGot {
                    final(self).uuid == Some(info.uuid)
                } else {
                    final(self).uuid == old(self).uuid
                },
                Option::None => final(self).uuid == old(self).uuid,
            }),
            !old(self).finished && kind != AsstMsg::AsyncCallInfo && kind
                != AsstMsg::ConnectionInfo ==> final(self).wakes@ == old(self).wakes@
                && final(self).uuid == old(self).uuid,
    {
        if self.finished {
            return false;
        }
        match kind {
            AsstMsg::AsyncCallInfo => {
                match decode_async_call_info(params) {
                    Some(info) => handle_async_call_info(&mut self.wakes, info),
                    None => (),
                }
            },
            AsstMsg::ConnectionInfo => {
                match decode_connection_info(params) {
                    Some(info) => handle_connection_info(&mut self.uuid, info),
                    None => (),
                }
            },
            _ => (),
        }
        true
    }

    /// Tears the connection down. Idempotent: the teardown flag is raised
    /// and the state moves to `Destroyed` whichever call runs, but only the
    /// first call reports `true`, telling the embedding process to send the
    /// sentinel event and release the engine handle — once.
    pub fn destroy(&mut self) -> (send_sentinel: bool)
        ensures
            (*final(self), send_sentinel) == spec_destroy(*old(self)),
    {
        let first = !self.finished;
        self.finished = true;
        self.state = ConnState::Destroyed;
        first
    }
}

/// Tearing a connection down twice is safe: the second teardown reports that
/// neither the sentinel event nor the handle release must be repeated, and
/// the state it leaves is the state the first teardown left.
pub proof fn lemma_destroy_idempotent(c: MAAConnection)
    ensures
        !spec_destroy(spec_destroy(c).0).1,
        spec_destroy(spec_destroy(c).0).0 == spec_destroy(c).0,
{
}

} // verus!
