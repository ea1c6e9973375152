//! Message kinds reported by the engine's global callback.

use vstd::prelude::*;

verus! {

/// The kind of a notification delivered by the engine callback.
///
/// The engine tags every callback invocation with a numeric code; the
/// adapter classifies the code into one of these kinds before the event
/// enters the dispatch loop.
#[derive(Debug, Clone, Copy, PartialEq, Eq, Structural)]
pub enum AsstMsg {
    InternalError,
    InitFailed,
    ConnectionInfo,
    AllTasksCompleted,
    AsyncCallInfo,
    TaskChainError,
    TaskChainStart,
    TaskChainCompleted,
    TaskChainExtraInfo,
    TaskChainStopped,
    SubTaskError,
    SubTaskStart,
    SubTaskCompleted,
    SubTaskExtraInfo,
    SubTaskStopped,
}

/// The numeric code the engine uses for each message kind.
pub open spec fn spec_msg_code(m: AsstMsg) -> int {
    match m {
        AsstMsg::InternalError => 0,
        AsstMsg::InitFailed => 1,
        AsstMsg::ConnectionInfo => 2,
        AsstMsg::AllTasksCompleted => 3,
        AsstMsg::AsyncCallInfo => 4,
        AsstMsg::TaskChainError => 10000,
        AsstMsg::TaskChainStart => 10001,
        AsstMsg::TaskChainCompleted => 10002,
        AsstMsg::TaskChainExtraInfo => 10003,
        AsstMsg::TaskChainStopped => 10004,
        AsstMsg::SubTaskError => 20000,
        AsstMsg::SubTaskStart => 20001,
        AsstMsg::SubTaskCompleted => 20002,
        AsstMsg::SubTaskExtraInfo => 20003,
        AsstMsg::SubTaskStopped => 20004,
    }
}

/// The message kind behind a numeric code, if the engine documents one.
pub open spec fn spec_msg_from_code(code: int) -> Option<AsstMsg> {
    if code == 0 {
        Some(AsstMsg::InternalError)
    } else if code == 1 {
        Some(AsstMsg::InitFailed)
    } else if code == 2 {
        Some(AsstMsg::ConnectionInfo)
    } else if code == 3 {
        Some(AsstMsg::AllTasksCompleted)
    } else if code == 4 {
        Some(AsstMsg::AsyncCallInfo)
    } else if code == 10000 {
        Some(AsstMsg::TaskChainError)
    } else if code == 10001 {
        Some(AsstMsg::TaskChainStart)
    } else if code == 10002 {
        Some(AsstMsg::TaskChainCompleted)
    } else if code == 10003 {
        Some(AsstMsg::TaskChainExtraInfo)
    } else if code == 10004 {
        Some(AsstMsg::TaskChainStopped)
    } else if code == 20000 {
        Some(AsstMsg::SubTaskError)
    } else if code == 20001 {
        Some(AsstMsg::SubTaskStart)
    } else if code == 20002 {
        Some(AsstMsg::SubTaskCompleted)
    } else if code == 20003 {
        Some(AsstMsg::SubTaskExtraInfo)
    } else if code == 20004 {
        Some(AsstMsg::SubTaskStopped)
    } else {
        None
    }
}

impl AsstMsg {
    /// Classifies a raw callback code. Returns `None` for a code the engine
    /// is not documented to send; the adapter turns such an invocation into
    /// a discarded diagnostic instead of letting it unwind.
    pub fn from_code(code: i32) -> (r: Option<AsstMsg>)
        ensures
            r == spec_msg_from_code(code as int),
            match r {
                Some(m) => spec_msg_code(m) == code as int,
                None => forall|m: AsstMsg| spec_msg_code(m) != code as int,
            },
    {
        match code {
            0 => Some(AsstMsg::InternalError),
            1 => Some(AsstMsg::InitFailed),
            2 => Some(AsstMsg::ConnectionInfo),
            3 => Some(AsstMsg::AllTasksCompleted),
            4 => Some(AsstMsg::AsyncCallInfo),
            10000 => Some(AsstMsg::TaskChainError),
            10001 => Some(AsstMsg::TaskChainStart),
            10002 => Some(AsstMsg::TaskChainCompleted),
            10003 => Some(AsstMsg::TaskChainExtraInfo),
            10004 => Some(AsstMsg::TaskChainStopped),
            20000 => Some(AsstMsg::SubTaskError),
            20001 => Some(AsstMsg::SubTaskStart),
            20002 => Some(AsstMsg::SubTaskCompleted),
            20003 => Some(AsstMsg::SubTaskExtraInfo),
            20004 => Some(AsstMsg::SubTaskStopped),
            _ => None,
        }
    }

    /// The numeric code of this kind, as the engine reports it.
    pub fn code(&self) -> (r: i32)
        ensures
            r as int == spec_msg_code(*self),
    {
        match self {
            AsstMsg::InternalError => 0,
            AsstMsg::InitFailed => 1,
            AsstMsg::ConnectionInfo => 2,
            AsstMsg::AllTasksCompleted => 3,
            AsstMsg::AsyncCallInfo => 4,
            AsstMsg::TaskChainError => 10000,
            AsstMsg::TaskChainStart => 10001,
            AsstMsg::TaskChainCompleted => 10002,
            AsstMsg::TaskChainExtraInfo => 10003,
            AsstMsg::TaskChainStopped => 10004,
            AsstMsg::SubTaskError => 20000,
            AsstMsg::SubTaskStart => 20001,
            AsstMsg::SubTaskCompleted => 20002,
            AsstMsg::SubTaskExtraInfo => 20003,
            AsstMsg::SubTaskStopped => 20004,
        }
    }
}

} // verus!
