//! The typed task-submission state machine.
//!
//! Each task kind is a builder with two states. In *Configurable* state
//! (marker [`Paused`]) fluent setters mutate the parameters; the transition
//! to *Submitted* state (marker [`Running`]) happens exactly once, by
//! `start`, and freezes them. A task is handed to the engine as a JSON
//! object whose encoding omits unset, zero or empty optional fields; the
//! encoding of every kind is verified against a spec-level model here.
//!
//! Appending policy: a task that already carries an assigned id has already
//! been submitted, and a second append is rejected rather than silently
//! reusing the frozen payload.

use vstd::prelude::*;
use crate::strutil::str_eq;

pub use award::Award;
pub use close_down::CloseDown;
pub use fight::Fight;
pub use mall::{Mall, ShopItem};
pub use recruit::Recruit;
pub use roguelike::{RogueLike, RogueLikeMode, RogueLikeRoles, RogueLikeSquad, RogueLikeTheme};
pub use startup::StartUp;

pub mod award;
pub mod close_down;
pub mod fight;
pub mod mall;
pub mod recruit;
pub mod roguelike;
pub mod startup;

verus! {

/// Marker for a task whose configuration is frozen (*Submitted*).
pub struct Running {}

/// Marker for a task still accepting configuration (*Configurable*).
pub struct Paused {}

/// The two configuration states a task can be in.
pub trait State {

}

impl State for Running {

}

impl State for Paused {

}

/// The game client a task targets.
#[derive(Debug, Clone, Copy, PartialEq, Eq, Structural)]
pub enum ClientType {
    Official,
    Bilibili,
    Twxy,
    YoStarEN,
    YoStarJP,
    YoStarKR,
}

/// The wire name of each client type.
pub open spec fn spec_client_type_name(c: ClientType) -> Seq<char> {
    match c {
        ClientType::Official => "Official"@,
        ClientType::Bilibili => "Bilibili"@,
        ClientType::Twxy => "twxy"@,
        ClientType::YoStarEN => "YoStarEN"@,
        ClientType::YoStarJP => "YoStarJP"@,
        ClientType::YoStarKR => "YoStarKR"@,
    }
}

impl ClientType {
    /// The wire name of this client type.
    pub fn as_str(&self) -> (r: &'static str)
        ensures
            r@ == spec_client_type_name(*self),
    {
        match self {
            ClientType::Official => "Official",
            ClientType::Bilibili => "Bilibili",
            ClientType::Twxy => "twxy",
            ClientType::YoStarEN => "YoStarEN",
            ClientType::YoStarJP => "YoStarJP",
            ClientType::YoStarKR => "YoStarKR",
        }
    }
}

/// The regional server a task reports against.
#[derive(Debug, Clone, Copy, PartialEq, Eq, Structural)]
pub enum Server {
    CN,
    JP,
    KR,
    US,
}

/// The wire name of each server.
pub open spec fn spec_server_name(s: Server) -> Seq<char> {
    match s {
        Server::CN => "CN"@,
        Server::JP => "JP"@,
        Server::KR => "KR"@,
        Server::US => "US"@,
    }
}

impl Server {
    /// The wire name of this server.
    pub fn as_str(&self) -> (r: &'static str)
        ensures
            r@ == spec_server_name(*self),
    {
        match self {
            Server::CN => "CN",
            Server::JP => "JP",
            Server::KR => "KR",
            Server::US => "US",
        }
    }
}

/// A task ready to be handed to the engine: it knows its task-chain name,
/// its JSON payload, and the id the engine assigned to it, if any.
pub trait StoppedTask: Sized {
    /// The characters of the JSON payload.
    spec fn spec_json(&self) -> Seq<char>;

    /// The task-chain name.
    spec fn spec_name(&self) -> Seq<char>;

    /// The id the engine assigned at append time, if the task was appended.
    spec fn spec_id(&self) -> Option<usize>;

    /// The JSON payload handed to the engine.
    fn to_json(&self) -> (r: String)
        ensures
            r@ == self.spec_json(),
    ;

    /// The task-chain name handed to the engine.
    fn name(&self) -> (r: &'static str)
        ensures
            r@ == self.spec_name(),
    ;

    /// Records the id the engine assigned when the task was appended.
    /// Recording an id changes nothing else: the payload stays frozen.
    fn set_id(&mut self, id: usize)
        ensures
            final(self).spec_id() == Some(id),
            final(self).spec_json() == old(self).spec_json(),
            final(self).spec_name() == old(self).spec_name(),
    ;

    /// The id the engine assigned, if the task was appended.
    fn id(&self) -> (r: Option<usize>)
        ensures
            r == self.spec_id(),
    ;
}

/// The name and payload to hand to the engine's append call, or a rejection
/// where the task already carries an assigned id: a task is appended at most
/// once.
pub fn append_payload<T: StoppedTask>(task: &T) -> (r: Option<(String, String)>)
    ensures
        match r {
            Some(p) => task.spec_id() is None && p.0@ == task.spec_name() && p.1@
                == task.spec_json(),
            None => task.spec_id() is Some,
        },
{
    match task.id() {
        Some(_) => None,
        None => Some((task.name().to_owned(), task.to_json())),
    }
}

} // verus!
