//! The StartUp task: wake the game client.

use vstd::prelude::*;
use core::marker::PhantomData;
use crate::jsontext::{json_str, spec_json_bool, spec_json_str};
use crate::tasks::{spec_client_type_name, ClientType, Paused, Running, State, StoppedTask};

verus! {

/// A StartUp task: which client to wake and whether to launch it.
pub struct StartUp<T: State> {
    pub _phantom: PhantomData<T>,
    pub id: Option<usize>,
    pub client_type: String,
    pub start_game_enabled: bool,
}

/// The JSON encoding of a StartUp task.
pub open spec fn spec_startup_json<T: State>(t: StartUp<T>) -> Seq<char> {
    let s = "{"@;
    let s = s + "\"client_type\":"@ + spec_json_str(t.client_type@);
    let s = s + ",\"start_game_enabled\":"@ + spec_json_bool(t.start_game_enabled);
    s + "}"@
}

impl<T: State> StartUp<T> {
    /// A fresh StartUp task: no client type, no automatic launch.
    pub fn new() -> (r: StartUp<T>)
        ensures
            r.id is None,
            r.client_type@ == Seq::<char>::empty(),
            !r.start_game_enabled,
    {
        StartUp { _phantom: PhantomData, id: None, client_type: String::new(), start_game_enabled: false }
    }
}

impl StartUp<Paused> {
    /// A fresh StartUp task in *Configurable* state.
    pub fn new_paused() -> (r: StartUp<Paused>)
        ensures
            r.id is None,
            r.client_type@ == Seq::<char>::empty(),
            !r.start_game_enabled,
    {
        Self::new()
    }

    /// The client version to wake; empty leaves it unspecified.
    pub fn set_client_type(self, client_type: ClientType) -> (r: StartUp<Paused>)
        ensures
            r == (StartUp { client_type: r.client_type, ..self }),
            r.client_type@ == spec_client_type_name(client_type),
    {
        StartUp { client_type: client_type.as_str().to_owned(), ..self }
    }

    /// Whether to launch the client automatically.
    pub fn set_start_game_enabled(self, start_game_enabled: bool) -> (r: StartUp<Paused>)
        ensures
            r == (StartUp { start_game_enabled, ..self }),
    {
        StartUp { start_game_enabled, ..self }
    }

    /// Freezes the configuration: the one transition out of *Configurable*.
    pub fn start(self) -> (r: StartUp<Running>)
        ensures
            r.id == self.id,
            r.client_type == self.client_type,
            r.start_game_enabled == self.start_game_enabled,
            spec_startup_json(r) == spec_startup_json(self),
    {
        StartUp {
            _phantom: PhantomData,
            id: self.id,
            client_type: self.client_type,
            start_game_enabled: self.start_game_enabled,
        }
    }
}

impl StoppedTask for StartUp<Paused> {
    open spec fn spec_json(&self) -> Seq<char> {
        spec_startup_json(*self)
    }

    open spec fn spec_name(&self) -> Seq<char> {
        "StartUp"@
    }

    open spec fn spec_id(&self) -> Option<usize> {
        self.id
    }

    fn to_json(&self) -> (r: String) {
        startup_to_json(self)
    }

    fn name(&self) -> (r: &'static str) {
        "StartUp"
    }

    fn set_id(&mut self, id: usize) {
        self.id = Some(id);
    }

    fn id(&self) -> (r: Option<usize>) {
        self.id
    }
}

/// Encodes a StartUp task, in either state, as its JSON payload.
pub fn startup_to_json<T: State>(t: &StartUp<T>) -> (r: String)
    ensures
        r@ == spec_startup_json(*t),
{
    let mut s: String = "{".to_owned();
    s.append("\"client_type\":");
    let p = json_str(t.client_type.as_str());
    s.append(p.as_str());
    s.append(",\"start_game_enabled\":");
    s.append(if t.start_game_enabled { "true" } else { "false" });
    s.append("}");
    s
}

} // verus!
