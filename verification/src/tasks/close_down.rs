//! The CloseDown task: shut the game client down. It carries no parameters.

use vstd::prelude::*;
use core::marker::PhantomData;
use crate::tasks::{Paused, Running, State, StoppedTask};

verus! {

/// A CloseDown task: no parameters, so its payload is the empty object.
pub struct CloseDown<T: State> {
    pub _phantom: PhantomData<T>,
    pub id: Option<usize>,
}

impl<T: State> CloseDown<T> {
    /// A fresh CloseDown task.
    pub fn new() -> (r: CloseDown<T>)
        ensures
            r.id is None,
    {
        CloseDown { _phantom: PhantomData, id: None }
    }
}

impl CloseDown<Paused> {
    /// A fresh CloseDown task in *Configurable* state.
    pub fn new_paused() -> (r: CloseDown<Paused>)
        ensures
            r.id is None,
    {
        Self::new()
    }

    /// Freezes the configuration: the one transition out of *Configurable*.
    pub fn start(self) -> (r: CloseDown<Running>)
        ensures
            r.id == self.id,
    {
        CloseDown { _phantom: PhantomData, id: self.id }
    }
}

impl StoppedTask for CloseDown<Paused> {
    open spec fn spec_json(&self) -> Seq<char> {
        "{}"@
    }

    open spec fn spec_name(&self) -> Seq<char> {
        "CloseDown"@
    }

    open spec fn spec_id(&self) -> Option<usize> {
        self.id
    }

    fn to_json(&self) -> (r: String) {
        "{}".to_owned()
    }

    fn name(&self) -> (r: &'static str) {
        "CloseDown"
    }

    fn set_id(&mut self, id: usize) {
        self.id = Some(id);
    }

    fn id(&self) -> (r: Option<usize>) {
        self.id
    }
}

} // verus!
