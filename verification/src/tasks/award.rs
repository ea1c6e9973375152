//! The Award task: collect daily rewards. It carries no parameters.

use vstd::prelude::*;
use core::marker::PhantomData;
use crate::tasks::{Paused, Running, State, StoppedTask};

verus! {

/// An Award task: no parameters, so its payload is the empty object.
pub struct Award<T: State> {
    pub _phantom: PhantomData<T>,
    pub id: Option<usize>,
}

impl<T: State> Award<T> {
    /// A fresh Award task.
    pub fn new() -> (r: Award<T>)
        ensures
            r.id is None,
    {
        Award { _phantom: PhantomData, id: None }
    }
}

impl Award<Paused> {
    /// A fresh Award task in *Configurable* state.
    pub fn new_paused() -> (r: Award<Paused>)
        ensures
            r.id is None,
    {
        Self::new()
    }

    /// Freezes the configuration: the one transition out of *Configurable*.
    pub fn start(self) -> (r: Award<Running>)
        ensures
            r.id == self.id,
    {
        Award { _phantom: PhantomData, id: self.id }
    }
}

impl StoppedTask for Award<Paused> {
    open spec fn spec_json(&self) -> Seq<char> {
        "{}"@
    }

    open spec fn spec_name(&self) -> Seq<char> {
        "Award"@
    }

    open spec fn spec_id(&self) -> Option<usize> {
        self.id
    }

    fn to_json(&self) -> (r: String) {
        "{}".to_owned()
    }

    fn name(&self) -> (r: &'static str) {
        "Award"
    }

    fn set_id(&mut self, id: usize) {
        self.id = Some(id);
    }

    fn id(&self) -> (r: Option<usize>) {
        self.id
    }
}

} // verus!
