//! The settings of a task that is about to be spawned.

use vstd::prelude::*;

verus! {

/// Factory which is used to configure the properties of a new task.
///
/// The task name only exists for `tokio`'s `tracing` instrumentation,
/// which has no equivalent on the web, so the name is kept and nothing
/// reads it when the task is spawned.
#[derive(Debug)]
pub struct Builder<'a> {
    name: Option<&'a str>,
}

impl<'a> Builder<'a> {
    /// The name given to the task, if any.
    pub closed spec fn spec_name(&self) -> Option<Seq<char>> {
        match self.name {
            Some(name) => Some(name@),
            None => None,
        }
    }

    /// Creates a new task builder, with no name.
    pub fn new() -> (builder: Builder<'a>)
        ensures
            builder.spec_name() is None,
    {
        Builder { name: None }
    }

    /// Assigns a name to the task which will be spawned.
    pub fn name(&self, name: &'a str) -> (builder: Builder<'a>)
        ensures
            builder.spec_name() == Some(name@),
    {
        Builder { name: Some(name) }
    }

    /// Returns the name given to the task, if any.
    pub fn task_name(&self) -> (name: Option<&'a str>)
        ensures
            self.spec_name() is None ==> name is None,
            self.spec_name() is Some ==> name is Some && self.spec_name() == Some(name.unwrap()@),
    {
        self.name
    }
}

impl<'a> Default for Builder<'a> {
    fn default() -> (builder: Builder<'a>)
        ensures
            builder.spec_name() is None,
    {
        Builder::new()
    }
}

} // verus!
