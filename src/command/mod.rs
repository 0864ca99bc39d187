use vstd::prelude::*;

use crate::errors::DictError;
use crate::storage::{answers_get, Dataset};
use crate::Value;

pub mod handler;
pub mod handler_v1;

verus! {

/// A request: each tag carries the operands that its operation needs.
#[derive(Debug)]
pub enum Command {
    Get(String),
    Put(String, Value),
    Delete(String),
}

/// The message of the error for a command that the get entry point refuses.
pub open spec fn get_expected() -> Seq<char> {
    "expect get command"@
}

/// The message of the error for a command that the set entry point refuses.
pub open spec fn set_expected() -> Seq<char> {
    "expect set command"@
}

/// The message of the error for a command that the delete entry point refuses.
pub open spec fn delete_expected() -> Seq<char> {
    "expect delete command"@
}

/// A dispatcher: three entry points, each of which takes only commands of its
/// own tag and forwards them to a storage engine.
pub trait CommandHandle {
    /// The dataset of the engine behind the dispatcher.
    spec fn dataset(&self) -> Dataset;

    /// The invariant of the engine behind the dispatcher.
    spec fn wf(&self) -> bool;

    /// A `Get` is answered as the engine's `get` answers it; any other tag
    /// fails with `InvalidCommand`.
    fn get(&self, cmd: Command) -> (r: Result<Value, DictError>)
        requires
            self.wf(),
        ensures
            match cmd {
                Command::Get(k) => answers_get(self.dataset(), k@, r),
                _ => r matches Err(e) && e.is_invalid_command_with(get_expected()),
            },
    ;

    /// A `Put` stores its value under its key; any other tag fails with
    /// `InvalidCommand` and leaves the dataset as it was.
    fn set(&mut self, cmd: Command) -> (r: Result<(), DictError>)
        requires
            old(self).wf(),
        ensures
            final(self).wf(),
            match cmd {
                Command::Put(k, v) => r is Ok && final(self).dataset() == old(self).dataset().insert(
                    k@,
                    v@,
                ),
                _ => r matches Err(e) && e.is_invalid_command_with(set_expected())
                    && final(self).dataset() == old(self).dataset(),
            },
    ;

    /// A `Delete` removes its key; any other tag fails with `InvalidCommand`
    /// and leaves the dataset as it was.
    fn delete(&mut self, cmd: Command) -> (r: Result<(), DictError>)
        requires
            old(self).wf(),
        ensures
            final(self).wf(),
            match cmd {
                Command::Delete(k) => r is Ok && final(self).dataset() == old(self).dataset().remove(
                    k@,
                ),
                _ => r matches Err(e) && e.is_invalid_command_with(delete_expected())
                    && final(self).dataset() == old(self).dataset(),
            },
    ;
}

} // verus!
