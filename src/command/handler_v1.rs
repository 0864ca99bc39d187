use vstd::prelude::*;

use super::{get_expected, Command};
use crate::errors::DictError;
use crate::storage::{answers_get, Dataset, Storage};
use crate::Value;

verus! {

/// A dispatcher that borrows its storage engine. Holding a shared borrow, it
/// can only read: it has the get entry point alone.
pub struct CommandHandler<'a, T: Storage> {
    store: &'a T,
}

impl<'a, T: Storage> CommandHandler<'a, T> {
    /// The dataset of the borrowed engine.
    pub closed spec fn dataset(&self) -> Dataset {
        self.store.dataset()
    }

    /// The invariant of the borrowed engine.
    pub closed spec fn wf(&self) -> bool {
        self.store.wf()
    }

    /// Binds a dispatcher to the engine `store`.
    pub fn new(store: &'a T) -> (r: Self)
        requires
            store.wf(),
        ensures
            r.wf(),
            r.dataset() == store.dataset(),
    {
        CommandHandler { store }
    }

    /// A `Get` is answered as the engine's `get` answers it; any other tag
    /// fails with `InvalidCommand`.
    pub fn get(&self, cmd: Command) -> (r: Result<Value, DictError>)
        requires
            self.wf(),
        ensures
            match cmd {
                Command::Get(k) => answers_get(self.dataset(), k@, r),
                _ => r matches Err(e) && e.is_invalid_command_with(get_expected()),
            },
    {
        match cmd {
            Command::Get(key) => self.store.get(key.as_str()),
            _ => Err(DictError::InvalidCommand("expect get command".to_owned())),
        }
    }
}

} // verus!
