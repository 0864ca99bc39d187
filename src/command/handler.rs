use vstd::prelude::*;

use super::{Command, CommandHandle};
use crate::errors::DictError;
use crate::storage::{Dataset, Storage};
use crate::Value;

verus! {

/// The dispatcher that owns its storage engine for its whole life.
pub struct CommandHandler<S: Storage> {
    store: S,
}

impl<S: Storage> CommandHandler<S> {
    /// Binds a dispatcher to `store`.
    pub fn new(store: S) -> (r: Self)
        requires
            store.wf(),
        ensures
            r.wf(),
            r.dataset() == store.dataset(),
    {
        CommandHandler { store }
    }
}

impl<S: Storage> CommandHandle for CommandHandler<S> {
    closed spec fn dataset(&self) -> Dataset {
        self.store.dataset()
    }

    closed spec fn wf(&self) -> bool {
        self.store.wf()
    }

    fn get(&self, cmd: Command) -> (r: Result<Value, DictError>) {
        match cmd {
            Command::Get(key) => self.store.get(key.as_str()),
            _ => Err(DictError::InvalidCommand("expect get command".to_owned())),
        }
    }

    fn set(&mut self, cmd: Command) -> (r: Result<(), DictError>) {
        match cmd {
            Command::Put(key, value) => self.store.set(key.as_str(), &value),
            _ => Err(DictError::InvalidCommand("expect set command".to_owned())),
        }
    }

    fn delete(&mut self, cmd: Command) -> (r: Result<(), DictError>) {
        match cmd {
            Command::Delete(key) => self.store.delete(key.as_str()),
            _ => Err(DictError::InvalidCommand("expect delete command".to_owned())),
        }
    }
}

} // verus!
