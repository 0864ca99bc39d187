use vstd::prelude::*;

verus! {

/// The failures of the store: a key that is absent on lookup, and a command
/// handed to an entry point of the dispatcher that does not take its tag.
#[derive(Debug)]
pub enum DictError {
    KeyNotFound(String),
    InvalidCommand(String),
}

impl DictError {
    /// The error is `KeyNotFound` for exactly the key `k`.
    pub open spec fn is_key_not_found_for(&self, k: Seq<char>) -> bool {
        match self {
            DictError::KeyNotFound(s) => s@ == k,
            _ => false,
        }
    }

    /// Both errors are of one kind and carry the same text.
    pub open spec fn same_as(&self, other: &DictError) -> bool {
        match (self, other) {
            (DictError::KeyNotFound(a), DictError::KeyNotFound(b)) => a@ == b@,
            (DictError::InvalidCommand(a), DictError::InvalidCommand(b)) => a@ == b@,
            _ => false,
        }
    }

    /// The error is `InvalidCommand` with exactly the message `m`.
    pub open spec fn is_invalid_command_with(&self, m: Seq<char>) -> bool {
        match self {
            DictError::InvalidCommand(s) => s@ == m,
            _ => false,
        }
    }
}

impl PartialEq for DictError {
    fn eq(&self, other: &DictError) -> (r: bool)
        ensures
            r == self.same_as(other),
    {
        match (self, other) {
            (DictError::KeyNotFound(a), DictError::KeyNotFound(b)) => a.eq(b),
            (DictError::InvalidCommand(a), DictError::InvalidCommand(b)) => a.eq(b),
            _ => false,
        }
    }
}

impl vstd::std_specs::cmp::PartialEqSpecImpl for DictError {
    open spec fn obeys_eq_spec() -> bool {
        true
    }

    open spec fn eq_spec(&self, other: &DictError) -> bool {
        self.same_as(other)
    }
}

} // verus!
