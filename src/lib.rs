//! An in-process key/value store: a storage engine with get, set and delete
//! over a keyed dataset, and a command dispatcher that checks the tag of each
//! request before it forwards it to the engine.
use vstd::prelude::*;

pub mod command;
pub mod errors;
pub mod storage;

verus! {

/// An opaque byte sequence stored under a key.
#[derive(Debug)]
pub struct Value {
    pub value: Vec<u8>,
}

impl View for Value {
    type V = Seq<u8>;

    open spec fn view(&self) -> Seq<u8> {
        self.value@
    }
}

impl Value {
    /// A fresh value holding the same bytes, so that no caller shares the
    /// engine's own copy.
    pub fn duplicate(&self) -> (r: Value)
        ensures
            r@ == self@,
    {
        let mut bytes: Vec<u8> = Vec::with_capacity(self.value.len());
        let mut i: usize = 0;
        while i < self.value.len()
            invariant
                i <= self.value@.len(),
                bytes@ == self.value@.subrange(0, i as int),
            decreases self.value@.len() - i,
        {
            bytes.push(self.value[i]);
            i = i + 1;
        }
        assert(bytes@ =~= self.value@);
        Value { value: bytes }
    }
}

impl Clone for Value {
    fn clone(&self) -> (r: Value)
        ensures
            r@ == self@,
    {
        self.duplicate()
    }
}

impl PartialEq for Value {
    fn eq(&self, other: &Value) -> (r: bool)
        ensures
            r == (self@ == other@),
    {
        if self.value.len() != other.value.len() {
            return false;
        }
        let mut i: usize = 0;
        while i < self.value.len()
            invariant
                self.value@.len() == other.value@.len(),
                i <= self.value@.len(),
                forall|j: int| 0 <= j < i ==> self.value@[j] == other.value@[j],
            decreases self.value@.len() - i,
        {
            if self.value[i] != other.value[i] {
                return false;
            }
            i = i + 1;
        }
        assert(self.value@ =~= other.value@);
        true
    }
}

impl vstd::std_specs::cmp::PartialEqSpecImpl for Value {
    open spec fn obeys_eq_spec() -> bool {
        true
    }

    open spec fn eq_spec(&self, other: &Value) -> bool {
        self@ == other@
    }
}

} // verus!
