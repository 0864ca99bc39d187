use vstd::prelude::*;

use super::{answers_get, Dataset, Storage};
use crate::errors::DictError;
use crate::Value;

verus! {

/// An in-memory storage engine. Each key appears in at most one entry.
pub struct MemDB {
    entries: Vec<(String, Value)>,
    contents: Ghost<Dataset>,
}

impl MemDB {
    /// An empty engine whose storage is pre-sized for `size` entries; the
    /// hint bounds nothing.
    pub fn new(size: usize) -> (r: MemDB)
        ensures
            r.wf(),
            r.dataset() == Map::<Seq<char>, Seq<u8>>::empty(),
    {
        MemDB { entries: Vec::with_capacity(size), contents: Ghost(Map::empty()) }
    }

    /// The number of keys in the dataset.
    pub fn length(&self) -> (r: usize)
        requires
            self.wf(),
        ensures
            r == self.dataset().len(),
    {
        self.entries.len()
    }

    /// The index of the entry for `key`, if there is one.
    fn position(&self, key: &String) -> (r: Option<usize>)
        requires
            self.wf(),
        ensures
            match r {
                Some(i) => i < self.entries@.len() && self.entries@[i as int].0@ == key@,
                None => !self.dataset().contains_key(key@),
            },
    {
        let mut i: usize = 0;
        while i < self.entries.len()
            invariant
                self.wf(),
                i <= self.entries@.len(),
                forall|j: int| 0 <= j < i ==> self.entries@[j].0@ != key@,
            decreases self.entries@.len() - i,
        {
            if self.entries[i].0.eq(key) {
                return Some(i);
            }
            i = i + 1;
        }
        None
    }
}

impl Storage for MemDB {
    closed spec fn dataset(&self) -> Dataset {
        self.contents@
    }

    closed spec fn wf(&self) -> bool {
        let e = self.entries@;
        let d = self.contents@;
        &&& forall|i: int, j: int|
            0 <= i < j < e.len() ==> #[trigger] e[i].0@ != #[trigger] e[j].0@
        &&& forall|i: int|
            0 <= i < e.len() ==> d.contains_key(#[trigger] e[i].0@) && d[e[i].0@] == e[i].1@
        &&& forall|k: Seq<char>|
            #[trigger] d.contains_key(k) ==> exists|i: int| 0 <= i < e.len() && e[i].0@ == k
        &&& d.dom().finite()
        &&& d.len() == e.len()
    }

    fn get(&self, key: &str) -> (r: Result<Value, DictError>) {
        let k = key.to_owned();
        match self.position(&k) {
            Some(i) => Ok(self.entries[i].1.duplicate()),
            None => Err(DictError::KeyNotFound(k)),
        }
    }

    fn set(&mut self, key: &str, value: &Value) -> (r: Result<(), DictError>) {
        let k = key.to_owned();
        let ghost d = self.contents@;
        match self.position(&k) {
            Some(i) => {
                self.entries.set(i, (k, value.duplicate()));
                self.contents = Ghost(d.insert(key@, value@));
                assert(d.insert(key@, value@).dom() =~= d.dom());
                assert forall|k2: Seq<char>| #[trigger] self.contents@.contains_key(k2) implies exists|j: int|
                    0 <= j < self.entries@.len() && self.entries@[j].0@ == k2 by {
                    let j = choose|j: int| 0 <= j < old(self).entries@.len() && old(self).entries@[j].0@ == k2;
                    assert(self.entries@[j].0@ == k2);
                }
            },
            None => {
                self.entries.push((k, value.duplicate()));
                self.contents = Ghost(d.insert(key@, value@));
                let ghost n = old(self).entries@.len() as int;
                assert(self.entries@[n].0@ == key@);
                assert forall|k2: Seq<char>| #[trigger] self.contents@.contains_key(k2) implies exists|j: int|
                    0 <= j < self.entries@.len() && self.entries@[j].0@ == k2 by {
                    if k2 != key@ {
                        let j = choose|j: int| 0 <= j < old(self).entries@.len() && old(self).entries@[j].0@ == k2;
                        assert(self.entries@[j].0@ == k2);
                    } else {
                        assert(self.entries@[n].0@ == k2);
                    }
                }
            },
        }
        Ok(())
    }

    fn delete(&mut self, key: &str) -> (r: Result<(), DictError>) {
        let k = key.to_owned();
        let ghost d = self.contents@;
        match self.position(&k) {
            Some(i) => {
                let ghost e = self.entries@;
                self.entries.remove(i);
                self.contents = Ghost(d.remove(key@));
                let ghost ne = self.entries@;
                assert(ne =~= e.remove(i as int));
                assert(d.contains_key(key@));
                assert forall|a: int, b: int| 0 <= a < b < ne.len() implies #[trigger] ne[a].0@
                    != #[trigger] ne[b].0@ by {
                    let oa = if a < i { a } else { a + 1 };
                    let ob = if b < i { b } else { b + 1 };
                    assert(ne[a] == e[oa] && ne[b] == e[ob]);
                }
                assert forall|a: int| 0 <= a < ne.len() implies self.contents@.contains_key(
                    #[trigger] ne[a].0@) && self.contents@[ne[a].0@] == ne[a].1@ by {
                    let oa = if a < i { a } else { a + 1 };
                    assert(ne[a] == e[oa]);
                    assert(e[oa].0@ != e[i as int].0@);
                }
                assert forall|k2: Seq<char>| #[trigger] self.contents@.contains_key(k2) implies exists|j: int|
                    0 <= j < ne.len() && ne[j].0@ == k2 by {
                    let j = choose|j: int| 0 <= j < e.len() && e[j].0@ == k2;
                    assert(j != i);
                    if j < i {
                        assert(ne[j] == e[j]);
                    } else {
                        assert(ne[j - 1] == e[j]);
                    }
                }
            },
            None => {
                assert(d.remove(key@) =~= d);
                self.contents = Ghost(d.remove(key@));
            },
        }
        Ok(())
    }
}

} // verus!
