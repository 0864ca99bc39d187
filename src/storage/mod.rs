use vstd::prelude::*;

use crate::errors::DictError;
use crate::Value;

pub mod memory;

verus! {

/// The dataset as a map from key text to value bytes.
pub type Dataset = Map<Seq<char>, Seq<u8>>;

/// What a lookup of `k` in `d` finds.
pub open spec fn lookup(d: Dataset, k: Seq<char>) -> Option<Seq<u8>> {
    if d.contains_key(k) {
        Some(d[k])
    } else {
        None
    }
}

/// `r` is what `get` answers for `k` on `d`: the stored bytes where the key is
/// present, else `KeyNotFound` naming the key.
pub open spec fn answers_get(d: Dataset, k: Seq<char>, r: Result<Value, DictError>) -> bool {
    match r {
        Ok(v) => lookup(d, k) == Some(v@),
        Err(e) => lookup(d, k) is None && e.is_key_not_found_for(k),
    }
}

/// A storage engine: a keyed dataset with get, set and delete.
pub trait Storage {
    /// The dataset that the engine holds.
    spec fn dataset(&self) -> Dataset;

    /// The engine's internal invariant.
    spec fn wf(&self) -> bool;

    /// Looks `key` up; the dataset is not changed.
    fn get(&self, key: &str) -> (r: Result<Value, DictError>)
        requires
            self.wf(),
        ensures
            answers_get(self.dataset(), key@, r),
    ;

    /// Stores `value` under `key`, replacing what was there; always succeeds.
    fn set(&mut self, key: &str, value: &Value) -> (r: Result<(), DictError>)
        requires
            old(self).wf(),
        ensures
            final(self).wf(),
            final(self).dataset() == old(self).dataset().insert(key@, value@),
            r is Ok,
    ;

    /// Removes `key` if it is present; always succeeds.
    fn delete(&mut self, key: &str) -> (r: Result<(), DictError>)
        requires
            old(self).wf(),
        ensures
            final(self).wf(),
            final(self).dataset() == old(self).dataset().remove(key@),
            r is Ok,
    ;
}

/// After `set(k, v)`, `get(k)` answers `v`, and a set or delete of any other
/// key in between leaves that so: `r1`, `r2`, `r3` stand for whatever `get(k)`
/// may answer on each of those datasets.
pub proof fn lemma_get_after_set(
    d: Dataset,
    k: Seq<char>,
    v: Seq<u8>,
    other: Seq<char>,
    w: Seq<u8>,
    r1: Result<Value, DictError>,
    r2: Result<Value, DictError>,
    r3: Result<Value, DictError>,
)
    requires
        other != k,
        answers_get(d.insert(k, v), k, r1),
        answers_get(d.insert(k, v).insert(other, w), k, r2),
        answers_get(d.insert(k, v).remove(other), k, r3),
    ensures
        r1 matches Ok(x) && x@ == v,
        r2 matches Ok(x) && x@ == v,
        r3 matches Ok(x) && x@ == v,
{
}

/// On a key that was never set, or was deleted with no set since, `get`
/// fails with `KeyNotFound` naming that key.
pub proof fn lemma_missing_key(
    d: Dataset,
    k: Seq<char>,
    v: Seq<u8>,
    r1: Result<Value, DictError>,
    r2: Result<Value, DictError>,
)
    requires
        answers_get(Map::empty(), k, r1),
        answers_get(d.insert(k, v).remove(k), k, r2),
    ensures
        r1 matches Err(e) && e.is_key_not_found_for(k),
        r2 matches Err(e) && e.is_key_not_found_for(k),
{
}

/// Deleting a key twice leaves the same dataset as deleting it once, and
/// deleting an absent key changes nothing.
pub proof fn lemma_delete_idempotent(d: Dataset, k: Seq<char>)
    ensures
        d.remove(k).remove(k) == d.remove(k),
        !d.contains_key(k) ==> d.remove(k) == d,
{
    assert(d.remove(k).remove(k) =~= d.remove(k));
    if !d.contains_key(k) {
        assert(d.remove(k) =~= d);
    }
}

/// After `set(k, v1)` then `set(k, v2)`, `get(k)` answers `v2`, and the
/// dataset is as if only the second set had happened.
pub proof fn lemma_overwrite(d: Dataset, k: Seq<char>, v1: Seq<u8>, v2: Seq<u8>, r: Result<Value, DictError>)
    requires
        answers_get(d.insert(k, v1).insert(k, v2), k, r),
    ensures
        r matches Ok(x) && x@ == v2,
        d.insert(k, v1).insert(k, v2) == d.insert(k, v2),
{
    assert(d.insert(k, v1).insert(k, v2) =~= d.insert(k, v2));
}

/// The dataset after `set(keys[0], v)`, `set(keys[1], v)`, ... in that order,
/// starting from `d`.
pub open spec fn after_sets(d: Dataset, keys: Seq<Seq<char>>, v: Seq<u8>) -> Dataset
    decreases keys.len(),
{
    if keys.len() == 0 {
        d
    } else {
        after_sets(d, keys.drop_last(), v).insert(keys.last(), v)
    }
}

/// Sets of `n` distinct keys on an empty engine, in whatever order they
/// complete, leave exactly those keys, `n` entries, each holding its value.
pub proof fn lemma_distinct_sets(keys: Seq<Seq<char>>, v: Seq<u8>)
    requires
        keys.no_duplicates(),
    ensures
        after_sets(Map::empty(), keys, v).dom() == keys.to_set(),
        after_sets(Map::empty(), keys, v).len() == keys.len(),
        forall|i: int| 0 <= i < keys.len() ==> lookup(after_sets(Map::empty(), keys, v), #[trigger] keys[i]) == Some(v),
    decreases keys.len(),
{
    let d = after_sets(Map::empty(), keys, v);
    if keys.len() == 0 {
        assert(d.dom() =~= keys.to_set());
    } else {
        let front = keys.drop_last();
        assert(front.no_duplicates()) by {
            assert forall|i: int, j: int| 0 <= i < j < front.len() implies front[i] != front[j] by {
                assert(front[i] == keys[i] && front[j] == keys[j]);
            }
        }
        lemma_distinct_sets(front, v);
        let p = after_sets(Map::empty(), front, v);
        assert(!front.contains(keys.last())) by {
            if front.contains(keys.last()) {
                let i = choose|i: int| 0 <= i < front.len() && front[i] == keys.last();
                assert(keys[i] == keys[keys.len() - 1]);
            }
        }
        assert(!p.dom().contains(keys.last()));
        assert(d.dom() =~= keys.to_set()) by {
            assert forall|k: Seq<char>| d.dom().contains(k) <==> keys.to_set().contains(k) by {
                if front.contains(k) {
                    let i = choose|i: int| 0 <= i < front.len() && front[i] == k;
                    assert(keys[i] == k);
                }
                if keys.contains(k) && k != keys.last() {
                    let i = choose|i: int| 0 <= i < keys.len() && keys[i] == k;
                    assert(front[i] == k);
                }
                if k == keys.last() {
                    assert(keys[keys.len() - 1] == k);
                }
            }
        }
        assert forall|i: int| 0 <= i < keys.len() implies lookup(d, #[trigger] keys[i]) == Some(v) by {
            if i < keys.len() - 1 {
                assert(front[i] == keys[i]);
            }
        }
    }
}

} // verus!
