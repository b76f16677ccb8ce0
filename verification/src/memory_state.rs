//! A backend that keeps the state in memory, with a limit on the number of
//! entries it takes.

use crate::access_path::{AccessPath, AccessPathView};
use crate::chain_state::{
    entry_views, lookup, state_of, BackendError, ChainState, ChainStateSet, EntryView,
};
use crate::write_set::StateMap;
use vstd::prelude::*;

verus! {

/// A key has an entry in the state of a list exactly if it occurs in the list.
pub proof fn lemma_state_of_keys(entries: Seq<EntryView>, path: AccessPathView)
    ensures
        state_of(entries).contains_key(path) <==> exists|j: int|
            0 <= j < entries.len() && (#[trigger] entries[j]).0 == path,
    decreases entries.len(),
{
    if entries.len() > 0 {
        let front = entries.drop_last();
        lemma_state_of_keys(front, path);
        if exists|j: int| 0 <= j < entries.len() && (#[trigger] entries[j]).0 == path {
            let j = choose|j: int| 0 <= j < entries.len() && (#[trigger] entries[j]).0 == path;
            if j < front.len() {
                assert(front[j].0 == path);
            }
        }
    }
}

/// The blob of a key in the state of a list is that of the key's last entry.
pub proof fn lemma_state_of_last(entries: Seq<EntryView>, index: int)
    requires
        0 <= index < entries.len(),
        forall|j: int| index < j < entries.len() ==> (#[trigger] entries[j]).0 != entries[index].0,
    ensures
        lookup(state_of(entries), entries[index].0) == Some(entries[index].1),
    decreases entries.len(),
{
    if index < entries.len() - 1 {
        let front = entries.drop_last();
        assert forall|j: int| index < j < front.len() implies (#[trigger] front[j]).0
            != front[index].0 by {
            assert(entries[j].0 != entries[index].0);
        }
        lemma_state_of_last(front, index);
    }
}

/// A new blob in the place of a key's last entry is a new blob under the key.
pub proof fn lemma_state_of_update(entries: Seq<EntryView>, index: int, blob: Seq<u8>)
    requires
        0 <= index < entries.len(),
        forall|j: int| index < j < entries.len() ==> (#[trigger] entries[j]).0 != entries[index].0,
    ensures
        state_of(entries.update(index, (entries[index].0, blob))) == state_of(entries).insert(
            entries[index].0,
            blob,
        ),
    decreases entries.len(),
{
    let path = entries[index].0;
    let updated = entries.update(index, (path, blob));
    let front = entries.drop_last();
    if index == entries.len() - 1 {
        assert(updated.drop_last() =~= front);
    } else {
        assert forall|j: int| index < j < front.len() implies (#[trigger] front[j]).0
            != front[index].0 by {
            assert(entries[j].0 != entries[index].0);
        }
        lemma_state_of_update(front, index, blob);
        assert(updated.drop_last() =~= front.update(index, (path, blob)));
    }
    assert(state_of(updated) =~= state_of(entries).insert(path, blob));
}

/// Without one entry of a key, the state of a list is the same at every
/// other key.
pub proof fn lemma_state_of_remove(entries: Seq<EntryView>, index: int)
    requires
        0 <= index < entries.len(),
    ensures
        state_of(entries.remove(index)).remove(entries[index].0) == state_of(entries).remove(
            entries[index].0,
        ),
    decreases entries.len(),
{
    let path = entries[index].0;
    let front = entries.drop_last();
    let left = state_of(entries.remove(index)).remove(path);
    let right = state_of(entries).remove(path);
    if index == entries.len() - 1 {
        assert(entries.remove(index) =~= front);
    } else {
        lemma_state_of_remove(front, index);
        let shorter = state_of(front.remove(index));
        let longer = state_of(front);
        assert(entries.remove(index).drop_last() =~= front.remove(index));
        assert forall|key: AccessPathView|
            #![trigger left.dom().contains(key)]
            #![trigger right.dom().contains(key)]
            left.dom().contains(key) == right.dom().contains(key) && (left.dom().contains(key)
                ==> left[key] == right[key]) by {
            if key != path && key != entries.last().0 {
                assert(shorter.remove(path).contains_key(key) == shorter.contains_key(key));
                assert(longer.remove(path).contains_key(key) == longer.contains_key(key));
                if shorter.contains_key(key) {
                    assert(shorter.remove(path)[key] == shorter[key]);
                    assert(longer.remove(path)[key] == longer[key]);
                }
            }
        }
    }
    assert(left =~= right);
}

/// No key occurs twice in the list.
pub open spec fn distinct_keys(entries: Seq<EntryView>) -> bool {
    forall|i: int, j: int| 0 <= i < j < entries.len() ==> entries[i].0 != entries[j].0
}

/// The state of a list has finitely many keys, and those of the state of a
/// part of the list are among them.
pub proof fn lemma_state_of_finite(entries: Seq<EntryView>, part: int)
    requires
        0 <= part <= entries.len(),
    ensures
        state_of(entries).dom().finite(),
        state_of(entries.take(part)).dom().subset_of(state_of(entries).dom()),
    decreases entries.len(),
{
    if entries.len() == 0 {
        assert(entries.take(part) =~= entries);
    } else {
        let front = entries.drop_last();
        if part == entries.len() {
            lemma_state_of_finite(front, 0);
            assert(entries.take(part) =~= entries);
        } else {
            lemma_state_of_finite(front, part);
            assert(entries.take(part) =~= front.take(part));
        }
    }
}

/// The state of a list without a key twice has as many keys as the list has
/// entries.
pub proof fn lemma_state_of_count(entries: Seq<EntryView>)
    requires
        distinct_keys(entries),
    ensures
        state_of(entries).dom().len() == entries.len(),
    decreases entries.len(),
{
    if entries.len() > 0 {
        let front = entries.drop_last();
        lemma_state_of_count(front);
        lemma_state_of_finite(front, 0);
        lemma_state_of_keys(front, entries.last().0);
        assert(state_of(entries).dom() =~= state_of(front).dom().insert(entries.last().0));
    }
}

/// A store in memory. It takes at most `limit` entries and refuses a write
/// that would need one more.
#[derive(Debug)]
pub struct MemoryState {
    entries: Vec<(AccessPath, Vec<u8>)>,
    limit: usize,
}

impl MemoryState {
    /// The entries of the store, oldest first, as values.
    closed spec fn entries(&self) -> Seq<EntryView> {
        entry_views(self.entries@)
    }

    #[verifier::type_invariant]
    closed spec fn one_entry_per_key(&self) -> bool {
        distinct_keys(self.entries())
    }

    /// The number of entries that the store takes.
    pub closed spec fn limit(&self) -> usize {
        self.limit
    }

    /// An empty store that takes as many entries as memory holds.
    pub fn new() -> (store: Self)
        ensures
            store.state() == Map::<AccessPathView, Seq<u8>>::empty(),
            store.limit() == usize::MAX,
    {
        MemoryState { entries: Vec::new(), limit: usize::MAX }
    }

    /// An empty store that takes `limit` entries.
    pub fn with_limit(limit: usize) -> (store: Self)
        ensures
            store.state() == Map::<AccessPathView, Seq<u8>>::empty(),
            store.limit() == limit,
    {
        MemoryState { entries: Vec::new(), limit }
    }

    /// The number of entries in use.
    pub fn len(&self) -> (len: usize)
        ensures
            self.state().dom().finite(),
            len == self.state().dom().len(),
    {
        proof {
            use_type_invariant(self);
            lemma_state_of_count(self.entries());
            lemma_state_of_finite(self.entries(), 0);
        }
        self.entries.len()
    }

    /// The place of the entry of `access_path`.
    fn find(&self, access_path: &AccessPath) -> (place: Option<usize>)
        ensures
            match place {
                Some(index) => index < self.entries().len() && self.entries()[index as int].0
                    == access_path@ && self.state().contains_key(access_path@),
                None => !self.state().contains_key(access_path@),
            },
    {
        let mut i: usize = 0;
        while i < self.entries.len()
            invariant
                i <= self.entries().len(),
                self.entries().len() == self.entries@.len(),
                forall|j: int| 0 <= j < i ==> (#[trigger] self.entries()[j]).0 != access_path@,
            decreases self.entries@.len() - i,
        {
            if self.entries[i].0 == *access_path {
                proof {
                    lemma_state_of_keys(self.entries(), access_path@);
                }
                return Some(i);
            }
            i += 1;
        }
        proof {
            lemma_state_of_keys(self.entries(), access_path@);
        }
        None
    }
}

impl ChainState for MemoryState {
    closed spec fn state(&self) -> StateMap {
        state_of(self.entries())
    }

    /// Reading from memory does not fail.
    fn get(&self, access_path: &AccessPath) -> (result: Result<Option<Vec<u8>>, BackendError>)
        ensures
            result is Ok,
    {
        match self.find(access_path) {
            Some(index) => {
                proof {
                    use_type_invariant(self);
                    lemma_state_of_last(self.entries(), index as int);
                }
                Ok(Some(self.entries[index].1.clone()))
            },
            None => Ok(None),
        }
    }

    /// A write fails exactly where the key has no entry yet and the store
    /// has no room for one.
    fn set(&mut self, access_path: &AccessPath, value: Vec<u8>) -> (result: Result<(), BackendError>)
        ensures
            result is Err <==> !old(self).state().contains_key(access_path@) && old(
                self,
            ).state().dom().len() >= old(self).limit(),
            final(self).limit() == old(self).limit(),
    {
        proof {
            use_type_invariant(&*self);
            lemma_state_of_count(self.entries());
        }
        let ghost before = self.entries();
        match self.find(access_path) {
            Some(index) => {
                proof {
                    lemma_state_of_update(before, index as int, value@);
                }
                let mut entries: Vec<(AccessPath, Vec<u8>)> = Vec::new();
                core::mem::swap(&mut self.entries, &mut entries);
                entries[index] = (access_path.clone(), value);
                assert(entry_views(entries@) =~= before.update(
                    index as int,
                    (access_path@, value@),
                ));
                self.entries = entries;
                Ok(())
            },
            None => {
                if self.entries.len() >= self.limit {
                    return Err(BackendError { message: "the store is full".to_string() });
                }
                proof {
                    lemma_state_of_keys(before, access_path@);
                    assert(before.push((access_path@, value@)).drop_last() =~= before);
                }
                let mut entries: Vec<(AccessPath, Vec<u8>)> = Vec::new();
                core::mem::swap(&mut self.entries, &mut entries);
                entries.push((access_path.clone(), value));
                assert(entry_views(entries@) =~= before.push((access_path@, value@)));
                self.entries = entries;
                Ok(())
            },
        }
    }

    /// Removing from memory does not fail.
    fn delete(&mut self, access_path: &AccessPath) -> (result: Result<(), BackendError>)
        ensures
            result is Ok,
            final(self).limit() == old(self).limit(),
    {
        proof {
            use_type_invariant(&*self);
        }
        let ghost before = self.entries();
        match self.find(access_path) {
            Some(index) => {
                proof {
                    let rest = before.remove(index as int);
                    lemma_state_of_remove(before, index as int);
                    lemma_state_of_keys(rest, access_path@);
                }
                let mut entries: Vec<(AccessPath, Vec<u8>)> = Vec::new();
                core::mem::swap(&mut self.entries, &mut entries);
                entries.remove(index);
                assert(entry_views(entries@) =~= before.remove(index as int));
                self.entries = entries;
                Ok(())
            },
            None => Ok(()),
        }
    }

    /// The replacement fails exactly where the new state has more keys than
    /// the store takes.
    fn apply(&mut self, state_set: ChainStateSet) -> (result: Result<(), BackendError>)
        ensures
            state_set.state().dom().finite(),
            result is Err <==> state_set.state().dom().len() > old(self).limit(),
            final(self).limit() == old(self).limit(),
    {
        let mut next = MemoryState::with_limit(self.limit);
        let ghost all = state_set@;
        let entries = state_set.entries;
        proof {
            lemma_state_of_finite(all, 0);
        }
        let mut i: usize = 0;
        while i < entries.len()
            invariant
                i <= entries@.len(),
                entry_views(entries@) == all,
                all == state_set@,
                self.limit() == old(self).limit(),
                next.limit() == self.limit(),
                next.state() == state_of(all.take(i as int)),
                next.state().dom().len() <= self.limit(),
                state_of(all).dom().finite(),
            decreases entries@.len() - i,
        {
            let blob = entries[i].1.clone();
            proof {
                lemma_state_of_finite(all, i as int);
                lemma_state_of_finite(all, i + 1);
                lemma_state_of_finite(all.take(i as int), 0);
                assert(all.take(i + 1).drop_last() =~= all.take(i as int));
                vstd::set_lib::lemma_len_subset(
                    state_of(all.take(i + 1)).dom(),
                    state_of(all).dom(),
                );
            }
            match next.set(&entries[i].0, blob) {
                Ok(()) => {},
                Err(error) => {
                    return Err(error);
                },
            }
            i += 1;
        }
        proof {
            assert(all.take(i as int) =~= all);
            use_type_invariant(&next);
        }
        self.entries = next.entries;
        Ok(())
    }
}

} // verus!
