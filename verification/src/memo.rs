//! A memo table from text keys to values: what it remembers under a key it
//! remembers for good. The keys are kept in a `dashmap::DashMap`, each with
//! the number of the slot that holds its value.

use vstd::prelude::*;
use vstd::string::*;

verus! {

/// `dashmap::DashMap`, a concurrent hash map. What one holds is spoken of
/// through `index_entries`.
#[verifier::external_type_specification]
#[verifier::external_body]
#[verifier::reject_recursive_types(K)]
#[verifier::reject_recursive_types(V)]
#[verifier::reject_recursive_types(S)]
pub struct ExDashMap<K, V, S>(dashmap::DashMap<K, V, S>);

/// What an index holds: the slot number of each key that is in it.
pub uninterp spec fn index_entries(m: dashmap::DashMap<String, usize>) -> Map<Seq<char>, usize>;

/// Calls `DashMap::new`: the new index holds nothing.
#[verifier::external_body]
pub(crate) fn index_new() -> (r: dashmap::DashMap<String, usize>)
    ensures
        index_entries(r) =~= Map::empty(),
{
    dashmap::DashMap::new()
}

/// Calls `DashMap::get` and copies the slot number out of the guard: the
/// number stored under `key`, or `None` where the key is not in the index.
#[verifier::external_body]
pub(crate) fn index_get(m: &dashmap::DashMap<String, usize>, key: &str) -> (r: Option<usize>)
    ensures
        r == (if index_entries(*m).contains_key(key@) {
            Some(index_entries(*m)[key@])
        } else {
            None
        }),
{
    m.get(key).map(|e| *e.value())
}

/// Calls `DashMap::insert`: afterwards `key` leads to `slot`, and every
/// other key to what it led to before.
#[verifier::external_body]
pub(crate) fn index_insert(m: &mut dashmap::DashMap<String, usize>, key: String, slot: usize)
    ensures
        index_entries(*final(m)) == index_entries(*old(m)).insert(key@, slot),
{
    m.insert(key, slot);
}

/// A memo table: what was remembered under each key.
pub struct Memo<T> {
    index: dashmap::DashMap<String, usize>,
    slots: Vec<T>,
}

impl<T> Memo<T> {
    /// Every key leads to a slot that exists.
    pub closed spec fn wf(&self) -> bool {
        forall|k: Seq<char>| #[trigger]
            index_entries(self.index).contains_key(k) ==> index_entries(self.index)[k]
                < self.slots@.len()
    }

    /// What is remembered under the key.
    pub closed spec fn recall(&self, key: Seq<char>) -> Option<T> {
        if index_entries(self.index).contains_key(key) {
            Some(self.slots@[index_entries(self.index)[key] as int])
        } else {
            None
        }
    }

    /// A table that remembers nothing.
    pub fn new() -> (r: Memo<T>)
        ensures
            r.wf(),
            forall|k: Seq<char>| r.recall(k) is None,
    {
        Memo { index: index_new(), slots: Vec::new() }
    }

    /// What is remembered under the key.
    pub fn get(&self, key: &str) -> (r: Option<&T>)
        requires
            self.wf(),
        ensures
            match r {
                Some(v) => self.recall(key@) == Some(*v),
                None => self.recall(key@) is None,
            },
    {
        match index_get(&self.index, key) {
            Some(slot) => Some(&self.slots[slot]),
            None => None,
        }
    }

    /// Remembers the value under the key, unless something is remembered
    /// there already: what is remembered is never replaced. What is
    /// remembered under other keys stays.
    pub fn remember(&mut self, key: String, value: T)
        requires
            old(self).wf(),
        ensures
            final(self).wf(),
            forall|k: Seq<char>|
                final(self).recall(k) == (if k == key@ && old(self).recall(key@) is None {
                    Some(value)
                } else {
                    old(self).recall(k)
                }),
    {
        if index_get(&self.index, key.as_str()).is_none() {
            let slot: usize = self.slots.len();
            self.slots.push(value);
            index_insert(&mut self.index, key, slot);
        }
    }
}

} // verus!
