//! A small by-name cache, used by the hosted backend to avoid re-querying
//! the host for a uniform location it has already been given.

use vstd::prelude::*;

verus! {

/// Whether some entry of `entries` carries the given name.
pub open spec fn seq_has_name<V>(entries: Seq<(String, V)>, name: Seq<char>) -> bool {
    exists|i: int| 0 <= i < entries.len() && entries[i].0@ == name
}

/// An append-only association of names to values, looked up by name.
pub struct NameCache<V> {
    /// The entries, oldest first.
    pub entries: Vec<(String, V)>,
}

impl<V> NameCache<V> {
    /// Whether the cache holds an entry for `name`.
    pub open spec fn has_name(self, name: Seq<char>) -> bool {
        seq_has_name(self.entries@, name)
    }

    /// An empty cache.
    pub fn new() -> (c: Self)
        ensures
            c.entries@ == Seq::<(String, V)>::empty(),
    {
        NameCache { entries: Vec::new() }
    }

    /// Looks a name up: the index of the entry carrying it, if one exists.
    pub fn find(&self, name: &String) -> (r: Option<usize>)
        ensures
            match r {
                Some(i) => i < self.entries@.len() && self.entries@[i as int].0@ == name@,
                None => !self.has_name(name@),
            },
    {
        let mut i: usize = 0;
        while i < self.entries.len()
            invariant
                0 <= i <= self.entries@.len(),
                forall|j: int| 0 <= j < i ==> self.entries@[j].0@ != name@,
            decreases self.entries@.len() - i,
        {
            if self.entries[i].0 == *name {
                return Some(i);
            }
            i = i + 1;
        }
        None
    }

    /// Appends an entry.
    pub fn insert(&mut self, name: String, v: V)
        ensures
            final(self).entries@ == old(self).entries@.push((name, v)),
    {
        self.entries.push((name, v));
    }
}

/// Cache-hit law: once a lookup has left an entry for a name in the cache,
/// any later lookup of that name finds it, and so — by the lookup contracts
/// of the hosted context — issues no further host query.
pub proof fn lemma_second_request_hits_cache<V>(entries: Seq<(String, V)>, entry: (String, V))
    ensures
        seq_has_name(entries.push(entry), entry.0@),
{
    assert(entries.push(entry)[entries.len() as int] == entry);
}

} // verus!
