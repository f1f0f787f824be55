use vstd::prelude::*;

use vstd::hash_map::StringHashMap;

verus! {

/// The process-local configuration cache: a mapping from configuration keys
/// to cached values, owned by whoever drives the invalidator and handed in
/// explicitly. Only `get`, `set` and `remove` are exposed; removing an absent
/// key is a no-op rather than a failure.
#[verifier::reject_recursive_types(V)]
pub struct LocalCache<V> {
    entries: StringHashMap<V>,
}

impl<V> View for LocalCache<V> {
    type V = Map<Seq<char>, V>;

    closed spec fn view(&self) -> Map<Seq<char>, V> {
        self.entries@
    }
}

impl<V> LocalCache<V> {
    /// An empty cache.
    pub fn new() -> (c: Self)
        ensures
            c@ == Map::<Seq<char>, V>::empty(),
    {
        LocalCache { entries: StringHashMap::new() }
    }

    /// Caches `value` under `key`, replacing any prior entry for `key`.
    pub fn set(&mut self, key: String, value: V)
        ensures
            final(self)@ == old(self)@.insert(key@, value),
    {
        self.entries.insert(key, value);
    }

    /// Looks `key` up; `None` means a cache miss.
    pub fn get(&self, key: &str) -> (r: Option<&V>)
        ensures
            match r {
                Option::Some(v) => self@.contains_key(key@) && *v == self@[key@],
                Option::None => !self@.contains_key(key@),
            },
    {
        self.entries.get(key)
    }

    /// Removes the entry for `key`; absent keys are left alone, silently.
    pub fn remove(&mut self, key: &str)
        ensures
            final(self)@ == old(self)@.remove(key@),
            !final(self)@.contains_key(key@),
    {
        self.entries.remove(key);
    }
}

} // verus!
