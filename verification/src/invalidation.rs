use vstd::prelude::*;

use vstd::hash_map::StringHashMap;

use crate::local_cache::LocalCache;

verus! {

/// Acknowledgement returned to the caller of a successful invalidation.
#[derive(Clone, Copy, Debug, PartialEq, Eq, Structural)]
pub enum ApplicationResponse {
    StatusOk,
}

/// The sole failure kind of invalidation: the remote store's delete did not
/// return success. The underlying cause is not distinguished.
#[derive(Clone, Copy, Debug, PartialEq, Eq, Structural)]
pub enum ApiErrorResponse {
    RemoveRedisKeyFailure,
}

/// Error returned by the key-value store collaborator when a delete does not
/// go through.
#[derive(Clone, Copy, Debug, PartialEq, Eq, Structural)]
pub enum StoreError {
    Unavailable,
}

/// The remote shared cache collaborator: a key-value store reached over the
/// network, consumed here only for its delete operation.
pub trait KeyValueStore {
    /// The store's current contents, keys to values.
    spec fn contents(&self) -> Map<Seq<char>, String>;

    /// Deletes `key` from the store. Success means the key is gone afterward,
    /// whether or not it was present before: deleting an absent key is not a
    /// failure distinct from deleting a present one. On failure nothing is
    /// promised of the store's state.
    fn delete_key(&mut self, key: &str) -> (r: Result<(), StoreError>)
        ensures
            r is Ok ==> final(self).contents() == old(self).contents().remove(key@),
    ;
}

/// An in-memory model of the remote store, faithful to the collaborator
/// contract: deletes succeed regardless of whether the key is present, and a
/// `fail_deletes` switch stands in for a store that cannot be reached.
pub struct ModelStore {
    entries: StringHashMap<String>,
    fail_deletes: bool,
}

impl ModelStore {
    /// True when every delete is made to fail, as an unreachable store's
    /// would.
    pub closed spec fn deletes_fail(&self) -> bool {
        self.fail_deletes
    }

    /// An empty store whose deletes succeed.
    pub fn new() -> (s: Self)
        ensures
            s.contents() == Map::<Seq<char>, String>::empty(),
            !s.deletes_fail(),
    {
        ModelStore { entries: StringHashMap::new(), fail_deletes: false }
    }

    /// Stores `value` under `key`, replacing any prior entry.
    pub fn insert(&mut self, key: String, value: String)
        ensures
            final(self).contents() == old(self).contents().insert(key@, value),
            final(self).deletes_fail() == old(self).deletes_fail(),
    {
        self.entries.insert(key, value);
    }

    /// True when the store holds an entry for `key`.
    pub fn contains_key(&self, key: &str) -> (r: bool)
        ensures
            r == self.contents().contains_key(key@),
    {
        self.entries.contains_key(key)
    }

    /// Makes every later delete fail (or succeed again), leaving the contents
    /// as they are.
    pub fn set_fail_deletes(&mut self, fail: bool)
        ensures
            final(self).contents() == old(self).contents(),
            final(self).deletes_fail() == fail,
    {
        self.fail_deletes = fail;
    }

    /// Deletes `key`: succeeds exactly when deletes are not switched off,
    /// independently of whether the key is present; a failed delete leaves
    /// the contents untouched.
    pub fn remove_key(&mut self, key: &str) -> (r: Result<(), StoreError>)
        ensures
            final(self).deletes_fail() == old(self).deletes_fail(),
            !old(self).deletes_fail() ==> r == Ok::<(), StoreError>(())
                && final(self).contents() == old(self).contents().remove(key@),
            old(self).deletes_fail() ==> r == Err::<(), StoreError>(StoreError::Unavailable)
                && final(self).contents() == old(self).contents(),
    {
        if self.fail_deletes {
            Err(StoreError::Unavailable)
        } else {
            self.entries.remove(key);
            Ok(())
        }
    }
}

impl KeyValueStore for ModelStore {
    closed spec fn contents(&self) -> Map<Seq<char>, String> {
        self.entries@
    }

    fn delete_key(&mut self, key: &str) -> (r: Result<(), StoreError>) {
        self.remove_key(key)
    }
}

/// Turns the remote delete outcome into the invalidation response: any
/// success acknowledges with `StatusOk`, and any failure, whatever its
/// underlying cause, is reported as the single `RemoveRedisKeyFailure` kind.
pub fn delete_outcome_response(outcome: Result<(), StoreError>) -> (r: Result<
    ApplicationResponse,
    ApiErrorResponse,
>)
    ensures
        outcome is Ok ==> r == Ok::<ApplicationResponse, ApiErrorResponse>(
            ApplicationResponse::StatusOk,
        ),
        outcome is Err ==> r == Err::<ApplicationResponse, ApiErrorResponse>(
            ApiErrorResponse::RemoveRedisKeyFailure,
        ),
{
    match outcome {
        Ok(_) => Ok(ApplicationResponse::StatusOk),
        Err(_) => Err(ApiErrorResponse::RemoveRedisKeyFailure),
    }
}

/// Invalidates a configuration key, in strict order: first removes it from
/// the process-local cache unconditionally, then issues a delete against the
/// remote store. Success is acknowledged only when the remote delete
/// succeeds; on failure the single `RemoveRedisKeyFailure` error is returned
/// and the local removal, already performed, is not rolled back — a local
/// cache miss safely falls through to a re-fetch, so local staleness is
/// treated as worse than remote staleness. No retry is attempted.
pub fn invalidate<V, S: KeyValueStore>(store: &mut S, local: &mut LocalCache<V>, key: &str) -> (r:
    Result<ApplicationResponse, ApiErrorResponse>)
    requires
        key@.len() > 0,
    ensures
        final(local)@ == old(local)@.remove(key@),
        !final(local)@.contains_key(key@),
        r is Ok ==> r == Ok::<ApplicationResponse, ApiErrorResponse>(
            ApplicationResponse::StatusOk,
        ) && final(store).contents() == old(store).contents().remove(key@)
            && !final(store).contents().contains_key(key@),
        r is Err ==> r == Err::<ApplicationResponse, ApiErrorResponse>(
            ApiErrorResponse::RemoveRedisKeyFailure,
        ),
{
    local.remove(key);
    let outcome = store.delete_key(key);
    delete_outcome_response(outcome)
}

/// Idempotence of invalidation on a cache's contents: removing a key twice
/// leaves exactly the state that removing it once does, and removing a key
/// that is already absent changes nothing at all.
pub proof fn lemma_invalidate_idempotent<V>(m: Map<Seq<char>, V>, key: Seq<char>)
    ensures
        m.remove(key).remove(key) =~= m.remove(key),
        !m.contains_key(key) ==> m.remove(key) =~= m,
{
}

} // verus!
