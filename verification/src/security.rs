//! Where the master encryption key is kept: the entry of the operating
//! system's credential store (its service and user names), and an
//! in-memory store for tests.

use vstd::prelude::*;
use crate::text::owned;

verus! {

/// Service name used for keyring storage.
pub const KEYRING_SERVICE: &'static str = "demiarch";

/// Default username for keyring entries.
pub const KEYRING_USER: &'static str = "master-encryption-key";

/// OS keyring-based master key repository: the entry it reads and writes.
#[derive(Debug, Clone)]
pub struct KeyringMasterKeyRepository {
    pub service: String,
    pub user: String,
}

impl KeyringMasterKeyRepository {
    /// Create a new keyring repository with the default service and user.
    pub fn new() -> (r: KeyringMasterKeyRepository)
        ensures
            r.service@ == KEYRING_SERVICE@,
            r.user@ == KEYRING_USER@,
    {
        KeyringMasterKeyRepository { service: owned(KEYRING_SERVICE), user: owned(KEYRING_USER) }
    }

    /// Create a keyring repository with custom service and user names.
    pub fn with_names(service: &str, user: &str) -> (r: KeyringMasterKeyRepository)
        ensures
            r.service@ == service@,
            r.user@ == user@,
    {
        KeyringMasterKeyRepository { service: owned(service), user: owned(user) }
    }
}

impl Default for KeyringMasterKeyRepository {
    /// The repository of the default entry.
    fn default() -> (r: Self)
        ensures
            r.service@ == KEYRING_SERVICE@,
            r.user@ == KEYRING_USER@,
    {
        KeyringMasterKeyRepository::new()
    }
}

/// In-memory master key repository, for tests: it holds at most one key,
/// in memory only. It is generic over the key it keeps.
#[derive(Debug)]
pub struct InMemoryMasterKeyRepository<K> {
    key: Option<K>,
}

impl<K> View for InMemoryMasterKeyRepository<K> {
    type V = Option<K>;

    /// The key held, if any.
    closed spec fn view(&self) -> Option<K> {
        self.key
    }
}

impl<K> InMemoryMasterKeyRepository<K> {
    /// Create a new, empty in-memory repository.
    pub fn new() -> (r: InMemoryMasterKeyRepository<K>)
        ensures
            r@.is_none(),
    {
        InMemoryMasterKeyRepository { key: None }
    }

    /// Store a key, replacing the one held.
    pub fn store(&mut self, key: K)
        ensures
            final(self)@ == Some(key),
    {
        self.key = Some(key);
    }

    /// The key held, if any.
    pub fn get(&self) -> (r: Option<&K>)
        ensures
            match self@ {
                Some(k) => r is Some && *r->0 == k,
                None => r is None,
            },
    {
        match &self.key {
            Some(k) => Some(k),
            None => None,
        }
    }

    /// Remove the key held; removing from an empty repository does nothing.
    pub fn delete(&mut self)
        ensures
            final(self)@.is_none(),
    {
        self.key = None;
    }

    /// Whether a key is held.
    pub fn key_exists(&self) -> (r: bool)
        ensures
            r == self@.is_some(),
    {
        self.key.is_some()
    }
}

impl<K> Default for InMemoryMasterKeyRepository<K> {
    /// An empty repository.
    fn default() -> (r: Self)
        ensures
            r@.is_none(),
    {
        InMemoryMasterKeyRepository::new()
    }
}

} // verus!
