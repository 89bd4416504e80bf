//! The token registry: which asset stands behind each token id.

use std::collections::HashMap;
use vstd::prelude::*;
use crate::account::AccountId;
use crate::error::Error;

verus! {

broadcast use vstd::std_specs::hash::group_hash_axioms;

/// Maps a token id to the handle of its asset. An entry is written once and
/// never changed.
pub struct TokenRegistry {
    handles: HashMap<u64, AccountId>,
}

impl View for TokenRegistry {
    type V = Map<u64, AccountId>;

    closed spec fn view(&self) -> Map<u64, AccountId> {
        self.handles@
    }
}

impl TokenRegistry {
    /// A registry without tokens.
    pub fn new() -> (registry: TokenRegistry)
        ensures
            registry@ == Map::<u64, AccountId>::empty(),
    {
        TokenRegistry { handles: HashMap::new() }
    }

    /// Registers `handle` under `id`. An id that is taken is refused and the
    /// registry stays as it was.
    pub fn register(&mut self, id: u64, handle: AccountId) -> (done: Result<(), Error>)
        ensures
            old(self)@.contains_key(id) ==> done == Err::<(), Error>(Error::DuplicateId)
                && final(self)@ == old(self)@,
            !old(self)@.contains_key(id) ==> done == Ok::<(), Error>(()) && final(self)@ == old(
                self,
            )@.insert(id, handle),
    {
        if self.handles.contains_key(&id) {
            return Err(Error::DuplicateId);
        }
        self.handles.insert(id, handle);
        Ok(())
    }

    /// The handle registered under `id`, if there is one.
    pub fn resolve(&self, id: u64) -> (handle: Option<AccountId>)
        ensures
            handle == if self@.contains_key(id) {
                Some(self@[id])
            } else {
                None
            },
    {
        match self.handles.get(&id) {
            Some(handle) => Some(*handle),
            None => None,
        }
    }
}

} // verus!
