//! A store of banned tokens held in memory.

use crate::domain::{BannedTokenStore, BannedTokenStoreError};
use vstd::hash_set::StringHashSet;
use vstd::prelude::*;

verus! {

/// The set of banned tokens.
pub struct HashsetBannedTokenStore {
    banned_tokens: StringHashSet,
}

impl View for HashsetBannedTokenStore {
    type V = Set<Seq<char>>;

    closed spec fn view(&self) -> Set<Seq<char>> {
        self.banned_tokens@
    }
}

impl HashsetBannedTokenStore {
    /// An empty store.
    pub fn new() -> (r: HashsetBannedTokenStore)
        ensures
            r@ == Set::<Seq<char>>::empty(),
    {
        HashsetBannedTokenStore { banned_tokens: StringHashSet::new() }
    }
}

impl Default for HashsetBannedTokenStore {
    fn default() -> (r: Self)
        ensures
            r@ == Set::<Seq<char>>::empty(),
    {
        HashsetBannedTokenStore::new()
    }
}

impl BannedTokenStore for HashsetBannedTokenStore {
    open spec fn keeps_model(&self) -> bool {
        true
    }

    open spec fn banned(&self) -> Set<Seq<char>> {
        self@
    }

    /// Always succeeds.
    fn ban_token(&mut self, token: String) -> (r: Result<(), BannedTokenStoreError>)
        ensures
            r is Ok,
    {
        self.banned_tokens.insert(token);
        Ok(())
    }

    /// Always answers.
    fn is_token_banned(&self, token: &str) -> (r: Result<bool, BannedTokenStoreError>)
        ensures
            r is Ok,
    {
        Ok(self.banned_tokens.contains(token))
    }
}

} // verus!
