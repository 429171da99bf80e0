use crate::domain::data_stores::BannedTokenStore;
use crate::domain::data_stores::BannedTokenStoreError;
use vstd::hash_set::StringHashSet;
use vstd::prelude::*;

verus! {

/// The revoked tokens in memory.
pub struct HashSetBannedTokenStore {
    tokens: StringHashSet,
}

impl Default for HashSetBannedTokenStore {
    fn default() -> (store: Self)
        ensures
            store.banned() == Set::<Seq<char>>::empty(),
    {
        HashSetBannedTokenStore { tokens: StringHashSet::new() }
    }
}

impl HashSetBannedTokenStore {
    /// Whether `token` was revoked.
    pub fn is_banned(&self, token: &str) -> (found: Result<bool, BannedTokenStoreError>)
        ensures
            found == Ok::<bool, BannedTokenStoreError>(self.banned().contains(token@)),
    {
        Ok(self.tokens.contains(token))
    }
}

impl BannedTokenStore for HashSetBannedTokenStore {
    open spec fn reliable(&self) -> bool {
        true
    }

    closed spec fn banned(&self) -> Set<Seq<char>> {
        self.tokens@
    }

    fn add_token(&mut self, token: String) -> (added: Result<(), BannedTokenStoreError>) {
        if !self.tokens.contains(token.as_str()) {
            self.tokens.insert(token);
        } else {
            assert(self.banned() =~= old(self).banned().insert(token@));
        }
        Ok(())
    }

    fn contains_token(&self, token: &str) -> (found: Result<bool, BannedTokenStoreError>) {
        self.is_banned(token)
    }
}

} // verus!
