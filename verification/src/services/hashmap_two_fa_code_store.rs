use crate::domain::data_stores::LoginAttemptId;
use crate::domain::data_stores::TwoFACode;
use crate::domain::data_stores::TwoFACodeStore;
use crate::domain::data_stores::TwoFACodeStoreError;
use crate::domain::email::Email;
use vstd::hash_map::StringHashMap;
use vstd::prelude::*;

verus! {

/// The pending challenges in memory. Nothing in it lapses with time.
pub struct HashmapTwoFACodeStore {
    codes: StringHashMap<(LoginAttemptId, TwoFACode)>,
}

impl Default for HashmapTwoFACodeStore {
    fn default() -> (store: Self)
        ensures
            store.pending() == Map::<Seq<char>, (Seq<char>, Seq<char>)>::empty(),
    {
        let store = HashmapTwoFACodeStore { codes: StringHashMap::new() };
        assert(store.pending() =~= Map::<Seq<char>, (Seq<char>, Seq<char>)>::empty());
        store
    }
}

impl TwoFACodeStore for HashmapTwoFACodeStore {
    open spec fn reliable(&self) -> bool {
        true
    }

    closed spec fn pending(&self) -> Map<Seq<char>, (Seq<char>, Seq<char>)> {
        Map::new(
            |email: Seq<char>| self.codes@.contains_key(email),
            |email: Seq<char>| (self.codes@[email].0@, self.codes@[email].1@),
        )
    }

    fn add_code(
        &mut self,
        email: Email,
        login_attempt_id: LoginAttemptId,
        code: TwoFACode,
    ) -> (added: Result<(), TwoFACodeStoreError>) {
        let ghost entry = (login_attempt_id@, code@);
        let key = email.as_ref().to_owned();
        self.codes.insert(key, (login_attempt_id, code));
        assert(self.pending() =~= old(self).pending().insert(email@, entry));
        Ok(())
    }

    fn remove_code(&mut self, email: &Email) -> (removed: Result<(), TwoFACodeStoreError>) {
        self.codes.remove(email.as_ref());
        assert(self.pending() =~= old(self).pending().remove(email@));
        Ok(())
    }

    fn get_code(&self, email: &Email) -> (found: Result<
        (LoginAttemptId, TwoFACode),
        TwoFACodeStoreError,
    >)
        ensures
            found is Ok <==> self.pending().contains_key(email@),
    {
        match self.codes.get(email.as_ref()) {
            Some(entry) => Ok((entry.0.clone(), entry.1.clone())),
            None => Err(TwoFACodeStoreError::LoginAttemptIdNotFound),
        }
    }
}

} // verus!
