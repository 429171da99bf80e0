use crate::domain::data_stores::UserStore;
use crate::domain::data_stores::UserStoreError;
use crate::domain::email::Email;
use crate::domain::password::password_verifies;
use crate::domain::password::password_matches;
use crate::domain::password::Password;
use crate::domain::user::AccountView;
use crate::domain::user::User;
use vstd::hash_map::StringHashMap;
use vstd::prelude::*;

verus! {

/// The accounts in memory.
pub struct HashmapUserStore {
    users: StringHashMap<User>,
}

impl Default for HashmapUserStore {
    fn default() -> (store: Self)
        ensures
            store.accounts() == Map::<Seq<char>, AccountView>::empty(),
    {
        let store = HashmapUserStore { users: StringHashMap::new() };
        assert(store.accounts() =~= Map::<Seq<char>, AccountView>::empty());
        store
    }
}

impl UserStore for HashmapUserStore {
    open spec fn reliable(&self) -> bool {
        true
    }

    closed spec fn accounts(&self) -> Map<Seq<char>, AccountView> {
        Map::new(
            |email: Seq<char>| self.users@.contains_key(email),
            |email: Seq<char>| self.users@[email].account(),
        )
    }

    fn add_user(&mut self, user: User) -> (added: Result<(), UserStoreError>)
        ensures
            added is Ok <==> !old(self).accounts().contains_key(user.email@),
    {
        if self.users.contains_key(user.email.as_ref()) {
            Err(UserStoreError::UserAlreadyExists)
        } else {
            let ghost address = user.email@;
            let ghost account = user.account();
            let key = user.email.as_ref().to_owned();
            self.users.insert(key, user);
            assert(self.accounts() =~= old(self).accounts().insert(address, account));
            Ok(())
        }
    }

    fn get_user(&self, email: &Email) -> (found: Result<User, UserStoreError>)
        ensures
            found is Ok <==> self.accounts().contains_key(email@),
    {
        match self.users.get(email.as_ref()) {
            Some(user) => Ok(
                User::new(email.clone(), user.password_hash.clone(), user.requires_2fa),
            ),
            None => Err(UserStoreError::UserNotFound),
        }
    }

    fn validate_user(&self, email: &Email, password: &Password) -> (checked: Result<
        (),
        UserStoreError,
    >)
        ensures
            checked is Ok <==> self.accounts().contains_key(email@) && password_verifies(
                self.accounts()[email@].password_hash,
                password@,
            ),
    {
        match self.users.get(email.as_ref()) {
            Some(user) => {
                if password_matches(user.password_hash.as_str(), password) {
                    Ok(())
                } else {
                    Err(UserStoreError::InvalidCredentials)
                }
            },
            None => Err(UserStoreError::UserNotFound),
        }
    }
}

} // verus!
