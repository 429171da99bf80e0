use crate::domain::email::Email;
use vstd::prelude::*;

verus! {

/// What an account store keeps under an e-mail address.
pub struct AccountView {
    pub password_hash: Seq<char>,
    pub requires_2fa: bool,
}

/// A registered account. The password is present only as its hash.
pub struct User {
    pub email: Email,
    pub password_hash: String,
    pub requires_2fa: bool,
}

impl User {
    /// What a store keeps of this account under its address.
    pub open spec fn account(&self) -> AccountView {
        AccountView { password_hash: self.password_hash@, requires_2fa: self.requires_2fa }
    }

    pub fn new(email: Email, password_hash: String, requires_2fa: bool) -> (user: Self)
        ensures
            user.email == email,
            user.password_hash == password_hash,
            user.requires_2fa == requires_2fa,
    {
        Self { email, password_hash, requires_2fa }
    }
}

impl Clone for User {
    fn clone(&self) -> (copy: Self)
        ensures
            copy.email@ == self.email@,
            copy.account() == self.account(),
    {
        User {
            email: self.email.clone(),
            password_hash: self.password_hash.clone(),
            requires_2fa: self.requires_2fa,
        }
    }
}

} // verus!
