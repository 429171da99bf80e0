use crate::domain::email::Email;
use crate::domain::password::password_verifies;
use crate::domain::password::Password;
use crate::domain::user::AccountView;
use crate::domain::user::User;
use rand::Rng;
use vstd::prelude::*;
use vstd::std_specs::cmp::PartialEqSpecImpl;
use vstd::std_specs::iter::IteratorSpec;
use vstd::string::StringExecFns;

verus! {

/// Why an account store did not do what it was asked.
#[derive(Debug, Clone, Copy, PartialEq, Eq, Structural)]
pub enum UserStoreError {
    UserAlreadyExists,
    UserNotFound,
    InvalidCredentials,
    UnexpectedError,
}

/// What an account store holds: the accounts, by address.
pub type AccountsModel = Map<Seq<char>, AccountView>;

/// The accounts, one per e-mail address.
pub trait UserStore {
    /// The accounts held, by address.
    spec fn accounts(&self) -> AccountsModel;

    /// Whether this store never fails unexpectedly. A store that depends on
    /// a backend cannot promise that.
    open spec fn reliable(&self) -> bool {
        false
    }

    /// Registers `user` unless its address is taken. A failing backend
    /// reports `UnexpectedError` and registers nothing.
    fn add_user(&mut self, user: User) -> (added: Result<(), UserStoreError>)
        ensures
            final(self).reliable() == old(self).reliable(),
            old(self).reliable() ==> added != Err::<(), UserStoreError>(
                UserStoreError::UnexpectedError,
            ),
            match added {
                Ok(()) => !old(self).accounts().contains_key(user.email@)
                    && final(self).accounts() == old(self).accounts().insert(
                    user.email@,
                    user.account(),
                ),
                Err(UserStoreError::UserAlreadyExists) => old(self).accounts().contains_key(
                    user.email@,
                ) && final(self).accounts() == old(self).accounts(),
                Err(UserStoreError::UnexpectedError) => final(self).accounts() == old(
                    self,
                ).accounts(),
                Err(_) => false,
            },
    ;

    /// The account registered under `email`.
    fn get_user(&self, email: &Email) -> (found: Result<User, UserStoreError>)
        ensures
            self.reliable() ==> !(found matches Err(UserStoreError::UnexpectedError)),
            match found {
                Ok(user) => self.accounts().contains_key(email@) && user.email@ == email@
                    && user.account() == self.accounts()[email@],
                Err(UserStoreError::UserNotFound) => !self.accounts().contains_key(email@),
                Err(UserStoreError::UnexpectedError) => true,
                Err(_) => false,
            },
    ;

    /// Whether `password` is that of the account registered under `email`.
    fn validate_user(&self, email: &Email, password: &Password) -> (checked: Result<
        (),
        UserStoreError,
    >)
        ensures
            self.reliable() ==> checked != Err::<(), UserStoreError>(
                UserStoreError::UnexpectedError,
            ),
            match checked {
                Ok(()) => self.accounts().contains_key(email@) && password_verifies(
                    self.accounts()[email@].password_hash,
                    password@,
                ),
                Err(UserStoreError::UserNotFound) => !self.accounts().contains_key(email@),
                Err(UserStoreError::InvalidCredentials) => self.accounts().contains_key(email@)
                    && !password_verifies(self.accounts()[email@].password_hash, password@),
                Err(UserStoreError::UnexpectedError) => true,
                Err(UserStoreError::UserAlreadyExists) => false,
            },
    ;
}

/// Why a revocation store did not do what it was asked.
#[derive(Debug, Clone, Copy, PartialEq, Eq, Structural)]
pub enum BannedTokenStoreError {
    UnexpectedError,
}

/// What a revocation store holds: the revoked tokens.
pub type BannedModel = Set<Seq<char>>;

/// The session tokens that were revoked.
pub trait BannedTokenStore {
    /// The revoked tokens.
    spec fn banned(&self) -> BannedModel;

    /// Whether this store never fails. A store that depends on a backend
    /// cannot promise that.
    open spec fn reliable(&self) -> bool {
        false
    }

    /// Revokes `token`. Revoking a revoked token is no error. A failing
    /// backend reports `UnexpectedError` and revokes nothing.
    fn add_token(&mut self, token: String) -> (added: Result<(), BannedTokenStoreError>)
        ensures
            final(self).reliable() == old(self).reliable(),
            old(self).reliable() ==> added is Ok,
            match added {
                Ok(()) => final(self).banned() == old(self).banned().insert(token@),
                Err(BannedTokenStoreError::UnexpectedError) => final(self).banned() == old(
                    self,
                ).banned(),
            },
    ;

    /// Whether `token` was revoked.
    fn contains_token(&self, token: &str) -> (found: Result<bool, BannedTokenStoreError>)
        ensures
            self.reliable() ==> found is Ok,
            found matches Ok(revoked) ==> revoked == self.banned().contains(token@),
    ;
}

/// Why a store of pending challenges did not do what it was asked.
#[derive(Debug, Clone, Copy, PartialEq, Eq, Structural)]
pub enum TwoFACodeStoreError {
    LoginAttemptIdNotFound,
    UnexpectedError,
}

/// What a store of pending challenges holds: the attempt id and the code
/// that each address is waiting for.
pub type PendingModel = Map<Seq<char>, (Seq<char>, Seq<char>)>;

/// The pending second-factor challenges, at most one per e-mail address.
pub trait TwoFACodeStore {
    /// The attempt id and the code that each address is waiting for.
    spec fn pending(&self) -> PendingModel;

    /// Whether this store never fails unexpectedly. A store that depends on
    /// a backend cannot promise that.
    open spec fn reliable(&self) -> bool {
        false
    }

    /// Records the challenge for `email`, in place of any earlier one. A
    /// failing backend reports `UnexpectedError` and records nothing.
    fn add_code(
        &mut self,
        email: Email,
        login_attempt_id: LoginAttemptId,
        code: TwoFACode,
    ) -> (added: Result<(), TwoFACodeStoreError>)
        ensures
            final(self).reliable() == old(self).reliable(),
            old(self).reliable() ==> added is Ok,
            match added {
                Ok(()) => final(self).pending() == old(self).pending().insert(
                    email@,
                    (login_attempt_id@, code@),
                ),
                Err(TwoFACodeStoreError::UnexpectedError) => final(self).pending() == old(
                    self,
                ).pending(),
                Err(TwoFACodeStoreError::LoginAttemptIdNotFound) => false,
            },
    ;

    /// Forgets the challenge for `email`, if there is one. A failing backend
    /// reports `UnexpectedError` and forgets nothing.
    fn remove_code(&mut self, email: &Email) -> (removed: Result<(), TwoFACodeStoreError>)
        ensures
            final(self).reliable() == old(self).reliable(),
            old(self).reliable() ==> removed is Ok,
            match removed {
                Ok(()) => final(self).pending() == old(self).pending().remove(email@),
                Err(TwoFACodeStoreError::UnexpectedError) => final(self).pending() == old(
                    self,
                ).pending(),
                Err(TwoFACodeStoreError::LoginAttemptIdNotFound) => false,
            },
    ;

    /// The challenge that `email` is waiting for.
    fn get_code(&self, email: &Email) -> (found: Result<
        (LoginAttemptId, TwoFACode),
        TwoFACodeStoreError,
    >)
        ensures
            self.reliable() ==> !(found matches Err(TwoFACodeStoreError::UnexpectedError)),
            match found {
                Ok((login_attempt_id, code)) => self.pending().contains_key(email@)
                    && self.pending()[email@] == (login_attempt_id@, code@),
                Err(TwoFACodeStoreError::LoginAttemptIdNotFound) => !self.pending().contains_key(
                    email@,
                ),
                Err(TwoFACodeStoreError::UnexpectedError) => true,
            },
    ;
}

/// Whether `c` is a hexadecimal digit, in either case.
pub open spec fn is_hex_digit(c: char) -> bool {
    ('0' <= c && c <= '9') || ('a' <= c && c <= 'f') || ('A' <= c && c <= 'F')
}

/// Thirty-two hexadecimal digits.
pub open spec fn is_simple_uuid(text: Seq<char>) -> bool {
    text.len() == 32 && forall|i: int| 0 <= i < 32 ==> is_hex_digit(#[trigger] text[i])
}

/// Hexadecimal digits in groups of 8, 4, 4, 4 and 12, with a hyphen between
/// two groups.
pub open spec fn is_hyphenated_uuid(text: Seq<char>) -> bool {
    text.len() == 36 && forall|i: int|
        0 <= i < 36 ==> if i == 8 || i == 13 || i == 18 || i == 23 {
            #[trigger] text[i] == '-'
        } else {
            is_hex_digit(text[i])
        }
}

/// A hyphenated UUID between `{` and `}`.
pub open spec fn is_braced_uuid(text: Seq<char>) -> bool {
    text.len() == 38 && text[0] == '{' && text[37] == '}' && is_hyphenated_uuid(
        text.subrange(1, 37),
    )
}

/// Whether `c` is the ASCII letter `lower`, in either case.
pub open spec fn is_letter(c: char, lower: char) -> bool {
    c == lower || (c as int) + 32 == lower as int
}

/// A hyphenated UUID behind `urn:uuid:`, whose letters may be of either case.
pub open spec fn is_urn_uuid(text: Seq<char>) -> bool {
    &&& text.len() == 45
    &&& is_letter(text[0], 'u')
    &&& is_letter(text[1], 'r')
    &&& is_letter(text[2], 'n')
    &&& text[3] == ':'
    &&& is_letter(text[4], 'u')
    &&& is_letter(text[5], 'u')
    &&& is_letter(text[6], 'i')
    &&& is_letter(text[7], 'd')
    &&& text[8] == ':'
    &&& is_hyphenated_uuid(text.subrange(9, 45))
}

/// A hyphenated UUID as a random one is written: in lower case, with the
/// version 4 and the variant of RFC 4122 in their places.
pub open spec fn is_version_4_uuid(text: Seq<char>) -> bool {
    &&& is_hyphenated_uuid(text)
    &&& forall|i: int| 0 <= i < 36 ==> !('A' <= #[trigger] text[i] && text[i] <= 'F')
    &&& text[14] == '4'
    &&& (text[19] == '8' || text[19] == '9' || text[19] == 'a' || text[19] == 'b')
}

/// Whether `text` is a UUID in one of the four written forms.
pub open spec fn is_uuid_text(text: Seq<char>) -> bool {
    is_simple_uuid(text) || is_hyphenated_uuid(text) || is_braced_uuid(text) || is_urn_uuid(text)
}

/// `uuid::Uuid`, the UUID that `Uuid::parse_str` read. Nothing is looked up
/// in it.
#[verifier::external_type_specification]
#[verifier::external_body]
pub struct ExUuid(uuid::Uuid);

/// `uuid::Error`, the reason for which `Uuid::parse_str` refused. Nothing is
/// looked up in it.
#[verifier::external_type_specification]
#[verifier::external_body]
pub struct ExUuidError(uuid::Error);

/// `Uuid::parse_str` of the uuid crate reads the simple, the hyphenated, the
/// braced and the URN form, by the input's length in bytes, and nothing else.
/// Every accepted input is ASCII, so its bytes are its characters.
pub assume_specification[ uuid::Uuid::parse_str ](input: &str) -> (parsed: Result<
    uuid::Uuid,
    uuid::Error,
>)
    ensures
        parsed is Ok <==> is_uuid_text(input@),
;

/// Calls `Uuid::new_v4` of the uuid crate and its `to_string`: a random
/// UUID, in which `new_v4` has set the version to 4 and the variant to that
/// of RFC 4122, written in the hyphenated form with lower-case digits. Which
/// UUID it is differs from call to call.
#[verifier::external_body]
fn new_v4_text() -> (text: String)
    ensures
        is_version_4_uuid(text@),
{
    uuid::Uuid::new_v4().to_string()
}

/// Calls `rand::rng` and `Rng::random_range` of the rand crate on the range
/// from 0 up to and without `bound`: some number of that range, a different
/// one from call to call. The crate panics on an empty range.
#[verifier::external_body]
fn random_below(bound: u32) -> (number: u32)
    requires
        bound > 0,
    ensures
        number < bound,
{
    rand::rng().random_range(0..bound)
}

/// The id that ties a second-factor verification to the login that asked for
/// it: a UUID, kept as it was written.
#[derive(Debug)]
pub struct LoginAttemptId(String);

impl PartialEq for LoginAttemptId {
    fn eq(&self, other: &Self) -> (same: bool) {
        self.0 == other.0
    }
}

impl PartialEqSpecImpl for LoginAttemptId {
    open spec fn obeys_eq_spec() -> bool {
        true
    }

    /// Two ids are equal when they are written alike, letter for letter.
    open spec fn eq_spec(&self, other: &Self) -> bool {
        self@ == other@
    }
}

impl View for LoginAttemptId {
    type V = Seq<char>;

    closed spec fn view(&self) -> Seq<char> {
        self.0@
    }
}

impl LoginAttemptId {
    #[verifier::type_invariant]
    spec fn well_formed(&self) -> bool {
        is_uuid_text(self.0@)
    }

    /// Accepts `id` exactly when it is a UUID in one of the four written
    /// forms.
    pub fn parse(id: String) -> (parsed: Result<Self, String>)
        ensures
            parsed is Ok <==> is_uuid_text(id@),
            parsed matches Ok(accepted) ==> accepted@ == id@,
            parsed matches Err(message) ==> message@ == "Invalid UUID"@,
    {
        match uuid::Uuid::parse_str(id.as_str()) {
            Ok(_) => Ok(Self(id)),
            Err(_) => Err(String::from_str("Invalid UUID")),
        }
    }
}

impl Default for LoginAttemptId {
    /// A fresh random id: a version-4 UUID in the hyphenated form.
    fn default() -> (id: Self)
        ensures
            is_version_4_uuid(id@),
    {
        Self(new_v4_text())
    }
}

impl Clone for LoginAttemptId {
    fn clone(&self) -> (copy: Self)
        ensures
            copy@ == self@,
    {
        proof {
            use_type_invariant(self);
        }
        LoginAttemptId(self.0.clone())
    }
}

impl AsRef<str> for LoginAttemptId {
    fn as_ref(&self) -> (text: &str)
        ensures
            text@ == self@,
            is_uuid_text(text@),
    {
        proof {
            use_type_invariant(self);
        }
        self.0.as_str()
    }
}

/// The number of digits of a one-time code.
pub const TWO_FA_CODE_DIGITS: usize = 6;

/// One more than the largest number that a one-time code can write.
pub const TWO_FA_CODE_BOUND: u32 = 1_000_000;

/// Whether `c` is one of the ten ASCII digits.
pub open spec fn is_ascii_digit(c: char) -> bool {
    '0' <= c && c <= '9'
}

/// Whether `text` can be a one-time code: exactly six ASCII digits.
pub open spec fn is_two_fa_code_text(text: Seq<char>) -> bool {
    text.len() == TWO_FA_CODE_DIGITS && forall|i: int|
        0 <= i < text.len() ==> is_ascii_digit(#[trigger] text[i])
}

/// The ASCII digit that writes `digit`, a number below ten.
pub open spec fn digit_char(digit: int) -> char {
    if digit == 0 {
        '0'
    } else if digit == 1 {
        '1'
    } else if digit == 2 {
        '2'
    } else if digit == 3 {
        '3'
    } else if digit == 4 {
        '4'
    } else if digit == 5 {
        '5'
    } else if digit == 6 {
        '6'
    } else if digit == 7 {
        '7'
    } else if digit == 8 {
        '8'
    } else {
        '9'
    }
}

/// The last six decimal digits of `number`, with zeros in front where it has
/// fewer: `number` itself in six digits where it is below a million.
pub open spec fn two_fa_code_text(number: int) -> Seq<char> {
    seq![
        digit_char(number / 100000 % 10),
        digit_char(number / 10000 % 10),
        digit_char(number / 1000 % 10),
        digit_char(number / 100 % 10),
        digit_char(number / 10 % 10),
        digit_char(number % 10),
    ]
}

fn digit_text(digit: u32) -> (text: &'static str)
    requires
        digit < 10,
    ensures
        text@ == seq![digit_char(digit as int)],
{
    proof {
        reveal_strlit("0");
        reveal_strlit("1");
        reveal_strlit("2");
        reveal_strlit("3");
        reveal_strlit("4");
        reveal_strlit("5");
        reveal_strlit("6");
        reveal_strlit("7");
        reveal_strlit("8");
        reveal_strlit("9");
    }
    let text = if digit == 0 {
        "0"
    } else if digit == 1 {
        "1"
    } else if digit == 2 {
        "2"
    } else if digit == 3 {
        "3"
    } else if digit == 4 {
        "4"
    } else if digit == 5 {
        "5"
    } else if digit == 6 {
        "6"
    } else if digit == 7 {
        "7"
    } else if digit == 8 {
        "8"
    } else {
        "9"
    };
    assert(text@ =~= seq![digit_char(digit as int)]);
    text
}

/// A one-time code: six ASCII digits, zeros in front included.
#[derive(Debug)]
pub struct TwoFACode(String);

impl PartialEq for TwoFACode {
    fn eq(&self, other: &Self) -> (same: bool) {
        self.0 == other.0
    }
}

impl PartialEqSpecImpl for TwoFACode {
    open spec fn obeys_eq_spec() -> bool {
        true
    }

    open spec fn eq_spec(&self, other: &Self) -> bool {
        self@ == other@
    }
}

impl View for TwoFACode {
    type V = Seq<char>;

    closed spec fn view(&self) -> Seq<char> {
        self.0@
    }
}

impl TwoFACode {
    #[verifier::type_invariant]
    spec fn well_formed(&self) -> bool {
        is_two_fa_code_text(self.0@)
    }

    /// Accepts `code` exactly when it is six ASCII digits.
    pub fn parse(code: String) -> (parsed: Result<Self, String>)
        ensures
            parsed is Ok <==> is_two_fa_code_text(code@),
            parsed matches Ok(accepted) ==> accepted@ == code@,
            parsed matches Err(message) ==> message@ == "Invalid 2FA Code"@,
    {
        let mut count: usize = 0;
        let mut digits = true;
        let chars = code.as_str().chars();
        for c in it: chars
            invariant
                it.seq() == code@,
                count == if it.index() <= TWO_FA_CODE_DIGITS {
                    it.index()
                } else {
                    TWO_FA_CODE_DIGITS + 1
                },
                digits <==> forall|i: int| 0 <= i < it.index() ==> is_ascii_digit(code@[i]),
        {
            if count <= TWO_FA_CODE_DIGITS {
                count += 1;
            }
            if !('0' <= c && c <= '9') {
                digits = false;
            }
        }
        if count == TWO_FA_CODE_DIGITS && digits {
            Ok(TwoFACode(code))
        } else {
            Err(String::from_str("Invalid 2FA Code"))
        }
    }

    /// The code that writes `number` in six digits, zeros in front
    /// included. Of a number of a million or more it writes the last six.
    pub fn from_number(number: u32) -> (code: Self)
        ensures
            code@ == two_fa_code_text(number as int),
    {
        let mut text = String::new();
        text.append(digit_text(number / 100000 % 10));
        text.append(digit_text(number / 10000 % 10));
        text.append(digit_text(number / 1000 % 10));
        text.append(digit_text(number / 100 % 10));
        text.append(digit_text(number / 10 % 10));
        text.append(digit_text(number % 10));
        proof {
            assert(text@ =~= two_fa_code_text(number as int));
            lemma_generated_code_is_accepted(number as int);
        }
        TwoFACode(text)
    }
}

impl Default for TwoFACode {
    /// A fresh random code, each of the million codes being as likely as the
    /// next.
    fn default() -> (code: Self)
        ensures
            exists|number: int|
                0 <= number < TWO_FA_CODE_BOUND && code@ == #[trigger] two_fa_code_text(number),
            is_two_fa_code_text(code@),
    {
        let number = random_below(TWO_FA_CODE_BOUND);
        proof {
            lemma_generated_code_is_accepted(number as int);
        }
        TwoFACode::from_number(number)
    }
}

impl Clone for TwoFACode {
    fn clone(&self) -> (copy: Self)
        ensures
            copy@ == self@,
    {
        proof {
            use_type_invariant(self);
        }
        TwoFACode(self.0.clone())
    }
}

impl AsRef<str> for TwoFACode {
    fn as_ref(&self) -> (text: &str)
        ensures
            text@ == self@,
            is_two_fa_code_text(text@),
    {
        proof {
            use_type_invariant(self);
        }
        self.0.as_str()
    }
}

/// Every number is written as six ASCII digits, so every code that
/// `TwoFACode::default` can make is one that `TwoFACode::parse` accepts.
pub proof fn lemma_generated_code_is_accepted(number: int)
    ensures
        is_two_fa_code_text(two_fa_code_text(number)),
{
    let text = two_fa_code_text(number);
    assert forall|digit: int| 0 <= digit < 10 implies is_ascii_digit(
        #[trigger] digit_char(digit),
    ) by {}
    assert(is_ascii_digit(text[0]));
    assert(is_ascii_digit(text[1]));
    assert(is_ascii_digit(text[2]));
    assert(is_ascii_digit(text[3]));
    assert(is_ascii_digit(text[4]));
    assert(is_ascii_digit(text[5]));
}

/// Every id that `LoginAttemptId::default` can make is one that
/// `LoginAttemptId::parse` accepts.
pub proof fn lemma_generated_id_is_accepted(text: Seq<char>)
    requires
        is_version_4_uuid(text),
    ensures
        is_uuid_text(text),
{
}

} // verus!
