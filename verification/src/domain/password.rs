use crate::domain::data_stores::digit_char;
use argon2::password_hash::rand_core::OsRng;
use argon2::password_hash::PasswordHasher;
use argon2::password_hash::PasswordVerifier;
use argon2::password_hash::SaltString;
use vstd::prelude::*;
use vstd::string::StrSliceExecFns;
use vstd::string::StringExecFns;
use vstd::utf8::encode_utf8;

verus! {

/// The fewest characters a password may have.
pub const MIN_PASSWORD_CHARS: usize = 8;

/// Argon2 memory cost, in KiB, of a newly computed hash.
pub const HASH_MEMORY_KIB: u32 = 15000;

/// Argon2 number of passes of a newly computed hash.
pub const HASH_ITERATIONS: u32 = 2;

/// Argon2 degree of parallelism of a newly computed hash.
pub const HASH_LANES: u32 = 1;

/// The most bytes of a password that Argon2 hashes.
pub const MAX_PASSWORD_BYTES: usize = 0xFFFF_FFFF;

/// How every hash starts that this library stores: Argon2id, version 0x13,
/// at the three costs above.
pub const STORED_HASH_PREFIX: &'static str = "$argon2id$v=19$m=15000,t=2,p=1$";

/// Whether `text` can be a password: it has at least eight characters,
/// counted as characters and not as bytes.
pub open spec fn is_password_text(text: Seq<char>) -> bool {
    text.len() >= MIN_PASSWORD_CHARS
}

/// The number of bytes that `text` takes in UTF-8.
pub open spec fn utf8_len(text: Seq<char>) -> nat {
    encode_utf8(text).len()
}

/// `number` in decimal, without zeros in front.
pub open spec fn decimal_text(number: nat) -> Seq<char>
    decreases number,
{
    if number < 10 {
        seq![digit_char(number as int)]
    } else {
        decimal_text(number / 10).push(digit_char((number % 10) as int))
    }
}

/// Whether Argon2 takes the three costs: at least one pass, between 1 and
/// 2^24 - 1 lanes, and at least 8 KiB of memory for each lane.
pub open spec fn are_costs(memory_kib: u32, iterations: u32, lanes: u32) -> bool {
    1 <= lanes <= 0xFF_FFFF && 8 * lanes <= memory_kib && 1 <= iterations
}

/// How the PHC text of every hash starts that Argon2id, version 0x13,
/// computes at the three costs: the algorithm, the version in decimal, and
/// the costs in decimal, each behind a `$`; the salt and the hash follow.
pub open spec fn phc_prefix(memory_kib: u32, iterations: u32, lanes: u32) -> Seq<char> {
    "$argon2id$v=19$m="@ + decimal_text(memory_kib as nat) + ",t="@ + decimal_text(
        iterations as nat,
    ) + ",p="@ + decimal_text(lanes as nat) + "$"@
}

/// Whether `hash` is a hash as this library stores one: a text that starts
/// as the hashes computed here do. No other text is handed to the verifier,
/// which would take its costs from the text, whatever they are.
pub open spec fn is_stored_hash(hash: Seq<char>) -> bool {
    phc_prefix(HASH_MEMORY_KIB, HASH_ITERATIONS, HASH_LANES).is_prefix_of(hash)
}

/// Whether Argon2 accepts `password` for the stored hash `hash`, a string in
/// the PHC format that carries the algorithm, its parameters and the salt.
pub uninterp spec fn argon2_verifies(hash: Seq<char>, password: Seq<char>) -> bool;

/// Whether `password` is the one that the stored hash `hash` was computed
/// from: `hash` is a hash as this library stores one, and Argon2 accepts
/// `password` for it.
pub open spec fn password_verifies(hash: Seq<char>, password: Seq<char>) -> bool {
    is_stored_hash(hash) && argon2_verifies(hash, password)
}

/// `argon2::password_hash::Error`, the reason for which hashing or verifying
/// failed. Nothing is looked up in it.
#[verifier::external_type_specification]
#[verifier::external_body]
pub struct ExPasswordHashError(argon2::password_hash::Error);

/// A validated password, held in plain text until it is hashed. It has no
/// `Debug`, so that it is not printed by accident.
#[derive(PartialEq)]
pub struct Password(String);

impl View for Password {
    type V = Seq<char>;

    closed spec fn view(&self) -> Seq<char> {
        self.0@
    }
}

impl Clone for Password {
    fn clone(&self) -> (copy: Self)
        ensures
            copy@ == self@,
    {
        proof {
            use_type_invariant(self);
        }
        Password(self.0.clone())
    }
}

impl AsRef<str> for Password {
    fn as_ref(&self) -> (text: &str)
        ensures
            text@ == self@,
            is_password_text(text@),
    {
        proof {
            use_type_invariant(self);
        }
        self.0.as_str()
    }
}

impl Password {
    #[verifier::type_invariant]
    spec fn well_formed(&self) -> bool {
        is_password_text(self.0@)
    }

    /// Accepts `password` exactly when it has at least eight characters.
    pub fn parse(password: String) -> (parsed: Result<Password, ()>)
        ensures
            parsed is Ok <==> is_password_text(password@),
            parsed matches Ok(accepted) ==> accepted@ == password@,
    {
        if password.as_str().unicode_len() < MIN_PASSWORD_CHARS {
            Err(())
        } else {
            Ok(Password(password))
        }
    }
}

/// Calls `SaltString::generate`, `Params::new`, `Argon2::hash_password` and
/// the hash's `to_string` of the argon2 crate: Argon2id, version 0x13, with
/// the given costs and a fresh random salt. The crate refuses other costs
/// than `are_costs` admits, and overflows on more lanes; it refuses a longer
/// password. On all else it computes the hash. The salt differs from call to
/// call, so the text does too; whatever it is, it starts with the algorithm,
/// the version and the costs, and verifying `password` against it with
/// `Argon2::verify_password` succeeds, because the text carries the salt and
/// the costs it was computed with.
#[verifier::external_body]
fn compute_password_hash(password: &str, memory_kib: u32, iterations: u32, lanes: u32) -> (hashed:
    Result<String, argon2::password_hash::Error>)
    requires
        are_costs(memory_kib, iterations, lanes),
        utf8_len(password@) <= MAX_PASSWORD_BYTES,
    ensures
        hashed is Ok,
        hashed matches Ok(text) ==> argon2_verifies(text@, password@),
        hashed matches Ok(text) ==> phc_prefix(memory_kib, iterations, lanes).is_prefix_of(text@),
{
    let salt = SaltString::generate(&mut OsRng);
    let params = argon2::Params::new(memory_kib, iterations, lanes, None)?;
    let hasher = argon2::Argon2::from(params);
    Ok(hasher.hash_password(password.as_bytes(), &salt)?.to_string())
}

/// Calls `PasswordHash::new` and `Argon2::verify_password` of the argon2
/// crate: parses `expected_password_hash` as a PHC string, computes the hash
/// of `password_candidate` with the salt and costs found there, and compares.
/// The costs found in a text that starts as `is_stored_hash` asks are the
/// library's own; on costs of its choosing a text could make the crate
/// overflow. The answer depends on the two texts alone. It is an error when
/// the first is no PHC string of Argon2 or the hashes differ.
#[verifier::external_body]
fn verify_password_hash(expected_password_hash: &str, password_candidate: &str) -> (verified:
    Result<(), argon2::password_hash::Error>)
    requires
        is_stored_hash(expected_password_hash@),
    ensures
        verified is Ok <==> argon2_verifies(expected_password_hash@, password_candidate@),
{
    let expected = argon2::PasswordHash::new(expected_password_hash)?;
    argon2::Argon2::default().verify_password(password_candidate.as_bytes(), &expected)
}

/// Hashes `password` for storage, with Argon2id at the costs above and a
/// fresh salt: a text against which `password` verifies. Only a password of
/// more than `MAX_PASSWORD_BYTES` bytes is not hashed; `None` stands for that.
pub fn hash_password(password: &Password) -> (hashed: Option<String>)
    ensures
        hashed is Some <==> utf8_len(password@) <= MAX_PASSWORD_BYTES,
        hashed matches Some(text) ==> password_verifies(text@, password@),
{
    if password.as_ref().as_bytes().len() > MAX_PASSWORD_BYTES {
        return None;
    }
    proof {
        lemma_stored_hash_prefix();
    }
    stored_hash(
        compute_password_hash(password.as_ref(), HASH_MEMORY_KIB, HASH_ITERATIONS, HASH_LANES),
    )
}

/// What an answer of the hasher means for storage: its text, unchanged,
/// where it computed one, and nothing where it failed, whatever the reason.
pub fn stored_hash(computed: Result<String, argon2::password_hash::Error>) -> (hashed: Option<
    String,
>)
    ensures
        match computed {
            Ok(text) => hashed == Some(text),
            Err(_) => hashed is None,
        },
{
    match computed {
        Ok(text) => Some(text),
        Err(_) => None,
    }
}

/// A character takes at most four bytes, so a password of up to a quarter of
/// `MAX_PASSWORD_BYTES` characters is never too long to hash.
pub proof fn lemma_utf8_len_is_bounded(text: Seq<char>)
    ensures
        utf8_len(text) <= 4 * text.len(),
    decreases text.len(),
{
    if text.len() > 0 {
        lemma_utf8_len_is_bounded(text.drop_first());
    }
}

/// The prefix that is written out above is the one that the costs above
/// give.
pub proof fn lemma_stored_hash_prefix()
    ensures
        STORED_HASH_PREFIX@ == phc_prefix(HASH_MEMORY_KIB, HASH_ITERATIONS, HASH_LANES),
{
    reveal_strlit("$argon2id$v=19$m=15000,t=2,p=1$");
    reveal_strlit("$argon2id$v=19$m=");
    reveal_strlit(",t=");
    reveal_strlit(",p=");
    reveal_strlit("$");
    reveal_with_fuel(decimal_text, 6);
    assert(decimal_text(15000) =~= seq!['1', '5', '0', '0', '0']);
    assert(decimal_text(2) =~= seq!['2']);
    assert(decimal_text(1) =~= seq!['1']);
    assert(STORED_HASH_PREFIX@ =~= phc_prefix(HASH_MEMORY_KIB, HASH_ITERATIONS, HASH_LANES));
}

/// Whether `hash` starts as the hashes stored here do.
pub fn has_stored_costs(hash: &str) -> (known: bool)
    ensures
        known == is_stored_hash(hash@),
{
    proof {
        lemma_stored_hash_prefix();
    }
    let wanted = STORED_HASH_PREFIX.unicode_len();
    if hash.unicode_len() < wanted {
        return false;
    }
    let head = hash.substring_char(0, wanted);
    String::from_str(head) == String::from_str(STORED_HASH_PREFIX)
}

/// Whether `password` is the one that `stored_hash` was computed from. A
/// text that is no hash as this library stores one matches no password, and
/// is not handed to the verifier.
pub fn password_matches(stored_hash: &str, password: &Password) -> (same: bool)
    ensures
        same == password_verifies(stored_hash@, password@),
{
    if !has_stored_costs(stored_hash) {
        return false;
    }
    match verify_password_hash(stored_hash, password.as_ref()) {
        Ok(()) => true,
        Err(_) => false,
    }
}

} // verus!
