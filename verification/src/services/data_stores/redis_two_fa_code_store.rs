use crate::domain::data_stores::is_ascii_digit;
use crate::domain::data_stores::is_braced_uuid;
use crate::domain::data_stores::is_hex_digit;
use crate::domain::data_stores::is_hyphenated_uuid;
use crate::domain::data_stores::is_simple_uuid;
use crate::domain::data_stores::is_two_fa_code_text;
use crate::domain::data_stores::is_uuid_text;
use crate::domain::data_stores::LoginAttemptId;
use crate::domain::data_stores::TwoFACode;
use crate::domain::data_stores::TwoFACodeStoreError;
use crate::domain::email::Email;
use vstd::prelude::*;
use vstd::string::StringExecFns;

verus! {

/// How long a challenge stays pending, in seconds.
pub const TEN_MINUTES_IN_SECONDS: u64 = 600;

/// What the key of every pending challenge starts with.
pub const TWO_FA_CODE_PREFIX: &'static str = "two_fa_code:";

/// The key under which the challenge for `email` is kept.
pub open spec fn spec_get_key(email: Seq<char>) -> Seq<char> {
    TWO_FA_CODE_PREFIX@ + email
}

/// The key under which the challenge for `email` is kept.
pub fn get_key(email: &Email) -> (key: String)
    ensures
        key@ == spec_get_key(email@),
{
    String::from_str(TWO_FA_CODE_PREFIX).concat(email.as_ref())
}

/// Whether JSON writes `text` as it is, between two quotation marks: it
/// holds no quotation mark, no backslash and no control character, which
/// are the characters that JSON escapes.
pub open spec fn is_plain_json_text(text: Seq<char>) -> bool {
    forall|i: int|
        0 <= i < text.len() ==> (#[trigger] text[i]) != '"' && text[i] != '\\' && ' ' <= text[i]
}

/// The JSON text of the array of the two strings `first` and `second`,
/// where JSON writes both as they are: `["first","second"]`.
pub open spec fn json_pair_text(first: Seq<char>, second: Seq<char>) -> Seq<char> {
    seq!['[', '"'] + first + seq!['"', ',', '"'] + second + seq!['"', ']']
}

/// The two strings that serde_json reads in `text`, where `text` is the JSON
/// text of an array of exactly two strings.
pub uninterp spec fn json_pair_read(text: Seq<char>) -> Option<(Seq<char>, Seq<char>)>;

/// `serde_json::Error`, the reason for which writing or reading JSON failed.
/// Nothing is looked up in it.
#[verifier::external_type_specification]
#[verifier::external_body]
pub struct ExJsonError(serde_json::Error);

/// Calls `serde_json::to_string` on the pair of the two strings. A pair is
/// written as an array, and a string between quotation marks, with a
/// backslash before each quotation mark, backslash and control character:
/// on strings without any of them the text is `json_pair_text`. Writing
/// fails only on a value that refuses to be written or on a map whose keys
/// are no strings, and a pair of strings is neither.
#[verifier::external_body]
fn pair_to_json(first: &str, second: &str) -> (written: Result<String, serde_json::Error>)
    requires
        is_plain_json_text(first@),
        is_plain_json_text(second@),
    ensures
        written is Ok,
        written matches Ok(text) ==> text@ == json_pair_text(first@, second@),
{
    serde_json::to_string(&(first, second))
}

/// Calls `serde_json::from_str` for a pair of strings: it succeeds exactly
/// on the JSON text of an array of two strings and gives the two, which
/// depends on `text` alone.
#[verifier::external_body]
fn pair_from_json(text: &str) -> (read: Result<(String, String), serde_json::Error>)
    ensures
        match read {
            Ok((first, second)) => json_pair_read(text@) == Some((first@, second@)),
            Err(_) => json_pair_read(text@) is None,
        },
{
    serde_json::from_str::<(String, String)>(text)
}

/// No written form of a UUID holds a character that JSON escapes.
pub proof fn lemma_uuid_text_is_plain(text: Seq<char>)
    requires
        is_uuid_text(text),
    ensures
        is_plain_json_text(text),
{
    assert forall|i: int| 0 <= i < text.len() implies (#[trigger] text[i]) != '"' && text[i]
        != '\\' && ' ' <= text[i] by {
        if is_simple_uuid(text) {
            assert(is_hex_digit(text[i]));
        } else if is_hyphenated_uuid(text) {
            assert(text[i] == '-' || is_hex_digit(text[i]));
        } else if is_braced_uuid(text) {
            let inner = text.subrange(1, 37);
            if 1 <= i < 37 {
                assert(inner[i - 1] == text[i]);
                assert(inner[i - 1] == '-' || is_hex_digit(inner[i - 1]));
            }
        } else {
            let inner = text.subrange(9, 45);
            if 9 <= i {
                assert(inner[i - 9] == text[i]);
                assert(inner[i - 9] == '-' || is_hex_digit(inner[i - 9]));
            }
        }
    }
}

/// No one-time code holds a character that JSON escapes.
pub proof fn lemma_code_text_is_plain(text: Seq<char>)
    requires
        is_two_fa_code_text(text),
    ensures
        is_plain_json_text(text),
{
    assert forall|i: int| 0 <= i < text.len() implies (#[trigger] text[i]) != '"' && text[i]
        != '\\' && ' ' <= text[i] by {
        assert(is_ascii_digit(text[i]));
    }
}

/// The value kept for a challenge: the JSON array of the attempt id and the
/// code, `["id","code"]`. It is always `Ok`.
pub fn encode_entry(login_attempt_id: &LoginAttemptId, code: &TwoFACode) -> (written: Result<
    String,
    TwoFACodeStoreError,
>)
    ensures
        written matches Ok(text) && text@ == json_pair_text(login_attempt_id@, code@),
{
    let id_text = login_attempt_id.as_ref();
    let code_text = code.as_ref();
    proof {
        lemma_uuid_text_is_plain(id_text@);
        lemma_code_text_is_plain(code_text@);
    }
    match pair_to_json(id_text, code_text) {
        Ok(text) => Ok(text),
        Err(_) => Err(TwoFACodeStoreError::UnexpectedError),
    }
}

/// The challenge that two strings of a kept value stand for. A value whose
/// first string is no UUID or whose second is no code was not written by
/// this store.
pub fn entry_from_pair(first: String, second: String) -> (entry: Result<
    (LoginAttemptId, TwoFACode),
    TwoFACodeStoreError,
>)
    ensures
        match entry {
            Ok((login_attempt_id, code)) => is_uuid_text(first@) && is_two_fa_code_text(second@)
                && login_attempt_id@ == first@ && code@ == second@,
            Err(error) => error == TwoFACodeStoreError::UnexpectedError && !(is_uuid_text(first@)
                && is_two_fa_code_text(second@)),
        },
{
    let login_attempt_id = match LoginAttemptId::parse(first) {
        Ok(login_attempt_id) => login_attempt_id,
        Err(_) => {
            return Err(TwoFACodeStoreError::UnexpectedError);
        },
    };
    match TwoFACode::parse(second) {
        Ok(code) => Ok((login_attempt_id, code)),
        Err(_) => Err(TwoFACodeStoreError::UnexpectedError),
    }
}

/// What a kept value means, as `decode_entry` reads it.
pub open spec fn spec_decode_entry(text: Seq<char>) -> Option<(Seq<char>, Seq<char>)> {
    match json_pair_read(text) {
        Some((first, second)) => if is_uuid_text(first) && is_two_fa_code_text(second) {
            Some((first, second))
        } else {
            None
        },
        None => None,
    }
}

/// The challenge for an address, from what the backend answered when asked
/// for its key: `None` where it holds nothing under the key.
pub fn decode_entry(reply: Option<String>) -> (entry: Result<
    (LoginAttemptId, TwoFACode),
    TwoFACodeStoreError,
>)
    ensures
        match reply {
            None => entry matches Err(error) && error
                == TwoFACodeStoreError::LoginAttemptIdNotFound,
            Some(text) => match spec_decode_entry(text@) {
                Some((first, second)) => entry matches Ok((login_attempt_id, code))
                    && login_attempt_id@ == first && code@ == second,
                None => entry matches Err(error) && error == TwoFACodeStoreError::UnexpectedError,
            },
        },
{
    match reply {
        None => Err(TwoFACodeStoreError::LoginAttemptIdNotFound),
        Some(text) => match pair_from_json(text.as_str()) {
            Ok((first, second)) => entry_from_pair(first, second),
            Err(_) => Err(TwoFACodeStoreError::UnexpectedError),
        },
    }
}

/// The challenge for an address, from the outcome of the question for its
/// key. A question that failed is reported as `UnexpectedError`; one that
/// was answered is judged by `decode_entry`.
pub fn decode_fetched(fetched: Result<Option<String>, ()>) -> (entry: Result<
    (LoginAttemptId, TwoFACode),
    TwoFACodeStoreError,
>)
    ensures
        match fetched {
            Err(_) => entry matches Err(error) && error == TwoFACodeStoreError::UnexpectedError,
            Ok(None) => entry matches Err(error) && error
                == TwoFACodeStoreError::LoginAttemptIdNotFound,
            Ok(Some(text)) => match spec_decode_entry(text@) {
                Some((first, second)) => entry matches Ok((login_attempt_id, code))
                    && login_attempt_id@ == first && code@ == second,
                None => entry matches Err(error) && error == TwoFACodeStoreError::UnexpectedError,
            },
        },
{
    match fetched {
        Ok(reply) => decode_entry(reply),
        Err(_) => Err(TwoFACodeStoreError::UnexpectedError),
    }
}

/// What the backend's answer to a command that keeps or forgets a challenge
/// means for `add_code` and `remove_code`: a command that failed is reported
/// as `UnexpectedError`.
pub fn write_verdict(written: Result<(), ()>) -> (outcome: Result<(), TwoFACodeStoreError>)
    ensures
        outcome == match written {
            Ok(()) => Ok::<(), TwoFACodeStoreError>(()),
            Err(_) => Err(TwoFACodeStoreError::UnexpectedError),
        },
{
    match written {
        Ok(()) => Ok(()),
        Err(_) => Err(TwoFACodeStoreError::UnexpectedError),
    }
}

/// Two addresses share a key only when they are one address.
pub proof fn lemma_keys_tell_addresses_apart(first: Seq<char>, second: Seq<char>)
    requires
        spec_get_key(first) == spec_get_key(second),
    ensures
        first == second,
{
    let prefix = TWO_FA_CODE_PREFIX@;
    assert(first =~= spec_get_key(first).subrange(
        prefix.len() as int,
        spec_get_key(first).len() as int,
    ));
    assert(second =~= spec_get_key(second).subrange(
        prefix.len() as int,
        spec_get_key(second).len() as int,
    ));
}

/// No key of a pending challenge is the key of a revoked token, whatever
/// the address and the token.
pub proof fn lemma_key_spaces_are_apart(email: Seq<char>, token: Seq<char>)
    ensures
        spec_get_key(email) != crate::services::data_stores::redis_banned_token_store::spec_get_key(
            token,
        ),
{
    reveal_strlit("two_fa_code:");
    reveal_strlit("banned_token:");
    assert(spec_get_key(email)[0] == 't');
    assert(crate::services::data_stores::redis_banned_token_store::spec_get_key(token)[0] == 'b');
}

} // verus!
