//! Pending second-factor log-ins kept in Redis: under a key derived from the
//! address, the JSON array `[attempt id, code]`.

use crate::domain::data_stores::two_fa_store::{code_accepted, is_uuid_text};
use crate::domain::{Email, LoginAttemptId, TwoFACode, TwoFACodeStoreError};
use crate::text::join;
use vstd::prelude::*;

verus! {

#[verifier::external_type_specification]
#[verifier::external_body]
pub struct ExJsonError(serde_json::Error);

/// How long a pending attempt is kept, in seconds.
pub const TEN_MINUTES_IN_SECONDS: u64 = 600;

/// The prefix of the keys under which pending attempts are kept.
pub const TWO_FA_CODE_PREFIX: &'static str = "two_fa_code:";

/// The key under which the attempt pending for `email` is kept.
pub fn get_key(email: &Email) -> (r: String)
    ensures
        r@ == TWO_FA_CODE_PREFIX@ + email@,
{
    join(TWO_FA_CODE_PREFIX, email.as_str())
}

/// The lowercase hexadecimal digit of `d` (below sixteen).
pub open spec fn hex_char(d: int) -> char {
    if d < 10 {
        (d + 48) as char
    } else {
        (d + 87) as char
    }
}

/// How `serde_json` writes the character `c` inside a string: `"` and `\`
/// after a backslash, backspace, tab, line feed, form feed and carriage
/// return as `\b`, `\t`, `\n`, `\f`, `\r`, the other characters below
/// `0x20` as `\u00` and two lowercase hexadecimal digits, and every other
/// character as itself.
pub open spec fn json_escaped_char(c: char) -> Seq<char> {
    if c == '"' {
        seq!['\\', '"']
    } else if c == '\\' {
        seq!['\\', '\\']
    } else if c == '\u{8}' {
        seq!['\\', 'b']
    } else if c == '\u{9}' {
        seq!['\\', 't']
    } else if c == '\u{a}' {
        seq!['\\', 'n']
    } else if c == '\u{c}' {
        seq!['\\', 'f']
    } else if c == '\u{d}' {
        seq!['\\', 'r']
    } else if (c as int) < 0x20 {
        seq!['\\', 'u', '0', '0', hex_char((c as int) / 16), hex_char((c as int) % 16)]
    } else {
        seq![c]
    }
}

/// The characters of `s` as `serde_json` writes them inside a string.
pub open spec fn json_escaped(s: Seq<char>) -> Seq<char>
    decreases s.len(),
{
    if s.len() == 0 {
        Seq::empty()
    } else {
        json_escaped(s.drop_last()) + json_escaped_char(s.last())
    }
}

/// The JSON text `serde_json` writes for the pair of strings `(first,
/// second)`: an array of the two strings, without white space.
pub open spec fn json_pair_text(first: Seq<char>, second: Seq<char>) -> Seq<char> {
    seq!['[', '"'] + json_escaped(first) + seq!['"', ',', '"'] + json_escaped(second) + seq![
        '"',
        ']',
    ]
}

/// What `serde_json` reads from `text` as a pair of strings, if it can.
pub uninterp spec fn json_pair_of_text(text: Seq<char>) -> Option<(Seq<char>, Seq<char>)>;

/// `serde_json::to_string` on a pair of strings. It cannot fail (strings
/// always serialise), it writes the text `json_pair_text` states (`[`, the
/// two strings in quotes with their characters escaped, `,` between them,
/// `]`), and reading that text back gives the pair again.
#[verifier::external_body]
fn encode_pair(first: &str, second: &str) -> (r: Result<String, serde_json::Error>)
    ensures
        r matches Ok(text) ==> text@ == json_pair_text(first@, second@),
        r matches Ok(text) ==> json_pair_of_text(text@) == Some((first@, second@)),
        r is Ok,
{
    serde_json::to_string(&(first, second))
}

/// `serde_json::from_str` into a pair of strings: it succeeds exactly when
/// `json_pair_of_text` names a pair, and gives that pair.
#[verifier::external_body]
fn decode_pair(text: &str) -> (r: Result<(String, String), serde_json::Error>)
    ensures
        match r {
            Ok((first, second)) => json_pair_of_text(text@) == Some((first@, second@)),
            Err(_) => json_pair_of_text(text@) is None,
        },
{
    serde_json::from_str(text)
}

/// The key and value under which the attempt `(login_attempt_id, code)`
/// pending for `email` is kept. The value reads back as the same attempt.
pub fn two_fa_entry(email: &Email, login_attempt_id: &LoginAttemptId, code: &TwoFACode) -> (r:
    Result<(String, String), TwoFACodeStoreError>)
    ensures
        r matches Ok((key, value)) && key@ == TWO_FA_CODE_PREFIX@ + email@ && value@
            == json_pair_text(login_attempt_id@, code@),
        r matches Ok((key, value)) ==> decoded_entry(value@) == Some((login_attempt_id@, code@)),
{
    proof {
        use_type_invariant(login_attempt_id);
        use_type_invariant(code);
    }
    let key = get_key(email);
    match encode_pair(login_attempt_id.as_str(), code.as_str()) {
        Ok(value) => Ok((key, value)),
        Err(_) => Err(TwoFACodeStoreError::UnexpectedError),
    }
}

/// What a value read back under an attempt key means: the attempt
/// identifier and code, when the value is a JSON pair whose parts parse;
/// `UnexpectedError` otherwise.
pub open spec fn decoded_entry(value: Seq<char>) -> Option<(Seq<char>, Seq<char>)> {
    match json_pair_of_text(value) {
        Some((id, code)) => if is_uuid_text(id) && code_accepted(code) {
            Some((id, code))
        } else {
            None
        },
        None => None,
    }
}

/// Reads back the value kept under an attempt key.
pub fn decode_two_fa_entry(value: &str) -> (r: Result<(LoginAttemptId, TwoFACode), TwoFACodeStoreError>)
    ensures
        match decoded_entry(value@) {
            Some((id, code)) => r matches Ok((i, c)) && i@ == id && c@ == code,
            None => r == Err::<(LoginAttemptId, TwoFACode), TwoFACodeStoreError>(
                TwoFACodeStoreError::UnexpectedError,
            ),
        },
{
    let (id, code) = match decode_pair(value) {
        Ok(pair) => pair,
        Err(_) => return Err(TwoFACodeStoreError::UnexpectedError),
    };
    let login_attempt_id = match LoginAttemptId::parse(id) {
        Ok(id) => id,
        Err(_) => return Err(TwoFACodeStoreError::UnexpectedError),
    };
    let two_fa_code = match TwoFACode::parse(code) {
        Ok(code) => code,
        Err(_) => return Err(TwoFACodeStoreError::UnexpectedError),
    };
    Ok((login_attempt_id, two_fa_code))
}

/// What a look-up of the attempt pending for an address answers, given the
/// value found under its key (`None` when there is none, or it could not be
/// read).
pub fn code_from_lookup(found: Option<String>) -> (r: Result<
    (LoginAttemptId, TwoFACode),
    TwoFACodeStoreError,
>)
    ensures
        match found {
            None => r == Err::<(LoginAttemptId, TwoFACode), TwoFACodeStoreError>(
                TwoFACodeStoreError::LoginAttemptIdNotFound,
            ),
            Some(value) => match decoded_entry(value@) {
                Some((id, code)) => r matches Ok((i, c)) && i@ == id && c@ == code,
                None => r == Err::<(LoginAttemptId, TwoFACode), TwoFACodeStoreError>(
                    TwoFACodeStoreError::UnexpectedError,
                ),
            },
        },
{
    match found {
        None => Err(TwoFACodeStoreError::LoginAttemptIdNotFound),
        Some(value) => decode_two_fa_entry(value.as_str()),
    }
}

} // verus!
