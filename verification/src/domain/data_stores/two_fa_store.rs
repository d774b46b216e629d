//! Two-factor log-in: attempt identifiers, codes, and the interface of the
//! store that holds the pending ones.

use crate::domain::Email;
use crate::pattern::{compile, is_match, regex_compiles, regex_match_outcome};
use rand::Rng;
use vstd::prelude::*;

verus! {

#[verifier::external_type_specification]
#[verifier::external_body]
pub struct ExUuid(uuid::Uuid);

#[verifier::external_type_specification]
#[verifier::external_body]
pub struct ExUuidError(uuid::Error);

/// An ASCII hexadecimal digit, either case.
pub open spec fn is_hex_digit(c: char) -> bool {
    ||| ('0' <= c && c <= '9')
    ||| ('a' <= c && c <= 'f')
    ||| ('A' <= c && c <= 'F')
}

/// A digit or a lowercase letter `a`..=`f`.
pub open spec fn is_lower_hex_digit(c: char) -> bool {
    ||| ('0' <= c && c <= '9')
    ||| ('a' <= c && c <= 'f')
}

/// Whether position `i` of a hyphenated UUID holds a hyphen.
pub open spec fn is_hyphen_position(i: int) -> bool {
    i == 8 || i == 13 || i == 18 || i == 23
}

/// The hyphenated form: 8-4-4-4-12 hexadecimal digits.
pub open spec fn is_hyphenated_uuid(s: Seq<char>) -> bool {
    &&& s.len() == 36
    &&& forall|i: int|
        0 <= i < 36 ==> if is_hyphen_position(i) {
            s[i] == '-'
        } else {
            is_hex_digit(#[trigger] s[i])
        }
}

/// The prefix `urn:uuid:`, letters in either case.
pub open spec fn is_urn_prefix(s: Seq<char>) -> bool {
    &&& s.len() == 9
    &&& (s[0] == 'u' || s[0] == 'U')
    &&& (s[1] == 'r' || s[1] == 'R')
    &&& (s[2] == 'n' || s[2] == 'N')
    &&& s[3] == ':'
    &&& (s[4] == 'u' || s[4] == 'U')
    &&& (s[5] == 'u' || s[5] == 'U')
    &&& (s[6] == 'i' || s[6] == 'I')
    &&& (s[7] == 'd' || s[7] == 'D')
    &&& s[8] == ':'
}

/// The texts `uuid::Uuid::parse_str` accepts: 32 hexadecimal digits, the
/// hyphenated form, the hyphenated form in braces, or the hyphenated form
/// after `urn:uuid:`.
pub open spec fn is_uuid_text(s: Seq<char>) -> bool {
    ||| (s.len() == 32 && forall|i: int| 0 <= i < 32 ==> is_hex_digit(#[trigger] s[i]))
    ||| is_hyphenated_uuid(s)
    ||| (s.len() == 38 && s[0] == '{' && s[37] == '}' && is_hyphenated_uuid(s.subrange(1, 37)))
    ||| (s.len() == 45 && is_urn_prefix(s.subrange(0, 9)) && is_hyphenated_uuid(
        s.subrange(9, 45),
    ))
}

/// The text of a fresh version-4 UUID: hyphenated, lowercase, with the
/// version digit `4` and a variant digit among `8`, `9`, `a`, `b`.
pub open spec fn is_fresh_uuid_text(s: Seq<char>) -> bool {
    &&& is_hyphenated_uuid(s)
    &&& forall|i: int| 0 <= i < 36 && !is_hyphen_position(i) ==> is_lower_hex_digit(#[trigger] s[i])
    &&& s[14] == '4'
    &&& (s[19] == '8' || s[19] == '9' || s[19] == 'a' || s[19] == 'b')
}

/// `uuid::Uuid::parse_str`: succeeds exactly on the texts that
/// `is_uuid_text` describes: the four shapes, ASCII hexadecimal digits in
/// either case, the `urn:uuid:` prefix in any ASCII case.
#[verifier::external_body]
fn parse_uuid(text: &str) -> (r: Result<uuid::Uuid, uuid::Error>)
    ensures
        r is Ok <==> is_uuid_text(text@),
{
    uuid::Uuid::parse_str(text)
}

/// `uuid::Uuid::new_v4` written out with `Display`: a random version-4 UUID
/// in its hyphenated lowercase form. Which UUID comes out is not stated.
#[verifier::external_body]
fn fresh_uuid_text() -> (r: String)
    ensures
        is_fresh_uuid_text(r@),
{
    uuid::Uuid::new_v4().to_string()
}

/// `rand::Rng::gen_range(0..10)` on the thread's generator: a digit. Which
/// digit comes out is not stated.
#[verifier::external_body]
fn random_digit() -> (d: u32)
    ensures
        d < 10,
{
    rand::thread_rng().gen_range(0..10u32)
}

/// The identifier of a log-in attempt that waits for its second factor.
#[derive(Debug)]
pub struct LoginAttemptId(String);

impl View for LoginAttemptId {
    type V = Seq<char>;

    closed spec fn view(&self) -> Seq<char> {
        self.0@
    }
}

impl LoginAttemptId {
    /// An identifier is a UUID text.
    #[verifier::type_invariant]
    pub open spec fn well_formed(self) -> bool {
        is_uuid_text(self@)
    }

    /// An identifier must be a UUID text; any other text gives the message
    /// `Invalid login attempt id`.
    pub fn parse(id: String) -> (r: Result<LoginAttemptId, String>)
        ensures
            match r {
                Ok(parsed) => is_uuid_text(id@) && parsed@ == id@,
                Err(message) => !is_uuid_text(id@) && message@ == "Invalid login attempt id"@,
            },
    {
        match parse_uuid(id.as_str()) {
            Ok(_) => Ok(LoginAttemptId(id)),
            Err(_) => Err(String::from_str("Invalid login attempt id")),
        }
    }

    /// The identifier as text.
    pub fn as_str(&self) -> (r: &str)
        ensures
            r@ == self@,
    {
        self.0.as_str()
    }
}

impl Default for LoginAttemptId {
    /// A fresh random identifier.
    fn default() -> (r: Self)
        ensures
            is_fresh_uuid_text(r@),
    {
        let text = fresh_uuid_text();
        proof {
            lemma_fresh_id_parses(text@);
        }
        LoginAttemptId(text)
    }
}

impl Clone for LoginAttemptId {
    fn clone(&self) -> (r: Self)
        ensures
            r@ == self@,
    {
        proof {
            use_type_invariant(self);
        }
        LoginAttemptId(self.0.clone())
    }
}

impl PartialEq for LoginAttemptId {
    fn eq(&self, other: &Self) -> (r: bool) {
        self.0 == other.0
    }
}

impl vstd::std_specs::cmp::PartialEqSpecImpl for LoginAttemptId {
    open spec fn obeys_eq_spec() -> bool {
        true
    }

    open spec fn eq_spec(&self, other: &Self) -> bool {
        self@ == other@
    }
}

impl Eq for LoginAttemptId {}

/// Exactly six digits.
pub const TWO_FA_CODE_PATTERN: &'static str = r"^\d{6}$";

/// Whether `TwoFACode::parse` accepts `code`.
pub open spec fn code_accepted(code: Seq<char>) -> bool {
    &&& regex_compiles(TWO_FA_CODE_PATTERN@)
    &&& regex_match_outcome(TWO_FA_CODE_PATTERN@, code) == Some(true)
}

/// A freshly made attempt identifier is one that `LoginAttemptId::parse`
/// accepts.
pub proof fn lemma_fresh_id_parses(id: Seq<char>)
    requires
        is_fresh_uuid_text(id),
    ensures
        is_uuid_text(id),
{
}

/// An ASCII decimal digit.
pub open spec fn is_ascii_digit(c: char) -> bool {
    '0' <= c && c <= '9'
}

/// Six ASCII digits.
pub open spec fn is_six_digits(s: Seq<char>) -> bool {
    s.len() == 6 && forall|i: int| 0 <= i < 6 ==> is_ascii_digit(#[trigger] s[i])
}

/// A second-factor code.
#[derive(Debug)]
pub struct TwoFACode(String);

impl View for TwoFACode {
    type V = Seq<char>;

    closed spec fn view(&self) -> Seq<char> {
        self.0@
    }
}

/// The one-character text of a decimal digit.
fn digit_text(d: u32) -> (s: &'static str)
    requires
        d < 10,
    ensures
        s@.len() == 1,
        is_ascii_digit(s@[0]),
{
    proof {
        reveal_strlit("0");
        reveal_strlit("1");
        reveal_strlit("2");
        reveal_strlit("3");
        reveal_strlit("4");
        reveal_strlit("5");
        reveal_strlit("6");
        reveal_strlit("7");
        reveal_strlit("8");
        reveal_strlit("9");
    }
    match d {
        0 => "0",
        1 => "1",
        2 => "2",
        3 => "3",
        4 => "4",
        5 => "5",
        6 => "6",
        7 => "7",
        8 => "8",
        _ => "9",
    }
}

impl TwoFACode {
    /// A code is one the code pattern accepts.
    #[verifier::type_invariant]
    pub open spec fn well_formed(self) -> bool {
        code_accepted(self@)
    }

    /// A code must be six digits: six ASCII digits are always accepted. If
    /// the pattern cannot be compiled the message is `Failed to compile
    /// regex`; a text that does not match, or on which the matcher fails,
    /// gives `Invalid 2FA code`.
    pub fn parse(code: String) -> (r: Result<TwoFACode, String>)
        ensures
            is_six_digits(code@) ==> r is Ok,
            match r {
                Ok(parsed) => code_accepted(code@) && parsed@ == code@,
                Err(message) => !code_accepted(code@) && (if regex_compiles(TWO_FA_CODE_PATTERN@) {
                    message@ == "Invalid 2FA code"@
                } else {
                    message@ == "Failed to compile regex"@
                }),
            },
    {
        let pattern = match compile(TWO_FA_CODE_PATTERN) {
            Ok(p) => p,
            Err(_) => return Err(String::from_str("Failed to compile regex")),
        };
        match is_match(&pattern, code.as_str()) {
            Ok(true) => Ok(TwoFACode(code)),
            _ => Err(String::from_str("Invalid 2FA code")),
        }
    }

    /// The code as text.
    pub fn as_str(&self) -> (r: &str)
        ensures
            r@ == self@,
    {
        self.0.as_str()
    }
}

impl Default for TwoFACode {
    /// A fresh random code of six ASCII digits, which `TwoFACode::parse`
    /// accepts.
    fn default() -> (r: Self)
        ensures
            is_six_digits(r@),
            code_accepted(r@),
    {
        let mut code = String::new();
        let mut n: usize = 0;
        while n < 6
            invariant
                n <= 6,
                code@.len() == n,
                forall|i: int| 0 <= i < n ==> is_ascii_digit(#[trigger] code@[i]),
            decreases 6 - n,
        {
            let d = random_digit();
            let ghost before = code@;
            code.append(digit_text(d));
            assert(forall|i: int| 0 <= i < n ==> code@[i] == before[i]);
            n = n + 1;
        }
        assert(is_six_digits(code@));
        match TwoFACode::parse(code) {
            Ok(parsed) => parsed,
            Err(_) => vstd::pervasive::unreached(),
        }
    }
}

impl Clone for TwoFACode {
    fn clone(&self) -> (r: Self)
        ensures
            r@ == self@,
    {
        proof {
            use_type_invariant(self);
        }
        TwoFACode(self.0.clone())
    }
}

impl PartialEq for TwoFACode {
    fn eq(&self, other: &Self) -> (r: bool) {
        self.0 == other.0
    }
}

impl vstd::std_specs::cmp::PartialEqSpecImpl for TwoFACode {
    open spec fn obeys_eq_spec() -> bool {
        true
    }

    open spec fn eq_spec(&self, other: &Self) -> bool {
        self@ == other@
    }
}

impl Eq for TwoFACode {}

/// Why a code store refused a request.
#[derive(Debug, Clone, Copy, PartialEq, Eq, Structural)]
pub enum TwoFACodeStoreError {
    LoginAttemptIdNotFound,
    UnexpectedError,
}

/// The pending table of a code store: for an address, the attempt
/// identifier and the code, as texts.
pub type CodeTable = Map<Seq<char>, (Seq<char>, Seq<char>)>;

/// What recording `(id, code)` for `email` does: on success the table maps
/// `email` to it, replacing any earlier entry; a failure changes nothing.
pub open spec fn add_code_post(
    before: CodeTable,
    after: CodeTable,
    email: Seq<char>,
    id: Seq<char>,
    code: Seq<char>,
    r: Result<(), TwoFACodeStoreError>,
) -> bool {
    &&& r is Ok ==> after == before.insert(email, (id, code))
    &&& r is Err ==> after == before
}

/// What forgetting the entry for `email` does: on success the entry is
/// gone; a failure changes nothing, and `LoginAttemptIdNotFound` means there
/// was no entry.
pub open spec fn remove_code_post(
    before: CodeTable,
    after: CodeTable,
    email: Seq<char>,
    r: Result<(), TwoFACodeStoreError>,
) -> bool {
    &&& r is Ok ==> after == before.remove(email)
    &&& r is Err ==> after == before
    &&& r matches Err(TwoFACodeStoreError::LoginAttemptIdNotFound) ==> !before.contains_key(email)
}

/// What reading the entry for `email` answers: the entry itself exactly
/// when there is one, and `LoginAttemptIdNotFound` otherwise.
pub open spec fn get_code_post(
    codes: CodeTable,
    email: Seq<char>,
    r: Result<(LoginAttemptId, TwoFACode), TwoFACodeStoreError>,
) -> bool {
    &&& r is Ok <==> codes.contains_key(email)
    &&& r matches Ok((id, code)) ==> codes[email] == (id@, code@)
    &&& r is Err ==> r matches Err(TwoFACodeStoreError::LoginAttemptIdNotFound)
}

/// A store of pending second-factor log-ins: for an e-mail address, the
/// attempt identifier and the code sent for it. A store that keeps a model
/// (`keeps_model()`) describes that table by `codes()`, over the texts, and
/// holds it in memory: recording always succeeds, and forgetting succeeds
/// exactly when there is an entry. The contracts speak of such stores. A store implemented outside the library
/// keeps none, and nothing is stated of it.
pub trait TwoFACodeStore {
    closed spec fn keeps_model(&self) -> bool {
        false
    }

    closed spec fn codes(&self) -> CodeTable {
        Map::empty()
    }

    /// Records the attempt and code for `email`, replacing any earlier one.
    fn add_code(&mut self, email: Email, login_attempt_id: LoginAttemptId, code: TwoFACode) -> (r:
        Result<(), TwoFACodeStoreError>)
        ensures
            final(self).keeps_model() == old(self).keeps_model(),
            old(self).keeps_model() ==> r is Ok,
            old(self).keeps_model() ==> add_code_post(
                old(self).codes(),
                final(self).codes(),
                email@,
                login_attempt_id@,
                code@,
                r,
            ),
    ;

    /// Forgets the attempt recorded for `email`.
    fn remove_code(&mut self, email: &Email) -> (r: Result<(), TwoFACodeStoreError>)
        ensures
            final(self).keeps_model() == old(self).keeps_model(),
            old(self).keeps_model() ==> (r is Ok <==> old(self).codes().contains_key(email@)),
            old(self).keeps_model() ==> remove_code_post(
                old(self).codes(),
                final(self).codes(),
                email@,
                r,
            ),
    ;

    /// The attempt recorded for `email`.
    fn get_code(&self, email: &Email) -> (r: Result<(LoginAttemptId, TwoFACode), TwoFACodeStoreError>)
        ensures
            self.keeps_model() ==> get_code_post(self.codes(), email@, r),
    ;
}

/// Reading back an entry just recorded gives what was recorded.
pub proof fn law_code_read_after_write(
    before: CodeTable,
    after: CodeTable,
    email: Seq<char>,
    id: Seq<char>,
    code: Seq<char>,
    write: Result<(), TwoFACodeStoreError>,
    read: Result<(LoginAttemptId, TwoFACode), TwoFACodeStoreError>,
)
    requires
        add_code_post(before, after, email, id, code, write),
        write is Ok,
        get_code_post(after, email, read),
    ensures
        read matches Ok((i, c)) ==> i@ == id && c@ == code,
        !(read matches Err(TwoFACodeStoreError::LoginAttemptIdNotFound)),
{
}

/// Once an entry is forgotten, reading it does not succeed.
pub proof fn law_code_gone_after_remove(
    before: CodeTable,
    after: CodeTable,
    email: Seq<char>,
    remove: Result<(), TwoFACodeStoreError>,
    read: Result<(LoginAttemptId, TwoFACode), TwoFACodeStoreError>,
)
    requires
        remove_code_post(before, after, email, remove),
        remove is Ok,
        get_code_post(after, email, read),
    ensures
        read is Err,
{
}

/// Recording an entry for one address leaves the entries of the others as
/// they were.
pub proof fn law_code_write_keeps_others(
    before: CodeTable,
    after: CodeTable,
    email: Seq<char>,
    other: Seq<char>,
    id: Seq<char>,
    code: Seq<char>,
    write: Result<(), TwoFACodeStoreError>,
)
    requires
        add_code_post(before, after, email, id, code, write),
        other != email,
    ensures
        after.contains_key(other) == before.contains_key(other),
        before.contains_key(other) ==> after[other] == before[other],
{
}

} // verus!
