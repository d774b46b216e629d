//! Regular-expression matching, done by `fancy_regex`.
//!
//! What a pattern matches is `fancy_regex`'s business: the library names the
//! outcome of compiling a pattern and of testing a text against it, and
//! states its own rules over those names.

use crate::domain::data_stores::two_fa_store::{is_six_digits, TWO_FA_CODE_PATTERN};
use vstd::prelude::*;

verus! {

#[verifier::external_type_specification]
#[verifier::external_body]
pub struct ExRegex(fancy_regex::Regex);

#[verifier::external_type_specification]
#[verifier::external_body]
pub struct ExRegexError(fancy_regex::Error);

/// Whether `fancy_regex::Regex::new` accepts `pattern`.
pub uninterp spec fn regex_compiles(pattern: Seq<char>) -> bool;

/// What `fancy_regex::Regex::is_match` answers for a regex compiled from
/// `pattern`, tested on `text`: `Some(found)`, or `None` where the matcher
/// reports an error (for instance a backtracking limit).
pub uninterp spec fn regex_match_outcome(pattern: Seq<char>, text: Seq<char>) -> Option<bool>;

/// A compiled regular expression together with the pattern it was compiled
/// from. Only `compile` builds one.
pub struct CompiledPattern {
    source: String,
    regex: fancy_regex::Regex,
}

impl CompiledPattern {
    /// The pattern this regex was compiled from.
    pub closed spec fn source(&self) -> Seq<char> {
        self.source@
    }
}

/// `fancy_regex::Regex::new`: compiles `pattern`. The contract says that it
/// succeeds exactly when the pattern compiles (a name for that outcome),
/// that the second-factor code pattern `^\d{6}$` compiles, and that the
/// result remembers the pattern.
#[verifier::external_body]
pub(crate) fn compile(pattern: &str) -> (r: Result<CompiledPattern, fancy_regex::Error>)
    ensures
        r is Ok <==> regex_compiles(pattern@),
        pattern@ == TWO_FA_CODE_PATTERN@ ==> r is Ok,
        r matches Ok(p) ==> p.source() == pattern@,
{
    match fancy_regex::Regex::new(pattern) {
        Ok(regex) => Ok(CompiledPattern { source: pattern.to_string(), regex }),
        Err(e) => Err(e),
    }
}

/// `fancy_regex::Regex::is_match`: tests `text` against the compiled
/// pattern. The contract ties the answer to the named outcome for the
/// pattern and the text, and says that `^\d{6}$` matches six ASCII digits
/// (`\d` is the Unicode class `Nd`, which holds `0` to `9`; the pattern
/// has no construct that makes the matcher report an error).
#[verifier::external_body]
pub(crate) fn is_match(p: &CompiledPattern, text: &str) -> (r: Result<bool, fancy_regex::Error>)
    ensures
        match r {
            Ok(found) => regex_match_outcome(p.source(), text@) == Some(found),
            Err(_) => regex_match_outcome(p.source(), text@) is None,
        },
        (p.source() == TWO_FA_CODE_PATTERN@ && is_six_digits(text@)) ==> r is Ok && !(r matches Ok(
            false,
        )),
{
    p.regex.is_match(text)
}

/// Whether `text` matches `pattern`: `Some(found)` when the pattern compiles
/// and the matcher answers, `None` otherwise.
pub open spec fn match_verdict(pattern: Seq<char>, text: Seq<char>) -> Option<bool> {
    if regex_compiles(pattern) {
        regex_match_outcome(pattern, text)
    } else {
        None
    }
}

/// Compiles `pattern` and tests `text` against it.
pub fn test_pattern(pattern: &str, text: &str) -> (r: Option<bool>)
    ensures
        r == match_verdict(pattern@, text@),
{
    match compile(pattern) {
        Ok(p) => match is_match(&p, text) {
            Ok(found) => Some(found),
            Err(_) => None,
        },
        Err(_) => None,
    }
}

} // verus!
