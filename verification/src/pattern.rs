//! Searching a text for a regular expression.
//!
//! Patterns are compiled and run by the `regex` crate. What that crate
//! answers is not proved here: it is given a name, and the contracts of this
//! module say what is returned for each answer.

use crate::error::{CompileError, CompileErrorView};
use regex::Regex;
use vstd::prelude::*;

verus! {

/// `regex::Regex`, a compiled pattern. Nothing inside it is visible here.
#[verifier::external_type_specification]
#[verifier::external_body]
pub struct ExRegex(regex::Regex);

/// `regex::Error`, the reason a pattern did not compile.
#[verifier::external_type_specification]
#[verifier::external_body]
pub struct ExRegexError(regex::Error);

/// What `Regex::new` answers for `pattern`: the compiled pattern, or the
/// reason it was refused.
pub uninterp spec fn compiled(pattern: Seq<char>) -> Result<Regex, regex::Error>;

/// What `Regex::is_match` answers: whether `re` matches anywhere in
/// `haystack`.
pub uninterp spec fn occurs(re: Regex, haystack: Seq<char>) -> bool;

/// What `regex::Error` displays as.
pub uninterp spec fn refusal(e: regex::Error) -> Seq<char>;

/// Calls `Regex::new`, with the crate's default limits.
///
/// Trusted: the answer depends on the text of the pattern alone.
#[verifier::external_body]
fn compile(pattern: &str) -> (r: Result<Regex, regex::Error>)
    ensures
        r == compiled(pattern@),
{
    Regex::new(pattern)
}

/// Calls `Regex::is_match`.
///
/// Trusted: the answer depends on the compiled pattern and the haystack
/// alone.
#[verifier::external_body]
fn is_match(re: &Regex, haystack: &str) -> (found: bool)
    ensures
        found == occurs(*re, haystack@),
{
    re.is_match(haystack)
}

/// Formats a `regex::Error` through its `Display` impl.
///
/// Trusted: the text depends on the error alone.
#[verifier::external_body]
fn refusal_text(e: &regex::Error) -> (s: String)
    ensures
        s@ == refusal(*e),
{
    e.to_string()
}

/// What a search returns once the pattern has been through the compiler:
/// whether the compiled pattern occurs in `text`, or the compiler's refusal
/// together with the pattern it was given.
pub open spec fn search_result(
    answer: Result<Regex, regex::Error>,
    pattern: Seq<char>,
    text: Seq<char>,
) -> Result<bool, CompileErrorView> {
    match answer {
        Ok(re) => Ok(occurs(re, text)),
        Err(e) => Err(CompileErrorView { pattern, message: refusal(e) }),
    }
}

/// A result with its error taken by view.
pub open spec fn result_view(r: Result<bool, CompileError>) -> Result<bool, CompileErrorView> {
    match r {
        Ok(found) => Ok(found),
        Err(e) => Err(e@),
    }
}

/// Finishes a search for which the compiler has already answered.
///
/// `answer` is what compiling `pattern` gave. A compiled pattern is run
/// against `text`: the result is `Ok(true)` when it matches somewhere in the
/// text and `Ok(false)` when it matches nowhere. A refusal becomes a
/// [`CompileError`] that carries the pattern and the compiler's message; it
/// is never reported as `Ok(false)`.
pub fn search_compiled(
    answer: Result<Regex, regex::Error>,
    pattern: &str,
    text: &str,
) -> (r: Result<bool, CompileError>)
    ensures
        result_view(r) == search_result(answer, pattern@, text@),
        answer is Err <==> r is Err,
{
    match answer {
        Ok(re) => Ok(is_match(&re, text)),
        Err(e) => Err(CompileError::new(pattern, refusal_text(&e))),
    }
}

/// Whether `pattern` matches anywhere in `text`.
///
/// The pattern is compiled once, on every call. An invalid pattern gives a
/// [`CompileError`] whatever the text is; a valid pattern that matches
/// nowhere gives `Ok(false)`.
pub fn contains_pattern(text: &str, pattern: &str) -> (r: Result<bool, CompileError>)
    ensures
        result_view(r) == search_result(compiled(pattern@), pattern@, text@),
        compiled(pattern@) is Err <==> r is Err,
{
    search_compiled(compile(pattern), pattern, text)
}

/// A pattern that does not compile is refused for every text, and alike:
/// no text turns the refusal into an answer.
pub proof fn lemma_refusal_ignores_text(pattern: Seq<char>, first: Seq<char>, second: Seq<char>)
    requires
        compiled(pattern) is Err,
    ensures
        search_result(compiled(pattern), pattern, first) is Err,
        search_result(compiled(pattern), pattern, first) == search_result(
            compiled(pattern),
            pattern,
            second,
        ),
{
}

} // verus!
