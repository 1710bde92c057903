//! Pattern compilation: the trusted boundary around the regex engine.
//!
//! A [`CompiledPattern`] pairs a compiled regular expression with the pattern
//! text and case flag it was built from; contracts speak of the matcher's
//! behaviour purely as a function of that pattern text, the flag, and the
//! text it is applied to.

use vstd::prelude::*;
use vstd::string::StringExecFns;
use crate::errors::SubError;

verus! {

/// Whether `pattern` is a regular expression the engine accepts when compiled
/// with the given case sensitivity.
pub uninterp spec fn regex_compiles(pattern: Seq<char>, ignore_case: bool) -> bool;

/// Whether the regular expression `pattern`, compiled with the given case
/// sensitivity, matches anywhere inside `text`.
pub uninterp spec fn regex_matches(pattern: Seq<char>, ignore_case: bool, text: Seq<char>) -> bool;

/// The result of replacing every non-overlapping match of `pattern` in `text`
/// with `replacement`, leftmost-first, with capture-group references in the
/// replacement expanded.
pub uninterp spec fn regex_replaced(
    pattern: Seq<char>,
    ignore_case: bool,
    text: Seq<char>,
    replacement: Seq<char>,
) -> Seq<char>;

/// Declares `regex::Regex` so a compiled matcher can be stored in a field;
/// the value is opaque, and contracts speak only of the pattern text and
/// flag it was built from.
#[verifier::external_type_specification]
#[verifier::external_body]
pub struct ExRegex(regex::Regex);

/// A search or line-filter pattern compiled for repeated application.
///
/// The fields are private and only [`compile`] constructs a value, so the
/// stored regex is always the one built from the stored pattern text and
/// case flag.
pub struct CompiledPattern {
    regex: regex::Regex,
    pattern: String,
    ignore_case: bool,
}

impl CompiledPattern {
    /// The pattern text this matcher was compiled from.
    pub closed spec fn pat(&self) -> Seq<char> {
        self.pattern@
    }

    /// Whether this matcher ignores case.
    pub closed spec fn ci(&self) -> bool {
        self.ignore_case
    }
}

/// Relies on `regex::RegexBuilder` (`new`, `case_insensitive`, `build`):
/// compilation succeeds or fails as a function of the pattern text and the
/// flag alone, and the built matcher is recorded together with exactly that
/// pattern text and flag.
#[verifier::external_body]
fn regex_build(pattern: &str, ignore_case: bool) -> (result: Option<CompiledPattern>)
    ensures
        result is Some <==> regex_compiles(pattern@, ignore_case),
        result matches Some(cp) ==> cp.pat() == pattern@ && cp.ci() == ignore_case,
{
    match regex::RegexBuilder::new(pattern).case_insensitive(ignore_case).build() {
        Ok(regex) => Some(
            CompiledPattern { regex, pattern: pattern.to_owned(), ignore_case },
        ),
        Err(_) => None,
    }
}

/// Relies on `regex::Regex::is_match`: whether the pattern matches anywhere
/// in `text`, a function of the compiled pattern and the text alone.
#[verifier::external_body]
pub(crate) fn regex_is_match(cp: &CompiledPattern, text: &str) -> (result: bool)
    ensures
        result == regex_matches(cp.pat(), cp.ci(), text@),
{
    cp.regex.is_match(text)
}

/// Relies on `regex::Regex::replace_all` with a `&str` replacement: replaces
/// every non-overlapping match leftmost-first, expanding capture-group
/// references in the replacement; a function of pattern, text and
/// replacement alone.
#[verifier::external_body]
pub(crate) fn regex_replace_all(cp: &CompiledPattern, text: &str, replacement: &str) -> (result:
    String)
    ensures
        result@ == regex_replaced(cp.pat(), cp.ci(), text@, replacement@),
{
    cp.regex.replace_all(text, replacement).into_owned()
}

/// The pattern text actually handed to the regex engine: wrapped in `\b` word
/// boundaries when whole-word matching is asked for, otherwise unchanged.
pub open spec fn spec_effective_pattern(pattern: Seq<char>, whole_word: bool) -> Seq<char> {
    if whole_word {
        "\\b"@ + pattern + "\\b"@
    } else {
        pattern
    }
}

/// Builds the effective pattern text, wrapping it in word boundaries when
/// whole-word matching is asked for.
pub fn effective_pattern(pattern: &str, whole_word: bool) -> (result: String)
    ensures
        result@ == spec_effective_pattern(pattern@, whole_word),
{
    if whole_word {
        let mut wrapped = String::from_str("\\b");
        wrapped.append(pattern);
        wrapped.append("\\b");
        wrapped
    } else {
        String::from_str(pattern)
    }
}

/// Compiles a search pattern. With `whole_word` the pattern is first wrapped
/// as `\b<pattern>\b`, so whole-word matching composes with any regex syntax
/// the caller supplies; `ignore_case` configures case-insensitive matching in
/// the engine rather than rewriting the pattern. Fails with
/// [`SubError::RegexError`] exactly when the effective pattern is not a valid
/// regular expression.
pub fn compile(pattern: &str, whole_word: bool, ignore_case: bool) -> (result: Result<
    CompiledPattern,
    SubError,
>)
    ensures
        result is Ok <==> regex_compiles(
            spec_effective_pattern(pattern@, whole_word),
            ignore_case,
        ),
        result matches Ok(cp) ==> cp.pat() == spec_effective_pattern(pattern@, whole_word)
            && cp.ci() == ignore_case,
        result matches Err(e) ==> e == SubError::RegexError,
{
    let effective = effective_pattern(pattern, whole_word);
    match regex_build(effective.as_str(), ignore_case) {
        Some(cp) => Ok(cp),
        None => Err(SubError::RegexError),
    }
}

} // verus!
