//! Exclude patterns: shell-style globs, compiled and matched by the `glob` crate.

use vstd::prelude::*;
use crate::error::PassError;

verus! {

/// A compiled pattern of the `glob` crate. Nothing inside it is visible to
/// proofs; contracts speak of it through [`pattern_source`].
#[verifier::external_type_specification]
#[verifier::external_body]
pub struct ExPattern(glob::Pattern);

/// The error with which `glob::Pattern::new` refuses a pattern text.
#[verifier::external_type_specification]
#[verifier::external_body]
pub struct ExPatternError(glob::PatternError);

/// The text that a compiled pattern holds: the one it was made from, which
/// `glob::Pattern::as_str` returns.
pub uninterp spec fn pattern_source(pattern: glob::Pattern) -> Seq<char>;

/// Whether `glob::Pattern::new` accepts `text` as a pattern.
pub uninterp spec fn glob_valid(text: Seq<char>) -> bool;

/// Whether the pattern compiled from `text` matches `path` under the default
/// match options of `glob::Pattern::matches`: case-sensitive, with `*` and `?`
/// free to match a path separator.
pub uninterp spec fn glob_matches(text: Seq<char>, path: Seq<char>) -> bool;

/// Calls `glob::Pattern::new`. The call succeeds exactly on the texts that the
/// crate accepts, and the compiled pattern holds the text it was made from.
#[verifier::external_body]
fn glob_compile(text: &str) -> (r: Result<glob::Pattern, glob::PatternError>)
    ensures
        r is Ok <==> glob_valid(text@),
        r matches Ok(p) ==> pattern_source(p) == text@,
{
    glob::Pattern::new(text)
}

/// Calls `glob::Pattern::matches`: the answer depends on the text that the
/// pattern holds and on `path` alone.
#[verifier::external_body]
fn glob_match(pattern: &glob::Pattern, path: &str) -> (r: bool)
    ensures
        r == glob_matches(pattern_source(*pattern), path@),
{
    pattern.matches(path)
}

/// Calls `glob::Pattern::as_str`, which gives the text that the pattern holds.
#[verifier::external_body]
fn glob_source(pattern: &glob::Pattern) -> (r: &str)
    ensures
        r@ == pattern_source(*pattern),
{
    pattern.as_str()
}

/// An exclude pattern, compiled once and matched against many paths. Its
/// view is the text it was compiled from.
#[derive(Debug)]
pub struct ExcludePattern {
    compiled: glob::Pattern,
}

impl View for ExcludePattern {
    type V = Seq<char>;

    closed spec fn view(&self) -> Seq<char> {
        pattern_source(self.compiled)
    }
}

/// What compiling `text` gives: its own text back, or the error of a text
/// that is no glob.
pub open spec fn compiled_from(text: Seq<char>) -> Result<Seq<char>, PassError> {
    if glob_valid(text) {
        Ok(text)
    } else {
        Err(PassError::InvalidExclude)
    }
}

impl ExcludePattern {
    /// Compiles `text`. A text that is no valid glob is an error of the
    /// configuration.
    pub fn new(text: &str) -> (r: Result<ExcludePattern, PassError>)
        ensures
            match r {
                Ok(pattern) => compiled_from(text@) == Ok::<Seq<char>, PassError>(pattern@),
                Err(e) => compiled_from(text@) == Err::<Seq<char>, PassError>(e),
            },
    {
        match glob_compile(text) {
            Ok(compiled) => Ok(ExcludePattern { compiled }),
            Err(_) => Err(PassError::InvalidExclude),
        }
    }

    /// Whether the pattern matches `path`. The whole path is matched, not
    /// only the file's name.
    pub fn matches(&self, path: &str) -> (r: bool)
        ensures
            r == glob_matches(self@, path@),
    {
        glob_match(&self.compiled, path)
    }

    /// The text that the pattern was compiled from.
    pub fn as_str(&self) -> (r: &str)
        ensures
            r@ == self@,
    {
        glob_source(&self.compiled)
    }
}

/// Whether a path is excluded under an optional pattern text: with no pattern
/// nothing is excluded.
pub open spec fn excluded_by(pattern: Option<Seq<char>>, path: Seq<char>) -> bool {
    match pattern {
        Some(text) => glob_matches(text, path),
        None => false,
    }
}

/// The text behind an optional compiled pattern.
pub open spec fn source_of(pattern: Option<ExcludePattern>) -> Option<Seq<char>> {
    match pattern {
        Some(p) => Some(p@),
        None => None,
    }
}

/// Whether `path` is excluded by the optional compiled pattern.
pub fn is_excluded(pattern: &Option<ExcludePattern>, path: &str) -> (r: bool)
    ensures
        r == excluded_by(source_of(*pattern), path@),
{
    match pattern {
        Some(p) => p.matches(path),
        None => false,
    }
}

} // verus!
