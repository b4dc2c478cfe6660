//! Compiled search patterns, backed by the `regex` crate.

use vstd::prelude::*;

verus! {

#[verifier::external_type_specification]
#[verifier::external_body]
pub struct ExRegex(regex::Regex);

#[verifier::external_type_specification]
#[verifier::external_body]
pub struct ExRegexError(regex::Error);

/// Whether `regex` accepts `source` as a pattern, compiled with case
/// sensitivity switched off when `insensitive` holds.
pub uninterp spec fn regex_compiles(source: Seq<char>, insensitive: bool) -> bool;

/// Whether the pattern `source` (compiled as `regex_compiles` says) matches
/// somewhere in `haystack`.
pub uninterp spec fn regex_finds(source: Seq<char>, insensitive: bool, haystack: Seq<char>) -> bool;

/// Relies on `regex::RegexBuilder::new`, `case_insensitive` and `build`: the
/// outcome depends on the pattern text and the flag alone.
#[verifier::external_body]
fn compile(source: &str, insensitive: bool) -> (r: Result<regex::Regex, regex::Error>)
    ensures
        r.is_ok() == regex_compiles(source@, insensitive),
{
    regex::RegexBuilder::new(source).case_insensitive(insensitive).build()
}

/// A regular expression together with the text and flag it was compiled from.
pub struct Pattern {
    re: regex::Regex,
    source: String,
    insensitive: bool,
}

impl Pattern {
    /// The pattern text.
    pub closed spec fn source(&self) -> Seq<char> {
        self.source@
    }

    /// Whether the pattern ignores case.
    pub closed spec fn insensitive(&self) -> bool {
        self.insensitive
    }

    /// Whether the pattern matches somewhere in `line`.
    pub open spec fn spec_matches(&self, line: Seq<char>) -> bool {
        regex_finds(self.source(), self.insensitive(), line)
    }

    /// Compiles `source`, ignoring case when `insensitive` holds.
    pub fn new(source: &str, insensitive: bool) -> (r: Result<Pattern, regex::Error>)
        ensures
            r.is_ok() == regex_compiles(source@, insensitive),
            r matches Ok(p) ==> p.source() == source@ && p.insensitive() == insensitive,
    {
        match compile(source, insensitive) {
            Ok(re) => Ok(Pattern { re, source: String::from_str(source), insensitive }),
            Err(e) => Err(e),
        }
    }

    /// Whether the pattern matches somewhere in `line`.
    pub fn is_match(&self, line: &str) -> (r: bool)
        ensures
            r == self.spec_matches(line@),
    {
        find_in(self, line)
    }
}

/// Relies on `regex::Regex::is_match`: a `Pattern` is only ever built by
/// `Pattern::new`, so its regex is the one compiled from its own text and flag,
/// and whether it matches depends on those and the haystack alone.
#[verifier::external_body]
fn find_in(p: &Pattern, haystack: &str) -> (r: bool)
    ensures
        r == regex_finds(p.source(), p.insensitive(), haystack@),
{
    p.re.is_match(haystack)
}

} // verus!
