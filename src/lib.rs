//! A small grep: resolve input paths into targets, keep the lines of each
//! target that match (or, inverted, do not match) a regular expression, and
//! lay out what is printed for each target.

pub mod lines;
pub mod pattern;
pub mod report;
pub mod resolve;

use vstd::prelude::*;
use crate::lines::{filter_lines, find_lines};
use crate::pattern::{regex_compiles, Pattern};
use crate::report::{format_report, multiple_targets, report_text};
use crate::resolve::{entries_view, find_files, resolve_all, Probe};

verus! {

/// A search: the compiled pattern, the input paths (`-` for standard input)
/// and the flags.
pub struct Cli {
    pub pattern: Pattern,
    pub files: Vec<String>,
    pub recursive: bool,
    pub count: bool,
    pub invert_match: bool,
    pub insensitive: bool,
}

impl Cli {
    /// Compiles `pattern`, ignoring case when `insensitive` holds, and sets up
    /// a search of `files`; fails exactly when the pattern does not compile.
    pub fn new(
        pattern: &str,
        files: Vec<String>,
        recursive: bool,
        count: bool,
        invert_match: bool,
        insensitive: bool,
    ) -> (r: Result<Cli, regex::Error>)
        ensures
            r.is_ok() == regex_compiles(pattern@, insensitive),
            r matches Ok(c) ==> {
                &&& c.pattern.source() == pattern@
                &&& c.pattern.insensitive() == insensitive
                &&& c.files@ == files@
                &&& c.recursive == recursive
                &&& c.count == count
                &&& c.invert_match == invert_match
                &&& c.insensitive == insensitive
            },
    {
        match Pattern::new(pattern, insensitive) {
            Ok(p) => Ok(Cli { pattern: p, files, recursive, count, invert_match, insensitive }),
            Err(e) => Err(e),
        }
    }

    /// Resolves the input paths; `probes[i]` is what looking up `files[i]`
    /// found.
    pub fn resolve(&self, probes: &Vec<Probe>) -> (r: Vec<Result<String, String>>)
        requires
            probes.len() == self.files.len(),
        ensures
            entries_view(r@) == resolve_all(self.files.deep_view(), probes@, self.recursive),
    {
        find_files(&self.files, self.recursive, probes)
    }

    /// What is printed for the target `name` whose lines are `lines`, when
    /// `resolved` entries came out of resolving the input paths.
    pub fn report(&self, name: &str, lines: &Vec<String>, resolved: usize) -> (r: String)
        ensures
            r@ == report_text(
                name@,
                filter_lines(lines.deep_view(), self.pattern, self.invert_match),
                self.count,
                resolved > 1,
            ),
    {
        let kept = find_lines(lines, &self.pattern, self.invert_match);
        format_report(name, &kept, self.count, multiple_targets(resolved))
    }
}

} // verus!
