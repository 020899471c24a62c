//! The rule that tells a screenshot file from any other path: a `png`
//! extension and a file name that ends in a `NN.NN.NN.png` timestamp.
use vstd::prelude::*;
use crate::path::{extension_of, file_name_of, same_chars, ScreenshotCandidate};

verus! {

/// What the regex crate makes of `pattern` searched in `haystack`: `None`
/// when the pattern does not compile, else whether it matches somewhere.
pub uninterp spec fn regex_outcome(pattern: Seq<char>, haystack: Seq<char>) -> Option<bool>;

/// Relies on regex::Regex::new, which compiles `pattern` or returns an error,
/// and on regex::Regex::is_match, which reports whether the compiled pattern
/// matches anywhere in `haystack`. Both depend on their arguments alone.
#[verifier::external_body]
fn regex_search(pattern: &str, haystack: &str) -> (r: Option<bool>)
    ensures
        r == regex_outcome(pattern@, haystack@),
{
    match regex::Regex::new(pattern) {
        Ok(re) => Some(re.is_match(haystack)),
        Err(_) => None,
    }
}

/// The timestamp shape that a screenshot's file name ends with.
pub open spec fn time_pattern() -> Seq<char> {
    "\\d{2}\\.\\d{2}\\.\\d{2}\\.png$"@
}

/// The one extension that a screenshot may have.
pub open spec fn png() -> Seq<char> {
    "png"@
}

/// A file name qualifies: its extension is `png`, exactly, and it ends with
/// the timestamp shape.
pub open spec fn name_matches(name: Seq<char>) -> bool {
    extension_of(name) == Some(png()) && regex_outcome(time_pattern(), name) == Some(true)
}

/// A path qualifies: it names a file, and that name qualifies.
pub open spec fn path_matches(p: Seq<char>) -> bool {
    match file_name_of(p) {
        Some(name) => name_matches(name),
        None => false,
    }
}

/// Decides whether `c` qualifies, given `time_shape`, what the search for
/// the timestamp shape in its file name gave.
pub fn candidate_qualifies(c: &ScreenshotCandidate, time_shape: Option<bool>) -> (r: bool)
    ensures
        r == (c.extension@ == png() && time_shape == Some(true)),
{
    same_chars(c.extension.as_str(), "png") && time_shape == Some(true)
}

/// The compiled match rule for screenshot files.
pub struct PatternMatcher {
    pattern: String,
}

impl PatternMatcher {
    pub closed spec fn wf(&self) -> bool {
        self.pattern@ == time_pattern()
    }

    pub fn new() -> (r: PatternMatcher)
        ensures
            r.wf(),
    {
        PatternMatcher { pattern: String::from_str("\\d{2}\\.\\d{2}\\.\\d{2}\\.png$") }
    }

    /// Decides whether the candidate `c` qualifies.
    pub fn matches_candidate(&self, c: &ScreenshotCandidate) -> (r: bool)
        requires
            self.wf(),
            c.wf(),
        ensures
            r == path_matches(c.path@),
    {
        let found = regex_search(self.pattern.as_str(), c.filename.as_str());
        candidate_qualifies(c, found)
    }

    /// Decides whether `path` names a screenshot file. Total: a path without
    /// a file name or without an extension gives `false`.
    pub fn matches(&self, path: &str) -> (r: bool)
        requires
            self.wf(),
        ensures
            r == path_matches(path@),
    {
        match ScreenshotCandidate::from_path(path) {
            Some(c) => self.matches_candidate(&c),
            None => false,
        }
    }
}

} // verus!
