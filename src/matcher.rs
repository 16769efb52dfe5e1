//! Compiled text patterns, tested against parts of a URL.

use vstd::prelude::*;

verus! {

#[verifier::external_type_specification]
#[verifier::external_body]
pub struct ExRegex(regex::Regex);

#[verifier::external_type_specification]
#[verifier::external_body]
pub struct ExRegexError(regex::Error);

/// Whether `regex::Regex::new` accepts a pattern text.
pub uninterp spec fn regex_compiles(pattern: Seq<char>) -> bool;

/// What `regex::Regex::is_match` answers for a regex built from `pattern`,
/// tested against `text`.
pub uninterp spec fn regex_is_match(pattern: Seq<char>, text: Seq<char>) -> bool;

/// A compiled pattern together with the text it was compiled from.
///
/// The fields are private: a `Matcher` only comes out of `Matcher::new`, so
/// `compiled` is always the regex that `source` denotes.
pub struct Matcher {
    source: String,
    compiled: regex::Regex,
}

impl View for Matcher {
    type V = Seq<char>;

    /// The pattern text.
    closed spec fn view(&self) -> Seq<char> {
        self.source@
    }
}

/// Relies on `regex::Regex::new`: it fails or succeeds depending on the
/// pattern text alone.
#[verifier::external_body]
fn new_regex(source: &String) -> (r: Result<Matcher, regex::Error>)
    ensures
        r is Ok <==> regex_compiles(source@),
        r is Ok ==> r->Ok_0@ == source@,
{
    match regex::Regex::new(source.as_str()) {
        Ok(compiled) => Ok(Matcher { source: source.clone(), compiled }),
        Err(e) => Err(e),
    }
}

/// Relies on `regex::Regex::is_match`: whether the regex matches somewhere in
/// `text`, which depends on the pattern text and `text` alone.
#[verifier::external_body]
fn regex_test(m: &Matcher, text: &str) -> (r: bool)
    ensures
        r == regex_is_match(m@, text@),
{
    m.compiled.is_match(text)
}

impl Matcher {
    /// Compiles `source`; fails exactly when the regex engine rejects it.
    pub fn new(source: &String) -> (r: Result<Matcher, regex::Error>)
        ensures
            r is Ok <==> regex_compiles(source@),
            r is Ok ==> r->Ok_0@ == source@,
    {
        new_regex(source)
    }

    /// Whether the pattern matches anywhere in `text`.
    pub fn is_match(&self, text: &str) -> (r: bool)
        ensures
            r == regex_is_match(self@, text@),
    {
        regex_test(self, text)
    }

    /// The pattern text this matcher was compiled from.
    pub fn as_str(&self) -> (r: &str)
        ensures
            r@ == self@,
    {
        self.source.as_str()
    }
}

} // verus!
