//! Turning raw user input into a parsed, scheme-complete URL.

use vstd::prelude::*;

verus! {

#[verifier::external_type_specification]
#[verifier::external_body]
pub struct ExParseError(url::ParseError);

/// How `url::Url::parse` ends on a given text.
pub enum UrlParseOutcome {
    Parsed,
    /// The text has no scheme and there is no base to resolve it against.
    MissingScheme,
    /// Any other failure.
    Malformed,
}

/// How `url::Url::parse` ends on `s`.
pub uninterp spec fn url_parse_outcome(s: Seq<char>) -> UrlParseOutcome;

/// `url::Url::as_str` of the URL that `s` parses to.
pub uninterp spec fn url_serialization(s: Seq<char>) -> Seq<char>;

/// `url::Url::domain` of the URL that `s` parses to.
pub uninterp spec fn url_domain(s: Seq<char>) -> Option<Seq<char>>;

/// `url::Url::path` of the URL that `s` parses to.
pub uninterp spec fn url_path(s: Seq<char>) -> Seq<char>;

/// The parts of a URL that rules look at.
pub struct UrlView {
    pub text: Seq<char>,
    pub domain: Option<Seq<char>>,
    pub path: Seq<char>,
}

/// The parts of the URL that the text `s` parses to.
pub open spec fn parsed_view(s: Seq<char>) -> UrlView {
    UrlView { text: url_serialization(s), domain: url_domain(s), path: url_path(s) }
}

/// A URL that parsed: its full text, its domain if it has one, and its path.
#[derive(Clone, Debug, PartialEq, Eq)]
pub struct NormalizedUrl {
    text: String,
    domain: Option<String>,
    path: String,
}

impl View for NormalizedUrl {
    type V = UrlView;

    closed spec fn view(&self) -> UrlView {
        UrlView {
            text: self.text@,
            domain: match self.domain {
                Some(d) => Some(d@),
                None => None,
            },
            path: self.path@,
        }
    }
}

/// Why a text did not parse as a URL.
#[derive(Debug, PartialEq, Eq)]
pub enum UrlFault {
    MissingScheme,
    Malformed(url::ParseError),
}

/// A URL argument that could not be parsed, even with a scheme put in front.
#[derive(Debug, PartialEq, Eq)]
pub struct InvalidUrl {
    pub input: String,
    pub fault: UrlFault,
}

/// The scheme put in front of an input that has none.
pub open spec fn https_prefix() -> Seq<char> {
    seq!['h', 't', 't', 'p', 's', ':', '/', '/']
}

/// The text that is finally parsed for the input `s`.
pub open spec fn normalized_input(s: Seq<char>) -> Seq<char> {
    if url_parse_outcome(s) == UrlParseOutcome::MissingScheme {
        https_prefix() + s
    } else {
        s
    }
}

/// The URL that the input `s` normalizes to, if any.
pub open spec fn normalize(s: Seq<char>) -> Option<UrlView> {
    let t = normalized_input(s);
    if url_parse_outcome(t) == UrlParseOutcome::Parsed {
        Some(parsed_view(t))
    } else {
        None
    }
}

/// Relies on `url::Url::parse`, and on `as_str`, `domain` and `path` of the
/// parsed URL. A text that starts with a scheme never fails with
/// `RelativeUrlWithoutBase`.
#[verifier::external_body]
fn parse_url(input: &str) -> (r: Result<NormalizedUrl, UrlFault>)
    ensures
        r is Ok <==> url_parse_outcome(input@) == UrlParseOutcome::Parsed,
        r is Ok ==> r->Ok_0@.text == url_serialization(input@),
        r is Ok ==> r->Ok_0@.domain == url_domain(input@),
        r is Ok ==> r->Ok_0@.path == url_path(input@),
        (r is Err && r->Err_0 is MissingScheme) <==> url_parse_outcome(input@)
            == UrlParseOutcome::MissingScheme,
        (r is Err && r->Err_0 is MissingScheme) ==> !(input@.len() >= 8 && input@.subrange(0, 8)
            == https_prefix()),
{
    match url::Url::parse(input) {
        Ok(u) => Ok(
            NormalizedUrl {
                text: u.as_str().to_string(),
                domain: u.domain().map(|d| d.to_string()),
                path: u.path().to_string(),
            },
        ),
        Err(url::ParseError::RelativeUrlWithoutBase) => Err(UrlFault::MissingScheme),
        Err(e) => Err(UrlFault::Malformed(e)),
    }
}

/// Parses `input` as an absolute URL; where it fails for want of a scheme,
/// parses `https://` followed by `input` instead.
pub fn tolerant_url(input: &String) -> (r: Result<NormalizedUrl, InvalidUrl>)
    ensures
        r is Ok <==> normalize(input@) is Some,
        r is Ok ==> Some(r->Ok_0@) == normalize(input@),
        r is Err ==> r->Err_0.input@ == input@,
        r is Err ==> (r->Err_0.fault is MissingScheme <==> url_parse_outcome(normalized_input(input@))
            == UrlParseOutcome::MissingScheme),
{
    match parse_url(input.as_str()) {
        Ok(u) => {
            assert(u@ == parsed_view(input@));
            Ok(u)
        },
        Err(UrlFault::MissingScheme) => {
            let mut with_scheme = String::from_str("https://");
            proof {
                reveal_strlit("https://");
                assert(with_scheme@ =~= https_prefix());
            }
            with_scheme.append(input.as_str());
            match parse_url(with_scheme.as_str()) {
                Ok(u) => {
                    assert(u@ == parsed_view(with_scheme@));
                    Ok(u)
                },
                Err(fault) => Err(InvalidUrl { input: input.clone(), fault }),
            }
        },
        Err(fault) => Err(InvalidUrl { input: input.clone(), fault }),
    }
}

impl NormalizedUrl {
    /// The full text of the URL.
    pub fn as_str(&self) -> (r: &str)
        ensures
            r@ == self@.text,
    {
        self.text.as_str()
    }

    /// The domain of the URL, if its host is one.
    pub fn domain(&self) -> (r: Option<&str>)
        ensures
            r is Some <==> self@.domain is Some,
            r is Some ==> r->Some_0@ == self@.domain->Some_0,
    {
        match &self.domain {
            Some(d) => Some(d.as_str()),
            None => None,
        }
    }

    /// The path of the URL.
    pub fn path(&self) -> (r: &str)
        ensures
            r@ == self@.path,
    {
        self.path.as_str()
    }
}

/// Putting the default scheme in front of an input that lacks one gives the
/// same URL as the input written with that scheme: both parse the same text.
pub proof fn lemma_scheme_injection(s: Seq<char>)
    requires
        url_parse_outcome(s) == UrlParseOutcome::MissingScheme,
        url_parse_outcome(https_prefix() + s) != UrlParseOutcome::MissingScheme,
    ensures
        normalize(s) == normalize(https_prefix() + s),
{
}

} // verus!
