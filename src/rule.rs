//! Routing rules and first-match-wins selection of a profile name.

use vstd::prelude::*;
use crate::address::{NormalizedUrl, UrlView};
use crate::matcher::{Matcher, regex_compiles, regex_is_match};

verus! {

/// One routing entry: up to three patterns on parts of a URL, and the profile
/// chosen when every pattern that is present matches.
pub struct Pattern {
    /// Tested against the full URL text.
    pub regex: Option<Matcher>,
    /// Tested against the URL's domain.
    pub domain: Option<Matcher>,
    /// Tested against the URL's path.
    pub path: Option<Matcher>,
    pub profile: String,
}

/// A rule as pattern texts and a profile name.
pub struct RuleView {
    pub regex: Option<Seq<char>>,
    pub domain: Option<Seq<char>>,
    pub path: Option<Seq<char>>,
    pub profile: Seq<char>,
}

pub open spec fn matcher_view(m: Option<Matcher>) -> Option<Seq<char>> {
    match m {
        Some(m) => Some(m@),
        None => None,
    }
}

pub open spec fn text_view(t: Option<String>) -> Option<Seq<char>> {
    match t {
        Some(t) => Some(t@),
        None => None,
    }
}

impl View for Pattern {
    type V = RuleView;

    open spec fn view(&self) -> RuleView {
        RuleView {
            regex: matcher_view(self.regex),
            domain: matcher_view(self.domain),
            path: matcher_view(self.path),
            profile: self.profile@,
        }
    }
}

/// The rules of a list, in order.
pub open spec fn rules_view(rules: Seq<Pattern>) -> Seq<RuleView> {
    rules.map_values(|p: Pattern| p@)
}

/// A rule matches a URL when every pattern it has matches: the full-text
/// pattern the URL's text, the domain pattern its domain (a URL without a
/// domain fails a domain pattern), the path pattern its path.
pub open spec fn rule_matches(r: RuleView, u: UrlView) -> bool {
    &&& (r.regex is None || regex_is_match(r.regex->Some_0, u.text))
    &&& (r.domain is None || (u.domain is Some && regex_is_match(
        r.domain->Some_0,
        u.domain->Some_0,
    )))
    &&& (r.path is None || regex_is_match(r.path->Some_0, u.path))
}

/// The profile of the first rule that matches `u`, or `default` if none does.
pub open spec fn resolve(rules: Seq<RuleView>, u: UrlView, default: Seq<char>) -> Seq<char>
    decreases rules.len(),
{
    if rules.len() == 0 {
        default
    } else if rule_matches(rules[0], u) {
        rules[0].profile
    } else {
        resolve(rules.drop_first(), u, default)
    }
}

/// The first of `regex`, `domain`, `path` that is present and that the regex
/// engine rejects.
pub open spec fn first_rejected(
    regex: Option<Seq<char>>,
    domain: Option<Seq<char>>,
    path: Option<Seq<char>>,
) -> Option<Seq<char>> {
    if regex is Some && !regex_compiles(regex->Some_0) {
        regex
    } else if domain is Some && !regex_compiles(domain->Some_0) {
        domain
    } else if path is Some && !regex_compiles(path->Some_0) {
        path
    } else {
        None
    }
}

/// A pattern text of a rule that the regex engine rejected.
#[derive(Debug)]
pub struct InvalidPattern {
    pub pattern: String,
    pub cause: regex::Error,
}

/// Compiles an optional pattern text.
pub fn new_regex_opt(text: Option<String>) -> (r: Result<Option<Matcher>, InvalidPattern>)
    ensures
        r is Err <==> (text is Some && !regex_compiles(text->Some_0@)),
        r is Ok ==> matcher_view(r->Ok_0) == text_view(text),
        r is Err ==> text_view(text) == Some(r->Err_0.pattern@),
{
    match text {
        None => Ok(None),
        Some(t) => match Matcher::new(&t) {
            Ok(m) => Ok(Some(m)),
            Err(cause) => Err(InvalidPattern { pattern: t, cause }),
        },
    }
}

impl Pattern {
    /// Builds a rule from its pattern texts; fails on the first text that
    /// does not compile.
    pub fn new(
        regex: Option<String>,
        domain: Option<String>,
        path: Option<String>,
        profile: String,
    ) -> (r: Result<Pattern, InvalidPattern>)
        ensures
            r is Err <==> first_rejected(text_view(regex), text_view(domain), text_view(path))
                is Some,
            r is Ok ==> (r->Ok_0@ == RuleView {
                regex: text_view(regex),
                domain: text_view(domain),
                path: text_view(path),
                profile: profile@,
            }),
            r is Err ==> Some(r->Err_0.pattern@) == first_rejected(
                text_view(regex),
                text_view(domain),
                text_view(path),
            ),
    {
        let regex = new_regex_opt(regex)?;
        let domain = new_regex_opt(domain)?;
        let path = new_regex_opt(path)?;
        Ok(Pattern { regex, domain, path, profile })
    }

    /// Whether every pattern of this rule that is present matches `url`.
    pub fn matches(&self, url: &NormalizedUrl) -> (r: bool)
        ensures
            r == rule_matches(self@, url@),
    {
        if let Some(regex) = &self.regex {
            if !regex.is_match(url.as_str()) {
                return false;
            }
        }
        if let Some(domain) = &self.domain {
            match url.domain() {
                Some(d) => {
                    if !domain.is_match(d) {
                        return false;
                    }
                },
                None => {
                    return false;
                },
            }
        }
        if let Some(path) = &self.path {
            if !path.is_match(url.path()) {
                return false;
            }
        }
        true
    }
}

/// The profile of the first rule in `patterns` that matches `url`, or
/// `default_profile` when none does.
pub fn resolve_profile(
    patterns: &Vec<Pattern>,
    url: &NormalizedUrl,
    default_profile: &String,
) -> (r: String)
    ensures
        r@ == resolve(rules_view(patterns@), url@, default_profile@),
{
    let ghost rules = rules_view(patterns@);
    let mut i: usize = 0;
    assert(rules.subrange(0, rules.len() as int) =~= rules);
    while i < patterns.len()
        invariant
            i <= patterns.len(),
            rules == rules_view(patterns@),
            resolve(rules, url@, default_profile@) == resolve(
                rules.subrange(i as int, rules.len() as int),
                url@,
                default_profile@,
            ),
        decreases patterns.len() - i,
    {
        let ghost rest = rules.subrange(i as int, rules.len() as int);
        assert(rest[0] == patterns@[i as int]@);
        if patterns[i].matches(url) {
            return patterns[i].profile.clone();
        }
        assert(rest.drop_first() =~= rules.subrange(i + 1, rules.len() as int));
        i = i + 1;
    }
    default_profile.clone()
}

/// Resolution is a function of its inputs: the same rules, URL and default
/// give the same profile.
pub proof fn lemma_resolve_deterministic(
    rules1: Seq<RuleView>,
    rules2: Seq<RuleView>,
    u1: UrlView,
    u2: UrlView,
    default1: Seq<char>,
    default2: Seq<char>,
)
    requires
        rules1 == rules2,
        u1 == u2,
        default1 == default2,
    ensures
        resolve(rules1, u1, default1) == resolve(rules2, u2, default2),
{
}

/// When a rule at `i` matches and no earlier rule does, its profile is chosen,
/// whatever later rule (such as the one at `j`) also matches.
pub proof fn lemma_first_match_wins(
    rules: Seq<RuleView>,
    u: UrlView,
    default: Seq<char>,
    i: int,
    j: int,
)
    requires
        0 <= i < j < rules.len(),
        rule_matches(rules[i], u),
        rule_matches(rules[j], u),
        forall|k: int| 0 <= k < i ==> !rule_matches(#[trigger] rules[k], u),
    ensures
        resolve(rules, u, default) == rules[i].profile,
    decreases i,
{
    if i > 0 {
        let rest = rules.drop_first();
        assert(!rule_matches(rules[0], u));
        assert forall|k: int| 0 <= k < i - 1 implies !rule_matches(#[trigger] rest[k], u) by {
            assert(rest[k] == rules[k + 1]);
        }
        assert(rest[i - 1] == rules[i]);
        assert(rest[j - 1] == rules[j]);
        lemma_first_match_wins(rest, u, default, i - 1, j - 1);
    }
}

/// A rule without any pattern matches every URL.
pub proof fn lemma_empty_rule_matches_all(r: RuleView, u: UrlView)
    requires
        r.regex is None,
        r.domain is None,
        r.path is None,
    ensures
        rule_matches(r, u),
{
}

/// When no rule matches, the default profile is chosen.
pub proof fn lemma_default_fallback(rules: Seq<RuleView>, u: UrlView, default: Seq<char>)
    requires
        forall|k: int| 0 <= k < rules.len() ==> !rule_matches(#[trigger] rules[k], u),
    ensures
        resolve(rules, u, default) == default,
    decreases rules.len(),
{
    if rules.len() > 0 {
        let rest = rules.drop_first();
        assert(!rule_matches(rules[0], u));
        assert forall|k: int| 0 <= k < rest.len() implies !rule_matches(#[trigger] rest[k], u) by {
            assert(rest[k] == rules[k + 1]);
        }
        lemma_default_fallback(rest, u, default);
    }
}

} // verus!
