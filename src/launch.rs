//! Command-line arguments in, browser arguments out.

use vstd::prelude::*;
use crate::address::{NormalizedUrl, UrlView};
use crate::profile::{ProfileRegistry, profile_args, resolve_launch_args, strings_view};
use crate::rule::{Pattern, resolve, resolve_profile, rules_view};

verus! {

/// The rules, the profile registry and the profile used when no rule matches.
pub struct Config {
    pub patterns: Vec<Pattern>,
    pub profiles: ProfileRegistry,
    pub default_profile: String,
}

impl Config {
    pub open spec fn wf(&self) -> bool {
        self.profiles.wf()
    }
}

/// The command line split up: the configuration file, the arguments handed to
/// the browser as they are, and the URL to open.
pub struct Invocation {
    pub config_path: String,
    pub passthrough: Vec<String>,
    pub url: String,
}

/// Fewer than two arguments were given.
#[derive(Debug, PartialEq, Eq)]
pub struct UsageError {
    pub given: usize,
}

/// Splits the arguments (without the program name): the first names the
/// configuration file, the last is the URL, those between are handed on.
pub fn split_arguments(args: &Vec<String>) -> (r: Result<Invocation, UsageError>)
    ensures
        r is Err <==> args.len() < 2,
        r is Err ==> r->Err_0.given == args.len(),
        r is Ok ==> r->Ok_0.config_path@ == args@[0]@,
        r is Ok ==> r->Ok_0.url@ == args@.last()@,
        r is Ok ==> strings_view(r->Ok_0.passthrough@) == strings_view(
            args@.subrange(1, args.len() - 1),
        ),
{
    let n = args.len();
    if n < 2 {
        return Err(UsageError { given: n });
    }
    let mut passthrough: Vec<String> = Vec::new();
    let mut i: usize = 1;
    while i < n - 1
        invariant
            n == args.len(),
            n >= 2,
            1 <= i <= n - 1,
            strings_view(passthrough@) == strings_view(args@.subrange(1, i as int)),
        decreases n - 1 - i,
    {
        passthrough.push(args[i].clone());
        assert(strings_view(args@.subrange(1, i + 1)) =~= strings_view(args@.subrange(1, i as int))
            .push(args@[i as int]@));
        assert(strings_view(passthrough@) =~= strings_view(args@.subrange(1, i as int)).push(
            args@[i as int]@,
        ));
        i = i + 1;
    }
    Ok(Invocation { config_path: args[0].clone(), passthrough, url: args[n - 1].clone() })
}

/// The browser arguments for `url`: the handed-on arguments, then those that
/// select the resolved profile, then the URL.
pub open spec fn launch_args(
    rules: Seq<crate::rule::RuleView>,
    registry: Map<Seq<char>, Option<Seq<char>>>,
    default: Seq<char>,
    passthrough: Seq<Seq<char>>,
    u: UrlView,
) -> Seq<Seq<char>> {
    passthrough + profile_args(resolve(rules, u, default), registry) + seq![u.text]
}

/// The full argument list for the browser.
pub fn launch_arguments(config: &Config, passthrough: &Vec<String>, url: &NormalizedUrl) -> (r: Vec<
    String,
>)
    requires
        config.wf(),
    ensures
        strings_view(r@) == launch_args(
            rules_view(config.patterns@),
            config.profiles@,
            config.default_profile@,
            strings_view(passthrough@),
            url@,
        ),
{
    let profile = resolve_profile(&config.patterns, url, &config.default_profile);
    let selection = resolve_launch_args(&profile, &config.profiles);
    let mut r: Vec<String> = Vec::new();
    let mut i: usize = 0;
    while i < passthrough.len()
        invariant
            i <= passthrough.len(),
            strings_view(r@) == strings_view(passthrough@.subrange(0, i as int)),
        decreases passthrough.len() - i,
    {
        r.push(passthrough[i].clone());
        assert(strings_view(passthrough@.subrange(0, i + 1)) =~= strings_view(
            passthrough@.subrange(0, i as int),
        ).push(passthrough@[i as int]@));
        assert(strings_view(r@) =~= strings_view(passthrough@.subrange(0, i as int)).push(
            passthrough@[i as int]@,
        ));
        i = i + 1;
    }
    assert(passthrough@.subrange(0, passthrough.len() as int) =~= passthrough@);
    let ghost before = strings_view(r@);
    let mut j: usize = 0;
    while j < selection.len()
        invariant
            j <= selection.len(),
            strings_view(r@) == before + strings_view(selection@.subrange(0, j as int)),
        decreases selection.len() - j,
    {
        let ghost prev = strings_view(r@);
        r.push(selection[j].clone());
        assert(strings_view(r@) =~= prev.push(selection@[j as int]@));
        assert(strings_view(selection@.subrange(0, j + 1)) =~= strings_view(
            selection@.subrange(0, j as int),
        ).push(selection@[j as int]@));
        assert(strings_view(r@) =~= before + strings_view(selection@.subrange(0, j + 1)));
        j = j + 1;
    }
    assert(selection@.subrange(0, selection.len() as int) =~= selection@);
    let ghost middle = strings_view(r@);
    r.push(url.as_str().to_owned());
    assert(strings_view(r@) =~= middle + seq![url@.text]);
    r
}

} // verus!
