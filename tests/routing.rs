use profile_router::address::{tolerant_url, NormalizedUrl, UrlFault};
use profile_router::launch::{launch_arguments, split_arguments, Config, UsageError};
use profile_router::matcher::Matcher;
use profile_router::profile::{resolve_launch_args, ProfileLocation, ProfileRegistry};
use profile_router::rule::{new_regex_opt, resolve_profile, Pattern};

fn url(s: &str) -> NormalizedUrl {
    tolerant_url(&s.to_string()).expect("url parses")
}

fn rule(regex: Option<&str>, domain: Option<&str>, path: Option<&str>, profile: &str) -> Pattern {
    Pattern::new(
        regex.map(|s| s.to_string()),
        domain.map(|s| s.to_string()),
        path.map(|s| s.to_string()),
        profile.to_string(),
    )
    .expect("patterns compile")
}

fn strings(v: &[&str]) -> Vec<String> {
    v.iter().map(|s| s.to_string()).collect()
}

#[test]
fn mail_domain_selects_work_profile_by_path() {
    let mut profiles = ProfileRegistry::new();
    profiles.insert("work".to_string(), ProfileLocation::Path("/home/u/.moz/work".to_string()));
    let config = Config {
        patterns: vec![rule(None, Some("^mail\\."), None, "work")],
        profiles,
        default_profile: "default".to_string(),
    };
    let args = launch_arguments(&config, &vec![], &url("https://mail.example.com/inbox"));
    assert_eq!(args, strings(&["--profile", "/home/u/.moz/work", "https://mail.example.com/inbox"]));
}

#[test]
fn schemeless_url_falls_back_to_named_default() {
    let config = Config {
        patterns: vec![rule(None, Some("^mail\\."), None, "work")],
        profiles: ProfileRegistry::new(),
        default_profile: "default".to_string(),
    };
    let args = launch_arguments(&config, &vec![], &url("example.org"));
    assert_eq!(args, strings(&["-P", "default", "https://example.org/"]));
}

#[test]
fn earlier_rule_wins_over_universal_rule() {
    let patterns = vec![rule(None, None, Some("^/admin"), "secure"), rule(None, None, None, "generic")];
    let profile = resolve_profile(&patterns, &url("https://x.com/admin/panel"), &"default".to_string());
    assert_eq!(profile, "secure");
    let profile = resolve_profile(&patterns, &url("https://x.com/home"), &"default".to_string());
    assert_eq!(profile, "generic");
}

#[test]
fn malformed_pattern_text_is_rejected() {
    let r = Pattern::new(None, Some("(".to_string()), None, "p".to_string());
    let err = r.err().expect("an invalid pattern");
    assert_eq!(err.pattern, "(");
    let r = Pattern::new(Some("[".to_string()), Some("(".to_string()), None, "p".to_string());
    assert_eq!(r.err().expect("an invalid pattern").pattern, "[");
    assert!(new_regex_opt(Some("a(".to_string())).is_err());
    assert!(Matcher::new(&"*".to_string()).is_err());
}

#[test]
fn one_argument_is_a_usage_error() {
    let r = split_arguments(&strings(&["config.json"]));
    assert_eq!(r.err(), Some(UsageError { given: 1 }));
    let r = split_arguments(&vec![]);
    assert_eq!(r.err(), Some(UsageError { given: 0 }));
}

#[test]
fn arguments_split_into_config_passthrough_and_url() {
    let inv = split_arguments(&strings(&["cfg.json", "--new-window", "-x", "example.com"])).ok().unwrap();
    assert_eq!(inv.config_path, "cfg.json");
    assert_eq!(inv.passthrough, strings(&["--new-window", "-x"]));
    assert_eq!(inv.url, "example.com");
    let inv = split_arguments(&strings(&["cfg.json", "example.com"])).ok().unwrap();
    assert!(inv.passthrough.is_empty());
    assert_eq!(inv.url, "example.com");
}

#[test]
fn scheme_injection_gives_same_url() {
    let a = tolerant_url(&"example.com/x".to_string());
    let b = tolerant_url(&"https://example.com/x".to_string());
    assert_eq!(a, b);
    let u = a.unwrap();
    assert_eq!(u.as_str(), "https://example.com/x");
    assert_eq!(u.domain(), Some("example.com"));
    assert_eq!(u.path(), "/x");
}

#[test]
fn url_with_scheme_is_kept() {
    let u = url("http://Example.COM");
    assert_eq!(u.as_str(), "http://example.com/");
    assert_eq!(u.domain(), Some("example.com"));
    assert_eq!(u.path(), "/");
    let u = url("mailto:someone@example.com");
    assert_eq!(u.domain(), None);
    assert_eq!(u.path(), "someone@example.com");
}

#[test]
fn unparsable_url_is_reported() {
    let e = tolerant_url(&"http://[::1".to_string()).err().unwrap();
    assert_eq!(e.input, "http://[::1");
    assert_eq!(e.fault, UrlFault::Malformed(url::ParseError::InvalidIpv6Address));
    let e = tolerant_url(&"".to_string()).err().unwrap();
    assert_eq!(e.input, "");
    assert_eq!(e.fault, UrlFault::Malformed(url::ParseError::EmptyHost));
}

#[test]
fn resolution_is_deterministic() {
    let patterns = vec![rule(Some("example"), None, None, "a"), rule(None, None, None, "b")];
    let u = url("https://example.com/");
    let d = "d".to_string();
    assert_eq!(resolve_profile(&patterns, &u, &d), resolve_profile(&patterns, &u, &d));
    assert_eq!(resolve_profile(&patterns, &u, &d), "a");
}

#[test]
fn universal_rule_matches_every_url() {
    let r = rule(None, None, None, "any");
    for s in ["https://example.com/", "mailto:a@b.c", "http://127.0.0.1:8080/x", "file:///tmp/a"] {
        assert!(r.matches(&url(s)), "{}", s);
    }
}

#[test]
fn no_match_gives_default() {
    let patterns = vec![rule(None, Some("^mail\\."), None, "work"), rule(None, None, Some("^/admin"), "secure")];
    let p = resolve_profile(&patterns, &url("https://www.example.com/home"), &"fallback".to_string());
    assert_eq!(p, "fallback");
    let p = resolve_profile(&vec![], &url("https://www.example.com/home"), &"fallback".to_string());
    assert_eq!(p, "fallback");
}

#[test]
fn domain_pattern_fails_without_domain() {
    let r = rule(None, Some("."), None, "p");
    assert!(!r.matches(&url("http://127.0.0.1/")));
    assert!(!r.matches(&url("mailto:a@example.com")));
    assert!(r.matches(&url("http://example.com/")));
}

#[test]
fn all_present_patterns_must_match() {
    let r = rule(Some("^https:"), Some("example\\.com$"), Some("^/docs"), "p");
    assert!(r.matches(&url("https://example.com/docs/a")));
    assert!(!r.matches(&url("http://example.com/docs/a")));
    assert!(!r.matches(&url("https://example.org/docs/a")));
    assert!(!r.matches(&url("https://example.com/blog")));
}

#[test]
fn profile_resolution_by_path_or_name() {
    let mut reg = ProfileRegistry::new();
    reg.insert("work".to_string(), ProfileLocation::Path("/p/work".to_string()));
    reg.insert("home".to_string(), ProfileLocation::Named);
    assert_eq!(resolve_launch_args(&"work".to_string(), &reg), strings(&["--profile", "/p/work"]));
    assert_eq!(resolve_launch_args(&"home".to_string(), &reg), strings(&["-P", "home"]));
    assert_eq!(resolve_launch_args(&"other".to_string(), &reg), strings(&["-P", "other"]));
}

#[test]
fn registry_insert_replaces() {
    let mut reg = ProfileRegistry::new();
    assert_eq!(reg.get(&"a".to_string()), None);
    reg.insert("a".to_string(), ProfileLocation::Named);
    reg.insert("b".to_string(), ProfileLocation::Path("/b".to_string()));
    reg.insert("a".to_string(), ProfileLocation::Path("/a".to_string()));
    assert_eq!(reg.get(&"a".to_string()), Some(&ProfileLocation::Path("/a".to_string())));
    assert_eq!(reg.get(&"b".to_string()), Some(&ProfileLocation::Path("/b".to_string())));
}

#[test]
fn passthrough_comes_first_and_url_last() {
    let config = Config {
        patterns: vec![rule(None, None, None, "p")],
        profiles: ProfileRegistry::new(),
        default_profile: "d".to_string(),
    };
    let args = launch_arguments(&config, &strings(&["--new-tab", "-x"]), &url("example.com"));
    assert_eq!(args, strings(&["--new-tab", "-x", "-P", "p", "https://example.com/"]));
}

#[test]
fn matcher_keeps_its_text() {
    let m = Matcher::new(&"^a+$".to_string()).ok().unwrap();
    assert_eq!(m.as_str(), "^a+$");
    assert!(m.is_match("aaa"));
    assert!(!m.is_match("aab"));
}
