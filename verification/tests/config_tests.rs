use sworkstyle::config::{Config, Match, Pattern};

#[test]
fn test_default() {
    let config = Config::default();
    assert_eq!(config.fallback.unwrap(), "Ôãê")
}

#[test]
fn test_from_string() {
    let config = Config::from_user_content(&String::from(
        "
    fallback = 'c'
    [matching]
    a = 'b'
    b = 'c'
    '/(?i)A title/' = 'd'
    ",
    ));

    assert_eq!(config.fallback(), "c");
    assert_eq!(
        config.fetch_icon(&String::from("application"), Some(&String::from("a title"))),
        "d"
    );
}

#[test]
fn first_match_wins_exact_before_generic() {
    let config = Config::from_user_content(&String::from(
        "
    [matching]
    a = 'b'
    '/x/' = 'd'
    ",
    ));
    // Both the exact rule and the generic rule match; the exact one
    // comes first in list order, so it wins.
    assert_eq!(config.fetch_icon(&String::from("a"), Some(&String::from("x"))), "b");
}

#[test]
fn first_match_wins_generic_before_exact() {
    let config = Config::from_user_content(&String::from(
        "
    [matching]
    '/x/' = 'd'
    a = 'b'
    ",
    ));
    // Same two rules in the opposite order: the generic one wins.
    assert_eq!(config.fetch_icon(&String::from("a"), Some(&String::from("x"))), "d");
}

#[test]
fn generic_rule_skipped_without_title() {
    let config = Config::from_user_content(&String::from(
        "
    fallback = 'f'
    [matching]
    '/x/' = 'd'
    ",
    ));
    // A generic rule is only evaluated when a title is present.
    assert_eq!(config.fetch_icon(&String::from("x"), None), "f");
}

#[test]
fn empty_exact_name_is_legitimate() {
    let config = Config::from_user_content(&String::from(
        "
    [matching]
    '' = 'e'
    ",
    ));
    assert_eq!(config.fetch_icon(&String::from(""), None), "e");
}

#[test]
fn fallback_empty_when_unset() {
    let config = Config {
        matchings: vec![],
        fallback: None,
        separator: None,
    };
    assert_eq!(config.fetch_icon(&String::from("nothing"), None), "");
    assert_eq!(config.fallback(), "");
}

#[test]
fn merge_appends_default_rules_after_user_rules() {
    let config = Config::from_user_content(&String::from(
        "
    [matching]
    firefox = 'Z'
    ",
    ));
    let default = Config::default();
    // User rules come first, the whole default rule list follows.
    assert_eq!(config.matchings.len(), 1 + default.matchings.len());
    assert_eq!(
        config.matchings[0],
        Match::Exact { pattern: "firefox".to_string(), value: "Z".to_string() }
    );
    assert_eq!(&config.matchings[1..], &default.matchings[..]);
    // So the user rule shadows the default rule for the same key.
    assert_eq!(config.fetch_icon(&String::from("firefox"), None), "Z");
    // And a missing user fallback is filled from the default.
    assert_eq!(config.fallback.unwrap(), "Ôãê");
}

#[test]
fn merge_keeps_user_fallback_and_separator() {
    let config = Config::from_user_content(&String::from(
        "
    fallback = 'u'
    separator = ' | '
    [matching]
    a = 'b'
    ",
    ));
    assert_eq!(config.fallback.as_deref(), Some("u"));
    assert_eq!(config.separator.as_deref(), Some(" | "));
}

#[test]
fn reload_same_content_behaves_identically() {
    let content = String::from(
        "
    fallback = 'c'
    [matching]
    a = 'b'
    '/(?i)web/' = 'w'
    ",
    );
    let first = Config::from_user_content(&content);
    let second = Config::from_user_content(&content);
    assert_eq!(first.matchings, second.matchings);
    assert_eq!(first.fallback, second.fallback);
    assert_eq!(first.separator, second.separator);
    for (exact, title) in [
        ("a", Some("irrelevant")),
        ("x", Some("My Web Browser")),
        ("x", None),
        ("", None),
    ] {
        let title_first = title.map(String::from);
        let title_second = title.map(String::from);
        assert_eq!(
            first.fetch_icon(&String::from(exact), title_first.as_ref()),
            second.fetch_icon(&String::from(exact), title_second.as_ref())
        );
    }
}

#[test]
fn literal_generic_matches_case_insensitively() {
    let config = Config::from_user_content(&String::from(
        "
    [matching]
    test = { type = 'generic', value = 'c' }
    ",
    ));
    assert_eq!(
        config.matchings[0],
        Match::Generic {
            pattern: Pattern::String("test".to_string()),
            value: "c".to_string()
        }
    );
    assert_eq!(
        config.fetch_icon(&String::from("app"), Some(&String::from("running the TEST suite"))),
        "c"
    );
}
