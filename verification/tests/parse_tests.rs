use regex::Regex;
use sworkstyle::config::config_error::ConfigErrorKind;
use sworkstyle::config::parse_content_to_config::parse_content_to_config;
use sworkstyle::config::{Config, Match, Pattern};

#[test]
fn test_parse_content_to_config() {
    let no_match_table = parse_content_to_config(&String::from("fallback = 'c'"));

    assert_eq!(
        no_match_table.unwrap_err().to_text(),
        "Matching table not found"
    );

    let content = "
    [matching]
    a = b
    ";
    let invalid_match = parse_content_to_config(&content.to_string());
    let e = invalid_match.unwrap_err();
    assert!(
        e.to_text().starts_with("TOML parse error"),
        "error message not as expected: {e:?}"
    );

    let content = "
    [matching]

    'fdsa' = 'a'
    '/asdf/' = 'b'
    test = { type = 'generic', value = 'c' }
    qwer = { type = 'exact', value = 'd' }
    ";
    let icon_map = parse_content_to_config(&content.to_string()).unwrap();

    assert_eq!(
        icon_map.matchings[0],
        Match::Exact {
            value: "a".to_string(),
            pattern: "fdsa".to_string()
        }
    );
    assert_eq!(
        icon_map.matchings[1],
        Match::Generic {
            value: "b".to_string(),
            pattern: Pattern::Regex(Regex::new("asdf").unwrap())
        }
    );
    assert_eq!(
        icon_map.matchings[2],
        Match::Generic {
            value: "c".to_string(),
            pattern: Pattern::String("test".to_string())
        }
    );
    assert_eq!(
        icon_map.matchings[3],
        Match::Exact {
            value: "d".to_string(),
            pattern: "qwer".to_string()
        }
    );
}

#[test]
fn rule_order_follows_entry_order() {
    let content = "
    [matching]
    b = '1'
    a = '2'
    c = '3'
    ";
    let config = parse_content_to_config(&content.to_string()).unwrap();
    assert_eq!(
        config.matchings,
        vec![
            Match::Exact { pattern: "b".to_string(), value: "1".to_string() },
            Match::Exact { pattern: "a".to_string(), value: "2".to_string() },
            Match::Exact { pattern: "c".to_string(), value: "3".to_string() },
        ]
    );
}

#[test]
fn parse_reads_fallback_and_separator() {
    let content = "
    fallback = 'f'
    separator = '-'
    [matching]
    a = 'b'
    ";
    let config = parse_content_to_config(&content.to_string()).unwrap();
    assert_eq!(config.fallback.as_deref(), Some("f"));
    assert_eq!(config.separator.as_deref(), Some("-"));
}

#[test]
fn parse_rejects_non_string_fallback() {
    let e = parse_content_to_config(&String::from("fallback = 3\n[matching]\na = 'b'\n"))
        .unwrap_err();
    assert_eq!(e.to_text(), "Fallback is not a string");
    assert!(matches!(e.kind(), ConfigErrorKind::GenericParseError));
}

#[test]
fn parse_rejects_non_string_separator() {
    let e = parse_content_to_config(&String::from("separator = 3\n[matching]\na = 'b'\n"))
        .unwrap_err();
    assert_eq!(e.to_text(), "Separator is not a string");
}

#[test]
fn parse_rejects_rule_without_type_or_value() {
    let e = parse_content_to_config(&String::from("[matching]\nk = { value = 'x' }\n"))
        .unwrap_err();
    assert_eq!(e.to_text(), "Could not parse: k");

    let e = parse_content_to_config(&String::from("[matching]\nk = { type = 'exact' }\n"))
        .unwrap_err();
    assert_eq!(e.to_text(), "Could not parse: k");
}

#[test]
fn parse_rejects_non_string_type_or_value() {
    let e = parse_content_to_config(&String::from("[matching]\nk = { type = 3, value = 'x' }\n"))
        .unwrap_err();
    assert_eq!(e.to_text(), "Value of k is not a string");

    let e = parse_content_to_config(&String::from(
        "[matching]\nk = { type = 'exact', value = 3 }\n",
    ))
    .unwrap_err();
    assert_eq!(e.to_text(), "Value of k is not a string");
}

#[test]
fn parse_rejects_unknown_rule_type() {
    let e = parse_content_to_config(&String::from(
        "[matching]\nk = { type = 'fuzzy', value = 'x' }\n",
    ))
    .unwrap_err();
    assert!(
        e.to_text().starts_with("Invalid match type: "),
        "error message not as expected: {e:?}"
    );
}

#[test]
fn parse_rejects_scalar_rule_value() {
    let e = parse_content_to_config(&String::from("[matching]\nk = 3\n")).unwrap_err();
    assert_eq!(e.to_text(), "3 could not be parsed as a table");
}

#[test]
fn parse_rejects_invalid_regex_key() {
    let e = parse_content_to_config(&String::from("[matching]\n'/[/' = 'x'\n")).unwrap_err();
    assert_eq!(e.to_text(), "Invalid pattern given: /[/");
    // The loader then degrades to the pure default rule set.
    let config = Config::from_user_content(&String::from("[matching]\n'/[/' = 'x'\n"));
    let default = Config::default();
    assert_eq!(config.matchings, default.matchings);
}

#[test]
fn structural_error_discards_user_content_wholesale() {
    // The user fallback parses, but the missing matching table is a
    // structural error: the user content is discarded and the
    // returned rule set is the pure default, its fallback included.
    let config = Config::from_user_content(&String::from("fallback = 'c'"));
    let default = Config::default();
    assert_eq!(config.fallback, default.fallback);
    assert_ne!(config.fallback.as_deref(), Some("c"));
    assert_eq!(config.matchings, default.matchings);
    assert_eq!(config.separator, default.separator);
}

#[test]
fn toml_error_makes_resolver_behave_as_default() {
    let config = Config::from_user_content(&String::from(
        "
    [matching]
    a = b
    ",
    ));
    let default = Config::default();
    assert_eq!(config.matchings, default.matchings);
    assert_eq!(
        config.fetch_icon(&String::from("firefox"), None),
        default.fetch_icon(&String::from("firefox"), None)
    );
    assert_eq!(
        config.fetch_icon(&String::from("unknown"), None),
        default.fetch_icon(&String::from("unknown"), None)
    );
}
