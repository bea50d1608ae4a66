use sworkstyle::config::Config;
use sworkstyle::render::{format_workspace_label, i32_text};

fn test_config(content: &str) -> Config {
    Config::from_user_content(&String::from(content))
}

#[test]
fn label_of_empty_workspace_is_its_number() {
    let config = test_config("[matching]\na = 'b'\n");
    assert_eq!(format_workspace_label(&config, vec![], 5, false), "5");
}

#[test]
fn label_joins_wrapped_icons_with_spaces() {
    let config = test_config("[matching]\na = 'A'\nb = 'B'\n");
    let windows = vec![
        (Some(String::from("a")), None),
        (Some(String::from("b")), None),
    ];
    assert_eq!(
        format_workspace_label(&config, windows, 2, false),
        "2: \u{202d}A\u{202c} \u{202d}B\u{202c} "
    );
}

#[test]
fn label_uses_configured_separator() {
    let config = test_config("separator = '|'\n[matching]\na = 'A'\nb = 'B'\n");
    let windows = vec![
        (Some(String::from("a")), None),
        (Some(String::from("b")), None),
    ];
    assert_eq!(
        format_workspace_label(&config, windows, 1, false),
        "1: \u{202d}A\u{202c}|\u{202d}B\u{202c} "
    );
}

#[test]
fn empty_icons_are_dropped() {
    // No fallback: unmatched windows resolve to the empty string and
    // contribute nothing to the label.
    let config = Config { matchings: vec![], fallback: None, separator: None };
    let windows = vec![(Some(String::from("a")), None)];
    assert_eq!(format_workspace_label(&config, windows, 3, false), "3");
}

#[test]
fn deduplicate_collapses_equal_windows_and_icons() {
    let config = test_config("[matching]\na = 'A'\nb = 'A'\n");
    let windows = vec![
        (Some(String::from("b")), None),
        (Some(String::from("a")), None),
        (Some(String::from("a")), None),
    ];
    // Without deduplication every window shows up.
    let windows_copy = windows.clone();
    assert_eq!(
        format_workspace_label(&config, windows_copy, 1, false),
        "1: \u{202d}A\u{202c} \u{202d}A\u{202c} \u{202d}A\u{202c} "
    );
    // With deduplication equal windows collapse first ("a" twice),
    // then equal adjacent icons collapse ("A" from "a" and from "b").
    assert_eq!(
        format_workspace_label(&config, windows, 1, true),
        "1: \u{202d}A\u{202c} "
    );
}

#[test]
fn deduplicate_orders_windows_by_identifier() {
    let config = test_config("[matching]\na = 'A'\nb = 'B'\n");
    let windows = vec![
        (Some(String::from("b")), None),
        (Some(String::from("a")), None),
    ];
    // Collecting through an ordered set sorts by identifier.
    assert_eq!(
        format_workspace_label(&config, windows, 1, true),
        "1: \u{202d}A\u{202c} \u{202d}B\u{202c} "
    );
}

#[test]
fn window_without_identifier_uses_empty_exact_name() {
    let config = test_config("[matching]\n'/movie/' = 'M'\n");
    let windows = vec![(None, Some(String::from("a movie player")))];
    assert_eq!(
        format_workspace_label(&config, windows, 7, false),
        "7: \u{202d}M\u{202c} "
    );
}

#[test]
fn number_rendering_is_decimal() {
    assert_eq!(i32_text(0), "0");
    assert_eq!(i32_text(7), "7");
    assert_eq!(i32_text(42), "42");
    assert_eq!(i32_text(1990), "1990");
    assert_eq!(i32_text(-13), "-13");
    assert_eq!(i32_text(i32::MIN), "-2147483648");
}

#[test]
fn negative_workspace_number_renders_with_sign() {
    let config = test_config("[matching]\na = 'A'\n");
    let windows = vec![(Some(String::from("a")), None)];
    assert_eq!(
        format_workspace_label(&config, windows, -1, false),
        "-1: \u{202d}A\u{202c} "
    );
}
