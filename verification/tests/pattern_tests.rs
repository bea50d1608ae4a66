use sworkstyle::config::Pattern;

#[test]
fn delimited_key_compiles_to_regex_of_inner_text() {
    let p = Pattern::try_from(String::from("/abc/")).unwrap();
    match &p {
        Pattern::Regex(r) => assert_eq!(r.as_str(), "abc"),
        Pattern::String(_) => panic!("expected a regex pattern"),
    }
}

#[test]
fn bare_key_stays_a_literal() {
    let p = Pattern::try_from(String::from("abc")).unwrap();
    match &p {
        Pattern::String(s) => assert_eq!(s, "abc"),
        Pattern::Regex(_) => panic!("expected a literal pattern"),
    }
}

#[test]
fn regex_and_literal_with_same_source_compare_equal() {
    let regex = Pattern::try_from(String::from("/abc/")).unwrap();
    let literal = Pattern::try_from(String::from("abc")).unwrap();
    assert!(regex == literal);
    assert!(literal == regex);
    assert!(regex == regex);
    assert!(literal == literal);
    let other = Pattern::try_from(String::from("abd")).unwrap();
    assert!(regex != other);
    assert!(literal != other);
}

#[test]
fn single_slash_is_a_literal() {
    // One character cannot carry both delimiters.
    let p = Pattern::try_from(String::from("/")).unwrap();
    match &p {
        Pattern::String(s) => assert_eq!(s, "/"),
        Pattern::Regex(_) => panic!("expected a literal pattern"),
    }
}

#[test]
fn empty_delimited_key_compiles_to_empty_regex() {
    let p = Pattern::try_from(String::from("//")).unwrap();
    match &p {
        Pattern::Regex(r) => assert_eq!(r.as_str(), ""),
        Pattern::String(_) => panic!("expected a regex pattern"),
    }
}

#[test]
fn malformed_delimited_key_reports_an_error() {
    assert!(Pattern::try_from(String::from("/[/")).is_err());
}
