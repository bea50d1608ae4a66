//! The config loader: structured TOML text to a rule set.
//!
//! The text must hold a top-level `matching` table. Each of its
//! entries is either a shorthand rule (key = value string, the key
//! classified by pattern construction) or an explicit rule table with
//! string fields `type` (`"exact"` or `"generic"`) and `value`. The
//! optional top-level `fallback` and `separator` must be strings.
//! Rule order follows the `matching` table's entry order exactly.

use vstd::prelude::*;

use crate::config::config_error::{ConfigError, ConfigErrorKind, ConfigErrorView};
use crate::config::toml_api::{
    toml_document_of, toml_entries_of, toml_error_text, toml_lookup, toml_map_entries,
    toml_map_get, toml_parse_document, toml_parse_error_of, toml_str_of, toml_table_of,
    toml_text_of, toml_value_as_str, toml_value_as_table, toml_value_text,
};
use crate::config::{
    spec_pattern_accepted, spec_pattern_of, Config, ConfigView, Match, Pattern, PatternView,
    RuleView,
};
use crate::text::str_eq;

verus! {

/// A structural loader error with the given message.
pub open spec fn spec_generic_error(message: Seq<char>) -> ConfigErrorView {
    ConfigErrorView { kind: ConfigErrorKind::GenericParseError, details: None, message }
}

pub open spec fn msg_invalid_pattern(key: Seq<char>) -> Seq<char> {
    "Invalid pattern given: "@ + key
}

pub open spec fn msg_could_not_parse(key: Seq<char>) -> Seq<char> {
    "Could not parse: "@ + key
}

pub open spec fn msg_not_string(key: Seq<char>) -> Seq<char> {
    "Value of "@ + key + " is not a string"@
}

pub open spec fn msg_invalid_match_type(rendered: Seq<char>) -> Seq<char> {
    "Invalid match type: "@ + rendered
}

pub open spec fn msg_not_table(rendered: Seq<char>) -> Seq<char> {
    rendered + " could not be parsed as a table"@
}

/// The rule a single `matching` entry denotes, or the error rejecting
/// it. A string value is a shorthand rule; a table value is an
/// explicit rule with `type` and `value` fields; anything else is
/// rejected.
pub open spec fn spec_rule_of(key: Seq<char>, v: toml::Value) -> Result<
    RuleView,
    ConfigErrorView,
> {
    match toml_str_of(v) {
        Some(value) => if spec_pattern_accepted(key) {
            match spec_pattern_of(key) {
                PatternView::Regex(_) => Ok(
                    RuleView::Generic { pattern: spec_pattern_of(key), value },
                ),
                PatternView::Literal(text) => Ok(RuleView::Exact { key: text, value }),
            }
        } else {
            Err(spec_generic_error(msg_invalid_pattern(key)))
        },
        None => match toml_table_of(v) {
            Some(t) => {
                let entries = toml_entries_of(t);
                match toml_lookup(entries, "type"@) {
                    None => Err(spec_generic_error(msg_could_not_parse(key))),
                    Some(tv) => match toml_str_of(tv) {
                        None => Err(spec_generic_error(msg_not_string(key))),
                        Some(ty) => match toml_lookup(entries, "value"@) {
                            None => Err(spec_generic_error(msg_could_not_parse(key))),
                            Some(vv) => match toml_str_of(vv) {
                                None => Err(spec_generic_error(msg_not_string(key))),
                                Some(value) => if ty == "exact"@ {
                                    Ok(RuleView::Exact { key, value })
                                } else if ty == "generic"@ {
                                    if spec_pattern_accepted(key) {
                                        Ok(
                                            RuleView::Generic {
                                                pattern: spec_pattern_of(key),
                                                value,
                                            },
                                        )
                                    } else {
                                        Err(spec_generic_error(msg_invalid_pattern(key)))
                                    }
                                } else {
                                    Err(
                                        spec_generic_error(
                                            msg_invalid_match_type(toml_text_of(v)),
                                        ),
                                    )
                                },
                            },
                        },
                    },
                }
            },
            None => Err(spec_generic_error(msg_not_table(toml_text_of(v)))),
        },
    }
}

/// The rules a `matching` entry list denotes, in entry order, or the
/// first rejecting error.
pub open spec fn spec_rules_of(entries: Seq<(Seq<char>, toml::Value)>) -> Result<
    Seq<RuleView>,
    ConfigErrorView,
>
    decreases entries.len(),
{
    if entries.len() == 0 {
        Ok(Seq::empty())
    } else {
        match spec_rule_of(entries[0].0, entries[0].1) {
            Err(e) => Err(e),
            Ok(rv) => match spec_rules_of(entries.drop_first()) {
                Err(e) => Err(e),
                Ok(rest) => Ok(seq![rv] + rest),
            },
        }
    }
}

/// An optional top-level string field: absent, present as a string,
/// or present as something else (rejected).
pub open spec fn spec_opt_str_field(
    entries: Seq<(Seq<char>, toml::Value)>,
    key: Seq<char>,
) -> Result<Option<Seq<char>>, ()> {
    match toml_lookup(entries, key) {
        None => Ok(None),
        Some(v) => match toml_str_of(v) {
            Some(s) => Ok(Some(s)),
            None => Err(()),
        },
    }
}

/// What parsing a configuration text yields: the rule set it denotes,
/// or the first error rejecting it, with its exact message.
pub open spec fn spec_parse_config(content: Seq<char>) -> Result<ConfigView, ConfigErrorView> {
    match toml_document_of(content) {
        None => Err(
            ConfigErrorView {
                kind: ConfigErrorKind::TomlParseError,
                details: None,
                message: toml_parse_error_of(content),
            },
        ),
        Some(doc) => match toml_table_of(doc) {
            None => Err(spec_generic_error("No root table found"@)),
            Some(root) => {
                let entries = toml_entries_of(root);
                match toml_lookup(entries, "matching"@) {
                    None => Err(spec_generic_error("Matching table not found"@)),
                    Some(mv) => match toml_table_of(mv) {
                        None => Err(spec_generic_error("Could not parse matching table"@)),
                        Some(mt) => match spec_rules_of(toml_entries_of(mt)) {
                            Err(e) => Err(e),
                            Ok(rules) => match spec_opt_str_field(entries, "fallback"@) {
                                Err(_) => Err(spec_generic_error("Fallback is not a string"@)),
                                Ok(fallback) => match spec_opt_str_field(entries, "separator"@) {
                                    Err(_) => Err(
                                        spec_generic_error("Separator is not a string"@),
                                    ),
                                    Ok(separator) => Ok(
                                        ConfigView { matchings: rules, fallback, separator },
                                    ),
                                },
                            },
                        },
                    },
                }
            },
        },
    }
}

/// Concatenate a message prefix and a detail.
fn msg2(prefix: &str, rest: &str) -> (r: String)
    ensures
        r@ == prefix@ + rest@,
{
    let mut s = prefix.to_owned();
    s.append(rest);
    s
}

/// Concatenate a message prefix, a detail, and a suffix.
fn msg3(prefix: &str, mid: &str, suffix: &str) -> (r: String)
    ensures
        r@ == prefix@ + mid@ + suffix@,
{
    let mut s = prefix.to_owned();
    s.append(mid);
    s.append(suffix);
    s
}

/// Turn one `matching` entry into a rule, exactly as [`spec_rule_of`]
/// says.
fn rule_of_entry(key: &String, v: &toml::Value) -> (r: Result<Match, ConfigError>)
    ensures
        r is Ok <==> spec_rule_of(key@, *v) is Ok,
        r is Ok ==> r->Ok_0@ == spec_rule_of(key@, *v)->Ok_0,
        r is Err ==> r->Err_0@ == spec_rule_of(key@, *v)->Err_0,
{
    if let Some(value) = toml_value_as_str(v) {
        let value = value.to_owned();
        match Pattern::try_from(key.clone()) {
            Ok(pattern) => match pattern {
                Pattern::Regex(_) => Ok(Match::Generic { pattern, value }),
                Pattern::String(text) => Ok(Match::Exact { pattern: text, value }),
            },
            Err(_) => Err(
                ConfigError::new(
                    ConfigErrorKind::GenericParseError,
                    msg2("Invalid pattern given: ", key.as_str()),
                ),
            ),
        }
    } else if let Some(table) = toml_value_as_table(v) {
        let tv = match toml_map_get(table, "type") {
            Some(tv) => tv,
            None => {
                return Err(
                    ConfigError::new(
                        ConfigErrorKind::GenericParseError,
                        msg2("Could not parse: ", key.as_str()),
                    ),
                );
            },
        };
        let ty = match toml_value_as_str(tv) {
            Some(ty) => ty,
            None => {
                return Err(
                    ConfigError::new(
                        ConfigErrorKind::GenericParseError,
                        msg3("Value of ", key.as_str(), " is not a string"),
                    ),
                );
            },
        };
        let vv = match toml_map_get(table, "value") {
            Some(vv) => vv,
            None => {
                return Err(
                    ConfigError::new(
                        ConfigErrorKind::GenericParseError,
                        msg2("Could not parse: ", key.as_str()),
                    ),
                );
            },
        };
        let value = match toml_value_as_str(vv) {
            Some(val) => val.to_owned(),
            None => {
                return Err(
                    ConfigError::new(
                        ConfigErrorKind::GenericParseError,
                        msg3("Value of ", key.as_str(), " is not a string"),
                    ),
                );
            },
        };
        if str_eq(ty, "exact") {
            Ok(Match::Exact { pattern: key.clone(), value })
        } else if str_eq(ty, "generic") {
            match Pattern::try_from(key.clone()) {
                Ok(pattern) => Ok(Match::Generic { pattern, value }),
                Err(_) => Err(
                    ConfigError::new(
                        ConfigErrorKind::GenericParseError,
                        msg2("Invalid pattern given: ", key.as_str()),
                    ),
                ),
            }
        } else {
            let rendered = toml_value_text(v);
            Err(
                ConfigError::new(
                    ConfigErrorKind::GenericParseError,
                    msg2("Invalid match type: ", rendered.as_str()),
                ),
            )
        }
    } else {
        let rendered = toml_value_text(v);
        Err(
            ConfigError::new(
                ConfigErrorKind::GenericParseError,
                msg2(rendered.as_str(), " could not be parsed as a table"),
            ),
        )
    }
}

/// Append a prefix of already-converted rules in front of a remainder
/// result.
pub open spec fn rules_combine(
    prefix: Seq<RuleView>,
    rest: Result<Seq<RuleView>, ConfigErrorView>,
) -> Result<Seq<RuleView>, ConfigErrorView> {
    match rest {
        Ok(r) => Ok(prefix + r),
        Err(e) => Err(e),
    }
}

proof fn lemma_combine_empty(x: Result<Seq<RuleView>, ConfigErrorView>)
    ensures
        rules_combine(Seq::empty(), x) == x,
{
    match x {
        Ok(r) => {
            assert(Seq::empty() + r =~= r);
        },
        Err(_) => {},
    }
}

proof fn lemma_combine_step(
    before: Seq<RuleView>,
    rv: RuleView,
    x: Result<Seq<RuleView>, ConfigErrorView>,
)
    ensures
        rules_combine(before, (match x {
            Ok(rest) => Ok(seq![rv] + rest),
            Err(e) => Err(e),
        })) == rules_combine(before + seq![rv], x),
{
    match x {
        Ok(rest) => {
            assert(before + (seq![rv] + rest) =~= (before + seq![rv]) + rest);
        },
        Err(_) => {},
    }
}

/// Parse a configuration text into a rule set, exactly as
/// [`spec_parse_config`] says: the `matching` table is required, each
/// of its entries denotes one rule in entry order, and `fallback` and
/// `separator` must be strings when present.
#[verifier::loop_isolation(false)]
pub fn parse_content_to_config(content: &String) -> (r: Result<Config, ConfigError>)
    ensures
        r is Ok <==> spec_parse_config(content@) is Ok,
        r is Ok ==> r->Ok_0@ == spec_parse_config(content@)->Ok_0,
        r is Err ==> r->Err_0@ == spec_parse_config(content@)->Err_0,
{
    let doc = match toml_parse_document(content.as_str()) {
        Ok(doc) => doc,
        Err(e) => {
            return Err(ConfigError::new(ConfigErrorKind::TomlParseError, toml_error_text(&e)));
        },
    };
    let root = match toml_value_as_table(&doc) {
        Some(root) => root,
        None => {
            return Err(
                ConfigError::new(
                    ConfigErrorKind::GenericParseError,
                    String::from_str("No root table found"),
                ),
            );
        },
    };
    let matching_val = match toml_map_get(root, "matching") {
        Some(v) => v,
        None => {
            return Err(
                ConfigError::new(
                    ConfigErrorKind::GenericParseError,
                    String::from_str("Matching table not found"),
                ),
            );
        },
    };
    let matching_table = match toml_value_as_table(matching_val) {
        Some(t) => t,
        None => {
            return Err(
                ConfigError::new(
                    ConfigErrorKind::GenericParseError,
                    String::from_str("Could not parse matching table"),
                ),
            );
        },
    };
    let ghost gentries = toml_entries_of(*matching_table);
    let entries = toml_map_entries(matching_table);
    let mut matchings: Vec<Match> = Vec::new();
    let n = entries.len();
    proof {
        assert(gentries.skip(0) =~= gentries);
        lemma_combine_empty(spec_rules_of(gentries));
    }
    for idx in 0..n
        invariant
            n == entries.len(),
            gentries.len() == n,
            forall|i: int|
                0 <= i < n ==> (#[trigger] entries@[i]).0@ == gentries[i].0 && entries@[i].1
                    == gentries[i].1,
            spec_rules_of(gentries) == rules_combine(
                matchings@.map_values(|m: Match| m@),
                spec_rules_of(gentries.skip(idx as int)),
            ),
    {
        proof {
            assert(gentries.skip(idx as int)[0] == gentries[idx as int]);
            assert(gentries.skip(idx as int).drop_first() =~= gentries.skip(idx as int + 1));
        }
        let ghost before = matchings@.map_values(|m: Match| m@);
        let (key, v) = &entries[idx];
        match rule_of_entry(key, v) {
            Ok(m) => {
                let ghost rv = m@;
                matchings.push(m);
                proof {
                    assert(matchings@.map_values(|m: Match| m@) =~= before + seq![rv]);
                    lemma_combine_step(
                        before,
                        rv,
                        spec_rules_of(gentries.skip(idx as int + 1)),
                    );
                }
            },
            Err(e) => {
                return Err(e);
            },
        }
    }
    proof {
        assert(gentries.skip(n as int) =~= Seq::<(Seq<char>, toml::Value)>::empty());
        assert(matchings@.map_values(|m: Match| m@) + Seq::<RuleView>::empty() =~= matchings@
            .map_values(|m: Match| m@));
    }
    let fallback = match toml_map_get(root, "fallback") {
        Some(v) => match toml_value_as_str(v) {
            Some(s) => Some(s.to_owned()),
            None => {
                return Err(
                    ConfigError::new(
                        ConfigErrorKind::GenericParseError,
                        String::from_str("Fallback is not a string"),
                    ),
                );
            },
        },
        None => None,
    };
    let separator = match toml_map_get(root, "separator") {
        Some(v) => match toml_value_as_str(v) {
            Some(s) => Some(s.to_owned()),
            None => {
                return Err(
                    ConfigError::new(
                        ConfigErrorKind::GenericParseError,
                        String::from_str("Separator is not a string"),
                    ),
                );
            },
        },
        None => None,
    };
    Ok(Config { matchings, fallback, separator })
}

} // verus!
