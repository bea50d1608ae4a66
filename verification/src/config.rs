//! The rule representation and the icon resolver.
//!
//! A [`Pattern`] is a single match predicate, a [`Match`] an exact or
//! generic rule, and a [`Config`] an ordered rule set with an optional
//! fallback glyph and separator. Rules are tried in order and the
//! first one whose predicate holds wins.

use vstd::prelude::*;

use crate::config::regex_api::{
    regex_accepts, regex_as_str, regex_is_match, regex_match_of, regex_new, regex_source_of,
};
use crate::text::{contains_sub, lower_of, str_contains, str_eq, to_lower};

pub mod config_error;
pub mod parse_content_to_config;
pub mod regex_api;
pub mod toml_api;

verus! {

/// A single match predicate: a compiled regular expression or a
/// literal substring (matched case-insensitively at match time).
#[derive(Debug)]
pub enum Pattern {
    Regex(regex::Regex),
    String(String),
}

/// The mathematical content of a [`Pattern`]: which kind it is, and
/// its source text.
pub enum PatternView {
    Regex(Seq<char>),
    Literal(Seq<char>),
}

impl PatternView {
    /// The canonical string form: a regex and a literal with the same
    /// source text are the same pattern for comparison purposes.
    pub open spec fn canonical(self) -> Seq<char> {
        match self {
            PatternView::Regex(s) => s,
            PatternView::Literal(s) => s,
        }
    }
}

impl View for Pattern {
    type V = PatternView;

    open spec fn view(&self) -> PatternView {
        match self {
            Pattern::Regex(r) => PatternView::Regex(regex_source_of(*r)),
            Pattern::String(s) => PatternView::Literal(s@),
        }
    }
}

/// A raw key is delimited when it is at least two characters long and
/// starts and ends with a slash.
pub open spec fn spec_is_delimited(text: Seq<char>) -> bool {
    text.len() >= 2 && text[0] == '/' && text[text.len() - 1] == '/'
}

/// The text between the delimiting slashes.
pub open spec fn spec_strip_delimiters(text: Seq<char>) -> Seq<char> {
    text.subrange(1, text.len() - 1)
}

/// The pattern a raw key denotes: the stripped text as a regex when
/// delimited, the key itself as a literal otherwise.
pub open spec fn spec_pattern_of(text: Seq<char>) -> PatternView {
    if spec_is_delimited(text) {
        PatternView::Regex(spec_strip_delimiters(text))
    } else {
        PatternView::Literal(text)
    }
}

/// Whether pattern construction succeeds on a raw key: a delimited key
/// must compile as a regular expression, everything else is accepted.
pub open spec fn spec_pattern_accepted(text: Seq<char>) -> bool {
    spec_is_delimited(text) ==> regex_accepts(spec_strip_delimiters(text))
}

impl Pattern {
    /// Build a pattern from a raw key. A `/…/`-delimited key is
    /// compiled as a regular expression after stripping the slashes;
    /// on compile failure the error is reported, never hidden.
    /// Any other key becomes a literal, unchanged.
    pub fn try_from(value: String) -> (r: Result<Pattern, regex::Error>)
        ensures
            r is Ok <==> spec_pattern_accepted(value@),
            r is Ok ==> r->Ok_0@ == spec_pattern_of(value@),
    {
        let s = value.as_str();
        let len = s.unicode_len();
        if len >= 2 && s.get_char(0) == '/' && s.get_char(len - 1) == '/' {
            let inner = s.substring_char(1, len - 1);
            match regex_new(inner) {
                Ok(re) => Ok(Pattern::Regex(re)),
                Err(e) => Err(e),
            }
        } else {
            Ok(Pattern::String(value))
        }
    }
}

impl PartialEq for Pattern {
    /// Patterns compare by canonical string form, so a regex and a
    /// literal with the same source text are equal.
    fn eq(&self, other: &Pattern) -> (r: bool) {
        match (self, other) {
            (Pattern::String(l0), Pattern::Regex(r0)) => str_eq(l0.as_str(), regex_as_str(r0)),
            (Pattern::Regex(l0), Pattern::String(r0)) => str_eq(regex_as_str(l0), r0.as_str()),
            (Pattern::Regex(l0), Pattern::Regex(r0)) => str_eq(regex_as_str(l0), regex_as_str(r0)),
            (Pattern::String(l0), Pattern::String(r0)) => str_eq(l0.as_str(), r0.as_str()),
        }
    }
}

impl vstd::std_specs::cmp::PartialEqSpecImpl for Pattern {
    open spec fn obeys_eq_spec() -> bool {
        true
    }

    open spec fn eq_spec(&self, other: &Pattern) -> bool {
        self@.canonical() == other@.canonical()
    }
}

/// A single rule: a generic rule tests its pattern against a window's
/// display title, an exact rule tests its key against the window's
/// exact identifier.
#[derive(Debug, PartialEq)]
#[allow(inconsistent_fields)]
pub enum Match {
    Generic { pattern: Pattern, value: String },
    Exact { pattern: String, value: String },
}

/// The mathematical content of a [`Match`].
pub enum RuleView {
    Generic { pattern: PatternView, value: Seq<char> },
    Exact { key: Seq<char>, value: Seq<char> },
}

impl View for Match {
    type V = RuleView;

    open spec fn view(&self) -> RuleView {
        match self {
            Match::Generic { pattern, value } => RuleView::Generic {
                pattern: pattern@,
                value: value@,
            },
            Match::Exact { pattern, value } => RuleView::Exact { key: pattern@, value: value@ },
        }
    }
}

/// An ordered rule set: rules are tried first to last, plus an
/// optional fallback glyph and an optional separator string.
#[derive(Debug)]
pub struct Config {
    pub matchings: Vec<Match>,
    pub fallback: Option<String>,
    pub separator: Option<String>,
}

/// The mathematical content of a [`Config`].
#[verifier::ext_equal]
pub struct ConfigView {
    pub matchings: Seq<RuleView>,
    pub fallback: Option<Seq<char>>,
    pub separator: Option<Seq<char>>,
}

impl View for Config {
    type V = ConfigView;

    open spec fn view(&self) -> ConfigView {
        ConfigView {
            matchings: self.matchings@.map_values(|m: Match| m@),
            fallback: match self.fallback {
                Some(f) => Some(f@),
                None => None,
            },
            separator: match self.separator {
                Some(s) => Some(s@),
                None => None,
            },
        }
    }
}

/// Whether a pattern matches a display title: a regex by regex match
/// against the raw title, a literal by case-insensitive substring
/// containment.
pub open spec fn spec_pattern_matches_title(p: PatternView, title: Seq<char>) -> bool {
    match p {
        PatternView::Regex(src) => regex_match_of(src, title),
        PatternView::Literal(l) => contains_sub(lower_of(title), lower_of(l)),
    }
}

/// Whether a rule matches a window. A generic rule is only evaluated
/// when a title is present; an exact rule compares the key against the
/// exact identifier unconditionally.
pub open spec fn spec_rule_matches(
    m: RuleView,
    exact: Seq<char>,
    title: Option<Seq<char>>,
) -> bool {
    match m {
        RuleView::Generic { pattern, .. } => title is Some && spec_pattern_matches_title(
            pattern,
            title->0,
        ),
        RuleView::Exact { key, .. } => exact == key,
    }
}

/// The value a rule yields when it matches.
pub open spec fn spec_rule_value(m: RuleView) -> Seq<char> {
    match m {
        RuleView::Generic { value, .. } => value,
        RuleView::Exact { value, .. } => value,
    }
}

/// The value of the first rule in list order that matches, if any.
pub open spec fn spec_first_match(
    rules: Seq<RuleView>,
    exact: Seq<char>,
    title: Option<Seq<char>>,
) -> Option<Seq<char>>
    decreases rules.len(),
{
    if rules.len() == 0 {
        None
    } else if spec_rule_matches(rules[0], exact, title) {
        Some(spec_rule_value(rules[0]))
    } else {
        spec_first_match(rules.drop_first(), exact, title)
    }
}

/// The fallback a rule set yields when no rule matches: the configured
/// glyph if one is set, the empty string otherwise.
pub open spec fn spec_effective_fallback(c: ConfigView) -> Seq<char> {
    match c.fallback {
        Some(f) => f,
        None => Seq::empty(),
    }
}

/// What the resolver returns for a window: first match wins, the
/// effective fallback otherwise.
pub open spec fn spec_fetch_icon(
    c: ConfigView,
    exact: Seq<char>,
    title: Option<Seq<char>>,
) -> Seq<char> {
    match spec_first_match(c.matchings, exact, title) {
        Some(v) => v,
        None => spec_effective_fallback(c),
    }
}

/// The view of an optional borrowed string argument.
pub open spec fn spec_opt_view(s: Option<&String>) -> Option<Seq<char>> {
    match s {
        Some(t) => Some(t@),
        None => None,
    }
}

impl Config {
    /// Resolve the icon for one window: the value of the first rule in
    /// list order whose predicate holds, regardless of category; the
    /// effective fallback when none does. An empty exact identifier is
    /// a legitimate input, matched by exact rules keyed on the empty
    /// string.
    pub fn fetch_icon(&self, exact_name: &String, generic_name: Option<&String>) -> (r: String)
        ensures
            r@ == spec_fetch_icon(self@, exact_name@, spec_opt_view(generic_name)),
    {
        let ghost rules = self@.matchings;
        let ghost exact = exact_name@;
        let ghost title = spec_opt_view(generic_name);
        let n = self.matchings.len();
        proof {
            assert(rules.skip(0) =~= rules);
        }
        for i in 0..n
            invariant
                n == self.matchings.len(),
                n == rules.len(),
                rules == self@.matchings,
                exact == exact_name@,
                title == spec_opt_view(generic_name),
                spec_first_match(rules, exact, title) == spec_first_match(
                    rules.skip(i as int),
                    exact,
                    title,
                ),
        {
            proof {
                assert(rules.skip(i as int)[0] == rules[i as int]);
                assert(rules.skip(i as int).drop_first() =~= rules.skip(i as int + 1));
            }
            let m = &self.matchings[i];
            proof {
                assert(m@ == rules[i as int]);
            }
            match m {
                Match::Generic { pattern, value } => {
                    if let Some(generic_name) = generic_name {
                        match pattern {
                            Pattern::Regex(r) => {
                                if regex_is_match(r, generic_name.as_str()) {
                                    return value.clone();
                                }
                            },
                            Pattern::String(p) => {
                                let hay = to_lower(generic_name.as_str());
                                let needle = to_lower(p.as_str());
                                if str_contains(hay.as_str(), needle.as_str()) {
                                    return value.clone();
                                }
                            },
                        }
                    }
                },
                Match::Exact { pattern, value } => {
                    if str_eq(exact_name.as_str(), pattern.as_str()) {
                        return value.clone();
                    }
                },
            }
        }
        self.fallback()
    }

    /// The effective fallback: the configured glyph if one is set, the
    /// empty string otherwise.
    pub fn fallback(&self) -> (r: String)
        ensures
            r@ == spec_effective_fallback(self@),
    {
        match &self.fallback {
            Some(fallback) => fallback.clone(),
            None => String::new(),
        }
    }

    /// The rule set to use given the outcome of reading the config
    /// file: the merged rule set for the content read, the built-in
    /// default rule set where there was no file or the read failed.
    pub fn new(content: Option<&String>) -> (c: Config)
        ensures
            c@ == spec_from_read_result(spec_opt_view(content)),
    {
        match content {
            Some(content) => Config::from_user_content(content),
            None => Config::default(),
        }
    }

    /// Parse user content and enrich it with the built-in default
    /// rule set: user rules come first, a missing user fallback is
    /// filled from the default. On any parse error the user content
    /// is discarded wholesale and the default rule set is returned.
    pub fn from_user_content(content: &String) -> (c: Config)
        ensures
            c@ == spec_from_user_content(content@),
    {
        match crate::config::parse_content_to_config::parse_content_to_config(content) {
            Ok(user) => {
                let ghost user_view = user@;
                let c = Config::merge(user, Config::default());
                proof {
                    assert(c@ =~= spec_merged(user_view, spec_default_config()));
                }
                c
            },
            Err(_) => Config::default(),
        }
    }

    /// Merge a user rule set over a default one: every user rule comes
    /// before every default rule, a missing user fallback is filled
    /// from the default, and the separator is the user's alone.
    pub fn merge(mut user: Config, mut default: Config) -> (r: Config)
        ensures
            r@.matchings == user@.matchings + default@.matchings,
            r@.fallback == (if user@.fallback is Some {
                user@.fallback
            } else {
                default@.fallback
            }),
            r@.separator == user@.separator,
    {
        user.matchings.append(&mut default.matchings);
        let fallback = match user.fallback {
            Some(f) => Some(f),
            None => default.fallback,
        };
        let r = Config { matchings: user.matchings, fallback, separator: user.separator };
        proof {
            assert(r@.matchings =~= user@.matchings + default@.matchings);
        }
        r
    }
}

/// The merged rule set: user rules before default rules, the user
/// fallback where present and the default one otherwise, the user
/// separator alone.
pub open spec fn spec_merged(user: ConfigView, default: ConfigView) -> ConfigView {
    ConfigView {
        matchings: user.matchings + default.matchings,
        fallback: if user.fallback is Some {
            user.fallback
        } else {
            default.fallback
        },
        separator: user.separator,
    }
}

/// What loading user content yields: the user rule set merged over
/// the default one, or the default one alone where parsing fails.
pub open spec fn spec_from_user_content(content: Seq<char>) -> ConfigView {
    match crate::config::parse_content_to_config::spec_parse_config(content) {
        Ok(user) => spec_merged(user, spec_default_config()),
        Err(_) => spec_default_config(),
    }
}

/// What loading from a read outcome yields: a loaded rule set for
/// content, the default rule set for a missing or unreadable file.
pub open spec fn spec_from_read_result(content: Option<Seq<char>>) -> ConfigView {
    match content {
        Some(s) => spec_from_user_content(s),
        None => spec_default_config(),
    }
}

/// The rules of the built-in default rule set.
pub open spec fn spec_default_rules() -> Seq<RuleView> {
    seq![
        RuleView::Generic { pattern: PatternView::Literal("discord"@), value: "\u{f392}"@ },
        RuleView::Exact { key: "firefox"@, value: "\u{f269}"@ },
        RuleView::Exact { key: "chromium"@, value: "\u{f268}"@ },
        RuleView::Exact { key: "alacritty"@, value: "\u{f120}"@ },
        RuleView::Exact { key: "kitty"@, value: "\u{f120}"@ },
        RuleView::Exact { key: "code-oss"@, value: "\u{f121}"@ },
        RuleView::Generic { pattern: PatternView::Literal("spotify"@), value: "\u{f1bc}"@ },
        RuleView::Exact { key: "org.pwmt.zathura"@, value: "\u{f1c1}"@ },
    ]
}

/// The built-in default rule set: the default rules, the default
/// fallback glyph, and no separator.
pub open spec fn spec_default_config() -> ConfigView {
    ConfigView {
        matchings: spec_default_rules(),
        fallback: Some("\u{d4}\u{e3}\u{ea}"@),
        separator: None,
    }
}

/// Build the default rule list.
fn default_rules() -> (v: Vec<Match>)
    ensures
        v@.map_values(|m: Match| m@) == spec_default_rules(),
{
    let mut v: Vec<Match> = Vec::new();
    v.push(
        Match::Generic {
            pattern: Pattern::String(String::from_str("discord")),
            value: String::from_str("\u{f392}"),
        },
    );
    v.push(
        Match::Exact { pattern: String::from_str("firefox"), value: String::from_str("\u{f269}") },
    );
    v.push(
        Match::Exact { pattern: String::from_str("chromium"), value: String::from_str("\u{f268}") },
    );
    v.push(
        Match::Exact {
            pattern: String::from_str("alacritty"),
            value: String::from_str("\u{f120}"),
        },
    );
    v.push(
        Match::Exact { pattern: String::from_str("kitty"), value: String::from_str("\u{f120}") },
    );
    v.push(
        Match::Exact { pattern: String::from_str("code-oss"), value: String::from_str("\u{f121}") },
    );
    v.push(
        Match::Generic {
            pattern: Pattern::String(String::from_str("spotify")),
            value: String::from_str("\u{f1bc}"),
        },
    );
    v.push(
        Match::Exact {
            pattern: String::from_str("org.pwmt.zathura"),
            value: String::from_str("\u{f1c1}"),
        },
    );
    proof {
        assert(v@.map_values(|m: Match| m@) =~= spec_default_rules());
    }
    v
}

impl Default for Config {
    /// The built-in default rule set, embedded in the library itself.
    fn default() -> (c: Config)
        ensures
            c@ == spec_default_config(),
    {
        let c = Config {
            matchings: default_rules(),
            fallback: Some(String::from_str("\u{d4}\u{e3}\u{ea}")),
            separator: None,
        };
        proof {
            assert(c@ =~= spec_default_config());
        }
        c
    }
}

// What holds of the resolver and the loader, stated once and proved
// for every rule set.

/// First-match-wins: when rule `i` matches the queried window and no
/// earlier rule does, the resolver returns rule `i`'s value,
/// regardless of whether the rules involved are exact or generic.
pub proof fn lemma_first_match_wins(
    c: ConfigView,
    exact: Seq<char>,
    title: Option<Seq<char>>,
    i: int,
)
    requires
        0 <= i < c.matchings.len(),
        spec_rule_matches(c.matchings[i], exact, title),
        forall|j: int| 0 <= j < i ==> !spec_rule_matches(c.matchings[j], exact, title),
    ensures
        spec_fetch_icon(c, exact, title) == spec_rule_value(c.matchings[i]),
{
    lemma_first_match_index(c.matchings, exact, title, i);
}

proof fn lemma_first_match_index(
    rules: Seq<RuleView>,
    exact: Seq<char>,
    title: Option<Seq<char>>,
    i: int,
)
    requires
        0 <= i < rules.len(),
        spec_rule_matches(rules[i], exact, title),
        forall|j: int| 0 <= j < i ==> !spec_rule_matches(rules[j], exact, title),
    ensures
        spec_first_match(rules, exact, title) == Some(spec_rule_value(rules[i])),
    decreases i,
{
    if i > 0 {
        lemma_first_match_index(rules.drop_first(), exact, title, i - 1);
    }
}

/// When no rule matches the queried window, the resolver returns the
/// effective fallback: the configured glyph, or the empty string
/// where none is configured.
pub proof fn lemma_no_match_fallback(c: ConfigView, exact: Seq<char>, title: Option<Seq<char>>)
    requires
        forall|j: int| 0 <= j < c.matchings.len() ==> !spec_rule_matches(c.matchings[j], exact, title),
    ensures
        spec_fetch_icon(c, exact, title) == spec_effective_fallback(c),
{
    lemma_first_match_none(c.matchings, exact, title);
}

proof fn lemma_first_match_none(rules: Seq<RuleView>, exact: Seq<char>, title: Option<Seq<char>>)
    requires
        forall|j: int| 0 <= j < rules.len() ==> !spec_rule_matches(rules[j], exact, title),
    ensures
        spec_first_match(rules, exact, title) is None,
    decreases rules.len(),
{
    if rules.len() > 0 {
        lemma_first_match_none(rules.drop_first(), exact, title);
    }
}

/// Pattern round-trip: a `/…/`-delimited key denotes a regex whose
/// source is the text between the slashes, and where that text is not
/// itself delimited it also denotes the literal with the same
/// canonical form, so the two compare equal.
pub proof fn lemma_pattern_round_trip(text: Seq<char>)
    requires
        spec_is_delimited(text),
    ensures
        spec_pattern_of(text) == PatternView::Regex(spec_strip_delimiters(text)),
        !spec_is_delimited(spec_strip_delimiters(text)) ==> spec_pattern_of(
            spec_strip_delimiters(text),
        ) == PatternView::Literal(spec_strip_delimiters(text)),
        !spec_is_delimited(spec_strip_delimiters(text)) ==> spec_pattern_of(text).canonical()
            == spec_pattern_of(spec_strip_delimiters(text)).canonical(),
{
}

/// Reloading the same configuration content twice yields rule sets
/// that resolve identically for every query.
pub proof fn lemma_reload_idempotent(
    c1: ConfigView,
    c2: ConfigView,
    content: Seq<char>,
    exact: Seq<char>,
    title: Option<Seq<char>>,
)
    requires
        c1 == spec_from_user_content(content),
        c2 == spec_from_user_content(content),
    ensures
        spec_fetch_icon(c1, exact, title) == spec_fetch_icon(c2, exact, title),
{
}

} // verus!
