//! Trusted boundary to the `toml` crate.
//!
//! A parsed `toml::Value` is opaque to the verifier, so the document a
//! text parses to, and every observation the loader makes of it, is
//! given a name here. Parsing and rendering are functions of their
//! inputs alone, so the names make the whole load pipeline a
//! deterministic function of the configuration text.

use vstd::prelude::*;

verus! {

#[verifier::external_type_specification]
#[verifier::external_body]
pub struct ExTomlValue(toml::Value);

#[verifier::external_type_specification]
#[verifier::external_body]
#[verifier::reject_recursive_types(K)]
#[verifier::reject_recursive_types(V)]
pub struct ExTomlMap<K, V>(toml::map::Map<K, V>);

#[verifier::external_type_specification]
#[verifier::external_body]
pub struct ExTomlDeError(toml::de::Error);

/// The document `toml::from_str::<toml::Value>` yields for a text, or
/// `None` where the text is rejected.
pub uninterp spec fn toml_document_of(content: Seq<char>) -> Option<toml::Value>;

/// The text of the parse error `toml::from_str::<toml::Value>` yields
/// for a rejected text.
pub uninterp spec fn toml_parse_error_of(content: Seq<char>) -> Seq<char>;

/// The string content of a TOML value (`toml::Value::as_str`), or
/// `None` where the value is not a string.
pub uninterp spec fn toml_str_of(v: toml::Value) -> Option<Seq<char>>;

/// The table content of a TOML value (`toml::Value::as_table`), or
/// `None` where the value is not a table.
pub uninterp spec fn toml_table_of(v: toml::Value) -> Option<toml::map::Map<String, toml::Value>>;

/// The key/value entries a TOML table holds, in its iteration order
/// (`toml::map::Map::iter`).
pub uninterp spec fn toml_entries_of(m: toml::map::Map<String, toml::Value>) -> Seq<
    (Seq<char>, toml::Value),
>;

/// The text `toml::Value`'s `Display` renders a value as.
pub uninterp spec fn toml_text_of(v: toml::Value) -> Seq<char>;

/// The text `toml::de::Error`'s `Display` renders an error as.
pub uninterp spec fn toml_error_text_of(e: toml::de::Error) -> Seq<char>;

/// The value the first entry with the given key holds, if any. A TOML
/// table holds each key at most once, so this is what `Map::get`
/// returns.
pub open spec fn toml_lookup(
    entries: Seq<(Seq<char>, toml::Value)>,
    key: Seq<char>,
) -> Option<toml::Value>
    decreases entries.len(),
{
    if entries.len() == 0 {
        None
    } else if entries[0].0 == key {
        Some(entries[0].1)
    } else {
        toml_lookup(entries.drop_first(), key)
    }
}

/// Relies on toml::from_str::<toml::Value>: parsing is a function of
/// the input text alone, as is the error it reports.
#[verifier::external_body]
pub(crate) fn toml_parse_document(content: &str) -> (r: Result<toml::Value, toml::de::Error>)
    ensures
        r is Ok <==> toml_document_of(content@) is Some,
        r is Ok ==> r->Ok_0 == toml_document_of(content@)->0,
        r is Err ==> toml_error_text_of(r->Err_0) == toml_parse_error_of(content@),
{
    toml::from_str::<toml::Value>(content)
}

/// Relies on toml::Value::as_str: it returns the string a string
/// value holds, and nothing for any other value.
#[verifier::external_body]
pub(crate) fn toml_value_as_str<'a>(v: &'a toml::Value) -> (r: Option<&'a str>)
    ensures
        r is Some <==> toml_str_of(*v) is Some,
        r is Some ==> r->0@ == toml_str_of(*v)->0,
{
    v.as_str()
}

/// Relies on toml::Value::as_table: it returns the table a table
/// value holds, and nothing for any other value.
#[verifier::external_body]
pub(crate) fn toml_value_as_table<'a>(v: &'a toml::Value) -> (r: Option<
    &'a toml::map::Map<String, toml::Value>,
>)
    ensures
        r is Some <==> toml_table_of(*v) is Some,
        r is Some ==> *r->0 == toml_table_of(*v)->0,
{
    v.as_table()
}

/// Relies on toml::map::Map::get: a TOML table maps each key to at
/// most one value, the one its entry list holds for that key.
#[verifier::external_body]
pub(crate) fn toml_map_get<'a>(m: &'a toml::map::Map<String, toml::Value>, key: &str) -> (r: Option<
    &'a toml::Value,
>)
    ensures
        r is Some <==> toml_lookup(toml_entries_of(*m), key@) is Some,
        r is Some ==> *r->0 == toml_lookup(toml_entries_of(*m), key@)->0,
{
    m.get(key)
}

/// Relies on toml::map::Map::iter: it yields each key once, with its
/// value, in the map's order.
#[verifier::external_body]
pub(crate) fn toml_map_entries(m: &toml::map::Map<String, toml::Value>) -> (r: Vec<(String, toml::Value)>)
    ensures
        r@.len() == toml_entries_of(*m).len(),
        forall|i: int|
            0 <= i < r@.len() ==> (#[trigger] r@[i]).0@ == toml_entries_of(*m)[i].0 && r@[i].1
                == toml_entries_of(*m)[i].1,
        forall|i: int, j: int|
            0 <= i < j < r@.len() ==> (#[trigger] toml_entries_of(*m)[i]).0 != (
            #[trigger] toml_entries_of(*m)[j]).0,
{
    m.iter().map(|(k, v)| (k.clone(), v.clone())).collect()
}

/// Relies on toml::Value's Display: it renders the value as TOML
/// text, a function of the value alone.
#[verifier::external_body]
pub(crate) fn toml_value_text(v: &toml::Value) -> (r: String)
    ensures
        r@ == toml_text_of(*v),
{
    format!("{}", v)
}

/// Relies on toml::de::Error's Display: it renders the parse error, a
/// function of the error value alone.
#[verifier::external_body]
pub(crate) fn toml_error_text(e: &toml::de::Error) -> (r: String)
    ensures
        r@ == toml_error_text_of(*e),
{
    format!("{}", e)
}

} // verus!
