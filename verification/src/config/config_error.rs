//! The loader's error type.
//!
//! Every way a configuration text can be rejected carries a kind and a
//! human-readable message; an underlying TOML error can be attached as
//! a detail line.

use vstd::prelude::*;

use crate::config::toml_api::{toml_error_text, toml_error_text_of};

verus! {

/// What went wrong while loading a configuration.
#[derive(Clone, Copy, PartialEq, Eq, Structural, Debug)]
pub enum ConfigErrorKind {
    /// The file could not be read at all.
    InvalidFile,
    /// The text is not well-formed TOML.
    TomlParseError,
    /// The text is TOML but not a valid rule configuration.
    GenericParseError,
}

/// A reportable loading error: a kind, a message, and an optional
/// detail line from the underlying TOML parser.
#[derive(Debug)]
pub struct ConfigError {
    kind: ConfigErrorKind,
    details: Option<String>,
    message: String,
}

/// The mathematical content of a [`ConfigError`].
pub struct ConfigErrorView {
    pub kind: ConfigErrorKind,
    pub details: Option<Seq<char>>,
    pub message: Seq<char>,
}

impl View for ConfigError {
    type V = ConfigErrorView;

    closed spec fn view(&self) -> ConfigErrorView {
        ConfigErrorView {
            kind: self.kind,
            details: match self.details {
                Some(d) => Some(d@),
                None => None,
            },
            message: self.message@,
        }
    }
}

/// The text an error renders as: the message, with the detail line
/// appended after a colon when one is attached.
pub open spec fn spec_error_text(e: ConfigErrorView) -> Seq<char> {
    match e.details {
        Some(d) => e.message + ": "@ + d,
        None => e.message,
    }
}

impl ConfigError {
    /// A fresh error of the given kind with the given message and no
    /// detail line.
    pub fn new(kind: ConfigErrorKind, message: String) -> (e: ConfigError)
        ensures
            e@ == (ConfigErrorView { kind, details: None, message: message@ }),
    {
        ConfigError { kind, details: None, message }
    }

    /// Attach the rendered text of an underlying TOML error as the
    /// detail line.
    pub fn details(&mut self, details: toml::de::Error)
        ensures
            final(self)@ == (ConfigErrorView {
                details: Some(toml_error_text_of(details)),
                ..old(self)@
            }),
    {
        self.details = Some(toml_error_text(&details));
    }

    /// The kind of this error.
    pub fn kind(&self) -> (k: ConfigErrorKind)
        ensures
            k == self@.kind,
    {
        self.kind
    }

    /// Render the error as text, as a `Display` implementation would.
    pub fn to_text(&self) -> (r: String)
        ensures
            r@ == spec_error_text(self@),
    {
        match &self.details {
            Some(d) => {
                let mut r = self.message.clone();
                r.append(": ");
                r.append(d.as_str());
                r
            },
            None => self.message.clone(),
        }
    }
}

} // verus!
