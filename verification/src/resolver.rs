//! From a path's extension to the format of the file.
//!
//! The extension is the only signal: the text of a file is never looked at,
//! and an extension either is one of the known ones, letter for letter, or is
//! unknown.

use vstd::prelude::*;
use crate::error::Error;
use crate::error::ErrorView;
use crate::error::message_view;
use crate::error::outcome_view;

verus! {

/// The formats a configuration file can be written in.
#[derive(Clone, Copy, Debug, PartialEq, Eq, Structural)]
pub enum Format {
    /// Extension `json`.
    Json,
    /// Extension `toml`.
    Toml,
    /// Extensions `yaml` and `yml`.
    Yaml,
}

/// The format that an extension names, if it names one. The match is exact and
/// case-sensitive.
pub open spec fn format_of(extension: Seq<char>) -> Option<Format> {
    if extension == "json"@ {
        Some(Format::Json)
    } else if extension == "toml"@ {
        Some(Format::Toml)
    } else if extension == "yaml"@ || extension == "yml"@ {
        Some(Format::Yaml)
    } else {
        None
    }
}

/// What resolving ends in, given the extension of a path: the format that a
/// known extension names, and `UnknownFileExtension` otherwise, with the
/// extension as its message, or without a message where the path has none.
pub open spec fn resolution(extension: Option<Seq<char>>) -> Result<Format, ErrorView> {
    match extension {
        Some(text) => match format_of(text) {
            Some(format) => Ok(format),
            None => Err(ErrorView::UnknownFileExtension(Some(text))),
        },
        None => Err(ErrorView::UnknownFileExtension(None)),
    }
}

/// The extension of `path`: what `std::path::Path::extension` returns for it.
pub uninterp spec fn path_extension(path: Seq<char>) -> Option<Seq<char>>;

/// Calls `std::path::Path::extension` on `path` and hands the extension back
/// as owned text. The contract only gives the result its name,
/// [`path_extension`]: what counts as the extension of a path is left to the
/// standard library.
#[verifier::external_body]
fn extension_of(path: &str) -> (extension: Option<String>)
    ensures
        message_view(extension) == path_extension(path@),
{
    match std::path::Path::new(path).extension() {
        Some(extension) => Some(extension.to_string_lossy().into_owned()),
        None => None,
    }
}

/// Whether two texts are the same, character by character.
fn same_text(left: &str, right: &str) -> (same: bool)
    ensures
        same == (left@ == right@),
{
    String::from_str(left) == String::from_str(right)
}

/// Resolves the format from an extension that has already been taken from a
/// path; `None` stands for a path without extension.
pub fn format_for_extension(extension: Option<String>) -> (outcome: Result<Format, Error>)
    ensures
        outcome_view(outcome) == resolution(message_view(extension)),
{
    match extension {
        Some(text) => {
            if same_text(text.as_str(), "json") {
                Ok(Format::Json)
            } else if same_text(text.as_str(), "toml") {
                Ok(Format::Toml)
            } else if same_text(text.as_str(), "yaml") || same_text(text.as_str(), "yml") {
                Ok(Format::Yaml)
            } else {
                Err(Error::UnknownFileExtension(Some(text)))
            }
        },
        None => Err(Error::UnknownFileExtension(None)),
    }
}

/// Resolves the format of the file at `path` from the path's extension.
pub fn resolve(path: &str) -> (outcome: Result<Format, Error>)
    ensures
        outcome_view(outcome) == resolution(path_extension(path@)),
{
    format_for_extension(extension_of(path))
}

} // verus!
