//! The codecs: one pair of decode and encode per format.
//!
//! The codecs themselves are the crates `serde_json`, `toml` and `serde_yaml`.
//! What a codec makes of a text or of a value depends on the payload type's
//! own `Deserialize` and `Serialize`, so nothing is claimed about it here. The
//! library's part is which codec is asked, what it is asked, and how its
//! answer is reported: the contracts speak of the codec's answer, whatever it
//! was, through [`decodes`] and [`encodes`].

use vstd::prelude::*;
use crate::error::Error;
use crate::error::ErrorView;
use crate::error::outcome_view;
use crate::resolver::Format;

verus! {

/// Calls `serde_json::from_str` on `text`. A failure comes back as the text
/// that the crate's error displays. Nothing is claimed about the result.
#[verifier::external_body]
fn json_from_str<T: serde::de::DeserializeOwned>(text: &str) -> (answer: Result<T, String>) {
    match serde_json::from_str(text) {
        Ok(value) => Ok(value),
        Err(error) => Err(error.to_string()),
    }
}

/// Calls `serde_json::to_string_pretty` on `value`. A failure comes back as
/// the text that the crate's error displays. Nothing is claimed about the
/// result.
#[verifier::external_body]
fn json_to_string_pretty<T: serde::Serialize>(value: &T) -> (answer: Result<String, String>) {
    match serde_json::to_string_pretty(value) {
        Ok(text) => Ok(text),
        Err(error) => Err(error.to_string()),
    }
}

/// Calls `toml::from_str` on `text`. A failure comes back as the text that the
/// crate's error displays. Nothing is claimed about the result.
#[verifier::external_body]
fn toml_from_str<T: serde::de::DeserializeOwned>(text: &str) -> (answer: Result<T, String>) {
    match toml::from_str(text) {
        Ok(value) => Ok(value),
        Err(error) => Err(error.to_string()),
    }
}

/// Calls `toml::to_string_pretty` on `value`. A failure comes back as the text
/// that the crate's error displays. Nothing is claimed about the result.
#[verifier::external_body]
fn toml_to_string_pretty<T: serde::Serialize>(value: &T) -> (answer: Result<String, String>) {
    match toml::to_string_pretty(value) {
        Ok(text) => Ok(text),
        Err(error) => Err(error.to_string()),
    }
}

/// Calls `serde_yaml::from_str` on `text`. A failure comes back as the text
/// that the crate's error displays. Nothing is claimed about the result.
#[verifier::external_body]
fn yaml_from_str<T: serde::de::DeserializeOwned>(text: &str) -> (answer: Result<T, String>) {
    match serde_yaml::from_str(text) {
        Ok(value) => Ok(value),
        Err(error) => Err(error.to_string()),
    }
}

/// Calls `serde_yaml::to_string` on `value`. A failure comes back as the text
/// that the crate's error displays. Nothing is claimed about the result.
#[verifier::external_body]
fn yaml_to_string<T: serde::Serialize>(value: &T) -> (answer: Result<String, String>) {
    match serde_yaml::to_string(value) {
        Ok(text) => Ok(text),
        Err(error) => Err(error.to_string()),
    }
}

/// What an outside party's answer means to the caller: the value on success;
/// on failure a `SerializationError` that carries the party's own message.
pub open spec fn reported_view<V>(answer: Result<V, String>) -> Result<V, ErrorView> {
    match answer {
        Ok(value) => Ok(value),
        Err(message) => Err(ErrorView::SerializationError(Some(message@))),
    }
}

/// Whether `error` is one that [`reported`] gives: a `SerializationError`
/// with a message.
pub open spec fn is_report(error: ErrorView) -> bool {
    error matches ErrorView::SerializationError(Some(_))
}

/// Turns the answer of a codec, or of the file system, into the library's
/// result: a success is passed on, a failure becomes a `SerializationError`
/// with the message unchanged.
pub fn reported<V>(answer: Result<V, String>) -> (outcome: Result<V, Error>)
    ensures
        outcome_view(outcome) == reported_view(answer),
{
    match answer {
        Ok(value) => Ok(value),
        Err(message) => Err(Error::SerializationError(Some(message))),
    }
}

/// Whether `answer` is an answer that the codec of `format` gave when it was
/// asked to decode `text` as a `T`: the value, or the codec's message.
///
/// Nothing is known of a codec's answer but that it was given. A function that
/// promises an outcome made of such an answer has asked that codec with that
/// text.
pub closed spec fn decodes<T: serde::de::DeserializeOwned>(
    format: Format,
    text: &str,
    answer: Result<T, String>,
) -> bool {
    match format {
        Format::Json => call_ensures(json_from_str::<T>, (text,), answer),
        Format::Toml => call_ensures(toml_from_str::<T>, (text,), answer),
        Format::Yaml => call_ensures(yaml_from_str::<T>, (text,), answer),
    }
}

/// Whether `answer` is an answer that the codec of `format` gave when it was
/// asked to encode `value`: the text, or the codec's message.
pub closed spec fn encodes<T: serde::Serialize>(
    format: Format,
    value: &T,
    answer: Result<String, String>,
) -> bool {
    match format {
        Format::Json => call_ensures(json_to_string_pretty::<T>, (value,), answer),
        Format::Toml => call_ensures(toml_to_string_pretty::<T>, (value,), answer),
        Format::Yaml => call_ensures(yaml_to_string::<T>, (value,), answer),
    }
}

/// Whether `outcome` reports an answer of the codec of `format` to `text`:
/// the decoded value, or a `SerializationError` with the codec's message.
pub open spec fn decoded<T: serde::de::DeserializeOwned>(
    format: Format,
    text: &str,
    outcome: Result<T, Error>,
) -> bool {
    exists|answer: Result<T, String>| #[trigger]
        decodes(format, text, answer) && outcome_view(outcome) == reported_view(answer)
}

/// Whether `outcome` reports an answer of the codec of `format` to `value`:
/// the encoded text, or a `SerializationError` with the codec's message.
pub open spec fn encoded<T: serde::Serialize>(
    format: Format,
    value: &T,
    outcome: Result<String, Error>,
) -> bool {
    exists|answer: Result<String, String>| #[trigger]
        encodes(format, value, answer) && outcome_view(outcome) == reported_view(answer)
}

impl Format {
    /// Decodes `text` with the codec of this format.
    ///
    /// Whether the text is accepted, and which value it gives, is the codec's
    /// and the payload type's business. A rejection is reported as a
    /// `SerializationError` with the codec's message.
    pub fn decode<T>(self, text: &str) -> (outcome: Result<T, Error>) where
        T: serde::de::DeserializeOwned,

        ensures
            decoded(self, text, outcome),
    {
        let answer = match self {
            Format::Json => json_from_str(text),
            Format::Toml => toml_from_str(text),
            Format::Yaml => yaml_from_str(text),
        };
        assert(decodes(self, text, answer));
        reported(answer)
    }

    /// Encodes `value` with the codec of this format, in the codec's
    /// human-readable layout.
    ///
    /// Which text comes out is the codec's and the payload type's business. A
    /// refusal is reported as a `SerializationError` with the codec's message.
    pub fn encode<T>(self, value: &T) -> (outcome: Result<String, Error>) where
        T: serde::Serialize,

        ensures
            encoded(self, value, outcome),
    {
        let answer = match self {
            Format::Json => json_to_string_pretty(value),
            Format::Toml => toml_to_string_pretty(value),
            Format::Yaml => yaml_to_string(value),
        };
        assert(encodes(self, value, answer));
        reported(answer)
    }
}

} // verus!
