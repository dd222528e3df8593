//! The gateway between a file and a value: a loader knows the path of one
//! file and the codec for it.
//!
//! A loader does not read or write. `load` takes what reading the file gave,
//! and `save` gives the text that is to be written to it.

use vstd::prelude::*;
use crate::codec::decoded;
use crate::codec::encoded;
use crate::codec::reported;
use crate::error::Error;
use crate::error::ErrorView;
use crate::error::outcome_view;
use crate::resolver::path_extension;
use crate::resolver::resolution;
use crate::resolver::resolve;
use crate::resolver::Format;

verus! {

/// Whether `outcome` is what loading in `format` makes of what reading the
/// file gave: of a text, what the codec's answer to that text is reported as;
/// of a failed read, a `SerializationError` with the reader's message.
pub open spec fn loads<T: serde::de::DeserializeOwned>(
    format: Format,
    read: Result<&str, &str>,
    outcome: Result<T, Error>,
) -> bool {
    match read {
        Ok(text) => decoded(format, text, outcome),
        Err(message) => outcome_view(outcome) == Err::<T, ErrorView>(
            ErrorView::SerializationError(Some(message@)),
        ),
    }
}

/// Decodes, in `format`, what reading a file gave.
fn load_as<T>(format: Format, read: Result<&str, &str>) -> (outcome: Result<T, Error>) where
    T: serde::de::DeserializeOwned,

    ensures
        loads(format, read, outcome),
{
    match read {
        Ok(text) => format.decode(text),
        Err(message) => reported(Err(String::from_str(message))),
    }
}

/// The loader for a JSON file: decodes what was read from the file, and encodes
/// what is to be written to it.
#[derive(Debug)]
pub struct JsonLoader {
    path: String,
}

impl View for JsonLoader {
    type V = Seq<char>;

    /// The path of the file.
    closed spec fn view(&self) -> Seq<char> {
        self.path@
    }
}

impl JsonLoader {
    /// A loader for the file at `path`.
    pub fn new(path: &str) -> (loader: Self)
        ensures
            loader@ == path@,
    {
        Self { path: String::from_str(path) }
    }

    /// The path of the file.
    pub fn path(&self) -> (path: &str)
        ensures
            path@ == self@,
    {
        self.path.as_str()
    }

    /// Decodes what reading the file gave: its text, or the reader's message.
    ///
    /// A failed read is reported as a `SerializationError` with that message.
    /// A text goes to the JSON codec, whose rejection is reported in the
    /// same kind with the codec's message.
    pub fn load<T>(&self, read: Result<&str, &str>) -> (outcome: Result<T, Error>) where
        T: serde::de::DeserializeOwned,

        ensures
            loads(Format::Json, read, outcome),
    {
        load_as(Format::Json, read)
    }

    /// Encodes `config` as JSON: the text that is to be written to the
    /// file. A refusal of the codec is reported as a `SerializationError` with
    /// the codec's message.
    pub fn save<T>(&self, config: &T) -> (outcome: Result<String, Error>) where
        T: serde::Serialize,

        ensures
            encoded(Format::Json, config, outcome),
    {
        Format::Json.encode(config)
    }
}

/// The loader for a TOML file: decodes what was read from the file, and encodes
/// what is to be written to it.
#[derive(Debug)]
pub struct TomlLoader {
    path: String,
}

impl View for TomlLoader {
    type V = Seq<char>;

    /// The path of the file.
    closed spec fn view(&self) -> Seq<char> {
        self.path@
    }
}

impl TomlLoader {
    /// A loader for the file at `path`.
    pub fn new(path: &str) -> (loader: Self)
        ensures
            loader@ == path@,
    {
        Self { path: String::from_str(path) }
    }

    /// The path of the file.
    pub fn path(&self) -> (path: &str)
        ensures
            path@ == self@,
    {
        self.path.as_str()
    }

    /// Decodes what reading the file gave: its text, or the reader's message.
    ///
    /// A failed read is reported as a `SerializationError` with that message.
    /// A text goes to the TOML codec, whose rejection is reported in the
    /// same kind with the codec's message.
    pub fn load<T>(&self, read: Result<&str, &str>) -> (outcome: Result<T, Error>) where
        T: serde::de::DeserializeOwned,

        ensures
            loads(Format::Toml, read, outcome),
    {
        load_as(Format::Toml, read)
    }

    /// Encodes `config` as TOML: the text that is to be written to the
    /// file. A refusal of the codec is reported as a `SerializationError` with
    /// the codec's message.
    pub fn save<T>(&self, config: &T) -> (outcome: Result<String, Error>) where
        T: serde::Serialize,

        ensures
            encoded(Format::Toml, config, outcome),
    {
        Format::Toml.encode(config)
    }
}

/// The loader for a YAML file: decodes what was read from the file, and encodes
/// what is to be written to it.
#[derive(Debug)]
pub struct YamlLoader {
    path: String,
}

impl View for YamlLoader {
    type V = Seq<char>;

    /// The path of the file.
    closed spec fn view(&self) -> Seq<char> {
        self.path@
    }
}

impl YamlLoader {
    /// A loader for the file at `path`.
    pub fn new(path: &str) -> (loader: Self)
        ensures
            loader@ == path@,
    {
        Self { path: String::from_str(path) }
    }

    /// The path of the file.
    pub fn path(&self) -> (path: &str)
        ensures
            path@ == self@,
    {
        self.path.as_str()
    }

    /// Decodes what reading the file gave: its text, or the reader's message.
    ///
    /// A failed read is reported as a `SerializationError` with that message.
    /// A text goes to the YAML codec, whose rejection is reported in the
    /// same kind with the codec's message.
    pub fn load<T>(&self, read: Result<&str, &str>) -> (outcome: Result<T, Error>) where
        T: serde::de::DeserializeOwned,

        ensures
            loads(Format::Yaml, read, outcome),
    {
        load_as(Format::Yaml, read)
    }

    /// Encodes `config` as YAML: the text that is to be written to the
    /// file. A refusal of the codec is reported as a `SerializationError` with
    /// the codec's message.
    pub fn save<T>(&self, config: &T) -> (outcome: Result<String, Error>) where
        T: serde::Serialize,

        ensures
            encoded(Format::Yaml, config, outcome),
    {
        Format::Yaml.encode(config)
    }
}

/// The loader that a path resolved to: one of the three, chosen by the
/// extension.
#[derive(Debug)]
pub enum Loader {
    Json(JsonLoader),
    Toml(TomlLoader),
    Yaml(YamlLoader),
}

impl View for Loader {
    type V = (Format, Seq<char>);

    /// The format of the file and its path.
    open spec fn view(&self) -> (Format, Seq<char>) {
        match *self {
            Loader::Json(loader) => (Format::Json, loader@),
            Loader::Toml(loader) => (Format::Toml, loader@),
            Loader::Yaml(loader) => (Format::Yaml, loader@),
        }
    }
}

impl Loader {
    /// The loader for a file at `path` in `format`.
    pub fn new(format: Format, path: &str) -> (loader: Self)
        ensures
            loader@ == (format, path@),
    {
        match format {
            Format::Json => Loader::Json(JsonLoader::new(path)),
            Format::Toml => Loader::Toml(TomlLoader::new(path)),
            Format::Yaml => Loader::Yaml(YamlLoader::new(path)),
        }
    }

    /// The format of the file.
    pub fn format(&self) -> (format: Format)
        ensures
            format == self@.0,
    {
        match self {
            Loader::Json(_) => Format::Json,
            Loader::Toml(_) => Format::Toml,
            Loader::Yaml(_) => Format::Yaml,
        }
    }

    /// The path of the file.
    pub fn path(&self) -> (path: &str)
        ensures
            path@ == self@.1,
    {
        match self {
            Loader::Json(loader) => loader.path(),
            Loader::Toml(loader) => loader.path(),
            Loader::Yaml(loader) => loader.path(),
        }
    }

    /// Decodes what reading the file gave, with the codec of the file's
    /// format.
    pub fn load<T>(&self, read: Result<&str, &str>) -> (outcome: Result<T, Error>) where
        T: serde::de::DeserializeOwned,

        ensures
            loads(self@.0, read, outcome),
    {
        match self {
            Loader::Json(loader) => loader.load(read),
            Loader::Toml(loader) => loader.load(read),
            Loader::Yaml(loader) => loader.load(read),
        }
    }

    /// Encodes `config` in the file's format: the text that is to be written
    /// to the file.
    pub fn save<T>(&self, config: &T) -> (outcome: Result<String, Error>) where
        T: serde::Serialize,

        ensures
            encoded(self@.0, config, outcome),
    {
        match self {
            Loader::Json(loader) => loader.save(config),
            Loader::Toml(loader) => loader.save(config),
            Loader::Yaml(loader) => loader.save(config),
        }
    }
}

/// What [`for_file`] gives for a path, over the path's extension: a loader of
/// the resolved format for that very path, or the resolver's error.
pub open spec fn loader_for(path: Seq<char>) -> Result<(Format, Seq<char>), ErrorView> {
    match resolution(path_extension(path)) {
        Ok(format) => Ok((format, path)),
        Err(error) => Err(error),
    }
}

/// The view of the result of [`for_file`].
pub open spec fn loader_view(outcome: Result<Loader, Error>) -> Result<
    (Format, Seq<char>),
    ErrorView,
> {
    match outcome {
        Ok(loader) => Ok(loader@),
        Err(error) => Err(error@),
    }
}

/// The loader for the file at `path`, chosen by the path's extension alone.
///
/// Fails with `UnknownFileExtension` where the extension is none of `json`,
/// `toml`, `yaml` and `yml`; the error carries the extension, or nothing
/// where the path has none.
pub fn for_file(path: &str) -> (outcome: Result<Loader, Error>)
    ensures
        loader_view(outcome) == loader_for(path@),
{
    match resolve(path) {
        Ok(format) => Ok(Loader::new(format, path)),
        Err(error) => Err(error),
    }
}

} // verus!
