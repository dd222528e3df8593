//! Laws that the library's contracts add up to.
//!
//! Each law is stated over the spec functions that the contracts of the
//! functions use, and holds of every value that meets its `requires`.

use vstd::prelude::*;
use crate::codec::decoded;
use crate::codec::encoded;
use crate::codec::is_report;
use crate::config::destination_for;
use crate::config::gave_way;
use crate::config::load_allows;
use crate::config::save_allows;
use crate::config::Config;
use crate::config::LoadState;
use crate::error::Error;
use crate::error::ErrorView;
use crate::manager::loader_for;
use crate::resolver::format_of;
use crate::resolver::path_extension;
use crate::resolver::resolution;
use crate::resolver::Format;

verus! {

/// Whether `extension` is one of the four that name a format.
pub open spec fn is_known(extension: Seq<char>) -> bool {
    extension == "json"@ || extension == "toml"@ || extension == "yaml"@ || extension == "yml"@
}

/// The table of extensions: `json`, `toml`, and `yaml` or `yml` name the three
/// formats, and nothing else names any. Resolving succeeds for exactly these
/// four, and what it fails with is an `UnknownFileExtension` that carries the
/// extension as it was given, or nothing where there was none.
pub proof fn law_extension_table(extension: Option<Seq<char>>)
    ensures
        format_of("json"@) == Some(Format::Json),
        format_of("toml"@) == Some(Format::Toml),
        format_of("yaml"@) == Some(Format::Yaml),
        format_of("yml"@) == Some(Format::Yaml),
        resolution(extension) is Ok <==> (extension matches Some(text) && is_known(text)),
        resolution(extension) is Err ==> resolution(extension) == Err::<Format, ErrorView>(
            ErrorView::UnknownFileExtension(extension),
        ),
{
    reveal_strlit("json");
    reveal_strlit("toml");
    reveal_strlit("yaml");
    reveal_strlit("yml");
    assert("json"@ != "toml"@) by {
        assert("json"@[0] != "toml"@[0]);
    }
    assert("json"@ != "yaml"@) by {
        assert("json"@[0] != "yaml"@[0]);
    }
    assert("toml"@ != "yaml"@) by {
        assert("toml"@[0] != "yaml"@[0]);
    }
    assert("yml"@ != "json"@ && "yml"@ != "toml"@) by {
        assert("yml"@.len() != "json"@.len());
        assert("yml"@.len() != "toml"@.len());
    }
}

/// The extension is the only signal: two paths with the same extension resolve
/// alike, whatever else they differ in.
pub proof fn law_extension_alone_decides(left: Seq<char>, right: Seq<char>)
    requires
        path_extension(left) == path_extension(right),
    ensures
        resolution(path_extension(left)) == resolution(path_extension(right)),
        loader_for(left) is Ok <==> loader_for(right) is Ok,
        loader_for(left) matches Ok(chosen) ==> loader_for(right) == Ok::<
            (Format, Seq<char>),
            ErrorView,
        >((chosen.0, right)),
{
}

/// What a builder makes of a failure ends the load, and the builder's one flag
/// decides how: with recovery in `Recovered`, never in `Failed`; without it in
/// `Failed`, never in `Recovered`. Either way the state keeps the error as it
/// was.
pub proof fn law_recovery_decides_the_ending<T: Default>(
    recover: bool,
    error: ErrorView,
    state: LoadState<T>,
)
    requires
        gave_way(recover, error, state),
    ensures
        state.is_final(),
        recover <==> state is Recovered,
        !recover <==> state is Failed,
        state matches LoadState::Recovered(_, cause) ==> cause@ == error,
        state matches LoadState::Failed(cause) ==> cause@ == error,
{
}

/// Whatever a codec answers, its failure reaches the caller as a
/// `SerializationError` with a message, and as nothing else.
pub proof fn law_codec_failures_are_reports<T, U>(
    format: Format,
    text: &str,
    value: &U,
    from_text: Result<T, Error>,
    from_value: Result<String, Error>,
) where T: serde::de::DeserializeOwned, U: serde::Serialize
    ensures
        decoded(format, text, from_text) ==> (from_text matches Err(cause) ==> is_report(cause@)),
        encoded(format, value, from_value) ==> (from_value matches Err(cause) ==> is_report(
            cause@,
        )),
{
}

/// A builder that recovers never fails a load. The handle it gives has the
/// path as its origin, and where the load failed before the codec was asked
/// (the extension names no format, or the file could not be read), the handle
/// was created with a default value.
pub proof fn law_recovery_always_succeeds<T: Default + serde::de::DeserializeOwned>(
    path: Seq<char>,
    read: Result<&str, &str>,
    outcome: Result<Config<T>, Error>,
)
    requires
        load_allows(true, path, read, outcome),
    ensures
        outcome matches Ok(handle) && handle.origin() == Some(path) && ((read is Err
            || loader_for(path) is Err) ==> handle.created_with_default()),
{
}

/// Without recovery a load of a file that could not be read fails: with the
/// resolver's error where the extension names no format, and else with a
/// `SerializationError` that carries the reader's message.
pub proof fn law_unreadable_file_fails<T: Default + serde::de::DeserializeOwned>(
    path: Seq<char>,
    message: &str,
    outcome: Result<Config<T>, Error>,
)
    requires
        load_allows(false, path, Err::<&str, &str>(message), outcome),
    ensures
        outcome matches Err(cause) && cause@ == (match loader_for(path) {
            Ok(_) => ErrorView::SerializationError(Some(message@)),
            Err(error) => error,
        }),
{
}

/// Without recovery a load fails in one of two kinds only: with
/// `UnknownFileExtension`, which is then the resolver's error for the path, or
/// with a `SerializationError` that carries the message of the reader or of
/// the codec.
pub proof fn law_load_failures<T: Default + serde::de::DeserializeOwned>(
    path: Seq<char>,
    read: Result<&str, &str>,
    cause: Error,
)
    requires
        load_allows(false, path, read, Err::<Config<T>, Error>(cause)),
    ensures
        match loader_for(path) {
            Err(error) => cause@ == error,
            Ok(_) => is_report(cause@),
        },
{
}

/// A handle without origin cannot be saved: whatever it holds, the save fails
/// with a `ConfigLoadError` without message.
pub proof fn law_save_needs_origin<T: serde::ser::Serialize + Clone>(
    handle: Config<T>,
    outcome: Result<String, Error>,
)
    requires
        handle.origin() is None,
        save_allows(handle.lock(), handle.origin(), outcome),
    ensures
        outcome matches Err(cause) && cause@ == ErrorView::ConfigLoadError(None),
{
}

/// A handle that a load gave is saved to where it was loaded from: the
/// destination of its save is the loader for the path of the load.
pub proof fn law_save_goes_to_origin<T: Default + serde::de::DeserializeOwned>(
    recover: bool,
    path: Seq<char>,
    read: Result<&str, &str>,
    handle: Config<T>,
)
    requires
        load_allows(recover, path, read, Ok::<Config<T>, Error>(handle)),
    ensures
        destination_for(handle.origin()) == loader_for(path),
        !recover ==> loader_for(path) is Ok,
{
}

/// A recovered handle heals its file: where the extension of the path names a
/// format, a save of the handle that a recovering builder gave for the path
/// has a destination, and fails only if the codec refuses the value.
pub proof fn law_recovered_handle_can_be_saved<T>(
    path: Seq<char>,
    read: Result<&str, &str>,
    handle: Config<T>,
    saved: Result<String, Error>,
) where T: Default + Clone + serde::ser::Serialize + serde::de::DeserializeOwned
    requires
        loader_for(path) is Ok,
        load_allows(true, path, read, Ok::<Config<T>, Error>(handle)),
        save_allows(handle.lock(), handle.origin(), saved),
    ensures
        destination_for(handle.origin()) is Ok,
        saved matches Err(cause) ==> is_report(cause@),
{
}

} // verus!
