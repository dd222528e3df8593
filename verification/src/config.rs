//! The configuration handle and the builder that loads it.
//!
//! A handle keeps its value behind a lock that anybody may write through, so
//! no contract here says what a handle holds. The contracts say where a value
//! came from: a handle was created with a certain value, and a save encodes a
//! value that the handle's lock gave.

use vstd::prelude::*;
use crate::codec::encoded;
use crate::error::message_view;
use crate::error::outcome_view;
use crate::error::text_view;
use crate::error::Error;
use crate::error::ErrorView;
use crate::manager::for_file;
use crate::manager::loader_for;
use crate::manager::loader_view;
use crate::manager::loads;
use crate::manager::Loader;
use crate::resolver::Format;

verus! {

/// The lock that guards the value of a handle: any number of readers, or one
/// writer.
pub type Lock<T> = std::sync::RwLock<T>;

/// `std::sync::RwLock`, taken as it is: the library never looks into a lock,
/// and says nothing about what one holds.
#[verifier::external_type_specification]
#[verifier::external_body]
#[verifier::reject_recursive_types(T)]
pub struct ExRwLock<T: ?Sized>(std::sync::RwLock<T>);

/// Calls `std::sync::RwLock::new`. Nothing is claimed about the lock: what it
/// holds can change whenever somebody writes through it.
#[verifier::external_body]
fn lock_new<T>(value: T) -> (lock: Lock<T>) {
    std::sync::RwLock::new(value)
}

/// Calls `std::sync::RwLock::read` and clones what the lock holds at that
/// moment; a poisoned lock still gives its value. Nothing is claimed about
/// the result. The call waits while a writer holds the lock, and, as the
/// standard library says, may panic or never return if the calling thread
/// itself holds it.
#[verifier::external_body]
fn lock_snapshot<T: Clone>(lock: &Lock<T>) -> (value: T) {
    match lock.read() {
        Ok(guard) => guard.clone(),
        Err(poisoned) => poisoned.into_inner().clone(),
    }
}

/// Whether `value` is a value that `lock` gave when it was read: what it held
/// at that moment. Nothing is known of such a value but that the lock gave it.
pub closed spec fn held<T: Clone>(lock: &Lock<T>, value: T) -> bool {
    call_ensures(lock_snapshot::<T>, (lock,), value)
}

/// Whether `value` is one that `T::default()` can return.
pub open spec fn is_default<T: Default>(value: T) -> bool {
    call_ensures(T::default, (), value)
}

/// A configuration of type `T` behind a read/write lock, together with the
/// path of the file it belongs to, if it belongs to one.
#[derive(Debug)]
#[verifier::reject_recursive_types(T)]
pub struct Config<T> {
    pub(crate) config: Lock<T>,
    pub(crate) path: Option<String>,
}

impl<T> Config<T> {
    /// The origin path: where the handle was loaded from and where a save
    /// goes. `None` for a handle that belongs to no file.
    pub closed spec fn origin(&self) -> Option<Seq<char>> {
        message_view(self.path)
    }

    /// Whether the handle was created with `value`: its lock was made to hold
    /// that value. What the lock holds later is up to those who write through
    /// it.
    pub closed spec fn created_with(&self, value: T) -> bool {
        call_ensures(lock_new::<T>, (value,), self.config)
    }

    /// The lock of the handle.
    pub closed spec fn lock(&self) -> &Lock<T> {
        &self.config
    }
}

impl<T: Default> Config<T> {
    /// Whether the handle was created with a default value of `T`.
    pub open spec fn created_with_default(&self) -> bool {
        exists|value: T| #[trigger] self.created_with(value) && is_default(value)
    }
}

impl<T> Config<T> where
    T: serde::ser::Serialize + serde::de::DeserializeOwned + Default + Clone + Send + Sync,
 {
    /// A handle that holds `config` and has `path` as its origin.
    pub fn new(config: T, path: String) -> (handle: Self)
        ensures
            handle.origin() == Some(path@),
            handle.created_with(config),
    {
        Self { config: lock_new(config), path: Some(path) }
    }

    /// A handle that holds the default value of `T` and has no origin, so that
    /// it cannot be saved.
    pub fn empty() -> (handle: Self)
        ensures
            handle.origin() is None,
            handle.created_with_default(),
    {
        Self::default()
    }

    /// The lock, to read the configuration or to change it. The library itself
    /// never writes through it.
    pub fn get(&self) -> (lock: &Lock<T>)
        ensures
            lock == self.lock(),
    {
        &self.config
    }

    /// A builder for loading a handle from a file. It does not recover from a
    /// failed load unless it is told to.
    pub fn configure() -> (builder: ConfigBuilder<T>)
        ensures
            !builder.recovers(),
    {
        ConfigBuilder { use_default_on_error: false, payload: core::marker::PhantomData }
    }

    /// Encodes the configuration for its file: the text that is to be written
    /// to the origin path, in place of whatever the file holds.
    ///
    /// A handle without origin fails with `ConfigLoadError` and no message. An
    /// origin whose extension names no format fails as [`for_file`] does. In
    /// both cases the lock is not touched. Otherwise the value that the lock
    /// holds at this moment is cloned under a read lock and, the lock released
    /// again, encoded in the format of the origin; a refusal of the codec is a
    /// `SerializationError` with the codec's message.
    pub fn save(&self) -> (outcome: Result<String, Error>)
        ensures
            save_allows(self.lock(), self.origin(), outcome),
    {
        match destination(self.path()) {
            Ok(loader) => {
                let cfg = lock_snapshot(&self.config);
                assert(held(self.lock(), cfg));
                loader.save(&cfg)
            },
            Err(err) => Err(err),
        }
    }

    /// The origin path.
    pub fn path(&self) -> (path: Option<&str>)
        ensures
            path is Some == self.origin() is Some,
            path matches Some(text) ==> Some(text@) == self.origin(),
    {
        match &self.path {
            Some(text) => Some(text.as_str()),
            None => None,
        }
    }
}

impl<T: Default> Default for Config<T> {
    /// A handle that holds the default value of `T` and has no origin, so that
    /// it cannot be saved.
    fn default() -> (handle: Self)
        ensures
            handle.origin() is None,
            handle.created_with_default(),
    {
        let value = T::default();
        let ghost made = value;
        let handle = Self { config: lock_new(value), path: None };
        assert(handle.created_with(made));
        handle
    }
}

/// Where a save goes, given the origin of the handle: to the loader for the
/// origin path. Without an origin there is no destination, which is a
/// `ConfigLoadError` without message.
pub open spec fn destination_for(origin: Option<Seq<char>>) -> Result<
    (Format, Seq<char>),
    ErrorView,
> {
    match origin {
        Some(path) => loader_for(path),
        None => Err(ErrorView::ConfigLoadError(None)),
    }
}

/// What a save of a handle with this lock and this origin can end in. Where
/// there is no destination, it is that error. Where there is one, it is what
/// the answer of the destination's codec is reported as, the codec having been
/// asked to encode a value that the lock gave.
pub open spec fn save_allows<T: serde::ser::Serialize + Clone>(
    lock: &Lock<T>,
    origin: Option<Seq<char>>,
    outcome: Result<String, Error>,
) -> bool {
    match destination_for(origin) {
        Err(error) => outcome matches Err(cause) && cause@ == error,
        Ok(chosen) => exists|value: T| #[trigger]
            held(lock, value) && encoded(chosen.0, &value, outcome),
    }
}

/// The first step of a save, before the value is looked at: picks the loader
/// for the origin path.
pub fn destination(origin: Option<&str>) -> (outcome: Result<Loader, Error>)
    ensures
        loader_view(outcome) == destination_for(text_view(origin)),
{
    match origin {
        Some(path) => for_file(path),
        None => Err(Error::ConfigLoadError(None)),
    }
}

/// Where a load stands. A load starts by resolving the path, which
/// [`ConfigBuilder::resolve`] does; from then on it is in one of these states.
/// All but `Decoding` are final.
#[derive(Debug)]
pub enum LoadState<T> {
    /// The extension named a format: the file is now to be read, and what the
    /// read gave handed to [`ConfigBuilder::decode`] with this loader.
    Decoding(Loader),
    /// The file was read and decoded to this value.
    Succeeded(T),
    /// The load failed with this error, and the builder put the default value
    /// in the place of the file's.
    Recovered(T, Error),
    /// The load failed with this error.
    Failed(Error),
}

/// Whether `state` is what a builder makes of the failure `error`: with
/// recovery the state `Recovered`, with a default value and that error; without
/// it the state `Failed` with that error.
pub open spec fn gave_way<T: Default>(
    recover: bool,
    error: ErrorView,
    state: LoadState<T>,
) -> bool {
    if recover {
        state matches LoadState::Recovered(value, cause) && is_default(value) && cause@ == error
    } else {
        state matches LoadState::Failed(cause) && cause@ == error
    }
}

/// Whether `state` is what a builder makes of the answer to a load: the state
/// `Succeeded` with the value, or what it makes of the failure.
pub open spec fn concluded<T: Default>(
    recover: bool,
    answer: Result<T, ErrorView>,
    state: LoadState<T>,
) -> bool {
    match answer {
        Ok(value) => state == LoadState::Succeeded(value),
        Err(error) => gave_way(recover, error, state),
    }
}

/// Whether `outcome` is a handle for `path` that was created with `value`.
pub open spec fn wrapped<T>(value: T, path: Seq<char>, outcome: Result<Config<T>, Error>) -> bool {
    outcome matches Ok(handle) && handle.origin() == Some(path) && handle.created_with(value)
}

/// Whether `outcome` is what a load makes of the failure `error`: with
/// recovery a handle for `path` that was created with a default value, without
/// it that error.
pub open spec fn yielded<T: Default>(
    recover: bool,
    error: ErrorView,
    path: Seq<char>,
    outcome: Result<Config<T>, Error>,
) -> bool {
    if recover {
        outcome matches Ok(handle) && handle.origin() == Some(path)
            && handle.created_with_default()
    } else {
        outcome matches Err(cause) && cause@ == error
    }
}

/// Whether `outcome` is what a load makes of the answer of the loader: a
/// handle for `path` that was created with the decoded value, or what it
/// makes of the failure.
pub open spec fn finished<T: Default>(
    recover: bool,
    answer: Result<T, Error>,
    path: Seq<char>,
    outcome: Result<Config<T>, Error>,
) -> bool {
    match answer {
        Ok(value) => wrapped(value, path, outcome),
        Err(error) => yielded(recover, error@, path, outcome),
    }
}

/// What a load of `path` can end in, given what reading the file gave.
///
/// Where the extension of the path names no format, the load ends as it makes
/// of the resolver's error, and `read` plays no part. Otherwise it ends as it
/// makes of the answer of the loader for the path to `read`.
pub open spec fn load_allows<T: Default + serde::de::DeserializeOwned>(
    recover: bool,
    path: Seq<char>,
    read: Result<&str, &str>,
    outcome: Result<Config<T>, Error>,
) -> bool {
    match loader_for(path) {
        Err(error) => yielded(recover, error, path, outcome),
        Ok(chosen) => exists|answer: Result<T, Error>| #[trigger]
            loads(chosen.0, read, answer) && finished(recover, answer, path, outcome),
    }
}

impl<T> LoadState<T> {
    /// Whether the load is over: every state but `Decoding` is final.
    pub open spec fn is_final(self) -> bool {
        !(self is Decoding)
    }

    /// What the caller of a load gets in this state: the value or the error;
    /// nothing while the file is still to be read. The error that a recovery
    /// put aside is not part of it.
    pub fn settled(self) -> (outcome: Option<Result<T, Error>>)
        ensures
            outcome is Some <==> self.is_final(),
            outcome == match self {
                LoadState::Decoding(_) => None,
                LoadState::Succeeded(value) => Some(Ok(value)),
                LoadState::Recovered(value, _) => Some(Ok(value)),
                LoadState::Failed(error) => Some(Err(error)),
            },
    {
        match self {
            LoadState::Decoding(_) => None,
            LoadState::Succeeded(value) => Some(Ok(value)),
            LoadState::Recovered(value, _) => Some(Ok(value)),
            LoadState::Failed(error) => Some(Err(error)),
        }
    }
}

/// Loads a configuration file into a handle. A builder comes from
/// [`Config::configure`].
#[verifier::reject_recursive_types(T)]
pub struct ConfigBuilder<T> {
    use_default_on_error: bool,
    payload: core::marker::PhantomData<T>,
}

impl<T> ConfigBuilder<T> where
    T: serde::ser::Serialize + serde::de::DeserializeOwned + Default + Clone + Send + Sync,
 {
    /// Whether a failed load gives a handle with the default value in place of
    /// the error.
    pub closed spec fn recovers(&self) -> bool {
        self.use_default_on_error
    }

    /// From now on a failed load gives a handle that holds the default value
    /// of `T`, and no error.
    pub fn use_default_on_error(&mut self) -> (builder: &mut Self)
        ensures
            builder.recovers(),
            *final(self) == *final(builder),
    {
        self.use_default_on_error = true;
        self
    }

    /// What becomes of a load that failed with `err`: the error itself, or,
    /// where the builder recovers, the default value of `T`.
    pub fn handle_load_err(&self, err: Error) -> (state: LoadState<T>)
        ensures
            gave_way(self.recovers(), err@, state),
    {
        if !self.use_default_on_error {
            return LoadState::Failed(err);
        }
        LoadState::Recovered(T::default(), err)
    }

    /// The first step of a load: resolves the loader for `path` from the
    /// path's extension. No file is touched.
    pub fn resolve(&self, path: &str) -> (state: LoadState<T>)
        ensures
            match loader_for(path@) {
                Ok(loader) => state matches LoadState::Decoding(chosen) && chosen@ == loader,
                Err(error) => gave_way(self.recovers(), error, state),
            },
    {
        match for_file(path) {
            Ok(loader) => LoadState::Decoding(loader),
            Err(err) => self.handle_load_err(err),
        }
    }

    /// What becomes of a load once the codec has answered: the decoded value,
    /// or what the builder makes of the failure.
    pub fn conclude(&self, answer: Result<T, Error>) -> (state: LoadState<T>)
        ensures
            concluded(self.recovers(), outcome_view(answer), state),
    {
        match answer {
            Ok(value) => LoadState::Succeeded(value),
            Err(err) => self.handle_load_err(err),
        }
    }

    /// The second step of a load: decodes, with `loader`, what reading the
    /// file gave.
    ///
    /// A failed read ends the load as the builder makes of a
    /// `SerializationError` with the reader's message. Otherwise the codec
    /// decides: the load succeeds with the decoded value, or ends as the
    /// builder makes of the codec's rejection.
    pub fn decode(&self, loader: &Loader, read: Result<&str, &str>) -> (state: LoadState<T>)
        ensures
            state.is_final(),
            exists|answer: Result<T, Error>| #[trigger]
                loads(loader@.0, read, answer) && concluded(
                    self.recovers(),
                    outcome_view(answer),
                    state,
                ),
    {
        let answer = loader.load(read);
        let ghost seen = answer;
        let state = self.conclude(answer);
        assert(loads(loader@.0, read, seen));
        state
    }

    /// Loads the configuration that the file at `path` holds, given what
    /// reading that file gave: its text, or the reader's message.
    ///
    /// The path's extension picks the codec; an extension that names none
    /// fails the load before `read` is looked at. A failed read fails it with
    /// the reader's message, and a text that the codec rejects with the
    /// codec's. A builder that recovers turns each of these failures into a
    /// handle that holds the default value of `T`. Every handle has `path` as
    /// its origin, so that it can be saved to where it was loaded from.
    pub fn load(&mut self, path: &str, read: Result<&str, &str>) -> (outcome: Result<
        Config<T>,
        Error,
    >)
        ensures
            *final(self) == *old(self),
            load_allows(old(self).recovers(), path@, read, outcome),
    {
        let state = match self.resolve(path) {
            LoadState::Decoding(loader) => self.decode(&loader, read),
            state => state,
        };
        match state {
            LoadState::Succeeded(value) => Ok(Config::new(value, String::from_str(path))),
            LoadState::Recovered(value, _) => Ok(Config::new(value, String::from_str(path))),
            LoadState::Failed(err) => Err(err),
            LoadState::Decoding(_) => unreached(),
        }
    }
}

} // verus!
