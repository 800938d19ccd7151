//! A typed key-value store on top of SQLite, with an overwrite-in-place
//! strategy and an append-only, versioned strategy.
use std::marker::PhantomData;
use std::path::{Path, PathBuf};
use vstd::prelude::*;

pub mod codec;
pub mod engine;
pub mod guard;
pub mod storage;
pub mod versions;

pub use storage::append::Append;
pub use storage::update_in_place::UpdateInPlace;
pub use storage::{Sealed, Storage};

verus! {

#[verifier::external_type_specification]
#[verifier::external_body]
pub struct ExPath(std::path::Path);

#[verifier::external_type_specification]
#[verifier::external_body]
pub struct ExPathBuf(std::path::PathBuf);

/// What an operation of the store can fail with.
#[derive(Debug)]
pub enum DbError {
    /// SQLite refused or failed a statement, a transaction or a connection.
    Sqlite(rusqlite::Error),
    /// No pooled connection became free in time, or the pool could not be
    /// built.
    Pool(r2d2::Error),
    /// A value could not be encoded.
    Serialization(ciborium::ser::Error<std::io::Error>),
    /// A stored value could not be decoded.
    Deserialization(ciborium::de::Error<std::io::Error>),
}

/// Carries a SQLite failure over as a [`DbError::Sqlite`].
pub(crate) fn sqlite<T>(r: Result<T, rusqlite::Error>) -> (out: Result<T, DbError>)
    ensures
        r is Ok <==> out is Ok,
        r matches Ok(v) ==> out == Ok::<T, DbError>(v),
        out matches Err(e) ==> e is Sqlite,
{
    match r {
        Ok(v) => Ok(v),
        Err(e) => Err(DbError::Sqlite(e)),
    }
}

/// Carries a pool failure over as a [`DbError::Pool`].
pub(crate) fn pool<T>(r: Result<T, r2d2::Error>) -> (out: Result<T, DbError>)
    ensures
        r is Ok <==> out is Ok,
        r matches Ok(v) ==> out == Ok::<T, DbError>(v),
        out matches Err(e) ==> e is Pool,
{
    match r {
        Ok(v) => Ok(v),
        Err(e) => Err(DbError::Pool(e)),
    }
}

/// The file a file-backed store opens where no path was given.
pub const DEFAULT_DB_FILE: &'static str = "kvqlite.db";

/// How to open a store: in memory, or on a file.
pub struct Options {
    pub in_memory: bool,
    pub db_path: Option<PathBuf>,
}

impl Default for Options {
    /// A file-backed store on the default file.
    fn default() -> (r: Options)
        ensures
            !r.in_memory,
            r.db_path is None,
    {
        Options { in_memory: false, db_path: None }
    }
}

/// Where a store keeps its data.
pub enum Location<'a> {
    Memory,
    File(&'a Path),
    DefaultFile,
}

/// Where the store that `options` describe keeps its data: in memory where
/// asked, else on the given file, else on [`DEFAULT_DB_FILE`].
pub fn location(options: &Options) -> (r: Location<'_>)
    ensures
        options.in_memory <==> r is Memory,
        !options.in_memory && options.db_path is None <==> r is DefaultFile,
{
    if options.in_memory {
        Location::Memory
    } else {
        match &options.db_path {
            Some(p) => Location::File(as_path(p)),
            None => Location::DefaultFile,
        }
    }
}

/// Relies on `std::path::PathBuf::as_path`: the path that the buffer holds.
#[verifier::external_body]
fn as_path(p: &PathBuf) -> (r: &Path) {
    p.as_path()
}

/// Relies on `std::path::Path::to_path_buf`: an owned copy of the path.
#[verifier::external_body]
fn owned_path(p: &Path) -> (r: PathBuf) {
    p.to_path_buf()
}

/// A key-value store that keeps its data with strategy `T`.
#[derive(Debug)]
pub struct Db<T: Storage> {
    storage: T,
}

impl<T: Storage> Db<T> {
    /// Opens the default file-backed store, overwriting values in place.
    pub fn new() -> (r: Result<Db<UpdateInPlace>, DbError>)
        ensures
            r matches Err(e) ==> e is Sqlite || e is Pool,
    {
        Db::<UpdateInPlace>::builder().finish()
    }

    /// Configuration for a store, starting from the defaults.
    pub fn builder() -> (r: Builder<T>)
        ensures
            !r.spec_options().in_memory,
            r.spec_options().db_path is None,
    {
        Builder { options: Options::default(), storage: PhantomData }
    }

    /// Stores `value` under `key`.
    pub fn write(&self, key: &[u8], value: &str) -> (r: Result<(), DbError>)
        ensures
            r matches Err(e) ==> e is Sqlite || e is Pool,
    {
        self.storage.write(key, value)
    }

    /// The current value of `key`, or `None` where it is not stored.
    pub fn read(&self, key: &[u8]) -> (r: Result<Option<String>, DbError>)
        ensures
            r matches Err(e) ==> !(e is Serialization),
    {
        self.storage.read(key)
    }

    /// The stored bytes of `key`'s current value, not decoded, or `None`
    /// where it is not stored.
    pub fn read_encoded(&self, key: &[u8]) -> (r: Result<Option<Vec<u8>>, DbError>)
        ensures
            r matches Err(e) ==> e is Sqlite || e is Pool,
    {
        self.storage.read_encoded(key)
    }

    /// Stores bytes that are already encoded as `key`'s value.
    pub fn write_encoded(&self, key: &[u8], bytes: &[u8]) -> (r: Result<(), DbError>)
        ensures
            r matches Err(e) ==> e is Sqlite || e is Pool,
    {
        self.storage.write_encoded(key, bytes)
    }

    /// Removes `key`; removing an absent key succeeds.
    pub fn delete(&self, key: &[u8]) -> (r: Result<(), DbError>)
        ensures
            r matches Err(e) ==> e is Sqlite || e is Pool,
    {
        self.storage.delete(key)
    }

    /// Every stored key, in no particular order.
    pub fn keys(&self) -> (r: Result<Vec<Vec<u8>>, DbError>)
        ensures
            r matches Err(e) ==> e is Sqlite || e is Pool,
    {
        self.storage.keys()
    }

    /// The number of stored keys.
    pub fn keys_count(&self) -> (r: Result<u64, DbError>)
        ensures
            r matches Err(e) ==> e is Sqlite || e is Pool,
    {
        self.storage.keys_count()
    }
}

impl Db<Append> {
    /// Keeps, of every key, only its current value entry, and discards the
    /// older ones; all or nothing.
    pub fn collect_garbage(&self) -> (r: Result<(), DbError>)
        ensures
            r matches Err(e) ==> e is Sqlite || e is Pool,
    {
        self.storage.collect_garbage()
    }

    /// The number of value entries over all keys, older versions included.
    pub fn entries_count(&self) -> (r: Result<u64, DbError>)
        ensures
            r matches Err(e) ==> e is Sqlite || e is Pool,
    {
        self.storage.entries_count()
    }
}

/// Configuration of a store with strategy `T`.
pub struct Builder<T> {
    options: Options,
    storage: PhantomData<T>,
}

impl<T> Builder<T> {
    /// The options that the store will be opened with.
    pub closed spec fn spec_options(&self) -> Options {
        self.options
    }

    /// Opens the store.
    pub fn finish(self) -> (r: Result<Db<T>, DbError>)
        where T: Storage,
        ensures
            r matches Err(e) ==> e is Sqlite || e is Pool,
    {
        match T::open(self.options) {
            Ok(storage) => Ok(Db { storage }),
            Err(e) => Err(e),
        }
    }

    /// Keeps the data in memory; it is gone when the store is dropped.
    pub fn in_memory(self) -> (r: Self)
        ensures
            r.spec_options().in_memory,
            r.spec_options().db_path == self.spec_options().db_path,
    {
        let mut b = self;
        b.options.in_memory = true;
        b
    }

    /// Keeps the data on the file at `path`, unless kept in memory.
    pub fn with_db_path(self, path: &Path) -> (r: Self)
        ensures
            r.spec_options().in_memory == self.spec_options().in_memory,
            r.spec_options().db_path is Some,
    {
        let mut b = self;
        b.options.db_path = Some(owned_path(path));
        b
    }
}

} // verus!
