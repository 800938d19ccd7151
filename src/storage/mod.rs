//! The two storage strategies and the contract they share.
use crate::engine::{pool_in_memory, pool_on_file, SqlitePool};
use crate::{location, pool, DbError, Location, Options, DEFAULT_DB_FILE};
use std::path::Path;
use vstd::prelude::*;

pub mod append;
pub mod update_in_place;

verus! {

/// Marks the strategies of this crate; only they implement [`Storage`].
pub trait Sealed {}

/// A way of keeping key-value pairs in SQLite.
pub trait Storage: Sealed + Sized {
    /// Opens the database that `options` select and creates the schema where
    /// it is missing.
    fn open(options: Options) -> (r: Result<Self, DbError>)
        ensures
            r matches Err(e) ==> e is Sqlite || e is Pool;

    /// The current value of `key`, or `None` where the key is not stored.
    fn read(&self, key: &[u8]) -> (r: Result<Option<String>, DbError>)
        ensures
            r matches Err(e) ==> !(e is Serialization);

    /// Stores `value` under `key`.
    fn write(&self, key: &[u8], value: &str) -> (r: Result<(), DbError>)
        ensures
            r matches Err(e) ==> e is Sqlite || e is Pool;

    /// The stored bytes of `key`'s current value, not decoded.
    fn read_encoded(&self, key: &[u8]) -> (r: Result<Option<Vec<u8>>, DbError>)
        ensures
            r matches Err(e) ==> e is Sqlite || e is Pool;

    /// Stores bytes that are already encoded as `key`'s value.
    fn write_encoded(&self, key: &[u8], bytes: &[u8]) -> (r: Result<(), DbError>)
        ensures
            r matches Err(e) ==> e is Sqlite || e is Pool;

    /// Removes `key` and its value; removing an absent key succeeds.
    fn delete(&self, key: &[u8]) -> (r: Result<(), DbError>)
        ensures
            r matches Err(e) ==> e is Sqlite || e is Pool;

    /// Every stored key, in no particular order.
    fn keys(&self) -> (r: Result<Vec<Vec<u8>>, DbError>)
        ensures
            r matches Err(e) ==> e is Sqlite || e is Pool;

    /// The number of stored keys.
    fn keys_count(&self) -> (r: Result<u64, DbError>)
        ensures
            r matches Err(e) ==> e is Sqlite || e is Pool;
}

/// Relies on `std::path::Path::new`: the text as a path.
#[verifier::external_body]
fn path_of(s: &'static str) -> (r: &'static Path) {
    Path::new(s)
}

/// The connection pool over the database that `options` select.
pub(crate) fn open_pool(options: &Options) -> (r: Result<SqlitePool, DbError>)
    ensures
        r matches Err(e) ==> e is Pool,
{
    match location(options) {
        Location::Memory => pool(pool_in_memory()),
        Location::File(p) => pool(pool_on_file(p)),
        Location::DefaultFile => pool(pool_on_file(path_of(DEFAULT_DB_FILE))),
    }
}

} // verus!
