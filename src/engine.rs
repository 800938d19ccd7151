//! The calls into SQLite, through rusqlite, and into the r2d2 connection pool.
//! Each function here makes one call and converts its arguments and result;
//! what SQLite does with a statement is SQLite's, and nothing here claims it.
use crate::versions::{Stamp, Version};
use vstd::prelude::*;

verus! {

#[verifier::external_type_specification]
#[verifier::external_body]
pub struct ExSqliteError(rusqlite::Error);

#[verifier::external_type_specification]
#[verifier::external_body]
pub struct ExPoolError(r2d2::Error);

/// A pool of SQLite connections. Verus refuses to declare r2d2's pool types,
/// whose parameter is bound by r2d2's `ManageConnection`, so the pool is
/// held in a field that Verus does not see.
#[verifier::external_body]
pub struct SqlitePool {
    pool: r2d2::Pool<r2d2_sqlite::SqliteConnectionManager>,
}

/// A connection checked out of a [`SqlitePool`]; it goes back to the pool
/// when dropped.
#[verifier::external_body]
pub struct PooledSqlite {
    conn: r2d2::PooledConnection<r2d2_sqlite::SqliteConnectionManager>,
}

/// Relies on `r2d2_sqlite::SqliteConnectionManager::memory` and
/// `r2d2::Pool::new`: a pool over one private in-memory database, shared by
/// the pool's connections.
#[verifier::external_body]
pub(crate) fn pool_in_memory() -> (r: Result<SqlitePool, r2d2::Error>) {
    r2d2::Pool::new(r2d2_sqlite::SqliteConnectionManager::memory()).map(|pool| SqlitePool { pool })
}

/// Relies on `r2d2_sqlite::SqliteConnectionManager::file` and
/// `r2d2::Pool::new`: a pool over the database file at `path`.
#[verifier::external_body]
pub(crate) fn pool_on_file(path: &std::path::Path) -> (r: Result<SqlitePool, r2d2::Error>) {
    r2d2::Pool::new(r2d2_sqlite::SqliteConnectionManager::file(path)).map(|pool| SqlitePool { pool })
}

/// Relies on `r2d2::Pool::get`: waits for a free connection, for at most the
/// pool's connection timeout.
#[verifier::external_body]
pub(crate) fn checkout(pool: &SqlitePool) -> (r: Result<PooledSqlite, r2d2::Error>) {
    pool.pool.get().map(|conn| PooledSqlite { conn })
}

/// Relies on `rusqlite::Connection::execute_batch`: runs statements that
/// take no parameter.
#[verifier::external_body]
pub(crate) fn execute_batch(c: &PooledSqlite, sql: &str) -> (r: Result<(), rusqlite::Error>)
    opens_invariants none
    no_unwind
{
    c.conn.execute_batch(sql)
}

/// Relies on `rusqlite::Connection::execute`: runs one statement with the
/// integer parameters bound first, then the blobs, in order; the number of rows it changed.
#[verifier::external_body]
pub(crate) fn execute(c: &PooledSqlite, sql: &str, ints: &[i64], blobs: &[&[u8]]) -> (r: Result<usize, rusqlite::Error>) {
    c.conn.execute(sql, rusqlite::params_from_iter(ints.iter().map(|i| i as &dyn rusqlite::ToSql).chain(blobs.iter().map(|b| b as &dyn rusqlite::ToSql))))
}

/// Relies on `rusqlite::Connection::query_row`: with `key` bound as a blob,
/// the first column of the first row, read as an `i64`.
#[verifier::external_body]
pub(crate) fn query_integer(c: &PooledSqlite, sql: &str, key: &[u8]) -> (r: Result<i64, rusqlite::Error>) {
    c.conn.query_row(sql, [key], |row| row.get(0))
}

/// Relies on `rusqlite::Connection::query_row`: the first column of the first
/// row, read as a count; rusqlite fails on a negative one.
#[verifier::external_body]
pub(crate) fn query_count(c: &PooledSqlite, sql: &str) -> (r: Result<u64, rusqlite::Error>) {
    c.conn.query_row(sql, [], |row| row.get(0))
}

/// Relies on `rusqlite::Connection::query_row` and
/// `rusqlite::OptionalExtension::optional`: the first column of the first
/// row, read as a blob, or `None` where there is no row; `key` is bound as a
/// blob.
#[verifier::external_body]
pub(crate) fn query_optional_blob(c: &PooledSqlite, sql: &str, key: &[u8]) -> (r: Result<Option<Vec<u8>>, rusqlite::Error>) {
    rusqlite::OptionalExtension::optional(
        c.conn.query_row(sql, [key], |row| row.get(0)),
    )
}

/// Relies on `rusqlite::Statement::query_map`: the first column of every row,
/// read as a blob.
#[verifier::external_body]
pub(crate) fn query_blobs(c: &PooledSqlite, sql: &str) -> (r: Result<Vec<Vec<u8>>, rusqlite::Error>) {
    let mut statement = c.conn.prepare(sql)?;
    let rows = statement.query_map([], |row| row.get(0))?;
    rows.collect()
}

/// Relies on `rusqlite::Statement::query_map`: every row as a version, from
/// the columns id, key id, insertion time in milliseconds and value; `key` is
/// bound as a blob.
#[verifier::external_body]
pub(crate) fn query_versions(c: &PooledSqlite, sql: &str, key: &[u8]) -> (r: Result<Vec<Version>, rusqlite::Error>) {
    let mut statement = c.conn.prepare(sql)?;
    let rows = statement.query_map([key], |row| {
        Ok(Version {
            stamp: Stamp { id: row.get(0)?, key_id: row.get(1)?, inserted_at: row.get(2)? },
            value: row.get(3)?,
        })
    })?;
    rows.collect()
}

/// Relies on `rusqlite::Statement::query_map`: every row as a stamp, from the
/// columns id, key id and insertion time in milliseconds.
#[verifier::external_body]
pub(crate) fn query_stamps(c: &PooledSqlite, sql: &str) -> (r: Result<Vec<Stamp>, rusqlite::Error>) {
    let mut statement = c.conn.prepare(sql)?;
    let rows = statement.query_map([], |row| {
        Ok(Stamp { id: row.get(0)?, key_id: row.get(1)?, inserted_at: row.get(2)? })
    })?;
    rows.collect()
}

} // verus!
