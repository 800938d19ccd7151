//! Overwrite-in-place storage: one row per key, replaced on every write.
use super::{open_pool, Sealed, Storage};
use crate::codec::{decode, encode, text_of_cbor};
use crate::engine::{checkout, execute, query_blobs, query_count, query_optional_blob, SqlitePool, PooledSqlite};
use crate::guard::{plain, Statement, Transaction, COMMIT};
use crate::{pool, sqlite, DbError, Options};
use vstd::prelude::*;

verus! {

/// Keeps one row per key in the `kvs` table; a write replaces the value.
pub struct UpdateInPlace {
    pool: SqlitePool,
}

impl Sealed for UpdateInPlace {}

/// The stored value of a key, decoded: `None` where there is no row.
pub fn decode_stored(row: Option<Vec<u8>>) -> (r: Result<Option<String>, DbError>)
    ensures
        row is None ==> r matches Ok(None),
        row matches Some(b) ==> {
            &&& (r is Ok <==> text_of_cbor(b@) is Some)
            &&& (r matches Ok(v) ==> v matches Some(s) && text_of_cbor(b@) == Some(s@))
            &&& (r matches Err(e) ==> e is Deserialization)
        },
{
    match row {
        None => Ok(None),
        Some(b) => match decode(b.as_slice()) {
            Ok(s) => Ok(Some(s)),
            Err(e) => Err(e),
        },
    }
}

impl UpdateInPlace {
    fn connect(&self) -> (r: Result<PooledSqlite, DbError>)
        ensures
            r matches Err(e) ==> e is Pool,
    {
        pool(checkout(&self.pool))
    }
}

pub const SCHEMA: &'static str = "create table if not exists kvs (
        key blob not null primary key,
        value blob not null,
        inserted_at datetime not null default(strftime('%Y-%m-%d %H:%M:%f', 'now')),
        updated_at datetime not null default(strftime('%Y-%m-%d %H:%M:%f', 'now'))
    )";

/// Inserts the row of a key, or overwrites the value of the row it has.
pub const UPSERT_ROW: &'static str = "insert into kvs (key, value) values (?1, ?2)
    on conflict(key) do update set
        value = excluded.value,
        updated_at = strftime('%Y-%m-%d %H:%M:%f', 'now')";

/// The statement that stores `value` as the value of `key`.
pub open spec fn upsert_row(key: Seq<u8>, value: Seq<u8>) -> Statement {
    (UPSERT_ROW@, Seq::empty(), seq![key, value])
}

/// One write inside an open transaction: the upsert of the key's row with
/// the encoded value, then the commit. On an error the transaction is left
/// open, for its drop to roll back.
pub fn write_row_in(tx: &mut Transaction, key: &[u8], bytes: &[u8]) -> (r: Result<(), DbError>)
    requires
        old(tx).is_open(),
    ensures
        r matches Err(e) ==> e is Sqlite && final(tx).is_open(),
        r is Ok ==> !final(tx).is_open()
            && final(tx).log() == old(tx).log().push(upsert_row(key@, bytes@)).push(plain(COMMIT@)),
{
    let no_ints: [i64; 0] = [];
    let params: [&[u8]; 2] = [key, bytes];
    sqlite(tx.execute(UPSERT_ROW, &no_ints, &params))?;
    assert(params@.map_values(|b: &[u8]| b@) =~= seq![key@, bytes@]);
    assert(no_ints@ =~= Seq::<i64>::empty());
    sqlite(tx.commit())?;
    Ok(())
}

impl Storage for UpdateInPlace {
    fn open(options: Options) -> (r: Result<Self, DbError>) {
        let shared = open_pool(&options)?;
        let conn = pool(checkout(&shared))?;
        let mut tx = sqlite(Transaction::begin_immediate(conn))?;
        sqlite(tx.execute_batch(SCHEMA))?;
        sqlite(tx.commit())?;
        Ok(UpdateInPlace { pool: shared })
    }

    fn read(&self, key: &[u8]) -> (r: Result<Option<String>, DbError>) {
        let row = self.read_encoded(key)?;
        decode_stored(row)
    }

    fn write(&self, key: &[u8], value: &str) -> (r: Result<(), DbError>) {
        let bytes = encode(value)?;
        self.write_encoded(key, bytes.as_slice())
    }

    fn read_encoded(&self, key: &[u8]) -> (r: Result<Option<Vec<u8>>, DbError>) {
        let conn = self.connect()?;
        sqlite(query_optional_blob(&conn, "select value from kvs where key = ?1", key))
    }

    fn write_encoded(&self, key: &[u8], bytes: &[u8]) -> (r: Result<(), DbError>) {
        let conn = self.connect()?;
        let mut tx = sqlite(Transaction::begin_immediate(conn))?;
        write_row_in(&mut tx, key, bytes)
    }

    fn delete(&self, key: &[u8]) -> (r: Result<(), DbError>) {
        let conn = self.connect()?;
        sqlite(execute(&conn, "delete from kvs where key = ?1", &[], &[key]))?;
        Ok(())
    }

    fn keys(&self) -> (r: Result<Vec<Vec<u8>>, DbError>) {
        let conn = self.connect()?;
        sqlite(query_blobs(&conn, "select key from kvs"))
    }

    fn keys_count(&self) -> (r: Result<u64, DbError>) {
        let conn = self.connect()?;
        sqlite(query_count(&conn, "select count(*) from kvs"))
    }
}

} // verus!
