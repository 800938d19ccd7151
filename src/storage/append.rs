//! Append-only storage: every write adds a version; reads resolve to the
//! version written last.
use super::{open_pool, Sealed, Storage};
use crate::codec::{cbor_of_text, decode, encode, text_of_cbor};
use crate::engine::{
    checkout, execute, execute_batch, query_blobs, query_count, query_versions, PooledSqlite,
    SqlitePool,
};
use crate::guard::{plain, Statement, Transaction, COMMIT};
use crate::versions::{garbage, is_newest, is_stale, latest_version, stamps_of, Stamp, Version};
use crate::{pool, sqlite, DbError, Options};
use vstd::prelude::*;

verus! {

/// Keeps one row per key in `keys` and one row per write in `vvalues`;
/// deleting a key cascades to its values.
pub struct Append {
    pool: SqlitePool,
}

impl Sealed for Append {}

/// The value a read resolves to, given every stored version of the key:
/// `None` where there is none, else the decoded value of the version
/// written last.
pub fn current_value(versions: &Vec<Version>) -> (r: Result<Option<String>, DbError>)
    ensures
        versions@.len() == 0 <==> r matches Ok(None),
        versions@.len() > 0 ==> exists|i: int| #[trigger] is_newest(stamps_of(versions@), i) && {
            let b = versions@[i].value@;
            &&& (r is Ok <==> text_of_cbor(b) is Some)
            &&& (r matches Ok(v) ==> v matches Some(s) && text_of_cbor(b) == Some(s@))
            &&& (forall|t: Seq<char>| #[trigger] cbor_of_text(t) == b ==> (r matches Ok(Some(s)) && s@ == t))
            &&& (r matches Err(e) ==> e is Deserialization)
        },
{
    match latest_version(versions) {
        None => Ok(None),
        Some(i) => {
            let r = decode(versions[i].value.as_slice());
            assert(is_newest(stamps_of(versions@), i as int));
            match r {
                Ok(s) => Ok(Some(s)),
                Err(e) => Err(e),
            }
        },
    }
}

pub const FOREIGN_KEYS_ON: &'static str = "PRAGMA foreign_keys = ON;";

pub const SCHEMA: &'static str = "create table if not exists keys (
        id integer primary key,
        key blob not null,
        inserted_at datetime not null default(strftime('%Y-%m-%d %H:%M:%f', 'now'))
    );
    create table if not exists vvalues (
        id integer primary key,
        key_id integer not null,
        value blob not null,
        inserted_at datetime not null default(strftime('%Y-%m-%d %H:%M:%f', 'now')),
        foreign key(key_id) references keys(id) on delete cascade
    );
    create unique index if not exists keys_key on keys (key);
    create index if not exists vvalues_inserted_at on vvalues (inserted_at);
    create index if not exists vvalues_key_id on vvalues (key_id);";

/// Inserts the key entry where it is missing; either way yields its id.
pub const UPSERT_KEY: &'static str = "insert into keys (key) values (?1)
    on conflict(key) do update set key = excluded.key
    returning id";

pub const INSERT_VALUE: &'static str = "insert into vvalues (key_id, value) values (?1, ?2)";

/// Every value entry's id, key id and insertion time in milliseconds.
pub const SELECT_STAMPS: &'static str = "select id, key_id,
        cast(strftime('%s', inserted_at) as integer) * 1000
            + cast(substr(inserted_at, 21, 3) as integer)
    from vvalues";

pub const DELETE_VALUE: &'static str = "delete from vvalues where id = ?1";

/// The statement that upserts the key entry of `key`.
pub open spec fn upsert_key(key: Seq<u8>) -> Statement {
    (UPSERT_KEY@, Seq::empty(), seq![key])
}

/// The statement that adds a value entry for key entry `key_id`.
pub open spec fn insert_value(key_id: i64, value: Seq<u8>) -> Statement {
    (INSERT_VALUE@, seq![key_id], seq![value])
}

/// The statement that deletes value entry `id`.
pub open spec fn delete_value(id: i64) -> Statement {
    (DELETE_VALUE@, seq![id], Seq::empty())
}

/// The statements that delete the value entries `ids`, in order.
pub open spec fn delete_values(ids: Seq<i64>) -> Seq<Statement> {
    ids.map_values(|id: i64| delete_value(id))
}

/// `ids` holds exactly the ids of the stale entries of `stamps`.
pub open spec fn garbage_of(stamps: Seq<Stamp>, ids: Seq<i64>) -> bool {
    forall|x: i64| ids.contains(x) <==> exists|i: int| 0 <= i < stamps.len() && (#[trigger] stamps[i]).id == x && is_stale(stamps, i)
}

/// One write inside an open transaction: upserts the key entry, adds a value
/// entry with the encoded value under the key entry's id, and commits. On an
/// error the transaction is left open, for its drop to roll back.
pub fn write_in(tx: &mut Transaction, key: &[u8], bytes: &[u8]) -> (r: Result<(), DbError>)
    requires
        old(tx).is_open(),
    ensures
        r matches Err(e) ==> e is Sqlite && final(tx).is_open(),
        r is Ok ==> !final(tx).is_open() && exists|key_id: i64|
            final(tx).log() == #[trigger] old(tx).log().push(upsert_key(key@)).push(insert_value(key_id, bytes@)).push(plain(COMMIT@)),
{
    let key_id = sqlite(tx.query_integer(UPSERT_KEY, key))?;
    let params: [&[u8]; 1] = [bytes];
    sqlite(tx.execute(INSERT_VALUE, &[key_id], &params))?;
    assert(params@.map_values(|b: &[u8]| b@) =~= seq![bytes@]);
    assert(seq![key_id] =~= [key_id]@);
    sqlite(tx.commit())?;
    assert(tx.log() == old(tx).log().push(upsert_key(key@)).push(insert_value(key_id, bytes@)).push(plain(COMMIT@)));
    Ok(())
}

/// Deletes the value entries `ids` inside an open transaction, in order.
/// On an error the transaction is left open.
pub fn delete_values_in(tx: &mut Transaction, ids: &Vec<i64>) -> (r: Result<(), DbError>)
    requires
        old(tx).is_open(),
    ensures
        final(tx).is_open(),
        r matches Err(e) ==> e is Sqlite,
        r is Ok ==> final(tx).log() == old(tx).log() + delete_values(ids@),
{
    let mut i: usize = 0;
    while i < ids.len()
        invariant
            i <= ids@.len(),
            tx.is_open(),
            tx.log() == old(tx).log() + delete_values(ids@.take(i as int)),
        decreases ids@.len() - i,
    {
        let one: [i64; 1] = [ids[i]];
        let no_blobs: [&[u8]; 0] = [];
        sqlite(tx.execute(DELETE_VALUE, &one, &no_blobs))?;
        assert(no_blobs@.map_values(|b: &[u8]| b@) =~= Seq::<Seq<u8>>::empty());
        assert(one@ =~= seq![ids@[i as int]]);
        assert(delete_values(ids@.take(i + 1)) =~= delete_values(ids@.take(i as int)).push(delete_value(ids@[i as int])));
        i = i + 1;
    }
    assert(ids@.take(ids@.len() as int) =~= ids@);
    Ok(())
}

/// Garbage collection inside an open transaction: reads every value entry's
/// stamp, deletes exactly the stale entries, and commits. On an error the
/// transaction is left open, for its drop to roll back.
pub fn collect_garbage_in(tx: &mut Transaction) -> (r: Result<(), DbError>)
    requires
        old(tx).is_open(),
    ensures
        r matches Err(e) ==> e is Sqlite && final(tx).is_open(),
        r is Ok ==> !final(tx).is_open() && exists|stamps: Seq<Stamp>, ids: Seq<i64>|
            #[trigger] garbage_of(stamps, ids)
            && final(tx).log() == old(tx).log().push(plain(SELECT_STAMPS@)) + delete_values(ids) + seq![plain(COMMIT@)],
{
    let stamps = sqlite(tx.query_stamps(SELECT_STAMPS))?;
    let stale = garbage(&stamps);
    delete_values_in(tx, &stale)?;
    sqlite(tx.commit())?;
    assert(garbage_of(stamps@, stale@));
    assert(tx.log() == old(tx).log().push(plain(SELECT_STAMPS@)) + delete_values(stale@) + seq![plain(COMMIT@)]);
    Ok(())
}

/// The bytes a read resolves to, given every stored version of the key:
/// `None` where there is none, else the value of the version written last.
pub fn current_bytes(versions: Vec<Version>) -> (r: Option<Vec<u8>>)
    ensures
        versions@.len() == 0 <==> r is None,
        r matches Some(b) ==> exists|i: int| #[trigger] is_newest(stamps_of(versions@), i) && b@ == versions@[i].value@,
{
    match latest_version(&versions) {
        None => None,
        Some(i) => {
            let ghost vs = versions@;
            let mut rest = versions;
            let v = rest.remove(i);
            assert(is_newest(stamps_of(vs), i as int));
            Some(v.value)
        },
    }
}

impl Append {
    /// A pooled connection that enforces foreign keys, so that deleting a
    /// key deletes its values.
    fn connect(&self) -> (r: Result<PooledSqlite, DbError>)
        ensures
            r matches Err(e) ==> e is Sqlite || e is Pool,
    {
        let conn = pool(checkout(&self.pool))?;
        sqlite(execute_batch(&conn, FOREIGN_KEYS_ON))?;
        Ok(conn)
    }

    /// Every stored version of `key`.
    fn versions(&self, key: &[u8]) -> (r: Result<Vec<Version>, DbError>)
        ensures
            r matches Err(e) ==> e is Sqlite || e is Pool,
    {
        let conn = self.connect()?;
        sqlite(
            query_versions(
                &conn,
                "select vvalues.id, vvalues.key_id,
                    cast(strftime('%s', vvalues.inserted_at) as integer) * 1000
                        + cast(substr(vvalues.inserted_at, 21, 3) as integer),
                    vvalues.value
                from keys
                inner join vvalues on vvalues.key_id = keys.id
                where keys.key = ?1",
                key,
            ),
        )
    }

    /// Keeps, of every key, only the value entry written last, and deletes
    /// the others inside one immediate transaction: all or nothing.
    pub fn collect_garbage(&self) -> (r: Result<(), DbError>)
        ensures
            r matches Err(e) ==> e is Sqlite || e is Pool,
    {
        let conn = self.connect()?;
        let mut tx = sqlite(Transaction::begin_immediate(conn))?;
        collect_garbage_in(&mut tx)
    }

    /// The number of value entries over all keys.
    pub fn entries_count(&self) -> (r: Result<u64, DbError>)
        ensures
            r matches Err(e) ==> e is Sqlite || e is Pool,
    {
        let conn = self.connect()?;
        sqlite(query_count(&conn, "select count(*) from vvalues"))
    }
}

impl Storage for Append {
    fn open(options: Options) -> (r: Result<Self, DbError>) {
        let shared = open_pool(&options)?;
        let conn = pool(checkout(&shared))?;
        sqlite(execute_batch(&conn, FOREIGN_KEYS_ON))?;
        let mut tx = sqlite(Transaction::begin_immediate(conn))?;
        sqlite(tx.execute_batch(SCHEMA))?;
        sqlite(tx.commit())?;
        Ok(Append { pool: shared })
    }

    fn read(&self, key: &[u8]) -> (r: Result<Option<String>, DbError>) {
        let versions = self.versions(key)?;
        current_value(&versions)
    }

    fn write(&self, key: &[u8], value: &str) -> (r: Result<(), DbError>) {
        let bytes = encode(value)?;
        self.write_encoded(key, bytes.as_slice())
    }

    fn read_encoded(&self, key: &[u8]) -> (r: Result<Option<Vec<u8>>, DbError>) {
        let versions = self.versions(key)?;
        Ok(current_bytes(versions))
    }

    fn write_encoded(&self, key: &[u8], bytes: &[u8]) -> (r: Result<(), DbError>) {
        let conn = self.connect()?;
        let mut tx = sqlite(Transaction::begin_immediate(conn))?;
        write_in(&mut tx, key, bytes)
    }

    fn delete(&self, key: &[u8]) -> (r: Result<(), DbError>) {
        let conn = self.connect()?;
        sqlite(execute(&conn, "delete from keys where key = ?1", &[], &[key]))?;
        Ok(())
    }

    fn keys(&self) -> (r: Result<Vec<Vec<u8>>, DbError>) {
        let conn = self.connect()?;
        sqlite(query_blobs(&conn, "select key from keys"))
    }

    fn keys_count(&self) -> (r: Result<u64, DbError>) {
        let conn = self.connect()?;
        sqlite(query_count(&conn, "select count(*) from keys"))
    }
}

} // verus!
