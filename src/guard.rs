//! A write transaction that is rolled back unless it was committed.
//!
//! Every statement that runs inside a transaction goes through it and is
//! recorded in its ghost log, so contracts can say which statements ran, with
//! which parameters and in what order.
use crate::engine::{self, PooledSqlite};
use crate::versions::Stamp;
use vstd::prelude::*;

verus! {

/// A statement as handed to SQLite: its text, its integer parameters and its
/// blob parameters, bound in that order.
pub type Statement = (Seq<char>, Seq<i64>, Seq<Seq<u8>>);

/// A statement without parameters.
pub open spec fn plain(sql: Seq<char>) -> Statement {
    (sql, Seq::empty(), Seq::empty())
}

pub const BEGIN_IMMEDIATE: &'static str = "BEGIN IMMEDIATE;";

pub const COMMIT: &'static str = "COMMIT;";

pub const ROLLBACK: &'static str = "ROLLBACK;";

/// An immediate-mode transaction on a pooled connection. While it is open,
/// dropping it issues a rollback before the connection goes back to its pool.
pub struct Transaction {
    conn: PooledSqlite,
    open: bool,
    log: Ghost<Seq<Statement>>,
}

impl Transaction {
    /// Neither committed nor rolled back yet.
    pub closed spec fn is_open(&self) -> bool {
        self.open
    }

    /// The connection the transaction runs on.
    pub closed spec fn conn(&self) -> PooledSqlite {
        self.conn
    }

    /// The statements issued on the transaction's connection since it began,
    /// `BEGIN IMMEDIATE` first.
    pub closed spec fn log(&self) -> Seq<Statement> {
        self.log@
    }

    /// Begins a transaction that takes SQLite's write lock at once, so that
    /// it never has to upgrade a read lock later.
    pub fn begin_immediate(conn: PooledSqlite) -> (r: Result<Transaction, rusqlite::Error>)
        ensures
            r matches Ok(t) ==> t.is_open() && t.conn() == conn && t.log() == seq![plain(BEGIN_IMMEDIATE@)],
    {
        let log: Ghost<Seq<Statement>> = Ghost(Seq::empty().push(plain(BEGIN_IMMEDIATE@)));
        match engine::execute_batch(&conn, BEGIN_IMMEDIATE) {
            Ok(()) => Ok(Transaction { conn, open: true, log }),
            Err(e) => Err(e),
        }
    }

    /// Runs a statement without parameters inside the transaction.
    pub fn execute_batch(&mut self, sql: &str) -> (r: Result<(), rusqlite::Error>)
        ensures
            final(self).log() == old(self).log().push(plain(sql@)),
            final(self).is_open() == old(self).is_open(),
    {
        self.log = Ghost(self.log@.push(plain(sql@)));
        engine::execute_batch(&self.conn, sql)
    }

    /// Runs a statement with integer parameters, then blob parameters, bound
    /// in order; the number of rows it changed.
    pub fn execute(&mut self, sql: &str, ints: &[i64], blobs: &[&[u8]]) -> (r: Result<usize, rusqlite::Error>)
        ensures
            final(self).log() == old(self).log().push((sql@, ints@, blobs@.map_values(|b: &[u8]| b@))),
            final(self).is_open() == old(self).is_open(),
    {
        self.log = Ghost(self.log@.push((sql@, ints@, blobs@.map_values(|b: &[u8]| b@))));
        engine::execute(&self.conn, sql, ints, blobs)
    }

    /// Runs a query with `key` as its one blob parameter; the first column of
    /// its first row, as an integer.
    pub fn query_integer(&mut self, sql: &str, key: &[u8]) -> (r: Result<i64, rusqlite::Error>)
        ensures
            final(self).log() == old(self).log().push((sql@, Seq::<i64>::empty(), seq![key@])),
            final(self).is_open() == old(self).is_open(),
    {
        self.log = Ghost(self.log@.push((sql@, Seq::<i64>::empty(), Seq::empty().push(key@))));
        engine::query_integer(&self.conn, sql, key)
    }

    /// Runs a query without parameters; every row as a stamp.
    pub fn query_stamps(&mut self, sql: &str) -> (r: Result<Vec<Stamp>, rusqlite::Error>)
        ensures
            final(self).log() == old(self).log().push(plain(sql@)),
            final(self).is_open() == old(self).is_open(),
    {
        self.log = Ghost(self.log@.push(plain(sql@)));
        engine::query_stamps(&self.conn, sql)
    }

    /// Records the outcome of a `COMMIT`: a transaction that committed is
    /// closed; one that did not stays as it was.
    fn settle(&mut self, committed: bool)
        ensures
            final(self).is_open() == (old(self).is_open() && !committed),
            final(self).log() == old(self).log(),
    {
        if committed {
            self.open = false;
        }
    }

    /// Commits. On success the transaction is closed; where the commit fails
    /// it stays open, and dropping it rolls it back.
    pub fn commit(&mut self) -> (r: Result<(), rusqlite::Error>)
        ensures
            final(self).log() == old(self).log().push(plain(COMMIT@)),
            final(self).is_open() == (old(self).is_open() && r is Err),
    {
        let res = self.execute_batch(COMMIT);
        let committed = res.is_ok();
        self.settle(committed);
        res
    }

    /// Issues `ROLLBACK` exactly when the transaction is still open;
    /// afterwards it is closed.
    pub fn close(&mut self)
        ensures
            !final(self).is_open(),
            old(self).is_open() ==> final(self).log() == old(self).log().push(plain(ROLLBACK@)),
            !old(self).is_open() ==> final(self).log() == old(self).log(),
        opens_invariants none
        no_unwind
    {
        if self.open {
            self.log = Ghost(self.log@.push(plain(ROLLBACK@)));
            let _ = engine::execute_batch(&self.conn, ROLLBACK);
            self.open = false;
        }
    }
}

impl Drop for Transaction {
    fn drop(&mut self)
        opens_invariants none
        no_unwind
    {
        self.close();
    }
}

} // verus!
