use kvqlite::{Append, Db};
use std::path::Path;

#[test]
fn append_roundtrip() {
    let db: Db<Append> = Db::builder().in_memory().finish().unwrap();

    db.write(b"hello", "world").unwrap();
    let value: String = db.read(b"hello").unwrap().unwrap();

    assert_eq!(value, "world");

    let entries_count = db.entries_count().unwrap();
    assert_eq!(entries_count, 1);
}

#[test]
fn append_updates() {
    let db: Db<Append> = Db::builder().in_memory().finish().unwrap();

    db.write(b"hello", "world").unwrap();
    let value: String = db.read(b"hello").unwrap().unwrap();
    assert_eq!(value, "world");

    db.write(b"hello", "joe").unwrap();
    let value: String = db.read(b"hello").unwrap().unwrap();
    assert_eq!(value, "joe");

    db.write(b"hello", "mike").unwrap();
    let value: String = db.read(b"hello").unwrap().unwrap();
    assert_eq!(value, "mike");

    db.write(b"hello", "robert").unwrap();
    let value: String = db.read(b"hello").unwrap().unwrap();
    assert_eq!(value, "robert");

    let count = db.entries_count().unwrap();
    assert_eq!(count, 4);

    let keys_count = db.keys_count().unwrap();
    assert_eq!(keys_count, 1);
}

#[test]
fn collect_garbage_old_values() {
    let db: Db<Append> = Db::builder().in_memory().finish().unwrap();

    db.write(b"hello", "world").unwrap();
    let value: String = db.read(b"hello").unwrap().unwrap();
    assert_eq!(value, "world");

    db.write(b"hello", "joe").unwrap();
    let value: String = db.read(b"hello").unwrap().unwrap();
    assert_eq!(value, "joe");

    db.write(b"hello", "mike").unwrap();
    let value: String = db.read(b"hello").unwrap().unwrap();
    assert_eq!(value, "mike");

    db.write(b"hello", "robert").unwrap();
    let value: String = db.read(b"hello").unwrap().unwrap();
    assert_eq!(value, "robert");

    let entries_count = db.entries_count().unwrap();

    assert_eq!(entries_count, 4);

    db.collect_garbage().unwrap();

    let keys_count = db.keys_count().unwrap();
    assert_eq!(keys_count, 1);

    let value: String = db.read(b"hello").unwrap().unwrap();

    assert_eq!(value, "robert");

    let count = db.entries_count().unwrap();

    assert_eq!(count, 1);

    let keys_count = db.keys_count().unwrap();
    assert_eq!(keys_count, 1);

    let keys = db.keys().unwrap();
    assert_eq!(keys, vec![b"hello"]);
}

#[test]
fn append_deletes() {
    let db: Db<Append> = Db::builder().in_memory().finish().unwrap();

    db.write(b"a", "b").unwrap();

    db.write(b"hello", "world").unwrap();
    let value: String = db.read(b"hello").unwrap().unwrap();

    assert_eq!(value, "world");

    let keys_count = db.keys_count().unwrap();
    assert_eq!(keys_count, 2);

    let entries_count = db.entries_count().unwrap();
    assert_eq!(entries_count, 2);

    db.delete(b"hello").unwrap();

    assert!(db.read(b"hello").unwrap().is_none());

    let keys_count = db.keys_count().unwrap();
    assert_eq!(keys_count, 1);

    let entries_count = db.entries_count().unwrap();
    assert_eq!(entries_count, 1);

    let keys = db.keys().unwrap();
    assert_eq!(keys, vec![b"a"]);
}

#[test]
fn append_writes_without_pause_read_the_last() {
    let db: Db<Append> = Db::builder().in_memory().finish().unwrap();
    for v in ["one", "two", "three", "four", "five"] {
        db.write(b"k", v).unwrap();
        assert_eq!(db.read(b"k").unwrap().unwrap(), v);
    }
    assert_eq!(db.entries_count().unwrap(), 5);
    db.collect_garbage().unwrap();
    assert_eq!(db.entries_count().unwrap(), 1);
    assert_eq!(db.read(b"k").unwrap().unwrap(), "five");
}

#[test]
fn append_delete_drops_every_version() {
    let db: Db<Append> = Db::builder().in_memory().finish().unwrap();
    db.write(b"keep", "x").unwrap();
    db.write(b"gone", "1").unwrap();
    db.write(b"gone", "2").unwrap();
    db.write(b"gone", "3").unwrap();
    assert_eq!(db.entries_count().unwrap(), 4);
    db.delete(b"gone").unwrap();
    assert_eq!(db.entries_count().unwrap(), 1);
    assert_eq!(db.keys().unwrap(), vec![b"keep"]);
    assert!(db.read(b"gone").unwrap().is_none());
}

#[test]
fn append_delete_absent_key_changes_nothing() {
    let db: Db<Append> = Db::builder().in_memory().finish().unwrap();
    db.write(b"a", "b").unwrap();
    db.delete(b"missing").unwrap();
    assert_eq!(db.keys_count().unwrap(), 1);
    assert_eq!(db.entries_count().unwrap(), 1);
    assert_eq!(db.read(b"a").unwrap().unwrap(), "b");
}

#[test]
fn append_collect_garbage_keeps_one_per_key() {
    let db: Db<Append> = Db::builder().in_memory().finish().unwrap();
    db.write(b"a", "a1").unwrap();
    db.write(b"b", "b1").unwrap();
    db.write(b"a", "a2").unwrap();
    db.write(b"b", "b2").unwrap();
    db.write(b"c", "c1").unwrap();
    db.collect_garbage().unwrap();
    assert_eq!(db.entries_count().unwrap(), 3);
    assert_eq!(db.keys_count().unwrap(), 3);
    assert_eq!(db.read(b"a").unwrap().unwrap(), "a2");
    assert_eq!(db.read(b"b").unwrap().unwrap(), "b2");
    assert_eq!(db.read(b"c").unwrap().unwrap(), "c1");
}

#[test]
fn append_aborted_write_is_rolled_back() {
    let uri = "file:append_aborted_write?mode=memory&cache=shared";
    let db: Db<Append> = Db::builder().with_db_path(Path::new(uri)).finish().unwrap();
    db.write(b"before", "kept").unwrap();

    let side = rusqlite::Connection::open(uri).unwrap();
    side.execute_batch(
        "create trigger refuse_values before insert on vvalues
         begin select raise(abort, 'refused'); end;",
    )
    .unwrap();

    // The key entry is upserted, then the value insert fails.
    assert!(db.write(b"hello", "world").is_err());

    side.execute_batch("drop trigger refuse_values;").unwrap();
    assert!(db.read(b"hello").unwrap().is_none());
    assert_eq!(db.keys_count().unwrap(), 1);
    assert_eq!(db.entries_count().unwrap(), 1);
    assert_eq!(db.keys().unwrap(), vec![b"before"]);

    db.write(b"hello", "world").unwrap();
    assert_eq!(db.read(b"hello").unwrap().unwrap(), "world");
}

#[test]
fn append_encoded_bytes_read_the_last() {
    let db: Db<Append> = Db::builder().in_memory().finish().unwrap();
    db.write_encoded(b"k", &[1]).unwrap();
    db.write_encoded(b"k", &[2, 2]).unwrap();
    assert_eq!(db.read_encoded(b"k").unwrap(), Some(vec![2, 2]));
    assert_eq!(db.entries_count().unwrap(), 2);
    assert_eq!(db.read_encoded(b"none").unwrap(), None);
}
