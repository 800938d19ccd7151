use kvqlite::{Db, UpdateInPlace};

#[test]
fn update_in_place_roundtrip() {
    let db: Db<UpdateInPlace> = Db::builder().in_memory().finish().unwrap();

    db.write(b"hello", "world").unwrap();
    let value: String = db.read(b"hello").unwrap().unwrap();

    assert_eq!(value, "world");
}

#[test]
fn update_in_place_updates() {
    let db: Db<UpdateInPlace> = Db::builder().in_memory().finish().unwrap();

    db.write(b"hello", "world").unwrap();
    let value: String = db.read(b"hello").unwrap().unwrap();
    assert_eq!(value, "world");

    db.write(b"hello", "joe").unwrap();
    let value: String = db.read(b"hello").unwrap().unwrap();
    assert_eq!(value, "joe");

    let count = db.keys_count().unwrap();
    assert_eq!(count, 1);
}

#[test]
fn update_in_place_deletes() {
    let db: Db<UpdateInPlace> = Db::builder().in_memory().finish().unwrap();

    db.write(b"hello", "world").unwrap();
    let value: String = db.read(b"hello").unwrap().unwrap();
    assert_eq!(value, "world");

    db.write(b"hello", "joe").unwrap();
    let value: String = db.read(b"hello").unwrap().unwrap();
    assert_eq!(value, "joe");

    let count = db.keys_count().unwrap();
    assert_eq!(count, 1);

    db.delete(b"hello").unwrap();
    let count = db.keys_count().unwrap();

    assert_eq!(count, 0);

    let keys = db.keys().unwrap();
    assert!(keys.is_empty());

    let value = db.read(b"hello").unwrap();
    assert!(value.is_none())
}

#[test]
fn update_in_place_delete_absent_key_changes_nothing() {
    let db: Db<UpdateInPlace> = Db::builder().in_memory().finish().unwrap();
    db.write(b"a", "b").unwrap();
    db.delete(b"missing").unwrap();
    assert_eq!(db.keys_count().unwrap(), 1);
    assert_eq!(db.read(b"a").unwrap().unwrap(), "b");
}

#[test]
fn update_in_place_read_absent_key_is_none() {
    let db: Db<UpdateInPlace> = Db::builder().in_memory().finish().unwrap();
    assert!(db.read(b"nothing").unwrap().is_none());
    assert_eq!(db.keys_count().unwrap(), 0);
}

#[test]
fn update_in_place_binary_and_empty_keys() {
    let db: Db<UpdateInPlace> = Db::builder().in_memory().finish().unwrap();
    db.write(&[0u8, 255, 7], "bin").unwrap();
    db.write(b"", "empty").unwrap();
    assert_eq!(db.read(&[0u8, 255, 7]).unwrap().unwrap(), "bin");
    assert_eq!(db.read(b"").unwrap().unwrap(), "empty");
    let mut keys = db.keys().unwrap();
    keys.sort();
    assert_eq!(keys, vec![vec![], vec![0u8, 255, 7]]);
}

#[test]
fn update_in_place_encoded_bytes_round_trip() {
    let db: Db<UpdateInPlace> = Db::builder().in_memory().finish().unwrap();
    db.write_encoded(b"k", &[1, 2, 3]).unwrap();
    assert_eq!(db.read_encoded(b"k").unwrap(), Some(vec![1, 2, 3]));
    db.write(b"t", "world").unwrap();
    assert_eq!(db.read_encoded(b"t").unwrap(), Some(vec![0x65, b'w', b'o', b'r', b'l', b'd']));
    assert_eq!(db.read_encoded(b"none").unwrap(), None);
}
