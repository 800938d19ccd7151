use kvqlite::codec::{decode, encode};
use kvqlite::versions::{garbage, is_later, latest_version, superseded, Stamp, Version};
use kvqlite::{location, DbError, Location, Options, DEFAULT_DB_FILE};
use std::path::PathBuf;

fn stamp(id: i64, key_id: i64, inserted_at: i64) -> Stamp {
    Stamp { id, key_id, inserted_at }
}

fn version(id: i64, inserted_at: i64, value: &str) -> Version {
    Version { stamp: stamp(id, 1, inserted_at), value: encode(value).unwrap() }
}

#[test]
fn encode_gives_cbor_text() {
    assert_eq!(encode("world").unwrap(), vec![0x65, b'w', b'o', b'r', b'l', b'd']);
    assert_eq!(encode("").unwrap(), vec![0x60]);
}

#[test]
fn decode_reads_back_encoded_text() {
    assert_eq!(decode(&encode("robert").unwrap()).unwrap(), "robert");
    assert_eq!(decode(&[0x63, b'j', b'o', b'e']).unwrap(), "joe");
}

#[test]
fn decode_rejects_what_is_not_text() {
    assert!(matches!(decode(&[0x01]), Err(DbError::Deserialization(_))));
    assert!(matches!(decode(&[0xff, 0x00]), Err(DbError::Deserialization(_))));
    assert!(matches!(decode(&[]), Err(DbError::Deserialization(_))));
}

#[test]
fn later_orders_by_time_then_id() {
    assert!(is_later(&stamp(1, 1, 20), &stamp(2, 1, 10)));
    assert!(!is_later(&stamp(2, 1, 10), &stamp(1, 1, 20)));
    assert!(is_later(&stamp(3, 1, 10), &stamp(2, 1, 10)));
    assert!(!is_later(&stamp(2, 1, 10), &stamp(2, 1, 10)));
}

#[test]
fn latest_version_of_none_is_none() {
    assert_eq!(latest_version(&vec![]), None);
}

#[test]
fn latest_version_is_the_newest() {
    let vs = vec![version(1, 100, "world"), version(2, 300, "mike"), version(3, 200, "joe")];
    assert_eq!(latest_version(&vs), Some(1));
}

#[test]
fn latest_version_breaks_ties_by_id() {
    let vs = vec![version(4, 100, "a"), version(9, 100, "b"), version(7, 100, "c")];
    assert_eq!(latest_version(&vs), Some(1));
}

#[test]
fn current_value_decodes_the_newest() {
    let vs = vec![version(1, 100, "world"), version(2, 300, "robert"), version(3, 200, "joe")];
    assert_eq!(kvqlite::storage::append::current_value(&vs).unwrap(), Some("robert".to_string()));
    assert_eq!(kvqlite::storage::append::current_value(&vec![]).unwrap(), None);
}

#[test]
fn superseded_looks_within_the_key() {
    let s = vec![stamp(1, 1, 10), stamp(2, 2, 20), stamp(3, 1, 5)];
    assert!(!superseded(&s, 0));
    assert!(!superseded(&s, 1));
    assert!(superseded(&s, 2));
}

#[test]
fn garbage_is_every_entry_but_the_newest_of_each_key() {
    let s = vec![
        stamp(1, 1, 10),
        stamp(2, 1, 20),
        stamp(3, 2, 15),
        stamp(4, 1, 30),
        stamp(5, 1, 30),
        stamp(6, 3, 1),
    ];
    let mut g = garbage(&s);
    g.sort();
    assert_eq!(g, vec![1, 2, 4]);
    assert!(garbage(&vec![]).is_empty());
}

#[test]
fn location_follows_the_options() {
    let mem = Options { in_memory: true, db_path: Some(PathBuf::from("x.db")) };
    assert!(matches!(location(&mem), Location::Memory));
    let file = Options { in_memory: false, db_path: Some(PathBuf::from("x.db")) };
    match location(&file) {
        Location::File(p) => assert_eq!(p, std::path::Path::new("x.db")),
        _ => panic!("expected a file"),
    }
    let default = Options::default();
    assert!(matches!(location(&default), Location::DefaultFile));
    assert_eq!(DEFAULT_DB_FILE, "kvqlite.db");
}

#[test]
fn current_bytes_is_the_newest_value() {
    let vs = vec![version(1, 100, "world"), version(2, 300, "robert"), version(3, 200, "joe")];
    assert_eq!(kvqlite::storage::append::current_bytes(vs), Some(encode("robert").unwrap()));
    assert_eq!(kvqlite::storage::append::current_bytes(vec![]), None);
}
