use flashdb_rs::error::Error;
use flashdb_rs::kvdb::{
    get_value, key_cstr_bytes, KVDBBuilder, KVDBIterator, KVEntry, KVStatus, DEFAULT_SEC_SIZE,
    FDB_KV_NAME_MAX,
};
use flashdb_rs::storage::{FileStrategy, MemStorage};

fn entry(name: &str, status: KVStatus, addr_value: u32, value_len: u32) -> KVEntry {
    KVEntry::new(name.as_bytes().to_vec(), status, 0, addr_value, value_len, true)
}

#[test]
fn kv_status_raw_mapping() {
    assert_eq!(KVStatus::from_raw(0), KVStatus::UNUSED);
    assert_eq!(KVStatus::from_raw(1), KVStatus::PRE_WRITE);
    assert_eq!(KVStatus::from_raw(2), KVStatus::Write);
    assert_eq!(KVStatus::from_raw(3), KVStatus::PRE_DELETE);
    assert_eq!(KVStatus::from_raw(4), KVStatus::DELETED);
    assert_eq!(KVStatus::from_raw(5), KVStatus::ERR_HDR);
    // An out-of-range discriminant is a corruption signal, not a panic.
    assert_eq!(KVStatus::from_raw(99), KVStatus::ERR_HDR);
}

#[test]
fn kv_entry_accessors() {
    let e = entry("boot_count", KVStatus::Write, 321, 5);
    assert_eq!(e.status(), KVStatus::Write);
    assert_eq!(e.value_len(), 5);
    assert_eq!(e.name(), Some("boot_count"));
    assert!(e.is_valid());
}

#[test]
fn entry_name_rejects_invalid_text() {
    let e = KVEntry::new(vec![0xff, 0xfe, 0x41], KVStatus::Write, 0, 0, 0, true);
    assert_eq!(e.name(), None);
}

#[test]
fn get_value_returns_exact_bytes_for_readable_statuses() {
    let mut m = MemStorage::new(FileStrategy::Multi, 4096, 2 * 4096);
    m.write(256, b"hello").unwrap();

    for status in [KVStatus::Write, KVStatus::PRE_WRITE] {
        let e = entry("key1", status, 256, 5);
        let got = get_value(&m, &e).unwrap().unwrap();
        assert_eq!(got, b"hello".to_vec());
        assert_eq!(got.len(), e.value_len());
    }
}

#[test]
fn get_value_is_none_for_unreadable_statuses() {
    let mut m = MemStorage::new(FileStrategy::Multi, 4096, 2 * 4096);
    m.write(256, b"hello").unwrap();

    for status in [
        KVStatus::UNUSED,
        KVStatus::PRE_DELETE,
        KVStatus::DELETED,
        KVStatus::ERR_HDR,
    ] {
        let e = entry("key1", status, 256, 5);
        assert_eq!(get_value(&m, &e).unwrap(), None);
    }
}

#[test]
fn get_value_truncated_record_is_read_error() {
    let m = MemStorage::new(FileStrategy::Multi, 4096, 4096);
    let e = entry("big", KVStatus::Write, 4000, 200);
    assert!(matches!(get_value(&m, &e), Err(Error::ReadError)));
}

#[test]
fn key_bytes_are_nul_terminated() {
    assert_eq!(key_cstr_bytes("key1").unwrap(), b"key1\0".to_vec());
    assert_eq!(key_cstr_bytes("").unwrap(), b"\0".to_vec());
}

#[test]
fn key_too_long_or_with_nul_is_rejected() {
    let long = "x".repeat(FDB_KV_NAME_MAX as usize + 1);
    assert!(matches!(key_cstr_bytes(&long), Err(Error::KvNameError)));
    let edge = "y".repeat(FDB_KV_NAME_MAX as usize);
    assert!(key_cstr_bytes(&edge).is_ok());
    assert!(matches!(key_cstr_bytes("a\0b"), Err(Error::KvNameError)));
}

#[test]
fn iterator_yields_each_entry_then_stays_done() {
    let entries = vec![
        entry("a", KVStatus::Write, 0, 1),
        entry("b", KVStatus::Write, 8, 1),
        entry("c", KVStatus::Write, 16, 1),
    ];
    let mut it = KVDBIterator::new(entries);

    let mut names = Vec::new();
    let mut total_len = 0;
    while let Some(e) = it.next() {
        names.push(e.name().unwrap().to_string());
        total_len += e.value_len();
    }
    assert_eq!(names, vec!["a", "b", "c"]);
    assert_eq!(total_len, 3);
    // Terminal: no re-entry, no reset.
    assert!(it.next().is_none());
    assert!(it.next().is_none());
}

#[test]
fn kv_builder_defaults_and_chaining() {
    let b = KVDBBuilder::new("default_db", 128 * 1024);
    assert_eq!(b.name, "default_db");
    assert_eq!(b.path, None);
    assert_eq!(b.sec_size, DEFAULT_SEC_SIZE);
    assert_eq!(b.max_size, 128 * 1024);
    assert!(!b.not_format);

    let b = b.with_sec_size(512).with_not_format(true).with_path("/tmp/db");
    assert_eq!(b.sec_size, 512);
    assert!(b.not_format);
    assert_eq!(b.path.as_deref(), Some("/tmp/db"));

    let f = KVDBBuilder::file("test_db", "/data", 4096 * 128);
    assert_eq!(f.name, "test_db");
    assert_eq!(f.path.as_deref(), Some("/data"));
    assert_eq!(f.max_size, 4096 * 128);
}
