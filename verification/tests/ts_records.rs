use flashdb_rs::error::Error;
use flashdb_rs::kvdb::DEFAULT_SEC_SIZE;
use flashdb_rs::reader::SeekFrom;
use flashdb_rs::storage::{FileStrategy, MemStorage};
use flashdb_rs::tsdb::{
    count, get_value, tsdb_iter, tsdb_iter_by_time, EntryCollector, TSDBBuilder, TSLEntry,
    TSLStatus,
};

fn log_entry(time: i64, status: TSLStatus, addr_log: u32, log_len: u32) -> TSLEntry {
    TSLEntry::new(time, status, 0, addr_log, log_len)
}

#[test]
fn tsl_status_raw_mapping() {
    assert_eq!(TSLStatus::from_raw(0), Some(TSLStatus::UNUSED));
    assert_eq!(TSLStatus::from_raw(1), Some(TSLStatus::PRE_WRITE));
    assert_eq!(TSLStatus::from_raw(2), Some(TSLStatus::Write));
    assert_eq!(TSLStatus::from_raw(3), Some(TSLStatus::UserStatus1));
    assert_eq!(TSLStatus::from_raw(4), Some(TSLStatus::Deleted));
    assert_eq!(TSLStatus::from_raw(5), Some(TSLStatus::UserStatus2));
    // An out-of-range discriminant is a corruption signal, not a panic.
    assert_eq!(TSLStatus::from_raw(6), None);
}

#[test]
fn log_entry_accessors() {
    let e = log_entry(1686451200, TSLStatus::Write, 64, 18);
    assert_eq!(e.time(), 1686451200);
    assert_eq!(e.status(), TSLStatus::Write);
    assert_eq!(e.value_len(), 18);
}

#[test]
fn get_value_by_status() {
    let mut m = MemStorage::new(FileStrategy::Multi, 4096, 4 * 4096);
    m.write(64, b"Test data for TSDB").unwrap();

    for status in [
        TSLStatus::Write,
        TSLStatus::PRE_WRITE,
        TSLStatus::UserStatus1,
        TSLStatus::UserStatus2,
    ] {
        let e = log_entry(1686451200, status, 64, 18);
        assert_eq!(get_value(&m, &e).unwrap().unwrap(), b"Test data for TSDB".to_vec());
    }
    for status in [TSLStatus::UNUSED, TSLStatus::Deleted] {
        let e = log_entry(1686451200, status, 64, 18);
        assert_eq!(get_value(&m, &e).unwrap(), None);
    }
}

#[test]
fn get_value_truncated_is_read_error() {
    let m = MemStorage::new(FileStrategy::Multi, 4096, 4096);
    let e = log_entry(1, TSLStatus::Write, 4090, 100);
    assert!(matches!(get_value(&m, &e), Err(Error::ReadError)));
}

#[test]
fn iteration_order_forward_and_reverse() {
    let entries = vec![
        log_entry(100, TSLStatus::Write, 0, 1),
        log_entry(200, TSLStatus::Write, 8, 1),
        log_entry(300, TSLStatus::Write, 16, 1),
    ];

    let (collector, visits) = tsdb_iter(&entries, EntryCollector::new(usize::MAX), false);
    let forward: Vec<i64> = collector.entries().iter().map(|e| e.time()).collect();
    assert_eq!(visits, 3);
    assert_eq!(forward, vec![100, 200, 300]);

    let (collector, visits) = tsdb_iter(&entries, EntryCollector::new(usize::MAX), true);
    let reverse: Vec<i64> = collector.entries().iter().map(|e| e.time()).collect();
    assert_eq!(visits, 3);
    assert_eq!(reverse, vec![300, 200, 100]);
}

#[test]
fn stopping_visitor_is_invoked_exactly_once() {
    let entries = vec![
        log_entry(100, TSLStatus::Write, 0, 1),
        log_entry(200, TSLStatus::Write, 8, 1),
        log_entry(300, TSLStatus::Write, 16, 1),
    ];
    // A collector with a limit of one asks to stop at its first entry; the
    // traversal must invoke it exactly once, however many records remain.
    let (collector, visits) = tsdb_iter(&entries, EntryCollector::new(1), false);
    assert_eq!(visits, 1);
    assert_eq!(collector.entries().len(), 1);
    assert_eq!(collector.entries()[0].time(), 100);
}

#[test]
fn time_range_iteration_is_inclusive() {
    let entries = vec![
        log_entry(100, TSLStatus::Write, 0, 1),
        log_entry(101, TSLStatus::Write, 8, 0),
        log_entry(102, TSLStatus::Write, 16, 2),
        log_entry(103, TSLStatus::Write, 24, 1),
    ];
    let (collector, visits) =
        tsdb_iter_by_time(&entries, 101, 102, EntryCollector::new(usize::MAX));
    let times: Vec<i64> = collector.entries().iter().map(|e| e.time()).collect();
    assert_eq!(visits, 2);
    assert_eq!(times, vec![101, 102]);
}

#[test]
fn count_filters_by_range_and_status() {
    let entries = vec![
        log_entry(100, TSLStatus::Write, 0, 1),
        log_entry(200, TSLStatus::Write, 8, 1),
        log_entry(300, TSLStatus::Deleted, 16, 1),
        log_entry(400, TSLStatus::Write, 24, 1),
    ];
    assert_eq!(count(&entries, 0, i64::MAX, TSLStatus::Write), 3);
    assert_eq!(count(&entries, 0, i64::MAX, TSLStatus::Deleted), 1);
    assert_eq!(count(&entries, 150, 400, TSLStatus::Write), 2);
    assert_eq!(count(&entries, 150, 399, TSLStatus::Write), 1);
    assert_eq!(count(&entries, 0, i64::MAX, TSLStatus::UserStatus1), 0);
}

#[test]
fn reader_over_log_entry() {
    let mut m = MemStorage::new(FileStrategy::Multi, 4096, 8 * 4096);
    let data = b"ABCDEFGHIJKLMNOPQRSTUVWXYZ";
    m.write(128, data).unwrap();
    let e = log_entry(1686451200, TSLStatus::Write, 128, 26);

    let mut reader = e.open_read();
    let head = reader.read(&m, 10).unwrap();
    assert_eq!(head, data[0..10].to_vec());

    reader.seek(SeekFrom::Current(10)).unwrap();
    let tail = reader.read(&m, 10).unwrap();
    assert_eq!(tail.len(), 6);
    assert_eq!(tail, data[20..26].to_vec());
}

#[test]
fn ts_builder_defaults_and_chaining() {
    let b = TSDBBuilder::new("basic_test", 128 * 1024, 1024);
    assert_eq!(b.name, "basic_test");
    assert_eq!(b.path, None);
    assert_eq!(b.entry_max_len, 1024);
    assert_eq!(b.sec_size, DEFAULT_SEC_SIZE);
    assert_eq!(b.max_size, 128 * 1024);
    assert!(!b.not_format);

    let b = b
        .with_name("props_test")
        .with_entry_max_len(256)
        .with_sec_size(512)
        .with_max_size(16 * 1024)
        .with_not_format(true)
        .with_path("/tmp/ts");
    assert_eq!(b.name, "props_test");
    assert_eq!(b.entry_max_len, 256);
    assert_eq!(b.sec_size, 512);
    assert_eq!(b.max_size, 16 * 1024);
    assert!(b.not_format);
    assert_eq!(b.path.as_deref(), Some("/tmp/ts"));

    let f = TSDBBuilder::file("reader_test", "/data/ts", 32 * 1024, 1024);
    assert_eq!(f.name, "reader_test");
    assert_eq!(f.path.as_deref(), Some("/data/ts"));
    assert_eq!(f.entry_max_len, 1024);
}
