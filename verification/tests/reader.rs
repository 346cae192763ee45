use flashdb_rs::error::Error;
use flashdb_rs::reader::{SeekFrom, ValueReader};
use flashdb_rs::storage::{FileStrategy, MemStorage};

fn medium_with_value(addr: u32, value: &[u8]) -> MemStorage {
    let mut m = MemStorage::new(FileStrategy::Single, 4096, 16 * 4096);
    m.write(addr, value).unwrap();
    m
}

#[test]
fn scenario_seek_and_partial_reads() {
    // A 1024-byte value: read 100 bytes from 500, then 100 from 700 via a
    // relative seek, then the last 50 via a seek from the end.
    let value: Vec<u8> = (0..1024).map(|i| (i % 256) as u8).collect();
    let m = medium_with_value(2048, &value);
    let mut r = ValueReader::new(2048, 1024);

    assert_eq!(r.seek(SeekFrom::Start(500)).unwrap(), 500);
    let part = r.read(&m, 100).unwrap();
    assert_eq!(part, value[500..600].to_vec());

    assert_eq!(r.seek(SeekFrom::Current(100)).unwrap(), 700);
    let part = r.read(&m, 100).unwrap();
    assert_eq!(part, value[700..800].to_vec());

    assert_eq!(r.seek(SeekFrom::End(-50)).unwrap(), 1024 - 50);
    let part = r.read(&m, 50).unwrap();
    assert_eq!(part, value[1024 - 50..].to_vec());
}

#[test]
fn seek_to_end_then_read_is_empty() {
    let value = vec![3u8; 256];
    let m = medium_with_value(0, &value);
    let mut r = ValueReader::new(0, 256);
    assert_eq!(r.seek(SeekFrom::End(0)).unwrap(), 256);
    assert_eq!(r.read(&m, 64).unwrap(), Vec::<u8>::new());
}

#[test]
fn seek_past_end_fails_without_moving() {
    let value = vec![9u8; 256];
    let m = medium_with_value(0, &value);
    let mut r = ValueReader::new(0, 256);
    assert_eq!(r.seek(SeekFrom::Start(10)).unwrap(), 10);
    assert!(matches!(r.seek(SeekFrom::Start(257)), Err(Error::InvalidArgument)));
    // The failed seek left the position at 10.
    assert_eq!(r.read(&m, 4).unwrap(), value[10..14].to_vec());
}

#[test]
fn seek_before_start_fails() {
    let m = medium_with_value(0, &[1, 2, 3]);
    let mut r = ValueReader::new(0, 3);
    assert!(matches!(r.seek(SeekFrom::Current(-1)), Err(Error::InvalidArgument)));
    assert!(matches!(r.seek(SeekFrom::End(-4)), Err(Error::InvalidArgument)));
    assert_eq!(r.read(&m, 3).unwrap(), vec![1, 2, 3]);
}

#[test]
fn repeated_reads_from_same_position_agree() {
    let value: Vec<u8> = (0..512).map(|i| (i * 7 % 256) as u8).collect();
    let m = medium_with_value(64, &value);
    let mut r = ValueReader::new(64, 512);

    r.seek(SeekFrom::Start(123)).unwrap();
    let first = r.read(&m, 200).unwrap();
    r.seek(SeekFrom::Start(123)).unwrap();
    let second = r.read(&m, 200).unwrap();
    assert_eq!(first, second);
    assert_eq!(first, value[123..323].to_vec());
}

#[test]
fn read_is_bounded_by_value_length() {
    let value = b"ABCDEFGHIJKLMNOPQRSTUVWXYZ";
    let m = medium_with_value(512, value);
    let mut r = ValueReader::new(512, 26);

    let mut head = r.read(&m, 10).unwrap();
    assert_eq!(head, value[0..10].to_vec());
    assert_eq!(r.seek(SeekFrom::Current(10)).unwrap(), 20);
    // Only six bytes remain however large the request is.
    let tail = r.read(&m, 10).unwrap();
    assert_eq!(tail.len(), 6);
    assert_eq!(tail, value[20..26].to_vec());
    // The stream is exhausted now.
    head = r.read(&m, 10).unwrap();
    assert!(head.is_empty());
}

#[test]
fn value_range_past_capacity_is_read_error() {
    let m = MemStorage::new(FileStrategy::Single, 4096, 4096);
    let mut r = ValueReader::new(4000, 200);
    assert!(matches!(r.read(&m, 10), Err(Error::ReadError)));
}
