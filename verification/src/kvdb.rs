//! The key-value record model: lifecycle status, the metadata snapshot of one
//! record, value retrieval against the medium, pull-style iteration, and the
//! database-opening configuration.

use vstd::prelude::*;

verus! {

use vstd::string::StringSliceAdditionalSpecFns;
use vstd::utf8::valid_utf8;
use crate::error::Error;
use crate::reader::{ValueReader, spec_value_window};
use crate::storage::MemStorage;

/// The engine's limit on key-name length in bytes.
pub const FDB_KV_NAME_MAX: u32 = 64;

/// Default erase-unit size a builder starts with.
pub const DEFAULT_SEC_SIZE: u32 = 4096;

/// The lifecycle stage of a key-value record.
///
/// A slot moves `UNUSED` to `PRE_WRITE` to `Write`, then through
/// `PRE_DELETE` to `DELETED`; a record whose header fails its checksum is
/// `ERR_HDR`, a terminal corruption state.
#[allow(non_camel_case_types)]
#[derive(Clone, Copy, Debug, PartialEq, Eq, Structural)]
pub enum KVStatus {
    /// Slot never allocated.
    UNUSED,
    /// Header committed, payload write still in flight.
    PRE_WRITE,
    /// Fully committed; the canonical readable state.
    Write,
    /// Deletion started but not yet committed.
    PRE_DELETE,
    /// Logically removed; unreadable until compaction reclaims the space.
    DELETED,
    /// Header checksum mismatch.
    ERR_HDR,
}

/// The status a raw engine discriminant denotes. The values are the engine's
/// ABI and are mapped, never recomputed; anything outside the published range
/// is a corruption signal and maps to `ERR_HDR`.
pub open spec fn spec_kv_status_of_raw(v: u32) -> KVStatus {
    if v == 0 {
        KVStatus::UNUSED
    } else if v == 1 {
        KVStatus::PRE_WRITE
    } else if v == 2 {
        KVStatus::Write
    } else if v == 3 {
        KVStatus::PRE_DELETE
    } else if v == 4 {
        KVStatus::DELETED
    } else {
        KVStatus::ERR_HDR
    }
}

/// Whether a record in this status has a retrievable value.
pub open spec fn spec_kv_readable(s: KVStatus) -> bool {
    s == KVStatus::PRE_WRITE || s == KVStatus::Write
}

impl KVStatus {
    /// Maps a raw engine discriminant to its status; out-of-range values are
    /// treated as a corrupt header.
    pub fn from_raw(v: u32) -> (r: KVStatus)
        ensures
            r == spec_kv_status_of_raw(v),
    {
        if v == 0 {
            KVStatus::UNUSED
        } else if v == 1 {
            KVStatus::PRE_WRITE
        } else if v == 2 {
            KVStatus::Write
        } else if v == 3 {
            KVStatus::PRE_DELETE
        } else if v == 4 {
            KVStatus::DELETED
        } else {
            KVStatus::ERR_HDR
        }
    }

    /// Whether a record in this status has a retrievable value.
    pub fn is_readable(&self) -> (r: bool)
        ensures
            r == spec_kv_readable(*self),
    {
        match self {
            KVStatus::PRE_WRITE => true,
            KVStatus::Write => true,
            _ => false,
        }
    }
}

/// An immutable metadata snapshot of one key-value record, as the engine
/// reported it at query time.
///
/// The snapshot owns nothing on the medium: it goes stale the moment the
/// engine rewrites or compacts the record it describes.
#[derive(Debug)]
pub struct KVEntry {
    name: Vec<u8>,
    status: KVStatus,
    addr_start: u32,
    addr_value: u32,
    value_len: u32,
    crc_ok: bool,
}

impl KVEntry {
    /// The stored name bytes.
    pub closed spec fn spec_name(self) -> Seq<u8> {
        self.name@
    }

    /// The record's lifecycle status.
    pub closed spec fn spec_status(self) -> KVStatus {
        self.status
    }

    /// Physical address of the record header.
    pub closed spec fn spec_addr_start(self) -> u32 {
        self.addr_start
    }

    /// Physical address of the value payload.
    pub closed spec fn spec_addr_value(self) -> u32 {
        self.addr_value
    }

    /// Declared length of the value payload.
    pub closed spec fn spec_value_len(self) -> u32 {
        self.value_len
    }

    /// Whether the record's checksum held.
    pub closed spec fn spec_crc_ok(self) -> bool {
        self.crc_ok
    }

    /// Builds a snapshot from the fields the engine reports.
    pub fn new(
        name: Vec<u8>,
        status: KVStatus,
        addr_start: u32,
        addr_value: u32,
        value_len: u32,
        crc_ok: bool,
    ) -> (r: KVEntry)
        ensures
            r.spec_name() == name@,
            r.spec_status() == status,
            r.spec_addr_start() == addr_start,
            r.spec_addr_value() == addr_value,
            r.spec_value_len() == value_len,
            r.spec_crc_ok() == crc_ok,
    {
        KVEntry { name, status, addr_start, addr_value, value_len, crc_ok }
    }

    /// The record's lifecycle status.
    pub fn status(&self) -> (r: KVStatus)
        ensures
            r == self.spec_status(),
    {
        self.status
    }

    /// The declared value length in bytes.
    pub fn value_len(&self) -> (r: usize)
        ensures
            r == self.spec_value_len() as usize,
    {
        self.value_len as usize
    }

    /// The record's key, if its stored name bytes are valid text.
    ///
    /// `None` flags corruption of the name bytes; it is a signal, not a
    /// panic.
    pub fn name(&self) -> (r: Option<&str>)
        ensures
            r is Some <==> valid_utf8(self.spec_name()),
            r matches Some(s) ==> s.spec_bytes() == self.spec_name(),
    {
        bytes_as_str(self.name.as_slice())
    }

    /// Whether the record's checksum held.
    pub fn is_valid(&self) -> (r: bool)
        ensures
            r == self.spec_crc_ok(),
    {
        self.crc_ok
    }

    /// Opens a streaming reader over this record's value bytes, positioned at
    /// the start.
    pub fn open_read(&self) -> (r: ValueReader)
        ensures
            r.wf(),
            r.spec_value_addr() == self.spec_addr_value(),
            r.spec_value_len() == self.spec_value_len(),
            r.spec_position() == 0,
    {
        ValueReader::new(self.addr_value, self.value_len)
    }
}

/// Two snapshots that describe the same record identically, field by field.
pub open spec fn entry_eq(a: KVEntry, b: KVEntry) -> bool {
    &&& a.spec_name() == b.spec_name()
    &&& a.spec_status() == b.spec_status()
    &&& a.spec_addr_start() == b.spec_addr_start()
    &&& a.spec_addr_value() == b.spec_addr_value()
    &&& a.spec_value_len() == b.spec_value_len()
    &&& a.spec_crc_ok() == b.spec_crc_ok()
}

impl Clone for KVEntry {
    /// A clone reproduces every reported field of the snapshot.
    fn clone(&self) -> (r: Self)
        ensures
            entry_eq(r, *self),
    {
        let name = self.name.clone();
        proof {
            assert(name@ =~= self.name@);
        }
        KVEntry {
            name,
            status: self.status,
            addr_start: self.addr_start,
            addr_value: self.addr_value,
            value_len: self.value_len,
            crc_ok: self.crc_ok,
        }
    }
}

/// Relies on `core::str::from_utf8`: it succeeds exactly on valid UTF-8 and
/// the resulting text has the input as its byte encoding.
#[verifier::external_body]
fn bytes_as_str(v: &[u8]) -> (r: Option<&str>)
    ensures
        r is Some <==> valid_utf8(v@),
        r matches Some(s) ==> s.spec_bytes() == v@,
{
    core::str::from_utf8(v).ok()
}

/// Retrieves the value of a described record from the medium.
///
/// A record whose status is not readable yields `Ok(None)` — deletion and
/// never-written are expected, unremarkable states, not errors. A readable
/// record yields exactly `value_len` bytes from its recorded value address; a
/// value range that reaches past the medium's capacity cannot be read in full
/// and is a `ReadError`, never a silently short buffer.
pub fn get_value(m: &MemStorage, entry: &KVEntry) -> (r: Result<Option<Vec<u8>>, Error>)
    requires
        m.wf(),
    ensures
        !spec_kv_readable(entry.spec_status()) ==> (r matches Ok(v) && v is None),
        spec_kv_readable(entry.spec_status()) && entry.spec_addr_value() + entry.spec_value_len()
            <= m.spec_capacity() ==> (r matches Ok(v) && v matches Some(b) && b@
            == spec_value_window(
            *m,
            entry.spec_addr_value() as int,
            0,
            entry.spec_value_len() as int,
        )),
        spec_kv_readable(entry.spec_status()) && entry.spec_addr_value() + entry.spec_value_len()
            > m.spec_capacity() ==> r == Err::<Option<Vec<u8>>, Error>(Error::ReadError),
{
    if !entry.status().is_readable() {
        return Ok(None);
    }
    if entry.addr_value as u64 + entry.value_len as u64 > m.capacity() as u64 {
        return Err(Error::ReadError);
    }
    match m.read(entry.addr_value, entry.value_len as usize) {
        Ok(data) => Ok(Some(data)),
        Err(e) => Err(e),
    }
}

/// The nul-terminated key bytes handed across the engine boundary for a key
/// string: the key's bytes followed by one terminator.
///
/// A key longer than the engine's name limit, or one containing a nul byte of
/// its own, is rejected with `KvNameError`.
pub fn key_cstr_bytes(key: &str) -> (r: Result<Vec<u8>, Error>)
    ensures
        r matches Ok(b) ==> {
            &&& key.spec_bytes().len() <= FDB_KV_NAME_MAX
            &&& forall|i: int| 0 <= i < key.spec_bytes().len() ==> key.spec_bytes()[i] != 0
            &&& b@ == key.spec_bytes().push(0)
        },
        r matches Err(e) ==> {
            &&& e == Error::KvNameError
            &&& (key.spec_bytes().len() > FDB_KV_NAME_MAX || exists|i: int|
                0 <= i < key.spec_bytes().len() && key.spec_bytes()[i] == 0)
        },
{
    let bytes = key.as_bytes();
    if bytes.len() > FDB_KV_NAME_MAX as usize {
        return Err(Error::KvNameError);
    }
    let mut out: Vec<u8> = Vec::new();
    let mut i: usize = 0;
    while i < bytes.len()
        invariant
            bytes@ == key.spec_bytes(),
            bytes@.len() <= FDB_KV_NAME_MAX,
            i <= bytes@.len(),
            out@ == bytes@.subrange(0, i as int),
            forall|j: int| 0 <= j < i ==> bytes@[j] != 0,
        decreases bytes@.len() - i,
    {
        if bytes[i] == 0 {
            proof {
                assert(key.spec_bytes()[i as int] == 0);
            }
            return Err(Error::KvNameError);
        }
        out.push(bytes[i]);
        proof {
            assert(out@ =~= bytes@.subrange(0, i as int + 1));
        }
        i = i + 1;
    }
    out.push(0);
    proof {
        assert(bytes@.subrange(0, bytes@.len() as int) =~= bytes@);
        assert(out@ =~= bytes@.push(0));
    }
    Ok(out)
}

/// Pull-style iteration over the record snapshots the engine reported.
///
/// `next` yields each snapshot once; after the last one the iterator is
/// terminally done — every further call returns `None`, with no re-entry and
/// no reset.
pub struct KVDBIterator {
    entries: Vec<KVEntry>,
    idx: usize,
    is_done: bool,
}

impl KVDBIterator {
    /// The snapshots being iterated.
    pub closed spec fn spec_entries(self) -> Seq<KVEntry> {
        self.entries@
    }

    /// How many snapshots were already yielded.
    pub closed spec fn spec_idx(self) -> int {
        self.idx as int
    }

    /// Whether the iterator reached its terminal state.
    pub closed spec fn spec_done(self) -> bool {
        self.is_done
    }

    /// Positions the cursor before the first snapshot.
    pub fn new(entries: Vec<KVEntry>) -> (r: KVDBIterator)
        ensures
            r.spec_entries() == entries@,
            r.spec_idx() == 0,
            !r.spec_done(),
    {
        KVDBIterator { entries, idx: 0, is_done: false }
    }

    /// Yields the next record snapshot, or `None` forever once exhausted.
    pub fn next(&mut self) -> (r: Option<KVEntry>)
        ensures
            final(self).spec_entries() == old(self).spec_entries(),
            old(self).spec_done() ==> r is None && *final(self) == *old(self),
            !old(self).spec_done() && old(self).spec_idx() >= old(self).spec_entries().len()
                ==> r is None && final(self).spec_done(),
            !old(self).spec_done() && old(self).spec_idx() < old(self).spec_entries().len() ==> {
                &&& r matches Some(e) && entry_eq(
                    e,
                    old(self).spec_entries()[old(self).spec_idx()],
                )
                &&& final(self).spec_idx() == old(self).spec_idx() + 1
                &&& !final(self).spec_done()
            },
            r is None ==> final(self).spec_done() == (old(self).spec_done() || old(
                self,
            ).spec_idx() >= old(self).spec_entries().len()),
    {
        if self.is_done {
            return None;
        }
        if self.idx >= self.entries.len() {
            self.is_done = true;
            return None;
        }
        let entry = self.entries[self.idx].clone();
        self.idx = self.idx + 1;
        Some(entry)
    }
}

/// Configuration of a key-value database before it is opened: name, optional
/// backing path, erase-unit size, total capacity, and whether a damaged
/// database may be reformatted on open.
#[derive(Clone, Debug)]
pub struct KVDBBuilder {
    /// The database name.
    pub name: String,
    /// The backing path for file-backed media, if any.
    pub path: Option<String>,
    /// The erase-unit size in bytes.
    pub sec_size: u32,
    /// The database's total capacity in bytes.
    pub max_size: u32,
    /// Whether reformatting a damaged database on open is forbidden.
    pub not_format: bool,
}

impl KVDBBuilder {
    /// Starts a configuration with the default erase-unit size and no backing
    /// path.
    pub fn new(name: &str, max_size: u32) -> (r: KVDBBuilder)
        ensures
            r.name@ == name@,
            r.path is None,
            r.sec_size == DEFAULT_SEC_SIZE,
            r.max_size == max_size,
            !r.not_format,
    {
        KVDBBuilder {
            name: name.to_owned(),
            path: None,
            sec_size: DEFAULT_SEC_SIZE,
            max_size,
            not_format: false,
        }
    }

    /// Starts a file-backed configuration with the default erase-unit size.
    pub fn file(name: &str, path: &str, max_size: u32) -> (r: KVDBBuilder)
        ensures
            r.name@ == name@,
            r.path matches Some(p) && p@ == path@,
            r.sec_size == DEFAULT_SEC_SIZE,
            r.max_size == max_size,
            !r.not_format,
    {
        KVDBBuilder {
            name: name.to_owned(),
            path: Some(path.to_owned()),
            sec_size: DEFAULT_SEC_SIZE,
            max_size,
            not_format: false,
        }
    }

    /// Sets the erase-unit size.
    pub fn with_sec_size(self, size: u32) -> (r: KVDBBuilder)
        ensures
            r == (KVDBBuilder { sec_size: size, ..self }),
    {
        KVDBBuilder { sec_size: size, ..self }
    }

    /// Forbids or allows reformatting a damaged database on open.
    pub fn with_not_format(self, enable: bool) -> (r: KVDBBuilder)
        ensures
            r == (KVDBBuilder { not_format: enable, ..self }),
    {
        KVDBBuilder { not_format: enable, ..self }
    }

    /// Sets the backing path.
    pub fn with_path(self, path: &str) -> (r: KVDBBuilder)
        ensures
            r.path matches Some(p) && p@ == path@,
            r.name == self.name,
            r.sec_size == self.sec_size,
            r.max_size == self.max_size,
            r.not_format == self.not_format,
    {
        KVDBBuilder { path: Some(path.to_owned()), ..self }
    }
}

} // verus!
