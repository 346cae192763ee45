//! The time-series record model: log status, the metadata snapshot of one
//! log entry, value retrieval against the medium, the push-iteration bridge
//! with its visitor protocol, time-range counting, and the database-opening
//! configuration.

use vstd::prelude::*;

verus! {

use crate::error::Error;
use crate::reader::{ValueReader, spec_value_window};
use crate::storage::MemStorage;

/// The lifecycle stage of a time-series log entry.
///
/// An entry moves `UNUSED` to `PRE_WRITE` to `Write`; the user-defined
/// statuses mark application stages between written and deleted (for
/// example, synced to a remote); `Deleted` is logically removed.
#[allow(non_camel_case_types)]
#[derive(Clone, Copy, Debug, PartialEq, Eq, Structural)]
pub enum TSLStatus {
    /// Slot never allocated.
    UNUSED,
    /// Header committed, payload write still in flight.
    PRE_WRITE,
    /// Fully committed; the default state after an append.
    Write,
    /// First application-defined stage; still readable.
    UserStatus1,
    /// Logically removed; unreadable.
    Deleted,
    /// Second application-defined stage; still readable.
    UserStatus2,
}

/// The status a raw engine discriminant denotes, if it is one the engine
/// publishes. The values are the engine's ABI and are mapped, never
/// recomputed; anything else is a corruption signal and maps to `None`.
pub open spec fn spec_tsl_status_of_raw(v: u32) -> Option<TSLStatus> {
    if v == 0 {
        Some(TSLStatus::UNUSED)
    } else if v == 1 {
        Some(TSLStatus::PRE_WRITE)
    } else if v == 2 {
        Some(TSLStatus::Write)
    } else if v == 3 {
        Some(TSLStatus::UserStatus1)
    } else if v == 4 {
        Some(TSLStatus::Deleted)
    } else if v == 5 {
        Some(TSLStatus::UserStatus2)
    } else {
        None
    }
}

/// Whether a log entry in this status has a retrievable value: committed
/// states and both user-defined stages are readable, `UNUSED` and `Deleted`
/// are not.
pub open spec fn spec_tsl_readable(s: TSLStatus) -> bool {
    ||| s == TSLStatus::PRE_WRITE
    ||| s == TSLStatus::Write
    ||| s == TSLStatus::UserStatus1
    ||| s == TSLStatus::UserStatus2
}

impl TSLStatus {
    /// Maps a raw engine discriminant to its status; out-of-range values are
    /// a corruption signal, reported as `None` rather than a panic.
    pub fn from_raw(v: u32) -> (r: Option<TSLStatus>)
        ensures
            r == spec_tsl_status_of_raw(v),
    {
        if v == 0 {
            Some(TSLStatus::UNUSED)
        } else if v == 1 {
            Some(TSLStatus::PRE_WRITE)
        } else if v == 2 {
            Some(TSLStatus::Write)
        } else if v == 3 {
            Some(TSLStatus::UserStatus1)
        } else if v == 4 {
            Some(TSLStatus::Deleted)
        } else if v == 5 {
            Some(TSLStatus::UserStatus2)
        } else {
            None
        }
    }

    /// Whether a log entry in this status has a retrievable value.
    pub fn is_readable(&self) -> (r: bool)
        ensures
            r == spec_tsl_readable(*self),
    {
        match self {
            TSLStatus::PRE_WRITE => true,
            TSLStatus::Write => true,
            TSLStatus::UserStatus1 => true,
            TSLStatus::UserStatus2 => true,
            _ => false,
        }
    }
}

/// An immutable metadata snapshot of one time-series log entry, as the
/// engine reported it at query time.
///
/// The snapshot owns nothing on the medium: it goes stale the moment the
/// engine mutates or compacts the entry it describes.
#[derive(Clone, Copy, Debug, PartialEq, Eq, Structural)]
pub struct TSLEntry {
    time: i64,
    status: TSLStatus,
    addr_index: u32,
    addr_log: u32,
    log_len: u32,
}

impl TSLEntry {
    /// The entry's timestamp.
    pub closed spec fn spec_time(self) -> i64 {
        self.time
    }

    /// The entry's lifecycle status.
    pub closed spec fn spec_status(self) -> TSLStatus {
        self.status
    }

    /// Physical address of the entry's index cell.
    pub closed spec fn spec_addr_index(self) -> u32 {
        self.addr_index
    }

    /// Physical address of the log payload.
    pub closed spec fn spec_addr_log(self) -> u32 {
        self.addr_log
    }

    /// Declared length of the log payload.
    pub closed spec fn spec_value_len(self) -> u32 {
        self.log_len
    }

    /// Builds a snapshot from the fields the engine reports.
    pub fn new(time: i64, status: TSLStatus, addr_index: u32, addr_log: u32, log_len: u32) -> (r:
        TSLEntry)
        ensures
            r.spec_time() == time,
            r.spec_status() == status,
            r.spec_addr_index() == addr_index,
            r.spec_addr_log() == addr_log,
            r.spec_value_len() == log_len,
    {
        TSLEntry { time, status, addr_index, addr_log, log_len }
    }

    /// The entry's lifecycle status.
    pub fn status(&self) -> (r: TSLStatus)
        ensures
            r == self.spec_status(),
    {
        self.status
    }

    /// The declared payload length in bytes.
    pub fn value_len(&self) -> (r: usize)
        ensures
            r == self.spec_value_len() as usize,
    {
        self.log_len as usize
    }

    /// The entry's timestamp.
    pub fn time(&self) -> (r: i64)
        ensures
            r == self.spec_time(),
    {
        self.time
    }

    /// Opens a streaming reader over this entry's payload bytes, positioned
    /// at the start.
    pub fn open_read(&self) -> (r: ValueReader)
        ensures
            r.wf(),
            r.spec_value_addr() == self.spec_addr_log(),
            r.spec_value_len() == self.spec_value_len(),
            r.spec_position() == 0,
    {
        ValueReader::new(self.addr_log, self.log_len)
    }
}

/// Retrieves the payload of a described log entry from the medium.
///
/// An entry whose status is not readable yields `Ok(None)` — never-written
/// and deleted are expected states, not errors. A readable entry yields
/// exactly `value_len` bytes from its recorded payload address; a payload
/// range reaching past the medium's capacity cannot be read in full and is a
/// `ReadError`, never a silently short buffer.
pub fn get_value(m: &MemStorage, entry: &TSLEntry) -> (r: Result<Option<Vec<u8>>, Error>)
    requires
        m.wf(),
    ensures
        !spec_tsl_readable(entry.spec_status()) ==> (r matches Ok(v) && v is None),
        spec_tsl_readable(entry.spec_status()) && entry.spec_addr_log() + entry.spec_value_len()
            <= m.spec_capacity() ==> (r matches Ok(v) && v matches Some(b) && b@
            == spec_value_window(
            *m,
            entry.spec_addr_log() as int,
            0,
            entry.spec_value_len() as int,
        )),
        spec_tsl_readable(entry.spec_status()) && entry.spec_addr_log() + entry.spec_value_len()
            > m.spec_capacity() ==> r == Err::<Option<Vec<u8>>, Error>(Error::ReadError),
{
    if !entry.status().is_readable() {
        return Ok(None);
    }
    if entry.addr_log as u64 + entry.log_len as u64 > m.capacity() as u64 {
        return Err(Error::ReadError);
    }
    match m.read(entry.addr_log, entry.log_len as usize) {
        Ok(data) => Ok(Some(data)),
        Err(e) => Err(e),
    }
}

/// Whether an entry's timestamp lies in the inclusive range `[from, to]`.
pub open spec fn spec_in_range(e: TSLEntry, from: i64, to: i64) -> bool {
    from <= e.spec_time() <= to
}

/// The visitor protocol of push iteration.
///
/// The engine owns traversal order and hands entries one at a time; the
/// visitor decides after each whether traversal continues. `Abs` is the
/// visitor's state viewed abstractly; `decide` and `step` say, over that
/// view, what one visit returns and does. The engine is an external
/// collaborator, so implementations outside this crate are taken at their
/// word — within it, every implementation is verified.
pub trait TslVisitor: Sized {
    /// The visitor's state, viewed abstractly.
    type Abs;

    /// The abstract view of the current state.
    spec fn abs(&self) -> Self::Abs;

    /// Whether a visit in state `a` of entry `e` asks to continue.
    spec fn decide(a: Self::Abs, e: TSLEntry) -> bool;

    /// The state after a visit in state `a` of entry `e`.
    spec fn step(a: Self::Abs, e: TSLEntry) -> Self::Abs;

    /// Visits one entry; the result is the continue decision.
    fn visit(&mut self, e: &TSLEntry) -> (r: bool)
        ensures
            r == Self::decide(old(self).abs(), *e),
            final(self).abs() == Self::step(old(self).abs(), *e),
    ;
}

/// What a traversal does: entries outside the time range are skipped without
/// a visit; each in-range entry is visited once, in order, until a visit
/// asks to stop. The result is the final visitor state and the number of
/// visits.
pub open spec fn spec_run<V: TslVisitor>(
    a: V::Abs,
    s: Seq<TSLEntry>,
    from: i64,
    to: i64,
) -> (V::Abs, nat)
    decreases s.len(),
{
    if s.len() == 0 {
        (a, 0)
    } else if !spec_in_range(s[0], from, to) {
        spec_run::<V>(a, s.drop_first(), from, to)
    } else if !V::decide(a, s[0]) {
        (V::step(a, s[0]), 1)
    } else {
        let p = spec_run::<V>(V::step(a, s[0]), s.drop_first(), from, to);
        (p.0, (p.1 + 1) as nat)
    }
}

/// Drives a push iteration over the entry snapshots the engine reported, in
/// the engine's order, visiting those whose timestamp lies in `[from, to]`
/// inclusive. Traversal is fully lazy: after a visit asks to stop, no
/// further entry is visited. Returns the visitor and the number of visits.
pub fn tsdb_iter_by_time<V: TslVisitor>(
    entries: &Vec<TSLEntry>,
    from: i64,
    to: i64,
    visitor: V,
) -> (r: (V, usize))
    ensures
        r.0.abs() == spec_run::<V>(visitor.abs(), entries@, from, to).0,
        r.1 as nat == spec_run::<V>(visitor.abs(), entries@, from, to).1,
{
    let ghost full = spec_run::<V>(visitor.abs(), entries@, from, to);
    let mut vis = visitor;
    let mut n: usize = 0;
    let mut i: usize = 0;
    let mut stopped: bool = false;
    proof {
        assert(entries@.subrange(0, entries@.len() as int) =~= entries@);
    }
    while i < entries.len() && !stopped
        invariant
            i <= entries@.len(),
            n <= i,
            full == spec_run::<V>(visitor.abs(), entries@, from, to),
            !stopped ==> {
                let p = spec_run::<V>(
                    vis.abs(),
                    entries@.subrange(i as int, entries@.len() as int),
                    from,
                    to,
                );
                full == (p.0, (p.1 + n) as nat)
            },
            stopped ==> full == (vis.abs(), n as nat),
        decreases entries@.len() - i,
    {
        let ghost rest = entries@.subrange(i as int, entries@.len() as int);
        proof {
            assert(rest[0] == entries@[i as int]);
            assert(rest.drop_first() =~= entries@.subrange(i as int + 1, entries@.len() as int));
        }
        let e = entries[i];
        if from <= e.time() && e.time() <= to {
            let go_on = vis.visit(&e);
            n = n + 1;
            if !go_on {
                stopped = true;
            }
        }
        i = i + 1;
    }
    proof {
        if !stopped {
            assert(entries@.subrange(i as int, entries@.len() as int).len() == 0);
        }
    }
    (vis, n)
}

/// Builds the reversed order of the reported snapshots.
fn reversed(entries: &Vec<TSLEntry>) -> (r: Vec<TSLEntry>)
    ensures
        r@ == entries@.reverse(),
{
    let mut out: Vec<TSLEntry> = Vec::new();
    let mut k: usize = 0;
    while k < entries.len()
        invariant
            k <= entries@.len(),
            out@.len() == k,
            forall|j: int| 0 <= j < k ==> out@[j] == entries@[entries@.len() - 1 - j],
        decreases entries@.len() - k,
    {
        out.push(entries[entries.len() - 1 - k]);
        k = k + 1;
    }
    proof {
        assert(out@ =~= entries@.reverse());
    }
    out
}

/// Drives a push iteration over all reported snapshots, oldest first, or
/// newest first when `reverse` is set. Visiting stops as soon as a visit
/// asks to; no further entry is visited. Returns the visitor and the number
/// of visits.
pub fn tsdb_iter<V: TslVisitor>(entries: &Vec<TSLEntry>, visitor: V, reverse: bool) -> (r: (
    V,
    usize,
))
    ensures
        ({
            let order = if reverse {
                entries@.reverse()
            } else {
                entries@
            };
            &&& r.0.abs() == spec_run::<V>(visitor.abs(), order, i64::MIN, i64::MAX).0
            &&& r.1 as nat == spec_run::<V>(visitor.abs(), order, i64::MIN, i64::MAX).1
        }),
{
    if reverse {
        let rev = reversed(entries);
        tsdb_iter_by_time(&rev, i64::MIN, i64::MAX, visitor)
    } else {
        tsdb_iter_by_time(entries, i64::MIN, i64::MAX, visitor)
    }
}

/// Law: a visit that asks to stop at the first in-range entry ends the
/// traversal after exactly one invocation, however many entries lie in
/// range behind it.
pub proof fn lemma_stop_on_first<V: TslVisitor>(
    a: V::Abs,
    s: Seq<TSLEntry>,
    from: i64,
    to: i64,
    k: int,
)
    requires
        0 <= k < s.len(),
        forall|j: int| 0 <= j < k ==> !spec_in_range(#[trigger] s[j], from, to),
        spec_in_range(s[k], from, to),
        !V::decide(a, s[k]),
    ensures
        spec_run::<V>(a, s, from, to).1 == 1,
    decreases k,
{
    if k == 0 {
    } else {
        assert(s.drop_first()[k - 1] == s[k]);
        assert(forall|j: int|
            0 <= j < k - 1 ==> !spec_in_range(#[trigger] s.drop_first()[j], from, to));
        lemma_stop_on_first::<V>(a, s.drop_first(), from, to, k - 1);
    }
}

/// How many reported entries carry the given status with a timestamp in
/// `[from, to]` inclusive, over the first `n` entries.
pub open spec fn spec_count(s: Seq<TSLEntry>, from: i64, to: i64, status: TSLStatus) -> nat
    decreases s.len(),
{
    if s.len() == 0 {
        0
    } else {
        spec_count(s.drop_last(), from, to, status) + if spec_in_range(s.last(), from, to)
            && s.last().spec_status() == status {
            1nat
        } else {
            0nat
        }
    }
}

/// Counts the reported entries of the given status whose timestamp lies in
/// `[from, to]` inclusive.
pub fn count(entries: &Vec<TSLEntry>, from: i64, to: i64, status: TSLStatus) -> (r: usize)
    ensures
        r as nat == spec_count(entries@, from, to, status),
{
    let mut n: usize = 0;
    let mut i: usize = 0;
    while i < entries.len()
        invariant
            i <= entries@.len(),
            n <= i,
            n as nat == spec_count(entries@.subrange(0, i as int), from, to, status),
        decreases entries@.len() - i,
    {
        let ghost pre = entries@.subrange(0, i as int);
        let ghost cur = entries@.subrange(0, i as int + 1);
        proof {
            assert(cur.drop_last() =~= pre);
            assert(cur.last() == entries@[i as int]);
        }
        let e = entries[i];
        if from <= e.time() && e.time() <= to && e.status() == status {
            n = n + 1;
        }
        i = i + 1;
    }
    proof {
        assert(entries@.subrange(0, entries@.len() as int) =~= entries@);
    }
    n
}

/// A visitor that collects the entries it is shown, and asks to stop once it
/// holds `limit` of them.
///
/// With a limit of one it stops the traversal at the first visited entry;
/// with a limit no traversal can reach it collects everything.
pub struct EntryCollector {
    taken: Vec<TSLEntry>,
    limit: usize,
}

impl TslVisitor for EntryCollector {
    type Abs = (Seq<TSLEntry>, int);

    closed spec fn abs(&self) -> (Seq<TSLEntry>, int) {
        (self.taken@, self.limit as int)
    }

    open spec fn decide(a: (Seq<TSLEntry>, int), e: TSLEntry) -> bool {
        a.0.len() + 1 < a.1
    }

    open spec fn step(a: (Seq<TSLEntry>, int), e: TSLEntry) -> (Seq<TSLEntry>, int) {
        (a.0.push(e), a.1)
    }

    fn visit(&mut self, e: &TSLEntry) -> (r: bool)
        ensures
            r == Self::decide(old(self).abs(), *e),
            final(self).abs() == Self::step(old(self).abs(), *e),
    {
        self.taken.push(*e);
        self.taken.len() < self.limit
    }
}

impl EntryCollector {
    /// An empty collector that asks to stop once it holds `limit` entries.
    pub fn new(limit: usize) -> (r: EntryCollector)
        ensures
            r.abs() == (Seq::<TSLEntry>::empty(), limit as int),
    {
        EntryCollector { taken: Vec::new(), limit }
    }

    /// The entries collected so far, in visiting order.
    pub fn entries(&self) -> (r: &Vec<TSLEntry>)
        ensures
            r@ == self.abs().0,
    {
        &self.taken
    }
}

/// Configuration of a time-series database before it is opened: name,
/// optional backing path, the per-entry length limit, erase-unit size, total
/// capacity, and whether a damaged database may be reformatted on open.
#[derive(Clone, Debug)]
pub struct TSDBBuilder {
    /// The database name.
    pub name: String,
    /// The backing path for file-backed media, if any.
    pub path: Option<String>,
    /// The longest payload one log entry may carry, in bytes.
    pub entry_max_len: usize,
    /// The erase-unit size in bytes.
    pub sec_size: u32,
    /// The database's total capacity in bytes.
    pub max_size: u32,
    /// Whether reformatting a damaged database on open is forbidden.
    pub not_format: bool,
}

impl TSDBBuilder {
    /// Starts a configuration with the default erase-unit size and no
    /// backing path.
    pub fn new(name: &str, max_size: u32, entry_max_len: usize) -> (r: TSDBBuilder)
        ensures
            r.name@ == name@,
            r.path is None,
            r.entry_max_len == entry_max_len,
            r.sec_size == crate::kvdb::DEFAULT_SEC_SIZE,
            r.max_size == max_size,
            !r.not_format,
    {
        TSDBBuilder {
            name: name.to_owned(),
            path: None,
            entry_max_len,
            sec_size: crate::kvdb::DEFAULT_SEC_SIZE,
            max_size,
            not_format: false,
        }
    }

    /// Starts a file-backed configuration with the default erase-unit size.
    pub fn file(name: &str, path: &str, max_size: u32, entry_max: usize) -> (r: TSDBBuilder)
        ensures
            r.name@ == name@,
            r.path matches Some(p) && p@ == path@,
            r.entry_max_len == entry_max,
            r.sec_size == crate::kvdb::DEFAULT_SEC_SIZE,
            r.max_size == max_size,
            !r.not_format,
    {
        TSDBBuilder {
            name: name.to_owned(),
            path: Some(path.to_owned()),
            entry_max_len: entry_max,
            sec_size: crate::kvdb::DEFAULT_SEC_SIZE,
            max_size,
            not_format: false,
        }
    }

    /// Sets the database name.
    pub fn with_name(self, name: &str) -> (r: TSDBBuilder)
        ensures
            r.name@ == name@,
            r.path == self.path,
            r.entry_max_len == self.entry_max_len,
            r.sec_size == self.sec_size,
            r.max_size == self.max_size,
            r.not_format == self.not_format,
    {
        TSDBBuilder { name: name.to_owned(), ..self }
    }

    /// Sets the longest payload one log entry may carry.
    pub fn with_entry_max_len(self, entry_max_len: usize) -> (r: TSDBBuilder)
        ensures
            r == (TSDBBuilder { entry_max_len, ..self }),
    {
        TSDBBuilder { entry_max_len, ..self }
    }

    /// Sets the erase-unit size.
    pub fn with_sec_size(self, sec_size: u32) -> (r: TSDBBuilder)
        ensures
            r == (TSDBBuilder { sec_size, ..self }),
    {
        TSDBBuilder { sec_size, ..self }
    }

    /// Sets the database's total capacity.
    pub fn with_max_size(self, max_size: u32) -> (r: TSDBBuilder)
        ensures
            r == (TSDBBuilder { max_size, ..self }),
    {
        TSDBBuilder { max_size, ..self }
    }

    /// Forbids or allows reformatting a damaged database on open.
    pub fn with_not_format(self, not_format: bool) -> (r: TSDBBuilder)
        ensures
            r == (TSDBBuilder { not_format, ..self }),
    {
        TSDBBuilder { not_format, ..self }
    }

    /// Sets the backing path.
    pub fn with_path(self, path: &str) -> (r: TSDBBuilder)
        ensures
            r.path matches Some(p) && p@ == path@,
            r.name == self.name,
            r.entry_max_len == self.entry_max_len,
            r.sec_size == self.sec_size,
            r.max_size == self.max_size,
            r.not_format == self.not_format,
    {
        TSDBBuilder { path: Some(path.to_owned()), ..self }
    }
}

} // verus!
