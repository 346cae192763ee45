//! The storage-medium abstraction: flash-like erase/read/write semantics over
//! a set of per-unit byte images laid out the way the file-backed medium lays
//! out its files.
//!
//! `MemStorage` keeps each backing file's current image in memory. A unit
//! image may be shorter than the erase unit: bytes past its end read as the
//! erased-value marker, exactly as a never-written region of a backing file
//! does. This is the verified statement of the medium contract; an on-disk
//! backend reproduces it file by file.

use vstd::prelude::*;
use vstd::arithmetic::div_mod::{lemma_fundamental_div_mod, lemma_fundamental_div_mod_converse};

verus! {

use crate::error::Error;

/// The byte every erased or never-written location reads as.
pub const ERASED_BYTE: u8 = 0xFF;

/// How the address space maps onto backing files.
#[derive(Clone, Copy, Debug, PartialEq, Eq, Structural)]
pub enum FileStrategy {
    /// One file holds the whole address space.
    Single,
    /// One file per erase unit, indexed by unit number.
    Multi,
}

/// The backing-file index an address falls in.
pub open spec fn spec_unit_of(strategy: FileStrategy, sec_size: u32, addr: int) -> int {
    match strategy {
        FileStrategy::Single => 0,
        FileStrategy::Multi => addr / (sec_size as int),
    }
}

/// The offset within its backing file an address falls at.
pub open spec fn spec_offset_of(strategy: FileStrategy, sec_size: u32, addr: int) -> int {
    match strategy {
        FileStrategy::Single => addr,
        FileStrategy::Multi => addr % (sec_size as int),
    }
}

/// Whether an erase request is acceptable: a single-file medium erases any
/// byte range, a unit-per-file medium only whole, aligned erase units.
pub open spec fn spec_erase_ok(strategy: FileStrategy, sec_size: u32, addr: int, size: int) -> bool {
    match strategy {
        FileStrategy::Single => true,
        FileStrategy::Multi => addr % (sec_size as int) == 0 && size == sec_size as int,
    }
}

/// The byte a file image yields at an offset: the stored byte inside the
/// image, the erased marker past its end.
spec fn file_byte(file: Seq<u8>, off: int) -> u8 {
    if 0 <= off < file.len() {
        file[off]
    } else {
        ERASED_BYTE
    }
}

/// A file image after writing `data` at `off`: the gap between the old end
/// and `off`, if any, is filled with the erased marker, so that every byte
/// keeps the value it previously read as.
spec fn spec_file_write(old_file: Seq<u8>, off: int, data: Seq<u8>) -> Seq<u8> {
    let new_len = if old_file.len() >= off + data.len() {
        old_file.len() as int
    } else {
        off + data.len()
    };
    Seq::new(
        new_len as nat,
        |i: int|
            if off <= i < off + data.len() {
                data[i - off]
            } else {
                file_byte(old_file, i)
            },
    )
}

/// After a file write, each offset reads as the written byte inside the
/// written range and as whatever it read before outside it.
proof fn lemma_file_write_byte(old_file: Seq<u8>, off: int, data: Seq<u8>, o: int)
    requires
        0 <= off,
        0 <= o,
    ensures
        file_byte(spec_file_write(old_file, off, data), o) == if off <= o < off + data.len() {
            data[o - off]
        } else {
            file_byte(old_file, o)
        },
{
}

/// States that `post` is `pre` with the bytes of `data` laid down at `addr`
/// and everything else unchanged. `write` and `erase` promise exactly this.
pub open spec fn updated_range(pre: Seq<u8>, post: Seq<u8>, addr: int, data: Seq<u8>) -> bool {
    &&& post.len() == pre.len()
    &&& forall|i: int|
        0 <= i < pre.len() ==> post[i] == if addr <= i < addr + data.len() {
            data[i - addr]
        } else {
            pre[i]
        }
}

/// An all-erased byte sequence of the given length.
pub open spec fn erased_seq(len: int) -> Seq<u8> {
    Seq::new(len as nat, |i: int| ERASED_BYTE)
}

/// A medium whose backing-file images live in memory.
///
/// The logical view is `contents()`: one byte per address in
/// `[0, capacity)`. All operation contracts are stated over it.
pub struct MemStorage {
    strategy: FileStrategy,
    sec_size: u32,
    capacity: u32,
    files: Vec<Vec<u8>>,
}

impl MemStorage {
    /// Well-formedness: a positive erase unit dividing the capacity, and one
    /// file image per unit (or a single image), none longer than its region.
    pub closed spec fn wf(self) -> bool {
        &&& self.sec_size >= 1
        &&& self.capacity as int % self.sec_size as int == 0
        &&& match self.strategy {
            FileStrategy::Single => self.files@.len() == 1 && self.files@[0]@.len()
                <= self.capacity,
            FileStrategy::Multi => {
                &&& self.files@.len() == self.capacity as int / self.sec_size as int
                &&& forall|u: int|
                    0 <= u < self.files@.len() ==> (#[trigger] self.files@[u])@.len()
                        <= self.sec_size
            },
        }
    }

    /// The strategy the medium was opened with.
    pub closed spec fn spec_strategy(self) -> FileStrategy {
        self.strategy
    }

    /// The erase-unit size in bytes.
    pub closed spec fn spec_sec_size(self) -> u32 {
        self.sec_size
    }

    /// The total size of the address space in bytes.
    pub closed spec fn spec_capacity(self) -> u32 {
        self.capacity
    }

    /// The byte each address currently reads as.
    pub closed spec fn contents(self) -> Seq<u8> {
        Seq::new(
            self.capacity as nat,
            |i: int|
                file_byte(
                    self.files@[spec_unit_of(self.strategy, self.sec_size, i)]@,
                    spec_offset_of(self.strategy, self.sec_size, i),
                ),
        )
    }

    /// A medium no write or erase has ever touched: every backing image is
    /// still empty.
    pub closed spec fn is_fresh(self) -> bool {
        forall|u: int| 0 <= u < self.files@.len() ==> (#[trigger] self.files@[u])@.len() == 0
    }

    /// Whether a write request stays inside one erase unit where the layout
    /// demands it. A unit-per-file medium cannot lay bytes across two files.
    pub open spec fn write_ok(self, addr: int, len: int) -> bool {
        match self.spec_strategy() {
            FileStrategy::Single => true,
            FileStrategy::Multi => addr % (self.spec_sec_size() as int) + len
                <= self.spec_sec_size() as int,
        }
    }

    /// Opens a fresh medium. No byte storage is allocated for the backing
    /// images; they grow lazily on first write, as backing files would.
    pub fn new(strategy: FileStrategy, sec_size: u32, capacity: u32) -> (r: MemStorage)
        requires
            sec_size >= 1,
            capacity as int % sec_size as int == 0,
        ensures
            r.wf(),
            r.is_fresh(),
            r.spec_strategy() == strategy,
            r.spec_sec_size() == sec_size,
            r.spec_capacity() == capacity,
            r.contents() == erased_seq(capacity as int),
    {
        let units: usize = match strategy {
            FileStrategy::Single => 1,
            FileStrategy::Multi => (capacity / sec_size) as usize,
        };
        let mut files: Vec<Vec<u8>> = Vec::new();
        while files.len() < units
            invariant
                files@.len() <= units,
                forall|u: int| 0 <= u < files@.len() ==> (#[trigger] files@[u])@.len() == 0,
            decreases units - files.len(),
        {
            files.push(Vec::new());
        }
        let r = MemStorage { strategy, sec_size, capacity, files };
        proof {
            assert forall|i: int| 0 <= i < capacity implies r.contents()[i] == ERASED_BYTE by {
                if strategy is Multi {
                    lemma_unit_in_range(sec_size as int, capacity as int, i);
                }
            }
            assert(r.contents() =~= erased_seq(capacity as int));
        }
        r
    }

    /// The total size of the address space in bytes.
    pub fn capacity(&self) -> (r: u32)
        ensures
            r == self.spec_capacity(),
    {
        self.capacity
    }

    /// The erase-unit size in bytes.
    pub fn erase_unit_size(&self) -> (r: u32)
        ensures
            r == self.spec_sec_size(),
    {
        self.sec_size
    }

    /// The strategy the medium was opened with.
    pub fn strategy(&self) -> (r: FileStrategy)
        ensures
            r == self.spec_strategy(),
    {
        self.strategy
    }

    /// The byte one address reads as.
    fn byte_at(&self, addr: u32) -> (r: u8)
        requires
            self.wf(),
            addr < self.spec_capacity(),
        ensures
            r == self.contents()[addr as int],
    {
        let (unit, off) = locate(self.strategy, self.sec_size, addr);
        proof {
            if self.strategy is Multi {
                lemma_unit_in_range(self.sec_size as int, self.capacity as int, addr as int);
            }
        }
        let file = &self.files[unit as usize];
        if (off as usize) < file.len() {
            file[off as usize]
        } else {
            ERASED_BYTE
        }
    }

    /// Reads `len` bytes starting at `addr`.
    ///
    /// Never fails and never yields uninitialized data: each byte is the one
    /// last written there, or the erased marker if none ever was.
    pub fn read(&self, addr: u32, len: usize) -> (r: Result<Vec<u8>, Error>)
        requires
            self.wf(),
            addr as int + len as int <= self.spec_capacity() as int,
        ensures
            r matches Ok(b) && b@ == self.contents().subrange(addr as int, addr as int + len as int),
    {
        let mut out: Vec<u8> = Vec::new();
        let mut i: usize = 0;
        while i < len
            invariant
                self.wf(),
                addr as int + len as int <= self.spec_capacity() as int,
                i <= len,
                out@ == self.contents().subrange(addr as int, addr as int + i as int),
            decreases len - i,
        {
            let b = self.byte_at(addr + (i as u32));
            out.push(b);
            proof {
                assert(out@ =~= self.contents().subrange(addr as int, addr as int + i as int + 1));
            }
            i = i + 1;
        }
        Ok(out)
    }

    /// Writes `data` at `addr`.
    ///
    /// Exactly the addressed range changes; on a unit-per-file medium the
    /// range must not cross an erase-unit boundary, since the bytes land in
    /// one backing image.
    pub fn write(&mut self, addr: u32, data: &[u8]) -> (r: Result<(), Error>)
        requires
            old(self).wf(),
            addr as int + data@.len() <= old(self).spec_capacity() as int,
            old(self).write_ok(addr as int, data@.len() as int),
        ensures
            r is Ok,
            final(self).wf(),
            final(self).spec_strategy() == old(self).spec_strategy(),
            final(self).spec_sec_size() == old(self).spec_sec_size(),
            final(self).spec_capacity() == old(self).spec_capacity(),
            updated_range(old(self).contents(), final(self).contents(), addr as int, data@),
    {
        let ghost pre = *self;
        if data.len() == 0 {
            return Ok(());
        }
        let (unit, off) = locate(self.strategy, self.sec_size, addr);
        proof {
            assert(addr < self.capacity);
            if self.strategy is Multi {
                lemma_unit_in_range(self.sec_size as int, self.capacity as int, addr as int);
            }
        }
        let mut file = self.files.remove(unit as usize);
        file_write(&mut file, off as usize, data);
        self.files.insert(unit as usize, file);
        proof {
            assert(self.files@ =~= pre.files@.update(unit as int, self.files@[unit as int]));
            lemma_medium_write(pre, *self, unit as int, off as int, data@, addr as int);
        }
        Ok(())
    }

    /// Erases `size` bytes starting at `addr`, filling them with the erased
    /// marker.
    ///
    /// On a unit-per-file medium the range must be exactly one aligned erase
    /// unit; any other range is rejected with `InvalidArgument` and nothing
    /// changes. A single-file medium erases any byte range.
    pub fn erase(&mut self, addr: u32, size: u32) -> (r: Result<(), Error>)
        requires
            old(self).wf(),
            addr as int + size as int <= old(self).spec_capacity() as int,
        ensures
            final(self).wf(),
            final(self).spec_strategy() == old(self).spec_strategy(),
            final(self).spec_sec_size() == old(self).spec_sec_size(),
            final(self).spec_capacity() == old(self).spec_capacity(),
            r is Ok <==> spec_erase_ok(
                old(self).spec_strategy(),
                old(self).spec_sec_size(),
                addr as int,
                size as int,
            ),
            r is Ok ==> updated_range(
                old(self).contents(),
                final(self).contents(),
                addr as int,
                erased_seq(size as int),
            ),
            r matches Err(e) ==> e == Error::InvalidArgument && *final(self) == *old(self),
    {
        let ghost pre = *self;
        match self.strategy {
            FileStrategy::Multi => {
                if addr % self.sec_size != 0 || size != self.sec_size {
                    return Err(Error::InvalidArgument);
                }
                let unit = addr / self.sec_size;
                proof {
                    lemma_unit_in_range(self.sec_size as int, self.capacity as int, addr as int);
                }
                // Mirror the file backend: drop the old image wholesale and
                // lay down a full unit of erased bytes.
                let mut fresh: Vec<u8> = Vec::new();
                while fresh.len() < self.sec_size as usize
                    invariant
                        fresh@.len() <= self.sec_size as usize,
                        forall|i: int| 0 <= i < fresh@.len() ==> fresh@[i] == ERASED_BYTE,
                    decreases self.sec_size as usize - fresh.len(),
                {
                    fresh.push(ERASED_BYTE);
                }
                proof {
                    assert(fresh@ =~= erased_seq(pre.sec_size as int));
                }
                self.files.remove(unit as usize);
                self.files.insert(unit as usize, fresh);
                proof {
                    assert(self.files@ =~= pre.files@.update(
                        unit as int,
                        self.files@[unit as int],
                    ));
                    lemma_medium_erase_unit(pre, *self, unit as int, addr as int);
                }
                Ok(())
            },
            FileStrategy::Single => {
                let mut marker: Vec<u8> = Vec::new();
                while marker.len() < size as usize
                    invariant
                        marker@.len() <= size as usize,
                        forall|i: int| 0 <= i < marker@.len() ==> marker@[i] == ERASED_BYTE,
                    decreases size as usize - marker.len(),
                {
                    marker.push(ERASED_BYTE);
                }
                proof {
                    assert(marker@ =~= erased_seq(size as int));
                }
                self.write(addr, marker.as_slice())
            },
        }
    }
}

/// Law: on a fresh medium, every address a read can touch still holds the
/// erased-value marker, so `read` over any in-capacity range returns only
/// erased bytes and no error.
pub proof fn lemma_fresh_reads_erased(m: MemStorage, addr: int, len: int)
    requires
        m.wf(),
        m.is_fresh(),
        0 <= addr,
        0 <= len,
        addr + len <= m.spec_capacity() as int,
    ensures
        m.contents().subrange(addr, addr + len) == erased_seq(len),
{
    assert forall|i: int| 0 <= i < m.spec_capacity() implies m.contents()[i] == ERASED_BYTE by {
        if m.spec_strategy() is Multi {
            lemma_unit_in_range(m.spec_sec_size() as int, m.spec_capacity() as int, i);
        }
    }
    assert(m.contents().subrange(addr, addr + len) =~= erased_seq(len));
}

/// Law: an erase followed immediately by a read over the same range returns
/// only erased bytes. `updated_range` with an all-erased payload is what
/// `erase` establishes; `read` returns the subrange of the new contents.
pub proof fn lemma_erase_then_read(pre: Seq<u8>, post: Seq<u8>, addr: int, size: int)
    requires
        0 <= addr,
        0 <= size,
        addr + size <= pre.len(),
        updated_range(pre, post, addr, erased_seq(size)),
    ensures
        post.subrange(addr, addr + size) == erased_seq(size),
{
    assert(post.subrange(addr, addr + size) =~= erased_seq(size));
}

/// Law: a write followed by a read of the written range returns exactly the
/// written data. `updated_range` is what `write` establishes; `read` returns
/// the subrange of the new contents.
pub proof fn lemma_write_then_read(pre: Seq<u8>, post: Seq<u8>, addr: int, data: Seq<u8>)
    requires
        0 <= addr,
        addr + data.len() <= pre.len(),
        updated_range(pre, post, addr, data),
    ensures
        post.subrange(addr, addr + data.len() as int) == data,
{
    assert(post.subrange(addr, addr + data.len() as int) =~= data);
}

#[verifier::external_type_specification]
#[verifier::external_body]
#[verifier::reject_recursive_types(K)]
#[verifier::reject_recursive_types(V)]
#[verifier::reject_recursive_types(S)]
pub struct ExLruCache<K, V, S>(lru::LruCache<K, V, S>);

/// The cache type the file backend keeps its handle numbers in.
pub type HandleLru = lru::LruCache<u32, u64>;

/// What the handle cache holds: the open-handle number stored for each
/// cached unit index.
pub uninterp spec fn cache_map(c: HandleLru) -> Map<u32, u64>;

/// The empty unit-to-handle map.
pub open spec fn empty_unit_map() -> Map<u32, u64> {
    Map::empty()
}

/// The bound the handle cache was created with.
pub uninterp spec fn cache_cap(c: HandleLru) -> int;

/// Relies on `lru::LruCache::new`: a fresh cache holds nothing and keeps at
/// most `cap` entries.
#[verifier::external_body]
fn lru_new(cap: usize) -> (r: HandleLru)
    requires
        cap >= 1,
    ensures
        cache_cap(r) == cap as int,
        cache_map(r) == empty_unit_map(),
{
    lru::LruCache::new(std::num::NonZeroUsize::new(cap).unwrap())
}

/// Relies on `lru::LruCache::push`: stores the pair and hands back the pair
/// it displaced — the key's old pair when the key was already cached, else
/// the least-recently-used pair when the cache was full, else nothing.
#[verifier::external_body]
fn lru_push(c: &mut HandleLru, k: u32, v: u64) -> (r: Option<(u32, u64)>)
    ensures
        cache_cap(*final(c)) == cache_cap(*old(c)),
        r is None ==> !cache_map(*old(c)).contains_key(k) && cache_map(*final(c)) == cache_map(
            *old(c),
        ).insert(k, v),
        r matches Some(p) ==> cache_map(*old(c)).contains_key(p.0) && cache_map(*old(c))[p.0]
            == p.1 && cache_map(*final(c)) == cache_map(*old(c)).remove(p.0).insert(k, v),
        cache_map(*old(c)).contains_key(k) ==> (r matches Some(p) && p.0 == k),
{
    c.push(k, v)
}

/// Relies on `lru::LruCache::get`: the value stored for the key, if any; the
/// key becomes most recently used but the contents do not change.
#[verifier::external_body]
fn lru_get(c: &mut HandleLru, k: u32) -> (r: Option<u64>)
    ensures
        cache_cap(*final(c)) == cache_cap(*old(c)),
        cache_map(*final(c)) == cache_map(*old(c)),
        r == if cache_map(*old(c)).contains_key(k) {
            Some(cache_map(*old(c))[k])
        } else {
            None::<u64>
        },
{
    c.get(&k).copied()
}

/// Relies on `lru::LruCache::pop`: removes the key and hands back the value
/// it held, if any.
#[verifier::external_body]
fn lru_pop(c: &mut HandleLru, k: u32) -> (r: Option<u64>)
    ensures
        cache_cap(*final(c)) == cache_cap(*old(c)),
        cache_map(*final(c)) == cache_map(*old(c)).remove(k),
        r == if cache_map(*old(c)).contains_key(k) {
            Some(cache_map(*old(c))[k])
        } else {
            None::<u64>
        },
{
    c.pop(&k)
}

/// Relies on `lru::LruCache::contains`: whether the key is cached, touching
/// nothing.
#[verifier::external_body]
fn lru_contains(c: &HandleLru, k: u32) -> (r: bool)
    ensures
        r == cache_map(*c).contains_key(k),
{
    c.contains(&k)
}

/// How many open handles a file-backed medium keeps at once.
pub const HANDLE_CACHE_SIZE: usize = 8;

/// The bounded cache of open backing-file handles, keyed by unit index.
///
/// A handle is an opaque number the file backend assigns to an open file; a
/// miss means the backend must open the unit's file and `remember` it, and
/// whatever `remember` displaces the backend closes. Erasing a unit
/// `forget`s its handle first, so a stale write-behind buffer can never
/// straddle an erase.
pub struct UnitCache {
    inner: HandleLru,
}

impl UnitCache {
    /// The handle stored for each cached unit.
    pub closed spec fn spec_map(self) -> Map<u32, u64> {
        cache_map(self.inner)
    }

    /// The bound the cache was created with.
    pub closed spec fn spec_cap(self) -> int {
        cache_cap(self.inner)
    }

    /// An empty cache bounded at the backend's handle budget.
    pub fn new() -> (r: UnitCache)
        ensures
            r.spec_map() == empty_unit_map(),
            r.spec_cap() == HANDLE_CACHE_SIZE as int,
    {
        UnitCache { inner: lru_new(HANDLE_CACHE_SIZE) }
    }

    /// The cached handle for a unit, freshening its recency; the contents do
    /// not change.
    pub fn lookup(&mut self, unit: u32) -> (r: Option<u64>)
        ensures
            final(self).spec_map() == old(self).spec_map(),
            final(self).spec_cap() == old(self).spec_cap(),
            r == if old(self).spec_map().contains_key(unit) {
                Some(old(self).spec_map()[unit])
            } else {
                None::<u64>
            },
    {
        lru_get(&mut self.inner, unit)
    }

    /// Whether a unit's handle is cached, touching nothing.
    pub fn contains(&self, unit: u32) -> (r: bool)
        ensures
            r == self.spec_map().contains_key(unit),
    {
        lru_contains(&self.inner, unit)
    }

    /// Caches a unit's handle. The displaced pair, if any, comes back so the
    /// backend can close its handle; after the call the unit is cached.
    pub fn remember(&mut self, unit: u32, handle: u64) -> (r: Option<(u32, u64)>)
        ensures
            final(self).spec_cap() == old(self).spec_cap(),
            final(self).spec_map().contains_key(unit),
            final(self).spec_map()[unit] == handle,
            r is None ==> !old(self).spec_map().contains_key(unit) && final(self).spec_map()
                == old(self).spec_map().insert(unit, handle),
            r matches Some(p) ==> old(self).spec_map().contains_key(p.0) && old(
                self,
            ).spec_map()[p.0] == p.1 && final(self).spec_map() == old(self).spec_map().remove(
                p.0,
            ).insert(unit, handle),
    {
        lru_push(&mut self.inner, unit, handle)
    }

    /// Drops a unit's handle from the cache, handing it back for the backend
    /// to close; afterwards the unit is not cached.
    pub fn forget(&mut self, unit: u32) -> (r: Option<u64>)
        ensures
            final(self).spec_cap() == old(self).spec_cap(),
            final(self).spec_map() == old(self).spec_map().remove(unit),
            !final(self).spec_map().contains_key(unit),
            r == if old(self).spec_map().contains_key(unit) {
                Some(old(self).spec_map()[unit])
            } else {
                None::<u64>
            },
    {
        lru_pop(&mut self.inner, unit)
    }

    /// The backend's unit resolution: the unit and in-file offset of an
    /// address, along with the cached handle of that unit, if one is cached.
    pub fn resolve(&mut self, strategy: FileStrategy, sec_size: u32, addr: u32) -> (r: (
        u32,
        u32,
        Option<u64>,
    ))
        requires
            sec_size >= 1,
        ensures
            final(self).spec_map() == old(self).spec_map(),
            final(self).spec_cap() == old(self).spec_cap(),
            r.0 == spec_unit_of(strategy, sec_size, addr as int),
            r.1 == spec_offset_of(strategy, sec_size, addr as int),
            r.2 == if old(self).spec_map().contains_key(r.0) {
                Some(old(self).spec_map()[r.0])
            } else {
                None::<u64>
            },
    {
        let (unit, off) = locate(strategy, sec_size, addr);
        let handle = self.lookup(unit);
        (unit, off, handle)
    }
}

/// Maps an address to its backing-file index and the offset inside the file.
pub fn locate(strategy: FileStrategy, sec_size: u32, addr: u32) -> (r: (u32, u32))
    requires
        sec_size >= 1,
    ensures
        r.0 == spec_unit_of(strategy, sec_size, addr as int),
        r.1 == spec_offset_of(strategy, sec_size, addr as int),
{
    match strategy {
        FileStrategy::Single => (0, addr),
        FileStrategy::Multi => (addr / sec_size, addr % sec_size),
    }
}

/// Whether an erase request of this shape is acceptable to the medium.
pub fn erase_args_ok(strategy: FileStrategy, sec_size: u32, addr: u32, size: u32) -> (r: bool)
    requires
        sec_size >= 1,
    ensures
        r == spec_erase_ok(strategy, sec_size, addr as int, size as int),
{
    match strategy {
        FileStrategy::Single => true,
        FileStrategy::Multi => addr % sec_size == 0 && size == sec_size,
    }
}

/// Overwrites everything from `n_read` on with the erased marker, keeping the
/// first `n_read` bytes. A backend whose backing file ended mid-read uses
/// this to hand back erased-looking bytes for the part past the end.
pub fn fill_erased_tail(buf: &mut Vec<u8>, n_read: usize)
    requires
        n_read <= old(buf)@.len(),
    ensures
        final(buf)@.len() == old(buf)@.len(),
        forall|i: int|
            0 <= i < final(buf)@.len() ==> final(buf)@[i] == if i < n_read {
                old(buf)@[i]
            } else {
                ERASED_BYTE
            },
{
    let mut i: usize = n_read;
    while i < buf.len()
        invariant
            n_read <= i <= buf@.len(),
            buf@.len() == old(buf)@.len(),
            forall|j: int|
                0 <= j < buf@.len() ==> buf@[j] == if j < n_read || j >= i {
                    old(buf)@[j]
                } else {
                    ERASED_BYTE
                },
        decreases buf@.len() - i,
    {
        buf[i] = ERASED_BYTE;
        i = i + 1;
    }
}

/// Writes `data` into a file image at `off`, padding any gap between the old
/// end of the image and `off` with the erased marker.
fn file_write(f: &mut Vec<u8>, off: usize, data: &[u8])
    requires
        off + data@.len() <= usize::MAX,
    ensures
        final(f)@ == spec_file_write(old(f)@, off as int, data@),
{
    let ghost orig = f@;
    while f.len() < off
        invariant
            off + data@.len() <= usize::MAX,
            orig.len() >= off ==> f@ == orig,
            orig.len() < off ==> {
                &&& orig.len() <= f@.len() <= off
                &&& forall|j: int|
                    0 <= j < f@.len() ==> f@[j] == if j < orig.len() {
                        orig[j]
                    } else {
                        ERASED_BYTE
                    }
            },
        decreases off - f.len(),
    {
        f.push(ERASED_BYTE);
    }
    let ghost base = f@;
    assert(base.len() >= off);
    assert(forall|j: int| 0 <= j < base.len() ==> base[j] == file_byte(orig, j));
    let mut i: usize = 0;
    while i < data.len()
        invariant
            off + data@.len() <= usize::MAX,
            i <= data@.len(),
            base.len() >= off,
            f@.len() == if base.len() >= off + i {
                base.len() as int
            } else {
                off + i
            },
            forall|j: int|
                0 <= j < f@.len() ==> f@[j] == if off <= j < off + i {
                    data@[j - off]
                } else if j < base.len() {
                    base[j]
                } else {
                    ERASED_BYTE
                },
        decreases data@.len() - i,
    {
        let pos = off + i;
        if pos < f.len() {
            f[pos] = data[i];
        } else {
            f.push(data[i]);
        }
        i = i + 1;
    }
    proof {
        assert(f@ =~= spec_file_write(orig, off as int, data@));
    }
}

/// On a unit-per-file medium, an in-capacity address falls in an in-range
/// unit, at an offset inside the unit.
proof fn lemma_unit_in_range(sec: int, cap: int, addr: int)
    requires
        sec >= 1,
        cap % sec == 0,
        0 <= addr < cap,
    ensures
        0 <= addr / sec < cap / sec,
        0 <= addr % sec < sec,
{
    lemma_fundamental_div_mod(addr, sec);
    lemma_fundamental_div_mod(cap, sec);
    if addr / sec >= cap / sec {
        assert(addr >= sec * (cap / sec) + addr % sec) by (nonlinear_arith)
            requires
                addr == sec * (addr / sec) + addr % sec,
                addr / sec >= cap / sec,
                sec >= 1,
        ;
        assert(false);
    }
    if addr / sec < 0 {
        assert(addr < 0) by (nonlinear_arith)
            requires
                addr == sec * (addr / sec) + addr % sec,
                addr / sec < 0,
                0 <= addr % sec < sec,
                sec >= 1,
        ;
        assert(false);
    }
}

/// Addresses inside a within-unit range share the unit of the range's start,
/// at consecutive offsets.
proof fn lemma_same_unit(sec: int, addr: int, len: int, i: int)
    requires
        sec >= 1,
        0 <= addr,
        0 <= len,
        addr % sec + len <= sec,
        addr <= i < addr + len,
    ensures
        i / sec == addr / sec,
        i % sec == addr % sec + (i - addr),
{
    lemma_fundamental_div_mod(addr, sec);
    assert(sec * (addr / sec) == (addr / sec) * sec) by (nonlinear_arith);
    lemma_fundamental_div_mod_converse(i, sec, addr / sec, addr % sec + (i - addr));
}

/// An address outside a within-unit range either lies in another unit or at
/// an offset outside the range's offsets.
proof fn lemma_other_unit(sec: int, addr: int, len: int, i: int)
    requires
        sec >= 1,
        0 <= addr,
        0 <= len,
        addr % sec + len <= sec,
        0 <= i,
        !(addr <= i < addr + len),
        i / sec == addr / sec,
    ensures
        !(addr % sec <= i % sec < addr % sec + len),
{
    lemma_fundamental_div_mod(addr, sec);
    lemma_fundamental_div_mod(i, sec);
}

/// Carries a single-image write up to the medium view: exactly the addressed
/// byte range of `contents()` changes.
proof fn lemma_medium_write(
    pre: MemStorage,
    post: MemStorage,
    unit: int,
    off: int,
    data: Seq<u8>,
    addr: int,
)
    requires
        pre.wf(),
        unit == spec_unit_of(pre.strategy, pre.sec_size, addr),
        off == spec_offset_of(pre.strategy, pre.sec_size, addr),
        0 <= addr,
        addr + data.len() <= pre.capacity,
        pre.write_ok(addr, data.len() as int),
        0 <= unit < pre.files@.len(),
        post.strategy == pre.strategy,
        post.sec_size == pre.sec_size,
        post.capacity == pre.capacity,
        post.files@ == pre.files@.update(unit, post.files@[unit]),
        post.files@[unit]@ == spec_file_write(pre.files@[unit]@, off, data),
    ensures
        post.wf(),
        updated_range(pre.contents(), post.contents(), addr, data),
{
    let sec = pre.sec_size as int;
    lemma_fundamental_div_mod(addr, sec);
    assert forall|i: int| 0 <= i < pre.capacity implies post.contents()[i] == if addr <= i < addr
        + data.len() {
        data[i - addr]
    } else {
        pre.contents()[i]
    } by {
        let ui = spec_unit_of(pre.strategy, pre.sec_size, i);
        let oi = spec_offset_of(pre.strategy, pre.sec_size, i);
        if pre.strategy is Multi {
            lemma_unit_in_range(sec, pre.capacity as int, i);
        }
        if addr <= i < addr + data.len() {
            if pre.strategy is Multi {
                lemma_same_unit(sec, addr, data.len() as int, i);
            }
            lemma_file_write_byte(pre.files@[unit]@, off, data, oi);
        } else {
            if ui == unit {
                if pre.strategy is Multi {
                    lemma_other_unit(sec, addr, data.len() as int, i);
                }
                lemma_file_write_byte(pre.files@[unit]@, off, data, oi);
            }
        }
    }
    // Well-formedness: the rewritten image stays within its region.
    if pre.strategy is Multi {
        assert(post.files@[unit]@.len() <= sec);
    } else {
        assert(post.files@[unit]@.len() <= pre.capacity);
    }
}

/// Carries a whole-unit erase up to the medium view: exactly that unit's
/// byte range of `contents()` becomes erased.
proof fn lemma_medium_erase_unit(pre: MemStorage, post: MemStorage, unit: int, addr: int)
    requires
        pre.wf(),
        pre.strategy is Multi,
        0 <= addr,
        addr % (pre.sec_size as int) == 0,
        addr + pre.sec_size <= pre.capacity,
        unit == addr / (pre.sec_size as int),
        0 <= unit < pre.files@.len(),
        post.strategy == pre.strategy,
        post.sec_size == pre.sec_size,
        post.capacity == pre.capacity,
        post.files@ == pre.files@.update(unit, post.files@[unit]),
        post.files@[unit]@ == erased_seq(pre.sec_size as int),
    ensures
        post.wf(),
        updated_range(pre.contents(), post.contents(), addr, erased_seq(pre.sec_size as int)),
{
    let sec = pre.sec_size as int;
    lemma_fundamental_div_mod(addr, sec);
    assert forall|i: int| 0 <= i < pre.capacity implies post.contents()[i] == if addr <= i < addr
        + sec {
        erased_seq(sec)[i - addr]
    } else {
        pre.contents()[i]
    } by {
        lemma_unit_in_range(sec, pre.capacity as int, i);
        let ui = i / sec;
        let oi = i % sec;
        if addr <= i < addr + sec {
            lemma_same_unit(sec, addr, sec, i);
        } else {
            if ui == unit {
                lemma_fundamental_div_mod(i, sec);
                assert(i == sec * ui + oi);
                assert(addr == sec * unit);
                assert(addr <= i < addr + sec);
                assert(false);
            }
        }
    }
}

} // verus!
