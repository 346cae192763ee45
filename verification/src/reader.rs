//! The streaming value reader: a byte cursor over one record's value,
//! supporting partial reads and random seeks without materializing the whole
//! value.

use vstd::prelude::*;

verus! {

use crate::error::Error;
use crate::storage::MemStorage;

/// A seek request, relative to the start, the end, or the current position of
/// the value.
#[derive(Clone, Copy, Debug, PartialEq, Eq, Structural)]
pub enum SeekFrom {
    /// An absolute position from the start of the value.
    Start(u64),
    /// An offset from one past the last byte of the value; usually zero or
    /// negative.
    End(i64),
    /// An offset from the current position; may be negative.
    Current(i64),
}

/// The position a seek asks for, before any range check.
pub open spec fn spec_seek_target(pos: int, value_len: int, whence: SeekFrom) -> int {
    match whence {
        SeekFrom::Start(n) => n as int,
        SeekFrom::End(d) => value_len + d,
        SeekFrom::Current(d) => pos + d,
    }
}

/// How many bytes a read at `pos` transfers when the caller asks for `want`:
/// never past the end of the value.
pub open spec fn spec_read_amount(pos: int, value_len: int, want: int) -> int {
    if want <= value_len - pos {
        want
    } else {
        value_len - pos
    }
}

/// The bytes of the medium that positions `[pos, pos + n)` of a value stored
/// at `addr` occupy.
pub open spec fn spec_value_window(m: MemStorage, addr: int, pos: int, n: int) -> Seq<u8> {
    m.contents().subrange(addr + pos, addr + pos + n)
}

/// A cursor over one record's value bytes.
///
/// The reader is bound to the record's physical value range as the engine
/// reported it; its position always stays inside `[0, value_len]`, where
/// `value_len` itself means end of stream.
pub struct ValueReader {
    value_addr: u32,
    value_len: u32,
    position: u64,
}

impl ValueReader {
    /// The position is never past the end of the value.
    pub closed spec fn wf(self) -> bool {
        self.position <= self.value_len
    }

    /// Physical address of the value's first byte.
    pub closed spec fn spec_value_addr(self) -> u32 {
        self.value_addr
    }

    /// Declared length of the value in bytes.
    pub closed spec fn spec_value_len(self) -> u32 {
        self.value_len
    }

    /// The current cursor position.
    pub closed spec fn spec_position(self) -> u64 {
        self.position
    }

    /// Whether the whole value range lies inside the medium's address space.
    pub open spec fn in_range(self, m: MemStorage) -> bool {
        self.spec_value_addr() + self.spec_value_len() <= m.spec_capacity()
    }

    /// Opens a reader over the value range `[value_addr, value_addr +
    /// value_len)`, positioned at the start.
    pub fn new(value_addr: u32, value_len: u32) -> (r: ValueReader)
        ensures
            r.wf(),
            r.spec_value_addr() == value_addr,
            r.spec_value_len() == value_len,
            r.spec_position() == 0,
    {
        ValueReader { value_addr, value_len, position: 0 }
    }

    /// Moves the cursor.
    ///
    /// The target must land inside `[0, value_len]`; a seek exactly to
    /// `value_len` is valid and means end of stream. Any other target fails
    /// with `InvalidArgument` and leaves the position unchanged.
    pub fn seek(&mut self, whence: SeekFrom) -> (r: Result<u64, Error>)
        requires
            old(self).wf(),
        ensures
            final(self).wf(),
            final(self).spec_value_addr() == old(self).spec_value_addr(),
            final(self).spec_value_len() == old(self).spec_value_len(),
            ({
                let t = spec_seek_target(
                    old(self).spec_position() as int,
                    old(self).spec_value_len() as int,
                    whence,
                );
                if 0 <= t <= old(self).spec_value_len() {
                    &&& r == Ok::<u64, Error>(t as u64)
                    &&& final(self).spec_position() == t
                } else {
                    &&& r == Err::<u64, Error>(Error::InvalidArgument)
                    &&& *final(self) == *old(self)
                }
            }),
    {
        let target: i128 = match whence {
            SeekFrom::Start(n) => n as i128,
            SeekFrom::End(d) => self.value_len as i128 + d as i128,
            SeekFrom::Current(d) => self.position as i128 + d as i128,
        };
        if target < 0 || target > self.value_len as i128 {
            return Err(Error::InvalidArgument);
        }
        self.position = target as u64;
        Ok(self.position)
    }

    /// Reads up to `want` bytes from the current position, never past the end
    /// of the value, and advances the position by the bytes transferred.
    ///
    /// At end of stream the result is an empty buffer, not an error. A value
    /// range that reaches past the medium's capacity means the record
    /// description and the medium disagree — a truncation signal, reported as
    /// `ReadError` rather than a short buffer.
    pub fn read(&mut self, m: &MemStorage, want: usize) -> (r: Result<Vec<u8>, Error>)
        requires
            old(self).wf(),
            m.wf(),
        ensures
            final(self).wf(),
            final(self).spec_value_addr() == old(self).spec_value_addr(),
            final(self).spec_value_len() == old(self).spec_value_len(),
            old(self).spec_position() >= old(self).spec_value_len() ==> {
                &&& r matches Ok(b) && b@ == Seq::<u8>::empty()
                &&& *final(self) == *old(self)
            },
            old(self).spec_position() < old(self).spec_value_len() && !old(self).in_range(*m) ==> {
                &&& r == Err::<Vec<u8>, Error>(Error::ReadError)
                &&& *final(self) == *old(self)
            },
            old(self).spec_position() < old(self).spec_value_len() && old(self).in_range(*m) ==> {
                let n = spec_read_amount(
                    old(self).spec_position() as int,
                    old(self).spec_value_len() as int,
                    want as int,
                );
                &&& r matches Ok(b) && b@ == spec_value_window(
                    *m,
                    old(self).spec_value_addr() as int,
                    old(self).spec_position() as int,
                    n,
                )
                &&& final(self).spec_position() == old(self).spec_position() + n
            },
    {
        if self.position >= self.value_len as u64 {
            return Ok(Vec::new());
        }
        if self.value_addr as u64 + self.value_len as u64 > m.capacity() as u64 {
            return Err(Error::ReadError);
        }
        let remaining = (self.value_len as u64 - self.position) as usize;
        let n = if want <= remaining {
            want
        } else {
            remaining
        };
        let start = self.value_addr as u64 + self.position;
        let data = match m.read(start as u32, n) {
            Ok(d) => d,
            Err(e) => {
                return Err(e);
            },
        };
        self.position = self.position + n as u64;
        Ok(data)
    }
}

/// Law: what a read returns is a function of the medium, the record's value
/// range, and the cursor position alone. Two readers over the same record on
/// the same medium, seeked to the same position, read identical bytes — no
/// intervening write, no difference.
pub proof fn lemma_reader_idempotence(
    r1: ValueReader,
    r2: ValueReader,
    m: MemStorage,
    want: usize,
)
    requires
        r1.spec_value_addr() == r2.spec_value_addr(),
        r1.spec_value_len() == r2.spec_value_len(),
        r1.spec_position() == r2.spec_position(),
    ensures
        spec_value_window(
            m,
            r1.spec_value_addr() as int,
            r1.spec_position() as int,
            spec_read_amount(
                r1.spec_position() as int,
                r1.spec_value_len() as int,
                want as int,
            ),
        ) == spec_value_window(
            m,
            r2.spec_value_addr() as int,
            r2.spec_position() as int,
            spec_read_amount(
                r2.spec_position() as int,
                r2.spec_value_len() as int,
                want as int,
            ),
        ),
{
}

} // verus!
