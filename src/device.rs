use vstd::prelude::*;

use crate::error::VdevError;

verus! {

/// Bits of the open flags that hold the access mode.
pub const ACCESS_MODE_MASK: u32 = 3;

/// Access-mode value of a write-only open.
pub const WRITE_ONLY: u32 = 1;

/// Whether `flags` ask for a write-only open.
pub open spec fn is_write_only(flags: u32) -> bool {
    flags & ACCESS_MODE_MASK == WRITE_ONLY
}

/// How many bytes a read of at most `capacity` bytes at `offset` takes from
/// a buffer of `len` bytes: nothing at or past the end, else as many as fit.
pub open spec fn read_len(len: int, capacity: int, offset: int) -> int {
    if offset >= len {
        0
    } else if capacity < len - offset {
        capacity
    } else {
        len - offset
    }
}

/// The bytes that such a read copies out of `buf`.
pub open spec fn read_bytes(buf: Seq<u8>, capacity: int, offset: int) -> Seq<u8> {
    if offset >= buf.len() {
        Seq::empty()
    } else {
        buf.subrange(offset, offset + read_len(buf.len() as int, capacity, offset))
    }
}

/// What a read leaves in a destination of `dest`: the bytes read in front,
/// the rest of `dest` untouched.
pub open spec fn filled(dest: Seq<u8>, buf: Seq<u8>, offset: int) -> Seq<u8> {
    let got = read_bytes(buf, dest.len() as int, offset);
    got + dest.skip(got.len() as int)
}

/// The length of `buf` after `n` bytes are written at `offset`.
pub open spec fn written_len(len: int, n: int, offset: int) -> int {
    if offset + n > len {
        offset + n
    } else {
        len
    }
}

/// The buffer after `src` is written into `buf` at `offset`: the written
/// range holds `src`, the old bytes stay elsewhere, and any gap between the
/// old end and `offset` is zero.
pub open spec fn written(buf: Seq<u8>, src: Seq<u8>, offset: int) -> Seq<u8> {
    Seq::new(
        written_len(buf.len() as int, src.len() as int, offset) as nat,
        |i: int|
            if offset <= i < offset + src.len() {
                src[i - offset]
            } else if i < buf.len() {
                buf[i]
            } else {
                0u8
            },
    )
}

/// Whether a write of `n` bytes at `offset` ends at an in-memory index.
pub open spec fn write_fits(n: int, offset: int) -> bool {
    offset + n <= usize::MAX
}

/// Writing `src` at `offset` and then reading into a destination of the same
/// length at `offset` gives back exactly `src`.
pub proof fn lemma_write_then_read(buf: Seq<u8>, src: Seq<u8>, offset: int, dest: Seq<u8>)
    requires
        0 <= offset,
        dest.len() == src.len(),
    ensures
        filled(dest, written(buf, src, offset), offset) == src,
{
    let w = written(buf, src, offset);
    assert(read_bytes(w, dest.len() as int, offset) =~= src);
    assert(filled(dest, w, offset) =~= src);
}

/// Two writes to ranges that do not overlap give the same buffer in either
/// order, and each range then holds its own bytes.
pub proof fn lemma_disjoint_writes(buf: Seq<u8>, a: Seq<u8>, oa: int, b: Seq<u8>, ob: int)
    requires
        0 <= oa,
        0 <= ob,
        oa + a.len() <= ob || ob + b.len() <= oa,
    ensures
        written(written(buf, a, oa), b, ob) == written(written(buf, b, ob), a, oa),
        written(written(buf, a, oa), b, ob).subrange(oa, oa + a.len()) == a,
        written(written(buf, a, oa), b, ob).subrange(ob, ob + b.len()) == b,
{
    let ab = written(written(buf, a, oa), b, ob);
    let ba = written(written(buf, b, ob), a, oa);
    assert(ab =~= ba);
    assert(ab.subrange(oa, oa + a.len()) =~= a);
    assert(ab.subrange(ob, ob + b.len()) =~= b);
}

/// Whether `flags` ask for a write-only open.
pub fn write_only(flags: u32) -> (r: bool)
    ensures
        r == is_write_only(flags),
{
    flags & ACCESS_MODE_MASK == WRITE_ONLY
}

/// One storage unit: an identity and a growable byte buffer.
pub struct Device {
    index: usize,
    buffer: Vec<u8>,
}

impl View for Device {
    type V = Seq<u8>;

    /// The bytes the device holds; their count is the end of data.
    closed spec fn view(&self) -> Seq<u8> {
        self.buffer@
    }
}

impl Device {
    /// The identity given at creation.
    pub closed spec fn spec_index(&self) -> usize {
        self.index
    }

    /// A device with identity `index` and no data.
    pub fn new(index: usize) -> (d: Device)
        ensures
            d.spec_index() == index,
            d@ == Seq::<u8>::empty(),
    {
        Device { index, buffer: Vec::new() }
    }

    /// The identity given at creation.
    pub fn index(&self) -> (r: usize)
        ensures
            r == self.spec_index(),
    {
        self.index
    }

    /// The number of bytes held.
    pub fn len(&self) -> (r: usize)
        ensures
            r == self@.len(),
    {
        self.buffer.len()
    }

    /// Whether the device holds no data.
    pub fn is_empty(&self) -> (r: bool)
        ensures
            r == (self@.len() == 0),
    {
        self.buffer.len() == 0
    }

    /// A copy of the bytes held.
    pub fn contents(&self) -> (r: Vec<u8>)
        ensures
            r@ == self@,
    {
        self.buffer.clone()
    }

    /// Starts a session with open flags `flags`: a write-only open empties
    /// the buffer, any other mode leaves it as it is.
    pub fn open(&mut self, flags: u32)
        ensures
            final(self).spec_index() == old(self).spec_index(),
            is_write_only(flags) ==> final(self)@ == Seq::<u8>::empty(),
            !is_write_only(flags) ==> final(self)@ == old(self)@,
    {
        if write_only(flags) {
            self.buffer.clear();
        }
    }

    /// Copies into `dest` the bytes from `offset` on, as many as `dest` has
    /// room for, and returns how many were copied. At or past the end of data
    /// nothing is copied and the count is zero. An offset with no in-memory
    /// index is `InvalidOffset`, and `dest` is left as it was.
    pub fn read(&self, dest: &mut Vec<u8>, offset: u64) -> (r: Result<usize, VdevError>)
        ensures
            offset > usize::MAX ==> r == Err::<usize, VdevError>(VdevError::InvalidOffset)
                && final(dest)@ == old(dest)@,
            offset <= usize::MAX ==> r == Ok::<usize, VdevError>(
                read_len(self@.len() as int, old(dest)@.len() as int, offset as int) as usize,
            ) && final(dest)@ == filled(old(dest)@, self@, offset as int),
            offset <= usize::MAX && offset >= self@.len() ==> r == Ok::<usize, VdevError>(0),
            offset <= usize::MAX && offset + old(dest)@.len() <= self@.len() ==> r == Ok::<
                usize,
                VdevError,
            >(old(dest)@.len() as usize),
            r matches Ok(n) ==> n <= old(dest)@.len(),
    {
        if offset > usize::MAX as u64 {
            return Err(VdevError::InvalidOffset);
        }
        let off = offset as usize;
        let len = self.buffer.len();
        let n: usize = if off >= len {
            0
        } else if dest.len() < len - off {
            dest.len()
        } else {
            len - off
        };
        let mut i: usize = 0;
        while i < n
            invariant
                n == read_len(len as int, old(dest)@.len() as int, off as int),
                len == self@.len(),
                i <= n,
                n == 0 || off + n <= len,
                dest@.len() == old(dest)@.len(),
                n <= dest@.len(),
                forall|j: int| 0 <= j < i ==> dest@[j] == self@[off + j],
                forall|j: int| i <= j < dest@.len() ==> dest@[j] == old(dest)@[j],
            decreases n - i,
        {
            dest.set(i, self.buffer[off + i]);
            i = i + 1;
        }
        let ghost got = read_bytes(self@, old(dest)@.len() as int, off as int);
        assert(got.len() == n);
        assert(forall|j: int| 0 <= j < n ==> got[j] == self@[off + j]);
        assert(dest@ =~= filled(old(dest)@, self@, off as int));
        Ok(n)
    }

    /// Writes all of `src` at `offset` and returns its length. Where the write
    /// ends past the end of data the buffer first grows, zero-filling any gap.
    /// A write whose end has no in-memory index is `InvalidOffset`; a growth
    /// the allocator refuses is `OutOfMemory`. A failed write changes nothing.
    pub fn write(&mut self, src: &[u8], offset: u64) -> (r: Result<usize, VdevError>)
        ensures
            final(self).spec_index() == old(self).spec_index(),
            !write_fits(src@.len() as int, offset as int) ==> r == Err::<usize, VdevError>(
                VdevError::InvalidOffset,
            ),
            write_fits(src@.len() as int, offset as int) && offset + src@.len() <= old(self)@.len()
                ==> r is Ok,
            r matches Ok(n) ==> n == src@.len() && final(self)@ == written(
                old(self)@,
                src@,
                offset as int,
            ),
            r matches Err(e) ==> final(self)@ == old(self)@ && (e == VdevError::InvalidOffset
                || (e == VdevError::OutOfMemory && write_fits(src@.len() as int, offset as int)
                && offset + src@.len() > old(self)@.len())),
            r matches Err(e) ==> (e == VdevError::InvalidOffset <==> !write_fits(
                src@.len() as int,
                offset as int,
            )),
    {
        let n = src.len();
        if offset > usize::MAX as u64 {
            return Err(VdevError::InvalidOffset);
        }
        let off = offset as usize;
        if n > usize::MAX - off {
            return Err(VdevError::InvalidOffset);
        }
        let end = off + n;
        let len = self.buffer.len();
        if end > len {
            if self.buffer.try_reserve(end - len).is_err() {
                return Err(VdevError::OutOfMemory);
            }
            while self.buffer.len() < end
                invariant
                    self.index == old(self).index,
                    len <= self@.len() <= end,
                    self@.subrange(0, len as int) == old(self)@,
                    forall|j: int| len <= j < self@.len() ==> self@[j] == 0u8,
                decreases end - self@.len(),
            {
                self.buffer.push(0u8);
            }
        }
        let ghost wlen = written_len(len as int, n as int, off as int);
        assert(self@.len() == wlen);
        let mut i: usize = 0;
        while i < n
            invariant
                self.index == old(self).index,
                i <= n,
                n == src@.len(),
                end == off + n,
                len == old(self)@.len(),
                self@.len() == wlen,
                end <= wlen,
                forall|j: int|
                    0 <= j < wlen && !(off <= j < off + i) ==> self@[j] == (if j < len {
                        old(self)@[j]
                    } else {
                        0u8
                    }),
                forall|j: int| off <= j < off + i ==> self@[j] == src@[j - off],
            decreases n - i,
        {
            self.buffer.set(off + i, src[i]);
            i = i + 1;
        }
        assert(self@ =~= written(old(self)@, src@, off as int));
        Ok(n)
    }
}

} // verus!
