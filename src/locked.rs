use vstd::prelude::*;
use vstd::rwlock::{RwLock, RwLockPredicate};

use crate::device::{filled, read_len, write_fits, Device};
use crate::error::VdevError;

verus! {

/// What the lock guarantees of the device it holds: its identity.
pub struct IndexIs {
    pub index: usize,
}

impl RwLockPredicate<Device> for IndexIs {
    open spec fn inv(self, d: Device) -> bool {
        d.spec_index() == self.index
    }
}

/// A device behind its own lock, for sessions that may run at once. Every
/// operation holds the lock for its whole copy, so none sees a buffer that
/// another has half grown or half written.
pub struct LockedDevice {
    index: usize,
    lock: RwLock<Device, IndexIs>,
}

impl LockedDevice {
    /// The identity of the device held.
    pub closed spec fn spec_index(&self) -> usize {
        self.index
    }

    /// The lock guards a device with this identity.
    #[verifier::type_invariant]
    spec fn wf(&self) -> bool {
        self.lock.pred() == (IndexIs { index: self.index })
    }

    /// A locked device with identity `index` and no data.
    pub fn new(index: usize) -> (r: LockedDevice)
        ensures
            r.spec_index() == index,
    {
        let lock = RwLock::new(Device::new(index), Ghost(IndexIs { index }));
        LockedDevice { index, lock }
    }

    /// The identity of the device held.
    pub fn index(&self) -> (r: usize)
        ensures
            r == self.spec_index(),
    {
        self.index
    }

    /// Opens a session with flags `flags`: a write-only open empties the
    /// buffer while the lock is held.
    pub fn open(&self, flags: u32)
    {
        proof {
            use_type_invariant(self);
        }
        let (mut d, handle) = self.lock.acquire_write();
        d.open(flags);
        handle.release_write(d);
    }

    /// Reads as `Device::read` does, holding the lock for the whole copy. The
    /// count and the bytes copied agree with `Device::read` on one and the
    /// same buffer: the bytes in front of `dest` are the read of some buffer,
    /// and the count is that read's length.
    pub fn read(&self, dest: &mut Vec<u8>, offset: u64) -> (r: Result<usize, VdevError>)
        ensures
            offset > usize::MAX ==> r == Err::<usize, VdevError>(VdevError::InvalidOffset)
                && final(dest)@ == old(dest)@,
            offset <= usize::MAX ==> exists|buf: Seq<u8>|
                #![trigger filled(old(dest)@, buf, offset as int)]
                r == Ok::<usize, VdevError>(
                    read_len(buf.len() as int, old(dest)@.len() as int, offset as int) as usize,
                ) && final(dest)@ == filled(old(dest)@, buf, offset as int),
    {
        let handle = self.lock.acquire_read();
        let r = handle.borrow().read(dest, offset);
        handle.release_read();
        r
    }

    /// Writes as `Device::write` does, growing and copying under one hold of
    /// the lock: all of `src` is written, or nothing.
    pub fn write(&self, src: &[u8], offset: u64) -> (r: Result<usize, VdevError>)
        ensures
            !write_fits(src@.len() as int, offset as int) ==> r == Err::<usize, VdevError>(
                VdevError::InvalidOffset,
            ),
            r matches Ok(n) ==> n == src@.len(),
            r matches Err(e) ==> e == VdevError::InvalidOffset || (e == VdevError::OutOfMemory
                && write_fits(src@.len() as int, offset as int)),
            r matches Err(e) ==> (e == VdevError::InvalidOffset <==> !write_fits(
                src@.len() as int,
                offset as int,
            )),
    {
        proof {
            use_type_invariant(self);
        }
        let (mut d, handle) = self.lock.acquire_write();
        let r = d.write(src, offset);
        handle.release_write(d);
        r
    }

    /// Takes the device out of its lock, so that its buffer can be freed.
    pub fn into_device(self) -> (d: Device)
        ensures
            d.spec_index() == self.spec_index(),
    {
        proof {
            use_type_invariant(&self);
        }
        self.lock.into_inner()
    }

    /// A copy of the bytes held, taken under the lock.
    pub fn contents(&self) -> (r: Vec<u8>)
    {
        let handle = self.lock.acquire_read();
        let r = handle.borrow().contents();
        handle.release_read();
        r
    }
}

} // verus!
