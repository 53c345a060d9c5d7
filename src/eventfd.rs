use vstd::prelude::*;

use vstd::bytes::{
    spec_u64_from_le_bytes, spec_u64_to_le_bytes, u64_from_le_bytes, u64_to_le_bytes,
};

use crate::pipe::FileKind;

verus! {

/// Reads take one unit off the counter instead of draining it.
pub const EFD_SEMAPHORE: u32 = 1;

/// Reads on a zero counter fail instead of waiting.
pub const EFD_NONBLOCK: u32 = 2048;

/// Errors of descriptor operations.
#[derive(Debug, Clone, Copy, PartialEq, Eq, Structural)]
pub enum FdError {
    /// A buffer of the wrong length, or a bad destination address.
    InvalidArgument,
    /// A non-blocking operation could not make progress.
    WouldBlock,
    /// No free descriptor slot.
    ResourceExhausted,
    /// The requested variant is not implemented.
    NotSupported,
    /// The counter would exceed 64 bits.
    Overflow,
}

/// A 64-bit event counter that tasks signal each other through.
pub struct EventFd {
    value: u64,
    flags: u32,
}

impl EventFd {
    pub closed spec fn value_spec(&self) -> u64 {
        self.value
    }

    pub closed spec fn flags_spec(&self) -> u32 {
        self.flags
    }

    /// `EFD_SEMAPHORE`, the lowest bit, is set.
    pub open spec fn semaphore_spec(&self) -> bool {
        self.flags_spec() % 2 == 1
    }

    /// `EFD_NONBLOCK`, bit 11, is set.
    pub open spec fn non_block_spec(&self) -> bool {
        (self.flags_spec() / 2048) % 2 == 1
    }

    /// What a read that finds the counter at `v`, non-zero, returns: one
    /// unit in semaphore mode, else the whole value.
    pub open spec fn value_read(&self, v: u64) -> u64 {
        if self.semaphore_spec() {
            1
        } else {
            v
        }
    }

    /// The counter after a read that found it at `v`, non-zero.
    pub open spec fn value_after_read(&self, v: u64) -> u64 {
        if self.semaphore_spec() {
            (v - 1) as u64
        } else {
            0
        }
    }

    pub fn new(initval: u64, flags: u32) -> (r: EventFd)
        ensures
            r.value_spec() == initval,
            r.flags_spec() == flags,
    {
        EventFd { value: initval, flags }
    }

    /// The current counter value.
    pub fn value(&self) -> (r: u64)
        ensures
            r == self.value_spec(),
    {
        self.value
    }

    /// Returns the counter's value and resets the counter to zero, or, in
    /// semaphore mode, returns 1 and takes that unit off the counter. On a zero counter a
    /// non-blocking read fails with `WouldBlock`, and a blocking one gets
    /// `Ok(None)`: yield and try again.
    pub fn read_value(&mut self) -> (r: Result<Option<u64>, FdError>)
        ensures
            final(self).flags_spec() == old(self).flags_spec(),
            old(self).value_spec() != 0 ==> {
                &&& r == Ok::<Option<u64>, FdError>(
                    Some(old(self).value_read(old(self).value_spec())),
                )
                &&& final(self).value_spec() == old(self).value_after_read(old(self).value_spec())
            },
            old(self).value_spec() == 0 ==> final(self).value_spec() == 0,
            old(self).value_spec() == 0 && old(self).non_block_spec() ==> r == Err::<
                Option<u64>,
                FdError,
            >(FdError::WouldBlock),
            old(self).value_spec() == 0 && !old(self).non_block_spec() ==> r == Ok::<
                Option<u64>,
                FdError,
            >(None),
    {
        let f = self.flags;
        assert((f & 1u32 != 0) == (f % 2 == 1)) by (bit_vector);
        assert((f & 2048u32 != 0) == ((f / 2048) % 2 == 1)) by (bit_vector);
        if self.value != 0 {
            let v = self.value;
            if self.flags & EFD_SEMAPHORE == 0 {
                self.value = 0;
                Ok(Some(v))
            } else {
                self.value = v - 1;
                Ok(Some(1))
            }
        } else if self.flags & EFD_NONBLOCK != 0 {
            Err(FdError::WouldBlock)
        } else {
            Ok(None)
        }
    }

    /// Reads into `buf`, which must hold exactly eight bytes: on success it
    /// receives what `read_value` returns, in little-endian order, and the
    /// result is `Ok(Some(8))`. `Ok(None)` means: yield and try again.
    pub fn read(&mut self, buf: &mut Vec<u8>) -> (r: Result<Option<usize>, FdError>)
        ensures
            final(self).flags_spec() == old(self).flags_spec(),
            old(buf)@.len() != 8 ==> {
                &&& r == Err::<Option<usize>, FdError>(FdError::InvalidArgument)
                &&& final(self).value_spec() == old(self).value_spec()
                &&& final(buf)@ == old(buf)@
            },
            old(buf)@.len() == 8 && old(self).value_spec() != 0 ==> {
                &&& r == Ok::<Option<usize>, FdError>(Some(8))
                &&& final(buf)@ == spec_u64_to_le_bytes(
                    old(self).value_read(old(self).value_spec()),
                )
                &&& spec_u64_from_le_bytes(final(buf)@) == old(self).value_read(
                    old(self).value_spec(),
                )
                &&& final(self).value_spec() == old(self).value_after_read(old(self).value_spec())
            },
            old(buf)@.len() == 8 && old(self).value_spec() == 0 ==> {
                &&& final(self).value_spec() == 0
                &&& final(buf)@ == old(buf)@
                &&& r == if old(self).non_block_spec() {
                    Err::<Option<usize>, FdError>(FdError::WouldBlock)
                } else {
                    Ok::<Option<usize>, FdError>(None)
                }
            },
    {
        if buf.len() != 8 {
            return Err(FdError::InvalidArgument);
        }
        match self.read_value() {
            Ok(Some(v)) => {
                proof {
                    vstd::bytes::lemma_auto_spec_u64_to_from_le_bytes();
                }
                *buf = u64_to_le_bytes(v);
                Ok(Some(8))
            },
            Ok(None) => Ok(None),
            Err(e) => Err(e),
        }
    }

    /// Adds `val` to the counter, or fails with `Overflow` and leaves it as
    /// it was when the sum would not fit in 64 bits.
    pub fn write_value(&mut self, val: u64) -> (r: Result<(), FdError>)
        ensures
            final(self).flags_spec() == old(self).flags_spec(),
            old(self).value_spec() + val <= u64::MAX ==> {
                &&& r == Ok::<(), FdError>(())
                &&& final(self).value_spec() == old(self).value_spec() + val
            },
            old(self).value_spec() + val > u64::MAX ==> {
                &&& r == Err::<(), FdError>(FdError::Overflow)
                &&& final(self).value_spec() == old(self).value_spec()
            },
    {
        if val > u64::MAX - self.value {
            Err(FdError::Overflow)
        } else {
            self.value = self.value + val;
            Ok(())
        }
    }

    /// Adds the little-endian value of `buf`, which must hold exactly eight
    /// bytes, to the counter, and returns 8.
    pub fn write(&mut self, buf: &[u8]) -> (r: Result<usize, FdError>)
        ensures
            final(self).flags_spec() == old(self).flags_spec(),
            buf@.len() != 8 ==> {
                &&& r == Err::<usize, FdError>(FdError::InvalidArgument)
                &&& final(self).value_spec() == old(self).value_spec()
            },
            buf@.len() == 8 && old(self).value_spec() + spec_u64_from_le_bytes(buf@) <= u64::MAX ==> {
                &&& r == Ok::<usize, FdError>(8)
                &&& final(self).value_spec() == old(self).value_spec() + spec_u64_from_le_bytes(buf@)
            },
            buf@.len() == 8 && old(self).value_spec() + spec_u64_from_le_bytes(buf@) > u64::MAX ==> {
                &&& r == Err::<usize, FdError>(FdError::Overflow)
                &&& final(self).value_spec() == old(self).value_spec()
            },
    {
        if buf.len() != 8 {
            return Err(FdError::InvalidArgument);
        }
        let val = u64_from_le_bytes(buf);
        match self.write_value(val) {
            Ok(()) => Ok(8),
            Err(e) => Err(e),
        }
    }

    pub fn readable(&self) -> (r: bool)
        ensures
            r,
    {
        true
    }

    pub fn writable(&self) -> (r: bool)
        ensures
            r,
    {
        true
    }

    pub fn executable(&self) -> (r: bool)
        ensures
            !r,
    {
        false
    }

    pub fn get_type(&self) -> (r: FileKind)
        ensures
            r == FileKind::Other,
    {
        FileKind::Other
    }
}

} // verus!
