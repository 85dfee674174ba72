//! The device transport's data layer: the request codes and the raw
//! input metadata exchanged with the rollup character device, and the
//! owned receive buffer whose growth replaces in-place reallocation of
//! a raw byte range.
//!
//! The ioctl exchange itself cannot live here; callers perform it and
//! hand the raw values to the verified conversion and classification
//! functions of the device backend.

use vstd::prelude::*;

verus! {

/// Request code announcing a state-advancing input.
pub const CARTESI_ROLLUP_ADVANCE_STATE: u32 = 0;

/// Request code announcing a read-only inspection query.
pub const CARTESI_ROLLUP_INSPECT_STATE: u32 = 1;

/// Addresses crossing the device boundary are exactly this many bytes.
pub const CARTESI_ROLLUP_ADDRESS_SIZE: usize = 20;

/// An address as it crosses the device boundary: raw bytes, fixed size.
#[allow(non_camel_case_types)]
pub type rollup_address = [u8; CARTESI_ROLLUP_ADDRESS_SIZE];

/// Input metadata as read from the device: the sender address as raw
/// bytes and the four order counters.
#[allow(non_camel_case_types)]
#[derive(Debug, Copy, Clone)]
pub struct rollup_input_metadata {
    pub msg_sender: rollup_address,
    pub block_number: u64,
    pub timestamp: u64,
    pub epoch_index: u64,
    pub input_index: u64,
}

/// The reusable receive buffer of the device backend.
///
/// Growth is the only mutation point: the buffer never shrinks and
/// never truncates, and its contents are always copied out before the
/// next read reuses the same memory.
#[derive(Debug, Clone, Default)]
pub struct ReceiveBuffer {
    /// The backing bytes; their length is the buffer's capacity.
    pub data: Vec<u8>,
}

impl ReceiveBuffer {
    /// An empty buffer, grown on first use.
    pub fn new() -> (r: Self)
        ensures
            r.data@.len() == 0,
    {
        Self { data: Vec::new() }
    }

    /// The number of payload bytes the buffer can currently hold.
    pub fn capacity(&self) -> (r: usize)
        ensures
            r == self.data@.len(),
    {
        self.data.len()
    }

    /// Grows the buffer to hold at least `size` bytes. Never shrinks:
    /// a request no larger than the current capacity leaves the buffer
    /// untouched, so it can be reused for a smaller read without
    /// reallocating. Growth preserves the bytes already held.
    pub fn grow(&mut self, size: usize)
        ensures
            final(self).data@.len() == if size <= old(self).data@.len() {
                old(self).data@.len() as int
            } else {
                size as int
            },
            size <= old(self).data@.len() ==> final(self).data@ == old(self).data@,
            final(self).data@.subrange(0, old(self).data@.len() as int) == old(self).data@,
    {
        if size > self.data.len() {
            self.data.resize(size, 0u8);
        } else {
            proof {
                assert(self.data@.subrange(0, self.data@.len() as int) =~= self.data@);
            }
        }
    }

    /// Copies the first `len` bytes out into a right-sized vector, so
    /// the returned value does not alias the buffer and the buffer can
    /// be reused for the next read.
    pub fn copy_out(&self, len: usize) -> (r: Vec<u8>)
        requires
            len <= self.data@.len(),
        ensures
            r@ == self.data@.subrange(0, len as int),
    {
        let mut out: Vec<u8> = Vec::new();
        let mut i: usize = 0;
        while i < len
            invariant
                i <= len,
                len <= self.data@.len(),
                out@ == self.data@.subrange(0, i as int),
            decreases len - i,
        {
            out.push(self.data[i]);
            proof {
                assert(self.data@.subrange(0, (i + 1) as int) =~= self.data@.subrange(
                    0,
                    i as int,
                ).push(self.data@[i as int]));
            }
            i = i + 1;
        }
        out
    }
}

} // verus!
