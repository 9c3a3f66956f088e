//! The byte memory of one frame: zero-initialized on growth, its size
//! always a multiple of 32 bytes. Every access first expands the buffer
//! to cover the touched range, so an access at `[off, off + len)` leaves
//! the size a 32-byte multiple at least `off + len`.

use vstd::prelude::*;
use crate::u256::{U256, word_byte};

verus! {

/// The memory buffer of a frame.
#[derive(Debug, Clone, PartialEq, Eq)]
pub struct Memory {
    bytes: Vec<u8>,
}

impl Memory {
    /// The bytes of the buffer.
    pub closed spec fn view(self) -> Seq<u8> {
        self.bytes@
    }

    /// The size stays a multiple of 32.
    pub open spec fn well_formed(self) -> bool {
        self@.len() % 32 == 0
    }

    /// An empty memory.
    pub fn new() -> (r: Memory)
        ensures
            r@.len() == 0,
            r.well_formed(),
    {
        Memory { bytes: Vec::new() }
    }

    /// The current size in bytes, as `MSIZE` reports it.
    pub fn size(&self) -> (r: usize)
        ensures
            r == self@.len(),
    {
        self.bytes.len()
    }

    /// Grow the buffer with zero bytes to the smallest 32-byte multiple
    /// covering `end`, leaving it unchanged when it is already that
    /// large.
    pub fn expand_to(&mut self, end: usize) -> (r: ())
        requires
            old(self).well_formed(),
            end + 31 <= usize::MAX,
        ensures
            final(self).well_formed(),
            final(self)@.len() >= end,
            final(self)@.len() >= old(self)@.len(),
            old(self)@.len() >= end ==> final(self)@ == old(self)@,
            forall|j: int| 0 <= j < old(self)@.len() ==> final(self)@[j] == old(self)@[j],
            forall|j: int| old(self)@.len() <= j < final(self)@.len() ==> final(self)@[j] == 0,
            final(self)@.len() == (if old(self)@.len() >= end {
                old(self)@.len() as int
            } else {
                crate::gas::words_of(end as int) * 32
            }),
    {
        let target = ((end + 31) / 32) * 32;
        if self.bytes.len() >= target {
            return ;
        }
        let ghost old_len = self.bytes@.len();
        let mut n = self.bytes.len();
        while n < target
            invariant
                n == self.bytes@.len(),
                n <= target,
                old_len <= n,
                forall|j: int| 0 <= j < old_len ==> self.bytes@[j] == old(self)@[j],
                forall|j: int| old_len <= j < n ==> self.bytes@[j] == 0,
            decreases target - n,
        {
            self.bytes.push(0);
            n = n + 1;
        }
    }

    /// Read `len` bytes at `offset`, which the caller has expanded to.
    pub fn read_bytes(&self, offset: usize, len: usize) -> (r: Vec<u8>)
        requires
            offset + len <= self@.len(),
        ensures
            r@ == self@.subrange(offset as int, offset + len),
    {
        let total = self.bytes.len();
        let mut out: Vec<u8> = Vec::new();
        let mut i: usize = 0;
        while i < len
            invariant
                i <= len,
                total == self@.len(),
                offset + len <= total,
                out@.len() == i,
                forall|j: int| 0 <= j < i ==> out@[j] == self@[offset + j],
            decreases len - i,
        {
            out.push(self.bytes[offset + i]);
            i = i + 1;
        }
        proof {
            assert(out@ =~= self@.subrange(offset as int, offset + len));
        }
        out
    }

    /// Write `data` at `offset`, which the caller has expanded to.
    pub fn write_bytes(&mut self, offset: usize, data: &[u8]) -> (r: ())
        requires
            old(self).well_formed(),
            offset + data@.len() <= old(self)@.len(),
        ensures
            final(self).well_formed(),
            final(self)@.len() == old(self)@.len(),
            forall|j: int|
                0 <= j < old(self)@.len() ==> final(self)@[j] == (if offset <= j < offset
                    + data@.len() {
                    data@[j - offset]
                } else {
                    old(self)@[j]
                }),
    {
        let total = self.bytes.len();
        let mut i: usize = 0;
        while i < data.len()
            invariant
                i <= data@.len(),
                total == self.bytes@.len(),
                offset + data@.len() <= total,
                self.bytes@.len() == old(self)@.len(),
                forall|j: int|
                    0 <= j < self.bytes@.len() ==> self.bytes@[j] == (if offset <= j < offset
                        + i {
                        data@[j - offset]
                    } else {
                        old(self)@[j]
                    }),
            decreases data@.len() - i,
        {
            self.bytes.set(offset + i, data[i]);
            i = i + 1;
        }
    }

    /// Load the 32-byte word at `offset`, big endian, as `MLOAD` does.
    pub fn load_word(&self, offset: usize) -> (r: U256)
        requires
            offset + 32 <= self@.len(),
        ensures
            r.as_nat() == crate::u256::be_nat(self@.subrange(offset as int, offset + 32)),
    {
        let bytes = self.read_bytes(offset, 32);
        U256::from_be_bytes(bytes.as_slice())
    }

    /// Store a word at `offset`, big endian, as `MSTORE` does.
    pub fn store_word(&mut self, offset: usize, value: U256) -> (r: ())
        requires
            old(self).well_formed(),
            offset + 32 <= old(self)@.len(),
        ensures
            final(self).well_formed(),
            final(self)@.len() == old(self)@.len(),
            forall|j: int|
                0 <= j < old(self)@.len() ==> final(self)@[j] == (if offset <= j < offset
                    + 32 {
                    word_byte(value.as_nat(), j - offset)
                } else {
                    old(self)@[j] as nat
                }),
    {
        let bytes = value.to_be_bytes();
        self.write_bytes(offset, bytes.as_slice());
    }

    /// Store one byte at `offset`, as `MSTORE8` does.
    pub fn store_byte(&mut self, offset: usize, value: u8) -> (r: ())
        requires
            old(self).well_formed(),
            offset < old(self)@.len(),
        ensures
            final(self).well_formed(),
            final(self)@ == old(self)@.update(offset as int, value),
    {
        self.bytes.set(offset, value);
    }
}

} // verus!
