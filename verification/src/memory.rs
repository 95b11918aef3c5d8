//! The simulated byte-addressed main memory.

use vstd::prelude::*;

verus! {

/// A simulated memory address.
pub type Address = u32;

/// Byte-addressed memory holding a fixed number of bytes, all zero at first.
pub struct Memory {
    bytes: Vec<u8>,
}

impl View for Memory {
    type V = Seq<u8>;

    /// The bytes of memory, by address.
    closed spec fn view(&self) -> Seq<u8> {
        self.bytes@
    }
}

/// `mem` with the bytes from `start` on replaced by `data`.
pub open spec fn splice(mem: Seq<u8>, start: int, data: Seq<u8>) -> Seq<u8> {
    mem.subrange(0, start) + data + mem.subrange(start + data.len(), mem.len() as int)
}

/// The four little-endian bytes of `value`.
pub open spec fn le_bytes(value: i32) -> Seq<u8> {
    let v = value as u32;
    seq![(v & 0xff) as u8, ((v >> 8u32) & 0xff) as u8, ((v >> 16u32) & 0xff) as u8, (v >> 24u32) as u8]
}

impl Memory {
    /// A memory of `size` zero bytes.
    pub fn new(size: usize) -> (m: Memory)
        ensures
            m@ == Seq::new(size as nat, |i: int| 0u8),
    {
        let mut bytes: Vec<u8> = Vec::new();
        let mut i: usize = 0;
        while i < size
            invariant
                i <= size,
                bytes@ == Seq::new(i as nat, |j: int| 0u8),
            decreases size - i,
        {
            bytes.push(0);
            proof {
                assert(bytes@ =~= Seq::new((i + 1) as nat, |j: int| 0u8));
            }
            i = i + 1;
        }
        Memory { bytes }
    }

    /// The number of bytes in memory.
    pub fn len(&self) -> (r: usize)
        ensures
            r == self@.len(),
    {
        self.bytes.len()
    }

    /// The byte at `addr`.
    pub fn read(&self, addr: Address) -> (r: u8)
        requires
            addr < self@.len(),
        ensures
            r == self@[addr as int],
    {
        self.bytes[addr as usize]
    }

    /// Stores `value` at `addr`.
    pub fn write(&mut self, addr: Address, value: u8)
        requires
            addr < old(self)@.len(),
        ensures
            final(self)@ == old(self)@.update(addr as int, value),
    {
        self.bytes.set(addr as usize, value);
    }

    /// Stores the 32-bit `value` at `addr`, least significant byte first.
    pub fn write_i32(&mut self, addr: Address, value: i32)
        requires
            addr + 4 <= old(self)@.len(),
        ensures
            final(self)@ == splice(old(self)@, addr as int, le_bytes(value)),
    {
        let _len = self.bytes.len();
        let v = value as u32;
        let start = addr as usize;
        self.bytes.set(start, (v & 0xff) as u8);
        self.bytes.set(start + 1, ((v >> 8u32) & 0xff) as u8);
        self.bytes.set(start + 2, ((v >> 16u32) & 0xff) as u8);
        self.bytes.set(start + 3, (v >> 24u32) as u8);
        proof {
            assert(self@ =~= splice(old(self)@, addr as int, le_bytes(value)));
        }
    }

    /// Copies `data` into memory from `start` on.
    pub fn copy_from_slice(&mut self, start: usize, data: &[u8])
        requires
            start + data@.len() <= old(self)@.len(),
        ensures
            final(self)@ == splice(old(self)@, start as int, data@),
    {
        let _len = self.bytes.len();
        let mut i: usize = 0;
        while i < data.len()
            invariant
                i <= data@.len(),
                self@.len() == old(self)@.len(),
                old(self)@.len() == _len,
                start + data@.len() <= old(self)@.len(),
                self@ == splice(old(self)@, start as int, data@.subrange(0, i as int)),
            decreases data.len() - i,
        {
            self.bytes.set(start + i, data[i]);
            proof {
                assert(self@ =~= splice(old(self)@, start as int, data@.subrange(0, i + 1)));
            }
            i = i + 1;
        }
        proof {
            assert(data@.subrange(0, data@.len() as int) =~= data@);
        }
    }
}

} // verus!
