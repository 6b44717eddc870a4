//! Flat 64 KiB byte-addressable memory with modulo-0x10000 wraparound.

use vstd::prelude::*;

use crate::bits::{hi8, lo8, pair16};

verus! {

/// The emulated address space: 65536 bytes, populated by a host loader
/// before execution starts and then mutated only by the engine.
pub struct Memory {
    pub ram: Vec<u8>,
}

/// Little-endian 16-bit read: low byte at `a`, high byte at `a + 1`,
/// the address wrapping modulo 0x10000.
pub open spec fn word_at(m: Seq<u8>, a: u16) -> u16 {
    pair16(m[a.wrapping_add(1) as int], m[a as int])
}

/// Little-endian 16-bit write: low byte to `a`, high byte to `a + 1`,
/// the address wrapping modulo 0x10000.
pub open spec fn word_write(m: Seq<u8>, a: u16, w: u16) -> Seq<u8> {
    m.update(a as int, lo8(w)).update(a.wrapping_add(1) as int, hi8(w))
}

/// Memory and stack pointer after a word is pushed: the stack grows
/// downwards, high byte at `sp - 1`, low byte at `sp - 2`.
pub open spec fn stack_push(m: Seq<u8>, sp: u16, w: u16) -> (Seq<u8>, u16) {
    (word_write(m, sp.wrapping_sub(2), w), sp.wrapping_sub(2))
}

/// The word a pop or return reads at the current stack pointer.
pub open spec fn stack_top(m: Seq<u8>, sp: u16) -> u16 {
    word_at(m, sp)
}

/// Writing a word and reading it back at the same address returns the word.
pub proof fn lemma_word_round_trip(m: Seq<u8>, a: u16, w: u16)
    requires
        m.len() == 0x10000,
    ensures
        word_at(word_write(m, a, w), a) == w,
{
    assert(a.wrapping_add(1) != a);
    crate::bits::lemma_pair_round_trip(w);
}

/// A word pushed on the stack is exactly what a following pop reads, and
/// popping moves the stack pointer back to where it was before the push.
pub proof fn lemma_push_pop(m: Seq<u8>, sp: u16, w: u16)
    requires
        m.len() == 0x10000,
    ensures
        stack_top(stack_push(m, sp, w).0, stack_push(m, sp, w).1) == w,
        stack_push(m, sp, w).1.wrapping_add(2) == sp,
{
    lemma_word_round_trip(m, sp.wrapping_sub(2), w);
}

impl Memory {
    /// The address space always spans exactly 0x10000 bytes.
    pub open spec fn wf(&self) -> bool {
        self.ram@.len() == 0x10000
    }

    /// Fresh memory, all bytes zero.
    pub fn new() -> (m: Memory)
        ensures
            m.wf(),
            forall|i: int| 0 <= i < 0x10000 ==> m.ram@[i] == 0u8,
    {
        Memory { ram: vec![0u8; 0x10000] }
    }

    /// The byte at an already-range-checked index.
    pub fn peek(&self, v: usize) -> (b: u8)
        requires
            self.wf(),
            v < 0x10000,
        ensures
            b == self.ram@[v as int],
    {
        self.ram[v]
    }

    /// The byte at an address.
    pub fn read8(&self, addr: u16) -> (b: u8)
        requires
            self.wf(),
        ensures
            b == self.ram@[addr as int],
    {
        self.ram[addr as usize]
    }

    /// Stores one byte at an address.
    pub fn write8(&mut self, addr: u16, byte: u8)
        requires
            old(self).wf(),
        ensures
            final(self).wf(),
            final(self).ram@ == old(self).ram@.update(addr as int, byte),
    {
        self.ram[addr as usize] = byte;
    }

    /// Little-endian word read with address wraparound.
    pub fn read16(&self, addr: u16) -> (w: u16)
        requires
            self.wf(),
        ensures
            w == word_at(self.ram@, addr),
    {
        let lo: u8 = self.read8(addr);
        let hi: u8 = self.read8(addr.wrapping_add(1));
        (hi as u16) * 0x100 + (lo as u16)
    }

    /// Little-endian word write with address wraparound.
    pub fn write16(&mut self, addr: u16, word: u16)
        requires
            old(self).wf(),
        ensures
            final(self).wf(),
            final(self).ram@ == word_write(old(self).ram@, addr, word),
    {
        self.write8(addr, (word % 0x100) as u8);
        self.write8(addr.wrapping_add(1), (word / 0x100) as u8);
    }

    /// Copies a program image into memory starting at `base`.  The host
    /// reads the image from disk and hands the bytes in; production ROM
    /// images load at 0x0000 and CP/M-style conformance binaries at 0x0100.
    pub fn load(&mut self, data: &Vec<u8>, base: usize)
        requires
            old(self).wf(),
            base + data@.len() <= 0x10000,
        ensures
            final(self).wf(),
            forall|j: int|
                0 <= j < 0x10000 && !(base <= j < base + data@.len())
                    ==> final(self).ram@[j] == old(self).ram@[j],
            forall|j: int|
                base <= j < base + data@.len() ==> final(self).ram@[j] == data@[j - base],
    {
        let mut i: usize = 0;
        while i < data.len()
            invariant
                self.ram@.len() == 0x10000,
                i <= data@.len(),
                base + data@.len() <= 0x10000,
                forall|j: int|
                    0 <= j < 0x10000 && !(base <= j < base + i)
                        ==> self.ram@[j] == old(self).ram@[j],
                forall|j: int| base <= j < base + i ==> self.ram@[j] == data@[j - base],
            decreases data@.len() - i,
        {
            self.ram[base + i] = data[i];
            i = i + 1;
        }
    }
}

/// Byte and word access into the emulated address space, little-endian,
/// with all addressing wrapping modulo 0x10000.
pub trait MemoryRW {
    fn read8(&self, addr: u16) -> u8;

    fn read16(&self, addr: u16) -> u16;

    fn write16(&mut self, addr: u16, word: u16);

    fn write8(&mut self, addr: u16, byte: u8);
}

} // verus!
