//! A byte/word access interface a host mapper can implement to intercept
//! address ranges (ROM, video, I/O latches) and delegate the rest.

use vstd::prelude::*;

verus! {

/// Byte-level access with little-endian word composition; the word and
/// high/low helpers are derived from `read_byte`.
pub trait ReadWrite {
    fn read_byte(&self, addr: u16) -> u8;

    /// Little-endian word at `addr`, composed from the byte primitive.
    fn read_word(&self, addr: u16) -> u16 {
        (self.read_byte(addr.wrapping_add(1)) as u16) * 0x100 + (self.read_byte(addr) as u16)
    }

    /// The high byte of a word operand following an opcode at `addr`.
    fn read_hb(&self, addr: u16) -> u8 {
        self.read_byte(addr.wrapping_add(2))
    }

    /// The low byte of a word operand following an opcode at `addr`.
    fn read_lb(&self, addr: u16) -> u8 {
        self.read_byte(addr.wrapping_add(1))
    }

    fn read(&self, addr: u16) -> u16;

    fn write_word(&mut self, addr: u16, word: u16);

    fn write_byte(&mut self, addr: u16, byte: u8);
}

} // verus!
