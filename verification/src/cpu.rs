//! Register file, condition flags, interrupt state and the CPU context.

use vstd::prelude::*;

use crate::bits::{hi8, lo8, pair16};
use crate::instructions::{Instruction, Register};
use crate::memory::{word_at, Memory, MemoryRW};

verus! {

/// Fatal, typed outcomes of the engine: a decoder fault on an undefined
/// opcode (carrying the offending opcode, prefix included), or the
/// documented HALT instruction.  The two are distinguishable so a harness
/// can tell "halted via HALT" from "decoder hit an unimplemented opcode".
#[derive(Clone, Copy, Debug, PartialEq, Eq, Structural)]
pub enum CoreError {
    /// An opcode or prefixed-opcode combination with no defined handler.
    Decode(u16),
    /// The documented HALT instruction was executed.
    Halt,
}

/// I/O latch state: the last port selected and the two input ports the
/// host feeds values into.
#[derive(Clone, Copy, Debug, PartialEq, Eq, Structural, Default)]
pub struct Io {
    pub port0: u8,
    pub in0: u8,
    pub in1: u8,
}

/// The 8 condition flags and their full shadow copy.
#[derive(Clone, Copy, Debug, PartialEq, Eq, Structural)]
pub struct Flags {
    /// Sign: bit 7 of the result.
    pub sf: bool,
    /// Zero: the 8-bit result is zero.
    pub zf: bool,
    /// Copy of bit 5 of the result.
    pub yf: bool,
    /// Half carry between bit 3 and bit 4.
    pub hf: bool,
    /// Copy of bit 3 of the result.
    pub xf: bool,
    /// Parity of the result, or signed overflow for arithmetic ops.
    pub pf: bool,
    /// Subtract: set by the subtraction family, consumed by DAA.
    pub nf: bool,
    /// Carry out of bit 7 (bit 15 for pair ops).
    pub cf: bool,
    // Shadow copies, exchanged by EX AF, AF'.
    pub sf_: bool,
    pub zf_: bool,
    pub yf_: bool,
    pub hf_: bool,
    pub xf_: bool,
    pub pf_: bool,
    pub nf_: bool,
    pub cf_: bool,
}

/// The packed byte form of the main flags, at the fixed bit positions
/// 0x80 (S), 0x40 (Z), 0x20 (Y), 0x10 (H), 0x08 (X), 0x04 (P), 0x02 (N),
/// 0x01 (C).
pub open spec fn flags_byte(f: Flags) -> u8 {
    ((if f.sf { 0x80int } else { 0 }) + (if f.zf { 0x40int } else { 0 }) + (if f.yf {
        0x20int
    } else {
        0
    }) + (if f.hf { 0x10int } else { 0 }) + (if f.xf { 0x08int } else { 0 }) + (if f.pf {
        0x04int
    } else {
        0
    }) + (if f.nf { 0x02int } else { 0 }) + (if f.cf { 0x01int } else { 0 })) as u8
}

/// The main flags unpacked from a byte, shadow copies untouched.
pub open spec fn flags_unpacked(f: Flags, v: u8) -> Flags {
    Flags {
        sf: v / 0x80 % 2 == 1,
        zf: v / 0x40 % 2 == 1,
        yf: v / 0x20 % 2 == 1,
        hf: v / 0x10 % 2 == 1,
        xf: v / 0x08 % 2 == 1,
        pf: v / 0x04 % 2 == 1,
        nf: v / 0x02 % 2 == 1,
        cf: v % 2 == 1,
        ..f
    }
}

/// The packed byte form of the shadow flags, same bit positions.
pub open spec fn shadow_flags_byte(f: Flags) -> u8 {
    ((if f.sf_ { 0x80int } else { 0 }) + (if f.zf_ { 0x40int } else { 0 }) + (if f.yf_ {
        0x20int
    } else {
        0
    }) + (if f.hf_ { 0x10int } else { 0 }) + (if f.xf_ { 0x08int } else { 0 }) + (if f.pf_ {
        0x04int
    } else {
        0
    }) + (if f.nf_ { 0x02int } else { 0 }) + (if f.cf_ { 0x01int } else { 0 })) as u8
}

/// The shadow flags unpacked from a byte, main copies untouched.
pub open spec fn shadow_flags_unpacked(f: Flags, v: u8) -> Flags {
    Flags {
        sf_: v / 0x80 % 2 == 1,
        zf_: v / 0x40 % 2 == 1,
        yf_: v / 0x20 % 2 == 1,
        hf_: v / 0x10 % 2 == 1,
        xf_: v / 0x08 % 2 == 1,
        pf_: v / 0x04 % 2 == 1,
        nf_: v / 0x02 % 2 == 1,
        cf_: v % 2 == 1,
        ..f
    }
}

/// Any byte is the weighted sum of its eight bits.
proof fn lemma_byte_decompose(v: u8)
    by (bit_vector)
    ensures
        v == 0x80 * (v / 0x80 % 2) + 0x40 * (v / 0x40 % 2) + 0x20 * (v / 0x20 % 2) + 0x10 * (v
            / 0x10 % 2) + 0x08 * (v / 0x08 % 2) + 0x04 * (v / 0x04 % 2) + 0x02 * (v / 0x02 % 2)
            + v % 2,
{
}

/// The weighted sum of eight single bits decomposes back into those bits.
proof fn lemma_bits_of_sum(x: u8, c7: u8, c6: u8, c5: u8, c4: u8, c3: u8, c2: u8, c1: u8, c0: u8)
    by (bit_vector)
    requires
        c7 <= 1,
        c6 <= 1,
        c5 <= 1,
        c4 <= 1,
        c3 <= 1,
        c2 <= 1,
        c1 <= 1,
        c0 <= 1,
        x == 0x80 * c7 + 0x40 * c6 + 0x20 * c5 + 0x10 * c4 + 0x08 * c3 + 0x04 * c2 + 0x02 * c1
            + c0,
    ensures
        x / 0x80 % 2 == c7,
        x / 0x40 % 2 == c6,
        x / 0x20 % 2 == c5,
        x / 0x10 % 2 == c4,
        x / 0x08 % 2 == c3,
        x / 0x04 % 2 == c2,
        x / 0x02 % 2 == c1,
        x % 2 == c0,
{
}

/// Writing any word to a composed register pair and reading the pair
/// back returns the word, and the two 8-bit halves hold exactly the high
/// and low bytes of the word.
pub proof fn lemma_pair_write_read(rf: Registers, w: u16)
    ensures
        pair16(pair_write(rf, Register::HL, w).h, pair_write(rf, Register::HL, w).l) == w,
        pair_write(rf, Register::HL, w).h == w >> 8,
        pair_write(rf, Register::HL, w).l == (w & 0xFF),
{
    crate::bits::lemma_pair_round_trip(w);
}

/// The packed flag byte is bijective with the 8 booleans: unpacking any
/// byte and packing again returns the byte, and packing any flag set and
/// unpacking again returns the flags.
pub proof fn lemma_flags_byte_bijective(f: Flags, v: u8)
    ensures
        flags_byte(flags_unpacked(f, v)) == v,
        flags_unpacked(f, flags_byte(f)) == f,
{
    lemma_byte_decompose(v);
    let c7: u8 = if f.sf { 1 } else { 0 };
    let c6: u8 = if f.zf { 1 } else { 0 };
    let c5: u8 = if f.yf { 1 } else { 0 };
    let c4: u8 = if f.hf { 1 } else { 0 };
    let c3: u8 = if f.xf { 1 } else { 0 };
    let c2: u8 = if f.pf { 1 } else { 0 };
    let c1: u8 = if f.nf { 1 } else { 0 };
    let c0: u8 = if f.cf { 1 } else { 0 };
    assert(flags_byte(f) == 0x80 * c7 + 0x40 * c6 + 0x20 * c5 + 0x10 * c4 + 0x08 * c3 + 0x04 * c2
        + 0x02 * c1 + c0);
    lemma_bits_of_sum(flags_byte(f), c7, c6, c5, c4, c3, c2, c1, c0);
}

impl Flags {
    /// All 16 flags cleared.
    pub fn new() -> (f: Flags)
        ensures
            f == (Flags {
                sf: false, zf: false, yf: false, hf: false, xf: false, pf: false, nf: false,
                cf: false, sf_: false, zf_: false, yf_: false, hf_: false, xf_: false, pf_: false,
                nf_: false, cf_: false,
            }),
    {
        Flags {
            sf: false, zf: false, yf: false, hf: false, xf: false, pf: false, nf: false,
            cf: false, sf_: false, zf_: false, yf_: false, hf_: false, xf_: false, pf_: false,
            nf_: false, cf_: false,
        }
    }

    /// The main flags packed into one byte.
    pub fn get(&self) -> (v: u8)
        ensures
            v == flags_byte(*self),
    {
        (if self.sf { 0x80u8 } else { 0 }) + (if self.zf { 0x40u8 } else { 0 }) + (if self.yf {
            0x20u8
        } else {
            0
        }) + (if self.hf { 0x10u8 } else { 0 }) + (if self.xf { 0x08u8 } else { 0 })
            + (if self.pf { 0x04u8 } else { 0 }) + (if self.nf { 0x02u8 } else { 0 })
            + (if self.cf { 0x01u8 } else { 0 })
    }

    /// Unpacks a byte into the main flags.
    pub fn set(&mut self, value: u8)
        ensures
            *final(self) == flags_unpacked(*old(self), value),
    {
        self.sf = value / 0x80 % 2 == 1;
        self.zf = value / 0x40 % 2 == 1;
        self.yf = value / 0x20 % 2 == 1;
        self.hf = value / 0x10 % 2 == 1;
        self.xf = value / 0x08 % 2 == 1;
        self.pf = value / 0x04 % 2 == 1;
        self.nf = value / 0x02 % 2 == 1;
        self.cf = value % 2 == 1;
    }

    /// The shadow flags packed into one byte.
    pub fn get_shadow(&self) -> (v: u8)
        ensures
            v == shadow_flags_byte(*self),
    {
        (if self.sf_ { 0x80u8 } else { 0 }) + (if self.zf_ { 0x40u8 } else { 0 }) + (if self.yf_ {
            0x20u8
        } else {
            0
        }) + (if self.hf_ { 0x10u8 } else { 0 }) + (if self.xf_ { 0x08u8 } else { 0 })
            + (if self.pf_ { 0x04u8 } else { 0 }) + (if self.nf_ { 0x02u8 } else { 0 })
            + (if self.cf_ { 0x01u8 } else { 0 })
    }

    /// Unpacks a byte into the shadow flags.
    pub fn set_shadow(&mut self, value: u8)
        ensures
            *final(self) == shadow_flags_unpacked(*old(self), value),
    {
        self.sf_ = value / 0x80 % 2 == 1;
        self.zf_ = value / 0x40 % 2 == 1;
        self.yf_ = value / 0x20 % 2 == 1;
        self.hf_ = value / 0x10 % 2 == 1;
        self.xf_ = value / 0x08 % 2 == 1;
        self.pf_ = value / 0x04 % 2 == 1;
        self.nf_ = value / 0x02 % 2 == 1;
        self.cf_ = value % 2 == 1;
    }

    /// Exchanges the main flags with the shadow copy.
    pub fn swap(&mut self)
        ensures
            *final(self) == (Flags {
                sf: old(self).sf_, zf: old(self).zf_, yf: old(self).yf_, hf: old(self).hf_,
                xf: old(self).xf_, pf: old(self).pf_, nf: old(self).nf_, cf: old(self).cf_,
                sf_: old(self).sf, zf_: old(self).zf, yf_: old(self).yf, hf_: old(self).hf,
                xf_: old(self).xf, pf_: old(self).pf, nf_: old(self).nf, cf_: old(self).cf,
            }),
    {
        let f = *self;
        self.sf = f.sf_;
        self.zf = f.zf_;
        self.yf = f.yf_;
        self.hf = f.hf_;
        self.xf = f.xf_;
        self.pf = f.pf_;
        self.nf = f.nf_;
        self.cf = f.cf_;
        self.sf_ = f.sf;
        self.zf_ = f.zf;
        self.yf_ = f.yf;
        self.hf_ = f.hf;
        self.xf_ = f.xf;
        self.pf_ = f.pf;
        self.nf_ = f.nf;
        self.cf_ = f.cf;
    }
}

/// Interrupt controller state.  `iff1` gates maskable interrupts; `iff2`
/// holds the snapshot restored after an NMI and is the value two special
/// load instructions copy into the parity flag.  `int` is the host-visible
/// enable request written by EI and DI.
#[derive(Clone, Copy, Debug, PartialEq, Eq, Structural, Default)]
pub struct Interrupt {
    pub irq: bool,
    pub nmi_pending: bool,
    pub nmi: bool,
    pub int: bool,
    pub iff1: bool,
    pub iff2: bool,
    /// Interrupt mode, 0, 1 or 2.
    pub mode: u8,
}

/// The register file: main set, shadow set, interrupt vector I, refresh
/// counter R, program counter, stack pointer and the two index registers.
#[derive(Clone, Copy, Debug, PartialEq, Eq, Structural, Default)]
pub struct Registers {
    pub a: u8,
    pub b: u8,
    pub c: u8,
    pub d: u8,
    pub e: u8,
    pub h: u8,
    pub l: u8,
    // Shadow registers, exchanged by EXX and EX AF, AF'.
    pub a_: u8,
    pub b_: u8,
    pub c_: u8,
    pub d_: u8,
    pub e_: u8,
    pub h_: u8,
    pub l_: u8,
    /// Interrupt vector base.
    pub i: u8,
    /// Refresh counter; bit 7 is preserved across increments.
    pub r: u8,
    pub pc: u16,
    /// The program counter before the last explicit jump or advance.
    pub prev_pc: u16,
    pub sp: u16,
    pub ix: u16,
    pub iy: u16,
}

impl Registers {
    /// Exchanges the six general registers with their shadow copies.
    pub fn swap(&mut self)
        ensures
            *final(self) == (Registers {
                b: old(self).b_, c: old(self).c_, d: old(self).d_, e: old(self).e_,
                h: old(self).h_, l: old(self).l_, b_: old(self).b, c_: old(self).c,
                d_: old(self).d, e_: old(self).e, h_: old(self).h, l_: old(self).l,
                ..*old(self)
            }),
    {
        let r = *self;
        self.b = r.b_;
        self.c = r.c_;
        self.d = r.d_;
        self.e = r.e_;
        self.h = r.h_;
        self.l = r.l_;
        self.b_ = r.b;
        self.c_ = r.c;
        self.d_ = r.d;
        self.e_ = r.e;
        self.h_ = r.h;
        self.l_ = r.l;
    }
}

/// One explicitly owned emulator context: registers, flags, cycle counter,
/// I/O latches, interrupt state, the last fetched opcode with its metadata,
/// and the address space.
pub struct Cpu {
    /// The opcode being executed; for prefixed instructions the prefix is
    /// in the high byte.
    pub opcode: u16,
    pub reg: Registers,
    pub flags: Flags,
    /// Accumulated T states.
    pub cycles: usize,
    pub io: Io,
    pub int: Interrupt,
    /// Metadata of the instruction being executed.
    pub instruction: Instruction,
    /// Host-latched maskable interrupt request.
    pub int_pending: bool,
    pub memory: Memory,
}

/// The parts of the context no instruction handler touches: I/O latches,
/// interrupt state, the pending latch, and the fetch bookkeeping.
pub open spec fn same_aux(pre: Cpu, post: Cpu) -> bool {
    &&& post.io == pre.io
    &&& post.int == pre.int
    &&& post.int_pending == pre.int_pending
    &&& post.opcode == pre.opcode
    &&& post.instruction == pre.instruction
}

/// The value of a single 8-bit register.
pub open spec fn read8_val(c: Cpu, r: Register) -> u8 {
    match r {
        Register::A => c.reg.a,
        Register::B => c.reg.b,
        Register::C => c.reg.c,
        Register::D => c.reg.d,
        Register::E => c.reg.e,
        Register::H => c.reg.h,
        Register::L => c.reg.l,
        Register::I => c.reg.i,
        Register::R => c.reg.r,
        _ => 0,
    }
}

/// The register file after a single 8-bit register is written.
pub open spec fn reg8_write(rf: Registers, r: Register, v: u8) -> Registers {
    match r {
        Register::A => Registers { a: v, ..rf },
        Register::B => Registers { b: v, ..rf },
        Register::C => Registers { c: v, ..rf },
        Register::D => Registers { d: v, ..rf },
        Register::E => Registers { e: v, ..rf },
        Register::H => Registers { h: v, ..rf },
        Register::L => Registers { l: v, ..rf },
        Register::I => Registers { i: v, ..rf },
        Register::R => Registers { r: v, ..rf },
        _ => rf,
    }
}

/// The register file after a 16-bit pair is written: pair writes update
/// both 8-bit halves atomically from the caller's view.
pub open spec fn pair_write(rf: Registers, r: Register, w: u16) -> Registers {
    match r {
        Register::BC => Registers { b: hi8(w), c: lo8(w), ..rf },
        Register::DE => Registers { d: hi8(w), e: lo8(w), ..rf },
        Register::HL => Registers { h: hi8(w), l: lo8(w), ..rf },
        Register::IX => Registers { ix: w, ..rf },
        Register::IY => Registers { iy: w, ..rf },
        Register::SP => Registers { sp: w, ..rf },
        _ => rf,
    }
}

/// The 8-bit operand of an ALU instruction: a register, or for `HL` the
/// memory byte the pair points to.
pub open spec fn alu_operand(c: Cpu, r: Register) -> u8 {
    if r == Register::HL {
        c.memory.ram@[pair16(c.reg.h, c.reg.l) as int]
    } else {
        read8_val(c, r)
    }
}

impl Cpu {
    /// The context is well-formed when its address space spans 64 KiB.
    pub open spec fn wf(&self) -> bool {
        self.memory.wf()
    }

    /// The 16-bit value of a register pair: the big-endian composition of
    /// the two 8-bit halves, or the plain 16-bit register, or A paired
    /// with the packed flag byte.
    pub open spec fn pair_val(&self, reg: Register) -> u16 {
        match reg {
            Register::BC => pair16(self.reg.b, self.reg.c),
            Register::DE => pair16(self.reg.d, self.reg.e),
            Register::HL => pair16(self.reg.h, self.reg.l),
            Register::IX => self.reg.ix,
            Register::IY => self.reg.iy,
            Register::SP => self.reg.sp,
            Register::AF => pair16(self.reg.a, flags_byte(self.flags)),
            _ => 0,
        }
    }

    /// A power-on context: everything zero, memory cleared.
    pub fn new() -> (c: Cpu)
        ensures
            c.wf(),
            c.reg == (Registers::spec_zeroed()),
            c.flags == (Flags {
                sf: false, zf: false, yf: false, hf: false, xf: false, pf: false, nf: false,
                cf: false, sf_: false, zf_: false, yf_: false, hf_: false, xf_: false, pf_: false,
                nf_: false, cf_: false,
            }),
            c.cycles == 0,
            c.opcode == 0,
            c.int_pending == false,
            c.int == (Interrupt {
                irq: false,
                nmi_pending: false,
                nmi: false,
                int: false,
                iff1: false,
                iff2: false,
                mode: 0,
            }),
            c.io == (Io { port0: 0, in0: 0, in1: 0 }),
            c.instruction == (Instruction { name: "", size: 0, cycles: 0, alt_cycles: 0 }),
            forall|i: int| 0 <= i < 0x10000 ==> c.memory.ram@[i] == 0u8,
    {
        Cpu {
            opcode: 0,
            reg: Registers::zeroed(),
            flags: Flags::new(),
            cycles: 0,
            io: Io { port0: 0, in0: 0, in1: 0 },
            int: Interrupt {
                irq: false,
                nmi_pending: false,
                nmi: false,
                int: false,
                iff1: false,
                iff2: false,
                mode: 0,
            },
            instruction: Instruction::new(),
            int_pending: false,
            memory: Memory::new(),
        }
    }

    /// The value of a single 8-bit register.
    pub fn read_reg(&self, reg: Register) -> (v: u8)
        requires
            crate::instructions::is_single(reg),
        ensures
            v == read8_val(*self, reg),
    {
        match reg {
            Register::A => self.reg.a,
            Register::B => self.reg.b,
            Register::C => self.reg.c,
            Register::D => self.reg.d,
            Register::E => self.reg.e,
            Register::H => self.reg.h,
            Register::L => self.reg.l,
            Register::I => self.reg.i,
            Register::R => self.reg.r,
            _ => vstd::pervasive::unreached(),
        }
    }

    /// Writes a single 8-bit register; register pairs are not accepted on
    /// this path.
    pub fn write_reg(&mut self, reg: Register, value: u8)
        requires
            crate::instructions::is_single(reg),
        ensures
            final(self).reg == reg8_write(old(self).reg, reg, value),
            final(self).flags == old(self).flags,
            final(self).cycles == old(self).cycles,
            final(self).memory == old(self).memory,
            same_aux(*old(self), *final(self)),
    {
        match reg {
            Register::A => self.reg.a = value,
            Register::B => self.reg.b = value,
            Register::C => self.reg.c = value,
            Register::D => self.reg.d = value,
            Register::E => self.reg.e = value,
            Register::H => self.reg.h = value,
            Register::L => self.reg.l = value,
            Register::I => self.reg.i = value,
            Register::R => self.reg.r = value,
            _ => vstd::pervasive::unreached(),
        }
    }

    /// The 16-bit value of a register pair, AF included.
    pub fn get_pair(&self, reg: Register) -> (w: u16)
        requires
            crate::instructions::is_pair(reg),
        ensures
            w == self.pair_val(reg),
    {
        match reg {
            Register::BC => (self.reg.b as u16) * 0x100 + (self.reg.c as u16),
            Register::DE => (self.reg.d as u16) * 0x100 + (self.reg.e as u16),
            Register::HL => (self.reg.h as u16) * 0x100 + (self.reg.l as u16),
            Register::IX => self.reg.ix,
            Register::IY => self.reg.iy,
            Register::SP => self.reg.sp,
            Register::AF => (self.reg.a as u16) * 0x100 + (self.flags.get() as u16),
            _ => vstd::pervasive::unreached(),
        }
    }

    /// Loads a register pair with a direct value, updating both 8-bit
    /// halves of a composed pair atomically.
    pub fn write_pair_direct(&mut self, reg: Register, value: u16)
        requires
            crate::instructions::is_wide(reg),
        ensures
            final(self).reg == pair_write(old(self).reg, reg, value),
            final(self).flags == old(self).flags,
            final(self).cycles == old(self).cycles,
            final(self).memory == old(self).memory,
            same_aux(*old(self), *final(self)),
    {
        match reg {
            Register::BC => {
                self.reg.b = (value / 0x100) as u8;
                self.reg.c = (value % 0x100) as u8;
            },
            Register::DE => {
                self.reg.d = (value / 0x100) as u8;
                self.reg.e = (value % 0x100) as u8;
            },
            Register::HL => {
                self.reg.h = (value / 0x100) as u8;
                self.reg.l = (value % 0x100) as u8;
            },
            Register::IX => self.reg.ix = value,
            Register::IY => self.reg.iy = value,
            Register::SP => self.reg.sp = value,
            _ => vstd::pervasive::unreached(),
        }
    }

    /// Loads a register pair with the word stored at `addr`.
    pub fn write_pair_indirect(&mut self, reg: Register, addr: u16)
        requires
            crate::instructions::is_wide(reg),
            old(self).wf(),
        ensures
            final(self).wf(),
            final(self).reg == pair_write(old(self).reg, reg, word_at(old(self).memory.ram@,
                addr)),
            final(self).flags == old(self).flags,
            final(self).cycles == old(self).cycles,
            final(self).memory == old(self).memory,
            same_aux(*old(self), *final(self)),
    {
        let word = self.memory.read16(addr);
        self.write_pair_direct(reg, word);
    }

    /// Advances the program counter by the instruction's encoded length,
    /// remembering where it came from.
    pub fn adv_pc(&mut self, t: u16)
        ensures
            final(self).reg == (Registers {
                pc: old(self).reg.pc.wrapping_add(t),
                prev_pc: old(self).reg.pc,
                ..old(self).reg
            }),
            final(self).flags == old(self).flags,
            final(self).cycles == old(self).cycles,
            final(self).memory == old(self).memory,
            same_aux(*old(self), *final(self)),
    {
        self.reg.prev_pc = self.reg.pc;
        self.reg.pc = self.reg.pc.wrapping_add(t);
    }

    /// Charges T states to the cycle counter.
    pub fn adv_cycles(&mut self, t: usize)
        ensures
            final(self).reg == old(self).reg,
            final(self).flags == old(self).flags,
            final(self).cycles == old(self).cycles.wrapping_add(t),
            final(self).memory == old(self).memory,
            same_aux(*old(self), *final(self)),
    {
        self.cycles = self.cycles.wrapping_add(t);
    }
}

impl Registers {
    /// The all-zero register file.
    pub open spec fn spec_zeroed() -> Registers {
        Registers {
            a: 0, b: 0, c: 0, d: 0, e: 0, h: 0, l: 0, a_: 0, b_: 0, c_: 0, d_: 0, e_: 0,
            h_: 0, l_: 0, i: 0, r: 0, pc: 0, prev_pc: 0, sp: 0, ix: 0, iy: 0,
        }
    }

    /// Builds the all-zero register file.
    pub fn zeroed() -> (r: Registers)
        ensures
            r == Registers::spec_zeroed(),
    {
        Registers {
            a: 0, b: 0, c: 0, d: 0, e: 0, h: 0, l: 0, a_: 0, b_: 0, c_: 0, d_: 0, e_: 0,
            h_: 0, l_: 0, i: 0, r: 0, pc: 0, prev_pc: 0, sp: 0, ix: 0, iy: 0,
        }
    }
}

impl MemoryRW for Cpu {
    fn read8(&self, addr: u16) -> u8 {
        if self.memory.ram.len() == 0x10000 {
            self.memory.read8(addr)
        } else {
            0
        }
    }

    fn read16(&self, addr: u16) -> u16 {
        if self.memory.ram.len() == 0x10000 {
            self.memory.read16(addr)
        } else {
            0
        }
    }

    fn write16(&mut self, addr: u16, word: u16) {
        if self.memory.ram.len() == 0x10000 {
            self.memory.write16(addr, word);
        }
    }

    fn write8(&mut self, addr: u16, byte: u8) {
        if self.memory.ram.len() == 0x10000 {
            self.memory.write8(addr, byte);
        }
    }
}

} // verus!
