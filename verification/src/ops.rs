//! The instruction handlers.  Each one both performs the documented state
//! change and carries a contract pinning every register, flag, memory,
//! program-counter and cycle effect.

use vstd::prelude::*;

use crate::bits::{
    add16, add16_carry, add8, add8_carry, bit1, bit3, bit5, half_add, half_add16, half_sub, hi8,
    lemma_pair_split, lo8, ov_add, ov_add16, ov_sub, pair16, parity_of, sext16, sign16, sign8,
    sub8, sub8_borrow,
};
use crate::cpu::{
    alu_operand, flags_unpacked, pair_write, read8_val, reg8_write, same_aux, Cpu, Flags,
    Interrupt, Io, Registers,
};
use crate::instructions::{is_alu_src, is_main8, is_pair, is_ss, is_wide, Register};
use crate::memory::{stack_push, stack_top, word_at, word_write};

verus! {

/// The BCD correction DAA adds or subtracts: 0x06 when the low nibble
/// needs fixing, 0x60 more when the high digit or the carry does.
pub open spec fn daa_offset(f: Flags, a: u8) -> u8 {
    ((if f.hf || a % 16 > 9 {
        0x06int
    } else {
        0int
    }) + (if f.cf || a > 0x99 {
        0x60int
    } else {
        0int
    })) as u8
}

/// The accumulator after DAA: the correction is added after additions and
/// subtracted after subtractions, per the subtract flag.
pub open spec fn daa_result(f: Flags, a: u8) -> u8 {
    if f.nf {
        sub8(a, daa_offset(f, a), false)
    } else {
        add8(a, daa_offset(f, a), false)
    }
}

/// The carry flag after DAA: set when the high digit or the old carry
/// demanded the 0x60 correction, and never cleared once set.
pub open spec fn daa_carry(f: Flags, a: u8) -> bool {
    f.cf || a > 0x99
}

/// Once the carry flag is set, a DAA application keeps it set, whatever
/// the accumulator holds; so repeated DAA applications with no
/// intervening arithmetic never clear an established carry.
pub proof fn lemma_daa_keeps_carry(f: Flags, a: u8)
    requires
        f.cf,
    ensures
        daa_carry(f, a),
{
}

/// The half-carry flag after DAA.
pub open spec fn daa_half(f: Flags, a: u8) -> bool {
    if f.nf {
        f.hf && a % 16 < 6
    } else {
        a % 16 > 9
    }
}

impl Cpu {
    /// NOP: one byte, four cycles, nothing else.
    pub fn nop(&mut self)
        ensures
            final(self).reg == (Registers {
                pc: old(self).reg.pc.wrapping_add(1),
                prev_pc: old(self).reg.pc,
                ..old(self).reg
            }),
            final(self).flags == old(self).flags,
            final(self).cycles == old(self).cycles.wrapping_add(4),
            final(self).memory == old(self).memory,
            same_aux(*old(self), *final(self)),
    {
        self.adv_pc(1);
        self.adv_cycles(4);
    }

    /// SCF: sets carry, clears subtract and half-carry, copies bits 5 and
    /// 3 of the accumulator.
    pub fn scf(&mut self)
        ensures
            final(self).reg == (Registers {
                pc: old(self).reg.pc.wrapping_add(1),
                prev_pc: old(self).reg.pc,
                ..old(self).reg
            }),
            final(self).flags == (Flags {
                cf: true,
                nf: false,
                hf: false,
                yf: bit5(old(self).reg.a),
                xf: bit3(old(self).reg.a),
                ..old(self).flags
            }),
            final(self).cycles == old(self).cycles.wrapping_add(4),
            final(self).memory == old(self).memory,
            same_aux(*old(self), *final(self)),
    {
        self.flags.cf = true;
        self.flags.nf = false;
        self.flags.hf = false;
        self.flags.yf = self.reg.a / 0x20 % 2 == 1;
        self.flags.xf = self.reg.a / 0x08 % 2 == 1;
        self.adv_cycles(4);
        self.adv_pc(1);
    }

    /// CCF: copies carry into half-carry, complements carry, clears
    /// subtract, copies bits 5 and 3 of the accumulator.
    pub fn ccf(&mut self)
        ensures
            final(self).reg == (Registers {
                pc: old(self).reg.pc.wrapping_add(1),
                prev_pc: old(self).reg.pc,
                ..old(self).reg
            }),
            final(self).flags == (Flags {
                hf: old(self).flags.cf,
                cf: !old(self).flags.cf,
                nf: false,
                yf: bit5(old(self).reg.a),
                xf: bit3(old(self).reg.a),
                ..old(self).flags
            }),
            final(self).cycles == old(self).cycles.wrapping_add(4),
            final(self).memory == old(self).memory,
            same_aux(*old(self), *final(self)),
    {
        self.flags.hf = self.flags.cf;
        self.flags.cf = !self.flags.cf;
        self.flags.yf = self.reg.a / 0x20 % 2 == 1;
        self.flags.xf = self.reg.a / 0x08 % 2 == 1;
        self.flags.nf = false;
        self.adv_cycles(4);
        self.adv_pc(1);
    }

    /// CPL: complements the accumulator; sets half-carry and subtract,
    /// copies bits 5 and 3 of the new accumulator.
    pub fn cpl(&mut self)
        ensures
            final(self).reg == (Registers {
                a: (0xFF - old(self).reg.a) as u8,
                pc: old(self).reg.pc.wrapping_add(1),
                prev_pc: old(self).reg.pc,
                ..old(self).reg
            }),
            final(self).flags == (Flags {
                hf: true,
                nf: true,
                yf: bit5((0xFF - old(self).reg.a) as u8),
                xf: bit3((0xFF - old(self).reg.a) as u8),
                ..old(self).flags
            }),
            final(self).cycles == old(self).cycles.wrapping_add(4),
            final(self).memory == old(self).memory,
            same_aux(*old(self), *final(self)),
    {
        self.reg.a = 0xFF - self.reg.a;
        self.flags.hf = true;
        self.flags.nf = true;
        self.flags.yf = self.reg.a / 0x20 % 2 == 1;
        self.flags.xf = self.reg.a / 0x08 % 2 == 1;
        self.adv_cycles(4);
        self.adv_pc(1);
    }

    /// DAA: BCD-corrects the accumulator after an addition or subtraction.
    /// The carry flag is only ever set, never cleared, by this instruction,
    /// which keeps multi-byte BCD chains intact.
    #[verifier::rlimit(100)]
    #[verifier::spinoff_prover]
    pub fn daa(&mut self)
        ensures
            final(self).reg == (Registers {
                a: daa_result(old(self).flags, old(self).reg.a),
                pc: old(self).reg.pc.wrapping_add(1),
                prev_pc: old(self).reg.pc,
                ..old(self).reg
            }),
            final(self).flags == (Flags {
                sf: sign8(daa_result(old(self).flags, old(self).reg.a)),
                zf: daa_result(old(self).flags, old(self).reg.a) == 0,
                yf: bit5(daa_result(old(self).flags, old(self).reg.a)),
                hf: daa_half(old(self).flags, old(self).reg.a),
                xf: bit3(daa_result(old(self).flags, old(self).reg.a)),
                pf: parity_of(daa_result(old(self).flags, old(self).reg.a)),
                cf: daa_carry(old(self).flags, old(self).reg.a),
                ..old(self).flags
            }),
            old(self).flags.cf ==> final(self).flags.cf,
            final(self).cycles == old(self).cycles.wrapping_add(4),
            final(self).memory == old(self).memory,
            same_aux(*old(self), *final(self)),
    {
        let a = self.reg.a;
        let f_hf = self.flags.hf;
        let f_cf = self.flags.cf;
        let f_nf = self.flags.nf;
        let lowfix: bool = f_hf || a % 16 > 9;
        let highfix: bool = f_cf || a > 0x99;
        let offset: u8 = (if lowfix { 0x06u8 } else { 0 }) + (if highfix { 0x60u8 } else { 0 });
        let r: u8 = if f_nf {
            ((0x100u16 + a as u16 - offset as u16) % 0x100) as u8
        } else {
            ((a as u16 + offset as u16) % 0x100) as u8
        };
        proof {
            assert(offset == daa_offset(old(self).flags, a));
            assert(r == daa_result(old(self).flags, a));
        }
        self.flags.cf = highfix;
        self.flags.hf = if f_nf { f_hf && a % 16 < 6 } else { a % 16 > 9 };
        self.reg.a = r;
        self.flags.sf = r >= 0x80;
        self.flags.zf = r == 0;
        self.flags.pf = (r % 2 + r / 2 % 2 + r / 4 % 2 + r / 8 % 2 + r / 16 % 2 + r / 32 % 2 + r
            / 64 % 2 + r / 128 % 2) % 2 == 0;
        self.flags.yf = r / 0x20 % 2 == 1;
        self.flags.xf = r / 0x08 % 2 == 1;
        self.adv_cycles(4);
        self.adv_pc(1);
    }

    /// EI and DI: EI raises the host-visible enable request, and the
    /// enable flip-flops are set by the interrupt controller only after
    /// the following instruction has completed; DI clears everything
    /// immediately.
    pub fn interrupt(&mut self, value: bool)
        ensures
            final(self).reg == (Registers {
                pc: old(self).reg.pc.wrapping_add(1),
                prev_pc: old(self).reg.pc,
                ..old(self).reg
            }),
            final(self).flags == old(self).flags,
            final(self).int == (Interrupt {
                int: value,
                iff1: old(self).int.iff1 && value,
                iff2: old(self).int.iff2 && value,
                ..old(self).int
            }),
            final(self).cycles == old(self).cycles.wrapping_add(4),
            final(self).memory == old(self).memory,
            final(self).io == old(self).io,
            final(self).int_pending == old(self).int_pending,
            final(self).opcode == old(self).opcode,
            final(self).instruction == old(self).instruction,
    {
        self.int.int = value;
        if !value {
            self.int.iff1 = false;
            self.int.iff2 = false;
        }
        self.adv_cycles(4);
        self.adv_pc(1);
    }

    /// IM 0/1/2: selects the interrupt mode.
    pub fn set_interrupt_mode(&mut self, mode: u8)
        requires
            mode <= 2,
        ensures
            final(self).reg == (Registers {
                pc: old(self).reg.pc.wrapping_add(2),
                prev_pc: old(self).reg.pc,
                ..old(self).reg
            }),
            final(self).flags == old(self).flags,
            final(self).int == (Interrupt { mode, ..old(self).int }),
            final(self).cycles == old(self).cycles.wrapping_add(8),
            final(self).memory == old(self).memory,
            final(self).io == old(self).io,
            final(self).int_pending == old(self).int_pending,
            final(self).opcode == old(self).opcode,
            final(self).instruction == old(self).instruction,
    {
        self.int.mode = mode;
        self.adv_cycles(8);
        self.adv_pc(2);
    }

    /// LD SP, HL.
    pub fn sphl(&mut self)
        ensures
            final(self).reg == (Registers {
                sp: pair16(old(self).reg.h, old(self).reg.l),
                pc: old(self).reg.pc.wrapping_add(1),
                prev_pc: old(self).reg.pc,
                ..old(self).reg
            }),
            final(self).flags == old(self).flags,
            final(self).cycles == old(self).cycles.wrapping_add(6),
            final(self).memory == old(self).memory,
            same_aux(*old(self), *final(self)),
    {
        let hl = self.get_pair(Register::HL);
        self.reg.sp = hl;
        self.adv_cycles(6);
        self.adv_pc(1);
    }

    /// IN A, (*): latches the selected port number for the host and loads
    /// the accumulator with the open-bus placeholder 0xFF; the host owns
    /// real port semantics and may overwrite the accumulator afterwards.
    pub fn in_(&mut self, _reg: Register)
        requires
            old(self).wf(),
        ensures
            final(self).wf(),
            final(self).reg == (Registers {
                a: 0xFFu8,
                pc: old(self).reg.pc.wrapping_add(2),
                prev_pc: old(self).reg.pc,
                ..old(self).reg
            }),
            final(self).flags == old(self).flags,
            final(self).io == (Io {
                port0: old(self).memory.ram@[old(self).reg.pc.wrapping_add(1) as int],
                ..old(self).io
            }),
            final(self).cycles == old(self).cycles.wrapping_add(11),
            final(self).memory == old(self).memory,
            final(self).int == old(self).int,
            final(self).int_pending == old(self).int_pending,
            final(self).opcode == old(self).opcode,
            final(self).instruction == old(self).instruction,
    {
        let port = self.memory.read8(self.reg.pc.wrapping_add(1));
        self.io.port0 = port;
        self.reg.a = 0xFF;
        self.adv_cycles(11);
        self.adv_pc(2);
    }

    /// OUT (*), A: latches the selected port number for the host; the
    /// host reads the port number and the accumulator and owns the
    /// effect.
    pub fn out(&mut self)
        requires
            old(self).wf(),
        ensures
            final(self).wf(),
            final(self).reg == (Registers {
                pc: old(self).reg.pc.wrapping_add(2),
                prev_pc: old(self).reg.pc,
                ..old(self).reg
            }),
            final(self).flags == old(self).flags,
            final(self).io == (Io {
                port0: old(self).memory.ram@[old(self).reg.pc.wrapping_add(1) as int],
                ..old(self).io
            }),
            final(self).cycles == old(self).cycles.wrapping_add(11),
            final(self).memory == old(self).memory,
            final(self).int == old(self).int,
            final(self).int_pending == old(self).int_pending,
            final(self).opcode == old(self).opcode,
            final(self).instruction == old(self).instruction,
    {
        let port = self.memory.read8(self.reg.pc.wrapping_add(1));
        self.io.port0 = port;
        self.adv_cycles(11);
        self.adv_pc(2);
    }

    /// Fetches the 8-bit operand of an ALU instruction: a register, or
    /// for `HL` the memory byte the pair points to.
    fn alu_src_val(&self, reg: Register) -> (v: u8)
        requires
            is_alu_src(reg),
            self.wf(),
        ensures
            v == alu_operand(*self, reg),
    {
        if matches!(reg, Register::HL) {
            let hl = self.get_pair(Register::HL);
            self.memory.read8(hl)
        } else {
            self.read_reg(reg)
        }
    }

    /// Adds `value` and an optional carry into the accumulator and sets
    /// the full addition flag set.
    #[verifier::rlimit(100)]
    #[verifier::spinoff_prover]
    fn add_core(&mut self, value: u8, cin: bool)
        ensures
            ({
                let a = old(self).reg.a;
                let r = add8(a, value, cin);
                &&& final(self).reg == (Registers { a: r, ..old(self).reg })
                &&& final(self).flags == (Flags {
                    sf: sign8(r),
                    zf: r == 0,
                    yf: bit5(r),
                    hf: half_add(a, value, cin),
                    xf: bit3(r),
                    pf: ov_add(a, value, r),
                    nf: false,
                    cf: add8_carry(a, value, cin),
                    ..old(self).flags
                })
                &&& final(self).cycles == old(self).cycles
                &&& final(self).memory == old(self).memory
                &&& same_aux(*old(self), *final(self))
            }),
    {
        let a = self.reg.a;
        let c: u8 = if cin { 1 } else { 0 };
        let s: u16 = a as u16 + value as u16 + c as u16;
        let r: u8 = (s % 0x100) as u8;
        self.flags = Flags {
            sf: r >= 0x80,
            zf: r == 0,
            yf: r / 0x20 % 2 == 1,
            hf: a % 16 + value % 16 + c > 15,
            xf: r / 0x08 % 2 == 1,
            pf: (a >= 0x80) == (value >= 0x80) && (r >= 0x80) != (a >= 0x80),
            nf: false,
            cf: s > 0xFF,
            ..self.flags
        };
        self.reg.a = r;
    }

    /// Subtracts `value` and an optional borrow from the accumulator,
    /// stores the result when `store` is set (CP discards it), and sets
    /// the full subtraction flag set; bits 5 and 3 come from the
    /// subtrahend, not the result.
    #[verifier::rlimit(100)]
    #[verifier::spinoff_prover]
    fn sub_core(&mut self, value: u8, cin: bool, store: bool)
        ensures
            ({
                let a = old(self).reg.a;
                let r = sub8(a, value, cin);
                &&& final(self).reg == (Registers { a: if store { r } else { a }, ..old(self).reg })
                &&& final(self).flags == (Flags {
                    sf: sign8(r),
                    zf: r == 0,
                    yf: bit5(value),
                    hf: half_sub(a, value, cin),
                    xf: bit3(value),
                    pf: ov_sub(a, value, r),
                    nf: true,
                    cf: sub8_borrow(a, value, cin),
                    ..old(self).flags
                })
                &&& final(self).cycles == old(self).cycles
                &&& final(self).memory == old(self).memory
                &&& same_aux(*old(self), *final(self))
            }),
    {
        let a = self.reg.a;
        let c: u8 = if cin { 1 } else { 0 };
        let s: u16 = 0x100 + a as u16 - value as u16 - c as u16;
        let r: u8 = (s % 0x100) as u8;
        self.flags = Flags {
            sf: r >= 0x80,
            zf: r == 0,
            yf: value / 0x20 % 2 == 1,
            hf: (a as u16) % 16 < (value as u16) % 16 + c as u16,
            xf: value / 0x08 % 2 == 1,
            pf: (a >= 0x80) != (value >= 0x80) && (r >= 0x80) != (a >= 0x80),
            nf: true,
            cf: (a as u16) < value as u16 + c as u16,
            ..self.flags
        };
        if store {
            self.reg.a = r;
        }
    }


    /// ADD A, r or ADD A, (HL).
    pub fn add(&mut self, reg: Register)
        requires
            is_alu_src(reg),
            old(self).wf(),
        ensures
            ({
                let a = old(self).reg.a;
                let v = alu_operand(*old(self), reg);
                let r = add8(a, v, false);
                &&& final(self).reg == (Registers {
                    a: r,
                    pc: old(self).reg.pc.wrapping_add(1),
                    prev_pc: old(self).reg.pc,
                    ..old(self).reg
                })
                &&& final(self).flags == (Flags {
                    sf: sign8(r),
                    zf: r == 0,
                    yf: bit5(r),
                    hf: half_add(a, v, false),
                    xf: bit3(r),
                    pf: ov_add(a, v, r),
                    nf: false,
                    cf: add8_carry(a, v, false),
                    ..old(self).flags
                })
                &&& final(self).cycles == old(self).cycles.wrapping_add(
                    if reg == Register::HL { 7int } else { 4int } as usize,
                )
                &&& final(self).memory == old(self).memory
                &&& same_aux(*old(self), *final(self))
                &&& final(self).wf()
            }),
    {
        let value = self.alu_src_val(reg);
        self.add_core(value, false);
        if matches!(reg, Register::HL) {
            self.adv_cycles(7);
        } else {
            self.adv_cycles(4);
        }
        self.adv_pc(1);
    }

    /// ADC A, r or ADC A, (HL): addition with the carry flag folded in,
    /// half-carry included.
    pub fn adc(&mut self, reg: Register)
        requires
            is_alu_src(reg),
            old(self).wf(),
        ensures
            ({
                let a = old(self).reg.a;
                let v = alu_operand(*old(self), reg);
                let cin = old(self).flags.cf;
                let r = add8(a, v, cin);
                &&& final(self).reg == (Registers {
                    a: r,
                    pc: old(self).reg.pc.wrapping_add(1),
                    prev_pc: old(self).reg.pc,
                    ..old(self).reg
                })
                &&& final(self).flags == (Flags {
                    sf: sign8(r),
                    zf: r == 0,
                    yf: bit5(r),
                    hf: half_add(a, v, cin),
                    xf: bit3(r),
                    pf: ov_add(a, v, r),
                    nf: false,
                    cf: add8_carry(a, v, cin),
                    ..old(self).flags
                })
                &&& final(self).cycles == old(self).cycles.wrapping_add(
                    if reg == Register::HL { 7int } else { 4int } as usize,
                )
                &&& final(self).memory == old(self).memory
                &&& same_aux(*old(self), *final(self))
                &&& final(self).wf()
            }),
    {
        let value = self.alu_src_val(reg);
        let cin = self.flags.cf;
        self.add_core(value, cin);
        if matches!(reg, Register::HL) {
            self.adv_cycles(7);
        } else {
            self.adv_cycles(4);
        }
        self.adv_pc(1);
    }

    /// ADD A, *: adds the immediate byte following the opcode.
    pub fn adi(&mut self)
        requires
            old(self).wf(),
        ensures
            ({
                let a = old(self).reg.a;
                let v = old(self).memory.ram@[old(self).reg.pc.wrapping_add(1) as int];
                let r = add8(a, v, false);
                &&& final(self).reg == (Registers {
                    a: r,
                    pc: old(self).reg.pc.wrapping_add(2),
                    prev_pc: old(self).reg.pc,
                    ..old(self).reg
                })
                &&& final(self).flags == (Flags {
                    sf: sign8(r),
                    zf: r == 0,
                    yf: bit5(r),
                    hf: half_add(a, v, false),
                    xf: bit3(r),
                    pf: ov_add(a, v, r),
                    nf: false,
                    cf: add8_carry(a, v, false),
                    ..old(self).flags
                })
                &&& final(self).cycles == old(self).cycles.wrapping_add(7)
                &&& final(self).memory == old(self).memory
                &&& same_aux(*old(self), *final(self))
                &&& final(self).wf()
            }),
    {
        let value = self.memory.read8(self.reg.pc.wrapping_add(1));
        self.add_core(value, false);
        self.adv_cycles(7);
        self.adv_pc(2);
    }

    /// ADC A, *: adds the immediate byte and the carry flag.
    pub fn adc_im(&mut self)
        requires
            old(self).wf(),
        ensures
            ({
                let a = old(self).reg.a;
                let v = old(self).memory.ram@[old(self).reg.pc.wrapping_add(1) as int];
                let cin = old(self).flags.cf;
                let r = add8(a, v, cin);
                &&& final(self).reg == (Registers {
                    a: r,
                    pc: old(self).reg.pc.wrapping_add(2),
                    prev_pc: old(self).reg.pc,
                    ..old(self).reg
                })
                &&& final(self).flags == (Flags {
                    sf: sign8(r),
                    zf: r == 0,
                    yf: bit5(r),
                    hf: half_add(a, v, cin),
                    xf: bit3(r),
                    pf: ov_add(a, v, r),
                    nf: false,
                    cf: add8_carry(a, v, cin),
                    ..old(self).flags
                })
                &&& final(self).cycles == old(self).cycles.wrapping_add(7)
                &&& final(self).memory == old(self).memory
                &&& same_aux(*old(self), *final(self))
                &&& final(self).wf()
            }),
    {
        let value = self.memory.read8(self.reg.pc.wrapping_add(1));
        let cin = self.flags.cf;
        self.add_core(value, cin);
        self.adv_cycles(7);
        self.adv_pc(2);
    }

    /// SUB r or SUB (HL).  Bits 5 and 3 of the flags are copied from the
    /// subtrahend, not the result: the architectural quirk of the
    /// subtraction family.
    pub fn sub(&mut self, reg: Register)
        requires
            is_alu_src(reg),
            old(self).wf(),
        ensures
            ({
                let a = old(self).reg.a;
                let v = alu_operand(*old(self), reg);
                let r = sub8(a, v, false);
                &&& final(self).reg == (Registers {
                    a: r,
                    pc: old(self).reg.pc.wrapping_add(1),
                    prev_pc: old(self).reg.pc,
                    ..old(self).reg
                })
                &&& final(self).flags == (Flags {
                    sf: sign8(r),
                    zf: r == 0,
                    yf: bit5(v),
                    hf: half_sub(a, v, false),
                    xf: bit3(v),
                    pf: ov_sub(a, v, r),
                    nf: true,
                    cf: sub8_borrow(a, v, false),
                    ..old(self).flags
                })
                &&& final(self).cycles == old(self).cycles.wrapping_add(
                    if reg == Register::HL { 7int } else { 4int } as usize,
                )
                &&& final(self).memory == old(self).memory
                &&& same_aux(*old(self), *final(self))
                &&& final(self).wf()
            }),
    {
        let value = self.alu_src_val(reg);
        self.sub_core(value, false, true);
        if matches!(reg, Register::HL) {
            self.adv_cycles(7);
        } else {
            self.adv_cycles(4);
        }
        self.adv_pc(1);
    }

    /// SBC A, r or SBC A, (HL): subtraction with the carry flag as
    /// borrow-in, half-borrow included.
    pub fn sbc(&mut self, reg: Register)
        requires
            is_alu_src(reg),
            old(self).wf(),
        ensures
            ({
                let a = old(self).reg.a;
                let v = alu_operand(*old(self), reg);
                let cin = old(self).flags.cf;
                let r = sub8(a, v, cin);
                &&& final(self).reg == (Registers {
                    a: r,
                    pc: old(self).reg.pc.wrapping_add(1),
                    prev_pc: old(self).reg.pc,
                    ..old(self).reg
                })
                &&& final(self).flags == (Flags {
                    sf: sign8(r),
                    zf: r == 0,
                    yf: bit5(v),
                    hf: half_sub(a, v, cin),
                    xf: bit3(v),
                    pf: ov_sub(a, v, r),
                    nf: true,
                    cf: sub8_borrow(a, v, cin),
                    ..old(self).flags
                })
                &&& final(self).cycles == old(self).cycles.wrapping_add(
                    if reg == Register::HL { 7int } else { 4int } as usize,
                )
                &&& final(self).memory == old(self).memory
                &&& same_aux(*old(self), *final(self))
                &&& final(self).wf()
            }),
    {
        let value = self.alu_src_val(reg);
        let cin = self.flags.cf;
        self.sub_core(value, cin, true);
        if matches!(reg, Register::HL) {
            self.adv_cycles(7);
        } else {
            self.adv_cycles(4);
        }
        self.adv_pc(1);
    }

    /// SUB *: subtracts the immediate byte.
    pub fn sui(&mut self)
        requires
            old(self).wf(),
        ensures
            ({
                let a = old(self).reg.a;
                let v = old(self).memory.ram@[old(self).reg.pc.wrapping_add(1) as int];
                let r = sub8(a, v, false);
                &&& final(self).reg == (Registers {
                    a: r,
                    pc: old(self).reg.pc.wrapping_add(2),
                    prev_pc: old(self).reg.pc,
                    ..old(self).reg
                })
                &&& final(self).flags == (Flags {
                    sf: sign8(r),
                    zf: r == 0,
                    yf: bit5(v),
                    hf: half_sub(a, v, false),
                    xf: bit3(v),
                    pf: ov_sub(a, v, r),
                    nf: true,
                    cf: sub8_borrow(a, v, false),
                    ..old(self).flags
                })
                &&& final(self).cycles == old(self).cycles.wrapping_add(7)
                &&& final(self).memory == old(self).memory
                &&& same_aux(*old(self), *final(self))
                &&& final(self).wf()
            }),
    {
        let value = self.memory.read8(self.reg.pc.wrapping_add(1));
        self.sub_core(value, false, true);
        self.adv_cycles(7);
        self.adv_pc(2);
    }

    /// SBC A, *: subtracts the immediate byte and the carry flag.
    pub fn sbi(&mut self)
        requires
            old(self).wf(),
        ensures
            ({
                let a = old(self).reg.a;
                let v = old(self).memory.ram@[old(self).reg.pc.wrapping_add(1) as int];
                let cin = old(self).flags.cf;
                let r = sub8(a, v, cin);
                &&& final(self).reg == (Registers {
                    a: r,
                    pc: old(self).reg.pc.wrapping_add(2),
                    prev_pc: old(self).reg.pc,
                    ..old(self).reg
                })
                &&& final(self).flags == (Flags {
                    sf: sign8(r),
                    zf: r == 0,
                    yf: bit5(v),
                    hf: half_sub(a, v, cin),
                    xf: bit3(v),
                    pf: ov_sub(a, v, r),
                    nf: true,
                    cf: sub8_borrow(a, v, cin),
                    ..old(self).flags
                })
                &&& final(self).cycles == old(self).cycles.wrapping_add(7)
                &&& final(self).memory == old(self).memory
                &&& same_aux(*old(self), *final(self))
                &&& final(self).wf()
            }),
    {
        let value = self.memory.read8(self.reg.pc.wrapping_add(1));
        let cin = self.flags.cf;
        self.sub_core(value, cin, true);
        self.adv_cycles(7);
        self.adv_pc(2);
    }

    /// AND r or AND (HL): half-carry is always set and carry always
    /// cleared by AND.
    pub fn ana(&mut self, reg: Register)
        requires
            is_alu_src(reg),
            old(self).wf(),
        ensures
            ({
                let a = old(self).reg.a;
                let v = alu_operand(*old(self), reg);
                let r = (a & v);
                &&& final(self).reg == (Registers {
                    a: r,
                    pc: old(self).reg.pc.wrapping_add(1),
                    prev_pc: old(self).reg.pc,
                    ..old(self).reg
                })
                &&& final(self).flags == (Flags {
                    sf: sign8(r),
                    zf: r == 0,
                    yf: bit5(r),
                    hf: true,
                    xf: bit3(r),
                    pf: parity_of(r),
                    nf: false,
                    cf: false,
                    ..old(self).flags
                })
                &&& final(self).cycles == old(self).cycles.wrapping_add(
                    if reg == Register::HL { 7int } else { 4int } as usize,
                )
                &&& final(self).memory == old(self).memory
                &&& same_aux(*old(self), *final(self))
                &&& final(self).wf()
            }),
    {
        let value = self.alu_src_val(reg);
        let r: u8 = self.reg.a & value;
        self.set_logic_flags(r, true);
        self.reg.a = r;
        if matches!(reg, Register::HL) {
            self.adv_cycles(7);
        } else {
            self.adv_cycles(4);
        }
        self.adv_pc(1);
    }

    /// AND *: ANDs the immediate byte with the accumulator.
    pub fn ani(&mut self)
        requires
            old(self).wf(),
        ensures
            ({
                let a = old(self).reg.a;
                let v = old(self).memory.ram@[old(self).reg.pc.wrapping_add(1) as int];
                let r = (a & v);
                &&& final(self).reg == (Registers {
                    a: r,
                    pc: old(self).reg.pc.wrapping_add(2),
                    prev_pc: old(self).reg.pc,
                    ..old(self).reg
                })
                &&& final(self).flags == (Flags {
                    sf: sign8(r),
                    zf: r == 0,
                    yf: bit5(r),
                    hf: true,
                    xf: bit3(r),
                    pf: parity_of(r),
                    nf: false,
                    cf: false,
                    ..old(self).flags
                })
                &&& final(self).cycles == old(self).cycles.wrapping_add(7)
                &&& final(self).memory == old(self).memory
                &&& same_aux(*old(self), *final(self))
                &&& final(self).wf()
            }),
    {
        let value = self.memory.read8(self.reg.pc.wrapping_add(1));
        let r: u8 = self.reg.a & value;
        self.set_logic_flags(r, true);
        self.reg.a = r;
        self.adv_cycles(7);
        self.adv_pc(2);
    }

    /// XOR r or XOR (HL): half-carry and carry are always cleared.
    pub fn xra(&mut self, reg: Register)
        requires
            is_alu_src(reg),
            old(self).wf(),
        ensures
            ({
                let a = old(self).reg.a;
                let v = alu_operand(*old(self), reg);
                let r = (a ^ v);
                &&& final(self).reg == (Registers {
                    a: r,
                    pc: old(self).reg.pc.wrapping_add(1),
                    prev_pc: old(self).reg.pc,
                    ..old(self).reg
                })
                &&& final(self).flags == (Flags {
                    sf: sign8(r),
                    zf: r == 0,
                    yf: bit5(r),
                    hf: false,
                    xf: bit3(r),
                    pf: parity_of(r),
                    nf: false,
                    cf: false,
                    ..old(self).flags
                })
                &&& final(self).cycles == old(self).cycles.wrapping_add(
                    if reg == Register::HL { 7int } else { 4int } as usize,
                )
                &&& final(self).memory == old(self).memory
                &&& same_aux(*old(self), *final(self))
                &&& final(self).wf()
            }),
    {
        let value = self.alu_src_val(reg);
        let r: u8 = self.reg.a ^ value;
        self.set_logic_flags(r, false);
        self.reg.a = r;
        if matches!(reg, Register::HL) {
            self.adv_cycles(7);
        } else {
            self.adv_cycles(4);
        }
        self.adv_pc(1);
    }

    /// XOR *: XORs the immediate byte with the accumulator.
    pub fn xri(&mut self)
        requires
            old(self).wf(),
        ensures
            ({
                let a = old(self).reg.a;
                let v = old(self).memory.ram@[old(self).reg.pc.wrapping_add(1) as int];
                let r = (a ^ v);
                &&& final(self).reg == (Registers {
                    a: r,
                    pc: old(self).reg.pc.wrapping_add(2),
                    prev_pc: old(self).reg.pc,
                    ..old(self).reg
                })
                &&& final(self).flags == (Flags {
                    sf: sign8(r),
                    zf: r == 0,
                    yf: bit5(r),
                    hf: false,
                    xf: bit3(r),
                    pf: parity_of(r),
                    nf: false,
                    cf: false,
                    ..old(self).flags
                })
                &&& final(self).cycles == old(self).cycles.wrapping_add(7)
                &&& final(self).memory == old(self).memory
                &&& same_aux(*old(self), *final(self))
                &&& final(self).wf()
            }),
    {
        let value = self.memory.read8(self.reg.pc.wrapping_add(1));
        let r: u8 = self.reg.a ^ value;
        self.set_logic_flags(r, false);
        self.reg.a = r;
        self.adv_cycles(7);
        self.adv_pc(2);
    }

    /// OR r or OR (HL): half-carry and carry are always cleared.
    pub fn ora(&mut self, reg: Register)
        requires
            is_alu_src(reg),
            old(self).wf(),
        ensures
            ({
                let a = old(self).reg.a;
                let v = alu_operand(*old(self), reg);
                let r = (a | v);
                &&& final(self).reg == (Registers {
                    a: r,
                    pc: old(self).reg.pc.wrapping_add(1),
                    prev_pc: old(self).reg.pc,
                    ..old(self).reg
                })
                &&& final(self).flags == (Flags {
                    sf: sign8(r),
                    zf: r == 0,
                    yf: bit5(r),
                    hf: false,
                    xf: bit3(r),
                    pf: parity_of(r),
                    nf: false,
                    cf: false,
                    ..old(self).flags
                })
                &&& final(self).cycles == old(self).cycles.wrapping_add(
                    if reg == Register::HL { 7int } else { 4int } as usize,
                )
                &&& final(self).memory == old(self).memory
                &&& same_aux(*old(self), *final(self))
                &&& final(self).wf()
            }),
    {
        let value = self.alu_src_val(reg);
        let r: u8 = self.reg.a | value;
        self.set_logic_flags(r, false);
        self.reg.a = r;
        if matches!(reg, Register::HL) {
            self.adv_cycles(7);
        } else {
            self.adv_cycles(4);
        }
        self.adv_pc(1);
    }

    /// OR *: ORs the immediate byte with the accumulator.
    pub fn ori(&mut self)
        requires
            old(self).wf(),
        ensures
            ({
                let a = old(self).reg.a;
                let v = old(self).memory.ram@[old(self).reg.pc.wrapping_add(1) as int];
                let r = (a | v);
                &&& final(self).reg == (Registers {
                    a: r,
                    pc: old(self).reg.pc.wrapping_add(2),
                    prev_pc: old(self).reg.pc,
                    ..old(self).reg
                })
                &&& final(self).flags == (Flags {
                    sf: sign8(r),
                    zf: r == 0,
                    yf: bit5(r),
                    hf: false,
                    xf: bit3(r),
                    pf: parity_of(r),
                    nf: false,
                    cf: false,
                    ..old(self).flags
                })
                &&& final(self).cycles == old(self).cycles.wrapping_add(7)
                &&& final(self).memory == old(self).memory
                &&& same_aux(*old(self), *final(self))
                &&& final(self).wf()
            }),
    {
        let value = self.memory.read8(self.reg.pc.wrapping_add(1));
        let r: u8 = self.reg.a | value;
        self.set_logic_flags(r, false);
        self.reg.a = r;
        self.adv_cycles(7);
        self.adv_pc(2);
    }

    /// Sets the flags every logical operation shares: sign, zero, parity,
    /// bit copies, subtract and carry cleared, and half-carry as given.
    fn set_logic_flags(&mut self, r: u8, hf: bool)
        ensures
            final(self).flags == (Flags {
                sf: sign8(r),
                zf: r == 0,
                yf: bit5(r),
                hf: hf,
                xf: bit3(r),
                pf: parity_of(r),
                nf: false,
                cf: false,
                ..old(self).flags
            }),
            final(self).reg == old(self).reg,
            final(self).cycles == old(self).cycles,
            final(self).memory == old(self).memory,
            same_aux(*old(self), *final(self)),
    {
        self.flags.sf = r >= 0x80;
        self.flags.zf = r == 0;
        self.flags.yf = r / 0x20 % 2 == 1;
        self.flags.hf = hf;
        self.flags.xf = r / 0x08 % 2 == 1;
        self.flags.pf = self.parity(r);
        self.flags.nf = false;
        self.flags.cf = false;
    }

    /// True when the byte has an even number of one bits.
    pub fn parity(&self, value: u8) -> (p: bool)
        ensures
            p == parity_of(value),
    {
        let bits: u8 = value % 2 + value / 2 % 2 + value / 4 % 2 + value / 8 % 2 + value / 16 % 2
            + value / 32 % 2 + value / 64 % 2 + value / 128 % 2;
        bits % 2 == 0
    }

    /// CP r or CP (HL): compares by subtraction, discarding the result.
    /// Bits 5 and 3 of the flags come from the operand, not the result.
    pub fn cmp(&mut self, reg: Register)
        requires
            is_alu_src(reg),
            old(self).wf(),
        ensures
            ({
                let a = old(self).reg.a;
                let v = alu_operand(*old(self), reg);
                let r = sub8(a, v, false);
                &&& final(self).reg == (Registers {
                    pc: old(self).reg.pc.wrapping_add(1),
                    prev_pc: old(self).reg.pc,
                    ..old(self).reg
                })
                &&& final(self).flags == (Flags {
                    sf: sign8(r),
                    zf: r == 0,
                    yf: bit5(v),
                    hf: half_sub(a, v, false),
                    xf: bit3(v),
                    pf: ov_sub(a, v, r),
                    nf: true,
                    cf: sub8_borrow(a, v, false),
                    ..old(self).flags
                })
                &&& final(self).cycles == old(self).cycles.wrapping_add(
                    if reg == Register::HL { 7int } else { 4int } as usize,
                )
                &&& final(self).memory == old(self).memory
                &&& same_aux(*old(self), *final(self))
                &&& final(self).wf()
            }),
    {
        let value = self.alu_src_val(reg);
        self.sub_core(value, false, false);
        if matches!(reg, Register::HL) {
            self.adv_cycles(7);
        } else {
            self.adv_cycles(4);
        }
        self.adv_pc(1);
    }

    /// CP *: compares the accumulator with the immediate byte.
    pub fn cp(&mut self)
        requires
            old(self).wf(),
        ensures
            ({
                let a = old(self).reg.a;
                let v = old(self).memory.ram@[old(self).reg.pc.wrapping_add(1) as int];
                let r = sub8(a, v, false);
                &&& final(self).reg == (Registers {
                    pc: old(self).reg.pc.wrapping_add(2),
                    prev_pc: old(self).reg.pc,
                    ..old(self).reg
                })
                &&& final(self).flags == (Flags {
                    sf: sign8(r),
                    zf: r == 0,
                    yf: bit5(v),
                    hf: half_sub(a, v, false),
                    xf: bit3(v),
                    pf: ov_sub(a, v, r),
                    nf: true,
                    cf: sub8_borrow(a, v, false),
                    ..old(self).flags
                })
                &&& final(self).cycles == old(self).cycles.wrapping_add(7)
                &&& final(self).memory == old(self).memory
                &&& same_aux(*old(self), *final(self))
                &&& final(self).wf()
            }),
    {
        let value = self.memory.read8(self.reg.pc.wrapping_add(1));
        self.sub_core(value, false, false);
        self.adv_cycles(7);
        self.adv_pc(2);
    }

    /// INC r or INC (HL): increments and sets every flag but carry;
    /// overflow is signalled exactly when the result is 0x80.
    #[verifier::rlimit(100)]
    #[verifier::spinoff_prover]
    pub fn inc(&mut self, reg: Register)
        requires
            is_alu_src(reg),
            old(self).wf(),
        ensures
            ({
                let v = alu_operand(*old(self), reg);
                let r = add8(v, 1, false);
                let hl = pair16(old(self).reg.h, old(self).reg.l);
                &&& final(self).reg == (Registers {
                    pc: old(self).reg.pc.wrapping_add(1),
                    prev_pc: old(self).reg.pc,
                    ..(if reg == Register::HL {
                        old(self).reg
                    } else {
                        reg8_write(old(self).reg, reg, r)
                    })
                })
                &&& final(self).memory.ram@ == (if reg == Register::HL {
                    old(self).memory.ram@.update(hl as int, r)
                } else {
                    old(self).memory.ram@
                })
                &&& final(self).flags == (Flags {
                    sf: sign8(r),
                    zf: r == 0,
                    yf: bit5(r),
                    hf: half_add(v, 1, false),
                    xf: bit3(r),
                    pf: r == 0x80,
                    nf: false,
                    ..old(self).flags
                })
                &&& final(self).cycles == old(self).cycles.wrapping_add(
                    if reg == Register::HL { 11int } else { 4int } as usize,
                )
                &&& same_aux(*old(self), *final(self))
                &&& final(self).wf()
            }),
    {
        let v = self.alu_src_val(reg);
        let r: u8 = ((v as u16 + 1) % 0x100) as u8;
        if matches!(reg, Register::HL) {
            let hl = self.get_pair(Register::HL);
            self.memory.write8(hl, r);
            self.adv_cycles(11);
        } else {
            self.write_reg(reg, r);
            self.adv_cycles(4);
        }
        self.flags.sf = r >= 0x80;
        self.flags.zf = r == 0;
        self.flags.hf = v % 16 + 1 > 15;
        self.flags.pf = r == 0x80;
        self.flags.nf = false;
        self.flags.yf = r / 0x20 % 2 == 1;
        self.flags.xf = r / 0x08 % 2 == 1;
        self.adv_pc(1);
    }

    /// DEC r or DEC (HL): decrements and sets every flag but carry;
    /// overflow is signalled exactly when the result is 0x7F.
    #[verifier::rlimit(100)]
    #[verifier::spinoff_prover]
    pub fn dec(&mut self, reg: Register)
        requires
            is_alu_src(reg),
            old(self).wf(),
        ensures
            ({
                let v = alu_operand(*old(self), reg);
                let r = sub8(v, 1, false);
                let hl = pair16(old(self).reg.h, old(self).reg.l);
                &&& final(self).reg == (Registers {
                    pc: old(self).reg.pc.wrapping_add(1),
                    prev_pc: old(self).reg.pc,
                    ..(if reg == Register::HL {
                        old(self).reg
                    } else {
                        reg8_write(old(self).reg, reg, r)
                    })
                })
                &&& final(self).memory.ram@ == (if reg == Register::HL {
                    old(self).memory.ram@.update(hl as int, r)
                } else {
                    old(self).memory.ram@
                })
                &&& final(self).flags == (Flags {
                    sf: sign8(r),
                    zf: r == 0,
                    yf: bit5(r),
                    hf: half_sub(v, 1, false),
                    xf: bit3(r),
                    pf: r == 0x7F,
                    nf: true,
                    ..old(self).flags
                })
                &&& final(self).cycles == old(self).cycles.wrapping_add(
                    if reg == Register::HL { 11int } else { 4int } as usize,
                )
                &&& same_aux(*old(self), *final(self))
                &&& final(self).wf()
            }),
    {
        let v = self.alu_src_val(reg);
        let r: u8 = ((0x100u16 + v as u16 - 1) % 0x100) as u8;
        if matches!(reg, Register::HL) {
            let hl = self.get_pair(Register::HL);
            self.memory.write8(hl, r);
            self.adv_cycles(11);
        } else {
            self.write_reg(reg, r);
            self.adv_cycles(4);
        }
        self.flags.sf = r >= 0x80;
        self.flags.zf = r == 0;
        self.flags.hf = v % 16 < 1;
        self.flags.pf = r == 0x7F;
        self.flags.nf = true;
        self.flags.yf = r / 0x20 % 2 == 1;
        self.flags.xf = r / 0x08 % 2 == 1;
        self.adv_pc(1);
    }

    /// RLCA: rotates the accumulator left circularly; carry takes the old
    /// bit 7.  Sign, zero and parity are unaffected.
    pub fn rlca(&mut self)
        ensures
            ({
                let a = old(self).reg.a;
                let r = ((a % 0x80) * 2 + (if a >= 0x80 { 1int } else { 0int })) as u8;
                &&& final(self).reg == (Registers {
                    a: r,
                    pc: old(self).reg.pc.wrapping_add(1),
                    prev_pc: old(self).reg.pc,
                    ..old(self).reg
                })
                &&& final(self).flags == (Flags {
                    cf: a >= 0x80,
                    nf: false,
                    hf: false,
                    yf: bit5(r),
                    xf: bit3(r),
                    ..old(self).flags
                })
                &&& final(self).cycles == old(self).cycles.wrapping_add(4)
                &&& final(self).memory == old(self).memory
                &&& same_aux(*old(self), *final(self))
            }),
    {
        let a = self.reg.a;
        let carry = a >= 0x80;
        let r: u8 = (a % 0x80) * 2 + (if carry { 1 } else { 0 });
        self.reg.a = r;
        self.flags.cf = carry;
        self.flags.yf = r / 0x20 % 2 == 1;
        self.flags.xf = r / 0x08 % 2 == 1;
        self.flags.nf = false;
        self.flags.hf = false;
        self.adv_cycles(4);
        self.adv_pc(1);
    }

    /// RRCA: rotates the accumulator right circularly; carry takes the
    /// old bit 0.
    pub fn rrca(&mut self)
        ensures
            ({
                let a = old(self).reg.a;
                let r = ((a / 2) + (if a % 2 == 1 { 0x80int } else { 0int })) as u8;
                &&& final(self).reg == (Registers {
                    a: r,
                    pc: old(self).reg.pc.wrapping_add(1),
                    prev_pc: old(self).reg.pc,
                    ..old(self).reg
                })
                &&& final(self).flags == (Flags {
                    cf: a % 2 == 1,
                    nf: false,
                    hf: false,
                    yf: bit5(r),
                    xf: bit3(r),
                    ..old(self).flags
                })
                &&& final(self).cycles == old(self).cycles.wrapping_add(4)
                &&& final(self).memory == old(self).memory
                &&& same_aux(*old(self), *final(self))
            }),
    {
        let a = self.reg.a;
        let carry = a % 2 == 1;
        let r: u8 = a / 2 + (if carry { 0x80 } else { 0 });
        self.reg.a = r;
        self.flags.cf = carry;
        self.flags.yf = r / 0x20 % 2 == 1;
        self.flags.xf = r / 0x08 % 2 == 1;
        self.flags.nf = false;
        self.flags.hf = false;
        self.adv_cycles(4);
        self.adv_pc(1);
    }

    /// RLA: rotates the accumulator left through the carry flag.
    pub fn rla(&mut self)
        ensures
            ({
                let a = old(self).reg.a;
                let r = ((a % 0x80) * 2 + (if old(self).flags.cf { 1int } else { 0int })) as u8;
                &&& final(self).reg == (Registers {
                    a: r,
                    pc: old(self).reg.pc.wrapping_add(1),
                    prev_pc: old(self).reg.pc,
                    ..old(self).reg
                })
                &&& final(self).flags == (Flags {
                    cf: a >= 0x80,
                    nf: false,
                    hf: false,
                    yf: bit5(r),
                    xf: bit3(r),
                    ..old(self).flags
                })
                &&& final(self).cycles == old(self).cycles.wrapping_add(4)
                &&& final(self).memory == old(self).memory
                &&& same_aux(*old(self), *final(self))
            }),
    {
        let a = self.reg.a;
        let carry = a >= 0x80;
        let r: u8 = (a % 0x80) * 2 + (if self.flags.cf { 1 } else { 0 });
        self.reg.a = r;
        self.flags.cf = carry;
        self.flags.yf = r / 0x20 % 2 == 1;
        self.flags.xf = r / 0x08 % 2 == 1;
        self.flags.nf = false;
        self.flags.hf = false;
        self.adv_cycles(4);
        self.adv_pc(1);
    }

    /// RRA: rotates the accumulator right through the carry flag.
    pub fn rra(&mut self)
        ensures
            ({
                let a = old(self).reg.a;
                let r = ((a / 2) + (if old(self).flags.cf { 0x80int } else { 0int })) as u8;
                &&& final(self).reg == (Registers {
                    a: r,
                    pc: old(self).reg.pc.wrapping_add(1),
                    prev_pc: old(self).reg.pc,
                    ..old(self).reg
                })
                &&& final(self).flags == (Flags {
                    cf: a % 2 == 1,
                    nf: false,
                    hf: false,
                    yf: bit5(r),
                    xf: bit3(r),
                    ..old(self).flags
                })
                &&& final(self).cycles == old(self).cycles.wrapping_add(4)
                &&& final(self).memory == old(self).memory
                &&& same_aux(*old(self), *final(self))
            }),
    {
        let a = self.reg.a;
        let carry = a % 2 == 1;
        let r: u8 = a / 2 + (if self.flags.cf { 0x80 } else { 0 });
        self.reg.a = r;
        self.flags.cf = carry;
        self.flags.yf = r / 0x20 % 2 == 1;
        self.flags.xf = r / 0x08 % 2 == 1;
        self.flags.nf = false;
        self.flags.hf = false;
        self.adv_cycles(4);
        self.adv_pc(1);
    }

    /// RLC r: rotates a register left circularly and sets the full
    /// logical flag set from the result.
    #[verifier::rlimit(100)]
    #[verifier::spinoff_prover]
    pub fn rlc(&mut self, reg: Register)
        requires
            is_main8(reg),
        ensures
            ({
                let v = read8_val(*old(self), reg);
                let r = ((v % 0x80) * 2 + (if v >= 0x80 { 1int } else { 0int })) as u8;
                &&& final(self).reg == (Registers {
                    pc: old(self).reg.pc.wrapping_add(2),
                    prev_pc: old(self).reg.pc,
                    ..reg8_write(old(self).reg, reg, r)
                })
                &&& final(self).flags == (Flags {
                    sf: sign8(r),
                    zf: r == 0,
                    yf: bit5(r),
                    hf: false,
                    xf: bit3(r),
                    pf: parity_of(r),
                    nf: false,
                    cf: v >= 0x80,
                    ..old(self).flags
                })
                &&& final(self).cycles == old(self).cycles.wrapping_add(8)
                &&& final(self).memory == old(self).memory
                &&& same_aux(*old(self), *final(self))
            }),
    {
        let v = self.read_reg(reg);
        let carry = v >= 0x80;
        let r: u8 = (v % 0x80) * 2 + (if carry { 1 } else { 0 });
        self.write_reg(reg, r);
        self.set_logic_flags(r, false);
        self.flags.cf = carry;
        self.adv_cycles(8);
        self.adv_pc(2);
    }

    /// RRC r: rotates a register right circularly and sets the full
    /// logical flag set from the result.
    #[verifier::rlimit(100)]
    #[verifier::spinoff_prover]
    pub fn rrc(&mut self, reg: Register)
        requires
            is_main8(reg),
        ensures
            ({
                let v = read8_val(*old(self), reg);
                let r = ((v / 2) + (if v % 2 == 1 { 0x80int } else { 0int })) as u8;
                &&& final(self).reg == (Registers {
                    pc: old(self).reg.pc.wrapping_add(2),
                    prev_pc: old(self).reg.pc,
                    ..reg8_write(old(self).reg, reg, r)
                })
                &&& final(self).flags == (Flags {
                    sf: sign8(r),
                    zf: r == 0,
                    yf: bit5(r),
                    hf: false,
                    xf: bit3(r),
                    pf: parity_of(r),
                    nf: false,
                    cf: v % 2 == 1,
                    ..old(self).flags
                })
                &&& final(self).cycles == old(self).cycles.wrapping_add(8)
                &&& final(self).memory == old(self).memory
                &&& same_aux(*old(self), *final(self))
            }),
    {
        let v = self.read_reg(reg);
        let carry = v % 2 == 1;
        let r: u8 = v / 2 + (if carry { 0x80 } else { 0 });
        self.write_reg(reg, r);
        self.set_logic_flags(r, false);
        self.flags.cf = carry;
        self.adv_cycles(8);
        self.adv_pc(2);
    }

    /// ADD HL, ss: 16-bit addition into HL.  Sign, zero and parity are
    /// unaffected; carry and half-carry come from bits 15 and 11, and the
    /// bit copies from the high byte of the result.
    #[verifier::rlimit(100)]
    #[verifier::spinoff_prover]
    pub fn add_hl(&mut self, reg: Register)
        requires
            is_ss(reg),
        ensures
            ({
                let hl = pair16(old(self).reg.h, old(self).reg.l);
                let op = old(self).pair_val(reg);
                let r = add16(hl, op, false);
                &&& final(self).reg == (Registers {
                    h: hi8(r),
                    l: lo8(r),
                    pc: old(self).reg.pc.wrapping_add(1),
                    prev_pc: old(self).reg.pc,
                    ..old(self).reg
                })
                &&& final(self).flags == (Flags {
                    cf: add16_carry(hl, op, false),
                    hf: half_add16(hl, op, false),
                    nf: false,
                    yf: bit5(hi8(r)),
                    xf: bit3(hi8(r)),
                    ..old(self).flags
                })
                &&& final(self).cycles == old(self).cycles.wrapping_add(11)
                &&& final(self).memory == old(self).memory
                &&& same_aux(*old(self), *final(self))
            }),
    {
        let hl = self.get_pair(Register::HL);
        let op = self.get_pair(reg);
        let s: u32 = hl as u32 + op as u32;
        let r: u16 = (s % 0x10000) as u16;
        let hb: u8 = (r / 0x100) as u8;
        self.reg.h = hb;
        self.reg.l = (r % 0x100) as u8;
        self.flags.cf = s > 0xFFFF;
        self.flags.hf = hl % 0x1000 + op % 0x1000 > 0xFFF;
        self.flags.nf = false;
        self.flags.yf = hb / 0x20 % 2 == 1;
        self.flags.xf = hb / 0x08 % 2 == 1;
        self.adv_cycles(11);
        self.adv_pc(1);
    }

    /// ADC HL, ss: 16-bit addition with carry into HL, setting the full
    /// 16-bit flag set.
    #[verifier::rlimit(100)]
    #[verifier::spinoff_prover]
    pub fn adc_hl(&mut self, reg: Register)
        requires
            is_ss(reg),
        ensures
            ({
                let hl = pair16(old(self).reg.h, old(self).reg.l);
                let op = old(self).pair_val(reg);
                let cin = old(self).flags.cf;
                let r = add16(hl, op, cin);
                &&& final(self).reg == (Registers {
                    h: hi8(r),
                    l: lo8(r),
                    pc: old(self).reg.pc.wrapping_add(2),
                    prev_pc: old(self).reg.pc,
                    ..old(self).reg
                })
                &&& final(self).flags == (Flags {
                    sf: sign16(r),
                    zf: r == 0,
                    yf: bit5(hi8(r)),
                    hf: half_add16(hl, op, cin),
                    xf: bit3(hi8(r)),
                    pf: ov_add16(hl, op, r),
                    nf: false,
                    cf: add16_carry(hl, op, cin),
                    ..old(self).flags
                })
                &&& final(self).cycles == old(self).cycles.wrapping_add(15)
                &&& final(self).memory == old(self).memory
                &&& same_aux(*old(self), *final(self))
            }),
    {
        let hl = self.get_pair(Register::HL);
        let op = self.get_pair(reg);
        let c: u32 = if self.flags.cf { 1 } else { 0 };
        let s: u32 = hl as u32 + op as u32 + c;
        let r: u16 = (s % 0x10000) as u16;
        let hb: u8 = (r / 0x100) as u8;
        proof {
            assert(r == add16(hl, op, old(self).flags.cf));
            assert((s > 0xFFFF) == add16_carry(hl, op, old(self).flags.cf));
            assert((hl as u32 % 0x1000 + op as u32 % 0x1000 + c > 0xFFF) == half_add16(
                hl, op, old(self).flags.cf));
            assert(hb == hi8(r));
        }
        self.reg.h = hb;
        self.reg.l = (r % 0x100) as u8;
        self.flags.sf = r >= 0x8000;
        self.flags.zf = r == 0;
        self.flags.hf = hl as u32 % 0x1000 + op as u32 % 0x1000 + c > 0xFFF;
        self.flags.pf = (hl >= 0x8000) == (op >= 0x8000) && (r >= 0x8000) != (hl >= 0x8000);
        self.flags.nf = false;
        self.flags.cf = s > 0xFFFF;
        self.flags.yf = hb / 0x20 % 2 == 1;
        self.flags.xf = hb / 0x08 % 2 == 1;
        self.adv_cycles(15);
        self.adv_pc(2);
    }

    /// ADD IX/IY, rr: 16-bit addition into an index register, flags as
    /// ADD HL.
    #[verifier::rlimit(100)]
    #[verifier::spinoff_prover]
    pub fn add_ex(&mut self, dst: Register, src: Register)
        requires
            is_wide(dst),
            is_wide(src),
        ensures
            ({
                let d = old(self).pair_val(dst);
                let op = old(self).pair_val(src);
                let r = add16(d, op, false);
                &&& final(self).reg == (Registers {
                    pc: old(self).reg.pc.wrapping_add(2),
                    prev_pc: old(self).reg.pc,
                    ..pair_write(old(self).reg, dst, r)
                })
                &&& final(self).flags == (Flags {
                    cf: add16_carry(d, op, false),
                    hf: half_add16(d, op, false),
                    nf: false,
                    yf: bit5(hi8(r)),
                    xf: bit3(hi8(r)),
                    ..old(self).flags
                })
                &&& final(self).cycles == old(self).cycles.wrapping_add(15)
                &&& final(self).memory == old(self).memory
                &&& same_aux(*old(self), *final(self))
            }),
    {
        let d = self.get_pair(dst);
        let op = self.get_pair(src);
        let s: u32 = d as u32 + op as u32;
        let r: u16 = (s % 0x10000) as u16;
        let hb: u8 = (r / 0x100) as u8;
        self.write_pair_direct(dst, r);
        self.flags.cf = s > 0xFFFF;
        self.flags.hf = d % 0x1000 + op % 0x1000 > 0xFFF;
        self.flags.nf = false;
        self.flags.yf = hb / 0x20 % 2 == 1;
        self.flags.xf = hb / 0x08 % 2 == 1;
        self.adv_cycles(15);
        self.adv_pc(2);
    }

    /// INC rr: 16-bit increment, no flags.  Index-register variants are
    /// two bytes and ten cycles.
    pub fn inx(&mut self, reg: Register)
        requires
            is_wide(reg),
        ensures
            ({
                let r = old(self).pair_val(reg).wrapping_add(1);
                let ixiy = reg == Register::IX || reg == Register::IY;
                &&& final(self).reg == (Registers {
                    pc: old(self).reg.pc.wrapping_add(if ixiy { 2int } else { 1int } as u16),
                    prev_pc: old(self).reg.pc,
                    ..pair_write(old(self).reg, reg, r)
                })
                &&& final(self).flags == old(self).flags
                &&& final(self).cycles == old(self).cycles.wrapping_add(
                    if ixiy { 10int } else { 6int } as usize,
                )
                &&& final(self).memory == old(self).memory
                &&& same_aux(*old(self), *final(self))
            }),
    {
        let v = self.get_pair(reg);
        self.write_pair_direct(reg, v.wrapping_add(1));
        if matches!(reg, Register::IX | Register::IY) {
            self.adv_cycles(10);
            self.adv_pc(2);
        } else {
            self.adv_cycles(6);
            self.adv_pc(1);
        }
    }

    /// DEC rr: 16-bit decrement, no flags.  Index-register variants are
    /// two bytes and ten cycles.
    pub fn dex(&mut self, reg: Register)
        requires
            is_wide(reg),
        ensures
            ({
                let r = old(self).pair_val(reg).wrapping_sub(1);
                let ixiy = reg == Register::IX || reg == Register::IY;
                &&& final(self).reg == (Registers {
                    pc: old(self).reg.pc.wrapping_add(if ixiy { 2int } else { 1int } as u16),
                    prev_pc: old(self).reg.pc,
                    ..pair_write(old(self).reg, reg, r)
                })
                &&& final(self).flags == old(self).flags
                &&& final(self).cycles == old(self).cycles.wrapping_add(
                    if ixiy { 10int } else { 6int } as usize,
                )
                &&& final(self).memory == old(self).memory
                &&& same_aux(*old(self), *final(self))
            }),
    {
        let v = self.get_pair(reg);
        self.write_pair_direct(reg, v.wrapping_sub(1));
        if matches!(reg, Register::IX | Register::IY) {
            self.adv_cycles(10);
            self.adv_pc(2);
        } else {
            self.adv_cycles(6);
            self.adv_pc(1);
        }
    }

    /// LD rr, **: loads a register pair with the immediate word.
    pub fn lxi(&mut self, reg: Register)
        requires
            is_wide(reg),
            old(self).wf(),
        ensures
            ({
                let w = word_at(old(self).memory.ram@, old(self).reg.pc.wrapping_add(1));
                &&& final(self).reg == (Registers {
                    pc: old(self).reg.pc.wrapping_add(3),
                    prev_pc: old(self).reg.pc,
                    ..pair_write(old(self).reg, reg, w)
                })
                &&& final(self).flags == old(self).flags
                &&& final(self).cycles == old(self).cycles.wrapping_add(10)
                &&& final(self).memory == old(self).memory
                &&& same_aux(*old(self), *final(self))
                &&& final(self).wf()
            }),
    {
        let w = self.memory.read16(self.reg.pc.wrapping_add(1));
        self.write_pair_direct(reg, w);
        self.adv_cycles(10);
        self.adv_pc(3);
    }

    /// LD r, * or LD (HL), *: stores the immediate byte into a register
    /// or through HL.
    #[verifier::rlimit(100)]
    #[verifier::spinoff_prover]
    pub fn mvi(&mut self, reg: Register)
        requires
            is_alu_src(reg),
            old(self).wf(),
        ensures
            ({
                let v = old(self).memory.ram@[old(self).reg.pc.wrapping_add(1) as int];
                let hl = pair16(old(self).reg.h, old(self).reg.l);
                &&& final(self).reg == (Registers {
                    pc: old(self).reg.pc.wrapping_add(2),
                    prev_pc: old(self).reg.pc,
                    ..(if reg == Register::HL {
                        old(self).reg
                    } else {
                        reg8_write(old(self).reg, reg, v)
                    })
                })
                &&& final(self).memory.ram@ == (if reg == Register::HL {
                    old(self).memory.ram@.update(hl as int, v)
                } else {
                    old(self).memory.ram@
                })
                &&& final(self).flags == old(self).flags
                &&& final(self).cycles == old(self).cycles.wrapping_add(
                    if reg == Register::HL { 10int } else { 7int } as usize,
                )
                &&& same_aux(*old(self), *final(self))
                &&& final(self).wf()
            }),
    {
        let v = self.memory.read8(self.reg.pc.wrapping_add(1));
        if matches!(reg, Register::HL) {
            let hl = self.get_pair(Register::HL);
            self.memory.write8(hl, v);
            self.adv_cycles(10);
        } else {
            self.write_reg(reg, v);
            self.adv_cycles(7);
        }
        self.adv_pc(2);
    }

    /// LD A, (**): loads the accumulator from the directly addressed
    /// byte.
    pub fn lda_im(&mut self)
        requires
            old(self).wf(),
        ensures
            ({
                let addr = word_at(old(self).memory.ram@, old(self).reg.pc.wrapping_add(1));
                &&& final(self).reg == (Registers {
                    a: old(self).memory.ram@[addr as int],
                    pc: old(self).reg.pc.wrapping_add(3),
                    prev_pc: old(self).reg.pc,
                    ..old(self).reg
                })
                &&& final(self).flags == old(self).flags
                &&& final(self).cycles == old(self).cycles.wrapping_add(13)
                &&& final(self).memory == old(self).memory
                &&& same_aux(*old(self), *final(self))
                &&& final(self).wf()
            }),
    {
        let addr = self.memory.read16(self.reg.pc.wrapping_add(1));
        self.reg.a = self.memory.read8(addr);
        self.adv_cycles(13);
        self.adv_pc(3);
    }

    /// LD (**), A: stores the accumulator at the directly addressed
    /// byte.
    pub fn sta(&mut self)
        requires
            old(self).wf(),
        ensures
            ({
                let addr = word_at(old(self).memory.ram@, old(self).reg.pc.wrapping_add(1));
                &&& final(self).reg == (Registers {
                    pc: old(self).reg.pc.wrapping_add(3),
                    prev_pc: old(self).reg.pc,
                    ..old(self).reg
                })
                &&& final(self).memory.ram@ == old(self).memory.ram@.update(
                    addr as int,
                    old(self).reg.a,
                )
                &&& final(self).flags == old(self).flags
                &&& final(self).cycles == old(self).cycles.wrapping_add(13)
                &&& same_aux(*old(self), *final(self))
                &&& final(self).wf()
            }),
    {
        let addr = self.memory.read16(self.reg.pc.wrapping_add(1));
        let a = self.reg.a;
        self.memory.write8(addr, a);
        self.adv_cycles(13);
        self.adv_pc(3);
    }

    /// LD (BC)/(DE)/(HL), A: stores the accumulator through a register
    /// pair.
    pub fn stax(&mut self, reg: Register)
        requires
            reg == Register::BC || reg == Register::DE || reg == Register::HL,
            old(self).wf(),
        ensures
            ({
                let addr = old(self).pair_val(reg);
                &&& final(self).reg == (Registers {
                    pc: old(self).reg.pc.wrapping_add(1),
                    prev_pc: old(self).reg.pc,
                    ..old(self).reg
                })
                &&& final(self).memory.ram@ == old(self).memory.ram@.update(
                    addr as int,
                    old(self).reg.a,
                )
                &&& final(self).flags == old(self).flags
                &&& final(self).cycles == old(self).cycles.wrapping_add(7)
                &&& same_aux(*old(self), *final(self))
                &&& final(self).wf()
            }),
    {
        let addr = self.get_pair(reg);
        let a = self.reg.a;
        self.memory.write8(addr, a);
        self.adv_cycles(7);
        self.adv_pc(1);
    }

    /// LD A, (rr): loads the accumulator through a register pair.
    pub fn ld_ex(&mut self, reg: Register)
        requires
            reg == Register::BC || reg == Register::DE || reg == Register::HL || reg
                == Register::IX || reg == Register::IY,
            old(self).wf(),
        ensures
            ({
                let addr = old(self).pair_val(reg);
                &&& final(self).reg == (Registers {
                    a: old(self).memory.ram@[addr as int],
                    pc: old(self).reg.pc.wrapping_add(1),
                    prev_pc: old(self).reg.pc,
                    ..old(self).reg
                })
                &&& final(self).flags == old(self).flags
                &&& final(self).cycles == old(self).cycles.wrapping_add(7)
                &&& final(self).memory == old(self).memory
                &&& same_aux(*old(self), *final(self))
                &&& final(self).wf()
            }),
    {
        let addr = self.get_pair(reg);
        self.reg.a = self.memory.read8(addr);
        self.adv_cycles(7);
        self.adv_pc(1);
    }

    /// LD HL, (**): loads L from the addressed byte and H from its
    /// successor.
    pub fn lhld(&mut self)
        requires
            old(self).wf(),
        ensures
            ({
                let addr = word_at(old(self).memory.ram@, old(self).reg.pc.wrapping_add(1));
                let w = word_at(old(self).memory.ram@, addr);
                &&& final(self).reg == (Registers {
                    h: hi8(w),
                    l: lo8(w),
                    pc: old(self).reg.pc.wrapping_add(3),
                    prev_pc: old(self).reg.pc,
                    ..old(self).reg
                })
                &&& final(self).flags == old(self).flags
                &&& final(self).cycles == old(self).cycles.wrapping_add(16)
                &&& final(self).memory == old(self).memory
                &&& same_aux(*old(self), *final(self))
                &&& final(self).wf()
            }),
    {
        let addr = self.memory.read16(self.reg.pc.wrapping_add(1));
        self.write_pair_indirect(Register::HL, addr);
        self.adv_cycles(16);
        self.adv_pc(3);
    }

    /// LD (**), HL: stores HL at the directly addressed word.
    pub fn shld(&mut self)
        requires
            old(self).wf(),
        ensures
            ({
                let addr = word_at(old(self).memory.ram@, old(self).reg.pc.wrapping_add(1));
                &&& final(self).reg == (Registers {
                    pc: old(self).reg.pc.wrapping_add(3),
                    prev_pc: old(self).reg.pc,
                    ..old(self).reg
                })
                &&& final(self).memory.ram@ == word_write(old(self).memory.ram@, addr, pair16(
                    old(self).reg.h,
                    old(self).reg.l,
                ))
                &&& final(self).flags == old(self).flags
                &&& final(self).cycles == old(self).cycles.wrapping_add(16)
                &&& same_aux(*old(self), *final(self))
                &&& final(self).wf()
            }),
    {
        let addr = self.memory.read16(self.reg.pc.wrapping_add(1));
        let hl = self.get_pair(Register::HL);
        self.memory.write16(addr, hl);
        self.adv_cycles(16);
        self.adv_pc(3);
    }

    /// LD (**), rr: stores a register pair at the word the four-byte
    /// extended instruction addresses.
    pub fn ld_nn(&mut self, reg: Register)
        requires
            is_ss(reg),
            old(self).wf(),
        ensures
            ({
                let ptr = word_at(old(self).memory.ram@, old(self).reg.pc.wrapping_add(2));
                &&& final(self).reg == (Registers {
                    pc: old(self).reg.pc.wrapping_add(4),
                    prev_pc: old(self).reg.pc,
                    ..old(self).reg
                })
                &&& final(self).memory.ram@ == word_write(old(self).memory.ram@, ptr, old(
                    self,
                ).pair_val(reg))
                &&& final(self).flags == old(self).flags
                &&& final(self).cycles == old(self).cycles.wrapping_add(20)
                &&& same_aux(*old(self), *final(self))
                &&& final(self).wf()
            }),
    {
        let ptr = self.memory.read16(self.reg.pc.wrapping_add(2));
        let w = self.get_pair(reg);
        self.memory.write16(ptr, w);
        self.adv_cycles(20);
        self.adv_pc(4);
    }

    /// LD rr, (**): loads a register pair from the word the four-byte
    /// extended instruction addresses.
    pub fn load_indirect(&mut self, reg: Register)
        requires
            is_wide(reg),
            old(self).wf(),
        ensures
            ({
                let ptr = word_at(old(self).memory.ram@, old(self).reg.pc.wrapping_add(2));
                let w = word_at(old(self).memory.ram@, ptr);
                &&& final(self).reg == (Registers {
                    pc: old(self).reg.pc.wrapping_add(4),
                    prev_pc: old(self).reg.pc,
                    ..pair_write(old(self).reg, reg, w)
                })
                &&& final(self).flags == old(self).flags
                &&& final(self).cycles == old(self).cycles.wrapping_add(20)
                &&& final(self).memory == old(self).memory
                &&& same_aux(*old(self), *final(self))
                &&& final(self).wf()
            }),
    {
        let ptr = self.memory.read16(self.reg.pc.wrapping_add(2));
        self.write_pair_indirect(reg, ptr);
        self.adv_cycles(20);
        self.adv_pc(4);
    }

    /// LD (IX+*)/(IY+*), A: stores the accumulator at the index register
    /// plus the signed displacement byte.
    pub fn ld_dd(&mut self, dst: Register, src: Register)
        requires
            dst == Register::IX || dst == Register::IY,
            src == Register::A,
            old(self).wf(),
        ensures
            ({
                let d = old(self).memory.ram@[old(self).reg.pc.wrapping_add(2) as int];
                let addr = old(self).pair_val(dst).wrapping_add(sext16(d));
                &&& final(self).reg == (Registers {
                    pc: old(self).reg.pc.wrapping_add(3),
                    prev_pc: old(self).reg.pc,
                    ..old(self).reg
                })
                &&& final(self).memory.ram@ == old(self).memory.ram@.update(
                    addr as int,
                    old(self).reg.a,
                )
                &&& final(self).flags == old(self).flags
                &&& final(self).cycles == old(self).cycles.wrapping_add(19)
                &&& same_aux(*old(self), *final(self))
                &&& final(self).wf()
            }),
    {
        let d = self.memory.read8(self.reg.pc.wrapping_add(2));
        let off: u16 = if d >= 0x80 { 0xFF00u16 + d as u16 } else { d as u16 };
        let base = self.get_pair(dst);
        let addr = base.wrapping_add(off);
        let a = self.reg.a;
        self.memory.write8(addr, a);
        self.adv_cycles(19);
        self.adv_pc(3);
    }

    /// LD r, r' and its memory forms, plus the interrupt-vector and
    /// refresh-register loads.  LD A, I and LD A, R copy the iff2
    /// flip-flop into the parity flag.
    #[verifier::rlimit(100)]
    #[verifier::spinoff_prover]
    pub fn ld(&mut self, dst: Register, src: Register)
        requires
            old(self).wf(),
            (is_main8(dst) && (is_main8(src) || src == Register::HL)) || (dst == Register::HL
                && is_main8(src)) || (dst == Register::A && (src == Register::I || src
                == Register::R)) || ((dst == Register::I || dst == Register::R) && src
                == Register::A),
        ensures
            is_main8(dst) && is_main8(src) ==> ({
                &&& final(self).reg == (Registers {
                    pc: old(self).reg.pc.wrapping_add(1),
                    prev_pc: old(self).reg.pc,
                    ..reg8_write(old(self).reg, dst, read8_val(*old(self), src))
                })
                &&& final(self).flags == old(self).flags
                &&& final(self).cycles == old(self).cycles.wrapping_add(4)
                &&& final(self).memory == old(self).memory
            }),
            is_main8(dst) && src == Register::HL ==> ({
                let hl = pair16(old(self).reg.h, old(self).reg.l);
                &&& final(self).reg == (Registers {
                    pc: old(self).reg.pc.wrapping_add(1),
                    prev_pc: old(self).reg.pc,
                    ..reg8_write(old(self).reg, dst, old(self).memory.ram@[hl as int])
                })
                &&& final(self).flags == old(self).flags
                &&& final(self).cycles == old(self).cycles.wrapping_add(7)
                &&& final(self).memory == old(self).memory
            }),
            dst == Register::HL ==> ({
                let hl = pair16(old(self).reg.h, old(self).reg.l);
                &&& final(self).reg == (Registers {
                    pc: old(self).reg.pc.wrapping_add(1),
                    prev_pc: old(self).reg.pc,
                    ..old(self).reg
                })
                &&& final(self).memory.ram@ == old(self).memory.ram@.update(
                    hl as int,
                    read8_val(*old(self), src),
                )
                &&& final(self).flags == old(self).flags
                &&& final(self).cycles == old(self).cycles.wrapping_add(7)
            }),
            dst == Register::A && (src == Register::I || src == Register::R) ==> ({
                let v = read8_val(*old(self), src);
                &&& final(self).reg == (Registers {
                    a: v,
                    pc: old(self).reg.pc.wrapping_add(2),
                    prev_pc: old(self).reg.pc,
                    ..old(self).reg
                })
                &&& final(self).flags == (Flags {
                    sf: sign8(v),
                    zf: v == 0,
                    yf: bit5(v),
                    hf: false,
                    xf: bit3(v),
                    pf: old(self).int.iff2,
                    nf: false,
                    ..old(self).flags
                })
                &&& final(self).cycles == old(self).cycles.wrapping_add(9)
                &&& final(self).memory == old(self).memory
            }),
            (dst == Register::I || dst == Register::R) && src == Register::A ==> ({
                &&& final(self).reg == (Registers {
                    pc: old(self).reg.pc.wrapping_add(2),
                    prev_pc: old(self).reg.pc,
                    ..reg8_write(old(self).reg, dst, old(self).reg.a)
                })
                &&& final(self).flags == old(self).flags
                &&& final(self).cycles == old(self).cycles.wrapping_add(9)
                &&& final(self).memory == old(self).memory
            }),
            same_aux(*old(self), *final(self)),
            final(self).wf(),
    {
        if matches!(dst, Register::HL) {
            let hl = self.get_pair(Register::HL);
            let v = self.read_reg(src);
            self.memory.write8(hl, v);
            self.adv_cycles(7);
            self.adv_pc(1);
        } else if matches!(src, Register::HL) {
            let hl = self.get_pair(Register::HL);
            let v = self.memory.read8(hl);
            self.write_reg(dst, v);
            self.adv_cycles(7);
            self.adv_pc(1);
        } else if matches!(dst, Register::A) && matches!(src, Register::I | Register::R) {
            let v = self.read_reg(src);
            self.reg.a = v;
            self.flags.sf = v >= 0x80;
            self.flags.zf = v == 0;
            self.flags.pf = self.int.iff2;
            self.flags.hf = false;
            self.flags.nf = false;
            self.flags.yf = v / 0x20 % 2 == 1;
            self.flags.xf = v / 0x08 % 2 == 1;
            self.adv_cycles(9);
            self.adv_pc(2);
        } else if matches!(dst, Register::I | Register::R) {
            let a = self.reg.a;
            self.write_reg(dst, a);
            self.adv_cycles(9);
            self.adv_pc(2);
        } else {
            let v = self.read_reg(src);
            self.write_reg(dst, v);
            self.adv_cycles(4);
            self.adv_pc(1);
        }
    }

    /// EX DE, HL: exchanges the DE and HL pairs.
    pub fn ex_de_hl(&mut self)
        ensures
            final(self).reg == (Registers {
                d: old(self).reg.h,
                e: old(self).reg.l,
                h: old(self).reg.d,
                l: old(self).reg.e,
                pc: old(self).reg.pc.wrapping_add(1),
                prev_pc: old(self).reg.pc,
                ..old(self).reg
            }),
            final(self).flags == old(self).flags,
            final(self).cycles == old(self).cycles.wrapping_add(4),
            final(self).memory == old(self).memory,
            same_aux(*old(self), *final(self)),
    {
        let d = self.reg.d;
        let e = self.reg.e;
        self.reg.d = self.reg.h;
        self.reg.e = self.reg.l;
        self.reg.h = d;
        self.reg.l = e;
        self.adv_cycles(4);
        self.adv_pc(1);
    }

    /// EXX: exchanges the six general registers with their shadow
    /// copies.
    pub fn exx(&mut self)
        ensures
            final(self).reg == (Registers {
                b: old(self).reg.b_,
                c: old(self).reg.c_,
                d: old(self).reg.d_,
                e: old(self).reg.e_,
                h: old(self).reg.h_,
                l: old(self).reg.l_,
                b_: old(self).reg.b,
                c_: old(self).reg.c,
                d_: old(self).reg.d,
                e_: old(self).reg.e,
                h_: old(self).reg.h,
                l_: old(self).reg.l,
                pc: old(self).reg.pc.wrapping_add(1),
                prev_pc: old(self).reg.pc,
                ..old(self).reg
            }),
            final(self).flags == old(self).flags,
            final(self).cycles == old(self).cycles.wrapping_add(4),
            final(self).memory == old(self).memory,
            same_aux(*old(self), *final(self)),
    {
        self.reg.swap();
        self.adv_pc(1);
        self.adv_cycles(4);
    }

    /// EX AF, AF': exchanges the accumulator and the flags with their
    /// shadow copies.
    pub fn ex_af_af(&mut self)
        ensures
            final(self).reg == (Registers {
                a: old(self).reg.a_,
                a_: old(self).reg.a,
                pc: old(self).reg.pc.wrapping_add(1),
                prev_pc: old(self).reg.pc,
                ..old(self).reg
            }),
            final(self).flags == (Flags {
                sf: old(self).flags.sf_,
                zf: old(self).flags.zf_,
                yf: old(self).flags.yf_,
                hf: old(self).flags.hf_,
                xf: old(self).flags.xf_,
                pf: old(self).flags.pf_,
                nf: old(self).flags.nf_,
                cf: old(self).flags.cf_,
                sf_: old(self).flags.sf,
                zf_: old(self).flags.zf,
                yf_: old(self).flags.yf,
                hf_: old(self).flags.hf,
                xf_: old(self).flags.xf,
                pf_: old(self).flags.pf,
                nf_: old(self).flags.nf,
                cf_: old(self).flags.cf,
            }),
            final(self).cycles == old(self).cycles.wrapping_add(4),
            final(self).memory == old(self).memory,
            same_aux(*old(self), *final(self)),
    {
        let a = self.reg.a;
        self.reg.a = self.reg.a_;
        self.reg.a_ = a;
        self.flags.swap();
        self.adv_cycles(4);
        self.adv_pc(1);
    }

    /// EX (SP), HL: swaps HL with the word on top of the stack.
    #[verifier::rlimit(100)]
    #[verifier::spinoff_prover]
    pub fn xthl(&mut self)
        requires
            old(self).wf(),
        ensures
            ({
                let hl = pair16(old(self).reg.h, old(self).reg.l);
                let top = word_at(old(self).memory.ram@, old(self).reg.sp);
                &&& final(self).reg == (Registers {
                    h: hi8(top),
                    l: lo8(top),
                    pc: old(self).reg.pc.wrapping_add(1),
                    prev_pc: old(self).reg.pc,
                    ..old(self).reg
                })
                &&& final(self).memory.ram@ == word_write(old(self).memory.ram@, old(
                    self,
                ).reg.sp, hl)
                &&& final(self).flags == old(self).flags
                &&& final(self).cycles == old(self).cycles.wrapping_add(19)
                &&& same_aux(*old(self), *final(self))
                &&& final(self).wf()
            }),
    {
        let hl = self.get_pair(Register::HL);
        let top = self.memory.read16(self.reg.sp);
        let sp = self.reg.sp;
        self.memory.write16(sp, hl);
        self.reg.h = (top / 0x100) as u8;
        self.reg.l = (top % 0x100) as u8;
        self.adv_cycles(19);
        self.adv_pc(1);
    }

    /// PUSH rr: stores a pair on the stack, high byte at SP-1, low byte
    /// at SP-2, then lowers SP by two.  Index-register pushes are two
    /// bytes and fifteen cycles.
    #[verifier::rlimit(100)]
    #[verifier::spinoff_prover]
    pub fn push(&mut self, reg: Register)
        requires
            is_pair(reg),
            reg != Register::SP,
            old(self).wf(),
        ensures
            ({
                let w = old(self).pair_val(reg);
                let ixiy = reg == Register::IX || reg == Register::IY;
                &&& final(self).memory.ram@ == stack_push(
                    old(self).memory.ram@,
                    old(self).reg.sp,
                    w,
                ).0
                &&& final(self).reg == (Registers {
                    sp: old(self).reg.sp.wrapping_sub(2),
                    pc: old(self).reg.pc.wrapping_add(if ixiy { 2int } else { 1int } as u16),
                    prev_pc: old(self).reg.pc,
                    ..old(self).reg
                })
                &&& final(self).flags == old(self).flags
                &&& final(self).cycles == old(self).cycles.wrapping_add(
                    if ixiy { 15int } else { 11int } as usize,
                )
                &&& same_aux(*old(self), *final(self))
                &&& final(self).wf()
            }),
    {
        let w = self.get_pair(reg);
        let sp2 = self.reg.sp.wrapping_sub(2);
        self.memory.write16(sp2, w);
        self.reg.sp = sp2;
        if matches!(reg, Register::IX | Register::IY) {
            self.adv_cycles(15);
            self.adv_pc(2);
        } else {
            self.adv_cycles(11);
            self.adv_pc(1);
        }
    }

    /// POP rr: loads a pair from the stack and raises SP by two.  POP AF
    /// unpacks the low byte into the flags.  Index-register pops are two
    /// bytes and fourteen cycles.
    #[verifier::rlimit(100)]
    #[verifier::spinoff_prover]
    pub fn pop(&mut self, reg: Register)
        requires
            is_pair(reg),
            reg != Register::SP,
            old(self).wf(),
        ensures
            ({
                let v = stack_top(old(self).memory.ram@, old(self).reg.sp);
                let ixiy = reg == Register::IX || reg == Register::IY;
                &&& final(self).reg == (Registers {
                    sp: old(self).reg.sp.wrapping_add(2),
                    pc: old(self).reg.pc.wrapping_add(if ixiy { 2int } else { 1int } as u16),
                    prev_pc: old(self).reg.pc,
                    ..(if reg == Register::AF {
                        Registers { a: hi8(v), ..old(self).reg }
                    } else {
                        pair_write(old(self).reg, reg, v)
                    })
                })
                &&& final(self).flags == (if reg == Register::AF {
                    flags_unpacked(old(self).flags, lo8(v))
                } else {
                    old(self).flags
                })
                &&& final(self).cycles == old(self).cycles.wrapping_add(
                    if ixiy { 14int } else { 10int } as usize,
                )
                &&& final(self).memory == old(self).memory
                &&& same_aux(*old(self), *final(self))
                &&& final(self).wf()
            }),
    {
        let lb = self.memory.read8(self.reg.sp);
        let hb = self.memory.read8(self.reg.sp.wrapping_add(1));
        let v: u16 = (hb as u16) * 0x100 + (lb as u16);
        proof {
            lemma_pair_split(hb, lb);
            assert(v == stack_top(old(self).memory.ram@, old(self).reg.sp));
            assert(hi8(v) == hb && lo8(v) == lb);
        }
        if matches!(reg, Register::AF) {
            self.flags.set(lb);
            self.reg.a = hb;
        } else {
            self.write_pair_direct(reg, v);
        }
        self.reg.sp = self.reg.sp.wrapping_add(2);
        if matches!(reg, Register::IX | Register::IY) {
            self.adv_cycles(14);
            self.adv_pc(2);
        } else {
            self.adv_cycles(10);
            self.adv_pc(1);
        }
    }

    /// LDI: copies the byte at (HL) to (DE), advances HL and DE, lowers
    /// BC; parity reports whether BC is still nonzero, and the bit
    /// copies come from the transferred byte plus the accumulator.
    #[verifier::rlimit(100)]
    #[verifier::spinoff_prover]
    pub fn ldi(&mut self)
        requires
            old(self).wf(),
        ensures
            ({
                let hl = pair16(old(self).reg.h, old(self).reg.l);
                let de = pair16(old(self).reg.d, old(self).reg.e);
                let bc = pair16(old(self).reg.b, old(self).reg.c);
                let byte = old(self).memory.ram@[hl as int];
                let hl1 = hl.wrapping_add(1);
                let de1 = de.wrapping_add(1);
                let bc1 = bc.wrapping_sub(1);
                let n = add8(byte, old(self).reg.a, false);
                &&& final(self).reg == (Registers {
                    h: hi8(hl1),
                    l: lo8(hl1),
                    d: hi8(de1),
                    e: lo8(de1),
                    b: hi8(bc1),
                    c: lo8(bc1),
                    pc: old(self).reg.pc.wrapping_add(2),
                    prev_pc: old(self).reg.pc,
                    ..old(self).reg
                })
                &&& final(self).memory.ram@ == old(self).memory.ram@.update(de as int, byte)
                &&& final(self).flags == (Flags {
                    pf: bc1 != 0,
                    nf: false,
                    hf: false,
                    yf: bit1(n),
                    xf: bit3(n),
                    ..old(self).flags
                })
                &&& final(self).cycles == old(self).cycles.wrapping_add(16)
                &&& same_aux(*old(self), *final(self))
                &&& final(self).wf()
            }),
    {
        let hl = self.get_pair(Register::HL);
        let de = self.get_pair(Register::DE);
        let bc = self.get_pair(Register::BC);
        let byte = self.memory.read8(hl);
        self.memory.write8(de, byte);
        let n: u8 = ((byte as u16 + self.reg.a as u16) % 0x100) as u8;
        self.write_pair_direct(Register::HL, hl.wrapping_add(1));
        self.write_pair_direct(Register::DE, de.wrapping_add(1));
        let bc1 = bc.wrapping_sub(1);
        self.write_pair_direct(Register::BC, bc1);
        self.flags.pf = bc1 != 0;
        self.flags.nf = false;
        self.flags.hf = false;
        self.flags.yf = n / 0x02 % 2 == 1;
        self.flags.xf = n / 0x08 % 2 == 1;
        self.adv_cycles(16);
        self.adv_pc(2);
    }

    /// LDIR: one LDI step; while BC is still nonzero the program counter
    /// stays on the instruction and five extra cycles are charged, so
    /// the transfer is logically interruptible between iterations.
    #[verifier::rlimit(100)]
    #[verifier::spinoff_prover]
    pub fn ldir(&mut self)
        requires
            old(self).wf(),
        ensures
            ({
                let hl = pair16(old(self).reg.h, old(self).reg.l);
                let de = pair16(old(self).reg.d, old(self).reg.e);
                let bc = pair16(old(self).reg.b, old(self).reg.c);
                let byte = old(self).memory.ram@[hl as int];
                let hl1 = hl.wrapping_add(1);
                let de1 = de.wrapping_add(1);
                let bc1 = bc.wrapping_sub(1);
                let n = add8(byte, old(self).reg.a, false);
                &&& final(self).reg == (Registers {
                    h: hi8(hl1),
                    l: lo8(hl1),
                    d: hi8(de1),
                    e: lo8(de1),
                    b: hi8(bc1),
                    c: lo8(bc1),
                    pc: if bc1 == 0 {
                        old(self).reg.pc.wrapping_add(2)
                    } else {
                        old(self).reg.pc
                    },
                    prev_pc: if bc1 == 0 {
                        old(self).reg.pc
                    } else {
                        old(self).reg.pc.wrapping_add(2)
                    },
                    ..old(self).reg
                })
                &&& final(self).memory.ram@ == old(self).memory.ram@.update(de as int, byte)
                &&& final(self).flags == (Flags {
                    pf: bc1 != 0,
                    nf: false,
                    hf: false,
                    yf: bit1(n),
                    xf: bit3(n),
                    ..old(self).flags
                })
                &&& final(self).cycles == old(self).cycles.wrapping_add(
                    if bc1 == 0 { 16int } else { 21int } as usize,
                )
                &&& same_aux(*old(self), *final(self))
                &&& final(self).wf()
            }),
    {
        self.ldi();
        let bc = self.get_pair(Register::BC);
        if bc != 0 {
            self.reg.prev_pc = self.reg.pc;
            self.reg.pc = self.reg.pc.wrapping_sub(2);
            self.adv_cycles(5);
        }
    }

    /// CPI: compares the accumulator with (HL), advances HL, lowers BC;
    /// parity reports whether BC is still nonzero and carry is
    /// untouched.
    #[verifier::rlimit(100)]
    #[verifier::spinoff_prover]
    pub fn cpi(&mut self)
        requires
            old(self).wf(),
        ensures
            ({
                let hl = pair16(old(self).reg.h, old(self).reg.l);
                let bc = pair16(old(self).reg.b, old(self).reg.c);
                let v = old(self).memory.ram@[hl as int];
                let a = old(self).reg.a;
                let r = sub8(a, v, false);
                let hf = half_sub(a, v, false);
                let n = sub8(r, if hf { 1 } else { 0 }, false);
                let hl1 = hl.wrapping_add(1);
                let bc1 = bc.wrapping_sub(1);
                &&& final(self).reg == (Registers {
                    h: hi8(hl1),
                    l: lo8(hl1),
                    b: hi8(bc1),
                    c: lo8(bc1),
                    pc: old(self).reg.pc.wrapping_add(2),
                    prev_pc: old(self).reg.pc,
                    ..old(self).reg
                })
                &&& final(self).flags == (Flags {
                    sf: sign8(r),
                    zf: r == 0,
                    yf: bit1(n),
                    hf: hf,
                    xf: bit3(n),
                    pf: bc1 != 0,
                    nf: true,
                    ..old(self).flags
                })
                &&& final(self).cycles == old(self).cycles.wrapping_add(16)
                &&& final(self).memory == old(self).memory
                &&& same_aux(*old(self), *final(self))
                &&& final(self).wf()
            }),
    {
        let hl = self.get_pair(Register::HL);
        let bc = self.get_pair(Register::BC);
        let a = self.reg.a;
        let v = self.memory.read8(hl);
        let r: u8 = ((0x100u16 + a as u16 - v as u16) % 0x100) as u8;
        let hf = a % 16 < v % 16;
        let n: u8 = ((0x100u16 + r as u16 - (if hf { 1u16 } else { 0u16 })) % 0x100) as u8;
        self.write_pair_direct(Register::HL, hl.wrapping_add(1));
        let bc1 = bc.wrapping_sub(1);
        self.write_pair_direct(Register::BC, bc1);
        self.flags.sf = r >= 0x80;
        self.flags.zf = r == 0;
        self.flags.hf = hf;
        self.flags.pf = bc1 != 0;
        self.flags.nf = true;
        self.flags.yf = n / 0x02 % 2 == 1;
        self.flags.xf = n / 0x08 % 2 == 1;
        self.adv_cycles(16);
        self.adv_pc(2);
    }
}

} // verus!
