//! Control flow, the fetch/decode/execute engine and the interrupt
//! controller.

use vstd::prelude::*;

use crate::bits::{pair16, sext16, sub8};
use crate::cpu::{flags_unpacked, same_aux, CoreError, Cpu, Interrupt, Registers};
use crate::instructions::{
    cb_defined, dd_defined, ed_defined, fd_defined, instruction_meta, Instruction, Register,
};
use crate::memory::{stack_push, stack_top, word_at};
use crate::step::{
    adc_hl_rel, add_ex_rel, alu_rel, base_rel, cpi_rel, ctrl_rel, dex_rel, dispatch_rel,
    halt_rel, inx_rel, jp_idx_rel, ld_a_idx_rel, ld_dd_rel, ld_idx_imm_rel, ld_nn_rel, ld_rel,
    ldi_rel, ldir_rel, load_indirect_rel, move_rel, pop_rel, prefixed, prefixed_meta, push_rel,
    r_bumped, rlc_rel, rrc_rel, set_interrupt_mode_rel, st_idx_rel, step_rel,
};

verus! {

/// The refresh counter after one increment: the low seven bits count
/// modulo 128 while bit 7 is preserved.
pub open spec fn r_bump(r: u8) -> u8 {
    ((if r >= 0x80 {
        0x80int
    } else {
        0int
    }) + (r % 0x80 + 1) % 0x80) as u8
}

/// The return address CALL pushes is exactly what an immediately
/// following RET pops, and the pop restores the stack pointer: a call
/// from `pc` whose callee returns at once comes back to `pc + 3`, the
/// byte after the three-byte CALL.
pub proof fn lemma_call_ret_round_trip(m: Seq<u8>, sp: u16, pc: u16)
    requires
        m.len() == 0x10000,
    ensures
        ({
            let ret = pc.wrapping_add(3);
            let (m1, sp1) = stack_push(m, sp, ret);
            &&& stack_top(m1, sp1) == ret
            &&& sp1.wrapping_add(2) == sp
        }),
{
    crate::memory::lemma_push_pop(m, sp, pc.wrapping_add(3));
}

impl Cpu {
    /// Bumps the refresh counter by one, preserving bit 7.
    fn bump_r(&mut self)
        ensures
            final(self).reg == (Registers { r: r_bump(old(self).reg.r), ..old(self).reg }),
            final(self).flags == old(self).flags,
            final(self).cycles == old(self).cycles,
            final(self).memory == old(self).memory,
            same_aux(*old(self), *final(self)),
    {
        self.reg.r = (if self.reg.r >= 0x80 { 0x80u8 } else { 0u8 }) + (self.reg.r % 0x80 + 1)
            % 0x80;
    }

    /// JP to a direct target, charging the cycle cost of the current
    /// instruction's metadata record.
    pub fn jp(&mut self, addr: u16)
        ensures
            final(self).reg == (Registers {
                pc: addr,
                prev_pc: old(self).reg.pc,
                ..old(self).reg
            }),
            final(self).flags == old(self).flags,
            final(self).cycles == old(self).cycles.wrapping_add(
                old(self).instruction.cycles as usize,
            ),
            final(self).memory == old(self).memory,
            same_aux(*old(self), *final(self)),
    {
        self.reg.prev_pc = self.reg.pc;
        let t = self.instruction.cycles;
        self.adv_cycles(t as usize);
        self.reg.pc = addr;
    }

    /// JP cc, **: jumps to the immediate word when the condition holds,
    /// ten cycles either way.
    pub fn jp_cond(&mut self, cond: bool)
        requires
            old(self).wf(),
        ensures
            ({
                let target = word_at(old(self).memory.ram@, old(self).reg.pc.wrapping_add(1));
                &&& final(self).reg == (Registers {
                    pc: if cond {
                        target
                    } else {
                        old(self).reg.pc.wrapping_add(3)
                    },
                    prev_pc: old(self).reg.pc,
                    ..old(self).reg
                })
                &&& final(self).flags == old(self).flags
                &&& final(self).cycles == old(self).cycles.wrapping_add(10)
                &&& final(self).memory == old(self).memory
                &&& same_aux(*old(self), *final(self))
                &&& final(self).wf()
            }),
    {
        if cond {
            self.reg.prev_pc = self.reg.pc;
            self.reg.pc = self.memory.read16(self.reg.pc.wrapping_add(1));
        } else {
            self.adv_pc(3);
        }
        self.adv_cycles(10);
    }

    /// JR: relative jump, measured from the end of the two-byte
    /// instruction; the caller hands in the sign-extended displacement.
    pub fn jr(&mut self, offset: u16)
        ensures
            final(self).reg == (Registers {
                pc: old(self).reg.pc.wrapping_add(2).wrapping_add(offset),
                prev_pc: old(self).reg.pc.wrapping_add(2),
                ..old(self).reg
            }),
            final(self).flags == old(self).flags,
            final(self).cycles == old(self).cycles.wrapping_add(12),
            final(self).memory == old(self).memory,
            same_aux(*old(self), *final(self)),
    {
        self.adv_pc(2);
        self.reg.prev_pc = self.reg.pc;
        self.reg.pc = self.reg.pc.wrapping_add(offset);
        self.adv_cycles(12);
    }

    /// JR cc, *: relative jump on condition; twelve cycles when taken,
    /// seven when not.
    #[verifier::rlimit(100)]
    #[verifier::spinoff_prover]
    pub fn jr_cond(&mut self, cond: bool)
        requires
            old(self).wf(),
        ensures
            ({
                let d = old(self).memory.ram@[old(self).reg.pc.wrapping_add(1) as int];
                &&& final(self).reg == (Registers {
                    pc: if cond {
                        old(self).reg.pc.wrapping_add(2).wrapping_add(sext16(d))
                    } else {
                        old(self).reg.pc.wrapping_add(2)
                    },
                    prev_pc: if cond {
                        old(self).reg.pc.wrapping_add(2)
                    } else {
                        old(self).reg.pc
                    },
                    ..old(self).reg
                })
                &&& final(self).flags == old(self).flags
                &&& final(self).cycles == old(self).cycles.wrapping_add(
                    if cond { 12int } else { 7int } as usize,
                )
                &&& final(self).memory == old(self).memory
                &&& same_aux(*old(self), *final(self))
                &&& final(self).wf()
            }),
    {
        let d = self.memory.read8(self.reg.pc.wrapping_add(1));
        let off: u16 = if d >= 0x80 { 0xFF00u16 + d as u16 } else { d as u16 };
        if cond {
            self.jr(off);
        } else {
            self.adv_cycles(7);
            self.adv_pc(2);
        }
    }

    /// DJNZ *: decrements B and takes the relative jump while B is
    /// nonzero.
    #[verifier::rlimit(100)]
    #[verifier::spinoff_prover]
    pub fn djnz(&mut self)
        requires
            old(self).wf(),
        ensures
            ({
                let b1 = sub8(old(self).reg.b, 1, false);
                let d = old(self).memory.ram@[old(self).reg.pc.wrapping_add(1) as int];
                &&& final(self).reg == (Registers {
                    b: b1,
                    pc: if b1 != 0 {
                        old(self).reg.pc.wrapping_add(2).wrapping_add(sext16(d))
                    } else {
                        old(self).reg.pc.wrapping_add(2)
                    },
                    prev_pc: if b1 != 0 {
                        old(self).reg.pc.wrapping_add(2)
                    } else {
                        old(self).reg.pc
                    },
                    ..old(self).reg
                })
                &&& final(self).flags == old(self).flags
                &&& final(self).cycles == old(self).cycles.wrapping_add(
                    if b1 != 0 { 13int } else { 8int } as usize,
                )
                &&& final(self).memory == old(self).memory
                &&& same_aux(*old(self), *final(self))
                &&& final(self).wf()
            }),
    {
        self.adv_cycles(1);
        self.reg.b = ((0x100u16 + self.reg.b as u16 - 1) % 0x100) as u8;
        let cond = self.reg.b != 0;
        self.jr_cond(cond);
    }

    /// JP (HL): jumps to the address in HL.
    pub fn pchl(&mut self)
        ensures
            final(self).reg == (Registers {
                pc: pair16(old(self).reg.h, old(self).reg.l),
                prev_pc: old(self).reg.pc,
                ..old(self).reg
            }),
            final(self).flags == old(self).flags,
            final(self).cycles == old(self).cycles.wrapping_add(4),
            final(self).memory == old(self).memory,
            same_aux(*old(self), *final(self)),
    {
        self.adv_cycles(4);
        self.reg.prev_pc = self.reg.pc;
        let hl = self.get_pair(Register::HL);
        self.reg.pc = hl;
    }

    /// CALL **: pushes the address after the three-byte instruction,
    /// high byte at SP-1 and low byte at SP-2, then jumps to the
    /// immediate word.  The opcode names which CALL variant dispatched.
    #[verifier::rlimit(100)]
    #[verifier::spinoff_prover]
    pub fn call(&mut self, opcode: u16)
        requires
            opcode == 0xCC || opcode == 0xCD || opcode == 0xC4 || opcode == 0xD4 || opcode == 0xDC
                || opcode == 0xE4 || opcode == 0xEC || opcode == 0xF4 || opcode == 0xFC || opcode
                == 0x66,
            old(self).wf(),
        ensures
            ({
                let ret = old(self).reg.pc.wrapping_add(3);
                let (m1, sp1) = stack_push(old(self).memory.ram@, old(self).reg.sp, ret);
                &&& final(self).memory.ram@ == m1
                &&& final(self).reg == (Registers {
                    sp: sp1,
                    pc: word_at(m1, old(self).reg.pc.wrapping_add(1)),
                    prev_pc: old(self).reg.pc,
                    ..old(self).reg
                })
                &&& final(self).flags == old(self).flags
                &&& final(self).cycles == old(self).cycles.wrapping_add(17)
                &&& same_aux(*old(self), *final(self))
                &&& final(self).wf()
            }),
    {
        let ret = self.reg.pc.wrapping_add(3);
        let sp1 = self.reg.sp.wrapping_sub(2);
        self.memory.write16(sp1, ret);
        self.reg.sp = sp1;
        self.reg.prev_pc = self.reg.pc;
        let target = self.memory.read16(self.reg.pc.wrapping_add(1));
        self.reg.pc = target;
        self.adv_cycles(17);
    }

    /// CALL cc, **: calls when the condition holds, else falls through
    /// in ten cycles.
    #[verifier::rlimit(100)]
    #[verifier::spinoff_prover]
    pub fn call_cond(&mut self, opcode: u16, cond: bool)
        requires
            opcode == 0xCC || opcode == 0xCD || opcode == 0xC4 || opcode == 0xD4 || opcode == 0xDC
                || opcode == 0xE4 || opcode == 0xEC || opcode == 0xF4 || opcode == 0xFC || opcode
                == 0x66,
            old(self).wf(),
        ensures
            ({
                let ret = old(self).reg.pc.wrapping_add(3);
                let (m1, sp1) = stack_push(old(self).memory.ram@, old(self).reg.sp, ret);
                &&& final(self).memory.ram@ == (if cond {
                    m1
                } else {
                    old(self).memory.ram@
                })
                &&& final(self).reg == (if cond {
                    Registers {
                        sp: sp1,
                        pc: word_at(m1, old(self).reg.pc.wrapping_add(1)),
                        prev_pc: old(self).reg.pc,
                        ..old(self).reg
                    }
                } else {
                    Registers {
                        pc: old(self).reg.pc.wrapping_add(3),
                        prev_pc: old(self).reg.pc,
                        ..old(self).reg
                    }
                })
                &&& final(self).flags == old(self).flags
                &&& final(self).cycles == old(self).cycles.wrapping_add(
                    if cond { 17int } else { 10int } as usize,
                )
                &&& same_aux(*old(self), *final(self))
                &&& final(self).wf()
            }),
    {
        if cond {
            self.call(opcode);
        } else {
            self.adv_cycles(10);
            self.adv_pc(3);
        }
    }

    /// RET: pops the return address and raises SP by two.
    pub fn ret(&mut self)
        requires
            old(self).wf(),
        ensures
            ({
                let t = stack_top(old(self).memory.ram@, old(self).reg.sp);
                &&& final(self).reg == (Registers {
                    pc: t,
                    sp: old(self).reg.sp.wrapping_add(2),
                    prev_pc: old(self).reg.pc,
                    ..old(self).reg
                })
                &&& final(self).flags == old(self).flags
                &&& final(self).cycles == old(self).cycles.wrapping_add(10)
                &&& final(self).memory == old(self).memory
                &&& same_aux(*old(self), *final(self))
                &&& final(self).wf()
            }),
    {
        let t = self.memory.read16(self.reg.sp);
        self.reg.prev_pc = self.reg.pc;
        self.reg.pc = t;
        self.reg.sp = self.reg.sp.wrapping_add(2);
        self.adv_cycles(10);
    }

    /// RET cc: returns when the condition holds (eleven cycles), else
    /// falls through in five.
    #[verifier::rlimit(100)]
    #[verifier::spinoff_prover]
    pub fn ret_cond(&mut self, cond: bool)
        requires
            old(self).wf(),
        ensures
            ({
                let t = stack_top(old(self).memory.ram@, old(self).reg.sp);
                &&& final(self).reg == (if cond {
                    Registers {
                        pc: t,
                        sp: old(self).reg.sp.wrapping_add(2),
                        prev_pc: old(self).reg.pc,
                        ..old(self).reg
                    }
                } else {
                    Registers {
                        pc: old(self).reg.pc.wrapping_add(1),
                        prev_pc: old(self).reg.pc,
                        ..old(self).reg
                    }
                })
                &&& final(self).flags == old(self).flags
                &&& final(self).cycles == old(self).cycles.wrapping_add(
                    if cond { 11int } else { 5int } as usize,
                )
                &&& final(self).memory == old(self).memory
                &&& same_aux(*old(self), *final(self))
                &&& final(self).wf()
            }),
    {
        if cond {
            self.adv_cycles(1);
            self.ret();
        } else {
            self.adv_cycles(5);
            self.adv_pc(1);
        }
    }

    /// RST n: pushes the address of the next instruction and jumps to
    /// one of the eight page-zero vectors, 8 * n.
    #[verifier::rlimit(100)]
    #[verifier::spinoff_prover]
    pub fn rst(&mut self, value: u8)
        requires
            value <= 7,
            old(self).wf(),
        ensures
            ({
                let ret = old(self).reg.pc.wrapping_add(1);
                let (m1, sp1) = stack_push(old(self).memory.ram@, old(self).reg.sp, ret);
                &&& final(self).memory.ram@ == m1
                &&& final(self).reg == (Registers {
                    sp: sp1,
                    pc: (value * 8) as u16,
                    prev_pc: old(self).reg.pc,
                    ..old(self).reg
                })
                &&& final(self).flags == old(self).flags
                &&& final(self).cycles == old(self).cycles.wrapping_add(11)
                &&& same_aux(*old(self), *final(self))
                &&& final(self).wf()
            }),
    {
        let ret = self.reg.pc.wrapping_add(1);
        let sp1 = self.reg.sp.wrapping_sub(2);
        self.memory.write16(sp1, ret);
        self.reg.sp = sp1;
        self.reg.prev_pc = self.reg.pc;
        self.reg.pc = (value as u16) * 8;
        self.adv_cycles(11);
    }

    /// Fetches the opcode byte at PC and looks up its metadata.
    pub fn fetch(&mut self)
        requires
            old(self).wf(),
        ensures
            final(self).wf(),
            final(self).opcode == old(self).memory.ram@[old(self).reg.pc as int] as u16,
            final(self).instruction == instruction_meta(
                old(self).memory.ram@[old(self).reg.pc as int] as u16,
            ),
            final(self).reg == old(self).reg,
            final(self).flags == old(self).flags,
            final(self).cycles == old(self).cycles,
            final(self).memory == old(self).memory,
            final(self).io == old(self).io,
            final(self).int == old(self).int,
            final(self).int_pending == old(self).int_pending,
    {
        let b = self.memory.read8(self.reg.pc);
        self.opcode = b as u16;
        self.instruction = Instruction::decode(self.opcode);
    }

    /// Restores the power-on register, flag and interrupt values.  The
    /// address space is left to the host loader.
    pub fn reset(&mut self)
        ensures
            final(self).reg == (Registers {
                a: 0xFFu8,
                b: 0u8,
                c: 0u8,
                d: 0u8,
                e: 0u8,
                h: 0u8,
                l: 0u8,
                sp: 0xFFFFu16,
                r: 0u8,
                ..old(self).reg
            }),
            final(self).flags == flags_unpacked(old(self).flags, 0xFF),
            final(self).int == (Interrupt {
                mode: 1u8,
                iff1: false,
                iff2: false,
                ..old(self).int
            }),
            final(self).cycles == old(self).cycles,
            final(self).memory == old(self).memory,
            final(self).io == old(self).io,
            final(self).int_pending == old(self).int_pending,
            final(self).opcode == old(self).opcode,
            final(self).instruction == old(self).instruction,
    {
        self.reg.a = 0xFF;
        self.reg.b = 0;
        self.reg.c = 0;
        self.reg.d = 0;
        self.reg.e = 0;
        self.reg.h = 0;
        self.reg.l = 0;
        self.reg.sp = 0xFFFF;
        self.reg.r = 0;
        self.flags.set(0xFF);
        self.int.mode = 1;
        self.int.iff1 = false;
        self.int.iff2 = false;
    }

    /// Clears the cycle counter once a frame's worth of cycles has
    /// accumulated, so a host can re-anchor its frame timing.
    pub fn try_reset_cycles(&mut self)
        ensures
            final(self).cycles == (if old(self).cycles < 25600 {
                old(self).cycles
            } else {
                0usize
            }),
            final(self).reg == old(self).reg,
            final(self).flags == old(self).flags,
            final(self).memory == old(self).memory,
            same_aux(*old(self), *final(self)),
    {
        if self.cycles < 25_600 {
        } else {
            self.cycles = 0;
        }
    }

    /// Services latched interrupts between instructions.  An EI enable
    /// request takes effect here, but only when `delay` is zero: the
    /// host passes one while the instruction after EI has not yet
    /// completed, so the enable is deferred by exactly one instruction.
    /// A latched NMI always preempts, clears iff1 only, and calls the
    /// fixed vector 0x66.  A maskable interrupt is serviced only while
    /// iff1 is set: servicing clears both flip-flops and dispatches on
    /// the mode; mode 0 executes its fixed RST-equivalent to 0x38, mode
    /// 1 is RST 0x38, and mode 2 calls the address stored at the vector
    /// composed of register I and the host-supplied bus byte.
    #[verifier::rlimit(100)]
    #[verifier::spinoff_prover]
    pub fn handle_interrupts(&mut self, delay: u8, bus: u8)
        requires
            old(self).wf(),
        ensures
            final(self).wf(),
            ({
                let enable = delay == 0 && old(self).int.int;
                let iff1a = old(self).int.iff1 || enable;
                let iff2a = old(self).int.iff2 || enable;
                let (m1, sp1) = stack_push(
                    old(self).memory.ram@,
                    old(self).reg.sp,
                    old(self).reg.pc,
                );
                if old(self).int.nmi_pending {
                    &&& final(self).int == (Interrupt {
                        nmi_pending: false,
                        iff1: false,
                        iff2: iff2a,
                        ..old(self).int
                    })
                    &&& final(self).memory.ram@ == m1
                    &&& final(self).reg == (Registers {
                        sp: sp1,
                        pc: 0x66u16,
                        prev_pc: old(self).reg.pc,
                        r: r_bump(old(self).reg.r),
                        ..old(self).reg
                    })
                    &&& final(self).cycles == old(self).cycles.wrapping_add(11)
                    &&& final(self).int_pending == old(self).int_pending
                    &&& final(self).flags == old(self).flags
                    &&& final(self).io == old(self).io
                } else if old(self).int_pending && iff1a && old(self).int.mode <= 2 {
                    &&& final(self).int == (Interrupt {
                        iff1: false,
                        iff2: false,
                        ..old(self).int
                    })
                    &&& final(self).int_pending == false
                    &&& final(self).flags == old(self).flags
                    &&& final(self).io == old(self).io
                    &&& (old(self).int.mode == 0 || old(self).int.mode == 1 ==> ({
                        &&& final(self).memory.ram@ == m1
                        &&& final(self).reg == (Registers {
                            sp: sp1,
                            pc: 0x38u16,
                            prev_pc: old(self).reg.pc,
                            r: r_bump(old(self).reg.r),
                            ..old(self).reg
                        })
                        &&& final(self).cycles == old(self).cycles.wrapping_add(
                            if old(self).int.mode == 0 { 11int } else { 13int } as usize,
                        )
                    }))
                    &&& (old(self).int.mode == 2 ==> ({
                        let vec = pair16(old(self).reg.i, bus);
                        let target = word_at(old(self).memory.ram@, vec);
                        &&& final(self).memory.ram@ == m1
                        &&& final(self).reg == (Registers {
                            sp: sp1,
                            pc: target,
                            prev_pc: old(self).reg.pc,
                            r: r_bump(old(self).reg.r),
                            ..old(self).reg
                        })
                        &&& final(self).cycles == old(self).cycles.wrapping_add(19)
                    }))
                } else {
                    &&& final(self).int == (Interrupt {
                        iff1: iff1a,
                        iff2: iff2a,
                        ..old(self).int
                    })
                    &&& final(self).int_pending == old(self).int_pending
                    &&& final(self).reg == old(self).reg
                    &&& final(self).flags == old(self).flags
                    &&& final(self).cycles == old(self).cycles
                    &&& final(self).memory == old(self).memory
                    &&& final(self).io == old(self).io
                }
            }),
            final(self).opcode == old(self).opcode,
            final(self).instruction == old(self).instruction,
    {
        if delay == 0 && self.int.int {
            self.int.iff1 = true;
            self.int.iff2 = true;
        }
        if self.int.nmi_pending {
            self.int.nmi_pending = false;
            self.int.iff1 = false;
            self.bump_r();
            self.adv_cycles(11);
            let pc = self.reg.pc;
            let sp1 = self.reg.sp.wrapping_sub(2);
            self.memory.write16(sp1, pc);
            self.reg.sp = sp1;
            self.reg.prev_pc = pc;
            self.reg.pc = 0x66;
            return ;
        }
        if self.int_pending && self.int.iff1 && self.int.mode <= 2 {
            self.int_pending = false;
            self.int.iff1 = false;
            self.int.iff2 = false;
            self.bump_r();
            let pc = self.reg.pc;
            let sp1 = self.reg.sp.wrapping_sub(2);
            if self.int.mode == 2 {
                self.adv_cycles(19);
                let vec = (self.reg.i as u16) * 0x100 + (bus as u16);
                let target = self.memory.read16(vec);
                self.memory.write16(sp1, pc);
                self.reg.sp = sp1;
                self.reg.prev_pc = pc;
                self.reg.pc = target;
            } else {
                if self.int.mode == 0 {
                    self.adv_cycles(11);
                } else {
                    self.adv_cycles(13);
                }
                self.memory.write16(sp1, pc);
                self.reg.sp = sp1;
                self.reg.prev_pc = pc;
                self.reg.pc = 0x38;
            }
        }
    }

    /// Dispatches the miscellaneous opcodes 0x00..0x3F.
    #[verifier::rlimit(100)]
    #[verifier::spinoff_prover]
    fn decode_base(&mut self, op: u8)
        requires
            op < 0x40,
            old(self).wf(),
        ensures
            final(self).wf(),
            base_rel(*old(self), *final(self), op),
    {
        match op {
            0x00 => self.nop(),
            0x01 => self.lxi(Register::BC),
            0x02 => self.stax(Register::BC),
            0x03 => self.inx(Register::BC),
            0x04 => self.inc(Register::B),
            0x05 => self.dec(Register::B),
            0x06 => self.mvi(Register::B),
            0x07 => self.rlca(),
            0x08 => self.ex_af_af(),
            0x09 => self.add_hl(Register::BC),
            0x0A => self.ld_ex(Register::BC),
            0x0B => self.dex(Register::BC),
            0x0C => self.inc(Register::C),
            0x0D => self.dec(Register::C),
            0x0E => self.mvi(Register::C),
            0x0F => self.rrca(),
            0x10 => self.djnz(),
            0x11 => self.lxi(Register::DE),
            0x12 => self.stax(Register::DE),
            0x13 => self.inx(Register::DE),
            0x14 => self.inc(Register::D),
            0x15 => self.dec(Register::D),
            0x16 => self.mvi(Register::D),
            0x17 => self.rla(),
            0x18 => self.jr_cond(true),
            0x19 => self.add_hl(Register::DE),
            0x1A => self.ld_ex(Register::DE),
            0x1B => self.dex(Register::DE),
            0x1C => self.inc(Register::E),
            0x1D => self.dec(Register::E),
            0x1E => self.mvi(Register::E),
            0x1F => self.rra(),
            0x20 => {
                let c = !self.flags.zf;
                self.jr_cond(c);
            },
            0x21 => self.lxi(Register::HL),
            0x22 => self.shld(),
            0x23 => self.inx(Register::HL),
            0x24 => self.inc(Register::H),
            0x25 => self.dec(Register::H),
            0x26 => self.mvi(Register::H),
            0x27 => self.daa(),
            0x28 => {
                let c = self.flags.zf;
                self.jr_cond(c);
            },
            0x29 => self.add_hl(Register::HL),
            0x2A => self.lhld(),
            0x2B => self.dex(Register::HL),
            0x2C => self.inc(Register::L),
            0x2D => self.dec(Register::L),
            0x2E => self.mvi(Register::L),
            0x2F => self.cpl(),
            0x30 => {
                let c = !self.flags.cf;
                self.jr_cond(c);
            },
            0x31 => self.lxi(Register::SP),
            0x32 => self.sta(),
            0x33 => self.inx(Register::SP),
            0x34 => self.inc(Register::HL),
            0x35 => self.dec(Register::HL),
            0x36 => self.mvi(Register::HL),
            0x37 => self.scf(),
            0x38 => {
                let c = self.flags.cf;
                self.jr_cond(c);
            },
            0x39 => self.add_hl(Register::SP),
            0x3A => self.lda_im(),
            0x3B => self.dex(Register::SP),
            0x3C => self.inc(Register::A),
            0x3D => self.dec(Register::A),
            0x3E => self.mvi(Register::A),
            0x3F => self.ccf(),
            _ => vstd::pervasive::unreached(),
        }
    }

    /// Dispatches the register-move opcodes 0x40..0x7F; HALT is handled
    /// by the caller.
    #[verifier::rlimit(100)]
    #[verifier::spinoff_prover]
    fn decode_move(&mut self, op: u8)
        requires
            0x40 <= op < 0x80,
            op != 0x76,
            old(self).wf(),
        ensures
            final(self).wf(),
            move_rel(*old(self), *final(self), op),
    {
        match op {
            0x40 => self.ld(Register::B, Register::B),
            0x41 => self.ld(Register::B, Register::C),
            0x42 => self.ld(Register::B, Register::D),
            0x43 => self.ld(Register::B, Register::E),
            0x44 => self.ld(Register::B, Register::H),
            0x45 => self.ld(Register::B, Register::L),
            0x46 => self.ld(Register::B, Register::HL),
            0x47 => self.ld(Register::B, Register::A),
            0x48 => self.ld(Register::C, Register::B),
            0x49 => self.ld(Register::C, Register::C),
            0x4A => self.ld(Register::C, Register::D),
            0x4B => self.ld(Register::C, Register::E),
            0x4C => self.ld(Register::C, Register::H),
            0x4D => self.ld(Register::C, Register::L),
            0x4E => self.ld(Register::C, Register::HL),
            0x4F => self.ld(Register::C, Register::A),
            0x50 => self.ld(Register::D, Register::B),
            0x51 => self.ld(Register::D, Register::C),
            0x52 => self.ld(Register::D, Register::D),
            0x53 => self.ld(Register::D, Register::E),
            0x54 => self.ld(Register::D, Register::H),
            0x55 => self.ld(Register::D, Register::L),
            0x56 => self.ld(Register::D, Register::HL),
            0x57 => self.ld(Register::D, Register::A),
            0x58 => self.ld(Register::E, Register::B),
            0x59 => self.ld(Register::E, Register::C),
            0x5A => self.ld(Register::E, Register::D),
            0x5B => self.ld(Register::E, Register::E),
            0x5C => self.ld(Register::E, Register::H),
            0x5D => self.ld(Register::E, Register::L),
            0x5E => self.ld(Register::E, Register::HL),
            0x5F => self.ld(Register::E, Register::A),
            0x60 => self.ld(Register::H, Register::B),
            0x61 => self.ld(Register::H, Register::C),
            0x62 => self.ld(Register::H, Register::D),
            0x63 => self.ld(Register::H, Register::E),
            0x64 => self.ld(Register::H, Register::H),
            0x65 => self.ld(Register::H, Register::L),
            0x66 => self.ld(Register::H, Register::HL),
            0x67 => self.ld(Register::H, Register::A),
            0x68 => self.ld(Register::L, Register::B),
            0x69 => self.ld(Register::L, Register::C),
            0x6A => self.ld(Register::L, Register::D),
            0x6B => self.ld(Register::L, Register::E),
            0x6C => self.ld(Register::L, Register::H),
            0x6D => self.ld(Register::L, Register::L),
            0x6E => self.ld(Register::L, Register::HL),
            0x6F => self.ld(Register::L, Register::A),
            0x70 => self.ld(Register::HL, Register::B),
            0x71 => self.ld(Register::HL, Register::C),
            0x72 => self.ld(Register::HL, Register::D),
            0x73 => self.ld(Register::HL, Register::E),
            0x74 => self.ld(Register::HL, Register::H),
            0x75 => self.ld(Register::HL, Register::L),
            0x77 => self.ld(Register::HL, Register::A),
            0x78 => self.ld(Register::A, Register::B),
            0x79 => self.ld(Register::A, Register::C),
            0x7A => self.ld(Register::A, Register::D),
            0x7B => self.ld(Register::A, Register::E),
            0x7C => self.ld(Register::A, Register::H),
            0x7D => self.ld(Register::A, Register::L),
            0x7E => self.ld_ex(Register::HL),
            0x7F => self.ld(Register::A, Register::A),
            _ => vstd::pervasive::unreached(),
        }
    }

    /// Dispatches the 8-bit ALU opcodes 0x80..0xBF.
    #[verifier::rlimit(100)]
    #[verifier::spinoff_prover]
    fn decode_alu(&mut self, op: u8)
        requires
            0x80 <= op < 0xC0,
            old(self).wf(),
        ensures
            final(self).wf(),
            alu_rel(*old(self), *final(self), op),
    {
        match op {
            0x80 => self.add(Register::B),
            0x81 => self.add(Register::C),
            0x82 => self.add(Register::D),
            0x83 => self.add(Register::E),
            0x84 => self.add(Register::H),
            0x85 => self.add(Register::L),
            0x86 => self.add(Register::HL),
            0x87 => self.add(Register::A),
            0x88 => self.adc(Register::B),
            0x89 => self.adc(Register::C),
            0x8A => self.adc(Register::D),
            0x8B => self.adc(Register::E),
            0x8C => self.adc(Register::H),
            0x8D => self.adc(Register::L),
            0x8E => self.adc(Register::HL),
            0x8F => self.adc(Register::A),
            0x90 => self.sub(Register::B),
            0x91 => self.sub(Register::C),
            0x92 => self.sub(Register::D),
            0x93 => self.sub(Register::E),
            0x94 => self.sub(Register::H),
            0x95 => self.sub(Register::L),
            0x96 => self.sub(Register::HL),
            0x97 => self.sub(Register::A),
            0x98 => self.sbc(Register::B),
            0x99 => self.sbc(Register::C),
            0x9A => self.sbc(Register::D),
            0x9B => self.sbc(Register::E),
            0x9C => self.sbc(Register::H),
            0x9D => self.sbc(Register::L),
            0x9E => self.sbc(Register::HL),
            0x9F => self.sbc(Register::A),
            0xA0 => self.ana(Register::B),
            0xA1 => self.ana(Register::C),
            0xA2 => self.ana(Register::D),
            0xA3 => self.ana(Register::E),
            0xA4 => self.ana(Register::H),
            0xA5 => self.ana(Register::L),
            0xA6 => self.ana(Register::HL),
            0xA7 => self.ana(Register::A),
            0xA8 => self.xra(Register::B),
            0xA9 => self.xra(Register::C),
            0xAA => self.xra(Register::D),
            0xAB => self.xra(Register::E),
            0xAC => self.xra(Register::H),
            0xAD => self.xra(Register::L),
            0xAE => self.xra(Register::HL),
            0xAF => self.xra(Register::A),
            0xB0 => self.ora(Register::B),
            0xB1 => self.ora(Register::C),
            0xB2 => self.ora(Register::D),
            0xB3 => self.ora(Register::E),
            0xB4 => self.ora(Register::H),
            0xB5 => self.ora(Register::L),
            0xB6 => self.ora(Register::HL),
            0xB7 => self.ora(Register::A),
            0xB8 => self.cmp(Register::B),
            0xB9 => self.cmp(Register::C),
            0xBA => self.cmp(Register::D),
            0xBB => self.cmp(Register::E),
            0xBC => self.cmp(Register::H),
            0xBD => self.cmp(Register::L),
            0xBE => self.cmp(Register::HL),
            0xBF => self.cmp(Register::A),
            _ => vstd::pervasive::unreached(),
        }
    }

    /// Dispatches the control-flow and immediate opcodes 0xC0..0xFF; the
    /// four prefix bytes are handled by the caller.
    #[verifier::rlimit(100)]
    #[verifier::spinoff_prover]
    fn decode_ctrl(&mut self, op: u8)
        requires
            0xC0 <= op,
            op != 0xCB,
            op != 0xDD,
            op != 0xED,
            op != 0xFD,
            old(self).wf(),
        ensures
            final(self).wf(),
            ctrl_rel(*old(self), *final(self), op),
    {
        match op {
            0xC0 => {
                let c = !self.flags.zf;
                self.ret_cond(c);
            },
            0xC1 => self.pop(Register::BC),
            0xC2 => {
                let c = !self.flags.zf;
                self.jp_cond(c);
            },
            0xC3 => self.jp_cond(true),
            0xC4 => {
                let c = !self.flags.zf;
                self.call_cond(0xC4, c);
            },
            0xC5 => self.push(Register::BC),
            0xC6 => self.adi(),
            0xC7 => self.rst(0),
            0xC8 => {
                let c = self.flags.zf;
                self.ret_cond(c);
            },
            0xC9 => self.ret(),
            0xCA => {
                let c = self.flags.zf;
                self.jp_cond(c);
            },
            0xCC => {
                let c = self.flags.zf;
                self.call_cond(0xCC, c);
            },
            0xCD => self.call(0xCD),
            0xCE => self.adc_im(),
            0xCF => self.rst(1),
            0xD0 => {
                let c = !self.flags.cf;
                self.ret_cond(c);
            },
            0xD1 => self.pop(Register::DE),
            0xD2 => {
                let c = !self.flags.cf;
                self.jp_cond(c);
            },
            0xD3 => self.out(),
            0xD4 => {
                let c = !self.flags.cf;
                self.call_cond(0xD4, c);
            },
            0xD5 => self.push(Register::DE),
            0xD6 => self.sui(),
            0xD7 => self.rst(2),
            0xD8 => {
                let c = self.flags.cf;
                self.ret_cond(c);
            },
            0xD9 => self.exx(),
            0xDA => {
                let c = self.flags.cf;
                self.jp_cond(c);
            },
            0xDB => self.in_(Register::A),
            0xDC => {
                let c = self.flags.cf;
                self.call_cond(0xDC, c);
            },
            0xDE => self.sbi(),
            0xDF => self.rst(3),
            0xE0 => {
                let c = !self.flags.pf;
                self.ret_cond(c);
            },
            0xE1 => self.pop(Register::HL),
            0xE2 => {
                let c = !self.flags.pf;
                self.jp_cond(c);
            },
            0xE3 => self.xthl(),
            0xE4 => {
                let c = !self.flags.pf;
                self.call_cond(0xE4, c);
            },
            0xE5 => self.push(Register::HL),
            0xE6 => self.ani(),
            0xE7 => self.rst(4),
            0xE8 => {
                let c = self.flags.pf;
                self.ret_cond(c);
            },
            0xE9 => self.pchl(),
            0xEA => {
                let c = self.flags.pf;
                self.jp_cond(c);
            },
            0xEB => self.ex_de_hl(),
            0xEC => {
                let c = self.flags.pf;
                self.call_cond(0xEC, c);
            },
            0xEE => self.xri(),
            0xEF => self.rst(5),
            0xF0 => {
                let c = !self.flags.sf;
                self.ret_cond(c);
            },
            0xF1 => self.pop(Register::AF),
            0xF2 => {
                let c = !self.flags.sf;
                self.jp_cond(c);
            },
            0xF3 => self.interrupt(false),
            0xF4 => {
                let c = !self.flags.sf;
                self.call_cond(0xF4, c);
            },
            0xF5 => self.push(Register::AF),
            0xF6 => self.ori(),
            0xF7 => self.rst(6),
            0xF8 => {
                let c = self.flags.sf;
                self.ret_cond(c);
            },
            0xF9 => self.sphl(),
            0xFA => {
                let c = self.flags.sf;
                self.jp_cond(c);
            },
            0xFB => self.interrupt(true),
            0xFC => {
                let c = self.flags.sf;
                self.call_cond(0xFC, c);
            },
            0xFE => self.cp(),
            0xFF => self.rst(7),
            _ => vstd::pervasive::unreached(),
        }
    }

    /// Resolves a 0xCB-prefixed bit instruction.
    #[verifier::rlimit(100)]
    #[verifier::spinoff_prover]
    fn decode_bits(&mut self) -> (r: Result<(), CoreError>)
        requires
            old(self).wf(),
        ensures
            final(self).wf(),
            !(r == Result::<(), CoreError>::Err(CoreError::Halt)),
            ({
                let b2 = old(self).memory.ram@[old(self).reg.pc.wrapping_add(1) as int];
                let c2 = prefixed(*old(self), (0xCB00 + b2 as int) as u16);
                &&& ((r matches Err(CoreError::Decode(_))) <==> !cb_defined(b2))
                &&& (r is Err ==> final(self).memory == old(self).memory)
                &&& (r is Ok ==> ({
                    &&& (b2 == 0x03 ==> rlc_rel(c2, *final(self), Register::E))
                    &&& (b2 == 0x08 ==> rrc_rel(c2, *final(self), Register::B))
                }))
            }),
    {
        let b2 = self.memory.read8(self.reg.pc.wrapping_add(1));
        self.opcode = 0xCB00u16 + b2 as u16;
        self.bump_r();
        proof {
            assert(*self == prefixed(*old(self), (0xCB00 + b2 as int) as u16));
        }
        match b2 {
            0x03 => self.rlc(Register::E),
            0x08 => self.rrc(Register::B),
            _ => {
                return Err(CoreError::Decode(self.opcode));
            },
        }
        Ok(())
    }

    /// Resolves a 0xDD-prefixed IX instruction.
    #[verifier::rlimit(100)]
    #[verifier::spinoff_prover]
    fn decode_index_x(&mut self) -> (r: Result<(), CoreError>)
        requires
            old(self).wf(),
        ensures
            final(self).wf(),
            !(r == Result::<(), CoreError>::Err(CoreError::Halt)),
            ({
                let b2 = old(self).memory.ram@[old(self).reg.pc.wrapping_add(1) as int];
                let c2 = prefixed_meta(*old(self), (0xDD00 + b2 as int) as u16);
                &&& ((r matches Err(CoreError::Decode(_))) <==> !dd_defined(b2))
                &&& (r is Err ==> final(self).memory == old(self).memory)
                &&& (r is Ok ==> ({
                    &&& (b2 == 0x19 ==> add_ex_rel(c2, *final(self), Register::IX, Register::DE))
                    &&& (b2 == 0x21 ==> ld_idx_imm_rel(c2, *final(self), Register::IX))
                    &&& (b2 == 0x22 ==> st_idx_rel(c2, *final(self), Register::IX))
                    &&& (b2 == 0x23 ==> inx_rel(c2, *final(self), Register::IX))
                    &&& (b2 == 0x77 ==> ld_dd_rel(c2, *final(self), Register::IX, Register::A))
                    &&& (b2 == 0x7E ==> ld_a_idx_rel(c2, *final(self), Register::IX))
                    &&& (b2 == 0xE1 ==> pop_rel(c2, *final(self), Register::IX))
                    &&& (b2 == 0xE5 ==> push_rel(c2, *final(self), Register::IX))
                    &&& (b2 == 0xE9 ==> jp_idx_rel(c2, *final(self), Register::IX))
                }))
            }),
    {
        let b2 = self.memory.read8(self.reg.pc.wrapping_add(1));
        self.opcode = 0xDD00u16 + b2 as u16;
        self.bump_r();
        self.instruction = Instruction::decode(self.opcode);
        proof {
            assert(*self == prefixed_meta(*old(self), (0xDD00 + b2 as int) as u16));
        }
        match b2 {
            0x19 => self.add_ex(Register::IX, Register::DE),
            0x21 => {
                let w = self.memory.read16(self.reg.pc.wrapping_add(2));
                self.write_pair_direct(Register::IX, w);
                self.adv_cycles(14);
                self.adv_pc(4);
            },
            0x22 => {
                let ptr = self.memory.read16(self.reg.pc.wrapping_add(2));
                let ix = self.reg.ix;
                self.memory.write16(ptr, ix);
                self.adv_cycles(20);
                self.adv_pc(4);
            },
            0x23 => self.inx(Register::IX),
            0x77 => self.ld_dd(Register::IX, Register::A),
            0x7E => {
                let d = self.memory.read8(self.reg.pc.wrapping_add(2));
                let off: u16 = if d >= 0x80 { 0xFF00u16 + d as u16 } else { d as u16 };
                let addr = self.reg.ix.wrapping_add(off);
                self.reg.a = self.memory.read8(addr);
                self.adv_cycles(19);
                self.adv_pc(3);
            },
            0xE1 => self.pop(Register::IX),
            0xE5 => self.push(Register::IX),
            0xE9 => {
                self.instruction.cycles = 8;
                let t = self.reg.ix;
                self.jp(t);
            },
            _ => {
                return Err(CoreError::Decode(self.opcode));
            },
        }
        Ok(())
    }

    /// Resolves a 0xED-prefixed extended instruction.
    #[verifier::rlimit(100)]
    #[verifier::spinoff_prover]
    fn decode_extended(&mut self) -> (r: Result<(), CoreError>)
        requires
            old(self).wf(),
        ensures
            final(self).wf(),
            !(r == Result::<(), CoreError>::Err(CoreError::Halt)),
            ({
                let b2 = old(self).memory.ram@[old(self).reg.pc.wrapping_add(1) as int];
                let c2 = prefixed(*old(self), (0xED00 + b2 as int) as u16);
                &&& ((r matches Err(CoreError::Decode(_))) <==> !ed_defined(b2))
                &&& (r is Err ==> final(self).memory == old(self).memory)
                &&& (r is Ok ==> ({
                    &&& (b2 == 0x43 ==> ld_nn_rel(c2, *final(self), Register::BC))
                    &&& (b2 == 0x46 ==> set_interrupt_mode_rel(c2, *final(self), 0))
                    &&& (b2 == 0x47 ==> ld_rel(c2, *final(self), Register::I, Register::A))
                    &&& (b2 == 0x4A ==> adc_hl_rel(c2, *final(self), Register::BC))
                    &&& (b2 == 0x4B ==> load_indirect_rel(c2, *final(self), Register::BC))
                    &&& (b2 == 0x4F ==> ld_rel(c2, *final(self), Register::R, Register::A))
                    &&& (b2 == 0x53 ==> ld_nn_rel(c2, *final(self), Register::DE))
                    &&& (b2 == 0x56 ==> set_interrupt_mode_rel(c2, *final(self), 1))
                    &&& (b2 == 0x57 ==> ld_rel(c2, *final(self), Register::A, Register::I))
                    &&& (b2 == 0x5A ==> adc_hl_rel(c2, *final(self), Register::DE))
                    &&& (b2 == 0x5B ==> load_indirect_rel(c2, *final(self), Register::DE))
                    &&& (b2 == 0x5F ==> ld_rel(c2, *final(self), Register::A, Register::R))
                    &&& (b2 == 0x63 ==> ld_nn_rel(c2, *final(self), Register::HL))
                    &&& (b2 == 0x66 ==> set_interrupt_mode_rel(c2, *final(self), 0))
                    &&& (b2 == 0x6A ==> adc_hl_rel(c2, *final(self), Register::HL))
                    &&& (b2 == 0x6B ==> load_indirect_rel(c2, *final(self), Register::HL))
                    &&& (b2 == 0x73 ==> ld_nn_rel(c2, *final(self), Register::SP))
                    &&& (b2 == 0x76 ==> set_interrupt_mode_rel(c2, *final(self), 1))
                    &&& (b2 == 0x7A ==> adc_hl_rel(c2, *final(self), Register::SP))
                    &&& (b2 == 0x7B ==> load_indirect_rel(c2, *final(self), Register::SP))
                    &&& (b2 == 0x7E ==> set_interrupt_mode_rel(c2, *final(self), 2))
                    &&& (b2 == 0xA0 ==> ldi_rel(c2, *final(self)))
                    &&& (b2 == 0xA1 ==> cpi_rel(c2, *final(self)))
                    &&& (b2 == 0xB0 ==> ldir_rel(c2, *final(self)))
                }))
            }),
    {
        let b2 = self.memory.read8(self.reg.pc.wrapping_add(1));
        self.opcode = 0xED00u16 + b2 as u16;
        self.bump_r();
        proof {
            assert(*self == prefixed(*old(self), (0xED00 + b2 as int) as u16));
        }
        match b2 {
            0x43 => self.ld_nn(Register::BC),
            0x46 => self.set_interrupt_mode(0),
            0x47 => self.ld(Register::I, Register::A),
            0x4A => self.adc_hl(Register::BC),
            0x4B => self.load_indirect(Register::BC),
            0x4F => self.ld(Register::R, Register::A),
            0x53 => self.ld_nn(Register::DE),
            0x56 => self.set_interrupt_mode(1),
            0x57 => self.ld(Register::A, Register::I),
            0x5A => self.adc_hl(Register::DE),
            0x5B => self.load_indirect(Register::DE),
            0x5F => self.ld(Register::A, Register::R),
            0x63 => self.ld_nn(Register::HL),
            0x66 => self.set_interrupt_mode(0),
            0x6A => self.adc_hl(Register::HL),
            0x6B => self.load_indirect(Register::HL),
            0x73 => self.ld_nn(Register::SP),
            0x76 => self.set_interrupt_mode(1),
            0x7A => self.adc_hl(Register::SP),
            0x7B => self.load_indirect(Register::SP),
            0x7E => self.set_interrupt_mode(2),
            0xA0 => self.ldi(),
            0xA1 => self.cpi(),
            0xB0 => self.ldir(),
            _ => {
                return Err(CoreError::Decode(self.opcode));
            },
        }
        Ok(())
    }

    /// Resolves a 0xFD-prefixed IY instruction.
    #[verifier::rlimit(100)]
    #[verifier::spinoff_prover]
    fn decode_index_y(&mut self) -> (r: Result<(), CoreError>)
        requires
            old(self).wf(),
        ensures
            final(self).wf(),
            !(r == Result::<(), CoreError>::Err(CoreError::Halt)),
            ({
                let b2 = old(self).memory.ram@[old(self).reg.pc.wrapping_add(1) as int];
                let c2 = prefixed_meta(*old(self), (0xFD00 + b2 as int) as u16);
                &&& ((r matches Err(CoreError::Decode(_))) <==> !fd_defined(b2))
                &&& (r is Err ==> final(self).memory == old(self).memory)
                &&& (r is Ok ==> ({
                    &&& (b2 == 0x21 ==> ld_idx_imm_rel(c2, *final(self), Register::IY))
                    &&& (b2 == 0x22 ==> st_idx_rel(c2, *final(self), Register::IY))
                    &&& (b2 == 0x23 ==> inx_rel(c2, *final(self), Register::IY))
                    &&& (b2 == 0x2B ==> dex_rel(c2, *final(self), Register::IY))
                    &&& (b2 == 0x7E ==> ld_a_idx_rel(c2, *final(self), Register::IY))
                    &&& (b2 == 0xE1 ==> pop_rel(c2, *final(self), Register::IY))
                    &&& (b2 == 0xE5 ==> push_rel(c2, *final(self), Register::IY))
                    &&& (b2 == 0xE9 ==> jp_idx_rel(c2, *final(self), Register::IY))
                }))
            }),
    {
        let b2 = self.memory.read8(self.reg.pc.wrapping_add(1));
        self.opcode = 0xFD00u16 + b2 as u16;
        self.bump_r();
        self.instruction = Instruction::decode(self.opcode);
        proof {
            assert(*self == prefixed_meta(*old(self), (0xFD00 + b2 as int) as u16));
        }
        match b2 {
            0x21 => {
                let w = self.memory.read16(self.reg.pc.wrapping_add(2));
                self.write_pair_direct(Register::IY, w);
                self.adv_cycles(14);
                self.adv_pc(4);
            },
            0x22 => {
                let ptr = self.memory.read16(self.reg.pc.wrapping_add(2));
                let iy = self.reg.iy;
                self.memory.write16(ptr, iy);
                self.adv_cycles(20);
                self.adv_pc(4);
            },
            0x23 => self.inx(Register::IY),
            0x2B => self.dex(Register::IY),
            0x7E => {
                let d = self.memory.read8(self.reg.pc.wrapping_add(2));
                let off: u16 = if d >= 0x80 { 0xFF00u16 + d as u16 } else { d as u16 };
                let addr = self.reg.iy.wrapping_add(off);
                self.reg.a = self.memory.read8(addr);
                self.adv_cycles(19);
                self.adv_pc(3);
            },
            0xE1 => self.pop(Register::IY),
            0xE5 => self.push(Register::IY),
            0xE9 => {
                self.instruction.cycles = 8;
                let t = self.reg.iy;
                self.jp(t);
            },
            _ => {
                return Err(CoreError::Decode(self.opcode));
            },
        }
        Ok(())
    }

    /// Executes the instruction the opcode names: resolves the four
    /// prefixes through their secondary tables, bumps the refresh
    /// counter once per opcode byte and once more per prefix byte, and
    /// dispatches.  HALT surfaces as its own status, and an opcode or
    /// prefixed-opcode combination outside the documented map is a
    /// decoder fault carrying the full prefixed opcode.
    #[verifier::rlimit(100)]
    #[verifier::spinoff_prover]
    pub fn decode(&mut self, opcode: u16) -> (r: Result<(), CoreError>)
        requires
            old(self).wf(),
        ensures
            final(self).wf(),
            (r == Result::<(), CoreError>::Err(CoreError::Halt)) <==> opcode == 0x76,
            ({
                let b2 = old(self).memory.ram@[old(self).reg.pc.wrapping_add(1) as int];
                (r matches Err(CoreError::Decode(_))) <==> (opcode > 0xFF || (opcode == 0xCB
                    && !cb_defined(b2)) || (opcode == 0xDD && !dd_defined(b2)) || (opcode == 0xED
                    && !ed_defined(b2)) || (opcode == 0xFD && !fd_defined(b2)))
            }),
            r is Err ==> final(self).memory == old(self).memory,
            r is Ok ==> dispatch_rel(*old(self), *final(self), opcode),
            opcode == 0x76 ==> halt_rel(*old(self), *final(self)),
    {
        if opcode > 0xFF {
            return Err(CoreError::Decode(opcode));
        }
        self.bump_r();
        proof {
            assert(*self == r_bumped(*old(self)));
        }
        let op: u8 = opcode as u8;
        match op {
            0x76 => {
                self.adv_cycles(7);
                return Err(CoreError::Halt);
            },
            0xCB => {
                return self.decode_bits();
            },
            0xDD => {
                return self.decode_index_x();
            },
            0xED => {
                return self.decode_extended();
            },
            0xFD => {
                return self.decode_index_y();
            },
            _ => {
                if op < 0x40 {
                    self.decode_base(op);
                } else if op < 0x80 {
                    self.decode_move(op);
                } else if op < 0xC0 {
                    self.decode_alu(op);
                } else {
                    self.decode_ctrl(op);
                }
            },
        }
        Ok(())
    }

    /// Executes exactly one instruction: fetches the byte at PC,
    /// resolves any prefix, dispatches, charges cycles and advances PC.
    pub fn execute(&mut self) -> (r: Result<(), CoreError>)
        requires
            old(self).wf(),
        ensures
            final(self).wf(),
            ({
                let b1 = old(self).memory.ram@[old(self).reg.pc as int];
                let b2 = old(self).memory.ram@[old(self).reg.pc.wrapping_add(1) as int];
                &&& ((r == Result::<(), CoreError>::Err(CoreError::Halt)) <==> b1 == 0x76)
                &&& ((r matches Err(CoreError::Decode(_))) <==> ((b1 == 0xCB && !cb_defined(b2))
                    || (b1 == 0xDD && !dd_defined(b2)) || (b1 == 0xED && !ed_defined(b2)) || (b1
                    == 0xFD && !fd_defined(b2))))
            }),
            r is Err ==> final(self).memory == old(self).memory,
            r is Ok ==> step_rel(*old(self), *final(self)),
            ({
                let b1 = old(self).memory.ram@[old(self).reg.pc as int];
                b1 == 0x76 ==> halt_rel(
                    Cpu {
                        opcode: b1 as u16,
                        instruction: instruction_meta(b1 as u16),
                        ..*old(self)
                    },
                    *final(self),
                )
            }),
    {
        self.fetch();
        let op = self.opcode;
        self.decode(op)
    }
}

} // verus!
