//! The specification of one decode-execute step.
//!
//! Each instruction handler's contract is restated here as a transition
//! relation between the context before and after the instruction, and
//! `dispatch_rel`/`step_rel` tie those relations to the opcode the engine
//! fetches.  `Cpu::decode` and `Cpu::execute` promise these relations on
//! their success path, so nothing is stated twice on trust: the verifier
//! checks that the handlers' contracts imply the relations.

use vstd::prelude::*;

use crate::bits::{
    add16, add16_carry, add8, add8_carry, bit1, bit3, bit5, half_add, half_add16, half_sub, hi8,
    lo8, ov_add, ov_add16, ov_sub, pair16, parity_of, sext16, sign16, sign8, sub8, sub8_borrow,
};
use crate::cpu::{
    alu_operand, flags_unpacked, pair_write, read8_val, reg8_write, same_aux, Cpu, Flags,
    Interrupt, Io, Registers,
};
use crate::instructions::Instruction;
use crate::ops::{daa_carry, daa_half, daa_result};
use crate::engine::r_bump;
use crate::instructions::{instruction_meta, is_main8, Register};
use crate::memory::{stack_push, stack_top, word_at, word_write};

verus! {

/// The context after the once-per-opcode-byte refresh-counter bump.
pub open spec fn r_bumped(c: Cpu) -> Cpu {
    Cpu { reg: (Registers { r: r_bump(c.reg.r), ..c.reg }), ..c }
}

/// The context after a prefix byte: the combined opcode is latched and
/// the refresh counter is bumped once more.
pub open spec fn prefixed(c: Cpu, op2: u16) -> Cpu {
    Cpu { opcode: op2, reg: (Registers { r: r_bump(c.reg.r), ..c.reg }), ..c }
}

/// As `prefixed`, with the metadata record of the combined opcode
/// latched as well (the index prefixes do this).
pub open spec fn prefixed_meta(c: Cpu, op2: u16) -> Cpu {
    Cpu {
        opcode: op2,
        instruction: instruction_meta(op2),
        reg: (Registers { r: r_bump(c.reg.r), ..c.reg }),
        ..c
    }
}

/// The state change of the documented HALT instruction: seven cycles are
/// charged and the program counter stays on the instruction, so the
/// processor idles there until an interrupt or a host decision.
pub open spec fn halt_rel(pre: Cpu, post: Cpu) -> bool {
    &&& post.reg == (Registers { r: r_bump(pre.reg.r), ..pre.reg })
    &&& post.flags == pre.flags
    &&& post.cycles == pre.cycles.wrapping_add(7)
    &&& post.memory == pre.memory
    &&& same_aux(pre, post)
}

/// LD IX/IY, **: the transition of the index-pair immediate load.
pub open spec fn ld_idx_imm_rel(pre: Cpu, post: Cpu, reg: Register) -> bool {
    let w = word_at(pre.memory.ram@, pre.reg.pc.wrapping_add(2));
    &&& post.reg == (Registers {
        pc: pre.reg.pc.wrapping_add(4),
        prev_pc: pre.reg.pc,
        ..pair_write(pre.reg, reg, w)
    })
    &&& post.flags == pre.flags
    &&& post.cycles == pre.cycles.wrapping_add(14)
    &&& post.memory == pre.memory
    &&& same_aux(pre, post)
}

/// LD (**), IX/IY: the transition of the index-pair direct store.
pub open spec fn st_idx_rel(pre: Cpu, post: Cpu, reg: Register) -> bool {
    let ptr = word_at(pre.memory.ram@, pre.reg.pc.wrapping_add(2));
    &&& post.reg == (Registers {
        pc: pre.reg.pc.wrapping_add(4),
        prev_pc: pre.reg.pc,
        ..pre.reg
    })
    &&& post.memory.ram@ == word_write(pre.memory.ram@, ptr, pre.pair_val(reg))
    &&& post.flags == pre.flags
    &&& post.cycles == pre.cycles.wrapping_add(20)
    &&& same_aux(pre, post)
}

/// LD A, (IX+*)/(IY+*): the transition of the displaced index load.
pub open spec fn ld_a_idx_rel(pre: Cpu, post: Cpu, reg: Register) -> bool {
    let d = pre.memory.ram@[pre.reg.pc.wrapping_add(2) as int];
    let addr = pre.pair_val(reg).wrapping_add(sext16(d));
    &&& post.reg == (Registers {
        a: pre.memory.ram@[addr as int],
        pc: pre.reg.pc.wrapping_add(3),
        prev_pc: pre.reg.pc,
        ..pre.reg
    })
    &&& post.flags == pre.flags
    &&& post.cycles == pre.cycles.wrapping_add(19)
    &&& post.memory == pre.memory
    &&& same_aux(pre, post)
}

/// JP (IX)/(IY): the transition of the index-register jump, eight cycles
/// charged through the latched metadata record.
pub open spec fn jp_idx_rel(pre: Cpu, post: Cpu, reg: Register) -> bool {
    &&& post.reg == (Registers {
        pc: pre.pair_val(reg),
        prev_pc: pre.reg.pc,
        ..pre.reg
    })
    &&& post.flags == pre.flags
    &&& post.cycles == pre.cycles.wrapping_add(8)
    &&& post.memory == pre.memory
    &&& post.io == pre.io
    &&& post.int == pre.int
    &&& post.int_pending == pre.int_pending
    &&& post.opcode == pre.opcode
    &&& post.instruction == (Instruction { cycles: 8, ..pre.instruction })
}

/// The state transition of the `nop` handler, as its contract states it.
pub open spec fn nop_rel(pre: Cpu, post: Cpu) -> bool {
    &&& (post.reg == (Registers {
        pc: pre.reg.pc.wrapping_add(1),
        prev_pc: pre.reg.pc,
        ..pre.reg
    }))
    &&& (post.flags == pre.flags)
    &&& (post.cycles == pre.cycles.wrapping_add(4))
    &&& (post.memory == pre.memory)
    &&& (same_aux(pre, post))
}

/// The state transition of the `scf` handler, as its contract states it.
pub open spec fn scf_rel(pre: Cpu, post: Cpu) -> bool {
    &&& (post.reg == (Registers {
        pc: pre.reg.pc.wrapping_add(1),
        prev_pc: pre.reg.pc,
        ..pre.reg
    }))
    &&& (post.flags == (Flags {
        cf: true,
        nf: false,
        hf: false,
        yf: bit5(pre.reg.a),
        xf: bit3(pre.reg.a),
        ..pre.flags
    }))
    &&& (post.cycles == pre.cycles.wrapping_add(4))
    &&& (post.memory == pre.memory)
    &&& (same_aux(pre, post))
}

/// The state transition of the `ccf` handler, as its contract states it.
pub open spec fn ccf_rel(pre: Cpu, post: Cpu) -> bool {
    &&& (post.reg == (Registers {
        pc: pre.reg.pc.wrapping_add(1),
        prev_pc: pre.reg.pc,
        ..pre.reg
    }))
    &&& (post.flags == (Flags {
        hf: pre.flags.cf,
        cf: !pre.flags.cf,
        nf: false,
        yf: bit5(pre.reg.a),
        xf: bit3(pre.reg.a),
        ..pre.flags
    }))
    &&& (post.cycles == pre.cycles.wrapping_add(4))
    &&& (post.memory == pre.memory)
    &&& (same_aux(pre, post))
}

/// The state transition of the `cpl` handler, as its contract states it.
pub open spec fn cpl_rel(pre: Cpu, post: Cpu) -> bool {
    &&& (post.reg == (Registers {
        a: (0xFF - pre.reg.a) as u8,
        pc: pre.reg.pc.wrapping_add(1),
        prev_pc: pre.reg.pc,
        ..pre.reg
    }))
    &&& (post.flags == (Flags {
        hf: true,
        nf: true,
        yf: bit5((0xFF - pre.reg.a) as u8),
        xf: bit3((0xFF - pre.reg.a) as u8),
        ..pre.flags
    }))
    &&& (post.cycles == pre.cycles.wrapping_add(4))
    &&& (post.memory == pre.memory)
    &&& (same_aux(pre, post))
}

/// The state transition of the `daa` handler, as its contract states it.
pub open spec fn daa_rel(pre: Cpu, post: Cpu) -> bool {
    &&& (post.reg == (Registers {
        a: daa_result(pre.flags, pre.reg.a),
        pc: pre.reg.pc.wrapping_add(1),
        prev_pc: pre.reg.pc,
        ..pre.reg
    }))
    &&& (post.flags == (Flags {
        sf: sign8(daa_result(pre.flags, pre.reg.a)),
        zf: daa_result(pre.flags, pre.reg.a) == 0,
        yf: bit5(daa_result(pre.flags, pre.reg.a)),
        hf: daa_half(pre.flags, pre.reg.a),
        xf: bit3(daa_result(pre.flags, pre.reg.a)),
        pf: parity_of(daa_result(pre.flags, pre.reg.a)),
        cf: daa_carry(pre.flags, pre.reg.a),
        ..pre.flags
    }))
    &&& (pre.flags.cf ==> post.flags.cf)
    &&& (post.cycles == pre.cycles.wrapping_add(4))
    &&& (post.memory == pre.memory)
    &&& (same_aux(pre, post))
}

/// The state transition of the `interrupt` handler, as its contract states it.
pub open spec fn interrupt_rel(pre: Cpu, post: Cpu, value: bool) -> bool {
    &&& (post.reg == (Registers {
        pc: pre.reg.pc.wrapping_add(1),
        prev_pc: pre.reg.pc,
        ..pre.reg
    }))
    &&& (post.flags == pre.flags)
    &&& (post.int == (Interrupt {
        int: value,
        iff1: pre.int.iff1 && value,
        iff2: pre.int.iff2 && value,
        ..pre.int
    }))
    &&& (post.cycles == pre.cycles.wrapping_add(4))
    &&& (post.memory == pre.memory)
    &&& (post.io == pre.io)
    &&& (post.int_pending == pre.int_pending)
    &&& (post.opcode == pre.opcode)
    &&& (post.instruction == pre.instruction)
}

/// The state transition of the `set_interrupt_mode` handler, as its contract states it.
pub open spec fn set_interrupt_mode_rel(pre: Cpu, post: Cpu, mode: u8) -> bool {
    &&& (post.reg == (Registers {
        pc: pre.reg.pc.wrapping_add(2),
        prev_pc: pre.reg.pc,
        ..pre.reg
    }))
    &&& (post.flags == pre.flags)
    &&& (post.int == (Interrupt { mode, ..pre.int }))
    &&& (post.cycles == pre.cycles.wrapping_add(8))
    &&& (post.memory == pre.memory)
    &&& (post.io == pre.io)
    &&& (post.int_pending == pre.int_pending)
    &&& (post.opcode == pre.opcode)
    &&& (post.instruction == pre.instruction)
}

/// The state transition of the `sphl` handler, as its contract states it.
pub open spec fn sphl_rel(pre: Cpu, post: Cpu) -> bool {
    &&& (post.reg == (Registers {
        sp: pair16(pre.reg.h, pre.reg.l),
        pc: pre.reg.pc.wrapping_add(1),
        prev_pc: pre.reg.pc,
        ..pre.reg
    }))
    &&& (post.flags == pre.flags)
    &&& (post.cycles == pre.cycles.wrapping_add(6))
    &&& (post.memory == pre.memory)
    &&& (same_aux(pre, post))
}

/// The state transition of the `in` handler, as its contract states it.
pub open spec fn in_rel(pre: Cpu, post: Cpu) -> bool {
    &&& (post.wf())
    &&& (post.reg == (Registers {
        a: 0xFFu8,
        pc: pre.reg.pc.wrapping_add(2),
        prev_pc: pre.reg.pc,
        ..pre.reg
    }))
    &&& (post.flags == pre.flags)
    &&& (post.io == (Io {
        port0: pre.memory.ram@[pre.reg.pc.wrapping_add(1) as int],
        ..pre.io
    }))
    &&& (post.cycles == pre.cycles.wrapping_add(11))
    &&& (post.memory == pre.memory)
    &&& (post.int == pre.int)
    &&& (post.int_pending == pre.int_pending)
    &&& (post.opcode == pre.opcode)
    &&& (post.instruction == pre.instruction)
}

/// The state transition of the `out` handler, as its contract states it.
pub open spec fn out_rel(pre: Cpu, post: Cpu) -> bool {
    &&& (post.wf())
    &&& (post.reg == (Registers {
        pc: pre.reg.pc.wrapping_add(2),
        prev_pc: pre.reg.pc,
        ..pre.reg
    }))
    &&& (post.flags == pre.flags)
    &&& (post.io == (Io {
        port0: pre.memory.ram@[pre.reg.pc.wrapping_add(1) as int],
        ..pre.io
    }))
    &&& (post.cycles == pre.cycles.wrapping_add(11))
    &&& (post.memory == pre.memory)
    &&& (post.int == pre.int)
    &&& (post.int_pending == pre.int_pending)
    &&& (post.opcode == pre.opcode)
    &&& (post.instruction == pre.instruction)
}

/// The state transition of the `add` handler, as its contract states it.
pub open spec fn add_rel(pre: Cpu, post: Cpu, reg: Register) -> bool {
    ({
        let a = pre.reg.a;
        let v = alu_operand(pre, reg);
        let r = add8(a, v, false);
        &&& post.reg == (Registers {
            a: r,
            pc: pre.reg.pc.wrapping_add(1),
            prev_pc: pre.reg.pc,
            ..pre.reg
        })
        &&& post.flags == (Flags {
            sf: sign8(r),
            zf: r == 0,
            yf: bit5(r),
            hf: half_add(a, v, false),
            xf: bit3(r),
            pf: ov_add(a, v, r),
            nf: false,
            cf: add8_carry(a, v, false),
            ..pre.flags
        })
        &&& post.cycles == pre.cycles.wrapping_add(
            if reg == Register::HL { 7int } else { 4int } as usize,
        )
        &&& post.memory == pre.memory
        &&& same_aux(pre, post)
        &&& post.wf()
    })
}

/// The state transition of the `adc` handler, as its contract states it.
pub open spec fn adc_rel(pre: Cpu, post: Cpu, reg: Register) -> bool {
    ({
        let a = pre.reg.a;
        let v = alu_operand(pre, reg);
        let cin = pre.flags.cf;
        let r = add8(a, v, cin);
        &&& post.reg == (Registers {
            a: r,
            pc: pre.reg.pc.wrapping_add(1),
            prev_pc: pre.reg.pc,
            ..pre.reg
        })
        &&& post.flags == (Flags {
            sf: sign8(r),
            zf: r == 0,
            yf: bit5(r),
            hf: half_add(a, v, cin),
            xf: bit3(r),
            pf: ov_add(a, v, r),
            nf: false,
            cf: add8_carry(a, v, cin),
            ..pre.flags
        })
        &&& post.cycles == pre.cycles.wrapping_add(
            if reg == Register::HL { 7int } else { 4int } as usize,
        )
        &&& post.memory == pre.memory
        &&& same_aux(pre, post)
        &&& post.wf()
    })
}

/// The state transition of the `adi` handler, as its contract states it.
pub open spec fn adi_rel(pre: Cpu, post: Cpu) -> bool {
    ({
        let a = pre.reg.a;
        let v = pre.memory.ram@[pre.reg.pc.wrapping_add(1) as int];
        let r = add8(a, v, false);
        &&& post.reg == (Registers {
            a: r,
            pc: pre.reg.pc.wrapping_add(2),
            prev_pc: pre.reg.pc,
            ..pre.reg
        })
        &&& post.flags == (Flags {
            sf: sign8(r),
            zf: r == 0,
            yf: bit5(r),
            hf: half_add(a, v, false),
            xf: bit3(r),
            pf: ov_add(a, v, r),
            nf: false,
            cf: add8_carry(a, v, false),
            ..pre.flags
        })
        &&& post.cycles == pre.cycles.wrapping_add(7)
        &&& post.memory == pre.memory
        &&& same_aux(pre, post)
        &&& post.wf()
    })
}

/// The state transition of the `adc_im` handler, as its contract states it.
pub open spec fn adc_im_rel(pre: Cpu, post: Cpu) -> bool {
    ({
        let a = pre.reg.a;
        let v = pre.memory.ram@[pre.reg.pc.wrapping_add(1) as int];
        let cin = pre.flags.cf;
        let r = add8(a, v, cin);
        &&& post.reg == (Registers {
            a: r,
            pc: pre.reg.pc.wrapping_add(2),
            prev_pc: pre.reg.pc,
            ..pre.reg
        })
        &&& post.flags == (Flags {
            sf: sign8(r),
            zf: r == 0,
            yf: bit5(r),
            hf: half_add(a, v, cin),
            xf: bit3(r),
            pf: ov_add(a, v, r),
            nf: false,
            cf: add8_carry(a, v, cin),
            ..pre.flags
        })
        &&& post.cycles == pre.cycles.wrapping_add(7)
        &&& post.memory == pre.memory
        &&& same_aux(pre, post)
        &&& post.wf()
    })
}

/// The state transition of the `sub` handler, as its contract states it.
pub open spec fn sub_rel(pre: Cpu, post: Cpu, reg: Register) -> bool {
    ({
        let a = pre.reg.a;
        let v = alu_operand(pre, reg);
        let r = sub8(a, v, false);
        &&& post.reg == (Registers {
            a: r,
            pc: pre.reg.pc.wrapping_add(1),
            prev_pc: pre.reg.pc,
            ..pre.reg
        })
        &&& post.flags == (Flags {
            sf: sign8(r),
            zf: r == 0,
            yf: bit5(v),
            hf: half_sub(a, v, false),
            xf: bit3(v),
            pf: ov_sub(a, v, r),
            nf: true,
            cf: sub8_borrow(a, v, false),
            ..pre.flags
        })
        &&& post.cycles == pre.cycles.wrapping_add(
            if reg == Register::HL { 7int } else { 4int } as usize,
        )
        &&& post.memory == pre.memory
        &&& same_aux(pre, post)
        &&& post.wf()
    })
}

/// The state transition of the `sbc` handler, as its contract states it.
pub open spec fn sbc_rel(pre: Cpu, post: Cpu, reg: Register) -> bool {
    ({
        let a = pre.reg.a;
        let v = alu_operand(pre, reg);
        let cin = pre.flags.cf;
        let r = sub8(a, v, cin);
        &&& post.reg == (Registers {
            a: r,
            pc: pre.reg.pc.wrapping_add(1),
            prev_pc: pre.reg.pc,
            ..pre.reg
        })
        &&& post.flags == (Flags {
            sf: sign8(r),
            zf: r == 0,
            yf: bit5(v),
            hf: half_sub(a, v, cin),
            xf: bit3(v),
            pf: ov_sub(a, v, r),
            nf: true,
            cf: sub8_borrow(a, v, cin),
            ..pre.flags
        })
        &&& post.cycles == pre.cycles.wrapping_add(
            if reg == Register::HL { 7int } else { 4int } as usize,
        )
        &&& post.memory == pre.memory
        &&& same_aux(pre, post)
        &&& post.wf()
    })
}

/// The state transition of the `sui` handler, as its contract states it.
pub open spec fn sui_rel(pre: Cpu, post: Cpu) -> bool {
    ({
        let a = pre.reg.a;
        let v = pre.memory.ram@[pre.reg.pc.wrapping_add(1) as int];
        let r = sub8(a, v, false);
        &&& post.reg == (Registers {
            a: r,
            pc: pre.reg.pc.wrapping_add(2),
            prev_pc: pre.reg.pc,
            ..pre.reg
        })
        &&& post.flags == (Flags {
            sf: sign8(r),
            zf: r == 0,
            yf: bit5(v),
            hf: half_sub(a, v, false),
            xf: bit3(v),
            pf: ov_sub(a, v, r),
            nf: true,
            cf: sub8_borrow(a, v, false),
            ..pre.flags
        })
        &&& post.cycles == pre.cycles.wrapping_add(7)
        &&& post.memory == pre.memory
        &&& same_aux(pre, post)
        &&& post.wf()
    })
}

/// The state transition of the `sbi` handler, as its contract states it.
pub open spec fn sbi_rel(pre: Cpu, post: Cpu) -> bool {
    ({
        let a = pre.reg.a;
        let v = pre.memory.ram@[pre.reg.pc.wrapping_add(1) as int];
        let cin = pre.flags.cf;
        let r = sub8(a, v, cin);
        &&& post.reg == (Registers {
            a: r,
            pc: pre.reg.pc.wrapping_add(2),
            prev_pc: pre.reg.pc,
            ..pre.reg
        })
        &&& post.flags == (Flags {
            sf: sign8(r),
            zf: r == 0,
            yf: bit5(v),
            hf: half_sub(a, v, cin),
            xf: bit3(v),
            pf: ov_sub(a, v, r),
            nf: true,
            cf: sub8_borrow(a, v, cin),
            ..pre.flags
        })
        &&& post.cycles == pre.cycles.wrapping_add(7)
        &&& post.memory == pre.memory
        &&& same_aux(pre, post)
        &&& post.wf()
    })
}

/// The state transition of the `ana` handler, as its contract states it.
pub open spec fn ana_rel(pre: Cpu, post: Cpu, reg: Register) -> bool {
    ({
        let a = pre.reg.a;
        let v = alu_operand(pre, reg);
        let r = (a & v);
        &&& post.reg == (Registers {
            a: r,
            pc: pre.reg.pc.wrapping_add(1),
            prev_pc: pre.reg.pc,
            ..pre.reg
        })
        &&& post.flags == (Flags {
            sf: sign8(r),
            zf: r == 0,
            yf: bit5(r),
            hf: true,
            xf: bit3(r),
            pf: parity_of(r),
            nf: false,
            cf: false,
            ..pre.flags
        })
        &&& post.cycles == pre.cycles.wrapping_add(
            if reg == Register::HL { 7int } else { 4int } as usize,
        )
        &&& post.memory == pre.memory
        &&& same_aux(pre, post)
        &&& post.wf()
    })
}

/// The state transition of the `ani` handler, as its contract states it.
pub open spec fn ani_rel(pre: Cpu, post: Cpu) -> bool {
    ({
        let a = pre.reg.a;
        let v = pre.memory.ram@[pre.reg.pc.wrapping_add(1) as int];
        let r = (a & v);
        &&& post.reg == (Registers {
            a: r,
            pc: pre.reg.pc.wrapping_add(2),
            prev_pc: pre.reg.pc,
            ..pre.reg
        })
        &&& post.flags == (Flags {
            sf: sign8(r),
            zf: r == 0,
            yf: bit5(r),
            hf: true,
            xf: bit3(r),
            pf: parity_of(r),
            nf: false,
            cf: false,
            ..pre.flags
        })
        &&& post.cycles == pre.cycles.wrapping_add(7)
        &&& post.memory == pre.memory
        &&& same_aux(pre, post)
        &&& post.wf()
    })
}

/// The state transition of the `xra` handler, as its contract states it.
pub open spec fn xra_rel(pre: Cpu, post: Cpu, reg: Register) -> bool {
    ({
        let a = pre.reg.a;
        let v = alu_operand(pre, reg);
        let r = (a ^ v);
        &&& post.reg == (Registers {
            a: r,
            pc: pre.reg.pc.wrapping_add(1),
            prev_pc: pre.reg.pc,
            ..pre.reg
        })
        &&& post.flags == (Flags {
            sf: sign8(r),
            zf: r == 0,
            yf: bit5(r),
            hf: false,
            xf: bit3(r),
            pf: parity_of(r),
            nf: false,
            cf: false,
            ..pre.flags
        })
        &&& post.cycles == pre.cycles.wrapping_add(
            if reg == Register::HL { 7int } else { 4int } as usize,
        )
        &&& post.memory == pre.memory
        &&& same_aux(pre, post)
        &&& post.wf()
    })
}

/// The state transition of the `xri` handler, as its contract states it.
pub open spec fn xri_rel(pre: Cpu, post: Cpu) -> bool {
    ({
        let a = pre.reg.a;
        let v = pre.memory.ram@[pre.reg.pc.wrapping_add(1) as int];
        let r = (a ^ v);
        &&& post.reg == (Registers {
            a: r,
            pc: pre.reg.pc.wrapping_add(2),
            prev_pc: pre.reg.pc,
            ..pre.reg
        })
        &&& post.flags == (Flags {
            sf: sign8(r),
            zf: r == 0,
            yf: bit5(r),
            hf: false,
            xf: bit3(r),
            pf: parity_of(r),
            nf: false,
            cf: false,
            ..pre.flags
        })
        &&& post.cycles == pre.cycles.wrapping_add(7)
        &&& post.memory == pre.memory
        &&& same_aux(pre, post)
        &&& post.wf()
    })
}

/// The state transition of the `ora` handler, as its contract states it.
pub open spec fn ora_rel(pre: Cpu, post: Cpu, reg: Register) -> bool {
    ({
        let a = pre.reg.a;
        let v = alu_operand(pre, reg);
        let r = (a | v);
        &&& post.reg == (Registers {
            a: r,
            pc: pre.reg.pc.wrapping_add(1),
            prev_pc: pre.reg.pc,
            ..pre.reg
        })
        &&& post.flags == (Flags {
            sf: sign8(r),
            zf: r == 0,
            yf: bit5(r),
            hf: false,
            xf: bit3(r),
            pf: parity_of(r),
            nf: false,
            cf: false,
            ..pre.flags
        })
        &&& post.cycles == pre.cycles.wrapping_add(
            if reg == Register::HL { 7int } else { 4int } as usize,
        )
        &&& post.memory == pre.memory
        &&& same_aux(pre, post)
        &&& post.wf()
    })
}

/// The state transition of the `ori` handler, as its contract states it.
pub open spec fn ori_rel(pre: Cpu, post: Cpu) -> bool {
    ({
        let a = pre.reg.a;
        let v = pre.memory.ram@[pre.reg.pc.wrapping_add(1) as int];
        let r = (a | v);
        &&& post.reg == (Registers {
            a: r,
            pc: pre.reg.pc.wrapping_add(2),
            prev_pc: pre.reg.pc,
            ..pre.reg
        })
        &&& post.flags == (Flags {
            sf: sign8(r),
            zf: r == 0,
            yf: bit5(r),
            hf: false,
            xf: bit3(r),
            pf: parity_of(r),
            nf: false,
            cf: false,
            ..pre.flags
        })
        &&& post.cycles == pre.cycles.wrapping_add(7)
        &&& post.memory == pre.memory
        &&& same_aux(pre, post)
        &&& post.wf()
    })
}

/// The state transition of the `cmp` handler, as its contract states it.
pub open spec fn cmp_rel(pre: Cpu, post: Cpu, reg: Register) -> bool {
    ({
        let a = pre.reg.a;
        let v = alu_operand(pre, reg);
        let r = sub8(a, v, false);
        &&& post.reg == (Registers {
            pc: pre.reg.pc.wrapping_add(1),
            prev_pc: pre.reg.pc,
            ..pre.reg
        })
        &&& post.flags == (Flags {
            sf: sign8(r),
            zf: r == 0,
            yf: bit5(v),
            hf: half_sub(a, v, false),
            xf: bit3(v),
            pf: ov_sub(a, v, r),
            nf: true,
            cf: sub8_borrow(a, v, false),
            ..pre.flags
        })
        &&& post.cycles == pre.cycles.wrapping_add(
            if reg == Register::HL { 7int } else { 4int } as usize,
        )
        &&& post.memory == pre.memory
        &&& same_aux(pre, post)
        &&& post.wf()
    })
}

/// The state transition of the `cp` handler, as its contract states it.
pub open spec fn cp_rel(pre: Cpu, post: Cpu) -> bool {
    ({
        let a = pre.reg.a;
        let v = pre.memory.ram@[pre.reg.pc.wrapping_add(1) as int];
        let r = sub8(a, v, false);
        &&& post.reg == (Registers {
            pc: pre.reg.pc.wrapping_add(2),
            prev_pc: pre.reg.pc,
            ..pre.reg
        })
        &&& post.flags == (Flags {
            sf: sign8(r),
            zf: r == 0,
            yf: bit5(v),
            hf: half_sub(a, v, false),
            xf: bit3(v),
            pf: ov_sub(a, v, r),
            nf: true,
            cf: sub8_borrow(a, v, false),
            ..pre.flags
        })
        &&& post.cycles == pre.cycles.wrapping_add(7)
        &&& post.memory == pre.memory
        &&& same_aux(pre, post)
        &&& post.wf()
    })
}

/// The state transition of the `inc` handler, as its contract states it.
pub open spec fn inc_rel(pre: Cpu, post: Cpu, reg: Register) -> bool {
    ({
        let v = alu_operand(pre, reg);
        let r = add8(v, 1, false);
        let hl = pair16(pre.reg.h, pre.reg.l);
        &&& post.reg == (Registers {
            pc: pre.reg.pc.wrapping_add(1),
            prev_pc: pre.reg.pc,
            ..(if reg == Register::HL {
                pre.reg
            } else {
                reg8_write(pre.reg, reg, r)
            })
        })
        &&& post.memory.ram@ == (if reg == Register::HL {
            pre.memory.ram@.update(hl as int, r)
        } else {
            pre.memory.ram@
        })
        &&& post.flags == (Flags {
            sf: sign8(r),
            zf: r == 0,
            yf: bit5(r),
            hf: half_add(v, 1, false),
            xf: bit3(r),
            pf: r == 0x80,
            nf: false,
            ..pre.flags
        })
        &&& post.cycles == pre.cycles.wrapping_add(
            if reg == Register::HL { 11int } else { 4int } as usize,
        )
        &&& same_aux(pre, post)
        &&& post.wf()
    })
}

/// The state transition of the `dec` handler, as its contract states it.
pub open spec fn dec_rel(pre: Cpu, post: Cpu, reg: Register) -> bool {
    ({
        let v = alu_operand(pre, reg);
        let r = sub8(v, 1, false);
        let hl = pair16(pre.reg.h, pre.reg.l);
        &&& post.reg == (Registers {
            pc: pre.reg.pc.wrapping_add(1),
            prev_pc: pre.reg.pc,
            ..(if reg == Register::HL {
                pre.reg
            } else {
                reg8_write(pre.reg, reg, r)
            })
        })
        &&& post.memory.ram@ == (if reg == Register::HL {
            pre.memory.ram@.update(hl as int, r)
        } else {
            pre.memory.ram@
        })
        &&& post.flags == (Flags {
            sf: sign8(r),
            zf: r == 0,
            yf: bit5(r),
            hf: half_sub(v, 1, false),
            xf: bit3(r),
            pf: r == 0x7F,
            nf: true,
            ..pre.flags
        })
        &&& post.cycles == pre.cycles.wrapping_add(
            if reg == Register::HL { 11int } else { 4int } as usize,
        )
        &&& same_aux(pre, post)
        &&& post.wf()
    })
}

/// The state transition of the `rlca` handler, as its contract states it.
pub open spec fn rlca_rel(pre: Cpu, post: Cpu) -> bool {
    ({
        let a = pre.reg.a;
        let r = ((a % 0x80) * 2 + (if a >= 0x80 { 1int } else { 0int })) as u8;
        &&& post.reg == (Registers {
            a: r,
            pc: pre.reg.pc.wrapping_add(1),
            prev_pc: pre.reg.pc,
            ..pre.reg
        })
        &&& post.flags == (Flags {
            cf: a >= 0x80,
            nf: false,
            hf: false,
            yf: bit5(r),
            xf: bit3(r),
            ..pre.flags
        })
        &&& post.cycles == pre.cycles.wrapping_add(4)
        &&& post.memory == pre.memory
        &&& same_aux(pre, post)
    })
}

/// The state transition of the `rrca` handler, as its contract states it.
pub open spec fn rrca_rel(pre: Cpu, post: Cpu) -> bool {
    ({
        let a = pre.reg.a;
        let r = ((a / 2) + (if a % 2 == 1 { 0x80int } else { 0int })) as u8;
        &&& post.reg == (Registers {
            a: r,
            pc: pre.reg.pc.wrapping_add(1),
            prev_pc: pre.reg.pc,
            ..pre.reg
        })
        &&& post.flags == (Flags {
            cf: a % 2 == 1,
            nf: false,
            hf: false,
            yf: bit5(r),
            xf: bit3(r),
            ..pre.flags
        })
        &&& post.cycles == pre.cycles.wrapping_add(4)
        &&& post.memory == pre.memory
        &&& same_aux(pre, post)
    })
}

/// The state transition of the `rla` handler, as its contract states it.
pub open spec fn rla_rel(pre: Cpu, post: Cpu) -> bool {
    ({
        let a = pre.reg.a;
        let r = ((a % 0x80) * 2 + (if pre.flags.cf { 1int } else { 0int })) as u8;
        &&& post.reg == (Registers {
            a: r,
            pc: pre.reg.pc.wrapping_add(1),
            prev_pc: pre.reg.pc,
            ..pre.reg
        })
        &&& post.flags == (Flags {
            cf: a >= 0x80,
            nf: false,
            hf: false,
            yf: bit5(r),
            xf: bit3(r),
            ..pre.flags
        })
        &&& post.cycles == pre.cycles.wrapping_add(4)
        &&& post.memory == pre.memory
        &&& same_aux(pre, post)
    })
}

/// The state transition of the `rra` handler, as its contract states it.
pub open spec fn rra_rel(pre: Cpu, post: Cpu) -> bool {
    ({
        let a = pre.reg.a;
        let r = ((a / 2) + (if pre.flags.cf { 0x80int } else { 0int })) as u8;
        &&& post.reg == (Registers {
            a: r,
            pc: pre.reg.pc.wrapping_add(1),
            prev_pc: pre.reg.pc,
            ..pre.reg
        })
        &&& post.flags == (Flags {
            cf: a % 2 == 1,
            nf: false,
            hf: false,
            yf: bit5(r),
            xf: bit3(r),
            ..pre.flags
        })
        &&& post.cycles == pre.cycles.wrapping_add(4)
        &&& post.memory == pre.memory
        &&& same_aux(pre, post)
    })
}

/// The state transition of the `rlc` handler, as its contract states it.
pub open spec fn rlc_rel(pre: Cpu, post: Cpu, reg: Register) -> bool {
    ({
        let v = read8_val(pre, reg);
        let r = ((v % 0x80) * 2 + (if v >= 0x80 { 1int } else { 0int })) as u8;
        &&& post.reg == (Registers {
            pc: pre.reg.pc.wrapping_add(2),
            prev_pc: pre.reg.pc,
            ..reg8_write(pre.reg, reg, r)
        })
        &&& post.flags == (Flags {
            sf: sign8(r),
            zf: r == 0,
            yf: bit5(r),
            hf: false,
            xf: bit3(r),
            pf: parity_of(r),
            nf: false,
            cf: v >= 0x80,
            ..pre.flags
        })
        &&& post.cycles == pre.cycles.wrapping_add(8)
        &&& post.memory == pre.memory
        &&& same_aux(pre, post)
    })
}

/// The state transition of the `rrc` handler, as its contract states it.
pub open spec fn rrc_rel(pre: Cpu, post: Cpu, reg: Register) -> bool {
    ({
        let v = read8_val(pre, reg);
        let r = ((v / 2) + (if v % 2 == 1 { 0x80int } else { 0int })) as u8;
        &&& post.reg == (Registers {
            pc: pre.reg.pc.wrapping_add(2),
            prev_pc: pre.reg.pc,
            ..reg8_write(pre.reg, reg, r)
        })
        &&& post.flags == (Flags {
            sf: sign8(r),
            zf: r == 0,
            yf: bit5(r),
            hf: false,
            xf: bit3(r),
            pf: parity_of(r),
            nf: false,
            cf: v % 2 == 1,
            ..pre.flags
        })
        &&& post.cycles == pre.cycles.wrapping_add(8)
        &&& post.memory == pre.memory
        &&& same_aux(pre, post)
    })
}

/// The state transition of the `add_hl` handler, as its contract states it.
pub open spec fn add_hl_rel(pre: Cpu, post: Cpu, reg: Register) -> bool {
    ({
        let hl = pair16(pre.reg.h, pre.reg.l);
        let op = pre.pair_val(reg);
        let r = add16(hl, op, false);
        &&& post.reg == (Registers {
            h: hi8(r),
            l: lo8(r),
            pc: pre.reg.pc.wrapping_add(1),
            prev_pc: pre.reg.pc,
            ..pre.reg
        })
        &&& post.flags == (Flags {
            cf: add16_carry(hl, op, false),
            hf: half_add16(hl, op, false),
            nf: false,
            yf: bit5(hi8(r)),
            xf: bit3(hi8(r)),
            ..pre.flags
        })
        &&& post.cycles == pre.cycles.wrapping_add(11)
        &&& post.memory == pre.memory
        &&& same_aux(pre, post)
    })
}

/// The state transition of the `adc_hl` handler, as its contract states it.
pub open spec fn adc_hl_rel(pre: Cpu, post: Cpu, reg: Register) -> bool {
    ({
        let hl = pair16(pre.reg.h, pre.reg.l);
        let op = pre.pair_val(reg);
        let cin = pre.flags.cf;
        let r = add16(hl, op, cin);
        &&& post.reg == (Registers {
            h: hi8(r),
            l: lo8(r),
            pc: pre.reg.pc.wrapping_add(2),
            prev_pc: pre.reg.pc,
            ..pre.reg
        })
        &&& post.flags == (Flags {
            sf: sign16(r),
            zf: r == 0,
            yf: bit5(hi8(r)),
            hf: half_add16(hl, op, cin),
            xf: bit3(hi8(r)),
            pf: ov_add16(hl, op, r),
            nf: false,
            cf: add16_carry(hl, op, cin),
            ..pre.flags
        })
        &&& post.cycles == pre.cycles.wrapping_add(15)
        &&& post.memory == pre.memory
        &&& same_aux(pre, post)
    })
}

/// The state transition of the `add_ex` handler, as its contract states it.
pub open spec fn add_ex_rel(pre: Cpu, post: Cpu, dst: Register, src: Register) -> bool {
    ({
        let d = pre.pair_val(dst);
        let op = pre.pair_val(src);
        let r = add16(d, op, false);
        &&& post.reg == (Registers {
            pc: pre.reg.pc.wrapping_add(2),
            prev_pc: pre.reg.pc,
            ..pair_write(pre.reg, dst, r)
        })
        &&& post.flags == (Flags {
            cf: add16_carry(d, op, false),
            hf: half_add16(d, op, false),
            nf: false,
            yf: bit5(hi8(r)),
            xf: bit3(hi8(r)),
            ..pre.flags
        })
        &&& post.cycles == pre.cycles.wrapping_add(15)
        &&& post.memory == pre.memory
        &&& same_aux(pre, post)
    })
}

/// The state transition of the `inx` handler, as its contract states it.
pub open spec fn inx_rel(pre: Cpu, post: Cpu, reg: Register) -> bool {
    ({
        let r = pre.pair_val(reg).wrapping_add(1);
        let ixiy = reg == Register::IX || reg == Register::IY;
        &&& post.reg == (Registers {
            pc: pre.reg.pc.wrapping_add(if ixiy { 2int } else { 1int } as u16),
            prev_pc: pre.reg.pc,
            ..pair_write(pre.reg, reg, r)
        })
        &&& post.flags == pre.flags
        &&& post.cycles == pre.cycles.wrapping_add(
            if ixiy { 10int } else { 6int } as usize,
        )
        &&& post.memory == pre.memory
        &&& same_aux(pre, post)
    })
}

/// The state transition of the `dex` handler, as its contract states it.
pub open spec fn dex_rel(pre: Cpu, post: Cpu, reg: Register) -> bool {
    ({
        let r = pre.pair_val(reg).wrapping_sub(1);
        let ixiy = reg == Register::IX || reg == Register::IY;
        &&& post.reg == (Registers {
            pc: pre.reg.pc.wrapping_add(if ixiy { 2int } else { 1int } as u16),
            prev_pc: pre.reg.pc,
            ..pair_write(pre.reg, reg, r)
        })
        &&& post.flags == pre.flags
        &&& post.cycles == pre.cycles.wrapping_add(
            if ixiy { 10int } else { 6int } as usize,
        )
        &&& post.memory == pre.memory
        &&& same_aux(pre, post)
    })
}

/// The state transition of the `lxi` handler, as its contract states it.
pub open spec fn lxi_rel(pre: Cpu, post: Cpu, reg: Register) -> bool {
    ({
        let w = word_at(pre.memory.ram@, pre.reg.pc.wrapping_add(1));
        &&& post.reg == (Registers {
            pc: pre.reg.pc.wrapping_add(3),
            prev_pc: pre.reg.pc,
            ..pair_write(pre.reg, reg, w)
        })
        &&& post.flags == pre.flags
        &&& post.cycles == pre.cycles.wrapping_add(10)
        &&& post.memory == pre.memory
        &&& same_aux(pre, post)
        &&& post.wf()
    })
}

/// The state transition of the `mvi` handler, as its contract states it.
pub open spec fn mvi_rel(pre: Cpu, post: Cpu, reg: Register) -> bool {
    ({
        let v = pre.memory.ram@[pre.reg.pc.wrapping_add(1) as int];
        let hl = pair16(pre.reg.h, pre.reg.l);
        &&& post.reg == (Registers {
            pc: pre.reg.pc.wrapping_add(2),
            prev_pc: pre.reg.pc,
            ..(if reg == Register::HL {
                pre.reg
            } else {
                reg8_write(pre.reg, reg, v)
            })
        })
        &&& post.memory.ram@ == (if reg == Register::HL {
            pre.memory.ram@.update(hl as int, v)
        } else {
            pre.memory.ram@
        })
        &&& post.flags == pre.flags
        &&& post.cycles == pre.cycles.wrapping_add(
            if reg == Register::HL { 10int } else { 7int } as usize,
        )
        &&& same_aux(pre, post)
        &&& post.wf()
    })
}

/// The state transition of the `lda_im` handler, as its contract states it.
pub open spec fn lda_im_rel(pre: Cpu, post: Cpu) -> bool {
    ({
        let addr = word_at(pre.memory.ram@, pre.reg.pc.wrapping_add(1));
        &&& post.reg == (Registers {
            a: pre.memory.ram@[addr as int],
            pc: pre.reg.pc.wrapping_add(3),
            prev_pc: pre.reg.pc,
            ..pre.reg
        })
        &&& post.flags == pre.flags
        &&& post.cycles == pre.cycles.wrapping_add(13)
        &&& post.memory == pre.memory
        &&& same_aux(pre, post)
        &&& post.wf()
    })
}

/// The state transition of the `sta` handler, as its contract states it.
pub open spec fn sta_rel(pre: Cpu, post: Cpu) -> bool {
    ({
        let addr = word_at(pre.memory.ram@, pre.reg.pc.wrapping_add(1));
        &&& post.reg == (Registers {
            pc: pre.reg.pc.wrapping_add(3),
            prev_pc: pre.reg.pc,
            ..pre.reg
        })
        &&& post.memory.ram@ == pre.memory.ram@.update(
            addr as int,
            pre.reg.a,
        )
        &&& post.flags == pre.flags
        &&& post.cycles == pre.cycles.wrapping_add(13)
        &&& same_aux(pre, post)
        &&& post.wf()
    })
}

/// The state transition of the `stax` handler, as its contract states it.
pub open spec fn stax_rel(pre: Cpu, post: Cpu, reg: Register) -> bool {
    ({
        let addr = pre.pair_val(reg);
        &&& post.reg == (Registers {
            pc: pre.reg.pc.wrapping_add(1),
            prev_pc: pre.reg.pc,
            ..pre.reg
        })
        &&& post.memory.ram@ == pre.memory.ram@.update(
            addr as int,
            pre.reg.a,
        )
        &&& post.flags == pre.flags
        &&& post.cycles == pre.cycles.wrapping_add(7)
        &&& same_aux(pre, post)
        &&& post.wf()
    })
}

/// The state transition of the `ld_ex` handler, as its contract states it.
pub open spec fn ld_ex_rel(pre: Cpu, post: Cpu, reg: Register) -> bool {
    ({
        let addr = pre.pair_val(reg);
        &&& post.reg == (Registers {
            a: pre.memory.ram@[addr as int],
            pc: pre.reg.pc.wrapping_add(1),
            prev_pc: pre.reg.pc,
            ..pre.reg
        })
        &&& post.flags == pre.flags
        &&& post.cycles == pre.cycles.wrapping_add(7)
        &&& post.memory == pre.memory
        &&& same_aux(pre, post)
        &&& post.wf()
    })
}

/// The state transition of the `lhld` handler, as its contract states it.
pub open spec fn lhld_rel(pre: Cpu, post: Cpu) -> bool {
    ({
        let addr = word_at(pre.memory.ram@, pre.reg.pc.wrapping_add(1));
        let w = word_at(pre.memory.ram@, addr);
        &&& post.reg == (Registers {
            h: hi8(w),
            l: lo8(w),
            pc: pre.reg.pc.wrapping_add(3),
            prev_pc: pre.reg.pc,
            ..pre.reg
        })
        &&& post.flags == pre.flags
        &&& post.cycles == pre.cycles.wrapping_add(16)
        &&& post.memory == pre.memory
        &&& same_aux(pre, post)
        &&& post.wf()
    })
}

/// The state transition of the `shld` handler, as its contract states it.
pub open spec fn shld_rel(pre: Cpu, post: Cpu) -> bool {
    ({
        let addr = word_at(pre.memory.ram@, pre.reg.pc.wrapping_add(1));
        &&& post.reg == (Registers {
            pc: pre.reg.pc.wrapping_add(3),
            prev_pc: pre.reg.pc,
            ..pre.reg
        })
        &&& post.memory.ram@ == word_write(pre.memory.ram@, addr, pair16(
            pre.reg.h,
            pre.reg.l,
        ))
        &&& post.flags == pre.flags
        &&& post.cycles == pre.cycles.wrapping_add(16)
        &&& same_aux(pre, post)
        &&& post.wf()
    })
}

/// The state transition of the `ld_nn` handler, as its contract states it.
pub open spec fn ld_nn_rel(pre: Cpu, post: Cpu, reg: Register) -> bool {
    ({
        let ptr = word_at(pre.memory.ram@, pre.reg.pc.wrapping_add(2));
        &&& post.reg == (Registers {
            pc: pre.reg.pc.wrapping_add(4),
            prev_pc: pre.reg.pc,
            ..pre.reg
        })
        &&& post.memory.ram@ == word_write(pre.memory.ram@, ptr, pre.pair_val(reg))
        &&& post.flags == pre.flags
        &&& post.cycles == pre.cycles.wrapping_add(20)
        &&& same_aux(pre, post)
        &&& post.wf()
    })
}

/// The state transition of the `load_indirect` handler, as its contract states it.
pub open spec fn load_indirect_rel(pre: Cpu, post: Cpu, reg: Register) -> bool {
    ({
        let ptr = word_at(pre.memory.ram@, pre.reg.pc.wrapping_add(2));
        let w = word_at(pre.memory.ram@, ptr);
        &&& post.reg == (Registers {
            pc: pre.reg.pc.wrapping_add(4),
            prev_pc: pre.reg.pc,
            ..pair_write(pre.reg, reg, w)
        })
        &&& post.flags == pre.flags
        &&& post.cycles == pre.cycles.wrapping_add(20)
        &&& post.memory == pre.memory
        &&& same_aux(pre, post)
        &&& post.wf()
    })
}

/// The state transition of the `ld_dd` handler, as its contract states it.
pub open spec fn ld_dd_rel(pre: Cpu, post: Cpu, dst: Register, src: Register) -> bool {
    ({
        let d = pre.memory.ram@[pre.reg.pc.wrapping_add(2) as int];
        let addr = pre.pair_val(dst).wrapping_add(sext16(d));
        &&& post.reg == (Registers {
            pc: pre.reg.pc.wrapping_add(3),
            prev_pc: pre.reg.pc,
            ..pre.reg
        })
        &&& post.memory.ram@ == pre.memory.ram@.update(
            addr as int,
            pre.reg.a,
        )
        &&& post.flags == pre.flags
        &&& post.cycles == pre.cycles.wrapping_add(19)
        &&& same_aux(pre, post)
        &&& post.wf()
    })
}

/// The state transition of the `ld` handler, as its contract states it.
pub open spec fn ld_rel(pre: Cpu, post: Cpu, dst: Register, src: Register) -> bool {
    &&& (is_main8(dst) && is_main8(src) ==> ({
        &&& post.reg == (Registers {
            pc: pre.reg.pc.wrapping_add(1),
            prev_pc: pre.reg.pc,
            ..reg8_write(pre.reg, dst, read8_val(pre, src))
        })
        &&& post.flags == pre.flags
        &&& post.cycles == pre.cycles.wrapping_add(4)
        &&& post.memory == pre.memory
    }))
    &&& (is_main8(dst) && src == Register::HL ==> ({
        let hl = pair16(pre.reg.h, pre.reg.l);
        &&& post.reg == (Registers {
            pc: pre.reg.pc.wrapping_add(1),
            prev_pc: pre.reg.pc,
            ..reg8_write(pre.reg, dst, pre.memory.ram@[hl as int])
        })
        &&& post.flags == pre.flags
        &&& post.cycles == pre.cycles.wrapping_add(7)
        &&& post.memory == pre.memory
    }))
    &&& (dst == Register::HL ==> ({
        let hl = pair16(pre.reg.h, pre.reg.l);
        &&& post.reg == (Registers {
            pc: pre.reg.pc.wrapping_add(1),
            prev_pc: pre.reg.pc,
            ..pre.reg
        })
        &&& post.memory.ram@ == pre.memory.ram@.update(
            hl as int,
            read8_val(pre, src),
        )
        &&& post.flags == pre.flags
        &&& post.cycles == pre.cycles.wrapping_add(7)
    }))
    &&& (dst == Register::A && (src == Register::I || src == Register::R) ==> ({
        let v = read8_val(pre, src);
        &&& post.reg == (Registers {
            a: v,
            pc: pre.reg.pc.wrapping_add(2),
            prev_pc: pre.reg.pc,
            ..pre.reg
        })
        &&& post.flags == (Flags {
            sf: sign8(v),
            zf: v == 0,
            yf: bit5(v),
            hf: false,
            xf: bit3(v),
            pf: pre.int.iff2,
            nf: false,
            ..pre.flags
        })
        &&& post.cycles == pre.cycles.wrapping_add(9)
        &&& post.memory == pre.memory
    }))
    &&& ((dst == Register::I || dst == Register::R) && src == Register::A ==> ({
        &&& post.reg == (Registers {
            pc: pre.reg.pc.wrapping_add(2),
            prev_pc: pre.reg.pc,
            ..reg8_write(pre.reg, dst, pre.reg.a)
        })
        &&& post.flags == pre.flags
        &&& post.cycles == pre.cycles.wrapping_add(9)
        &&& post.memory == pre.memory
    }))
    &&& (same_aux(pre, post))
    &&& (post.wf())
}

/// The state transition of the `ex_de_hl` handler, as its contract states it.
pub open spec fn ex_de_hl_rel(pre: Cpu, post: Cpu) -> bool {
    &&& (post.reg == (Registers {
        d: pre.reg.h,
        e: pre.reg.l,
        h: pre.reg.d,
        l: pre.reg.e,
        pc: pre.reg.pc.wrapping_add(1),
        prev_pc: pre.reg.pc,
        ..pre.reg
    }))
    &&& (post.flags == pre.flags)
    &&& (post.cycles == pre.cycles.wrapping_add(4))
    &&& (post.memory == pre.memory)
    &&& (same_aux(pre, post))
}

/// The state transition of the `exx` handler, as its contract states it.
pub open spec fn exx_rel(pre: Cpu, post: Cpu) -> bool {
    &&& (post.reg == (Registers {
        b: pre.reg.b_,
        c: pre.reg.c_,
        d: pre.reg.d_,
        e: pre.reg.e_,
        h: pre.reg.h_,
        l: pre.reg.l_,
        b_: pre.reg.b,
        c_: pre.reg.c,
        d_: pre.reg.d,
        e_: pre.reg.e,
        h_: pre.reg.h,
        l_: pre.reg.l,
        pc: pre.reg.pc.wrapping_add(1),
        prev_pc: pre.reg.pc,
        ..pre.reg
    }))
    &&& (post.flags == pre.flags)
    &&& (post.cycles == pre.cycles.wrapping_add(4))
    &&& (post.memory == pre.memory)
    &&& (same_aux(pre, post))
}

/// The state transition of the `ex_af_af` handler, as its contract states it.
pub open spec fn ex_af_af_rel(pre: Cpu, post: Cpu) -> bool {
    &&& (post.reg == (Registers {
        a: pre.reg.a_,
        a_: pre.reg.a,
        pc: pre.reg.pc.wrapping_add(1),
        prev_pc: pre.reg.pc,
        ..pre.reg
    }))
    &&& (post.flags == (Flags {
        sf: pre.flags.sf_,
        zf: pre.flags.zf_,
        yf: pre.flags.yf_,
        hf: pre.flags.hf_,
        xf: pre.flags.xf_,
        pf: pre.flags.pf_,
        nf: pre.flags.nf_,
        cf: pre.flags.cf_,
        sf_: pre.flags.sf,
        zf_: pre.flags.zf,
        yf_: pre.flags.yf,
        hf_: pre.flags.hf,
        xf_: pre.flags.xf,
        pf_: pre.flags.pf,
        nf_: pre.flags.nf,
        cf_: pre.flags.cf,
    }))
    &&& (post.cycles == pre.cycles.wrapping_add(4))
    &&& (post.memory == pre.memory)
    &&& (same_aux(pre, post))
}

/// The state transition of the `xthl` handler, as its contract states it.
pub open spec fn xthl_rel(pre: Cpu, post: Cpu) -> bool {
    ({
        let hl = pair16(pre.reg.h, pre.reg.l);
        let top = word_at(pre.memory.ram@, pre.reg.sp);
        &&& post.reg == (Registers {
            h: hi8(top),
            l: lo8(top),
            pc: pre.reg.pc.wrapping_add(1),
            prev_pc: pre.reg.pc,
            ..pre.reg
        })
        &&& post.memory.ram@ == word_write(pre.memory.ram@, pre.reg.sp, hl)
        &&& post.flags == pre.flags
        &&& post.cycles == pre.cycles.wrapping_add(19)
        &&& same_aux(pre, post)
        &&& post.wf()
    })
}

/// The state transition of the `push` handler, as its contract states it.
pub open spec fn push_rel(pre: Cpu, post: Cpu, reg: Register) -> bool {
    ({
        let w = pre.pair_val(reg);
        let ixiy = reg == Register::IX || reg == Register::IY;
        &&& post.memory.ram@ == stack_push(
            pre.memory.ram@,
            pre.reg.sp,
            w,
        ).0
        &&& post.reg == (Registers {
            sp: pre.reg.sp.wrapping_sub(2),
            pc: pre.reg.pc.wrapping_add(if ixiy { 2int } else { 1int } as u16),
            prev_pc: pre.reg.pc,
            ..pre.reg
        })
        &&& post.flags == pre.flags
        &&& post.cycles == pre.cycles.wrapping_add(
            if ixiy { 15int } else { 11int } as usize,
        )
        &&& same_aux(pre, post)
        &&& post.wf()
    })
}

/// The state transition of the `pop` handler, as its contract states it.
pub open spec fn pop_rel(pre: Cpu, post: Cpu, reg: Register) -> bool {
    ({
        let v = stack_top(pre.memory.ram@, pre.reg.sp);
        let ixiy = reg == Register::IX || reg == Register::IY;
        &&& post.reg == (Registers {
            sp: pre.reg.sp.wrapping_add(2),
            pc: pre.reg.pc.wrapping_add(if ixiy { 2int } else { 1int } as u16),
            prev_pc: pre.reg.pc,
            ..(if reg == Register::AF {
                Registers { a: hi8(v), ..pre.reg }
            } else {
                pair_write(pre.reg, reg, v)
            })
        })
        &&& post.flags == (if reg == Register::AF {
            flags_unpacked(pre.flags, lo8(v))
        } else {
            pre.flags
        })
        &&& post.cycles == pre.cycles.wrapping_add(
            if ixiy { 14int } else { 10int } as usize,
        )
        &&& post.memory == pre.memory
        &&& same_aux(pre, post)
        &&& post.wf()
    })
}

/// The state transition of the `ldi` handler, as its contract states it.
pub open spec fn ldi_rel(pre: Cpu, post: Cpu) -> bool {
    ({
        let hl = pair16(pre.reg.h, pre.reg.l);
        let de = pair16(pre.reg.d, pre.reg.e);
        let bc = pair16(pre.reg.b, pre.reg.c);
        let byte = pre.memory.ram@[hl as int];
        let hl1 = hl.wrapping_add(1);
        let de1 = de.wrapping_add(1);
        let bc1 = bc.wrapping_sub(1);
        let n = add8(byte, pre.reg.a, false);
        &&& post.reg == (Registers {
            h: hi8(hl1),
            l: lo8(hl1),
            d: hi8(de1),
            e: lo8(de1),
            b: hi8(bc1),
            c: lo8(bc1),
            pc: pre.reg.pc.wrapping_add(2),
            prev_pc: pre.reg.pc,
            ..pre.reg
        })
        &&& post.memory.ram@ == pre.memory.ram@.update(de as int, byte)
        &&& post.flags == (Flags {
            pf: bc1 != 0,
            nf: false,
            hf: false,
            yf: bit1(n),
            xf: bit3(n),
            ..pre.flags
        })
        &&& post.cycles == pre.cycles.wrapping_add(16)
        &&& same_aux(pre, post)
        &&& post.wf()
    })
}

/// The state transition of the `ldir` handler, as its contract states it.
pub open spec fn ldir_rel(pre: Cpu, post: Cpu) -> bool {
    ({
        let hl = pair16(pre.reg.h, pre.reg.l);
        let de = pair16(pre.reg.d, pre.reg.e);
        let bc = pair16(pre.reg.b, pre.reg.c);
        let byte = pre.memory.ram@[hl as int];
        let hl1 = hl.wrapping_add(1);
        let de1 = de.wrapping_add(1);
        let bc1 = bc.wrapping_sub(1);
        let n = add8(byte, pre.reg.a, false);
        &&& post.reg == (Registers {
            h: hi8(hl1),
            l: lo8(hl1),
            d: hi8(de1),
            e: lo8(de1),
            b: hi8(bc1),
            c: lo8(bc1),
            pc: if bc1 == 0 {
                pre.reg.pc.wrapping_add(2)
            } else {
                pre.reg.pc
            },
            prev_pc: if bc1 == 0 {
                pre.reg.pc
            } else {
                pre.reg.pc.wrapping_add(2)
            },
            ..pre.reg
        })
        &&& post.memory.ram@ == pre.memory.ram@.update(de as int, byte)
        &&& post.flags == (Flags {
            pf: bc1 != 0,
            nf: false,
            hf: false,
            yf: bit1(n),
            xf: bit3(n),
            ..pre.flags
        })
        &&& post.cycles == pre.cycles.wrapping_add(
            if bc1 == 0 { 16int } else { 21int } as usize,
        )
        &&& same_aux(pre, post)
        &&& post.wf()
    })
}

/// The state transition of the `cpi` handler, as its contract states it.
pub open spec fn cpi_rel(pre: Cpu, post: Cpu) -> bool {
    ({
        let hl = pair16(pre.reg.h, pre.reg.l);
        let bc = pair16(pre.reg.b, pre.reg.c);
        let v = pre.memory.ram@[hl as int];
        let a = pre.reg.a;
        let r = sub8(a, v, false);
        let hf = half_sub(a, v, false);
        let n = sub8(r, if hf { 1 } else { 0 }, false);
        let hl1 = hl.wrapping_add(1);
        let bc1 = bc.wrapping_sub(1);
        &&& post.reg == (Registers {
            h: hi8(hl1),
            l: lo8(hl1),
            b: hi8(bc1),
            c: lo8(bc1),
            pc: pre.reg.pc.wrapping_add(2),
            prev_pc: pre.reg.pc,
            ..pre.reg
        })
        &&& post.flags == (Flags {
            sf: sign8(r),
            zf: r == 0,
            yf: bit1(n),
            hf: hf,
            xf: bit3(n),
            pf: bc1 != 0,
            nf: true,
            ..pre.flags
        })
        &&& post.cycles == pre.cycles.wrapping_add(16)
        &&& post.memory == pre.memory
        &&& same_aux(pre, post)
        &&& post.wf()
    })
}

/// The state transition of the `jp_cond` handler, as its contract states it.
pub open spec fn jp_cond_rel(pre: Cpu, post: Cpu, cond: bool) -> bool {
    ({
        let target = word_at(pre.memory.ram@, pre.reg.pc.wrapping_add(1));
        &&& post.reg == (Registers {
            pc: if cond {
                target
            } else {
                pre.reg.pc.wrapping_add(3)
            },
            prev_pc: pre.reg.pc,
            ..pre.reg
        })
        &&& post.flags == pre.flags
        &&& post.cycles == pre.cycles.wrapping_add(10)
        &&& post.memory == pre.memory
        &&& same_aux(pre, post)
        &&& post.wf()
    })
}

/// The state transition of the `jr_cond` handler, as its contract states it.
pub open spec fn jr_cond_rel(pre: Cpu, post: Cpu, cond: bool) -> bool {
    ({
        let d = pre.memory.ram@[pre.reg.pc.wrapping_add(1) as int];
        &&& post.reg == (Registers {
            pc: if cond {
                pre.reg.pc.wrapping_add(2).wrapping_add(sext16(d))
            } else {
                pre.reg.pc.wrapping_add(2)
            },
            prev_pc: if cond {
                pre.reg.pc.wrapping_add(2)
            } else {
                pre.reg.pc
            },
            ..pre.reg
        })
        &&& post.flags == pre.flags
        &&& post.cycles == pre.cycles.wrapping_add(
            if cond { 12int } else { 7int } as usize,
        )
        &&& post.memory == pre.memory
        &&& same_aux(pre, post)
        &&& post.wf()
    })
}

/// The state transition of the `djnz` handler, as its contract states it.
pub open spec fn djnz_rel(pre: Cpu, post: Cpu) -> bool {
    ({
        let b1 = sub8(pre.reg.b, 1, false);
        let d = pre.memory.ram@[pre.reg.pc.wrapping_add(1) as int];
        &&& post.reg == (Registers {
            b: b1,
            pc: if b1 != 0 {
                pre.reg.pc.wrapping_add(2).wrapping_add(sext16(d))
            } else {
                pre.reg.pc.wrapping_add(2)
            },
            prev_pc: if b1 != 0 {
                pre.reg.pc.wrapping_add(2)
            } else {
                pre.reg.pc
            },
            ..pre.reg
        })
        &&& post.flags == pre.flags
        &&& post.cycles == pre.cycles.wrapping_add(
            if b1 != 0 { 13int } else { 8int } as usize,
        )
        &&& post.memory == pre.memory
        &&& same_aux(pre, post)
        &&& post.wf()
    })
}

/// The state transition of the `pchl` handler, as its contract states it.
pub open spec fn pchl_rel(pre: Cpu, post: Cpu) -> bool {
    &&& (post.reg == (Registers {
        pc: pair16(pre.reg.h, pre.reg.l),
        prev_pc: pre.reg.pc,
        ..pre.reg
    }))
    &&& (post.flags == pre.flags)
    &&& (post.cycles == pre.cycles.wrapping_add(4))
    &&& (post.memory == pre.memory)
    &&& (same_aux(pre, post))
}

/// The state transition of the `call` handler, as its contract states it.
pub open spec fn call_rel(pre: Cpu, post: Cpu) -> bool {
    ({
        let ret = pre.reg.pc.wrapping_add(3);
        let (m1, sp1) = stack_push(pre.memory.ram@, pre.reg.sp, ret);
        &&& post.memory.ram@ == m1
        &&& post.reg == (Registers {
            sp: sp1,
            pc: word_at(m1, pre.reg.pc.wrapping_add(1)),
            prev_pc: pre.reg.pc,
            ..pre.reg
        })
        &&& post.flags == pre.flags
        &&& post.cycles == pre.cycles.wrapping_add(17)
        &&& same_aux(pre, post)
        &&& post.wf()
    })
}

/// The state transition of the `call_cond` handler, as its contract states it.
pub open spec fn call_cond_rel(pre: Cpu, post: Cpu, cond: bool) -> bool {
    ({
        let ret = pre.reg.pc.wrapping_add(3);
        let (m1, sp1) = stack_push(pre.memory.ram@, pre.reg.sp, ret);
        &&& post.memory.ram@ == (if cond {
            m1
        } else {
            pre.memory.ram@
        })
        &&& post.reg == (if cond {
            Registers {
                sp: sp1,
                pc: word_at(m1, pre.reg.pc.wrapping_add(1)),
                prev_pc: pre.reg.pc,
                ..pre.reg
            }
        } else {
            Registers {
                pc: pre.reg.pc.wrapping_add(3),
                prev_pc: pre.reg.pc,
                ..pre.reg
            }
        })
        &&& post.flags == pre.flags
        &&& post.cycles == pre.cycles.wrapping_add(
            if cond { 17int } else { 10int } as usize,
        )
        &&& same_aux(pre, post)
        &&& post.wf()
    })
}

/// The state transition of the `ret` handler, as its contract states it.
pub open spec fn ret_rel(pre: Cpu, post: Cpu) -> bool {
    ({
        let t = stack_top(pre.memory.ram@, pre.reg.sp);
        &&& post.reg == (Registers {
            pc: t,
            sp: pre.reg.sp.wrapping_add(2),
            prev_pc: pre.reg.pc,
            ..pre.reg
        })
        &&& post.flags == pre.flags
        &&& post.cycles == pre.cycles.wrapping_add(10)
        &&& post.memory == pre.memory
        &&& same_aux(pre, post)
        &&& post.wf()
    })
}

/// The state transition of the `ret_cond` handler, as its contract states it.
pub open spec fn ret_cond_rel(pre: Cpu, post: Cpu, cond: bool) -> bool {
    ({
        let t = stack_top(pre.memory.ram@, pre.reg.sp);
        &&& post.reg == (if cond {
            Registers {
                pc: t,
                sp: pre.reg.sp.wrapping_add(2),
                prev_pc: pre.reg.pc,
                ..pre.reg
            }
        } else {
            Registers {
                pc: pre.reg.pc.wrapping_add(1),
                prev_pc: pre.reg.pc,
                ..pre.reg
            }
        })
        &&& post.flags == pre.flags
        &&& post.cycles == pre.cycles.wrapping_add(
            if cond { 11int } else { 5int } as usize,
        )
        &&& post.memory == pre.memory
        &&& same_aux(pre, post)
        &&& post.wf()
    })
}

/// The state transition of the `rst` handler, as its contract states it.
pub open spec fn rst_rel(pre: Cpu, post: Cpu, value: u8) -> bool {
    ({
        let ret = pre.reg.pc.wrapping_add(1);
        let (m1, sp1) = stack_push(pre.memory.ram@, pre.reg.sp, ret);
        &&& post.memory.ram@ == m1
        &&& post.reg == (Registers {
            sp: sp1,
            pc: (value * 8) as u16,
            prev_pc: pre.reg.pc,
            ..pre.reg
        })
        &&& post.flags == pre.flags
        &&& post.cycles == pre.cycles.wrapping_add(11)
        &&& same_aux(pre, post)
        &&& post.wf()
    })
}

/// The transition of the miscellaneous opcodes 0x00..0x3F, keyed on the
/// opcode, from the state after the refresh-counter bump.
pub open spec fn base_rel(pre: Cpu, post: Cpu, op: u8) -> bool {
    match op {
        0x00 => nop_rel(pre, post),
        0x01 => lxi_rel(pre, post, Register::BC),
        0x02 => stax_rel(pre, post, Register::BC),
        0x03 => inx_rel(pre, post, Register::BC),
        0x04 => inc_rel(pre, post, Register::B),
        0x05 => dec_rel(pre, post, Register::B),
        0x06 => mvi_rel(pre, post, Register::B),
        0x07 => rlca_rel(pre, post),
        0x08 => ex_af_af_rel(pre, post),
        0x09 => add_hl_rel(pre, post, Register::BC),
        0x0A => ld_ex_rel(pre, post, Register::BC),
        0x0B => dex_rel(pre, post, Register::BC),
        0x0C => inc_rel(pre, post, Register::C),
        0x0D => dec_rel(pre, post, Register::C),
        0x0E => mvi_rel(pre, post, Register::C),
        0x0F => rrca_rel(pre, post),
        0x10 => djnz_rel(pre, post),
        0x11 => lxi_rel(pre, post, Register::DE),
        0x12 => stax_rel(pre, post, Register::DE),
        0x13 => inx_rel(pre, post, Register::DE),
        0x14 => inc_rel(pre, post, Register::D),
        0x15 => dec_rel(pre, post, Register::D),
        0x16 => mvi_rel(pre, post, Register::D),
        0x17 => rla_rel(pre, post),
        0x18 => jr_cond_rel(pre, post, true),
        0x19 => add_hl_rel(pre, post, Register::DE),
        0x1A => ld_ex_rel(pre, post, Register::DE),
        0x1B => dex_rel(pre, post, Register::DE),
        0x1C => inc_rel(pre, post, Register::E),
        0x1D => dec_rel(pre, post, Register::E),
        0x1E => mvi_rel(pre, post, Register::E),
        0x1F => rra_rel(pre, post),
        0x20 => jr_cond_rel(pre, post, !pre.flags.zf),
        0x21 => lxi_rel(pre, post, Register::HL),
        0x22 => shld_rel(pre, post),
        0x23 => inx_rel(pre, post, Register::HL),
        0x24 => inc_rel(pre, post, Register::H),
        0x25 => dec_rel(pre, post, Register::H),
        0x26 => mvi_rel(pre, post, Register::H),
        0x27 => daa_rel(pre, post),
        0x28 => jr_cond_rel(pre, post, pre.flags.zf),
        0x29 => add_hl_rel(pre, post, Register::HL),
        0x2A => lhld_rel(pre, post),
        0x2B => dex_rel(pre, post, Register::HL),
        0x2C => inc_rel(pre, post, Register::L),
        0x2D => dec_rel(pre, post, Register::L),
        0x2E => mvi_rel(pre, post, Register::L),
        0x2F => cpl_rel(pre, post),
        0x30 => jr_cond_rel(pre, post, !pre.flags.cf),
        0x31 => lxi_rel(pre, post, Register::SP),
        0x32 => sta_rel(pre, post),
        0x33 => inx_rel(pre, post, Register::SP),
        0x34 => inc_rel(pre, post, Register::HL),
        0x35 => dec_rel(pre, post, Register::HL),
        0x36 => mvi_rel(pre, post, Register::HL),
        0x37 => scf_rel(pre, post),
        0x38 => jr_cond_rel(pre, post, pre.flags.cf),
        0x39 => add_hl_rel(pre, post, Register::SP),
        0x3A => lda_im_rel(pre, post),
        0x3B => dex_rel(pre, post, Register::SP),
        0x3C => inc_rel(pre, post, Register::A),
        0x3D => dec_rel(pre, post, Register::A),
        0x3E => mvi_rel(pre, post, Register::A),
        0x3F => ccf_rel(pre, post),
        _ => true,
    }
}

/// The transition of the register-move opcodes 0x40..0x7F (HALT aside).
pub open spec fn move_rel(pre: Cpu, post: Cpu, op: u8) -> bool {
    match op {
        0x40 => ld_rel(pre, post, Register::B, Register::B),
        0x41 => ld_rel(pre, post, Register::B, Register::C),
        0x42 => ld_rel(pre, post, Register::B, Register::D),
        0x43 => ld_rel(pre, post, Register::B, Register::E),
        0x44 => ld_rel(pre, post, Register::B, Register::H),
        0x45 => ld_rel(pre, post, Register::B, Register::L),
        0x46 => ld_rel(pre, post, Register::B, Register::HL),
        0x47 => ld_rel(pre, post, Register::B, Register::A),
        0x48 => ld_rel(pre, post, Register::C, Register::B),
        0x49 => ld_rel(pre, post, Register::C, Register::C),
        0x4A => ld_rel(pre, post, Register::C, Register::D),
        0x4B => ld_rel(pre, post, Register::C, Register::E),
        0x4C => ld_rel(pre, post, Register::C, Register::H),
        0x4D => ld_rel(pre, post, Register::C, Register::L),
        0x4E => ld_rel(pre, post, Register::C, Register::HL),
        0x4F => ld_rel(pre, post, Register::C, Register::A),
        0x50 => ld_rel(pre, post, Register::D, Register::B),
        0x51 => ld_rel(pre, post, Register::D, Register::C),
        0x52 => ld_rel(pre, post, Register::D, Register::D),
        0x53 => ld_rel(pre, post, Register::D, Register::E),
        0x54 => ld_rel(pre, post, Register::D, Register::H),
        0x55 => ld_rel(pre, post, Register::D, Register::L),
        0x56 => ld_rel(pre, post, Register::D, Register::HL),
        0x57 => ld_rel(pre, post, Register::D, Register::A),
        0x58 => ld_rel(pre, post, Register::E, Register::B),
        0x59 => ld_rel(pre, post, Register::E, Register::C),
        0x5A => ld_rel(pre, post, Register::E, Register::D),
        0x5B => ld_rel(pre, post, Register::E, Register::E),
        0x5C => ld_rel(pre, post, Register::E, Register::H),
        0x5D => ld_rel(pre, post, Register::E, Register::L),
        0x5E => ld_rel(pre, post, Register::E, Register::HL),
        0x5F => ld_rel(pre, post, Register::E, Register::A),
        0x60 => ld_rel(pre, post, Register::H, Register::B),
        0x61 => ld_rel(pre, post, Register::H, Register::C),
        0x62 => ld_rel(pre, post, Register::H, Register::D),
        0x63 => ld_rel(pre, post, Register::H, Register::E),
        0x64 => ld_rel(pre, post, Register::H, Register::H),
        0x65 => ld_rel(pre, post, Register::H, Register::L),
        0x66 => ld_rel(pre, post, Register::H, Register::HL),
        0x67 => ld_rel(pre, post, Register::H, Register::A),
        0x68 => ld_rel(pre, post, Register::L, Register::B),
        0x69 => ld_rel(pre, post, Register::L, Register::C),
        0x6A => ld_rel(pre, post, Register::L, Register::D),
        0x6B => ld_rel(pre, post, Register::L, Register::E),
        0x6C => ld_rel(pre, post, Register::L, Register::H),
        0x6D => ld_rel(pre, post, Register::L, Register::L),
        0x6E => ld_rel(pre, post, Register::L, Register::HL),
        0x6F => ld_rel(pre, post, Register::L, Register::A),
        0x70 => ld_rel(pre, post, Register::HL, Register::B),
        0x71 => ld_rel(pre, post, Register::HL, Register::C),
        0x72 => ld_rel(pre, post, Register::HL, Register::D),
        0x73 => ld_rel(pre, post, Register::HL, Register::E),
        0x74 => ld_rel(pre, post, Register::HL, Register::H),
        0x75 => ld_rel(pre, post, Register::HL, Register::L),
        0x77 => ld_rel(pre, post, Register::HL, Register::A),
        0x78 => ld_rel(pre, post, Register::A, Register::B),
        0x79 => ld_rel(pre, post, Register::A, Register::C),
        0x7A => ld_rel(pre, post, Register::A, Register::D),
        0x7B => ld_rel(pre, post, Register::A, Register::E),
        0x7C => ld_rel(pre, post, Register::A, Register::H),
        0x7D => ld_rel(pre, post, Register::A, Register::L),
        0x7E => ld_ex_rel(pre, post, Register::HL),
        0x7F => ld_rel(pre, post, Register::A, Register::A),
        _ => true,
    }
}

/// The transition of the 8-bit ALU opcodes 0x80..0xBF.
pub open spec fn alu_rel(pre: Cpu, post: Cpu, op: u8) -> bool {
    match op {
        0x80 => add_rel(pre, post, Register::B),
        0x81 => add_rel(pre, post, Register::C),
        0x82 => add_rel(pre, post, Register::D),
        0x83 => add_rel(pre, post, Register::E),
        0x84 => add_rel(pre, post, Register::H),
        0x85 => add_rel(pre, post, Register::L),
        0x86 => add_rel(pre, post, Register::HL),
        0x87 => add_rel(pre, post, Register::A),
        0x88 => adc_rel(pre, post, Register::B),
        0x89 => adc_rel(pre, post, Register::C),
        0x8A => adc_rel(pre, post, Register::D),
        0x8B => adc_rel(pre, post, Register::E),
        0x8C => adc_rel(pre, post, Register::H),
        0x8D => adc_rel(pre, post, Register::L),
        0x8E => adc_rel(pre, post, Register::HL),
        0x8F => adc_rel(pre, post, Register::A),
        0x90 => sub_rel(pre, post, Register::B),
        0x91 => sub_rel(pre, post, Register::C),
        0x92 => sub_rel(pre, post, Register::D),
        0x93 => sub_rel(pre, post, Register::E),
        0x94 => sub_rel(pre, post, Register::H),
        0x95 => sub_rel(pre, post, Register::L),
        0x96 => sub_rel(pre, post, Register::HL),
        0x97 => sub_rel(pre, post, Register::A),
        0x98 => sbc_rel(pre, post, Register::B),
        0x99 => sbc_rel(pre, post, Register::C),
        0x9A => sbc_rel(pre, post, Register::D),
        0x9B => sbc_rel(pre, post, Register::E),
        0x9C => sbc_rel(pre, post, Register::H),
        0x9D => sbc_rel(pre, post, Register::L),
        0x9E => sbc_rel(pre, post, Register::HL),
        0x9F => sbc_rel(pre, post, Register::A),
        0xA0 => ana_rel(pre, post, Register::B),
        0xA1 => ana_rel(pre, post, Register::C),
        0xA2 => ana_rel(pre, post, Register::D),
        0xA3 => ana_rel(pre, post, Register::E),
        0xA4 => ana_rel(pre, post, Register::H),
        0xA5 => ana_rel(pre, post, Register::L),
        0xA6 => ana_rel(pre, post, Register::HL),
        0xA7 => ana_rel(pre, post, Register::A),
        0xA8 => xra_rel(pre, post, Register::B),
        0xA9 => xra_rel(pre, post, Register::C),
        0xAA => xra_rel(pre, post, Register::D),
        0xAB => xra_rel(pre, post, Register::E),
        0xAC => xra_rel(pre, post, Register::H),
        0xAD => xra_rel(pre, post, Register::L),
        0xAE => xra_rel(pre, post, Register::HL),
        0xAF => xra_rel(pre, post, Register::A),
        0xB0 => ora_rel(pre, post, Register::B),
        0xB1 => ora_rel(pre, post, Register::C),
        0xB2 => ora_rel(pre, post, Register::D),
        0xB3 => ora_rel(pre, post, Register::E),
        0xB4 => ora_rel(pre, post, Register::H),
        0xB5 => ora_rel(pre, post, Register::L),
        0xB6 => ora_rel(pre, post, Register::HL),
        0xB7 => ora_rel(pre, post, Register::A),
        0xB8 => cmp_rel(pre, post, Register::B),
        0xB9 => cmp_rel(pre, post, Register::C),
        0xBA => cmp_rel(pre, post, Register::D),
        0xBB => cmp_rel(pre, post, Register::E),
        0xBC => cmp_rel(pre, post, Register::H),
        0xBD => cmp_rel(pre, post, Register::L),
        0xBE => cmp_rel(pre, post, Register::HL),
        0xBF => cmp_rel(pre, post, Register::A),
        _ => true,
    }
}

/// The transition of the control-flow and immediate opcodes 0xC0..0xFF
/// (the four prefix bytes aside).
pub open spec fn ctrl_rel(pre: Cpu, post: Cpu, op: u8) -> bool {
    match op {
        0xC0 => ret_cond_rel(pre, post, !pre.flags.zf),
        0xC1 => pop_rel(pre, post, Register::BC),
        0xC2 => jp_cond_rel(pre, post, !pre.flags.zf),
        0xC3 => jp_cond_rel(pre, post, true),
        0xC4 => call_cond_rel(pre, post, !pre.flags.zf),
        0xC5 => push_rel(pre, post, Register::BC),
        0xC6 => adi_rel(pre, post),
        0xC7 => rst_rel(pre, post, 0),
        0xC8 => ret_cond_rel(pre, post, pre.flags.zf),
        0xC9 => ret_rel(pre, post),
        0xCA => jp_cond_rel(pre, post, pre.flags.zf),
        0xCC => call_cond_rel(pre, post, pre.flags.zf),
        0xCD => call_rel(pre, post),
        0xCE => adc_im_rel(pre, post),
        0xCF => rst_rel(pre, post, 1),
        0xD0 => ret_cond_rel(pre, post, !pre.flags.cf),
        0xD1 => pop_rel(pre, post, Register::DE),
        0xD2 => jp_cond_rel(pre, post, !pre.flags.cf),
        0xD3 => out_rel(pre, post),
        0xD4 => call_cond_rel(pre, post, !pre.flags.cf),
        0xD5 => push_rel(pre, post, Register::DE),
        0xD6 => sui_rel(pre, post),
        0xD7 => rst_rel(pre, post, 2),
        0xD8 => ret_cond_rel(pre, post, pre.flags.cf),
        0xD9 => exx_rel(pre, post),
        0xDA => jp_cond_rel(pre, post, pre.flags.cf),
        0xDB => in_rel(pre, post),
        0xDC => call_cond_rel(pre, post, pre.flags.cf),
        0xDE => sbi_rel(pre, post),
        0xDF => rst_rel(pre, post, 3),
        0xE0 => ret_cond_rel(pre, post, !pre.flags.pf),
        0xE1 => pop_rel(pre, post, Register::HL),
        0xE2 => jp_cond_rel(pre, post, !pre.flags.pf),
        0xE3 => xthl_rel(pre, post),
        0xE4 => call_cond_rel(pre, post, !pre.flags.pf),
        0xE5 => push_rel(pre, post, Register::HL),
        0xE6 => ani_rel(pre, post),
        0xE7 => rst_rel(pre, post, 4),
        0xE8 => ret_cond_rel(pre, post, pre.flags.pf),
        0xE9 => pchl_rel(pre, post),
        0xEA => jp_cond_rel(pre, post, pre.flags.pf),
        0xEB => ex_de_hl_rel(pre, post),
        0xEC => call_cond_rel(pre, post, pre.flags.pf),
        0xEE => xri_rel(pre, post),
        0xEF => rst_rel(pre, post, 5),
        0xF0 => ret_cond_rel(pre, post, !pre.flags.sf),
        0xF1 => pop_rel(pre, post, Register::AF),
        0xF2 => jp_cond_rel(pre, post, !pre.flags.sf),
        0xF3 => interrupt_rel(pre, post, false),
        0xF4 => call_cond_rel(pre, post, !pre.flags.sf),
        0xF5 => push_rel(pre, post, Register::AF),
        0xF6 => ori_rel(pre, post),
        0xF7 => rst_rel(pre, post, 6),
        0xF8 => ret_cond_rel(pre, post, pre.flags.sf),
        0xF9 => sphl_rel(pre, post),
        0xFA => jp_cond_rel(pre, post, pre.flags.sf),
        0xFB => interrupt_rel(pre, post, true),
        0xFC => call_cond_rel(pre, post, pre.flags.sf),
        0xFE => cp_rel(pre, post),
        0xFF => rst_rel(pre, post, 7),
        _ => true,
    }
}

/// The transition the engine performs for an opcode that decodes
/// successfully: the refresh counter is bumped once per opcode byte and
/// once more per prefix byte, prefixes latch the combined opcode (and,
/// for the index prefixes, its metadata record), and the named handler
/// relation holds between the resolved context and the final state.
pub open spec fn dispatch_rel(pre: Cpu, post: Cpu, opcode: u16) -> bool {
    let c1 = r_bumped(pre);
    let b2 = pre.memory.ram@[pre.reg.pc.wrapping_add(1) as int];
    if opcode == 0xCB {
        let c2 = prefixed(c1, (0xCB00 + b2) as u16);
        &&& (b2 == 0x03 ==> rlc_rel(c2, post, Register::E))
        &&& (b2 == 0x08 ==> rrc_rel(c2, post, Register::B))
    } else if opcode == 0xDD {
        let c2 = prefixed_meta(c1, (0xDD00 + b2) as u16);
        &&& (b2 == 0x19 ==> add_ex_rel(c2, post, Register::IX, Register::DE))
        &&& (b2 == 0x21 ==> ld_idx_imm_rel(c2, post, Register::IX))
        &&& (b2 == 0x22 ==> st_idx_rel(c2, post, Register::IX))
        &&& (b2 == 0x23 ==> inx_rel(c2, post, Register::IX))
        &&& (b2 == 0x77 ==> ld_dd_rel(c2, post, Register::IX, Register::A))
        &&& (b2 == 0x7E ==> ld_a_idx_rel(c2, post, Register::IX))
        &&& (b2 == 0xE1 ==> pop_rel(c2, post, Register::IX))
        &&& (b2 == 0xE5 ==> push_rel(c2, post, Register::IX))
        &&& (b2 == 0xE9 ==> jp_idx_rel(c2, post, Register::IX))
    } else if opcode == 0xED {
        let c2 = prefixed(c1, (0xED00 + b2) as u16);
        &&& (b2 == 0x43 ==> ld_nn_rel(c2, post, Register::BC))
        &&& (b2 == 0x46 ==> set_interrupt_mode_rel(c2, post, 0))
        &&& (b2 == 0x47 ==> ld_rel(c2, post, Register::I, Register::A))
        &&& (b2 == 0x4A ==> adc_hl_rel(c2, post, Register::BC))
        &&& (b2 == 0x4B ==> load_indirect_rel(c2, post, Register::BC))
        &&& (b2 == 0x4F ==> ld_rel(c2, post, Register::R, Register::A))
        &&& (b2 == 0x53 ==> ld_nn_rel(c2, post, Register::DE))
        &&& (b2 == 0x56 ==> set_interrupt_mode_rel(c2, post, 1))
        &&& (b2 == 0x57 ==> ld_rel(c2, post, Register::A, Register::I))
        &&& (b2 == 0x5A ==> adc_hl_rel(c2, post, Register::DE))
        &&& (b2 == 0x5B ==> load_indirect_rel(c2, post, Register::DE))
        &&& (b2 == 0x5F ==> ld_rel(c2, post, Register::A, Register::R))
        &&& (b2 == 0x63 ==> ld_nn_rel(c2, post, Register::HL))
        &&& (b2 == 0x66 ==> set_interrupt_mode_rel(c2, post, 0))
        &&& (b2 == 0x6A ==> adc_hl_rel(c2, post, Register::HL))
        &&& (b2 == 0x6B ==> load_indirect_rel(c2, post, Register::HL))
        &&& (b2 == 0x73 ==> ld_nn_rel(c2, post, Register::SP))
        &&& (b2 == 0x76 ==> set_interrupt_mode_rel(c2, post, 1))
        &&& (b2 == 0x7A ==> adc_hl_rel(c2, post, Register::SP))
        &&& (b2 == 0x7B ==> load_indirect_rel(c2, post, Register::SP))
        &&& (b2 == 0x7E ==> set_interrupt_mode_rel(c2, post, 2))
        &&& (b2 == 0xA0 ==> ldi_rel(c2, post))
        &&& (b2 == 0xA1 ==> cpi_rel(c2, post))
        &&& (b2 == 0xB0 ==> ldir_rel(c2, post))
    } else if opcode == 0xFD {
        let c2 = prefixed_meta(c1, (0xFD00 + b2) as u16);
        &&& (b2 == 0x21 ==> ld_idx_imm_rel(c2, post, Register::IY))
        &&& (b2 == 0x22 ==> st_idx_rel(c2, post, Register::IY))
        &&& (b2 == 0x23 ==> inx_rel(c2, post, Register::IY))
        &&& (b2 == 0x2B ==> dex_rel(c2, post, Register::IY))
        &&& (b2 == 0x7E ==> ld_a_idx_rel(c2, post, Register::IY))
        &&& (b2 == 0xE1 ==> pop_rel(c2, post, Register::IY))
        &&& (b2 == 0xE5 ==> push_rel(c2, post, Register::IY))
        &&& (b2 == 0xE9 ==> jp_idx_rel(c2, post, Register::IY))
    } else if opcode == 0x76 {
        true
    } else if opcode < 0x40 {
        base_rel(c1, post, opcode as u8)
    } else if opcode < 0x80 {
        move_rel(c1, post, opcode as u8)
    } else if opcode < 0xC0 {
        alu_rel(c1, post, opcode as u8)
    } else if opcode <= 0xFF {
        ctrl_rel(c1, post, opcode as u8)
    } else {
        true
    }
}

/// One full decode-execute step from `pre`: the opcode byte at PC and its
/// metadata record are latched, and the dispatched transition holds.
pub open spec fn step_rel(pre: Cpu, post: Cpu) -> bool {
    let b1 = pre.memory.ram@[pre.reg.pc as int];
    dispatch_rel(
        Cpu { opcode: b1 as u16, instruction: instruction_meta(b1 as u16), ..pre },
        post,
        b1 as u16,
    )
}

} // verus!
