//! Per-opcode instruction metadata: mnemonic, encoded byte length, base
//! cycle cost and the cheaper not-taken cost of conditional instructions.

use vstd::prelude::*;

verus! {

/// Immutable per-opcode record; the authoritative cycle-cost source.
#[derive(Debug, Clone, Copy)]
pub struct Instruction {
    /// Mnemonic.
    pub name: &'static str,
    /// Instruction size in bytes.
    pub size: u8,
    /// Clock cycles (when a branch is taken).
    pub cycles: u8,
    /// Clock cycles when a conditional branch is not taken.
    pub alt_cycles: u8,
}

/// An operand of an instruction: one of the 8-bit registers or a 16-bit
/// register pair.  The memory operand addressed through HL is denoted by
/// `HL` on the 8-bit paths; `AF` is the accumulator paired with the
/// packed flag byte.
#[derive(Debug, Copy, Clone, Eq, PartialEq, Structural)]
pub enum Register {
    A,
    B,
    C,
    D,
    E,
    H,
    L,
    I,
    R,
    BC,
    DE,
    HL,
    SP,
    IX,
    IY,
    AF,
}

/// The 8-bit operands an ALU instruction accepts: a main register, or the
/// memory byte addressed through HL.
pub open spec fn is_alu_src(r: Register) -> bool {
    match r {
        Register::A | Register::B | Register::C | Register::D | Register::E | Register::H
            | Register::L | Register::HL => true,
        _ => false,
    }
}

/// The single 8-bit registers a direct read or write can target.
pub open spec fn is_single(r: Register) -> bool {
    match r {
        Register::A | Register::B | Register::C | Register::D | Register::E | Register::H
            | Register::L | Register::I | Register::R => true,
        _ => false,
    }
}

/// The seven main 8-bit registers.
pub open spec fn is_main8(r: Register) -> bool {
    match r {
        Register::A | Register::B | Register::C | Register::D | Register::E | Register::H
            | Register::L => true,
        _ => false,
    }
}

/// The register pairs a 16-bit arithmetic instruction accepts.
pub open spec fn is_ss(r: Register) -> bool {
    match r {
        Register::BC | Register::DE | Register::HL | Register::SP => true,
        _ => false,
    }
}

/// The operands that denote a 16-bit quantity, AF included.
pub open spec fn is_pair(r: Register) -> bool {
    match r {
        Register::BC | Register::DE | Register::HL | Register::IX | Register::IY | Register::SP
            | Register::AF => true,
        _ => false,
    }
}

/// The 16-bit register pairs that can be written directly, AF excluded.
pub open spec fn is_wide(r: Register) -> bool {
    match r {
        Register::BC | Register::DE | Register::HL | Register::IX | Register::IY
            | Register::SP => true,
        _ => false,
    }
}

/// The metadata record of each opcode: the authoritative cycle-cost
/// source, stated once at the specification level.  `Instruction::decode`
/// returns exactly this record.  An opcode outside the documented map
/// yields the size-0 sentinel record.
pub open spec fn instruction_meta(opcode: u16) -> Instruction {
    match opcode {
        0x00 => Instruction { name: "NOP", size: 1, cycles: 4, alt_cycles: 0 },
        0x01 => Instruction { name: "LD BC, **", size: 3, cycles: 10, alt_cycles: 0 },
        0x02 => Instruction { name: "LD (BC), A", size: 1, cycles: 7, alt_cycles: 0 },
        0x03 => Instruction { name: "INC BC", size: 1, cycles: 6, alt_cycles: 0 },
        0x04 => Instruction { name: "INC B", size: 1, cycles: 4, alt_cycles: 0 },
        0x05 => Instruction { name: "DEC B", size: 1, cycles: 4, alt_cycles: 0 },
        0x06 => Instruction { name: "LD B, *", size: 2, cycles: 7, alt_cycles: 0 },
        0x07 => Instruction { name: "RLCA", size: 1, cycles: 4, alt_cycles: 0 },
        0x08 => Instruction { name: "EX AF, AF'", size: 1, cycles: 4, alt_cycles: 0 },
        0x09 => Instruction { name: "ADD HL, BC", size: 1, cycles: 11, alt_cycles: 0 },
        0x0A => Instruction { name: "LD A, (BC)", size: 1, cycles: 7, alt_cycles: 0 },
        0x0B => Instruction { name: "DEC BC", size: 1, cycles: 6, alt_cycles: 0 },
        0x0C => Instruction { name: "INC C", size: 1, cycles: 4, alt_cycles: 0 },
        0x0D => Instruction { name: "DEC C", size: 1, cycles: 4, alt_cycles: 0 },
        0x0E => Instruction { name: "LD C, *", size: 2, cycles: 7, alt_cycles: 0 },
        0x0F => Instruction { name: "RRCA", size: 1, cycles: 4, alt_cycles: 0 },
        0x10 => Instruction { name: "DJNZ, *", size: 2, cycles: 13, alt_cycles: 8 },
        0x11 => Instruction { name: "LD DE, **", size: 3, cycles: 10, alt_cycles: 0 },
        0x12 => Instruction { name: "LD (DE), A", size: 1, cycles: 7, alt_cycles: 0 },
        0x13 => Instruction { name: "INC DE", size: 1, cycles: 6, alt_cycles: 0 },
        0x14 => Instruction { name: "INC D", size: 1, cycles: 4, alt_cycles: 0 },
        0x15 => Instruction { name: "DEC D", size: 1, cycles: 4, alt_cycles: 0 },
        0x16 => Instruction { name: "LD D, *", size: 2, cycles: 7, alt_cycles: 0 },
        0x17 => Instruction { name: "RLA", size: 1, cycles: 4, alt_cycles: 0 },
        0x18 => Instruction { name: "JR *", size: 2, cycles: 12, alt_cycles: 0 },
        0x19 => Instruction { name: "ADD HL, DE", size: 1, cycles: 11, alt_cycles: 0 },
        0x1A => Instruction { name: "LD A, (DE)", size: 1, cycles: 7, alt_cycles: 0 },
        0x1B => Instruction { name: "DEC DE", size: 1, cycles: 6, alt_cycles: 0 },
        0x1C => Instruction { name: "INC E", size: 1, cycles: 4, alt_cycles: 0 },
        0x1D => Instruction { name: "DEC E", size: 1, cycles: 4, alt_cycles: 0 },
        0x1E => Instruction { name: "LD E, *", size: 2, cycles: 7, alt_cycles: 0 },
        0x1F => Instruction { name: "RRA", size: 1, cycles: 4, alt_cycles: 0 },
        0x20 => Instruction { name: "JR NZ, *", size: 2, cycles: 12, alt_cycles: 7 },
        0x21 => Instruction { name: "LD HL, **", size: 3, cycles: 10, alt_cycles: 0 },
        0x22 => Instruction { name: "LD (**), HL", size: 3, cycles: 16, alt_cycles: 0 },
        0x23 => Instruction { name: "INC HL", size: 1, cycles: 6, alt_cycles: 0 },
        0x24 => Instruction { name: "INC H", size: 1, cycles: 4, alt_cycles: 0 },
        0x25 => Instruction { name: "DEC H", size: 1, cycles: 4, alt_cycles: 0 },
        0x26 => Instruction { name: "LD H, *", size: 2, cycles: 7, alt_cycles: 0 },
        0x27 => Instruction { name: "DAA", size: 1, cycles: 4, alt_cycles: 0 },
        0x28 => Instruction { name: "JR Z, *", size: 2, cycles: 12, alt_cycles: 7 },
        0x29 => Instruction { name: "ADD HL, HL", size: 1, cycles: 11, alt_cycles: 0 },
        0x2A => Instruction { name: "LD HL, (**)", size: 3, cycles: 16, alt_cycles: 0 },
        0x2B => Instruction { name: "DEC HL", size: 1, cycles: 6, alt_cycles: 0 },
        0x2C => Instruction { name: "INC L", size: 1, cycles: 4, alt_cycles: 0 },
        0x2D => Instruction { name: "DEC L", size: 1, cycles: 4, alt_cycles: 0 },
        0x2E => Instruction { name: "LD L, *", size: 2, cycles: 7, alt_cycles: 0 },
        0x2F => Instruction { name: "CPL", size: 1, cycles: 4, alt_cycles: 0 },
        0x30 => Instruction { name: "JR NC, *", size: 2, cycles: 12, alt_cycles: 7 },
        0x31 => Instruction { name: "LD SP, **", size: 3, cycles: 10, alt_cycles: 0 },
        0x32 => Instruction { name: "LD (**), A", size: 3, cycles: 13, alt_cycles: 0 },
        0x33 => Instruction { name: "INC SP", size: 1, cycles: 6, alt_cycles: 0 },
        0x34 => Instruction { name: "INC (HL)", size: 1, cycles: 11, alt_cycles: 0 },
        0x35 => Instruction { name: "DEC (HL)", size: 1, cycles: 11, alt_cycles: 0 },
        0x36 => Instruction { name: "LD (HL), *", size: 2, cycles: 10, alt_cycles: 0 },
        0x37 => Instruction { name: "SCF", size: 1, cycles: 4, alt_cycles: 0 },
        0x38 => Instruction { name: "JR C, *", size: 2, cycles: 12, alt_cycles: 7 },
        0x39 => Instruction { name: "ADD HL, SP", size: 1, cycles: 11, alt_cycles: 0 },
        0x3A => Instruction { name: "LD A, (**)", size: 3, cycles: 13, alt_cycles: 0 },
        0x3B => Instruction { name: "DEC SP", size: 1, cycles: 6, alt_cycles: 0 },
        0x3C => Instruction { name: "INC A", size: 1, cycles: 4, alt_cycles: 0 },
        0x3D => Instruction { name: "DEC A", size: 1, cycles: 4, alt_cycles: 0 },
        0x3E => Instruction { name: "LD A, *", size: 2, cycles: 7, alt_cycles: 0 },
        0x3F => Instruction { name: "CCF", size: 1, cycles: 4, alt_cycles: 0 },
        0x40 => Instruction { name: "LD B, B", size: 1, cycles: 4, alt_cycles: 0 },
        0x41 => Instruction { name: "LD B, C", size: 1, cycles: 4, alt_cycles: 0 },
        0x42 => Instruction { name: "LD B, D", size: 1, cycles: 4, alt_cycles: 0 },
        0x43 => Instruction { name: "LD B, E", size: 1, cycles: 4, alt_cycles: 0 },
        0x44 => Instruction { name: "LD B, H", size: 1, cycles: 4, alt_cycles: 0 },
        0x45 => Instruction { name: "LD B, L", size: 1, cycles: 4, alt_cycles: 0 },
        0x46 => Instruction { name: "LD B, (HL)", size: 1, cycles: 7, alt_cycles: 0 },
        0x47 => Instruction { name: "LD B, A", size: 1, cycles: 4, alt_cycles: 0 },
        0x48 => Instruction { name: "LD C, B", size: 1, cycles: 4, alt_cycles: 0 },
        0x49 => Instruction { name: "LD C, C", size: 1, cycles: 4, alt_cycles: 0 },
        0x4A => Instruction { name: "LD C, D", size: 1, cycles: 4, alt_cycles: 0 },
        0x4B => Instruction { name: "LD C, E", size: 1, cycles: 4, alt_cycles: 0 },
        0x4C => Instruction { name: "LD C, H", size: 1, cycles: 4, alt_cycles: 0 },
        0x4D => Instruction { name: "LD C, L", size: 1, cycles: 4, alt_cycles: 0 },
        0x4E => Instruction { name: "LD C, (HL)", size: 1, cycles: 7, alt_cycles: 0 },
        0x4F => Instruction { name: "LD C, A", size: 1, cycles: 4, alt_cycles: 0 },
        0x50 => Instruction { name: "LD D, B", size: 1, cycles: 4, alt_cycles: 0 },
        0x51 => Instruction { name: "LD D, C", size: 1, cycles: 4, alt_cycles: 0 },
        0x52 => Instruction { name: "LD D, D", size: 1, cycles: 4, alt_cycles: 0 },
        0x53 => Instruction { name: "LD D, E", size: 1, cycles: 4, alt_cycles: 0 },
        0x54 => Instruction { name: "LD D, H", size: 1, cycles: 4, alt_cycles: 0 },
        0x55 => Instruction { name: "LD D, L", size: 1, cycles: 4, alt_cycles: 0 },
        0x56 => Instruction { name: "LD D, (HL)", size: 1, cycles: 7, alt_cycles: 0 },
        0x57 => Instruction { name: "LD D, A", size: 1, cycles: 4, alt_cycles: 0 },
        0x58 => Instruction { name: "LD E, B", size: 1, cycles: 4, alt_cycles: 0 },
        0x59 => Instruction { name: "LD E, C", size: 1, cycles: 4, alt_cycles: 0 },
        0x5A => Instruction { name: "LD E, D", size: 1, cycles: 4, alt_cycles: 0 },
        0x5B => Instruction { name: "LD E, E", size: 1, cycles: 4, alt_cycles: 0 },
        0x5C => Instruction { name: "LD E, H", size: 1, cycles: 4, alt_cycles: 0 },
        0x5D => Instruction { name: "LD E, L", size: 1, cycles: 4, alt_cycles: 0 },
        0x5E => Instruction { name: "LD E, (HL)", size: 1, cycles: 7, alt_cycles: 0 },
        0x5F => Instruction { name: "LD E, A", size: 1, cycles: 4, alt_cycles: 0 },
        0x60 => Instruction { name: "LD H, B", size: 1, cycles: 4, alt_cycles: 0 },
        0x61 => Instruction { name: "LD H, C", size: 1, cycles: 4, alt_cycles: 0 },
        0x62 => Instruction { name: "LD H, D", size: 1, cycles: 4, alt_cycles: 0 },
        0x63 => Instruction { name: "LD H, E", size: 1, cycles: 4, alt_cycles: 0 },
        0x64 => Instruction { name: "LD H, H", size: 1, cycles: 4, alt_cycles: 0 },
        0x65 => Instruction { name: "LD H, L", size: 1, cycles: 4, alt_cycles: 0 },
        0x66 => Instruction { name: "LD H, (HL)", size: 1, cycles: 7, alt_cycles: 0 },
        0x67 => Instruction { name: "LD H, A", size: 1, cycles: 4, alt_cycles: 0 },
        0x68 => Instruction { name: "LD L, B", size: 1, cycles: 4, alt_cycles: 0 },
        0x69 => Instruction { name: "LD L, C", size: 1, cycles: 4, alt_cycles: 0 },
        0x6A => Instruction { name: "LD L, D", size: 1, cycles: 4, alt_cycles: 0 },
        0x6B => Instruction { name: "LD L, E", size: 1, cycles: 4, alt_cycles: 0 },
        0x6C => Instruction { name: "LD L, H", size: 1, cycles: 4, alt_cycles: 0 },
        0x6D => Instruction { name: "LD L, L", size: 1, cycles: 4, alt_cycles: 0 },
        0x6E => Instruction { name: "LD L, (HL)", size: 1, cycles: 7, alt_cycles: 0 },
        0x6F => Instruction { name: "LD L, A", size: 1, cycles: 4, alt_cycles: 0 },
        0x70 => Instruction { name: "LD (HL), B", size: 1, cycles: 7, alt_cycles: 0 },
        0x71 => Instruction { name: "LD (HL), C", size: 1, cycles: 7, alt_cycles: 0 },
        0x72 => Instruction { name: "LD (HL), D", size: 1, cycles: 7, alt_cycles: 0 },
        0x73 => Instruction { name: "LD (HL), E", size: 1, cycles: 7, alt_cycles: 0 },
        0x74 => Instruction { name: "LD (HL), H", size: 1, cycles: 7, alt_cycles: 0 },
        0x75 => Instruction { name: "LD (HL), L", size: 1, cycles: 7, alt_cycles: 0 },
        0x76 => Instruction { name: "HALT", size: 1, cycles: 4, alt_cycles: 0 },
        0x77 => Instruction { name: "LD (HL), A", size: 1, cycles: 7, alt_cycles: 0 },
        0x78 => Instruction { name: "LD A, B", size: 1, cycles: 4, alt_cycles: 0 },
        0x79 => Instruction { name: "LD A, C", size: 1, cycles: 4, alt_cycles: 0 },
        0x7A => Instruction { name: "LD A, D", size: 1, cycles: 4, alt_cycles: 0 },
        0x7B => Instruction { name: "LD A, E", size: 1, cycles: 4, alt_cycles: 0 },
        0x7C => Instruction { name: "LD A, H", size: 1, cycles: 4, alt_cycles: 0 },
        0x7D => Instruction { name: "LD A, L", size: 1, cycles: 4, alt_cycles: 0 },
        0x7E => Instruction { name: "LD A, (HL)", size: 1, cycles: 7, alt_cycles: 0 },
        0x7F => Instruction { name: "LD A, A", size: 1, cycles: 4, alt_cycles: 0 },
        0x80 => Instruction { name: "ADD A, B", size: 1, cycles: 4, alt_cycles: 0 },
        0x81 => Instruction { name: "ADD A, C", size: 1, cycles: 4, alt_cycles: 0 },
        0x82 => Instruction { name: "ADD A, D", size: 1, cycles: 4, alt_cycles: 0 },
        0x83 => Instruction { name: "ADD A, E", size: 1, cycles: 4, alt_cycles: 0 },
        0x84 => Instruction { name: "ADD A, H", size: 1, cycles: 4, alt_cycles: 0 },
        0x85 => Instruction { name: "ADD A, L", size: 1, cycles: 4, alt_cycles: 0 },
        0x86 => Instruction { name: "ADD A, (HL)", size: 1, cycles: 7, alt_cycles: 0 },
        0x87 => Instruction { name: "ADD A, A", size: 1, cycles: 4, alt_cycles: 0 },
        0x88 => Instruction { name: "ADC A, B", size: 1, cycles: 4, alt_cycles: 0 },
        0x89 => Instruction { name: "ADC A, C", size: 1, cycles: 4, alt_cycles: 0 },
        0x8A => Instruction { name: "ADC A, D", size: 1, cycles: 4, alt_cycles: 0 },
        0x8B => Instruction { name: "ADC A, E", size: 1, cycles: 4, alt_cycles: 0 },
        0x8C => Instruction { name: "ADC A, H", size: 1, cycles: 4, alt_cycles: 0 },
        0x8D => Instruction { name: "ADC A, L", size: 1, cycles: 4, alt_cycles: 0 },
        0x8E => Instruction { name: "ADC A, (HL)", size: 1, cycles: 7, alt_cycles: 0 },
        0x8F => Instruction { name: "ADC A, A", size: 1, cycles: 4, alt_cycles: 0 },
        0x90 => Instruction { name: "SUB B", size: 1, cycles: 4, alt_cycles: 0 },
        0x91 => Instruction { name: "SUB C", size: 1, cycles: 4, alt_cycles: 0 },
        0x92 => Instruction { name: "SUB D", size: 1, cycles: 4, alt_cycles: 0 },
        0x93 => Instruction { name: "SUB E", size: 1, cycles: 4, alt_cycles: 0 },
        0x94 => Instruction { name: "SUB H", size: 1, cycles: 4, alt_cycles: 0 },
        0x95 => Instruction { name: "SUB L", size: 1, cycles: 4, alt_cycles: 0 },
        0x96 => Instruction { name: "SUB (HL)", size: 1, cycles: 7, alt_cycles: 0 },
        0x97 => Instruction { name: "SUB A", size: 1, cycles: 4, alt_cycles: 0 },
        0x98 => Instruction { name: "SBC A, B", size: 1, cycles: 4, alt_cycles: 0 },
        0x99 => Instruction { name: "SBC A, C", size: 1, cycles: 4, alt_cycles: 0 },
        0x9A => Instruction { name: "SBC A, D", size: 1, cycles: 4, alt_cycles: 0 },
        0x9B => Instruction { name: "SBC A, E", size: 1, cycles: 4, alt_cycles: 0 },
        0x9C => Instruction { name: "SBC A, H", size: 1, cycles: 4, alt_cycles: 0 },
        0x9D => Instruction { name: "SBC A, L", size: 1, cycles: 4, alt_cycles: 0 },
        0x9E => Instruction { name: "SBC A, (HL)", size: 1, cycles: 7, alt_cycles: 0 },
        0x9F => Instruction { name: "SBC A, A", size: 1, cycles: 4, alt_cycles: 0 },
        0xA0 => Instruction { name: "AND B", size: 1, cycles: 4, alt_cycles: 0 },
        0xA1 => Instruction { name: "AND C", size: 1, cycles: 4, alt_cycles: 0 },
        0xA2 => Instruction { name: "AND D", size: 1, cycles: 4, alt_cycles: 0 },
        0xA3 => Instruction { name: "AND E", size: 1, cycles: 4, alt_cycles: 0 },
        0xA4 => Instruction { name: "AND H", size: 1, cycles: 4, alt_cycles: 0 },
        0xA5 => Instruction { name: "AND L", size: 1, cycles: 4, alt_cycles: 0 },
        0xA6 => Instruction { name: "AND (HL)", size: 1, cycles: 7, alt_cycles: 0 },
        0xA7 => Instruction { name: "AND A", size: 1, cycles: 4, alt_cycles: 0 },
        0xA8 => Instruction { name: "XOR B", size: 1, cycles: 4, alt_cycles: 0 },
        0xA9 => Instruction { name: "XOR C", size: 1, cycles: 4, alt_cycles: 0 },
        0xAA => Instruction { name: "XOR D", size: 1, cycles: 4, alt_cycles: 0 },
        0xAB => Instruction { name: "XOR E", size: 1, cycles: 4, alt_cycles: 0 },
        0xAC => Instruction { name: "XOR H", size: 1, cycles: 4, alt_cycles: 0 },
        0xAD => Instruction { name: "XOR L", size: 1, cycles: 4, alt_cycles: 0 },
        0xAE => Instruction { name: "XOR (HL)", size: 1, cycles: 7, alt_cycles: 0 },
        0xAF => Instruction { name: "XOR A", size: 1, cycles: 4, alt_cycles: 0 },
        0xB0 => Instruction { name: "OR B", size: 1, cycles: 4, alt_cycles: 0 },
        0xB1 => Instruction { name: "OR C", size: 1, cycles: 4, alt_cycles: 0 },
        0xB2 => Instruction { name: "OR D", size: 1, cycles: 4, alt_cycles: 0 },
        0xB3 => Instruction { name: "OR E", size: 1, cycles: 4, alt_cycles: 0 },
        0xB4 => Instruction { name: "OR H", size: 1, cycles: 4, alt_cycles: 0 },
        0xB5 => Instruction { name: "OR L", size: 1, cycles: 4, alt_cycles: 0 },
        0xB6 => Instruction { name: "OR (HL)", size: 1, cycles: 7, alt_cycles: 0 },
        0xB7 => Instruction { name: "OR A", size: 1, cycles: 4, alt_cycles: 0 },
        0xB8 => Instruction { name: "CP B", size: 1, cycles: 4, alt_cycles: 0 },
        0xB9 => Instruction { name: "CP C", size: 1, cycles: 4, alt_cycles: 0 },
        0xBA => Instruction { name: "CP D", size: 1, cycles: 4, alt_cycles: 0 },
        0xBB => Instruction { name: "CP E", size: 1, cycles: 4, alt_cycles: 0 },
        0xBC => Instruction { name: "CP H", size: 1, cycles: 4, alt_cycles: 0 },
        0xBD => Instruction { name: "CP L", size: 1, cycles: 4, alt_cycles: 0 },
        0xBE => Instruction { name: "CP (HL)", size: 1, cycles: 7, alt_cycles: 0 },
        0xBF => Instruction { name: "CP A", size: 1, cycles: 4, alt_cycles: 0 },
        0xC0 => Instruction { name: "RET NZ", size: 1, cycles: 11, alt_cycles: 5 },
        0xC1 => Instruction { name: "POP BC", size: 1, cycles: 10, alt_cycles: 0 },
        0xC2 => Instruction { name: "JP NZ, **", size: 3, cycles: 10, alt_cycles: 0 },
        0xC3 => Instruction { name: "JP **", size: 3, cycles: 10, alt_cycles: 0 },
        0xC4 => Instruction { name: "CALL NZ, **", size: 3, cycles: 17, alt_cycles: 10 },
        0xC5 => Instruction { name: "PUSH BC", size: 1, cycles: 11, alt_cycles: 0 },
        0xC6 => Instruction { name: "ADD A, *", size: 2, cycles: 7, alt_cycles: 0 },
        0xC7 => Instruction { name: "RST 00H", size: 1, cycles: 11, alt_cycles: 0 },
        0xC8 => Instruction { name: "RET Z", size: 1, cycles: 11, alt_cycles: 5 },
        0xC9 => Instruction { name: "RET", size: 1, cycles: 10, alt_cycles: 0 },
        0xCA => Instruction { name: "JP Z, **", size: 3, cycles: 10, alt_cycles: 0 },
        0xCC => Instruction { name: "CALL Z, **", size: 3, cycles: 17, alt_cycles: 10 },
        0xCD => Instruction { name: "CALL **", size: 3, cycles: 17, alt_cycles: 0 },
        0xCE => Instruction { name: "ADC A, *", size: 2, cycles: 7, alt_cycles: 0 },
        0xCF => Instruction { name: "RST 08H", size: 1, cycles: 11, alt_cycles: 0 },
        0xD0 => Instruction { name: "RET NC", size: 1, cycles: 11, alt_cycles: 5 },
        0xD1 => Instruction { name: "POP DE", size: 1, cycles: 10, alt_cycles: 0 },
        0xD2 => Instruction { name: "JP NC, **", size: 3, cycles: 10, alt_cycles: 0 },
        0xD3 => Instruction { name: "OUT (*), A", size: 2, cycles: 11, alt_cycles: 0 },
        0xD4 => Instruction { name: "CALL NC, **", size: 3, cycles: 17, alt_cycles: 10 },
        0xD5 => Instruction { name: "PUSH DE", size: 1, cycles: 11, alt_cycles: 0 },
        0xD6 => Instruction { name: "SUB *", size: 2, cycles: 7, alt_cycles: 0 },
        0xD7 => Instruction { name: "RST 10H", size: 1, cycles: 11, alt_cycles: 0 },
        0xD8 => Instruction { name: "RET C", size: 1, cycles: 11, alt_cycles: 5 },
        0xD9 => Instruction { name: "EXX", size: 1, cycles: 4, alt_cycles: 0 },
        0xDA => Instruction { name: "JP C, **", size: 3, cycles: 10, alt_cycles: 0 },
        0xDB => Instruction { name: "IN A, (*)", size: 2, cycles: 11, alt_cycles: 0 },
        0xDC => Instruction { name: "CALL C, **", size: 3, cycles: 17, alt_cycles: 10 },
        0xDE => Instruction { name: "SBC A, *", size: 2, cycles: 7, alt_cycles: 0 },
        0xDF => Instruction { name: "RST 18H", size: 1, cycles: 11, alt_cycles: 0 },
        0xE0 => Instruction { name: "RET PO", size: 1, cycles: 11, alt_cycles: 5 },
        0xE1 => Instruction { name: "POP HL", size: 1, cycles: 10, alt_cycles: 0 },
        0xE2 => Instruction { name: "JP PO, **", size: 3, cycles: 10, alt_cycles: 0 },
        0xE3 => Instruction { name: "EX (SP), HL", size: 1, cycles: 19, alt_cycles: 0 },
        0xE4 => Instruction { name: "CALL PO, **", size: 3, cycles: 17, alt_cycles: 10 },
        0xE5 => Instruction { name: "PUSH HL", size: 1, cycles: 11, alt_cycles: 0 },
        0xE6 => Instruction { name: "AND *", size: 2, cycles: 7, alt_cycles: 0 },
        0xE7 => Instruction { name: "RST 20H", size: 1, cycles: 11, alt_cycles: 0 },
        0xE8 => Instruction { name: "RET PE", size: 1, cycles: 11, alt_cycles: 5 },
        0xE9 => Instruction { name: "JP (HL)", size: 1, cycles: 4, alt_cycles: 0 },
        0xEA => Instruction { name: "JP PE, **", size: 3, cycles: 10, alt_cycles: 0 },
        0xEB => Instruction { name: "EX DE, HL", size: 1, cycles: 4, alt_cycles: 0 },
        0xEC => Instruction { name: "CALL PE, **", size: 3, cycles: 17, alt_cycles: 10 },
        0xEE => Instruction { name: "XOR *", size: 2, cycles: 7, alt_cycles: 0 },
        0xEF => Instruction { name: "RST 28H", size: 1, cycles: 11, alt_cycles: 0 },
        0xF0 => Instruction { name: "RET P", size: 1, cycles: 11, alt_cycles: 5 },
        0xF1 => Instruction { name: "POP AF", size: 1, cycles: 10, alt_cycles: 0 },
        0xF2 => Instruction { name: "JP P, **", size: 3, cycles: 10, alt_cycles: 0 },
        0xF3 => Instruction { name: "DI", size: 1, cycles: 4, alt_cycles: 0 },
        0xF4 => Instruction { name: "CALL P, **", size: 3, cycles: 17, alt_cycles: 10 },
        0xF5 => Instruction { name: "PUSH AF", size: 1, cycles: 11, alt_cycles: 0 },
        0xF6 => Instruction { name: "OR *", size: 2, cycles: 7, alt_cycles: 0 },
        0xF7 => Instruction { name: "RST 30H", size: 1, cycles: 11, alt_cycles: 0 },
        0xF8 => Instruction { name: "RET M", size: 1, cycles: 11, alt_cycles: 5 },
        0xF9 => Instruction { name: "LD SP, HL", size: 1, cycles: 6, alt_cycles: 0 },
        0xFA => Instruction { name: "JP M, **", size: 3, cycles: 10, alt_cycles: 0 },
        0xFB => Instruction { name: "EI", size: 1, cycles: 4, alt_cycles: 0 },
        0xFC => Instruction { name: "CALL M, **", size: 3, cycles: 17, alt_cycles: 10 },
        0xFE => Instruction { name: "CP *", size: 2, cycles: 7, alt_cycles: 0 },
        0xFF => Instruction { name: "RST 38H", size: 1, cycles: 11, alt_cycles: 0 },
        0xCB03 => Instruction { name: "RLC E", size: 2, cycles: 8, alt_cycles: 0 },
        0xCB08 => Instruction { name: "RRC B", size: 2, cycles: 8, alt_cycles: 0 },
        0xDD19 => Instruction { name: "ADD IX, DE", size: 2, cycles: 15, alt_cycles: 0 },
        0xDD21 => Instruction { name: "LD IX, **", size: 4, cycles: 14, alt_cycles: 0 },
        0xDD22 => Instruction { name: "LD (**), IX", size: 4, cycles: 20, alt_cycles: 0 },
        0xDD23 => Instruction { name: "INC IX", size: 2, cycles: 10, alt_cycles: 0 },
        0xDD77 => Instruction { name: "LD (IX+*), A", size: 3, cycles: 19, alt_cycles: 0 },
        0xDD7E => Instruction { name: "LD A, (IX+*)", size: 3, cycles: 19, alt_cycles: 0 },
        0xDDE1 => Instruction { name: "POP IX", size: 2, cycles: 14, alt_cycles: 0 },
        0xDDE5 => Instruction { name: "PUSH IX", size: 2, cycles: 15, alt_cycles: 0 },
        0xDDE9 => Instruction { name: "JP (IX)", size: 2, cycles: 8, alt_cycles: 0 },
        0xFD21 => Instruction { name: "LD IY, **", size: 4, cycles: 14, alt_cycles: 0 },
        0xFD22 => Instruction { name: "LD (**), IY", size: 4, cycles: 20, alt_cycles: 0 },
        0xFD23 => Instruction { name: "INC IY", size: 2, cycles: 10, alt_cycles: 0 },
        0xFD2B => Instruction { name: "DEC IY", size: 2, cycles: 10, alt_cycles: 0 },
        0xFD7E => Instruction { name: "LD A, (IY+*)", size: 3, cycles: 19, alt_cycles: 0 },
        0xFDE1 => Instruction { name: "POP IY", size: 2, cycles: 14, alt_cycles: 0 },
        0xFDE5 => Instruction { name: "PUSH IY", size: 2, cycles: 15, alt_cycles: 0 },
        0xFDE9 => Instruction { name: "JP (IY)", size: 2, cycles: 8, alt_cycles: 0 },
        0xED43 => Instruction { name: "LD (**), BC", size: 4, cycles: 20, alt_cycles: 0 },
        0xED46 => Instruction { name: "IM 0", size: 2, cycles: 8, alt_cycles: 0 },
        0xED47 => Instruction { name: "LD I, A", size: 2, cycles: 9, alt_cycles: 0 },
        0xED4A => Instruction { name: "ADC HL, BC", size: 2, cycles: 15, alt_cycles: 0 },
        0xED4B => Instruction { name: "LD BC, (**)", size: 4, cycles: 20, alt_cycles: 0 },
        0xED4F => Instruction { name: "LD R, A", size: 2, cycles: 9, alt_cycles: 0 },
        0xED53 => Instruction { name: "LD (**), DE", size: 4, cycles: 20, alt_cycles: 0 },
        0xED56 => Instruction { name: "IM 1", size: 2, cycles: 8, alt_cycles: 0 },
        0xED57 => Instruction { name: "LD A, I", size: 2, cycles: 9, alt_cycles: 0 },
        0xED5A => Instruction { name: "ADC HL, DE", size: 2, cycles: 15, alt_cycles: 0 },
        0xED5B => Instruction { name: "LD DE, (**)", size: 4, cycles: 20, alt_cycles: 0 },
        0xED5F => Instruction { name: "LD A, R", size: 2, cycles: 9, alt_cycles: 0 },
        0xED63 => Instruction { name: "LD (**), HL", size: 4, cycles: 20, alt_cycles: 0 },
        0xED66 => Instruction { name: "IM 0", size: 2, cycles: 8, alt_cycles: 0 },
        0xED6A => Instruction { name: "ADC HL, HL", size: 2, cycles: 15, alt_cycles: 0 },
        0xED6B => Instruction { name: "LD HL, (**)", size: 4, cycles: 20, alt_cycles: 0 },
        0xED73 => Instruction { name: "LD (**), SP", size: 4, cycles: 20, alt_cycles: 0 },
        0xED76 => Instruction { name: "IM 1", size: 2, cycles: 8, alt_cycles: 0 },
        0xED7A => Instruction { name: "ADC HL, SP", size: 2, cycles: 15, alt_cycles: 0 },
        0xED7B => Instruction { name: "LD SP, (**)", size: 4, cycles: 20, alt_cycles: 0 },
        0xED7E => Instruction { name: "IM 2", size: 2, cycles: 8, alt_cycles: 0 },
        0xEDA0 => Instruction { name: "LDI", size: 2, cycles: 16, alt_cycles: 0 },
        0xEDA1 => Instruction { name: "CPI", size: 2, cycles: 16, alt_cycles: 0 },
        0xEDB0 => Instruction { name: "LDIR", size: 2, cycles: 21, alt_cycles: 16 },
        _ => Instruction { name: "?", size: 0, cycles: 0, alt_cycles: 0 },
    }
}

/// The bit-instruction opcodes (prefix 0xCB) the engine implements.
pub open spec fn cb_defined(op: u8) -> bool {
    op == 0x03 || op == 0x08
}

/// The index-instruction opcodes (prefix 0xDD) the engine implements.
pub open spec fn dd_defined(op: u8) -> bool {
    op == 0x19 || op == 0x21 || op == 0x22 || op == 0x23 || op == 0x77 || op == 0x7E || op == 0xE1
        || op == 0xE5 || op == 0xE9
}

/// The extended opcodes (prefix 0xED) the engine implements.
pub open spec fn ed_defined(op: u8) -> bool {
    op == 0x43 || op == 0x46 || op == 0x47 || op == 0x4A || op == 0x4B || op == 0x4F || op == 0x53
        || op == 0x56 || op == 0x57 || op == 0x5A || op == 0x5B || op == 0x5F || op == 0x63 || op
        == 0x66 || op == 0x6A || op == 0x6B || op == 0x73 || op == 0x76 || op == 0x7A || op == 0x7B
        || op == 0x7E || op == 0xA0 || op == 0xA1 || op == 0xB0
}

/// The index-instruction opcodes (prefix 0xFD) the engine implements.
pub open spec fn fd_defined(op: u8) -> bool {
    op == 0x21 || op == 0x22 || op == 0x23 || op == 0x2B || op == 0x7E || op == 0xE1 || op == 0xE5
        || op == 0xE9
}

impl Instruction {
    /// An empty record, used before the first fetch.
    pub fn new() -> (ins: Instruction)
        ensures
            ins == (Instruction { name: "", size: 0, cycles: 0, alt_cycles: 0 }),
    {
        Instruction { name: "", size: 0, cycles: 0, alt_cycles: 0 }
    }

    /// Builds a record from its four parts.
    pub fn from(mnemonic: &'static str, size: u8, cycles: u8, alt_cycles: u8) -> (ins:
        Instruction)
        ensures
            ins == (Instruction { name: mnemonic, size, cycles, alt_cycles }),
    {
        Instruction { name: mnemonic, size, cycles, alt_cycles }
    }

    /// Metadata for an opcode.  Prefixed opcodes are keyed with the prefix
    /// in the high byte (0xCB40 is BIT 0, B).  An opcode outside the
    /// documented map yields a record of size 0.
    #[verifier::rlimit(100)]
    #[verifier::spinoff_prover]
    pub fn decode(opcode: u16) -> (ins: Instruction)
        ensures
            ins == instruction_meta(opcode),
            ins.size <= 4,
            ins.cycles <= 23,
            ins.alt_cycles <= ins.cycles,
    {
        match opcode {
            0x00 => Instruction::from("NOP", 1, 4, 0),
            0x01 => Instruction::from("LD BC, **", 3, 10, 0),
            0x02 => Instruction::from("LD (BC), A", 1, 7, 0),
            0x03 => Instruction::from("INC BC", 1, 6, 0),
            0x04 => Instruction::from("INC B", 1, 4, 0),
            0x05 => Instruction::from("DEC B", 1, 4, 0),
            0x06 => Instruction::from("LD B, *", 2, 7, 0),
            0x07 => Instruction::from("RLCA", 1, 4, 0),
            0x08 => Instruction::from("EX AF, AF'", 1, 4, 0),
            0x09 => Instruction::from("ADD HL, BC", 1, 11, 0),
            0x0A => Instruction::from("LD A, (BC)", 1, 7, 0),
            0x0B => Instruction::from("DEC BC", 1, 6, 0),
            0x0C => Instruction::from("INC C", 1, 4, 0),
            0x0D => Instruction::from("DEC C", 1, 4, 0),
            0x0E => Instruction::from("LD C, *", 2, 7, 0),
            0x0F => Instruction::from("RRCA", 1, 4, 0),
            0x10 => Instruction::from("DJNZ, *", 2, 13, 8),
            0x11 => Instruction::from("LD DE, **", 3, 10, 0),
            0x12 => Instruction::from("LD (DE), A", 1, 7, 0),
            0x13 => Instruction::from("INC DE", 1, 6, 0),
            0x14 => Instruction::from("INC D", 1, 4, 0),
            0x15 => Instruction::from("DEC D", 1, 4, 0),
            0x16 => Instruction::from("LD D, *", 2, 7, 0),
            0x17 => Instruction::from("RLA", 1, 4, 0),
            0x18 => Instruction::from("JR *", 2, 12, 0),
            0x19 => Instruction::from("ADD HL, DE", 1, 11, 0),
            0x1A => Instruction::from("LD A, (DE)", 1, 7, 0),
            0x1B => Instruction::from("DEC DE", 1, 6, 0),
            0x1C => Instruction::from("INC E", 1, 4, 0),
            0x1D => Instruction::from("DEC E", 1, 4, 0),
            0x1E => Instruction::from("LD E, *", 2, 7, 0),
            0x1F => Instruction::from("RRA", 1, 4, 0),
            0x20 => Instruction::from("JR NZ, *", 2, 12, 7),
            0x21 => Instruction::from("LD HL, **", 3, 10, 0),
            0x22 => Instruction::from("LD (**), HL", 3, 16, 0),
            0x23 => Instruction::from("INC HL", 1, 6, 0),
            0x24 => Instruction::from("INC H", 1, 4, 0),
            0x25 => Instruction::from("DEC H", 1, 4, 0),
            0x26 => Instruction::from("LD H, *", 2, 7, 0),
            0x27 => Instruction::from("DAA", 1, 4, 0),
            0x28 => Instruction::from("JR Z, *", 2, 12, 7),
            0x29 => Instruction::from("ADD HL, HL", 1, 11, 0),
            0x2A => Instruction::from("LD HL, (**)", 3, 16, 0),
            0x2B => Instruction::from("DEC HL", 1, 6, 0),
            0x2C => Instruction::from("INC L", 1, 4, 0),
            0x2D => Instruction::from("DEC L", 1, 4, 0),
            0x2E => Instruction::from("LD L, *", 2, 7, 0),
            0x2F => Instruction::from("CPL", 1, 4, 0),
            0x30 => Instruction::from("JR NC, *", 2, 12, 7),
            0x31 => Instruction::from("LD SP, **", 3, 10, 0),
            0x32 => Instruction::from("LD (**), A", 3, 13, 0),
            0x33 => Instruction::from("INC SP", 1, 6, 0),
            0x34 => Instruction::from("INC (HL)", 1, 11, 0),
            0x35 => Instruction::from("DEC (HL)", 1, 11, 0),
            0x36 => Instruction::from("LD (HL), *", 2, 10, 0),
            0x37 => Instruction::from("SCF", 1, 4, 0),
            0x38 => Instruction::from("JR C, *", 2, 12, 7),
            0x39 => Instruction::from("ADD HL, SP", 1, 11, 0),
            0x3A => Instruction::from("LD A, (**)", 3, 13, 0),
            0x3B => Instruction::from("DEC SP", 1, 6, 0),
            0x3C => Instruction::from("INC A", 1, 4, 0),
            0x3D => Instruction::from("DEC A", 1, 4, 0),
            0x3E => Instruction::from("LD A, *", 2, 7, 0),
            0x3F => Instruction::from("CCF", 1, 4, 0),
            0x40 => Instruction::from("LD B, B", 1, 4, 0),
            0x41 => Instruction::from("LD B, C", 1, 4, 0),
            0x42 => Instruction::from("LD B, D", 1, 4, 0),
            0x43 => Instruction::from("LD B, E", 1, 4, 0),
            0x44 => Instruction::from("LD B, H", 1, 4, 0),
            0x45 => Instruction::from("LD B, L", 1, 4, 0),
            0x46 => Instruction::from("LD B, (HL)", 1, 7, 0),
            0x47 => Instruction::from("LD B, A", 1, 4, 0),
            0x48 => Instruction::from("LD C, B", 1, 4, 0),
            0x49 => Instruction::from("LD C, C", 1, 4, 0),
            0x4A => Instruction::from("LD C, D", 1, 4, 0),
            0x4B => Instruction::from("LD C, E", 1, 4, 0),
            0x4C => Instruction::from("LD C, H", 1, 4, 0),
            0x4D => Instruction::from("LD C, L", 1, 4, 0),
            0x4E => Instruction::from("LD C, (HL)", 1, 7, 0),
            0x4F => Instruction::from("LD C, A", 1, 4, 0),
            0x50 => Instruction::from("LD D, B", 1, 4, 0),
            0x51 => Instruction::from("LD D, C", 1, 4, 0),
            0x52 => Instruction::from("LD D, D", 1, 4, 0),
            0x53 => Instruction::from("LD D, E", 1, 4, 0),
            0x54 => Instruction::from("LD D, H", 1, 4, 0),
            0x55 => Instruction::from("LD D, L", 1, 4, 0),
            0x56 => Instruction::from("LD D, (HL)", 1, 7, 0),
            0x57 => Instruction::from("LD D, A", 1, 4, 0),
            0x58 => Instruction::from("LD E, B", 1, 4, 0),
            0x59 => Instruction::from("LD E, C", 1, 4, 0),
            0x5A => Instruction::from("LD E, D", 1, 4, 0),
            0x5B => Instruction::from("LD E, E", 1, 4, 0),
            0x5C => Instruction::from("LD E, H", 1, 4, 0),
            0x5D => Instruction::from("LD E, L", 1, 4, 0),
            0x5E => Instruction::from("LD E, (HL)", 1, 7, 0),
            0x5F => Instruction::from("LD E, A", 1, 4, 0),
            0x60 => Instruction::from("LD H, B", 1, 4, 0),
            0x61 => Instruction::from("LD H, C", 1, 4, 0),
            0x62 => Instruction::from("LD H, D", 1, 4, 0),
            0x63 => Instruction::from("LD H, E", 1, 4, 0),
            0x64 => Instruction::from("LD H, H", 1, 4, 0),
            0x65 => Instruction::from("LD H, L", 1, 4, 0),
            0x66 => Instruction::from("LD H, (HL)", 1, 7, 0),
            0x67 => Instruction::from("LD H, A", 1, 4, 0),
            0x68 => Instruction::from("LD L, B", 1, 4, 0),
            0x69 => Instruction::from("LD L, C", 1, 4, 0),
            0x6A => Instruction::from("LD L, D", 1, 4, 0),
            0x6B => Instruction::from("LD L, E", 1, 4, 0),
            0x6C => Instruction::from("LD L, H", 1, 4, 0),
            0x6D => Instruction::from("LD L, L", 1, 4, 0),
            0x6E => Instruction::from("LD L, (HL)", 1, 7, 0),
            0x6F => Instruction::from("LD L, A", 1, 4, 0),
            0x70 => Instruction::from("LD (HL), B", 1, 7, 0),
            0x71 => Instruction::from("LD (HL), C", 1, 7, 0),
            0x72 => Instruction::from("LD (HL), D", 1, 7, 0),
            0x73 => Instruction::from("LD (HL), E", 1, 7, 0),
            0x74 => Instruction::from("LD (HL), H", 1, 7, 0),
            0x75 => Instruction::from("LD (HL), L", 1, 7, 0),
            0x76 => Instruction::from("HALT", 1, 4, 0),
            0x77 => Instruction::from("LD (HL), A", 1, 7, 0),
            0x78 => Instruction::from("LD A, B", 1, 4, 0),
            0x79 => Instruction::from("LD A, C", 1, 4, 0),
            0x7A => Instruction::from("LD A, D", 1, 4, 0),
            0x7B => Instruction::from("LD A, E", 1, 4, 0),
            0x7C => Instruction::from("LD A, H", 1, 4, 0),
            0x7D => Instruction::from("LD A, L", 1, 4, 0),
            0x7E => Instruction::from("LD A, (HL)", 1, 7, 0),
            0x7F => Instruction::from("LD A, A", 1, 4, 0),
            0x80 => Instruction::from("ADD A, B", 1, 4, 0),
            0x81 => Instruction::from("ADD A, C", 1, 4, 0),
            0x82 => Instruction::from("ADD A, D", 1, 4, 0),
            0x83 => Instruction::from("ADD A, E", 1, 4, 0),
            0x84 => Instruction::from("ADD A, H", 1, 4, 0),
            0x85 => Instruction::from("ADD A, L", 1, 4, 0),
            0x86 => Instruction::from("ADD A, (HL)", 1, 7, 0),
            0x87 => Instruction::from("ADD A, A", 1, 4, 0),
            0x88 => Instruction::from("ADC A, B", 1, 4, 0),
            0x89 => Instruction::from("ADC A, C", 1, 4, 0),
            0x8A => Instruction::from("ADC A, D", 1, 4, 0),
            0x8B => Instruction::from("ADC A, E", 1, 4, 0),
            0x8C => Instruction::from("ADC A, H", 1, 4, 0),
            0x8D => Instruction::from("ADC A, L", 1, 4, 0),
            0x8E => Instruction::from("ADC A, (HL)", 1, 7, 0),
            0x8F => Instruction::from("ADC A, A", 1, 4, 0),
            0x90 => Instruction::from("SUB B", 1, 4, 0),
            0x91 => Instruction::from("SUB C", 1, 4, 0),
            0x92 => Instruction::from("SUB D", 1, 4, 0),
            0x93 => Instruction::from("SUB E", 1, 4, 0),
            0x94 => Instruction::from("SUB H", 1, 4, 0),
            0x95 => Instruction::from("SUB L", 1, 4, 0),
            0x96 => Instruction::from("SUB (HL)", 1, 7, 0),
            0x97 => Instruction::from("SUB A", 1, 4, 0),
            0x98 => Instruction::from("SBC A, B", 1, 4, 0),
            0x99 => Instruction::from("SBC A, C", 1, 4, 0),
            0x9A => Instruction::from("SBC A, D", 1, 4, 0),
            0x9B => Instruction::from("SBC A, E", 1, 4, 0),
            0x9C => Instruction::from("SBC A, H", 1, 4, 0),
            0x9D => Instruction::from("SBC A, L", 1, 4, 0),
            0x9E => Instruction::from("SBC A, (HL)", 1, 7, 0),
            0x9F => Instruction::from("SBC A, A", 1, 4, 0),
            0xA0 => Instruction::from("AND B", 1, 4, 0),
            0xA1 => Instruction::from("AND C", 1, 4, 0),
            0xA2 => Instruction::from("AND D", 1, 4, 0),
            0xA3 => Instruction::from("AND E", 1, 4, 0),
            0xA4 => Instruction::from("AND H", 1, 4, 0),
            0xA5 => Instruction::from("AND L", 1, 4, 0),
            0xA6 => Instruction::from("AND (HL)", 1, 7, 0),
            0xA7 => Instruction::from("AND A", 1, 4, 0),
            0xA8 => Instruction::from("XOR B", 1, 4, 0),
            0xA9 => Instruction::from("XOR C", 1, 4, 0),
            0xAA => Instruction::from("XOR D", 1, 4, 0),
            0xAB => Instruction::from("XOR E", 1, 4, 0),
            0xAC => Instruction::from("XOR H", 1, 4, 0),
            0xAD => Instruction::from("XOR L", 1, 4, 0),
            0xAE => Instruction::from("XOR (HL)", 1, 7, 0),
            0xAF => Instruction::from("XOR A", 1, 4, 0),
            0xB0 => Instruction::from("OR B", 1, 4, 0),
            0xB1 => Instruction::from("OR C", 1, 4, 0),
            0xB2 => Instruction::from("OR D", 1, 4, 0),
            0xB3 => Instruction::from("OR E", 1, 4, 0),
            0xB4 => Instruction::from("OR H", 1, 4, 0),
            0xB5 => Instruction::from("OR L", 1, 4, 0),
            0xB6 => Instruction::from("OR (HL)", 1, 7, 0),
            0xB7 => Instruction::from("OR A", 1, 4, 0),
            0xB8 => Instruction::from("CP B", 1, 4, 0),
            0xB9 => Instruction::from("CP C", 1, 4, 0),
            0xBA => Instruction::from("CP D", 1, 4, 0),
            0xBB => Instruction::from("CP E", 1, 4, 0),
            0xBC => Instruction::from("CP H", 1, 4, 0),
            0xBD => Instruction::from("CP L", 1, 4, 0),
            0xBE => Instruction::from("CP (HL)", 1, 7, 0),
            0xBF => Instruction::from("CP A", 1, 4, 0),
            0xC0 => Instruction::from("RET NZ", 1, 11, 5),
            0xC1 => Instruction::from("POP BC", 1, 10, 0),
            0xC2 => Instruction::from("JP NZ, **", 3, 10, 0),
            0xC3 => Instruction::from("JP **", 3, 10, 0),
            0xC4 => Instruction::from("CALL NZ, **", 3, 17, 10),
            0xC5 => Instruction::from("PUSH BC", 1, 11, 0),
            0xC6 => Instruction::from("ADD A, *", 2, 7, 0),
            0xC7 => Instruction::from("RST 00H", 1, 11, 0),
            0xC8 => Instruction::from("RET Z", 1, 11, 5),
            0xC9 => Instruction::from("RET", 1, 10, 0),
            0xCA => Instruction::from("JP Z, **", 3, 10, 0),
            0xCC => Instruction::from("CALL Z, **", 3, 17, 10),
            0xCD => Instruction::from("CALL **", 3, 17, 0),
            0xCE => Instruction::from("ADC A, *", 2, 7, 0),
            0xCF => Instruction::from("RST 08H", 1, 11, 0),
            0xD0 => Instruction::from("RET NC", 1, 11, 5),
            0xD1 => Instruction::from("POP DE", 1, 10, 0),
            0xD2 => Instruction::from("JP NC, **", 3, 10, 0),
            0xD3 => Instruction::from("OUT (*), A", 2, 11, 0),
            0xD4 => Instruction::from("CALL NC, **", 3, 17, 10),
            0xD5 => Instruction::from("PUSH DE", 1, 11, 0),
            0xD6 => Instruction::from("SUB *", 2, 7, 0),
            0xD7 => Instruction::from("RST 10H", 1, 11, 0),
            0xD8 => Instruction::from("RET C", 1, 11, 5),
            0xD9 => Instruction::from("EXX", 1, 4, 0),
            0xDA => Instruction::from("JP C, **", 3, 10, 0),
            0xDB => Instruction::from("IN A, (*)", 2, 11, 0),
            0xDC => Instruction::from("CALL C, **", 3, 17, 10),
            0xDE => Instruction::from("SBC A, *", 2, 7, 0),
            0xDF => Instruction::from("RST 18H", 1, 11, 0),
            0xE0 => Instruction::from("RET PO", 1, 11, 5),
            0xE1 => Instruction::from("POP HL", 1, 10, 0),
            0xE2 => Instruction::from("JP PO, **", 3, 10, 0),
            0xE3 => Instruction::from("EX (SP), HL", 1, 19, 0),
            0xE4 => Instruction::from("CALL PO, **", 3, 17, 10),
            0xE5 => Instruction::from("PUSH HL", 1, 11, 0),
            0xE6 => Instruction::from("AND *", 2, 7, 0),
            0xE7 => Instruction::from("RST 20H", 1, 11, 0),
            0xE8 => Instruction::from("RET PE", 1, 11, 5),
            0xE9 => Instruction::from("JP (HL)", 1, 4, 0),
            0xEA => Instruction::from("JP PE, **", 3, 10, 0),
            0xEB => Instruction::from("EX DE, HL", 1, 4, 0),
            0xEC => Instruction::from("CALL PE, **", 3, 17, 10),
            0xEE => Instruction::from("XOR *", 2, 7, 0),
            0xEF => Instruction::from("RST 28H", 1, 11, 0),
            0xF0 => Instruction::from("RET P", 1, 11, 5),
            0xF1 => Instruction::from("POP AF", 1, 10, 0),
            0xF2 => Instruction::from("JP P, **", 3, 10, 0),
            0xF3 => Instruction::from("DI", 1, 4, 0),
            0xF4 => Instruction::from("CALL P, **", 3, 17, 10),
            0xF5 => Instruction::from("PUSH AF", 1, 11, 0),
            0xF6 => Instruction::from("OR *", 2, 7, 0),
            0xF7 => Instruction::from("RST 30H", 1, 11, 0),
            0xF8 => Instruction::from("RET M", 1, 11, 5),
            0xF9 => Instruction::from("LD SP, HL", 1, 6, 0),
            0xFA => Instruction::from("JP M, **", 3, 10, 0),
            0xFB => Instruction::from("EI", 1, 4, 0),
            0xFC => Instruction::from("CALL M, **", 3, 17, 10),
            0xFE => Instruction::from("CP *", 2, 7, 0),
            0xFF => Instruction::from("RST 38H", 1, 11, 0),
            // Bit instructions, keyed 0xCB00..0xCBFF.
            0xCB03 => Instruction::from("RLC E", 2, 8, 0),
            0xCB08 => Instruction::from("RRC B", 2, 8, 0),
            // Index instructions, keyed 0xDD00..0xDDFF and 0xFD00..0xFDFF.
            0xDD19 => Instruction::from("ADD IX, DE", 2, 15, 0),
            0xDD21 => Instruction::from("LD IX, **", 4, 14, 0),
            0xDD22 => Instruction::from("LD (**), IX", 4, 20, 0),
            0xDD23 => Instruction::from("INC IX", 2, 10, 0),
            0xDD77 => Instruction::from("LD (IX+*), A", 3, 19, 0),
            0xDD7E => Instruction::from("LD A, (IX+*)", 3, 19, 0),
            0xDDE1 => Instruction::from("POP IX", 2, 14, 0),
            0xDDE5 => Instruction::from("PUSH IX", 2, 15, 0),
            0xDDE9 => Instruction::from("JP (IX)", 2, 8, 0),
            0xFD21 => Instruction::from("LD IY, **", 4, 14, 0),
            0xFD22 => Instruction::from("LD (**), IY", 4, 20, 0),
            0xFD23 => Instruction::from("INC IY", 2, 10, 0),
            0xFD2B => Instruction::from("DEC IY", 2, 10, 0),
            0xFD7E => Instruction::from("LD A, (IY+*)", 3, 19, 0),
            0xFDE1 => Instruction::from("POP IY", 2, 14, 0),
            0xFDE5 => Instruction::from("PUSH IY", 2, 15, 0),
            0xFDE9 => Instruction::from("JP (IY)", 2, 8, 0),
            // Extended instructions, keyed 0xED00..0xEDFF.
            0xED43 => Instruction::from("LD (**), BC", 4, 20, 0),
            0xED46 => Instruction::from("IM 0", 2, 8, 0),
            0xED47 => Instruction::from("LD I, A", 2, 9, 0),
            0xED4A => Instruction::from("ADC HL, BC", 2, 15, 0),
            0xED4B => Instruction::from("LD BC, (**)", 4, 20, 0),
            0xED4F => Instruction::from("LD R, A", 2, 9, 0),
            0xED53 => Instruction::from("LD (**), DE", 4, 20, 0),
            0xED56 => Instruction::from("IM 1", 2, 8, 0),
            0xED57 => Instruction::from("LD A, I", 2, 9, 0),
            0xED5A => Instruction::from("ADC HL, DE", 2, 15, 0),
            0xED5B => Instruction::from("LD DE, (**)", 4, 20, 0),
            0xED5F => Instruction::from("LD A, R", 2, 9, 0),
            0xED63 => Instruction::from("LD (**), HL", 4, 20, 0),
            0xED66 => Instruction::from("IM 0", 2, 8, 0),
            0xED6A => Instruction::from("ADC HL, HL", 2, 15, 0),
            0xED6B => Instruction::from("LD HL, (**)", 4, 20, 0),
            0xED73 => Instruction::from("LD (**), SP", 4, 20, 0),
            0xED76 => Instruction::from("IM 1", 2, 8, 0),
            0xED7A => Instruction::from("ADC HL, SP", 2, 15, 0),
            0xED7B => Instruction::from("LD SP, (**)", 4, 20, 0),
            0xED7E => Instruction::from("IM 2", 2, 8, 0),
            0xEDA0 => Instruction::from("LDI", 2, 16, 0),
            0xEDA1 => Instruction::from("CPI", 2, 16, 0),
            0xEDB0 => Instruction::from("LDIR", 2, 21, 16),
            _ => Instruction::from("?", 0, 0, 0),
        }
    }
}

} // verus!
