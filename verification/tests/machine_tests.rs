use z80_rs::cpu::CoreError;
use z80_rs::instructions::{Instruction, Register};
use z80_rs::interconnect::Interconnect;

#[test]
fn push_then_pop_moves_the_pair_and_restores_sp() {
    let mut i = Interconnect::new();
    i.cpu.memory.ram[0x0000] = 0xC5; // PUSH BC
    i.cpu.memory.ram[0x0001] = 0xD1; // POP DE
    i.cpu.write_pair_direct(Register::BC, 0xBEEF);
    i.cpu.reg.sp = 0x8000;
    assert_eq!(i.cpu.execute(), Ok(()));
    assert_eq!(i.cpu.reg.sp, 0x7FFE);
    assert_eq!(i.cpu.execute(), Ok(()));
    assert_eq!(i.cpu.get_pair(Register::DE), 0xBEEF);
    assert_eq!(i.cpu.reg.sp, 0x8000);
    assert_eq!(i.cpu.reg.pc, 0x0002);
}

#[test]
fn call_then_ret_returns_past_the_call() {
    let mut i = Interconnect::new();
    i.cpu.memory.ram[0x0100] = 0xCD; // CALL 0x1234
    i.cpu.memory.ram[0x0101] = 0x34;
    i.cpu.memory.ram[0x0102] = 0x12;
    i.cpu.memory.ram[0x1234] = 0xC9; // RET
    i.cpu.reg.pc = 0x0100;
    i.cpu.reg.sp = 0xFF00;
    assert_eq!(i.cpu.execute(), Ok(()));
    assert_eq!(i.cpu.reg.pc, 0x1234);
    assert_eq!(i.cpu.reg.sp, 0xFEFE);
    assert_eq!(i.cpu.execute(), Ok(()));
    assert_eq!(i.cpu.reg.pc, 0x0103);
    assert_eq!(i.cpu.reg.sp, 0xFF00);
}

#[test]
fn conditional_call_costs_differ_by_branch() {
    let mut i = Interconnect::new();
    i.cpu.memory.ram[0x0000] = 0xC4; // CALL NZ, **
    i.cpu.memory.ram[0x0001] = 0x00;
    i.cpu.memory.ram[0x0002] = 0x20;
    i.cpu.flags.zf = true;
    assert_eq!(i.cpu.execute(), Ok(()));
    assert_eq!(i.cpu.reg.pc, 0x0003);
    assert_eq!(i.cpu.cycles, 10);

    let mut j = Interconnect::new();
    j.cpu.memory.ram[0x0000] = 0xC4;
    j.cpu.memory.ram[0x0001] = 0x00;
    j.cpu.memory.ram[0x0002] = 0x20;
    j.cpu.reg.sp = 0x8000;
    j.cpu.flags.zf = false;
    assert_eq!(j.cpu.execute(), Ok(()));
    assert_eq!(j.cpu.reg.pc, 0x2000);
    assert_eq!(j.cpu.cycles, 17);
}

#[test]
fn rst_vectors_into_page_zero() {
    let mut i = Interconnect::new();
    i.cpu.memory.ram[0x0200] = 0xEF; // RST 28H
    i.cpu.reg.pc = 0x0200;
    i.cpu.reg.sp = 0x9000;
    assert_eq!(i.cpu.execute(), Ok(()));
    assert_eq!(i.cpu.reg.pc, 0x0028);
    // The pushed return address is the byte after the RST.
    assert_eq!(i.cpu.memory.peek(0x8FFE), 0x01);
    assert_eq!(i.cpu.memory.peek(0x8FFF), 0x02);
}

#[test]
fn halt_surfaces_as_its_own_status() {
    let mut i = Interconnect::new();
    i.cpu.memory.ram[0x0000] = 0x76;
    assert_eq!(i.cpu.execute(), Err(CoreError::Halt));
    // The CPU idles at the HALT instruction.
    assert_eq!(i.cpu.reg.pc, 0x0000);
}

#[test]
fn undefined_prefixed_opcode_is_a_decode_fault() {
    let mut i = Interconnect::new();
    i.cpu.memory.ram[0x0000] = 0xCB;
    i.cpu.memory.ram[0x0001] = 0x01;
    assert_eq!(i.cpu.execute(), Err(CoreError::Decode(0xCB01)));

    let mut j = Interconnect::new();
    j.cpu.memory.ram[0x0000] = 0xED;
    j.cpu.memory.ram[0x0001] = 0x00;
    assert_eq!(j.run_tests(), Err(CoreError::Decode(0xED00)));
}

#[test]
fn relative_jumps_take_signed_displacements() {
    let mut i = Interconnect::new();
    i.cpu.memory.ram[0x0100] = 0x18; // JR -2: loops onto itself
    i.cpu.memory.ram[0x0101] = 0xFE;
    i.cpu.reg.pc = 0x0100;
    assert_eq!(i.cpu.execute(), Ok(()));
    assert_eq!(i.cpu.reg.pc, 0x0100);

    i.cpu.memory.ram[0x0100] = 0x20; // JR NZ, +3
    i.cpu.memory.ram[0x0101] = 0x03;
    i.cpu.flags.zf = false;
    assert_eq!(i.cpu.execute(), Ok(()));
    assert_eq!(i.cpu.reg.pc, 0x0105);
}

#[test]
fn djnz_loops_until_b_reaches_zero() {
    let mut i = Interconnect::new();
    i.cpu.memory.ram[0x0000] = 0x10; // DJNZ -2
    i.cpu.memory.ram[0x0001] = 0xFE;
    i.cpu.reg.b = 2;
    assert_eq!(i.cpu.execute(), Ok(()));
    assert_eq!(i.cpu.reg.b, 1);
    assert_eq!(i.cpu.reg.pc, 0x0000);
    assert_eq!(i.cpu.execute(), Ok(()));
    assert_eq!(i.cpu.reg.b, 0);
    assert_eq!(i.cpu.reg.pc, 0x0002);
}

#[test]
fn ldir_copies_a_block_and_is_restartable() {
    let mut i = Interconnect::new();
    i.cpu.memory.ram[0x0000] = 0xED;
    i.cpu.memory.ram[0x0001] = 0xB0; // LDIR
    i.cpu.memory.ram[0x0200] = 0xAA;
    i.cpu.memory.ram[0x0201] = 0xBB;
    i.cpu.write_pair_direct(Register::HL, 0x0200);
    i.cpu.write_pair_direct(Register::DE, 0x0300);
    i.cpu.write_pair_direct(Register::BC, 2);
    assert_eq!(i.cpu.execute(), Ok(()));
    // One element per invocation: the repeat re-runs the instruction.
    assert_eq!(i.cpu.reg.pc, 0x0000);
    assert_eq!(i.cpu.get_pair(Register::BC), 1);
    assert_eq!(i.cpu.flags.pf, true);
    assert_eq!(i.cpu.execute(), Ok(()));
    assert_eq!(i.cpu.reg.pc, 0x0002);
    assert_eq!(i.cpu.get_pair(Register::BC), 0);
    assert_eq!(i.cpu.flags.pf, false);
    assert_eq!(i.cpu.memory.peek(0x0300), 0xAA);
    assert_eq!(i.cpu.memory.peek(0x0301), 0xBB);
}

#[test]
fn cpi_scans_and_counts_down() {
    let mut i = Interconnect::new();
    i.cpu.memory.ram[0x0000] = 0xED;
    i.cpu.memory.ram[0x0001] = 0xA1; // CPI
    i.cpu.memory.ram[0x0400] = 0x42;
    i.cpu.reg.a = 0x42;
    i.cpu.write_pair_direct(Register::HL, 0x0400);
    i.cpu.write_pair_direct(Register::BC, 3);
    i.cpu.flags.cf = true;
    assert_eq!(i.cpu.execute(), Ok(()));
    assert_eq!(i.cpu.flags.zf, true);
    assert_eq!(i.cpu.flags.pf, true);
    // CPI leaves the carry flag untouched.
    assert_eq!(i.cpu.flags.cf, true);
    assert_eq!(i.cpu.get_pair(Register::HL), 0x0401);
    assert_eq!(i.cpu.get_pair(Register::BC), 2);
}

#[test]
fn memory_word_access_wraps_at_the_top() {
    let mut i = Interconnect::new();
    i.cpu.memory.write16(0xFFFF, 0xABCD);
    assert_eq!(i.cpu.memory.peek(0xFFFF), 0xCD);
    assert_eq!(i.cpu.memory.peek(0x0000), 0xAB);
    assert_eq!(i.cpu.memory.read16(0xFFFF), 0xABCD);
}

#[test]
fn load_places_an_image_at_its_base() {
    let mut i = Interconnect::new();
    let image: Vec<u8> = vec![0xD3, 0x00, 0xC9];
    i.cpu.memory.load(&image, 0x0100);
    assert_eq!(i.cpu.memory.peek(0x0100), 0xD3);
    assert_eq!(i.cpu.memory.peek(0x0101), 0x00);
    assert_eq!(i.cpu.memory.peek(0x0102), 0xC9);
    assert_eq!(i.cpu.memory.peek(0x00FF), 0x00);
    assert_eq!(i.cpu.memory.peek(0x0103), 0x00);
}

#[test]
fn immediate_loads_and_stores_round_trip() {
    let mut i = Interconnect::new();
    i.cpu.memory.ram[0x0000] = 0x3E; // LD A, 0x77
    i.cpu.memory.ram[0x0001] = 0x77;
    i.cpu.memory.ram[0x0002] = 0x32; // LD (0x4000), A
    i.cpu.memory.ram[0x0003] = 0x00;
    i.cpu.memory.ram[0x0004] = 0x40;
    i.cpu.memory.ram[0x0005] = 0x3A; // LD A, (0x4000)
    i.cpu.memory.ram[0x0006] = 0x00;
    i.cpu.memory.ram[0x0007] = 0x40;
    assert_eq!(i.cpu.execute(), Ok(()));
    assert_eq!(i.cpu.execute(), Ok(()));
    assert_eq!(i.cpu.memory.peek(0x4000), 0x77);
    i.cpu.reg.a = 0;
    assert_eq!(i.cpu.execute(), Ok(()));
    assert_eq!(i.cpu.reg.a, 0x77);
    assert_eq!(i.cpu.reg.pc, 0x0008);
}

#[test]
fn ld_a_i_copies_iff2_into_parity() {
    let mut i = Interconnect::new();
    i.cpu.memory.ram[0x0000] = 0xED;
    i.cpu.memory.ram[0x0001] = 0x57; // LD A, I
    i.cpu.reg.i = 0x55;
    i.cpu.int.iff2 = true;
    assert_eq!(i.cpu.execute(), Ok(()));
    assert_eq!(i.cpu.reg.a, 0x55);
    assert_eq!(i.cpu.flags.pf, true);
    assert_eq!(i.cpu.reg.pc, 0x0002);
}

#[test]
fn xthl_swaps_hl_with_the_stack_top() {
    let mut i = Interconnect::new();
    i.cpu.memory.ram[0x0000] = 0xE3; // EX (SP), HL
    i.cpu.memory.ram[0x9000] = 0x34;
    i.cpu.memory.ram[0x9001] = 0x12;
    i.cpu.reg.sp = 0x9000;
    i.cpu.write_pair_direct(Register::HL, 0xABCD);
    assert_eq!(i.cpu.execute(), Ok(()));
    assert_eq!(i.cpu.get_pair(Register::HL), 0x1234);
    assert_eq!(i.cpu.memory.peek(0x9000), 0xCD);
    assert_eq!(i.cpu.memory.peek(0x9001), 0xAB);
}

#[test]
fn io_instructions_latch_the_port_number() {
    let mut i = Interconnect::new();
    i.cpu.memory.ram[0x0000] = 0xDB; // IN A, (0x42)
    i.cpu.memory.ram[0x0001] = 0x42;
    i.cpu.memory.ram[0x0002] = 0xD3; // OUT (0x7F), A
    i.cpu.memory.ram[0x0003] = 0x7F;
    assert_eq!(i.cpu.execute(), Ok(()));
    assert_eq!(i.cpu.io.port0, 0x42);
    assert_eq!(i.cpu.reg.a, 0xFF);
    assert_eq!(i.cpu.execute(), Ok(()));
    assert_eq!(i.cpu.io.port0, 0x7F);
}

#[test]
fn index_loads_use_signed_displacements() {
    let mut i = Interconnect::new();
    i.cpu.memory.ram[0x0000] = 0xDD; // LD (IX-1), A
    i.cpu.memory.ram[0x0001] = 0x77;
    i.cpu.memory.ram[0x0002] = 0xFF;
    i.cpu.reg.ix = 0x5000;
    i.cpu.reg.a = 0x99;
    assert_eq!(i.cpu.execute(), Ok(()));
    assert_eq!(i.cpu.memory.peek(0x4FFF), 0x99);
    assert_eq!(i.cpu.reg.pc, 0x0003);

    i.cpu.memory.ram[0x0003] = 0xFD; // LD A, (IY+2)
    i.cpu.memory.ram[0x0004] = 0x7E;
    i.cpu.memory.ram[0x0005] = 0x02;
    i.cpu.memory.ram[0x6002] = 0x13;
    i.cpu.reg.iy = 0x6000;
    assert_eq!(i.cpu.execute(), Ok(()));
    assert_eq!(i.cpu.reg.a, 0x13);
}

#[test]
fn refresh_counter_counts_opcode_and_prefix_bytes() {
    let mut i = Interconnect::new();
    i.cpu.memory.ram[0x0000] = 0x00; // NOP
    i.cpu.memory.ram[0x0001] = 0xED;
    i.cpu.memory.ram[0x0002] = 0xA0; // LDI
    i.cpu.reg.r = 0x80;
    assert_eq!(i.cpu.execute(), Ok(()));
    assert_eq!(i.cpu.reg.r, 0x81);
    assert_eq!(i.cpu.execute(), Ok(()));
    // Prefix and opcode byte each bump the counter; bit 7 is preserved.
    assert_eq!(i.cpu.reg.r, 0x83);
}

#[test]
fn nmi_preempts_and_calls_the_fixed_vector() {
    let mut i = Interconnect::new();
    i.cpu.reg.pc = 0x1234;
    i.cpu.reg.sp = 0x8000;
    i.cpu.int.nmi_pending = true;
    i.cpu.int.iff2 = true;
    i.cpu.handle_interrupts(0, 0);
    assert_eq!(i.cpu.reg.pc, 0x0066);
    assert_eq!(i.cpu.reg.sp, 0x7FFE);
    assert_eq!(i.cpu.memory.peek(0x7FFE), 0x34);
    assert_eq!(i.cpu.memory.peek(0x7FFF), 0x12);
    assert_eq!(i.cpu.int.iff1, false);
    assert_eq!(i.cpu.int.iff2, true);
    assert_eq!(i.cpu.int.nmi_pending, false);
}

#[test]
fn mode_one_interrupt_vectors_to_0x38() {
    let mut i = Interconnect::new();
    i.cpu.reg.pc = 0x2000;
    i.cpu.reg.sp = 0x8000;
    i.cpu.int.int = true;
    i.cpu.int.mode = 1;
    i.cpu.int_pending = true;
    i.cpu.handle_interrupts(0, 0);
    assert_eq!(i.cpu.reg.pc, 0x0038);
    assert_eq!(i.cpu.int_pending, false);
    assert_eq!(i.cpu.int.iff1, false);
    assert_eq!(i.cpu.int.iff2, false);
    assert_eq!(i.cpu.memory.peek(0x7FFE), 0x00);
    assert_eq!(i.cpu.memory.peek(0x7FFF), 0x20);
}

#[test]
fn mode_two_interrupt_reads_the_vector_table() {
    let mut i = Interconnect::new();
    i.cpu.reg.pc = 0x2000;
    i.cpu.reg.sp = 0x8000;
    i.cpu.reg.i = 0x20;
    i.cpu.memory.ram[0x2010] = 0x22;
    i.cpu.memory.ram[0x2011] = 0x11;
    i.cpu.int.int = true;
    i.cpu.int.mode = 2;
    i.cpu.int_pending = true;
    i.cpu.handle_interrupts(0, 0x10);
    assert_eq!(i.cpu.reg.pc, 0x1122);
    assert_eq!(i.cpu.int_pending, false);
}

#[test]
fn ei_delays_the_interrupt_by_one_instruction() {
    let mut i = Interconnect::new();
    i.cpu.reg.pc = 0x2000;
    i.cpu.reg.sp = 0x8000;
    i.cpu.int.int = true;
    i.cpu.int.mode = 1;
    i.cpu.int_pending = true;
    // The instruction after EI has not completed: nothing is serviced.
    i.cpu.handle_interrupts(1, 0);
    assert_eq!(i.cpu.reg.pc, 0x2000);
    assert_eq!(i.cpu.int_pending, true);
    assert_eq!(i.cpu.int.iff1, false);
    // One instruction later the enable takes effect and the interrupt
    // is taken.
    i.cpu.handle_interrupts(0, 0);
    assert_eq!(i.cpu.reg.pc, 0x0038);
    assert_eq!(i.cpu.int_pending, false);
}

#[test]
fn di_masks_maskable_interrupts() {
    let mut i = Interconnect::new();
    i.cpu.memory.ram[0x0000] = 0xF3; // DI
    i.cpu.int.iff1 = true;
    i.cpu.int.iff2 = true;
    i.cpu.int.int = true;
    assert_eq!(i.cpu.execute(), Ok(()));
    assert_eq!(i.cpu.int.iff1, false);
    assert_eq!(i.cpu.int.iff2, false);
    i.cpu.int_pending = true;
    let pc = i.cpu.reg.pc;
    i.cpu.handle_interrupts(0, 0);
    assert_eq!(i.cpu.reg.pc, pc);
    assert_eq!(i.cpu.int_pending, true);
}

#[test]
fn a_frame_of_nops_completes_and_counts() {
    let mut i = Interconnect::new();
    // Zeroed memory is a sea of NOPs.
    let r = i.execute_cpu();
    assert_eq!(r, Ok(1));
    assert_eq!(i.frame_count, 1);
    assert!(i.cpu.cycles > 16666);
}

#[test]
fn a_frame_stops_on_a_halt() {
    let mut i = Interconnect::new();
    i.cpu.memory.ram[0x0010] = 0x76;
    let r = i.execute_cpu();
    assert_eq!(r, Err(CoreError::Halt));
    assert_eq!(i.frame_count, 0);
}

#[test]
fn metadata_table_gives_sizes_and_cycle_costs() {
    let nop = Instruction::decode(0x00);
    assert_eq!(nop.size, 1);
    assert_eq!(nop.cycles, 4);
    let call_nz = Instruction::decode(0xC4);
    assert_eq!(call_nz.size, 3);
    assert_eq!(call_nz.cycles, 17);
    assert_eq!(call_nz.alt_cycles, 10);
    let djnz = Instruction::decode(0x10);
    assert_eq!(djnz.name, "DJNZ, *");
    assert_eq!(djnz.size, 2);
    assert_eq!(djnz.cycles, 13);
    assert_eq!(djnz.alt_cycles, 8);
    let ldir = Instruction::decode(0xEDB0);
    assert_eq!(ldir.size, 2);
    assert_eq!(ldir.cycles, 21);
    let unknown = Instruction::decode(0xCB00);
    assert_eq!(unknown.size, 0);
    assert_eq!(Instruction::from("RET", 1, 10, 0).cycles, 10);
    assert_eq!(Instruction::new().size, 0);
}

#[test]
fn bdos_trap_patch_pattern_executes() {
    // The conformance-harness patch: OUT at 0, IN at 5, RET at 7, with a
    // program that calls the BDOS entry.
    let mut i = Interconnect::new();
    i.cpu.reset();
    i.cpu.memory.ram[0x0000] = 0xD3;
    i.cpu.memory.ram[0x0001] = 0x00;
    i.cpu.memory.ram[0x0005] = 0xDB;
    i.cpu.memory.ram[0x0006] = 0x00;
    i.cpu.memory.ram[0x0007] = 0xC9;
    // Program at 0x0100: CALL 0x0005 then JP 0x0000.
    i.cpu.memory.ram[0x0100] = 0xCD;
    i.cpu.memory.ram[0x0101] = 0x05;
    i.cpu.memory.ram[0x0102] = 0x00;
    i.cpu.memory.ram[0x0103] = 0xC3;
    i.cpu.memory.ram[0x0104] = 0x00;
    i.cpu.memory.ram[0x0105] = 0x00;
    i.cpu.reg.pc = 0x0100;
    let mut steps = 0;
    while i.cpu.reg.pc != 0 && steps < 10 {
        assert_eq!(i.run_tests(), Ok(()));
        steps += 1;
    }
    assert_eq!(i.cpu.reg.pc, 0x0000);
    assert_eq!(i.cpu.reg.prev_pc, 0x0103);
}
