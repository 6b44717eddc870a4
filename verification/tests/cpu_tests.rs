use z80_rs::cpu::Flags;
use z80_rs::instructions::Register;
use z80_rs::interconnect::Interconnect;

#[test]
fn test_hf_flag() {
    // Make sure HF flag gets set on accumulator value wrap from FFh to 00h.
    let mut i = Interconnect::new();
    i.cpu.reg.a = 0xff;
    i.cpu.inc(Register::A);
    assert_eq!(i.cpu.flags.hf, true);
}

#[test]
fn test_hf_high_byte() {
    // The half carry flag should be set once we increment HL from 00FFh to 0000h
    let mut i = Interconnect::new();
    i.cpu.write_pair_direct(Register::BC, 1); // Set BC to 1 (we will increment HL by 1)
    i.cpu.reg.a = 0xff;
    i.cpu.write_pair_direct(Register::HL, 0x00FF);
    i.cpu.add_hl(Register::BC);
    i.cpu.inc(Register::A);
    assert_eq!(i.cpu.flags.hf, true);
}

#[test]
fn flag_byte_round_trips_for_every_value() {
    let mut f = Flags::new();
    for v in 0..=255u8 {
        f.set(v);
        assert_eq!(f.get(), v);
    }
    // Unpacking the packed form restores the booleans.
    f.set(0xA5);
    let packed = f.get();
    f.set(0x00);
    f.set(packed);
    assert_eq!(f.get(), 0xA5);
}

#[test]
fn shadow_flag_byte_round_trips() {
    let mut f = Flags::new();
    for v in [0x00u8, 0x01, 0x80, 0xFF, 0x5A] {
        f.set_shadow(v);
        assert_eq!(f.get_shadow(), v);
    }
}

#[test]
fn pair_write_read_round_trips() {
    let mut i = Interconnect::new();
    for w in [0x0000u16, 0x00FF, 0xFF00, 0x1234, 0xFFFF] {
        i.cpu.write_pair_direct(Register::HL, w);
        assert_eq!(i.cpu.get_pair(Register::HL), w);
        assert_eq!(i.cpu.reg.h, (w >> 8) as u8);
        assert_eq!(i.cpu.reg.l, (w & 0xFF) as u8);
    }
}

#[test]
fn inc_sets_half_carry_at_nibble_boundary() {
    let mut i = Interconnect::new();
    i.cpu.reg.a = 0x0F;
    i.cpu.inc(Register::A);
    assert_eq!(i.cpu.reg.a, 0x10);
    assert_eq!(i.cpu.flags.hf, true);

    i.cpu.reg.a = 0x10;
    i.cpu.inc(Register::A);
    assert_eq!(i.cpu.reg.a, 0x11);
    assert_eq!(i.cpu.flags.hf, false);
}

#[test]
fn dec_half_carry_and_wraparound() {
    let mut i = Interconnect::new();
    i.cpu.reg.a = 0x10;
    i.cpu.dec(Register::A);
    assert_eq!(i.cpu.reg.a, 0x0F);
    assert_eq!(i.cpu.flags.hf, true);

    i.cpu.reg.a = 0x00;
    i.cpu.dec(Register::A);
    assert_eq!(i.cpu.reg.a, 0xFF);
    assert_eq!(i.cpu.flags.nf, true);
}

#[test]
fn add_a_a_with_sign_bit_set() {
    let mut i = Interconnect::new();
    i.cpu.reg.a = 0x80;
    i.cpu.add(Register::A);
    assert_eq!(i.cpu.reg.a, 0x00);
    assert_eq!(i.cpu.flags.cf, true);
    assert_eq!(i.cpu.flags.zf, true);
    assert_eq!(i.cpu.flags.sf, false);
}

#[test]
fn add_signals_signed_overflow() {
    let mut i = Interconnect::new();
    i.cpu.reg.a = 0x7F;
    i.cpu.add(Register::A);
    assert_eq!(i.cpu.reg.a, 0xFE);
    assert_eq!(i.cpu.flags.pf, true);
    assert_eq!(i.cpu.flags.hf, true);
    assert_eq!(i.cpu.flags.cf, false);
    assert_eq!(i.cpu.flags.sf, true);
}

#[test]
fn and_sets_half_carry_and_clears_carry() {
    let mut i = Interconnect::new();
    i.cpu.flags.cf = true;
    i.cpu.reg.a = 0xC0;
    i.cpu.ana(Register::A);
    assert_eq!(i.cpu.reg.a, 0xC0);
    assert_eq!(i.cpu.flags.hf, true);
    assert_eq!(i.cpu.flags.cf, false);
    // 0xC0 has two one bits: even parity.
    assert_eq!(i.cpu.flags.pf, true);
}

#[test]
fn xor_clears_half_carry_and_carry() {
    let mut i = Interconnect::new();
    i.cpu.flags.cf = true;
    i.cpu.flags.hf = true;
    i.cpu.reg.a = 0xF0;
    i.cpu.reg.b = 0x70;
    i.cpu.xra(Register::B);
    assert_eq!(i.cpu.reg.a, 0x80);
    assert_eq!(i.cpu.flags.hf, false);
    assert_eq!(i.cpu.flags.cf, false);
    // 0x80 has one bit set: odd parity.
    assert_eq!(i.cpu.flags.pf, false);
    assert_eq!(i.cpu.flags.sf, true);
}

#[test]
fn subtraction_copies_operand_bits_into_flags() {
    // Bits 5 and 3 of the flags come from the subtrahend, not the result.
    let mut i = Interconnect::new();
    i.cpu.reg.a = 0xFF;
    i.cpu.reg.b = 0x28;
    i.cpu.sub(Register::B);
    assert_eq!(i.cpu.reg.a, 0xD7);
    assert_eq!(i.cpu.flags.yf, true);
    assert_eq!(i.cpu.flags.xf, true);
    assert_eq!(i.cpu.flags.nf, true);
    assert_eq!(i.cpu.flags.cf, false);
}

#[test]
fn compare_leaves_accumulator_and_sets_borrow() {
    let mut i = Interconnect::new();
    i.cpu.reg.a = 0x10;
    i.cpu.reg.c = 0x20;
    i.cpu.cmp(Register::C);
    assert_eq!(i.cpu.reg.a, 0x10);
    assert_eq!(i.cpu.flags.cf, true);
    assert_eq!(i.cpu.flags.zf, false);
    assert_eq!(i.cpu.flags.nf, true);
}

#[test]
fn sbc_folds_borrow_into_result() {
    let mut i = Interconnect::new();
    i.cpu.reg.a = 0x10;
    i.cpu.reg.b = 0x0F;
    i.cpu.flags.cf = true;
    i.cpu.sbc(Register::B);
    assert_eq!(i.cpu.reg.a, 0x00);
    assert_eq!(i.cpu.flags.zf, true);
    assert_eq!(i.cpu.flags.cf, false);
}

#[test]
fn daa_corrects_bcd_addition() {
    let mut i = Interconnect::new();
    i.cpu.reg.a = 0x15;
    i.cpu.reg.b = 0x27;
    i.cpu.add(Register::B);
    assert_eq!(i.cpu.reg.a, 0x3C);
    i.cpu.daa();
    assert_eq!(i.cpu.reg.a, 0x42);
    assert_eq!(i.cpu.flags.cf, false);
}

#[test]
fn daa_never_clears_a_set_carry() {
    let mut i = Interconnect::new();
    i.cpu.reg.a = 0x01;
    i.cpu.flags.cf = true;
    i.cpu.daa();
    assert_eq!(i.cpu.flags.cf, true);
    i.cpu.daa();
    assert_eq!(i.cpu.flags.cf, true);
}

#[test]
fn rotates_move_bits_through_carry() {
    let mut i = Interconnect::new();
    i.cpu.reg.a = 0x80;
    i.cpu.rlca();
    assert_eq!(i.cpu.reg.a, 0x01);
    assert_eq!(i.cpu.flags.cf, true);

    i.cpu.reg.a = 0x01;
    i.cpu.rrca();
    assert_eq!(i.cpu.reg.a, 0x80);
    assert_eq!(i.cpu.flags.cf, true);

    i.cpu.reg.a = 0x01;
    i.cpu.flags.cf = true;
    i.cpu.rla();
    assert_eq!(i.cpu.reg.a, 0x03);
    assert_eq!(i.cpu.flags.cf, false);

    i.cpu.reg.a = 0x02;
    i.cpu.flags.cf = true;
    i.cpu.rra();
    assert_eq!(i.cpu.reg.a, 0x81);
    assert_eq!(i.cpu.flags.cf, false);
}

#[test]
fn prefixed_rotates_set_parity_from_result() {
    let mut i = Interconnect::new();
    i.cpu.reg.e = 0x81;
    i.cpu.rlc(Register::E);
    assert_eq!(i.cpu.reg.e, 0x03);
    assert_eq!(i.cpu.flags.cf, true);
    assert_eq!(i.cpu.flags.pf, true);

    i.cpu.reg.b = 0x01;
    i.cpu.rrc(Register::B);
    assert_eq!(i.cpu.reg.b, 0x80);
    assert_eq!(i.cpu.flags.cf, true);
    assert_eq!(i.cpu.flags.sf, true);
}

#[test]
fn exchanges_swap_register_banks() {
    let mut i = Interconnect::new();
    i.cpu.reg.b = 0x11;
    i.cpu.reg.b_ = 0x22;
    i.cpu.exx();
    assert_eq!(i.cpu.reg.b, 0x22);
    assert_eq!(i.cpu.reg.b_, 0x11);

    i.cpu.reg.a = 0x33;
    i.cpu.reg.a_ = 0x44;
    i.cpu.flags.cf = true;
    i.cpu.flags.cf_ = false;
    i.cpu.ex_af_af();
    assert_eq!(i.cpu.reg.a, 0x44);
    assert_eq!(i.cpu.reg.a_, 0x33);
    assert_eq!(i.cpu.flags.cf, false);
    assert_eq!(i.cpu.flags.cf_, true);

    i.cpu.write_pair_direct(Register::DE, 0xAAAA);
    i.cpu.write_pair_direct(Register::HL, 0x5555);
    i.cpu.ex_de_hl();
    assert_eq!(i.cpu.get_pair(Register::DE), 0x5555);
    assert_eq!(i.cpu.get_pair(Register::HL), 0xAAAA);
}

#[test]
fn add_hl_carries_out_of_bit_eleven() {
    let mut i = Interconnect::new();
    i.cpu.write_pair_direct(Register::HL, 0x0FFF);
    i.cpu.write_pair_direct(Register::BC, 0x0001);
    i.cpu.add_hl(Register::BC);
    assert_eq!(i.cpu.get_pair(Register::HL), 0x1000);
    assert_eq!(i.cpu.flags.hf, true);
    assert_eq!(i.cpu.flags.cf, false);

    i.cpu.write_pair_direct(Register::HL, 0xFFFF);
    i.cpu.write_pair_direct(Register::DE, 0x0001);
    i.cpu.add_hl(Register::DE);
    assert_eq!(i.cpu.get_pair(Register::HL), 0x0000);
    assert_eq!(i.cpu.flags.cf, true);
}

#[test]
fn adc_hl_sets_zero_and_overflow() {
    let mut i = Interconnect::new();
    i.cpu.write_pair_direct(Register::HL, 0xFFFF);
    i.cpu.write_pair_direct(Register::BC, 0x0000);
    i.cpu.flags.cf = true;
    i.cpu.adc_hl(Register::BC);
    assert_eq!(i.cpu.get_pair(Register::HL), 0x0000);
    assert_eq!(i.cpu.flags.zf, true);
    assert_eq!(i.cpu.flags.cf, true);

    i.cpu.write_pair_direct(Register::HL, 0x7FFF);
    i.cpu.write_pair_direct(Register::DE, 0x0001);
    i.cpu.flags.cf = false;
    i.cpu.adc_hl(Register::DE);
    assert_eq!(i.cpu.get_pair(Register::HL), 0x8000);
    assert_eq!(i.cpu.flags.pf, true);
    assert_eq!(i.cpu.flags.sf, true);
}

#[test]
fn reset_restores_power_on_state() {
    let mut i = Interconnect::new();
    i.cpu.reg.b = 0x42;
    i.cpu.int.iff1 = true;
    i.cpu.reset();
    assert_eq!(i.cpu.reg.a, 0xFF);
    assert_eq!(i.cpu.reg.b, 0x00);
    assert_eq!(i.cpu.reg.sp, 0xFFFF);
    assert_eq!(i.cpu.flags.get(), 0xFF);
    assert_eq!(i.cpu.int.mode, 1);
    assert_eq!(i.cpu.int.iff1, false);
    assert_eq!(i.cpu.int.iff2, false);
}

#[test]
fn try_reset_cycles_clears_only_past_threshold() {
    let mut i = Interconnect::new();
    i.cpu.cycles = 25_599;
    i.cpu.try_reset_cycles();
    assert_eq!(i.cpu.cycles, 25_599);
    i.cpu.cycles = 25_600;
    i.cpu.try_reset_cycles();
    assert_eq!(i.cpu.cycles, 0);
}
