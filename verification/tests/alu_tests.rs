use rugby::cpu::alu::{add16, add_sp, alu, alu_adc, alu_add, alu_sbc, alu_sub, daa, dec, inc, set_flags, shift};

#[test]
fn add_sets_half_carry_carry_and_zero() {
    assert_eq!(alu_add(0x3A, 0xC6, 0x00), (0x00, 0xB0));
    assert_eq!(alu_add(0x01, 0x02, 0x00), (0x03, 0x00));
    assert_eq!(alu_add(0x0F, 0x01, 0x00), (0x10, 0x20));
}

#[test]
fn adc_adds_the_carry() {
    assert_eq!(alu_adc(0xE1, 0x0F, 0x10), (0xF1, 0x20));
    assert_eq!(alu_adc(0xE1, 0x1E, 0x10), (0x00, 0xB0));
    assert_eq!(alu_adc(0xE1, 0x0F, 0x00), (0xF0, 0x20));
}

#[test]
fn sub_sets_borrow_flags() {
    assert_eq!(alu_sub(0x3E, 0x0F, 0x00), (0x2F, 0x60));
    assert_eq!(alu_sub(0x3E, 0x3E, 0x00), (0x00, 0xC0));
    assert_eq!(alu_sub(0x3E, 0x40, 0x00), (0xFE, 0x50));
}

#[test]
fn sbc_subtracts_the_carry() {
    assert_eq!(alu_sbc(0x3B, 0x2A, 0x10), (0x10, 0x40));
    assert_eq!(alu_sbc(0x3B, 0x3A, 0x10), (0x00, 0xC0));
    assert_eq!(alu_sbc(0x3B, 0x4F, 0x10), (0xEB, 0x70));
}

#[test]
fn logic_operations() {
    assert_eq!(alu(4, 0x5A, 0x3F, 0x00), (0x1A, 0x20));
    assert_eq!(alu(4, 0x5A, 0x00, 0x00), (0x00, 0xA0));
    assert_eq!(alu(5, 0xFF, 0xFF, 0x00), (0x00, 0x80));
    assert_eq!(alu(5, 0xFF, 0x0F, 0xF0), (0xF0, 0x00));
    assert_eq!(alu(6, 0x5A, 0x03, 0x00), (0x5B, 0x00));
    assert_eq!(alu(6, 0x00, 0x00, 0x00), (0x00, 0x80));
}

#[test]
fn compare_keeps_the_accumulator() {
    assert_eq!(alu(7, 0x3C, 0x2F, 0x00), (0x3C, 0x60));
    assert_eq!(alu(7, 0x3C, 0x3C, 0x00), (0x3C, 0xC0));
    assert_eq!(alu(7, 0x3C, 0x40, 0x00), (0x3C, 0x50));
}

#[test]
fn alu_dispatch_matches_the_single_operations() {
    for op in 0u8..4 {
        for &(a, b, f) in &[(0x12u8, 0x34u8, 0x00u8), (0xFF, 0x01, 0x10), (0x80, 0x80, 0xF0)] {
            let expected = match op {
                0 => alu_add(a, b, f),
                1 => alu_adc(a, b, f),
                2 => alu_sub(a, b, f),
                _ => alu_sbc(a, b, f),
            };
            assert_eq!(alu(op, a, b, f), expected);
        }
    }
}

#[test]
fn inc_and_dec_keep_the_carry() {
    assert_eq!(inc(0xFF, 0x10), (0x00, 0xB0));
    assert_eq!(inc(0x50, 0x00), (0x51, 0x00));
    assert_eq!(inc(0x0F, 0x00), (0x10, 0x20));
    assert_eq!(dec(0x01, 0x00), (0x00, 0xC0));
    assert_eq!(dec(0x00, 0x00), (0xFF, 0x60));
    assert_eq!(dec(0x00, 0x10), (0xFF, 0x70));
}

#[test]
fn rotates_and_shifts() {
    assert_eq!(shift(0, 0x85, 0x00), (0x0B, 1));
    assert_eq!(shift(1, 0x01, 0x00), (0x80, 1));
    assert_eq!(shift(2, 0x80, 0x10), (0x01, 1));
    assert_eq!(shift(2, 0x11, 0x00), (0x22, 0));
    assert_eq!(shift(3, 0x01, 0x00), (0x00, 1));
    assert_eq!(shift(3, 0x8A, 0x10), (0xC5, 0));
    assert_eq!(shift(4, 0xFF, 0x00), (0xFE, 1));
    assert_eq!(shift(5, 0x8A, 0x00), (0xC5, 0));
    assert_eq!(shift(6, 0xF0, 0x00), (0x0F, 0));
    assert_eq!(shift(7, 0x01, 0x00), (0x00, 1));
    assert_eq!(shift(7, 0xFF, 0x00), (0x7F, 1));
}

#[test]
fn swap_twice_and_rlc_then_rrc_give_the_byte_back() {
    for v in 0u8..=255 {
        let (s, _) = shift(6, v, 0);
        assert_eq!(shift(6, s, 0).0, v);
        let (r, _) = shift(0, v, 0);
        assert_eq!(shift(1, r, 0).0, v);
    }
}

#[test]
fn add_then_sub_gives_the_accumulator_back() {
    for a in (0u8..=255).step_by(7) {
        for b in (0u8..=255).step_by(11) {
            let (sum, f) = alu_add(a, b, 0);
            assert_eq!(alu_sub(sum, b, f).0, a);
        }
    }
}

#[test]
fn xor_with_itself_clears_and_sets_zero() {
    for a in 0u8..=255 {
        let (r, f) = alu(5, a, a, 0x70);
        assert_eq!(r, 0);
        assert_eq!(f & 0x80, 0x80);
    }
}

#[test]
fn decimal_adjust() {
    assert_eq!(daa(0x3C, 0x00), (0x42, 0x00));
    assert_eq!(daa(0x9A, 0x00), (0x00, 0x90));
    assert_eq!(daa(0x45, 0x00), (0x45, 0x00));
    assert_eq!(daa(0x0F, 0x40), (0x0F, 0x40));
    assert_eq!(daa(0x66, 0x70), (0x00, 0xD0));
}

#[test]
fn sixteen_bit_addition() {
    assert_eq!(add16(0x8A23, 0x0605, 0x00), (0x9028, 0x20));
    assert_eq!(add16(0x8A23, 0x8A23, 0x00), (0x1446, 0x30));
    assert_eq!(add16(0x0001, 0x0001, 0x80), (0x0002, 0x80));
}

#[test]
fn stack_pointer_plus_signed_offset() {
    assert_eq!(add_sp(0xFFF8, 0x02, 0x00), (0xFFFA, 0x00));
    assert_eq!(add_sp(0x0005, 0xFF, 0x00), (0x0004, 0x30));
    assert_eq!(add_sp(0x1000, 0x80, 0xF0), (0x0F80, 0x00));
}

#[test]
fn flag_setting_keeps_the_low_nibble() {
    assert_eq!(set_flags(0x0F, 1, 0, 1, 0), 0xAF);
    assert_eq!(set_flags(0xFF, 0, 0, 0, 0), 0x0F);
}
