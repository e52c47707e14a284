use injectorpp::injector_core::arm64_codegenerator::{
    emit_absolute_jump, emit_br, emit_movk, emit_movk_from_address, emit_movz,
    emit_movz_from_address, emit_ret, emit_ret_x30, maybe_emit_long_jump,
};
use injectorpp::injector_core::utils::{bool_array_to_u32, u64_to_bits, u8_to_bits};

fn bits16(value: u16) -> [bool; 16] {
    let mut bits = [false; 16];
    for (i, bit) in bits.iter_mut().enumerate() {
        *bit = (value >> i) & 1 != 0;
    }
    bits
}

#[test]
fn u64_to_bits_is_least_significant_first() {
    let bits = u64_to_bits(0x8000_0000_0000_0005);
    for (i, bit) in bits.iter().enumerate() {
        assert_eq!(*bit, i == 0 || i == 2 || i == 63, "bit {}", i);
    }
    assert_eq!(u64_to_bits(0), [false; 64]);
    assert_eq!(u64_to_bits(u64::MAX), [true; 64]);
}

#[test]
fn u8_to_bits_is_least_significant_first() {
    assert_eq!(u8_to_bits::<5>(9), [true, false, false, true, false]);
    assert_eq!(u8_to_bits::<5>(30), [false, true, true, true, true]);
    assert_eq!(u8_to_bits::<2>(3), [true, true]);
    assert_eq!(u8_to_bits::<2>(0), [false, false]);
    assert_eq!(u8_to_bits::<5>(31), [true; 5]);
    assert_eq!(u8_to_bits::<8>(0x81), [true, false, false, false, false, false, false, true]);
    assert_eq!(u8_to_bits::<8>(0xff), [true; 8]);
    assert_eq!(u8_to_bits::<0>(0), []);
}

#[test]
fn bool_array_to_u32_packs_bits() {
    assert_eq!(bool_array_to_u32([false; 32]), 0);
    assert_eq!(bool_array_to_u32([true; 32]), u32::MAX);
    let mut bits = [false; 32];
    bits[0] = true;
    bits[31] = true;
    bits[4] = true;
    assert_eq!(bool_array_to_u32(bits), 0x8000_0011);
}

#[test]
fn bits_round_trip_through_a_word() {
    for value in [0u32, 1, 0xdead_beef, 0x8000_0000, u32::MAX, 0x1234_5678] {
        let wide = u64_to_bits(value as u64);
        let mut bits = [false; 32];
        bits.copy_from_slice(&wide[..32]);
        assert_eq!(bool_array_to_u32(bits), value);
    }
}

#[test]
fn ret_and_br_encodings() {
    assert_eq!(bool_array_to_u32(emit_ret_x30()), 0xd65f_03c0);
    assert_eq!(bool_array_to_u32(emit_ret(&u8_to_bits::<5>(30))), 0xd65f_03c0);
    assert_eq!(bool_array_to_u32(emit_ret(&u8_to_bits::<5>(0))), 0xd65f_0000);
    assert_eq!(bool_array_to_u32(emit_br(u8_to_bits::<5>(9))), 0xd61f_0120);
    assert_eq!(bool_array_to_u32(emit_br(u8_to_bits::<5>(16))), 0xd61f_0200);
    assert_eq!(bool_array_to_u32(emit_br(u8_to_bits::<5>(31))), 0xd61f_03e0);
}

#[test]
fn movz_and_movk_encodings() {
    let x9 = u8_to_bits::<5>(9);
    assert_eq!(
        bool_array_to_u32(emit_movz(bits16(0x1234), true, u8_to_bits::<2>(0), x9)),
        0xd282_4689
    );
    assert_eq!(
        bool_array_to_u32(emit_movk(bits16(0xabcd), true, u8_to_bits::<2>(1), x9)),
        0xf2b5_79a9
    );
    // 32-bit forms: sf clear
    assert_eq!(
        bool_array_to_u32(emit_movz(bits16(1), false, u8_to_bits::<2>(0), u8_to_bits::<5>(0))),
        0x5280_0020
    );
    assert_eq!(
        bool_array_to_u32(emit_movk(bits16(0xffff), false, u8_to_bits::<2>(1), u8_to_bits::<5>(31))),
        0x72bf_ffff
    );
}

#[test]
fn move_wide_fields_read_back() {
    for rd in [0u8, 1, 9, 16, 30, 31] {
        for imm in [0u16, 1, 0x1234, 0x8000, 0xffff] {
            for hw in 0u8..4 {
                for sf in [false, true] {
                    let movz = bool_array_to_u32(emit_movz(
                        bits16(imm),
                        sf,
                        u8_to_bits::<2>(hw),
                        u8_to_bits::<5>(rd),
                    ));
                    let movk = bool_array_to_u32(emit_movk(
                        bits16(imm),
                        sf,
                        u8_to_bits::<2>(hw),
                        u8_to_bits::<5>(rd),
                    ));
                    for (word, opc) in [(movz, 0b10), (movk, 0b11)] {
                        assert_eq!(word & 0x1f, rd as u32);
                        assert_eq!((word >> 5) & 0xffff, imm as u32);
                        assert_eq!((word >> 21) & 0b11, hw as u32);
                        assert_eq!((word >> 23) & 0x3f, 0b100101);
                        assert_eq!((word >> 29) & 0b11, opc);
                        assert_eq!(word >> 31 == 1, sf);
                    }
                }
            }
        }
    }
}

#[test]
fn move_wide_from_address_takes_the_slice() {
    let address = 0x1122_3344_5566_7788u64;
    let x9 = u8_to_bits::<5>(9);
    assert_eq!(
        bool_array_to_u32(emit_movz_from_address(address, 0, true, u8_to_bits::<2>(0), x9)),
        0xd28e_f109
    );
    assert_eq!(
        bool_array_to_u32(emit_movk_from_address(address, 16, true, u8_to_bits::<2>(1), x9)),
        0xf2aa_acc9
    );
    assert_eq!(
        bool_array_to_u32(emit_movk_from_address(address, 32, true, u8_to_bits::<2>(2), x9)),
        0xf2c6_6889
    );
    assert_eq!(
        bool_array_to_u32(emit_movk_from_address(address, 48, true, u8_to_bits::<2>(3), x9)),
        0xf2e2_2449
    );
    // a slice need not start on a multiple of 16
    assert_eq!(
        (bool_array_to_u32(emit_movz_from_address(address, 4, true, u8_to_bits::<2>(0), x9)) >> 5)
            & 0xffff,
        0x6778
    );
}

#[test]
fn long_jump_is_short_up_to_the_boundary() {
    // the greatest forward displacement of B: 2^27 - 4
    assert_eq!(
        maybe_emit_long_jump(0x1000, 0x1000 + (1 << 27) - 4),
        vec![0x15ff_ffff]
    );
    // one unit beyond: the address is loaded into x16 and branched to
    assert_eq!(
        maybe_emit_long_jump(0x1000, 0x1000 + (1 << 27)),
        vec![0xd282_0010, 0xf2a1_0010, 0xf2c0_0010, 0xf2e0_0010, 0xd61f_0200]
    );
    // the greatest backward displacement: -2^27
    assert_eq!(
        maybe_emit_long_jump(0x1000_0000, 0x1000_0000 - (1 << 27)),
        vec![0x1600_0000]
    );
    assert_eq!(
        maybe_emit_long_jump(0x1000_0000, 0x1000_0000 - (1 << 27) - 4),
        vec![0xd29f_ff90, 0xf2a0_fff0, 0xf2c0_0010, 0xf2e0_0010, 0xd61f_0200]
    );
}

#[test]
fn long_jump_encodings() {
    assert_eq!(maybe_emit_long_jump(0x4000, 0x4000), vec![0x1400_0000]);
    assert_eq!(maybe_emit_long_jump(0x4000, 0x4004), vec![0x1400_0001]);
    assert_eq!(maybe_emit_long_jump(0x4000, 0x3ffc), vec![0x17ff_ffff]);
    assert_eq!(maybe_emit_long_jump(0x4008, 0x4000), vec![0x17ff_fffe]);
    assert_eq!(maybe_emit_long_jump(0x4000, 0x5000), vec![0x1400_0400]);
    assert_eq!(
        maybe_emit_long_jump(0x7f00_0000_1234, 0x7f00_1234_5678),
        vec![0xd28a_cf10, 0xf2a2_4690, 0xf2cf_e010, 0xf2e0_0010, 0xd61f_0200]
    );
    assert_eq!(
        maybe_emit_long_jump(0x7f00_1234_5678, 0x7f00_0000_1234),
        vec![0xd282_4690, 0xf2a0_0010, 0xf2cf_e010, 0xf2e0_0010, 0xd61f_0200]
    );
}

#[test]
fn short_branch_leads_to_its_target() {
    let pc = 0x1000_0000usize;
    for displacement in [0i64, 4, -4, 0x1000, -0x1000, (1 << 27) - 4, -(1 << 27)] {
        let target = (pc as i64 + displacement) as usize;
        let words = maybe_emit_long_jump(pc, target);
        assert_eq!(words.len(), 1);
        let word = words[0];
        assert_eq!(word >> 26, 0b000101);
        // sign-extend the 26-bit immediate
        let imm26 = ((word << 6) as i32) >> 6;
        assert_eq!(pc as i64 + 4 * imm26 as i64, target as i64);
    }
}

/// The address that the words of an absolute jump leave in their register,
/// and the register.
fn run_absolute_jump(words: &[u32]) -> (u64, u32) {
    assert_eq!(words.len(), 5);
    let rd = words[0] & 0x1f;
    let mut register = 0u64;
    for (index, word) in words[..4].iter().enumerate() {
        let hw = (word >> 21) & 3;
        assert_eq!(hw as usize, index);
        assert_eq!(word & 0x1f, rd);
        assert_eq!(word >> 31, 1);
        assert_eq!((word >> 23) & 0x3f, 0b100101);
        let imm = ((word >> 5) & 0xffff) as u64;
        if index == 0 {
            // movz clears the rest
            assert_eq!((word >> 29) & 3, 0b10);
            register = imm;
        } else {
            // movk keeps the rest
            assert_eq!((word >> 29) & 3, 0b11);
            register = (register & !(0xffffu64 << (16 * hw))) | (imm << (16 * hw));
        }
    }
    assert_eq!(words[4], 0xd61f_0000 | (rd << 5));
    (register, rd)
}

#[test]
fn long_jump_leads_to_its_target() {
    for (pc, target) in [
        (0x1000usize, 0x1000usize + (1 << 27)),
        (0x7f00_0000_1234, 0x7f00_1234_5678),
        (0x7f00_1234_5678, 0x7f00_0000_1234),
        (0x5555_0000_0ffc, 0x5554_0000_0001),
        (0, usize::MAX),
        (usize::MAX, 0),
        (0x1000, 0xffff_0000_ffff_0000),
    ] {
        let words = maybe_emit_long_jump(pc, target);
        assert_eq!(run_absolute_jump(&words), (target as u64, 16));
    }
}

#[test]
fn absolute_jump_through_any_register() {
    for register in [0u8, 9, 16, 17, 30, 31] {
        for target in [0u64, 1, 0xffff, 0x1_0000, 0xdead_beef_cafe_f00d, u64::MAX] {
            let words = emit_absolute_jump(target, register);
            assert_eq!(run_absolute_jump(&words), (target, register as u32));
        }
    }
    assert_eq!(
        emit_absolute_jump(0x1122_3344_5566_7788, 9),
        vec![0xd28e_f109, 0xf2aa_acc9, 0xf2c6_6889, 0xf2e2_2449, 0xd61f_0120]
    );
}
