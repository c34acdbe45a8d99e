use v86::bits::{swap_bytes32, swap_bytes64};
use v86::cpu::Cpu;
use v86::flags::{FLAG_CARRY, FLAG_OVERFLOW, FLAG_ZERO};
use v86::profiler::{profiler_hot_pages_get, profiler_hot_pages_sort, record_block, Profiler};
use v86::run::Step;
use v86::system::RegisterMove;
use v86::width::sized;

fn cpu(rex: u8) -> Cpu {
    Cpu { reg: [0; 16], flags: 2, instruction_pointer: 0x1000, rex }
}

#[test]
fn odd_conditions_negate_even_ones() {
    for flags in [2, 2 | FLAG_ZERO, 2 | FLAG_CARRY, 2 | FLAG_OVERFLOW, 0x8D7] {
        let c = Cpu { flags, ..cpu(0) };
        for condition in (0..16).step_by(2) {
            assert_eq!(c.test_condition(condition + 1), !c.test_condition(condition));
        }
    }
}

#[test]
fn narrowing_twice_is_narrowing_once() {
    for v in [0i64, 0x7F, 0x80, 0xFFFF, 0x1_8000, -1, i64::MIN, 0x1234_5678_9ABC_DEF0] {
        for w in [8, 16, 32, 64] {
            assert_eq!(sized(sized(v, w), w), sized(v, w));
        }
    }
}

#[test]
fn swapping_bytes_twice_gives_the_value_back() {
    for v in [0u64, 1, 0x0102_0304_0506_0708, u64::MAX, 0xDEAD_BEEF] {
        assert_eq!(swap_bytes64(swap_bytes64(v)), v);
        assert_eq!(swap_bytes32(swap_bytes32(v as u32)), v as u32);
    }
}

#[test]
fn bit_tests_touch_only_their_bit() {
    let mut c = cpu(0);
    let value = 0b1010i64;
    assert_eq!(c.bit_test_op(5, value, 0, 32), Some(0b1011));
    assert_eq!(c.flags & FLAG_CARRY, 0);
    assert_eq!(c.bit_test_op(6, value, 1, 32), Some(0b1000));
    assert_ne!(c.flags & FLAG_CARRY, 0);
    assert_eq!(c.bit_test_op(7, value, 3, 32), Some(0b0010));
    assert_eq!(c.bit_test_op(4, value, 3, 32), None);
    // the index is taken modulo the width
    assert_eq!(c.bit_test_op(5, 0, 33, 32), Some(0b10));
}

#[test]
fn add_carry_and_overflow_mean_what_they_say() {
    let mut c = cpu(0);
    // 0xff + 1 at 8 bits: unsigned overflow, no signed overflow
    assert_eq!(c.group1_op(0, -1, 1, 8), Some(0));
    assert_ne!(c.flags & FLAG_CARRY, 0);
    assert_eq!(c.flags & FLAG_OVERFLOW, 0);
    // 0x7f + 1 at 8 bits: signed overflow, no unsigned one
    assert_eq!(c.group1_op(0, 0x7F, 1, 8), Some(-128));
    assert_eq!(c.flags & FLAG_CARRY, 0);
    assert_ne!(c.flags & FLAG_OVERFLOW, 0);
    // 0 - 1 borrows
    assert_eq!(c.group1_op(5, 0, 1, 64), Some(-1));
    assert_ne!(c.flags & FLAG_CARRY, 0);
    // cmp leaves nothing to write
    assert_eq!(c.group1_op(7, 3, 3, 64), None);
    assert_ne!(c.flags & FLAG_ZERO, 0);
}

#[test]
fn adc_and_sbb_count_the_incoming_carry() {
    let mut c = cpu(0);
    c.flags |= FLAG_CARRY;
    assert_eq!(c.adc_sbb(-1, 0, 16, false), 0);
    assert_ne!(c.flags & FLAG_CARRY, 0);
    c.flags |= FLAG_CARRY;
    assert_eq!(c.adc_sbb(0, 0, 32, true), -1);
    assert_ne!(c.flags & FLAG_CARRY, 0);
    c.flags &= !FLAG_CARRY;
    assert_eq!(c.adc_sbb(5, 3, 32, true), 2);
    assert_eq!(c.flags & FLAG_CARRY, 0);
}

#[test]
fn rotate_right_undoes_rotate_left() {
    for (value, width) in [(0xA5i64, 8), (0x1234, 16), (0x8000_0001, 32), (0x0123_4567_89AB_CDEF, 64)] {
        for count in [1, 3, 7, 13, 31, 63] {
            let mut c = cpu(0);
            let left = c.rotate_op(0, value, count, width).unwrap();
            let back = c.rotate_op(1, left, count, width).unwrap();
            let mask: i64 = if width == 64 { -1 } else { (1 << width) - 1 };
            assert_eq!(back & mask, value & mask);
        }
    }
}

#[test]
fn multiply_is_exact() {
    let mut c = cpu(0);
    c.reg[0] = 0xFFFF_FFFF;
    assert!(c.mul_div_op(4, 0xFFFF_FFFF, 32).is_ok());
    let product = (c.reg[2] as u128) << 32 | c.reg[0] as u128;
    assert_eq!(product, 0xFFFF_FFFFu128 * 0xFFFF_FFFFu128);
}

#[test]
fn a_refused_instruction_changes_nothing() {
    let mut c = cpu(0x48);
    c.reg = [3, 1, 4, 1, 5, 9, 2, 6, 5, 3, 5, 8, 9, 7, 9, 3];
    c.flags = 0x8D7;
    let before = (c.reg, c.flags, c.instruction_pointer);
    for (opcode, code) in [
        (0x01, &[][..]),
        (0x50, &[][..]),
        (0xF7, &[0xF6][..]),
        (0x0F, &[0xAF][..]),
        (0x0F, &[0x05][..]),
        (0xD6, &[][..]),
    ] {
        let step = c.run(opcode, code, false, false);
        assert_ne!(step, Step::Done);
        assert_eq!((c.reg, c.flags, c.instruction_pointer), before);
    }
    // refused as not implemented once the modrm was read: registers and flags kept, the
    // instruction pointer past the modrm
    assert_eq!(c.run(0xFE, &[0xF8], false, false), Step::Unimplemented);
    assert_eq!((c.reg, c.flags, c.instruction_pointer), (before.0, before.1, before.2 + 1));
    c.instruction_pointer = before.2;
    assert_eq!(c.run_ff(0xF8, false), Step::Unimplemented);
    assert_eq!((c.reg, c.flags, c.instruction_pointer), before);
}

#[test]
fn pages_are_keyed_by_address_and_ring() {
    let mut p = Profiler::new(true);
    record_block(&mut p, 0xFFFFF, true, 1, true);
    record_block(&mut p, 0xFFFFF, false, 3, true);
    record_block(&mut p, 0x7FFFF, true, 2, true);
    assert_eq!(profiler_hot_pages_sort(&mut p), 3);
    assert_eq!(profiler_hot_pages_get(&p, 0, 0), 0xFFFFF000);
    assert_eq!(profiler_hot_pages_get(&p, 0, 1), 0);
    assert_eq!(profiler_hot_pages_get(&p, 1, 0), 0x7FFFF000);
    assert_eq!(profiler_hot_pages_get(&p, 1, 1), 1);
    assert_eq!(profiler_hot_pages_get(&p, 2, 0), 0xFFFFF000);
    assert_eq!(profiler_hot_pages_get(&p, 2, 1), 1);
}

#[test]
fn a_failed_pair_exchange_succeeds_on_retry() {
    for osize in [32, 64] {
        let mut c = cpu(0);
        c.reg[0] = 1;
        c.reg[2] = 2;
        c.reg[3] = 0x33;
        c.reg[1] = 0x11;
        let (low, high) = (0xDEAD, 0xBEEF);
        assert_eq!(c.compare_exchange_pair(osize, low, high), None);
        assert_eq!(c.compare_exchange_pair(osize, low, high), Some((0x33, 0x11)));
    }
}

#[test]
fn divide_identity_on_both_signs() {
    for (dividend, divisor) in [(7i64, 2i64), (-7, 2), (7, -2), (-7, -2), (6, 3), (-1, 5)] {
        let mut c = cpu(0x48);
        c.reg[0] = dividend;
        c.reg[2] = if dividend < 0 { -1 } else { 0 };
        c.reg[1] = divisor;
        assert_eq!(c.mul_div_op(7, divisor, 64).is_ok(), true);
        let (q, r) = (c.reg[0], c.reg[2]);
        assert_eq!(q * divisor + r, dividend);
        assert!(r.abs() < divisor.abs());
        assert!(r == 0 || (r < 0) == (dividend < 0));
    }
}

#[test]
fn rep_stos_stores_at_successive_positions_and_ends_with_rcx_zero() {
    // rep stosw backwards from 0x2000, three elements
    let mut c = cpu(0);
    c.flags |= v86::flags::FLAG_DIRECTION;
    c.reg[0] = 0xBEEF;
    c.reg[1] = 3;
    c.reg[7] = 0x2000;
    let mut stores = Vec::new();
    while let Some(access) = c.string_next(0xAB, 16, true, 0) {
        stores.push(access.store.unwrap());
        if !c.string_element(0xAB, 16, true, false, 0, 0) {
            break;
        }
    }
    assert_eq!(stores, vec![0x2000, 0x1FFE, 0x1FFC]);
    assert_eq!((c.reg[1], c.reg[7]), (0, 0x1FFA));
}

#[test]
fn rotates_run_as_instructions_undo_each_other() {
    for width in [8, 16, 32, 64] {
        for count in [1, 5, 13, 33, 63] {
            let mut c = cpu(0);
            let value = 0x1234_5678_9ABC_DEF1i64;
            let left = c.rotate_op(0, value, count, width).unwrap();
            c.flags = 2 | FLAG_CARRY;
            assert_eq!(c.rotate_op(1, left, count, width), Some(sized(value, width)));
        }
    }
}

#[test]
fn a_debug_register_reads_back_with_its_fixed_bits() {
    let mut dreg = [0i32; 8];
    let mut c = cpu(0);
    c.reg[0] = 0x1_0000_0005;
    // mov dr6, rax; mov rcx, dr6
    assert_eq!(c.move_debug_register(0x23, &[0xF0], 0, 0, &mut dreg), RegisterMove::Done);
    assert_eq!(c.move_debug_register(0x21, &[0xF1], 0, 0, &mut dreg), RegisterMove::Done);
    assert_eq!(c.reg[1], 0xFFFF_0FF5);
    // dr5 writes dr7, which dr7 reads back
    c.reg[2] = 0x10;
    assert_eq!(c.move_debug_register(0x23, &[0xEA], 0, 0, &mut dreg), RegisterMove::Done);
    assert_eq!(c.move_debug_register(0x21, &[0xF9], 0, 0, &mut dreg), RegisterMove::Done);
    assert_eq!(c.reg[1], 0x410);
}
