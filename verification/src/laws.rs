//! Properties that hold across the operations: what the flags of an add or subtract mean and what
//! each condition code says after a compare, what the multiplies, divides and double shifts compute
//! as arithmetic, when a pair exchange succeeds, that a rotate undoes its opposite, that byte
//! swapping twice is the identity, and the like.

use vstd::prelude::*;
use crate::alu::{adc_sbb_carry, adc_sbb_overflow, adc_sbb_result, lemma_sext_wrapping};
use crate::strings::{is_movs, is_stos, string_access, string_delta, string_element_effect, string_repeat, string_width};
use crate::width::lemma_ext_wrap;
use crate::bits::{bit_mask, bit_test_result, byte_of};
use crate::cpu::{adjust_flag, carry_flag, condition_holds, logical_flags, overflow_flag};
use crate::alu::group1_flags;
use crate::muldiv::{
    mul_div_effect, pair_written, mul_halves, mul_overflow, signed_dividend, trunc_div, trunc_rem, unsigned_dividend,
};
use crate::pair::pair_exchange_effect;
use crate::memory::{AfterStore, memory_dispatch, memory_effect, plain, refused};
use crate::shift::{lemma_shr_divides, lemma_u64_bit, lemma_unsigned_at, rol_ror, rotate_spec, shift_count, unsigned_at, width_mask};
use crate::bits::{double_shift_outcome, double_shift_spec, lemma_bits_facts};
use vstd::arithmetic::power2::pow2;
use crate::profiler::{Profiler, STAT_ARRAY_LEN, lemma_stat_slot_injective, page_key, stat, stat_slot, stat_value};
use crate::run::{operand_size, outcome, reg_field, rm_field, run_effect, run_ff_effect, Step};
use crate::cpu::{Cpu, EAX, EBX, ECX, EDI, EDX, ESI, REX_B, REX_R, lemma_sized_write, sized_write};
use crate::modrm::{lemma_modrm_fields, rex_extension};
use crate::flags::{
    FLAGS_DEFAULT, FLAG_CARRY, FLAG_OVERFLOW, FLAG_PARITY, FLAG_RF, FLAG_SIGN, FLAG_VM, FLAG_ZERO, even_parity,
    lemma_with_arith_flags, lemma_with_carry,
};
use crate::system::{
    CR4_DE, EFER_SCE, RegisterMove, SystemEffect, SystemState, debug_move_spec, debug_register_write, swapgs_spec,
    syscall_spec, sysret_spec,
};
use crate::width::{lemma_cast_bits, lemma_cast_widths, lemma_width_constants, modulus, sext, sized_spec, uext, valid_osize};

verus! {

/// The odd condition codes are the negations of the even ones below them.
pub proof fn lemma_condition_negation(flags: i32, condition: i32)
    requires
        0 <= condition < 16,
        condition % 2 == 0,
    ensures
        condition_holds(flags, (condition + 1) as i32) == !condition_holds(flags, condition),
{
    lemma_condition_code_fields(condition);
    lemma_condition_code_fields((condition + 1) as i32);
}

/// A condition code's fields: the condition it names is the code halved, and its low bit says
/// whether it is negated.
proof fn lemma_condition_code_fields(c: i32)
    ensures
        0 <= c < 16 ==> c >> 1 == c / 2 && (c & 1 != 0) == (c % 2 == 1),
{
    lemma_low_bit(c);
}

/// The halving and the low bit of a byte.
proof fn lemma_low_bit(c: i32)
    by (bit_vector)
    ensures
        0 <= c < 256 ==> c >> 1 == c / 2 && (c & 1 != 0) == (c % 2 == 1),
{
}

/// What each condition code reads of the flags word: o the overflow flag, b the carry, z the
/// zero, be carry or zero, s the sign, p the parity, l the sign differing from overflow, le zero
/// or the sign differing from overflow; each odd code the negation of the even one below it.
pub proof fn lemma_condition_meanings(flags: i32, condition: i32)
    requires
        0 <= condition < 16,
    ensures
        ({
            let cf = flags & FLAG_CARRY != 0;
            let zf = flags & FLAG_ZERO != 0;
            let sf = flags & FLAG_SIGN != 0;
            let of = flags & FLAG_OVERFLOW != 0;
            let pf = flags & FLAG_PARITY != 0;
            let named = if condition / 2 == 0 {
                of
            } else if condition / 2 == 1 {
                cf
            } else if condition / 2 == 2 {
                zf
            } else if condition / 2 == 3 {
                cf || zf
            } else if condition / 2 == 4 {
                sf
            } else if condition / 2 == 5 {
                pf
            } else if condition / 2 == 6 {
                sf != of
            } else {
                zf || sf != of
            };
            condition_holds(flags, condition) == if condition % 2 == 0 {
                named
            } else {
                !named
            }
        }),
{
    lemma_condition_code_fields(condition);
}

/// What the conditions mean after a compare. Once cmp a, b at a width, its operands narrowed to
/// it, has set the flags: b holds exactly when a is below b as unsigned numbers, z when they are
/// equal, be when a is below or equal unsigned, s when a - b is negative at the width, l when a is
/// less than b as signed numbers and le when less or equal; and ae, nz, a, ns, ge and g the
/// opposites.
#[verifier::spinoff_prover]
#[verifier::rlimit(40)]
pub proof fn lemma_compare_conditions(old: i32, a: i64, b: i64, osize: i32)
    requires
        valid_osize(osize),
        sized_spec(a, osize) == a,
        sized_spec(b, osize) == b,
    ensures
        ({
            let f = group1_flags(7, a, b, osize, old);
            let ua = uext(a as int, osize);
            let ub = uext(b as int, osize);
            &&& condition_holds(f, 2) == (ua < ub)
            &&& condition_holds(f, 3) == (ua >= ub)
            &&& condition_holds(f, 4) == (a == b)
            &&& condition_holds(f, 5) == (a != b)
            &&& condition_holds(f, 6) == (ua <= ub)
            &&& condition_holds(f, 7) == (ua > ub)
            &&& condition_holds(f, 8) == (sext(a - b, osize) < 0)
            &&& condition_holds(f, 9) == (sext(a - b, osize) >= 0)
            &&& condition_holds(f, 12) == (a < b)
            &&& condition_holds(f, 13) == (a >= b)
            &&& condition_holds(f, 14) == (a <= b)
            &&& condition_holds(f, 15) == (a > b)
        }),
{
    let h = modulus(osize) / 2;
    lemma_arith_flags_meaning(a, b, osize);
    lemma_sized_idempotent(a, osize);
    lemma_sized_idempotent(b, osize);
    assert(-h <= a < h && -h <= b < h);
    lemma_sext_small(a as int, osize);
    lemma_sext_small(b as int, osize);
    lemma_sext_small(a - b, osize);
    let diff = sext(a - b, osize) as i64;
    lemma_with_arith_flags(
        old,
        carry_flag(a, b, diff, true),
        even_parity(diff),
        adjust_flag(a, b, diff),
        diff == 0,
        diff < 0,
        overflow_flag(a, b, diff, true),
    );
    lemma_condition_code_fields(2);
    lemma_condition_code_fields(3);
    lemma_condition_code_fields(4);
    lemma_condition_code_fields(5);
    lemma_condition_code_fields(6);
    lemma_condition_code_fields(7);
    lemma_condition_code_fields(8);
    lemma_condition_code_fields(9);
    lemma_condition_code_fields(12);
    lemma_condition_code_fields(13);
    lemma_condition_code_fields(14);
    lemma_condition_code_fields(15);
}

/// Narrowing is idempotent, and a narrowed value lies in the signed range of its width.
pub proof fn lemma_sized_idempotent(value: i64, osize: i32)
    requires
        valid_osize(osize),
    ensures
        -(modulus(osize) / 2) <= sized_spec(value, osize) < modulus(osize) / 2,
        sized_spec(sized_spec(value, osize), osize) == sized_spec(value, osize),
{
    lemma_cast_widths(value);
    let r = sized_spec(value, osize);
    lemma_cast_widths(r);
    let m = modulus(osize);
    assert(0 <= uext(value as int, osize) < m);
    if -(m / 2) <= r < m / 2 {
        if r >= 0 {
            vstd::arithmetic::div_mod::lemma_small_mod(r as nat, m as nat);
        } else {
            vstd::arithmetic::div_mod::lemma_mod_add_multiples_vanish(r as int, m);
            vstd::arithmetic::div_mod::lemma_small_mod((r + m) as nat, m as nat);
        }
    }
}

/// Two byte swaps give back the value.
pub proof fn lemma_swap_bytes_involution(v: u64, once: u64, twice: u64)
    requires
        forall|k: u64| k < 8 ==> #[trigger] byte_of(once, k) == byte_of(v, (7 - k) as u64),
        forall|k: u64| k < 8 ==> #[trigger] byte_of(twice, k) == byte_of(once, (7 - k) as u64),
    ensures
        twice == v,
{
    assert(byte_of(twice, 0) == byte_of(v, 0));
    assert(byte_of(twice, 1) == byte_of(v, 1));
    assert(byte_of(twice, 2) == byte_of(v, 2));
    assert(byte_of(twice, 3) == byte_of(v, 3));
    assert(byte_of(twice, 4) == byte_of(v, 4));
    assert(byte_of(twice, 5) == byte_of(v, 5));
    assert(byte_of(twice, 6) == byte_of(v, 6));
    assert(byte_of(twice, 7) == byte_of(v, 7));
    assert(((twice >> 0u64) & 0xFF) == ((v >> 0u64) & 0xFF) && ((twice >> 8u64) & 0xFF) == ((v
        >> 8u64) & 0xFF) && ((twice >> 16u64) & 0xFF) == ((v >> 16u64) & 0xFF) && ((twice >> 24u64)
        & 0xFF) == ((v >> 24u64) & 0xFF) && ((twice >> 32u64) & 0xFF) == ((v >> 32u64) & 0xFF) && ((
    twice >> 40u64) & 0xFF) == ((v >> 40u64) & 0xFF) && ((twice >> 48u64) & 0xFF) == ((v >> 48u64)
        & 0xFF) && ((twice >> 56u64) & 0xFF) == ((v >> 56u64) & 0xFF) ==> twice == v) by (bit_vector);
}

/// bts leaves the selected bit set, btr leaves it clear, btc flips it, and none of them touches
/// any other bit.
pub proof fn lemma_bit_test_effects(value: i64, bit: i32, osize: i32)
    requires
        valid_osize(osize),
    ensures
        bit_test_result(5, value, bit, osize)->0 & bit_mask(bit, osize) != 0,
        bit_test_result(6, value, bit, osize)->0 & bit_mask(bit, osize) == 0,
        (bit_test_result(7, value, bit, osize)->0 & bit_mask(bit, osize) != 0) == (value & bit_mask(
            bit,
            osize,
        ) == 0),
        forall|other: i64|
            other & bit_mask(bit, osize) == 0 ==> (bit_test_result(5, value, bit, osize)->0 & other)
                == (value & other) && (bit_test_result(6, value, bit, osize)->0 & other) == (value
                & other) && (bit_test_result(7, value, bit, osize)->0 & other) == (value & other),
{
    let index = bit & ((osize - 1) as i32);
    lemma_mask_bits(value, 0, 0, bit, osize);
    let m = bit_mask(bit, osize);
    let shift = index as u32;
    assert(m == 1i64 << shift);
    lemma_mask_bits(value, 0, shift, bit, osize);
    assert forall|other: i64| other & m == 0 implies ((value | m) & other) == (value & other) && ((
    value & !m) & other) == (value & other) && ((value ^ m) & other) == (value & other) by {
        lemma_mask_bits(value, other, shift, bit, osize);
    }
}

/// The bits of a single bit mask: an index modulo the operand size is below 64, setting, clearing
/// or flipping the bit does that to it, and leaves every bit outside the mask alone.
proof fn lemma_mask_bits(value: i64, other: i64, shift: u32, bit: i32, osize: i32)
    by (bit_vector)
    ensures
        osize == 8 || osize == 16 || osize == 32 || osize == 64 ==> 0 <= bit & ((osize - 1) as i32) < 64,
        shift < 64 ==> 1i64 << shift != 0 && (value | (1i64 << shift)) & (1i64 << shift) != 0 && (value
            & !(1i64 << shift)) & (1i64 << shift) == 0 && (((value ^ (1i64 << shift)) & (1i64 << shift)
            != 0) == (value & (1i64 << shift) == 0)),
        other & (1i64 << shift) == 0 ==> ((value | (1i64 << shift)) & other) == (value & other) && ((
        value & !(1i64 << shift)) & other) == (value & other) && ((value ^ (1i64 << shift)) & other)
            == (value & other),
{
}

/// The key a page is recorded under keeps ring 0 and ring 3 code at the same address apart, and
/// gives back the page's address and ring: its bit 0 is the ring and, shifted back down and up by
/// a page, it is the page's address modulo 4 GiB.
pub proof fn lemma_page_key(page: u32, cpl3: bool)
    ensures
        (page_key(page, cpl3) & 1 == 1) == cpl3,
        (page_key(page, cpl3) >> 1u32) << 12u32 == page << 12u32,
        page_key(page, false) != page_key(page, true),
{
    let c: u32 = if cpl3 { 1 } else { 0 };
    assert(page_key(page, cpl3) == (page << 1u32) | c);
    lemma_key_bits(page, c, page, c);
}

/// Two pages recorded under the same key are the same page modulo 2^31, in the same ring.
pub proof fn lemma_page_key_injective(p1: u32, c1: bool, p2: u32, c2: bool)
    requires
        page_key(p1, c1) == page_key(p2, c2),
    ensures
        c1 == c2,
        p1 % 0x8000_0000 == p2 % 0x8000_0000,
{
    let a: u32 = if c1 { 1 } else { 0 };
    let b: u32 = if c2 { 1 } else { 0 };
    lemma_key_bits(p1, a, p2, b);
}

/// The bits of a page key: bit 0 is the ring, the rest shifted back down is the page, and two
/// keys are equal only for the same ring and the same page below bit 31.
proof fn lemma_key_bits(p1: u32, a: u32, p2: u32, b: u32)
    by (bit_vector)
    ensures
        a == 0 || a == 1 ==> ((((p1 << 1u32) | a) & 1 == 1) == (a == 1) && ((((p1 << 1u32) | a) >> 1u32)
            << 12u32) == p1 << 12u32),
        (p1 << 1u32) | 0u32 != (p1 << 1u32) | 1u32,
        (a == 0 || a == 1) && (b == 0 || b == 1) && (p1 << 1u32) | a == (p2 << 1u32) | b ==> a == b
            && p1 % 0x8000_0000 == p2 % 0x8000_0000,
{
}

/// The signed reading of a value that is at most one modulus away from the signed range.
proof fn lemma_sext_small(s: int, osize: i32)
    requires
        valid_osize(osize),
        -modulus(osize) <= s < modulus(osize),
    ensures
        sext(s, osize) == if s >= modulus(osize) / 2 {
            s - modulus(osize)
        } else if s < -(modulus(osize) / 2) {
            s + modulus(osize)
        } else {
            s
        },
        uext(s, osize) == if s >= 0 {
            s
        } else {
            s + modulus(osize)
        },
{
    let m = modulus(osize);
    if s >= 0 {
        vstd::arithmetic::div_mod::lemma_small_mod(s as nat, m as nat);
    } else {
        vstd::arithmetic::div_mod::lemma_mod_add_multiples_vanish(s, m);
        vstd::arithmetic::div_mod::lemma_small_mod((s + m) as nat, m as nat);
    }
}

/// How an i64 reads as a u64.
proof fn lemma_as_u64(x: i64)
    ensures
        (x as u64) as int == if x < 0 {
            x + 0x1_0000_0000_0000_0000
        } else {
            x as int
        },
{
    lemma_cast_bits(x);
}

/// What the flags of an add or subtract mean. For operands already narrowed to their width and the
/// result narrowed the same way: carry says the unsigned sum overflowed the width, or the unsigned
/// subtraction borrowed; overflow says the signed result did not fit the width.
pub proof fn lemma_arith_flags_meaning(op1: i64, op2: i64, osize: i32)
    requires
        valid_osize(osize),
        sized_spec(op1, osize) == op1,
        sized_spec(op2, osize) == op2,
    ensures
        ({
            let sum = sext(op1 + op2, osize) as i64;
            &&& carry_flag(op1, op2, sum, false) == (uext(op1 as int, osize) + uext(op2 as int, osize)
                >= modulus(osize))
            &&& overflow_flag(op1, op2, sum, false) == !(-(modulus(osize) / 2) <= op1 + op2
                < modulus(osize) / 2)
        }),
        ({
            let diff = sext(op1 - op2, osize) as i64;
            &&& carry_flag(op1, op2, diff, true) == (uext(op1 as int, osize) < uext(op2 as int, osize))
            &&& overflow_flag(op1, op2, diff, true) == !(-(modulus(osize) / 2) <= op1 - op2
                < modulus(osize) / 2)
        }),
{
    let m = modulus(osize);
    let h = m / 2;
    lemma_sized_idempotent(op1, osize);
    lemma_sized_idempotent(op2, osize);
    assert(-h <= op1 < h && -h <= op2 < h);
    lemma_sext_small(op1 as int, osize);
    lemma_sext_small(op2 as int, osize);
    lemma_sext_small(op1 + op2, osize);
    lemma_sext_small(op1 - op2, osize);
    let sum = sext(op1 + op2, osize) as i64;
    let diff = sext(op1 - op2, osize) as i64;
    assert(-h <= sum < h && -h <= diff < h);
    lemma_as_u64(op1);
    lemma_as_u64(op2);
    lemma_as_u64(sum);
    lemma_as_u64(diff);
    assert(((op1 ^ sum) & (op2 ^ sum) < 0) == ((op1 < 0) != (sum < 0) && (op2 < 0) != (sum < 0))) by {
        lemma_sign_bits(op1, op2, sum);
    }
    assert(((op1 ^ op2) & (op1 ^ diff) < 0) == ((op1 < 0) != (op2 < 0) && (op1 < 0) != (diff < 0)))
        by {
        lemma_sign_bits(op1, op2, diff);
    }
}

/// The sign bit of a value in the signed range of its width is bit `osize - 1` and bit 63 alike,
/// so the carry and overflow formulas of adc and sbb read the signs of their operands.
proof fn lemma_adc_sign_bits(dst: i64, src: i64, res: i64, osize: i32)
    requires
        valid_osize(osize),
        -(modulus(osize) / 2) <= dst < modulus(osize) / 2,
        -(modulus(osize) / 2) <= src < modulus(osize) / 2,
        -(modulus(osize) / 2) <= res < modulus(osize) / 2,
    ensures
        (((dst ^ ((dst ^ src) & (src ^ res))) >> (osize - 1)) & 1 == 1) == (if (dst < 0) == (src < 0) {
            dst < 0
        } else {
            !(res < 0)
        }),
        ((((src ^ res) & (dst ^ res)) >> (osize - 1)) & 1 == 1) == ((src < 0) != (res < 0) && (dst
            < 0) != (res < 0)),
        (((res ^ ((res ^ src) & (src ^ dst))) >> (osize - 1)) & 1 == 1) == (if (res < 0) == (src < 0) {
            res < 0
        } else {
            !(dst < 0)
        }),
        ((((src ^ dst) & (res ^ dst)) >> (osize - 1)) & 1 == 1) == ((src < 0) != (dst < 0) && (res
            < 0) != (dst < 0)),
{
    lemma_sign_bits(dst, src, res);
}

/// Where the sign bit of a value in the signed range of 8, 16, 32 or 64 bits sits, read through
/// the carry and overflow formulas of add, sub, adc and sbb.
proof fn lemma_sign_bits(dst: i64, src: i64, res: i64)
    by (bit_vector)
    ensures
        (-0x80 <= dst < 0x80 && -0x80 <= src < 0x80 && -0x80 <= res < 0x80) ==> (
            (((dst ^ ((dst ^ src) & (src ^ res))) >> 7i32) & 1 == 1) == (if (dst < 0) == (src < 0) { dst < 0 } else { !(res < 0) })
            && ((((src ^ res) & (dst ^ res)) >> 7i32) & 1 == 1) == ((src < 0) != (res < 0) && (dst < 0) != (res < 0))
            && (((res ^ ((res ^ src) & (src ^ dst))) >> 7i32) & 1 == 1) == (if (res < 0) == (src < 0) { res < 0 } else { !(dst < 0) })
            && ((((src ^ dst) & (res ^ dst)) >> 7i32) & 1 == 1) == ((src < 0) != (dst < 0) && (res < 0) != (dst < 0))),
        (-0x8000 <= dst < 0x8000 && -0x8000 <= src < 0x8000 && -0x8000 <= res < 0x8000) ==> (
            (((dst ^ ((dst ^ src) & (src ^ res))) >> 15i32) & 1 == 1) == (if (dst < 0) == (src < 0) { dst < 0 } else { !(res < 0) })
            && ((((src ^ res) & (dst ^ res)) >> 15i32) & 1 == 1) == ((src < 0) != (res < 0) && (dst < 0) != (res < 0))
            && (((res ^ ((res ^ src) & (src ^ dst))) >> 15i32) & 1 == 1) == (if (res < 0) == (src < 0) { res < 0 } else { !(dst < 0) })
            && ((((src ^ dst) & (res ^ dst)) >> 15i32) & 1 == 1) == ((src < 0) != (dst < 0) && (res < 0) != (dst < 0))),
        (-0x8000_0000 <= dst < 0x8000_0000 && -0x8000_0000 <= src < 0x8000_0000 && -0x8000_0000 <= res
            < 0x8000_0000) ==> (
            (((dst ^ ((dst ^ src) & (src ^ res))) >> 31i32) & 1 == 1) == (if (dst < 0) == (src < 0) { dst < 0 } else { !(res < 0) })
            && ((((src ^ res) & (dst ^ res)) >> 31i32) & 1 == 1) == ((src < 0) != (res < 0) && (dst < 0) != (res < 0))
            && (((res ^ ((res ^ src) & (src ^ dst))) >> 31i32) & 1 == 1) == (if (res < 0) == (src < 0) { res < 0 } else { !(dst < 0) })
            && ((((src ^ dst) & (res ^ dst)) >> 31i32) & 1 == 1) == ((src < 0) != (dst < 0) && (res < 0) != (dst < 0))),
        (((dst ^ ((dst ^ src) & (src ^ res))) >> 63i32) & 1 == 1) == (if (dst < 0) == (src < 0) { dst < 0 } else { !(res < 0) }),
        ((((src ^ res) & (dst ^ res)) >> 63i32) & 1 == 1) == ((src < 0) != (res < 0) && (dst < 0) != (res < 0)),
        (((res ^ ((res ^ src) & (src ^ dst))) >> 63i32) & 1 == 1) == (if (res < 0) == (src < 0) { res < 0 } else { !(dst < 0) }),
        ((((src ^ dst) & (res ^ dst)) >> 63i32) & 1 == 1) == ((src < 0) != (dst < 0) && (res < 0) != (dst < 0)),
        ((dst ^ res) & (src ^ res) < 0) == ((dst < 0) != (res < 0) && (src < 0) != (res < 0)),
        ((dst ^ src) & (dst ^ res) < 0) == ((dst < 0) != (src < 0) && (dst < 0) != (res < 0)),
{
}

/// What the carry and overflow of adc and sbb mean. For operands already narrowed to their width:
/// adc carries when the unsigned sum with the incoming carry overflows the width, sbb borrows when
/// the unsigned subtrahend with the incoming carry exceeds the minuend, and overflow says the
/// signed result did not fit the width.
#[verifier::spinoff_prover]
#[verifier::rlimit(40)]
pub proof fn lemma_adc_sbb_meaning(dst: i64, src: i64, osize: i32, cf: bool)
    requires
        valid_osize(osize),
        sized_spec(dst, osize) == dst,
        sized_spec(src, osize) == src,
    ensures
        ({
            let c: int = if cf { 1 } else { 0 };
            let sum = adc_sbb_result(dst, src, osize, false, cf);
            let diff = adc_sbb_result(dst, src, osize, true, cf);
            &&& adc_sbb_carry(dst, src, sum, osize, false) == (uext(dst as int, osize) + uext(
                src as int,
                osize,
            ) + c >= modulus(osize))
            &&& adc_sbb_overflow(dst, src, sum, osize, false) == !(-(modulus(osize) / 2) <= dst + src
                + c < modulus(osize) / 2)
            &&& adc_sbb_carry(dst, src, diff, osize, true) == (uext(dst as int, osize) < uext(
                src as int,
                osize,
            ) + c)
            &&& adc_sbb_overflow(dst, src, diff, osize, true) == !(-(modulus(osize) / 2) <= dst - src
                - c < modulus(osize) / 2)
        }),
{
    let m = modulus(osize);
    let h = m / 2;
    let c: int = if cf { 1 } else { 0 };
    lemma_sized_idempotent(dst, osize);
    lemma_sized_idempotent(src, osize);
    lemma_sext_small(dst as int, osize);
    lemma_sext_small(src as int, osize);
    lemma_sext_small(dst + src + c, osize);
    lemma_sext_small(dst - src - c, osize);
    let sum = adc_sbb_result(dst, src, osize, false, cf);
    let diff = adc_sbb_result(dst, src, osize, true, cf);
    lemma_adc_sign_bits(dst, src, sum, osize);
    lemma_adc_sign_bits(dst, src, diff, osize);
}

/// ror by a count undoes rol by the same count, and rol undoes ror, at every operand width.
pub proof fn lemma_rotate_inverse(u: u64, count: i32, width: u32)
    requires
        width == 8 || width == 16 || width == 32 || width == 64,
        u & width_mask(width) == u,
    ensures
        rol_ror(1, rol_ror(0, u, count, width).0, count, width).0 == u,
        rol_ror(0, rol_ror(1, u, count, width).0, count, width).0 == u,
{
    let n = (count as u32) % width;
    if n != 0 {
        lemma_width_constants();
        if width == 8 {
            lemma_rotate_bits_8(u, n);
        } else if width == 16 {
            lemma_rotate_bits_16(u, n);
        } else if width == 32 {
            lemma_rotate_bits_32(u, n);
        } else {
            lemma_rotate_bits_64(u, n);
            lemma_rotate_back_bits_64(u, n);
        }
    }
}

/// ror of what rol wrote back, by the same count, gives back the operand narrowed to its width,
/// and so does rol of what ror wrote back: the rotates as the instructions run them, whatever the
/// flags they start from.
pub proof fn lemma_rotate_op_inverse(v: i64, count: i32, w: i32, f1: i32, f2: i32)
    requires
        valid_osize(w),
        0 < count < 64,
    ensures
        rotate_spec(1, rotate_spec(0, v, count, w, f1).0->0, count, w, f2).0 == Some(sized_spec(v, w)),
        rotate_spec(0, rotate_spec(1, v, count, w, f1).0->0, count, w, f2).0 == Some(sized_spec(v, w)),
{
    let width = w as u32;
    let u = unsigned_at(v, width);
    let l = rol_ror(0, u, count, width).0;
    let r = rol_ror(1, u, count, width).0;
    lemma_within_width(v as u64, w);
    lemma_narrowing_bits(0, v);
    let n = (count as u32) % width;
    if n != 0 {
        lemma_within_width(u << n | u >> ((width - n) as u32), w);
        lemma_within_width(u >> n | u << ((width - n) as u32), w);
    }
    lemma_within_width(l, w);
    lemma_within_width(r, w);
    lemma_rotate_inverse(u, count, width);
}

/// What narrowing and zero extension at a width do to each other: a value masked to the width
/// stays masked, a value within the width comes back from narrowing and zero extension as it was,
/// and a value narrows as its zero extension does.
proof fn lemma_within_width(x: u64, w: i32)
    requires
        valid_osize(w),
    ensures
        (x & width_mask(w as u32)) & width_mask(w as u32) == x & width_mask(w as u32),
        x & width_mask(w as u32) == x ==> unsigned_at(sized_spec(x as i64, w), w as u32) == x,
        sized_spec(((x & width_mask(w as u32)) as i64), w) == sized_spec(x as i64, w),
        unsigned_at(x as i64, w as u32) == x & width_mask(w as u32),
{
    lemma_width_constants();
    lemma_narrowing_bits(x, 0);
    if w == 8 {
        assert(width_mask(w as u32) == 0xFFu64);
    } else if w == 16 {
        assert(width_mask(w as u32) == 0xFFFFu64);
    } else if w == 32 {
        assert(width_mask(w as u32) == 0xFFFF_FFFFu64);
    } else {
        assert(width_mask(w as u32) == 0xFFFF_FFFF_FFFF_FFFFu64);
    }
}

/// A value within a width, narrowed to it and zero extended again, is itself; a value and its
/// zero extension narrow alike; and the casts between i64 and u64 undo each other.
proof fn lemma_narrowing_bits(x: u64, y: i64)
    by (bit_vector)
    ensures
        x & 0xFFu64 == x ==> (((x as i64) as i8 as i64) as u64) & 0xFFu64 == x,
        x & 0xFFFFu64 == x ==> (((x as i64) as i16 as i64) as u64) & 0xFFFFu64 == x,
        x & 0xFFFF_FFFFu64 == x ==> (((x as i64) as i32 as i64) as u64) & 0xFFFF_FFFFu64 == x,
        (x & 0xFFu64) & 0xFFu64 == x & 0xFFu64,
        (x & 0xFFFFu64) & 0xFFFFu64 == x & 0xFFFFu64,
        (x & 0xFFFF_FFFFu64) & 0xFFFF_FFFFu64 == x & 0xFFFF_FFFFu64,
        ((x & 0xFFu64) as i64) as i8 as i64 == (x as i64) as i8 as i64,
        ((x & 0xFFFFu64) as i64) as i16 as i64 == (x as i64) as i16 as i64,
        ((x & 0xFFFF_FFFFu64) as i64) as i32 as i64 == (x as i64) as i32 as i64,
        (((x as i64) as u64) & 0xFFFF_FFFF_FFFF_FFFFu64) == x,
        x & 0xFFFF_FFFF_FFFF_FFFFu64 == x,
        (x as i64) as u64 == x,
        (y as u64) as i64 == y,
        ((x as i64) as i8 as i64) as u64 & 0xFFu64 == x & 0xFFu64,
        ((x as i64) as i16 as i64) as u64 & 0xFFFFu64 == x & 0xFFFFu64,
        ((x as i64) as i32 as i64) as u64 & 0xFFFF_FFFFu64 == x & 0xFFFF_FFFFu64,
{
}

/// Rotating right by `n` undoes rotating left by `n` and the other way round, at 8 bits.
proof fn lemma_rotate_bits_8(u: u64, n: u32)
    by (bit_vector)
    ensures
        u & 0xFFu64 == u && 0 < n < 8u32 ==> ((((u << n | u >> ((8u32 - n) as u32)) & 0xFFu64) >> n | ((u
            << n | u >> ((8u32 - n) as u32)) & 0xFFu64) << ((8u32 - n) as u32)) & 0xFFu64 == u && ((((u >> n
            | u << ((8u32 - n) as u32)) & 0xFFu64) << n | ((u >> n | u << ((8u32 - n) as u32)) & 0xFFu64)
            >> ((8u32 - n) as u32)) & 0xFFu64 == u)),
{
}

/// Rotating right by `n` undoes rotating left by `n` and the other way round, at 16 bits.
proof fn lemma_rotate_bits_16(u: u64, n: u32)
    by (bit_vector)
    ensures
        u & 0xFFFFu64 == u && 0 < n < 16u32 ==> ((((u << n | u >> ((16u32 - n) as u32)) & 0xFFFFu64) >> n
            | ((u << n | u >> ((16u32 - n) as u32)) & 0xFFFFu64) << ((16u32 - n) as u32)) & 0xFFFFu64 == u
            && ((((u >> n | u << ((16u32 - n) as u32)) & 0xFFFFu64) << n | ((u >> n | u << ((16u32 - n)
            as u32)) & 0xFFFFu64) >> ((16u32 - n) as u32)) & 0xFFFFu64 == u)),
{
}

/// Rotating right by `n` undoes rotating left by `n` and the other way round, at 32 bits.
proof fn lemma_rotate_bits_32(u: u64, n: u32)
    by (bit_vector)
    ensures
        u & 0xFFFF_FFFFu64 == u && 0 < n < 32u32 ==> ((((u << n | u >> ((32u32 - n) as u32))
            & 0xFFFF_FFFFu64) >> n | ((u << n | u >> ((32u32 - n) as u32)) & 0xFFFF_FFFFu64) << ((32u32
            - n) as u32)) & 0xFFFF_FFFFu64 == u && ((((u >> n | u << ((32u32 - n) as u32))
            & 0xFFFF_FFFFu64) << n | ((u >> n | u << ((32u32 - n) as u32)) & 0xFFFF_FFFFu64) >> ((32u32
            - n) as u32)) & 0xFFFF_FFFFu64 == u)),
{
}

/// Rotating right by `n` undoes rotating left by `n` at 64 bits.
proof fn lemma_rotate_bits_64(u: u64, n: u32)
    by (bit_vector)
    ensures
        0 < n < 64u32 ==> (((u << n | u >> ((64u32 - n) as u32)) & 0xFFFF_FFFF_FFFF_FFFFu64) >> n | ((u
            << n | u >> ((64u32 - n) as u32)) & 0xFFFF_FFFF_FFFF_FFFFu64) << ((64u32 - n) as u32))
            & 0xFFFF_FFFF_FFFF_FFFFu64 == u,
{
}

/// Rotating left by `n` undoes rotating right by `n` at 64 bits.
proof fn lemma_rotate_back_bits_64(u: u64, n: u32)
    by (bit_vector)
    ensures
        0 < n < 64u32 ==> (((u >> n | u << ((64u32 - n) as u32)) & 0xFFFF_FFFF_FFFF_FFFFu64) << n | ((u
            >> n | u << ((64u32 - n) as u32)) & 0xFFFF_FFFF_FFFF_FFFFu64) >> ((64u32 - n) as u32))
            & 0xFFFF_FFFF_FFFF_FFFFu64 == u,
{
}

/// mul computes the exact double width product: the high half times 2^width plus the low half is
/// the product of the unsigned operands.
pub proof fn lemma_mul_exact(ax: i64, src: i64, w: i32)
    requires
        valid_osize(w),
    ensures
        ({
            let (low, high) = mul_halves(4, ax, src, w);
            high as int * modulus(w) + low as int == unsigned_at(ax, w as u32) as int * unsigned_at(
                src,
                w as u32,
            ) as int
        }),
{
    let a = unsigned_at(ax, w as u32);
    let b = unsigned_at(src, w as u32);
    let m = width_mask(w as u32);
    lemma_width_constants();
    if w == 8 {
        assert(m == 0xFFu64);
    } else if w == 16 {
        assert(m == 0xFFFFu64);
    } else if w == 32 {
        assert(m == 0xFFFF_FFFFu64);
    } else {
        assert(m == 0xFFFF_FFFF_FFFF_FFFFu64);
    }
    let mm = modulus(w) - 1;
    assert(m == mm);
    assert(a <= mm && b <= mm) by {
        assert(a == (ax as u64) & m && b == (src as u64) & m);
        lemma_product_bits(ax as u64, m, 0);
        lemma_product_bits(src as u64, m, 0);
    }
    assert(a * b <= mm * mm) by (nonlinear_arith)
        requires
            a <= mm,
            b <= mm,
    ;
    let p = ((a as u128) * (b as u128)) as u128;
    assert(p == a * b);
    lemma_product_bits(0, m, p);
}

/// imul computes the exact signed double width product: with the operand sign extended from the
/// width, as the instruction hands it over, the high half times 2^width plus the low half, read as
/// a signed number of twice the width, is the product of the accumulator and the operand read as
/// signed numbers at the width.
#[verifier::spinoff_prover]
#[verifier::rlimit(40)]
pub proof fn lemma_imul_exact(ax: i64, src: i64, w: i32)
    requires
        valid_osize(w),
        sized_spec(src, w) == src,
    ensures
        ({
            let (low, high) = mul_halves(5, ax, src, w);
            let big = modulus(w) * modulus(w);
            let v = high as int * modulus(w) + low as int;
            (if v >= big / 2 {
                v - big
            } else {
                v
            }) == sext(ax as int, w) * sext(src as int, w)
        }),
{
    let m = modulus(w);
    let h = m / 2;
    let big = m * m;
    let a = sized_spec(ax, w);
    lemma_cast_widths(ax);
    lemma_cast_widths(src);
    lemma_sized_idempotent(ax, w);
    lemma_sized_idempotent(src, w);
    assert(a == sext(ax as int, w) && src == sext(src as int, w));
    assert(-h <= a < h && -h <= src < h);
    assert(-(h * h) <= a * src <= h * h) by (nonlinear_arith)
        requires
            -h <= a < h,
            -h <= src < h,
            h > 0,
    ;
    assert(h * h * 4 == big) by (nonlinear_arith)
        requires
            big == m * m,
            m == 2 * h,
    ;
    assert(h <= 0x8000_0000_0000_0000);
    assert(h * h <= 0x8000_0000_0000_0000 * 0x8000_0000_0000_0000) by (nonlinear_arith)
        requires
            0 < h <= 0x8000_0000_0000_0000,
    ;
    let p = ((a as i128) * (src as i128)) as i128;
    assert(p == a * src);
    let (low, high) = mul_halves(5, ax, src, w);
    lemma_width_constants();
    lemma_signed_halves(p, 0);
    let q = (p as u128) as int;
    let v = high as int * m + low as int;
    if w == 8 {
        assert(width_mask(8) == 0xFFu64);
        assert(v == q % 0x10000);
    } else if w == 16 {
        assert(width_mask(16) == 0xFFFFu64);
        assert(v == q % 0x1_0000_0000);
    } else if w == 32 {
        assert(width_mask(32) == 0xFFFF_FFFFu64);
        assert(v == q % 0x1_0000_0000_0000_0000);
    } else {
        assert(width_mask(64) == 0xFFFF_FFFF_FFFF_FFFFu64);
        assert(v == q);
        assert(q < 0x1_0000_0000_0000_0000_0000_0000_0000_0000);
        vstd::arithmetic::div_mod::lemma_small_mod(q as nat, big as nat);
    }
    // q is p plus a multiple of 2^128, which big divides
    let j: int = 0x1_0000_0000_0000_0000_0000_0000_0000_0000int / big;
    assert(j * big == 0x1_0000_0000_0000_0000_0000_0000_0000_0000int);
    if p < 0 {
        assert(q == big * j + p);
        vstd::arithmetic::div_mod::lemma_mod_multiples_vanish(j, p as int, big);
    } else {
        assert(q == p);
    }
    assert(v == (p as int) % big);
    if p < 0 {
        vstd::arithmetic::div_mod::lemma_mod_add_multiples_vanish(p as int, big);
        vstd::arithmetic::div_mod::lemma_small_mod((p + big) as nat, big as nat);
    } else {
        vstd::arithmetic::div_mod::lemma_small_mod(p as nat, big as nat);
    }
}

/// A half of a product, read back signed at the width: itself below half the modulus and itself
/// less the modulus from there on.
proof fn lemma_half_signed(x: u64, w: i32)
    requires
        valid_osize(w),
        (x as int) < modulus(w),
    ensures
        sized_spec(x as i64, w) as int == if x as int >= modulus(w) / 2 {
            x - modulus(w)
        } else {
            x as int
        },
{
    let y = x as i64;
    lemma_signed_halves(0, x);
    lemma_cast_widths(y);
    if x >= 0x8000_0000_0000_0000 {
        lemma_ext_wrap(x as int, -1, w);
        assert(y as int == x as int + (-1) * 0x1_0000_0000_0000_0000);
    }
    assert(sext(y as int, w) == sext(x as int, w));
    vstd::arithmetic::div_mod::lemma_small_mod(x as nat, modulus(w) as nat);
}

/// The multiplies say in carry and overflow whether the product left the width: mul when the
/// unsigned product is 2^width or more, and imul, with its operand sign extended from the width,
/// when the signed product lies outside the signed range of the width.
#[verifier::spinoff_prover]
#[verifier::rlimit(40)]
pub proof fn lemma_mul_overflow_meaning(ax: i64, src: i64, w: i32)
    requires
        valid_osize(w),
        sized_spec(src, w) == src,
    ensures
        ({
            let (low, high) = mul_halves(4, ax, src, w);
            mul_overflow(4, low, high, w) == (uext(ax as int, w) * uext(src as int, w) >= modulus(w))
        }),
        ({
            let (low, high) = mul_halves(5, ax, src, w);
            let product = sext(ax as int, w) * sext(src as int, w);
            mul_overflow(5, low, high, w) == !(-(modulus(w) / 2) <= product < modulus(w) / 2)
        }),
{
    let m = modulus(w);
    let hh = m / 2;
    let big = m * m;
    lemma_width_constants();
    let mask = width_mask(w as u32);
    assert(mask as int == m - 1) by {
        if w == 8 {
            assert(mask == 0xFFu64);
        } else if w == 16 {
            assert(mask == 0xFFFFu64);
        } else if w == 32 {
            assert(mask == 0xFFFF_FFFFu64);
        } else {
            assert(mask == 0xFFFF_FFFF_FFFF_FFFFu64);
        }
    }
    // mul
    let (l4, h4) = mul_halves(4, ax, src, w);
    lemma_mul_exact(ax, src, w);
    lemma_product_bits((l4 as u64), mask, 0);
    lemma_unsigned_at(ax, w);
    lemma_unsigned_at(src, w);
    let p4 = ((unsigned_at(ax, w as u32) as u128) * (unsigned_at(src, w as u32) as u128)) as u128;
    lemma_product_bits(p4 as u64, mask, 0);
    assert((h4 != 0) == (h4 as int * m + l4 as int >= m)) by (nonlinear_arith)
        requires
            0 <= l4 < m,
            h4 >= 0,
    ;
    // imul
    let (low, high) = mul_halves(5, ax, src, w);
    lemma_imul_exact(ax, src, w);
    let p5 = ((sized_spec(ax, w) as i128) * (src as i128)) as i128;
    lemma_product_bits(p5 as u64, mask, 0);
    lemma_product_bits((p5 >> (w as u32)) as u64, mask, 0);
    let hi: int = high as int;
    let lo: int = low as int;
    let v = hi * m + lo;
    let product = sext(ax as int, w) * sext(src as int, w);
    assert(big == m * m);
    assert(m == 2 * hh && m >= 256);
    assert(big >= 4 * m) by (nonlinear_arith)
        requires
            big == m * m,
            m >= 256,
    ;
    lemma_half_signed(low, w);
    lemma_half_signed(high, w);
    let sl = sized_spec(low as i64, w);
    lemma_shr_divides(sl, (w - 1) as u32);
    vstd::arithmetic::power2::lemma2_to64();
    let k = ((w - 1) as u32) as nat;
    if w == 8 {
        assert(k == 7);
        vstd::arithmetic::power2::lemma2_to64();
        assert(pow2(7) == 0x80);
        assert(pow2(k) as int == hh);
    } else if w == 16 {
        assert(k == 15);
        vstd::arithmetic::power2::lemma2_to64();
        assert(pow2(15) == 0x8000);
        assert(pow2(k) as int == hh);
    } else if w == 32 {
        assert(k == 31);
        vstd::arithmetic::power2::lemma2_to64();
        assert(pow2(31) == 0x8000_0000);
        assert(pow2(k) as int == hh);
    } else {
        assert(k == 63);
        vstd::arithmetic::power2::lemma2_to64();
        vstd::arithmetic::power2::lemma2_to64_rest();
        assert(pow2(63) == 0x8000_0000_0000_0000);
        assert(pow2(k) as int == hh);
    }
    if lo >= hh {
        assert(sl as int == lo - m);
        vstd::arithmetic::div_mod::lemma_fundamental_div_mod_converse_div(sl as int, hh, -1, sl + hh);
    } else {
        assert(sl as int == lo);
        vstd::arithmetic::div_mod::lemma_basic_div(sl as int, hh);
    }
    assert(sl >> ((w - 1) as u32) == if lo >= hh { -1int } else { 0int });
    assert(0 <= hi <= m - 1 && 0 <= lo <= m - 1);
    assert((hi == 0) ==> v == lo);
    if hi == m - 1 {
        assert(v == big - m + lo) by (nonlinear_arith)
            requires
                hi == m - 1,
                v == hi * m + lo,
                big == m * m,
        ;
    }
    if 0 < hi < m - 1 {
        assert(m <= v < big - m) by (nonlinear_arith)
            requires
                v == hi * m + lo,
                big == m * m,
                0 <= lo < m,
                0 < hi < m - 1,
        ;
    }
    assert(0 <= v < big) by (nonlinear_arith)
        requires
            v == hi * m + lo,
            big == m * m,
            0 <= lo < m,
            0 <= hi < m,
    ;
}

/// What a half written back by mul, imul, div or idiv reads as at the width: the value written,
/// whether it came as an unsigned half or as a signed one in the width's range.
proof fn lemma_half_read_back(old: i64, v: i64, w: i32)
    requires
        valid_osize(w),
    ensures
        uext(sized_write(old, v, w) as int, w) == uext(v as int, w),
        sext(sized_write(old, v, w) as int, w) == sext(v as int, w),
{
    lemma_sized_write(old, v, w);
    if w == 32 {
        lemma_cast_widths(v);
        vstd::arithmetic::div_mod::lemma_small_mod(uext(v as int, 32) as nat, 0x1_0000_0000nat);
    } else if w != 16 {
        lemma_cast_widths(v);
        if w == 8 {
            let sw = sized_write(old, v, w);
            assert(sw == v);
        }
    }
}

/// An unsigned half below the width's modulus, cast for the register write, reads back as itself.
proof fn lemma_unsigned_half(x: u64, w: i32)
    requires
        valid_osize(w),
        (x as int) < modulus(w),
    ensures
        uext((x as i64) as int, w) == x as int,
{
    lemma_signed_halves(0, x);
    if x >= 0x8000_0000_0000_0000 {
        lemma_ext_wrap(x as int, -1, w);
        assert((x as i64) as int == x as int + (-1) * 0x1_0000_0000_0000_0000);
    }
    vstd::arithmetic::div_mod::lemma_small_mod(x as nat, modulus(w) as nat);
}

/// What mul, imul, div and idiv leave in rdx:rax at the 16, 32 and 64-bit widths, read at the
/// width, with the operand sign extended from the width as the instruction hands it over. mul:
/// rdx times 2^width plus rax, unsigned, is the unsigned product; imul: the same read as a signed
/// number of twice the width is the signed product. div, when it does not fault: rax is the
/// quotient and rdx the remainder of the unsigned dividend rdx:rax by the operand, the remainder
/// below the operand; idiv: rax times the operand plus rdx is the signed dividend, the remainder
/// smaller than the operand in magnitude and of the dividend's sign.
#[verifier::spinoff_prover]
#[verifier::rlimit(40)]
pub proof fn lemma_mul_div_registers(regs: Seq<i64>, flags: i32, op: i32, src: i64, w: i32)
    requires
        valid_osize(w),
        w != 8,
        regs.len() == 16,
        4 <= op <= 7,
        sized_spec(src, w) == src,
    ensures
        (op == 4 || op == 5) ==> mul_div_effect(regs, flags, op, src, w) is Some,
        match mul_div_effect(regs, flags, op, src, w) {
            None => true,
            Some((r, _)) => {
                let m = modulus(w);
                let ra = uext(r[0] as int, w);
                let rd = uext(r[2] as int, w);
                let v = rd * m + ra;
                let divisor = uext(src as int, w);
                &&& op == 4 ==> v == uext(regs[0] as int, w) * divisor
                &&& op == 5 ==> (if v >= m * m / 2 {
                    v - m * m
                } else {
                    v
                }) == sext(regs[0] as int, w) * sext(src as int, w)
                &&& op == 6 ==> ra * divisor + rd == unsigned_dividend(regs[0], regs[2], w) && rd < divisor
                &&& op == 7 ==> {
                    let q = sext(r[0] as int, w);
                    let rem = sext(r[2] as int, w);
                    let x = signed_dividend(regs[0], regs[2], w);
                    &&& q * src + rem == x
                    &&& rem == 0 || (rem < 0) == (x < 0)
                    &&& -src < rem < src || src < rem < -src
                }
            },
        },
{
    if op == 4 || op == 5 {
        lemma_mul_registers(regs, flags, op, src, w);
    } else if op == 6 {
        lemma_div_registers(regs, flags, src, w);
    } else {
        lemma_idiv_registers(regs, flags, src, w);
    }
}

/// The multiplies' part of `lemma_mul_div_registers`.
#[verifier::spinoff_prover]
#[verifier::rlimit(40)]
proof fn lemma_mul_registers(regs: Seq<i64>, flags: i32, op: i32, src: i64, w: i32)
    requires
        valid_osize(w),
        w != 8,
        regs.len() == 16,
        sized_spec(src, w) == src,
        op == 4 || op == 5,
    ensures
        mul_div_effect(regs, flags, op, src, w) is Some,
        ({
            let (r, _) = mul_div_effect(regs, flags, op, src, w)->0;
            let m = modulus(w);
            let v = uext(r[2] as int, w) * m + uext(r[0] as int, w);
            &&& op == 4 ==> v == uext(regs[0] as int, w) * uext(src as int, w)
            &&& op == 5 ==> (if v >= m * m / 2 {
                v - m * m
            } else {
                v
            }) == sext(regs[0] as int, w) * sext(src as int, w)
        }),
{
    let m = modulus(w);
    let h = m / 2;
    lemma_width_constants();
    let mask = width_mask(w as u32);
    assert(mask as int == m - 1) by {
        if w == 16 {
            assert(mask == 0xFFFFu64);
        } else if w == 32 {
            assert(mask == 0xFFFF_FFFFu64);
        } else {
            assert(mask == 0xFFFF_FFFF_FFFF_FFFFu64);
        }
    }
    lemma_unsigned_at(src, w);
    lemma_unsigned_at(regs[0], w);
    lemma_sized_idempotent(src, w);
    lemma_cast_widths(src);
        let (low, high) = mul_halves(op, regs[0], src, w);
        if op == 4 {
            let p4 = ((unsigned_at(regs[0], w as u32) as u128) * (unsigned_at(src, w as u32) as u128)) as u128;
            lemma_product_bits(p4 as u64, mask, 0);
            lemma_product_bits((p4 >> (w as u32)) as u64, mask, 0);
            lemma_mul_exact(regs[0], src, w);
        } else {
            let p5 = ((sized_spec(regs[0], w) as i128) * (src as i128)) as i128;
            lemma_product_bits(p5 as u64, mask, 0);
            lemma_product_bits((p5 >> (w as u32)) as u64, mask, 0);
            lemma_imul_exact(regs[0], src, w);
        }
        lemma_unsigned_half(low, w);
        lemma_unsigned_half(high, w);
        lemma_half_read_back(regs[0], low as i64, w);
        lemma_half_read_back(regs[2], high as i64, w);
        let r = pair_written(regs, low, high, w);
        assert(uext(r[0] as int, w) == low as int);
        assert(uext(r[2] as int, w) == high as int);
        let (written, _) = mul_div_effect(regs, flags, op, src, w)->0;
        assert(written == r);
        let v = uext(r[2] as int, w) * m + uext(r[0] as int, w);
        assert(v == high as int * m + low as int);
        if op == 4 {
            assert(v == uext(regs[0] as int, w) * uext(src as int, w));
        } else {
            assert(sext(src as int, w) == src);
            assert((if v >= m * m / 2 {
                v - m * m
            } else {
                v
            }) == sext(regs[0] as int, w) * sext(src as int, w));
        }
}

/// div's part of `lemma_mul_div_registers`.
#[verifier::spinoff_prover]
#[verifier::rlimit(40)]
proof fn lemma_div_registers(regs: Seq<i64>, flags: i32, src: i64, w: i32)
    requires
        valid_osize(w),
        w != 8,
        regs.len() == 16,
        sized_spec(src, w) == src,
    ensures
        mul_div_effect(regs, flags, 6, src, w) matches Some((r, _)) ==> uext(r[0] as int, w) * uext(src as int, w)
            + uext(r[2] as int, w) == unsigned_dividend(regs[0], regs[2], w) && uext(r[2] as int, w) < uext(
            src as int,
            w,
        ),
{
    let op: i32 = 6;
    let m = modulus(w);
    let h = m / 2;
    lemma_width_constants();
    let mask = width_mask(w as u32);
    assert(mask as int == m - 1) by {
        if w == 16 {
            assert(mask == 0xFFFFu64);
        } else if w == 32 {
            assert(mask == 0xFFFF_FFFFu64);
        } else {
            assert(mask == 0xFFFF_FFFF_FFFF_FFFFu64);
        }
    }
    lemma_unsigned_at(src, w);
    lemma_unsigned_at(regs[0], w);
    lemma_sized_idempotent(src, w);
    lemma_cast_widths(src);
        let divisor = unsigned_at(src, w as u32) as int;
        let dividend = unsigned_dividend(regs[0], regs[2], w);
        if !(divisor == 0 || dividend / divisor >= m) {
            let q = dividend / divisor;
            let rem = dividend % divisor;
            vstd::arithmetic::div_mod::lemma_fundamental_div_mod(dividend, divisor);
            vstd::arithmetic::div_mod::lemma_mod_bound(dividend, divisor);
            assert(dividend >= 0) by {
                lemma_unsigned_at(regs[2], w);
                assert(unsigned_at(regs[2], w as u32) as int * m >= 0) by (nonlinear_arith)
                    requires
                        m > 0,
                ;
            }
            vstd::arithmetic::div_mod::lemma_div_pos_is_pos(dividend, divisor);
            assert(divisor < m);
            lemma_unsigned_half(q as u64, w);
            lemma_unsigned_half(rem as u64, w);
            lemma_half_read_back(regs[0], (q as u64) as i64, w);
            lemma_half_read_back(regs[2], (rem as u64) as i64, w);
            let r = pair_written(regs, q as u64, rem as u64, w);
            let (written, _) = mul_div_effect(regs, flags, op, src, w)->0;
            assert(written == r);
            assert(uext(r[0] as int, w) == q);
            assert(uext(r[2] as int, w) == rem);
            assert(divisor == uext(src as int, w));
            assert(q * divisor == divisor * q) by (nonlinear_arith);
            assert(q * divisor + rem == dividend);
        }
}

/// idiv's part of `lemma_mul_div_registers`.
#[verifier::spinoff_prover]
#[verifier::rlimit(40)]
proof fn lemma_idiv_registers(regs: Seq<i64>, flags: i32, src: i64, w: i32)
    requires
        valid_osize(w),
        w != 8,
        regs.len() == 16,
        sized_spec(src, w) == src,
    ensures
        mul_div_effect(regs, flags, 7, src, w) matches Some((r, _)) ==> {
            let q = sext(r[0] as int, w);
            let rem = sext(r[2] as int, w);
            let x = signed_dividend(regs[0], regs[2], w);
            &&& q * src + rem == x
            &&& rem == 0 || (rem < 0) == (x < 0)
            &&& -src < rem < src || src < rem < -src
        },
{
    let op: i32 = 7;
    let m = modulus(w);
    let h = m / 2;
    lemma_width_constants();
    let mask = width_mask(w as u32);
    assert(mask as int == m - 1) by {
        if w == 16 {
            assert(mask == 0xFFFFu64);
        } else if w == 32 {
            assert(mask == 0xFFFF_FFFFu64);
        } else {
            assert(mask == 0xFFFF_FFFF_FFFF_FFFFu64);
        }
    }
    lemma_unsigned_at(src, w);
    lemma_unsigned_at(regs[0], w);
    lemma_sized_idempotent(src, w);
    lemma_cast_widths(src);
        let divisor = src as int;
        let dividend = signed_dividend(regs[0], regs[2], w);
        let q = trunc_div(dividend, divisor);
        if !(divisor == 0 || q < -h || q >= h) {
            let rem = trunc_rem(dividend, divisor);
            lemma_divide_identity(dividend, divisor);
            assert(-h <= src < h);
            assert(-h < rem < h);
            let qi = q as i128;
            let ri = rem as i128;
            lemma_signed_halves(qi, 0);
            lemma_signed_halves(ri, 0);
            lemma_half_read_back(regs[0], (qi as u64) as i64, w);
            lemma_half_read_back(regs[2], (ri as u64) as i64, w);
            lemma_sext_small(q, w);
            lemma_sext_small(rem, w);
            let r = pair_written(regs, qi as u64, ri as u64, w);
            let (written, _) = mul_div_effect(regs, flags, op, src, w)->0;
            assert(written == r);
            assert(sext(r[0] as int, w) == q);
            assert(sext(r[2] as int, w) == rem);
        }
}

/// The halves of a signed value: its low bits and the bits above them put together make the value
/// modulo twice their width, and the value read unsigned is it plus 2^128 when it is negative; and
/// a 64-bit half read as signed is itself less 2^64 when its top bit is set.
proof fn lemma_signed_halves(p: i128, h: u64)
    by (bit_vector)
    ensures
        -0x8000_0000_0000_0000 <= p < 0x8000_0000_0000_0000 ==> ((p as u64) as i64) as int == p as int,
        (h as i64) as int == if h >= 0x8000_0000_0000_0000 {
            h - 0x1_0000_0000_0000_0000
        } else {
            h as int
        },
        (p as u128) as int == if p < 0 {
            p + 0x1_0000_0000_0000_0000_0000_0000_0000_0000
        } else {
            p as int
        },
        ((((p >> 8u32) as u64) & 0xFFu64) as int) * 0x100 + (((p as u64) & 0xFFu64) as int) == ((
        p as u128) as int) % 0x10000,
        ((((p >> 16u32) as u64) & 0xFFFFu64) as int) * 0x10000 + (((p as u64) & 0xFFFFu64) as int) == ((
        p as u128) as int) % 0x1_0000_0000,
        ((((p >> 32u32) as u64) & 0xFFFF_FFFFu64) as int) * 0x1_0000_0000 + (((p as u64)
            & 0xFFFF_FFFFu64) as int) == ((p as u128) as int) % 0x1_0000_0000_0000_0000,
        ((((p >> 64u32) as u64) & 0xFFFF_FFFF_FFFF_FFFFu64) as int) * 0x1_0000_0000_0000_0000 + (((
        p as u64) & 0xFFFF_FFFF_FFFF_FFFFu64) as int) == (p as u128) as int,
{
}

/// A masked value is at most its mask, and a product below twice a width's bits is its high half
/// times the width's modulus plus its low half.
proof fn lemma_product_bits(x: u64, m: u64, p: u128)
    by (bit_vector)
    ensures
        x & m <= m,
        p <= 0xFFFF ==> (((p >> 8u32) as u64) & 0xFFu64) as u128 * 0x100 + ((p as u64) & 0xFFu64) as u128
            == p,
        p <= 0xFFFF_FFFF ==> (((p >> 16u32) as u64) & 0xFFFFu64) as u128 * 0x10000 + ((p as u64)
            & 0xFFFFu64) as u128 == p,
        p <= 0xFFFF_FFFF_FFFF_FFFF ==> (((p >> 32u32) as u64) & 0xFFFF_FFFFu64) as u128
            * 0x1_0000_0000 + ((p as u64) & 0xFFFF_FFFFu64) as u128 == p,
        (((p >> 64u32) as u64) & 0xFFFF_FFFF_FFFF_FFFFu64) as u128 * 0x1_0000_0000_0000_0000 + ((p
            as u64) & 0xFFFF_FFFF_FFFF_FFFFu64) as u128 == p,
{
}

/// An instruction that does not run, whatever the reason, leaves the registers and the flags
/// exactly as they were. One the caller carries out, or whose bytes ran out, leaves the
/// instruction pointer too, so the caller can carry it out or raise the fault from the state
/// before it; one refused as not implemented leaves it past the bytes read to decide that.
#[verifier::spinoff_prover]
#[verifier::rlimit(40)]
pub proof fn lemma_run_refused_changes_nothing(
    c: Cpu,
    opcode: i32,
    code: Seq<u8>,
    opsize_prefix: bool,
    rep_prefix: bool,
)
    ensures
        ({
            let e = run_effect(c, opcode, code, opsize_prefix, rep_prefix);
            &&& e.3 != Step::Done ==> e.0 == c.reg@ && e.1 == c.flags
            &&& e.3 != Step::Done && e.3 != Step::Unimplemented ==> e == outcome(c, e.3)
        }),
{
}

/// The same of the 0xff group.
pub proof fn lemma_run_ff_refused_changes_nothing(c: Cpu, modrm: i32, opsize_prefix: bool)
    ensures
        ({
            let e = run_ff_effect(c, modrm, opsize_prefix);
            e.3 != Step::Done ==> e == outcome(c, e.3)
        }),
{
}

/// A divide's quotient times the divisor plus its remainder is the dividend. div's remainder lies
/// below the divisor; idiv's, rounding toward zero, is smaller than the divisor in magnitude and
/// takes the dividend's sign.
pub proof fn lemma_divide_identity(x: int, d: int)
    requires
        d != 0,
    ensures
        trunc_div(x, d) * d + trunc_rem(x, d) == x,
        x >= 0 && d > 0 ==> trunc_div(x, d) == x / d && trunc_rem(x, d) == x % d,
        trunc_rem(x, d) == 0 || (trunc_rem(x, d) < 0) == (x < 0),
        -d < trunc_rem(x, d) < d || d < trunc_rem(x, d) < -d,
{
    let q = trunc_div(x, d);
    if x == 0 {
    } else if x > 0 && d > 0 {
        vstd::arithmetic::div_mod::lemma_fundamental_div_mod(x, d);
        vstd::arithmetic::div_mod::lemma_mod_bound(x, d);
        assert(q * d == d * (x / d)) by (nonlinear_arith)
            requires
                q == x / d,
        ;
    } else if x < 0 && d < 0 {
        vstd::arithmetic::div_mod::lemma_fundamental_div_mod(-x, -d);
        vstd::arithmetic::div_mod::lemma_mod_bound(-x, -d);
        assert(q * d == -((-d) * ((-x) / (-d)))) by (nonlinear_arith)
            requires
                q == (x * -1) / (d * -1),
        ;
    } else if x < 0 {
        vstd::arithmetic::div_mod::lemma_fundamental_div_mod(-x, d);
        vstd::arithmetic::div_mod::lemma_mod_bound(-x, d);
        assert(q * d == -(d * ((-x) / d))) by (nonlinear_arith)
            requires
                q == ((x * -1) / d) * -1,
        ;
    } else {
        vstd::arithmetic::div_mod::lemma_fundamental_div_mod(x, -d);
        vstd::arithmetic::div_mod::lemma_mod_bound(x, -d);
        assert(q * d == (-d) * (x / (-d))) by (nonlinear_arith)
            requires
                q == (x / (d * -1)) * -1,
        ;
    }
}

/// A cmpxchg8b or cmpxchg16b that fails loads the halves it found into rdx:rax, so trying again
/// against the same memory succeeds: the retry loop interlocked operations are built on ends.
/// `after` is the state the failed attempt left; the narrow form's halves are 32-bit values.
pub proof fn lemma_pair_retry_succeeds(c: Cpu, after: Cpu, osize: i32, low: i64, high: i64)
    requires
        osize != 64 ==> 0 <= low < 0x1_0000_0000 && 0 <= high < 0x1_0000_0000,
        pair_exchange_effect(c, osize, low, high).2 is None,
        after.reg@ == pair_exchange_effect(c, osize, low, high).0,
    ensures
        pair_exchange_effect(after, osize, low, high).2 == Some((c.reg@[EBX as int], c.reg@[ECX as int])),
{
    lemma_cast_bits(low);
    lemma_cast_bits(high);
    assert(after.reg@[EBX as int] == c.reg@[EBX as int]);
    assert(after.reg@[ECX as int] == c.reg@[ECX as int]);
}

/// Reading a narrowed value back unsigned gives what reading the original unsigned gives.
proof fn lemma_uext_of_sext(v: int, osize: i32)
    requires
        valid_osize(osize),
    ensures
        uext(sext(v, osize), osize) == uext(v, osize),
{
    let m = modulus(osize);
    let u = v % m;
    vstd::arithmetic::div_mod::lemma_small_mod(u as nat, m as nat);
    vstd::arithmetic::div_mod::lemma_mod_add_multiples_vanish(u - m, m);
}

/// The string compares set the flags of the source element minus the destination element, and
/// scas those of the accumulator minus the destination element. After one element, at the
/// element's width: b (the carry) holds exactly when the first is below the second as unsigned
/// numbers, z when they are equal, and l when the first is less as signed numbers. Under repz the
/// repetition goes on after an element exactly when the two were equal, under repnz exactly when
/// they differed; without a prefix it stops after one.
#[verifier::spinoff_prover]
#[verifier::rlimit(40)]
pub proof fn lemma_string_compare_flags(c: Cpu, opcode: i32, osize: i32, source: i64, compare: i64, repz: bool)
    requires
        valid_osize(osize),
        opcode == 0xA6 || opcode == 0xA7 || opcode == 0xAE || opcode == 0xAF,
    ensures
        ({
            let w = string_width(opcode, osize);
            let f = string_element_effect(c, opcode, osize, source, compare).1;
            let first = if opcode == 0xA6 || opcode == 0xA7 {
                source
            } else {
                c.reg@[EAX as int]
            };
            &&& condition_holds(f, 2) == (uext(first as int, w) < uext(compare as int, w))
            &&& condition_holds(f, 4) == (uext(first as int, w) == uext(compare as int, w))
            &&& condition_holds(f, 12) == (sext(first as int, w) < sext(compare as int, w))
            &&& string_repeat(string_element_effect(c, opcode, osize, source, compare).0, f, opcode, true, repz).1
                == ((uext(first as int, w) == uext(compare as int, w)) == repz)
            &&& !string_repeat(string_element_effect(c, opcode, osize, source, compare).0, f, opcode, false, repz).1
        }),
{
    let w = string_width(opcode, osize);
    lemma_low_bit(opcode);
    assert(valid_osize(w));
    let first = if opcode == 0xA6 || opcode == 0xA7 {
        source
    } else {
        c.reg@[EAX as int]
    };
    let a = sized_spec(first, w);
    let b = sized_spec(compare, w);
    lemma_cast_widths(first);
    lemma_cast_widths(compare);
    lemma_cast_widths(a.wrapping_sub(b));
    lemma_sext_wrapping(a, b, w);
    assert(a == sext(first as int, w) && b == sext(compare as int, w));
    assert(sized_spec(a.wrapping_sub(b), w) == sext(a - b, w) as i64);
    lemma_sized_idempotent(first, w);
    lemma_sized_idempotent(compare, w);
    lemma_sized_idempotent(a, w);
    lemma_sized_idempotent(b, w);
    lemma_compare_conditions(c.flags, a, b, w);
    lemma_condition_meanings(string_element_effect(c, opcode, osize, source, compare).1, 4);
    lemma_uext_of_sext(first as int, w);
    lemma_uext_of_sext(compare as int, w);
}

/// What shrd and shld compute, for a count `n` between 1 and the width `w` less one. shrd shifts
/// the destination right by n and fills the top from the source: read unsigned at the width, the
/// result is the destination divided by 2^n plus the low n bits of the source times 2^(w - n).
/// shld shifts the destination left by n and fills the bottom from the source: the result is the
/// low w - n bits of the destination times 2^n plus the source divided by 2^(w - n).
#[verifier::spinoff_prover]
#[verifier::rlimit(40)]
pub proof fn lemma_double_shift_meaning(dst: i64, fill: i64, raw_count: i32, osize: i32, flags: i32)
    requires
        valid_osize(osize),
    ensures
        ({
            let n = shift_count(raw_count, osize) as int;
            let w = osize as int;
            let d = uext(dst as int, osize);
            let f = uext(fill as int, osize);
            0 < n < w ==> {
                &&& uext(double_shift_spec(false, dst, fill, raw_count, osize, flags).0 as int, osize) == d / pow2(
                    n as nat,
                ) as int + (f % pow2(n as nat) as int) * pow2((w - n) as nat) as int
                &&& uext(double_shift_spec(true, dst, fill, raw_count, osize, flags).0 as int, osize) == (d
                    % pow2((w - n) as nat) as int) * pow2(n as nat) as int + f / pow2((w - n) as nat) as int
                &&& (double_shift_spec(false, dst, fill, raw_count, osize, flags).1 & FLAG_CARRY != 0) == ((d
                    / pow2((n - 1) as nat) as int) % 2 == 1)
                &&& (double_shift_spec(true, dst, fill, raw_count, osize, flags).1 & FLAG_CARRY != 0) == ((d
                    / pow2((w - n) as nat) as int) % 2 == 1)
            }
        }),
{
    let count = shift_count(raw_count, osize);
    if 0 < count < osize {
        let width = osize as u32;
        let n = count as u32;
        let k = (width - n) as u32;
        let mask = width_mask(width);
        lemma_width_constants();
        assert(mask == if width == 64 {
            0xFFFF_FFFF_FFFF_FFFFu64
        } else {
            ((1u64 << width) - 1) as u64
        });
        let xd = dst as u64;
        let xf = fill as u64;
        let d = xd & mask;
        let f = xf & mask;
        lemma_double_shift_bits(xd, xf, n, width, mask);
        lemma_unsigned_at(dst, osize);
        lemma_unsigned_at(fill, osize);
        assert(d as int == uext(dst as int, osize));
        assert(f as int == uext(fill as int, osize));
        let n64 = n as u64;
        let k64 = k as u64;
        vstd::bits::lemma_u64_pow2_no_overflow(n as nat);
        vstd::bits::lemma_u64_pow2_no_overflow(k as nat);
        vstd::arithmetic::power2::lemma_pow2_adds(n as nat, k as nat);
        vstd::arithmetic::power2::lemma2_to64();
        let pn = pow2(n as nat) as int;
        let pk = pow2(k as nat) as int;
        assert(pn * pk == modulus(osize));
        // the right shift
        let rres = double_shift_outcome(false, dst, fill, count, osize).0;
        let r = sized_spec(rres as i64, osize);
        lemma_cast_widths(rres as i64);
        lemma_uext_of_sext((rres as i64) as int, osize);
        lemma_unsigned_at(rres as i64, osize);
        assert(uext(r as int, osize) == ((((rres as i64) as u64) & mask) as int));
        let lowf = f & (((1u64 << n64) - 1) as u64);
        vstd::bits::lemma_u64_shl_is_mul(1, n64);
        vstd::bits::lemma_u64_shl_is_mul(1, k64);
        vstd::bits::lemma_u64_low_bits_mask_is_mod(f, n as nat);
        vstd::bits::lemma_u64_shr_is_div(d, n64);
        assert(lowf as int == f as int % pn);
        vstd::arithmetic::div_mod::lemma_mod_bound(f as int, pn);
        assert(lowf as int * pk < pn * pk) by (nonlinear_arith)
            requires
                lowf < pn,
                pk > 0,
        ;
        assert(lowf as int * pk <= u64::MAX as int);
        vstd::bits::lemma_u64_shl_is_mul(lowf, k64);
        // the left shift
        let lres = double_shift_outcome(true, dst, fill, count, osize).0;
        let l = sized_spec(lres as i64, osize);
        lemma_cast_widths(lres as i64);
        lemma_uext_of_sext((lres as i64) as int, osize);
        lemma_unsigned_at(lres as i64, osize);
        assert(uext(l as int, osize) == ((((lres as i64) as u64) & mask) as int));
        let lowd = d & (((1u64 << k64) - 1) as u64);
        vstd::bits::lemma_u64_low_bits_mask_is_mod(d, k as nat);
        vstd::bits::lemma_u64_shr_is_div(f, k64);
        assert(lowd as int == d as int % pk);
        vstd::arithmetic::div_mod::lemma_mod_bound(d as int, pk);
        assert(lowd as int * pn < pk * pn) by (nonlinear_arith)
            requires
                lowd < pk,
                pn > 0,
        ;
        assert(pk * pn == modulus(osize)) by (nonlinear_arith)
            requires
                pn * pk == modulus(osize),
        ;
        assert(lowd as int * pn <= u64::MAX as int);
        vstd::bits::lemma_u64_shl_is_mul(lowd, n64);
        // the bit each shifts out last lands in carry
        lemma_u64_bit(d, (n - 1) as u32);
        lemma_u64_bit(d, k);
        lemma_with_carry(logical_flags(flags, r), ((d >> ((n - 1) as u32)) & 1) == 1);
        lemma_with_carry(logical_flags(flags, l), ((d >> k) & 1) == 1);
    }
}

/// The bits of a double shift at a width: the two shifted operands do not overlap, so or-ing them
/// adds them, and the part of each that survives is its low bits.
#[verifier::rlimit(100)]
proof fn lemma_double_shift_bits(xd: u64, xf: u64, n: u32, w: u32, mask: u64)
    by (bit_vector)
    requires
        w == 8 || w == 16 || w == 32 || w == 64,
        0 < n < w,
        mask == if w == 64 {
            0xFFFF_FFFF_FFFF_FFFFu64
        } else {
            ((1u64 << w) - 1) as u64
        },
    ensures
        ({
            let d = xd & mask;
            let f = xf & mask;
            let k = (w - n) as u32;
            let n64 = n as u64;
            let k64 = k as u64;
            &&& ((((d >> n | f << k) as i64) as u64) & mask) == (d >> n64) + ((f & (((1u64 << n64) - 1) as u64))
                << k64)
            &&& ((((d << n | f >> k) as i64) as u64) & mask) == ((d & (((1u64 << k64) - 1) as u64)) << n64) + (f
                >> k64)
        }),
{
}

/// cmpxchg8b and cmpxchg16b exchange exactly when both halves match. With the halves read from
/// memory, zero extended from the width: when the low half equals rax and the high half equals rdx,
/// both read at the width, rcx:rbx is stored and no register changes; when either differs nothing
/// is stored, rdx:rax take the halves read, and every other register keeps its value.
#[verifier::spinoff_prover]
#[verifier::rlimit(40)]
pub proof fn lemma_pair_exchange_meaning(c: Cpu, osize: i32, low: i64, high: i64)
    requires
        osize == 32 || osize == 64,
        osize == 32 ==> 0 <= low < 0x1_0000_0000 && 0 <= high < 0x1_0000_0000,
    ensures
        ({
            let (regs, flags, write) = pair_exchange_effect(c, osize, low, high);
            let both = uext(low as int, osize) == uext(c.reg@[EAX as int] as int, osize) && uext(
                high as int,
                osize,
            ) == uext(c.reg@[EDX as int] as int, osize);
            &&& (write is Some) == both
            &&& (flags & FLAG_ZERO != 0) == both
            &&& both ==> write == Some((c.reg@[EBX as int], c.reg@[ECX as int])) && regs == c.reg@
            &&& !both ==> regs[EAX as int] == low && regs[EDX as int] == high && regs.len() == 16
                && forall|k: int| 0 <= k < 16 && k != EAX && k != EDX ==> regs[k] == c.reg@[k]
        }),
{
    let rax = c.reg@[EAX as int];
    let rdx = c.reg@[EDX as int];
    lemma_bits_facts(0, 8, 0, 0, 0, 0, c.flags, 0, 0, 0);
    lemma_cast_widths(rax);
    lemma_cast_widths(rdx);
    lemma_cast_widths(low);
    lemma_cast_widths(high);
    lemma_cast_bits(low);
    lemma_cast_bits(high);
    if osize == 64 {
        lemma_cast_bits(rax);
        lemma_cast_bits(rdx);
        assert(uext(low as int, 64) == uext(rax as int, 64) <==> low == rax);
        assert(uext(high as int, 64) == uext(rdx as int, 64) <==> high == rdx);
    } else {
        vstd::arithmetic::div_mod::lemma_small_mod(low as nat, 0x1_0000_0000nat);
        vstd::arithmetic::div_mod::lemma_small_mod(high as nat, 0x1_0000_0000nat);
    }
}

/// A memory form that does not run, whatever the reason, leaves the registers and the flags as
/// they were, stores nothing and leaves nothing for after a store; and the instruction pointer
/// too, unless it was refused as not implemented, which leaves it past the bytes read.
#[verifier::spinoff_prover]
#[verifier::rlimit(60)]
pub proof fn lemma_memory_refused_changes_nothing(
    c: Cpu,
    opcode: i32,
    code: Seq<u8>,
    opsize_prefix: bool,
    rep_prefix: bool,
    seg_base: i64,
    loaded: i64,
)
    ensures
        ({
            let e = memory_effect(c, opcode, code, opsize_prefix, rep_prefix, seg_base, loaded);
            &&& e.3 != Step::Done ==> e.0 == c.reg@ && e.1 == c.flags && e.4 is None && e.5 == AfterStore::Nothing
            &&& e.3 != Step::Done && e.3 != Step::Unimplemented ==> e == plain(refused(c, e.3))
        }),
{
    reveal(memory_dispatch);
}

/// Counting after a reset: once `profiler_init` has zeroed the counters and `stat_increment_by`
/// has counted `n` of one event, `profiler_stat_get` reads `n` for that event, 0 when the profiler
/// is disabled, and 0 for every other event. `inited` is the profiler as `profiler_init` leaves it
/// and `counted` as `stat_increment_by` then leaves it.
pub proof fn lemma_counter_round_trip(inited: Profiler, counted: Profiler, s: stat, n: u64, other: stat)
    requires
        inited.wf(),
        forall|i: int| 0 <= i < STAT_ARRAY_LEN ==> inited.stat_array@[i] == 0,
        counted.enabled == inited.enabled,
        counted.stat_array@ == if inited.enabled {
            inited.stat_array@.update(stat_slot(s) as int, (inited.stat_array@[stat_slot(s) as int] + n) as u64)
        } else {
            inited.stat_array@
        },
        other != s,
    ensures
        stat_value(counted, s) == if inited.enabled { n } else { 0 },
        stat_value(counted, other) == 0,
{
    lemma_stat_slot_injective(s);
    lemma_stat_slot_injective(other);
}

/// Where a rep movs or rep stos stands after `k` elements: `k` elements of `delta` bytes on from
/// `start`, modulo 2^64.
pub open spec fn rep_position(start: i64, delta: i64, k: int) -> i64 {
    sext(start + k * delta, 64) as i64
}

/// `v` and its signed reading modulo 2^64 differ by a multiple of 2^64, and the reading is an
/// i64.
proof fn lemma_sext64_congruent(v: int)
    ensures
        exists|j: int| #[trigger] (j * 0x1_0000_0000_0000_0000) == sext(v, 64) - v,
        i64::MIN <= sext(v, 64) <= i64::MAX,
{
    let m: int = 0x1_0000_0000_0000_0000;
    vstd::arithmetic::div_mod::lemma_fundamental_div_mod(v, m);
    vstd::arithmetic::div_mod::lemma_mod_bound(v, m);
    let q = v / m;
    if sext(v, 64) == v % m {
        assert((-q) * m == sext(v, 64) - v) by (nonlinear_arith)
            requires
                v == m * q + v % m,
                sext(v, 64) == v % m,
        ;
    } else {
        assert((-q - 1) * m == sext(v, 64) - v) by (nonlinear_arith)
            requires
                v == m * q + v % m,
                sext(v, 64) == v % m - m,
        ;
    }
}

/// One element of a rep movs or rep stos of `n` elements, the `k`th: it stores at rdi's position
/// `k`, and movs reads at rsi's position `k` in the segment at `src_base`; it leaves rdi, and for
/// movs rsi, at position `k + 1`, rcx at `n - (k + 1)`, the flags and every other register as they
/// were, and the repetition going on. So the `n` elements store at the `n` positions from rdi on,
/// and end with rcx at zero, where `string_next` has no element left.
pub proof fn lemma_rep_element(
    c: Cpu,
    opcode: i32,
    osize: i32,
    src_base: i64,
    source: i64,
    compare: i64,
    repz: bool,
    rsi0: i64,
    rdi0: i64,
    n: int,
    k: int,
)
    requires
        is_movs(opcode) || is_stos(opcode),
        osize == 16 || osize == 32 || osize == 64,
        0 <= k < n,
        c.reg@[ECX as int] == n - k,
        c.reg@[ESI as int] == rep_position(rsi0, string_delta(c.flags, string_width(opcode, osize)), k),
        c.reg@[EDI as int] == rep_position(rdi0, string_delta(c.flags, string_width(opcode, osize)), k),
    ensures
        ({
            let d = string_delta(c.flags, string_width(opcode, osize));
            let access = string_access(c, opcode, osize, src_base);
            let (regs, flags) = string_element_effect(c, opcode, osize, source, compare);
            let (counted, more) = string_repeat(regs, flags, opcode, true, repz);
            &&& access.store == Some(rep_position(rdi0, d, k))
            &&& is_movs(opcode) ==> access.source == Some(src_base.wrapping_add(rep_position(rsi0, d, k)))
            &&& flags == c.flags
            &&& more
            &&& counted[ECX as int] == n - (k + 1)
            &&& counted[EDI as int] == rep_position(rdi0, d, k + 1)
            &&& counted[ESI as int] == if is_movs(opcode) {
                rep_position(rsi0, d, k + 1)
            } else {
                c.reg@[ESI as int]
            }
            &&& counted.len() == c.reg@.len()
            &&& forall|i: int|
                0 <= i < counted.len() && i != ECX && i != EDI && i != ESI ==> counted[i] == c.reg@[i]
        }),
{
    let d = string_delta(c.flags, string_width(opcode, osize));
    lemma_rep_step(rdi0, d, k);
    lemma_rep_step(rsi0, d, k);
}

/// One step of `delta` from position `k` is position `k + 1`.
proof fn lemma_rep_step(start: i64, delta: i64, k: int)
    ensures
        rep_position(start, delta, k).wrapping_add(delta) == rep_position(start, delta, k + 1),
{
    let a = start + k * delta;
    let x = rep_position(start, delta, k);
    lemma_sext64_congruent(a);
    lemma_sext64_congruent(a + delta);
    let j = choose|j: int| #[trigger] (j * 0x1_0000_0000_0000_0000) == sext(a, 64) - a;
    assert(x == sext(a, 64));
    lemma_sext_wrapping(x, delta, 64);
    assert(x + delta == (a + delta) + j * 0x1_0000_0000_0000_0000);
    lemma_ext_wrap(a + delta, j, 64);
    assert((k + 1) * delta == k * delta + delta) by (nonlinear_arith);
    let y = x.wrapping_add(delta);
    lemma_sext64_congruent(y as int);
    lemma_sext_small(y as int, 64);
}

/// sysret returns to the instruction after the syscall, with the flags syscall found: once
/// syscall has run at `c` with efer.sce set, and rcx and r11 are as it left them, a sysret under
/// rex.w at ring 0 jumps back to where syscall would have returned and restores its flags, with
/// virtual 8086 mode and resume cleared and bit 1 set, and returns to ring 3. `later` is the cpu
/// when the sysret runs and `kernel` the system state then.
pub proof fn lemma_syscall_sysret_round_trip(c: Cpu, s: SystemState, later: Cpu, kernel: SystemState, opsize_prefix: bool)
    requires
        s.efer & EFER_SCE != 0,
        kernel.efer & EFER_SCE != 0,
        kernel.cpl == 0,
        later.reg@[ECX as int] == syscall_spec(c, s).0[ECX as int],
        later.reg@[11] == syscall_spec(c, s).0[11],
        operand_size(later.rex, opsize_prefix) == 64,
    ensures
        syscall_spec(c, s).3.cpl == 0,
        sysret_spec(later, kernel, opsize_prefix).2 == c.instruction_pointer,
        sysret_spec(later, kernel, opsize_prefix).1 == (c.flags & !(FLAG_VM | FLAG_RF)) | FLAGS_DEFAULT,
        sysret_spec(later, kernel, opsize_prefix).3.cpl == 3,
{
    assert((c.flags as i64) as i32 == c.flags);
}

/// Two swapgs in a row give back both gs bases; and a swapgs outside ring 0 changes neither.
pub proof fn lemma_swapgs_twice(s: SystemState)
    ensures
        s.cpl == 0 ==> swapgs_spec(swapgs_spec(s).0).0 == s,
        s.cpl != 0 ==> swapgs_spec(s).0 == s && swapgs_spec(s).1 == SystemEffect::GeneralProtection,
{
}

/// A debug register reads back what was written to it: at ring 0, mov drN, r64 (`modrm_w`) and
/// then mov r64, drN (`modrm_r`) of the same register, one that exists and is not reserved by
/// cr4.de, leave in the destination the low 32 bits of the register written, zero extended, with
/// the reserved bits of dr6 and dr7 set. `later` is the cpu when the read runs; dr4 and dr5 read
/// back through the registers they alias.
pub proof fn lemma_debug_register_read_back(c: Cpu, modrm_w: u8, later: Cpu, modrm_r: u8, cr4: i32, dreg: Seq<i32>)
    requires
        dreg.len() == 8,
        reg_field(c.rex, modrm_w as i32) == reg_field(later.rex, modrm_r as i32),
        reg_field(c.rex, modrm_w as i32) < 8,
        !((reg_field(c.rex, modrm_w as i32) == 4 || reg_field(c.rex, modrm_w as i32) == 5) && cr4 & CR4_DE != 0),
    ensures
        ({
            let written = debug_move_spec(c, 0x23, seq![modrm_w], 0, cr4, dreg);
            let read = debug_move_spec(later, 0x21, seq![modrm_r], 0, cr4, written.2);
            let n = reg_field(c.rex, modrm_w as i32);
            let index = if n == 4 || n == 5 { n + 2 } else { n };
            &&& written.3 == RegisterMove::Done
            &&& read.3 == RegisterMove::Done
            &&& read.0[rm_field(later.rex, modrm_r as i32)] == debug_register_write(
                index,
                c.reg@[rm_field(c.rex, modrm_w as i32)],
            ) as u32 as i64
        }),
{
    let w = modrm_w as i32;
    let r = modrm_r as i32;
    assert(seq![modrm_w][0] == modrm_w);
    assert(seq![modrm_r][0] == modrm_r);
    lemma_modrm_fields(w, rex_extension(c.rex, REX_R), rex_extension(c.rex, REX_B));
    lemma_modrm_fields(r, rex_extension(later.rex, REX_R), rex_extension(later.rex, REX_B));
    let n = reg_field(c.rex, w);
    let index = if n == 4 || n == 5 { n + 2 } else { n };
    let written = debug_move_spec(c, 0x23, seq![modrm_w], 0, cr4, dreg);
    assert(written.2 == dreg.update(index, debug_register_write(index, c.reg@[rm_field(c.rex, w)])));
}

} // verus!
