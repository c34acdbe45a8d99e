//! The shift group: rol, ror, rcl, rcr, shl, shr and sar, and the bit tests.

use vstd::prelude::*;
use crate::cpu::Cpu;
use crate::flags::{
    FLAGS_ALL, FLAG_ADJUST, FLAG_CARRY, FLAG_OVERFLOW, FLAG_PARITY, FLAG_SIGN, FLAG_ZERO,
    even_parity, flag_bit, has_flag, parity_even, with_arith_flags, with_carry, with_carry_overflow,
};
use crate::width::{
    lemma_cast_bits, lemma_cast_widths, lemma_ext_wrap, lemma_width_constants, sext, sized, sized_spec, uext,
    valid_osize,
};
use vstd::arithmetic::power2::{lemma_pow2_pos, lemma_pow2_unfold, pow2};
use vstd::bits::lemma_u64_shr_is_div;

verus! {

/// The shift count as the instruction takes it: modulo 64 at 64 bits, modulo 32 otherwise.
pub open spec fn shift_count(raw_count: i32, osize: i32) -> i32 {
    raw_count & if osize == 64 {
        63i32
    } else {
        31i32
    }
}

/// The all-ones mask of an operand width.
pub open spec fn width_mask(width: u32) -> u64 {
    if width == 64 {
        !0u64
    } else {
        ((1u64 << width) - 1) as u64
    }
}

/// The operand zero extended from its width.
pub open spec fn unsigned_at(value: i64, width: u32) -> u64 {
    (value as u64) & width_mask(width)
}

/// rol and ror: the rotated operand and the bit that lands in carry. A count that is a whole
/// number of turns leaves the value alone but still reports a bit in carry.
pub open spec fn rol_ror(op: i32, u: u64, count: i32, width: u32) -> (u64, u64) {
    let mask = width_mask(width);
    let n = (count as u32) % width;
    if n == 0 {
        (u, if op == 0 { u & 1 } else { (u >> ((width - 1) as u32)) & 1 })
    } else if op == 0 {
        let r = (u << n | u >> ((width - n) as u32)) & mask;
        (r, r & 1)
    } else {
        let r = (u >> n | u << ((width - n) as u32)) & mask;
        (r, (r >> ((width - 1) as u32)) & 1)
    }
}

/// rcl and rcr: carry sits above the operand as one extra bit of the cycle. Returns the operand
/// and the new carry, or `None` when the count is a whole number of turns of that cycle.
pub open spec fn rcl_rcr(op: i32, u: u64, count: i32, width: u32, cf: bool) -> Option<(u64, u64)> {
    let cycle = (width + 1) as u32;
    let n = (count as u32) % cycle;
    if n == 0 {
        None
    } else {
        let v = (u as u128) | ((if cf { 1u128 } else { 0u128 }) << width);
        let vmask = ((1u128 << cycle) - 1) as u128;
        let r = if op == 2 {
            (v << n | v >> ((cycle - n) as u32)) & vmask
        } else {
            (v >> n | v << ((cycle - n) as u32)) & vmask
        };
        Some(((r as u64) & width_mask(width), ((r >> width) as u64) & 1))
    }
}

/// The overflow a rotate reports: rotating left compares the bit that left the top with carry,
/// rotating right compares the top two bits of the result.
pub open spec fn rotate_overflow(op: i32, result: u64, cf: u64, width: u32) -> bool {
    if op == 0 || op == 2 {
        ((result >> ((width - 1) as u32)) & 1) ^ cf == 1
    } else {
        ((result >> ((width - 1) as u32)) & 1) ^ ((result >> ((width - 2) as u32)) & 1) == 1
    }
}

/// Bit `k` of the 64-bit pattern of `v`.
pub open spec fn bit_at(v: i64, k: int) -> bool {
    (uext(v as int, 64) / pow2(k as nat) as int) % 2 == 1
}

/// A shift proper, `op` 4 to 7 with a count already masked and non-zero: the result, carry and
/// overflow. shl (4, and its alias 6) multiplies by 2^count and keeps the operand's width; carry
/// is the bit shifted out last, bit `width - count` of the operand (that difference taken as a u32
/// and then modulo 64, so a count past a narrow width reads a high bit), and overflow
/// says it differs from the result's sign. shr (5) divides the operand zero extended from its
/// width by 2^count; carry is the bit shifted out last and overflow the operand's top bit at its
/// width. sar (7) divides the operand sign extended from its width by 2^count, rounding down;
/// carry is the bit shifted out last and overflow is clear.
pub open spec fn shift_outcome(op: i32, value: i64, count: i32, osize: i32) -> (i64, bool, bool) {
    if op == 4 || op == 6 {
        let result = sext(value * pow2(count as nat), osize) as i64;
        let cf = bit_at(value, (((osize - count) as u32) % 64) as int);
        (result, cf, cf != (result < 0))
    } else if op == 5 {
        let u = uext(value as int, osize);
        (sext(u / pow2(count as nat) as int, osize) as i64, (u / pow2((count - 1) as nat) as int) % 2 == 1,
            bit_at(value, osize - 1))
    } else {
        let signed = sext(value as int, osize);
        (sext(signed / pow2(count as nat) as int, osize) as i64, bit_at(signed as i64, count - 1), false)
    }
}

/// Shifting right by `k` divides by 2^k, rounding down, for a signed value too.
pub proof fn lemma_shr_divides(x: i64, k: u32)
    requires
        k < 64,
    ensures
        (x >> k) as int == x as int / pow2(k as nat) as int,
{
    lemma_pow2_pos(k as nat);
    let m = pow2(k as nat) as int;
    let u: u64 = if x >= 0 { x as u64 } else { (!x) as u64 };
    assert((u >> k) == (u >> (k as u64)) && (x >= 0 ==> (x >> k) as int == (u >> k) as int) && (x < 0 ==> (x
        >> k) as int == -1 - (u >> k) as int && u as int == -1 - x as int)) by (bit_vector)
        requires
            k < 64,
            u == if x >= 0 { x as u64 } else { (!x) as u64 },
    ;
    lemma_u64_shr_is_div(u, k as u64);
    if x < 0 {
        let q = u as int / m;
        let r = u as int % m;
        vstd::arithmetic::div_mod::lemma_fundamental_div_mod(u as int, m);
        vstd::arithmetic::div_mod::lemma_mod_bound(u as int, m);
        assert(x as int == (-1 - q) * m + (m - 1 - r)) by (nonlinear_arith)
            requires
                u as int == m * q + r,
                u as int == -1 - x as int,
        ;
        vstd::arithmetic::div_mod::lemma_fundamental_div_mod_converse_div(x as int, m, -1 - q, m - 1 - r);
    }
}

/// The bit at `k` of an unsigned value, as a shift and a mask find it and as division does.
pub proof fn lemma_u64_bit(u: u64, k: u32)
    requires
        k < 64,
    ensures
        ((u >> k) & 1 == 1) == ((u as int / pow2(k as nat) as int) % 2 == 1),
{
    assert((u >> k) == (u >> (k as u64)) && ((u >> k) & 1 == 1) == ((u >> k) % 2 == 1)) by (bit_vector)
        requires
            k < 64,
    ;
    lemma_u64_shr_is_div(u, k as u64);
}

/// The bit at `k` of a signed value, as a shift and a mask find it, is bit `k` of its pattern.
proof fn lemma_bit_of(x: i64, k: u32)
    requires
        k < 64,
    ensures
        ((x >> k) & 1 == 1) == bit_at(x, k as int),
        (x >> k) & 1 == 0 || (x >> k) & 1 == 1,
{
    assert(((x >> k) & 1 == 1) == (((x as u64) >> k) & 1 == 1) && ((x >> k) & 1 == 0 || (x >> k) & 1 == 1))
        by (bit_vector)
        requires
            k < 64,
    ;
    lemma_u64_bit(x as u64, k);
    lemma_cast_widths(x);
}

/// Shifting left by `c` multiplies by 2^c, modulo 2^64: it returns the multiple of 2^64 by which
/// the two differ.
proof fn lemma_shl_multiplies(x: i64, c: u32) -> (j: int)
    requires
        c < 64,
    ensures
        (x << c) as int == x * pow2(c as nat) + j * 0x1_0000_0000_0000_0000,
    decreases c,
{
    if c == 0 {
        assert(x << 0u32 == x) by (bit_vector);
        vstd::arithmetic::power2::lemma2_to64();
        assert(pow2(c as nat) == 1);
        assert(x * pow2(c as nat) == x);
        0
    } else {
        let y = x << ((c - 1) as u32);
        let j0 = lemma_shl_multiplies(x, (c - 1) as u32);
        assert(((c - 1) as u32) as nat == (c - 1) as nat);
        assert(x << c == y << 1u32 && ((y << 1u32) as int == 2 * (y as int) || (y << 1u32) as int == 2 * (y as int)
            + 0x1_0000_0000_0000_0000 || (y << 1u32) as int == 2 * (y as int) - 0x1_0000_0000_0000_0000))
            by (bit_vector)
            requires
                y == x << ((c - 1) as u32),
                0 < c < 64,
        ;
        let twice = (y << 1u32) as int - 2 * (y as int);
        let j1: int = if twice == 0 {
            0
        } else if twice > 0 {
            1
        } else {
            -1
        };
        assert(twice == j1 * 0x1_0000_0000_0000_0000);
        lemma_pow2_unfold(c as nat);
        assert(x * pow2(c as nat) == 2 * (x * pow2((c - 1) as nat))) by (nonlinear_arith)
            requires
                pow2(c as nat) == 2 * pow2((c - 1) as nat),
        ;
        assert((x << c) as int == 2 * (y as int) + j1 * 0x1_0000_0000_0000_0000);
        assert(y as int == x * pow2((c - 1) as nat) + j0 * 0x1_0000_0000_0000_0000);
        2 * j0 + j1
    }
}

/// The bit facts behind `shift_outcome`: what the shifts, masks and narrowing casts compute.
proof fn lemma_shift_outcome(op: i32, value: i64, count: i32, osize: i32)
    requires
        valid_osize(osize),
        0 < count < 64,
        osize != 64 ==> count < 32,
        4 <= op <= 7,
    ensures
        op == 4 || op == 6 ==> {
            let result = sized_spec(value << (count as u32), osize);
            &&& result == shift_outcome(op, value, count, osize).0
            &&& (((value >> (((osize - count) as u32) % 64)) & 1) == 1) == shift_outcome(op, value, count, osize).1
            &&& (((result >> ((osize - 1) as u32)) & 1) == 1) == (result < 0)
            &&& (value >> (((osize - count) as u32) % 64)) & 1 == 0 || (value >> (((osize - count) as u32) % 64))
                & 1 == 1
            &&& (result >> ((osize - 1) as u32)) & 1 == 0 || (result >> ((osize - 1) as u32)) & 1 == 1
        },
        op == 5 ==> {
            let u = unsigned_at(value, osize as u32);
            &&& u as int == uext(value as int, osize)
            &&& sized_spec((u >> (count as u32)) as i64, osize) == shift_outcome(op, value, count, osize).0
            &&& (((u >> ((count - 1) as u32)) & 1) == 1) == shift_outcome(op, value, count, osize).1
            &&& (((value >> ((osize - 1) as u32)) & 1) == 1) == shift_outcome(op, value, count, osize).2
            &&& (value >> ((osize - 1) as u32)) & 1 == 0 || (value >> ((osize - 1) as u32)) & 1 == 1
        },
        op == 7 ==> {
            let signed = sized_spec(value, osize);
            &&& sized_spec(signed >> (count as u32), osize) == shift_outcome(op, value, count, osize).0
            &&& (((signed >> ((count - 1) as u32)) & 1) == 1) == shift_outcome(op, value, count, osize).1
            &&& (signed >> ((count - 1) as u32)) & 1 == 0 || (signed >> ((count - 1) as u32)) & 1 == 1
        },
{
    lemma_pow2_pos(count as nat);
    lemma_pow2_pos((count - 1) as nat);
    lemma_cast_widths(value);
    if op == 4 || op == 6 {
        let y = value << (count as u32);
        let j = lemma_shl_multiplies(value, count as u32);
        lemma_cast_widths(y);
        lemma_ext_wrap(value * pow2(count as nat), j, osize);
        let k = (osize - count) as u32;
        lemma_bit_of(value, k % 64);
        let result = sized_spec(y, osize);
        lemma_cast_widths(result);
        lemma_sign_bit(result, osize);
    } else if op == 5 {
        let u = unsigned_at(value, osize as u32);
        lemma_unsigned_at(value, osize);
        lemma_u64_shr_is_div(u, count as u64);
        let c = count as u32;
        assert((u >> c) == (u >> (c as u64)) && (u >> c) <= 0x7FFF_FFFF_FFFF_FFFFu64) by (bit_vector)
            requires
                0 < c < 64,
        ;
        lemma_cast_widths((u >> c) as i64);
        assert(((u >> c) as i64) as int == (u >> c) as int);
        lemma_u64_bit(u, (count - 1) as u32);
        lemma_bit_of(value, (osize - 1) as u32);
    } else {
        let signed = sized_spec(value, osize);
        lemma_shr_divides(signed, count as u32);
        lemma_cast_widths(signed >> (count as u32));
        lemma_bit_of(signed, (count - 1) as u32);
    }
}

/// The operand masked to its width is its zero extension from that width.
pub proof fn lemma_unsigned_at(value: i64, osize: i32)
    requires
        valid_osize(osize),
    ensures
        unsigned_at(value, osize as u32) as int == uext(value as int, osize),
{
    lemma_width_constants();
    lemma_cast_bits(value);
    lemma_cast_widths(value);
    if osize == 8 {
        assert(width_mask(osize as u32) == 0xFFu64);
        assert(unsigned_at(value, osize as u32) as int == uext(value as int, osize));
    } else if osize == 16 {
        assert(width_mask(osize as u32) == 0xFFFFu64);
        assert(unsigned_at(value, osize as u32) as int == uext(value as int, osize));
    } else if osize == 32 {
        assert(width_mask(osize as u32) == 0xFFFF_FFFFu64);
        assert(unsigned_at(value, osize as u32) as int == uext(value as int, osize));
    } else {
        assert(unsigned_at(value, osize as u32) as int == uext(value as int, osize));
    }
}

/// The top bit of a value already narrowed to its width is its sign.
proof fn lemma_sign_bit(r: i64, osize: i32)
    requires
        valid_osize(osize),
        r == sized_spec(r, osize),
    ensures
        (((r >> ((osize - 1) as u32)) & 1) == 1) == (r < 0),
        (r >> ((osize - 1) as u32)) & 1 == 0 || (r >> ((osize - 1) as u32)) & 1 == 1,
{
    lemma_bit_of(r, (osize - 1) as u32);
    assert((r == r as i8 as i64 ==> (((r >> 7u32) & 1) == 1) == (r < 0)) && (r == r as i16 as i64 ==> (((r
        >> 15u32) & 1) == 1) == (r < 0)) && (r == r as i32 as i64 ==> (((r >> 31u32) & 1) == 1) == (r < 0))
        && ((((r >> 63u32) & 1) == 1) == (r < 0))) by (bit_vector);
}

/// The flags word after a shift proper: carry and overflow as computed, sign, zero and parity
/// from the result, and adjust, which is undefined, left as it was.
pub open spec fn shift_flags(old: i32, result: i64, cf: bool, of: bool) -> i32 {
    with_arith_flags(old, cf, even_parity(result), has_flag(old, FLAG_ADJUST), result == 0, result < 0, of)
}

/// The value a rotate writes back and the flags word it leaves, `count` already masked and
/// non-zero. rol and ror change carry and overflow only; rcl and rcr too, unless the count is a
/// whole number of turns of their cycle, which changes nothing.
pub open spec fn rotate_spec(op: i32, value: i64, count: i32, osize: i32, flags: i32) -> (Option<i64>, i32) {
    let u = unsigned_at(value, osize as u32);
    if op <= 1 {
        let (res, cf) = rol_ror(op, u, count, osize as u32);
        (Some(sized_spec(res as i64, osize)), with_carry_overflow(flags, cf == 1, rotate_overflow(op, res, cf, osize as u32)))
    } else {
        match rcl_rcr(op, u, count, osize as u32, has_flag(flags, FLAG_CARRY)) {
            None => (Some(value), flags),
            Some((res, cf)) => (Some(sized_spec(res as i64, osize)), with_carry_overflow(
                flags,
                cf == 1,
                rotate_overflow(op, res, cf, osize as u32),
            )),
        }
    }
}

/// The value a shift of the group writes back and the flags word it leaves. A count of zero hands
/// the operand back and changes no flag. The rotates, ops 0 to 3, share these opcodes but are
/// refused rather than guessed at: like an op outside the group they give `None` and change
/// nothing.
pub open spec fn shift_op_spec(op: i32, value: i64, raw_count: i32, osize: i32, flags: i32) -> (Option<i64>, i32) {
    let count = shift_count(raw_count, osize);
    if count == 0 {
        (Some(value), flags)
    } else if 4 <= op <= 7 {
        let (res, cf, of) = shift_outcome(op, value, count, osize);
        (Some(res), shift_flags(flags, res, cf, of))
    } else {
        (None, flags)
    }
}

/// The bit facts the shifts rest on: the masks of a width and of a rotate's cycle are non-zero,
/// a masked non-zero count is below 64, below 32 at the narrower widths, and a low bit is a bit.
pub proof fn lemma_shift_bits(width: u32, cycle: u32, count: i32, raw_count: i32, osize: i32, low: u64)
    by (bit_vector)
    ensures
        width < 64 ==> 1u64 << width >= 1,
        cycle <= 65 ==> 1u128 << cycle >= 1,
        count == raw_count & (if osize == 64 {
            63i32
        } else {
            31i32
        }) && count != 0 ==> 0 < count < 64,
        count == raw_count & (if osize == 64 {
            63i32
        } else {
            31i32
        }) && osize != 64 ==> count <= 31,
        low & 1 <= 1,
{
}

impl Cpu {
    /// The rotates of the shift group, ops 0 to 3, with `count` already masked and non-zero.
    ///
    /// These only affect carry and overflow - sign, zero and parity keep what the last flag
    /// producing instruction left behind. rol and ror take the count modulo the operand width;
    /// rcl and rcr rotate through carry, so their cycle is one bit longer than the operand and is
    /// worked in 128 bits.
    pub fn rotate_op(&mut self, op: i32, value: i64, count: i32, osize: i32) -> (r: Option<i64>)
        requires
            valid_osize(osize),
            0 <= op <= 3,
            0 < count < 64,
        ensures
            (r, final(self).flags) == rotate_spec(op, value, count, osize, old(self).flags),
            final(self).reg == old(self).reg,
            final(self).instruction_pointer == old(self).instruction_pointer,
            final(self).rex == old(self).rex,
    {
        let width = osize as u32;
        let mask = if width == 64 {
            !0u64
        } else {
            proof {
                lemma_shift_bits(width, 0, 0, 0, 64, 0);
            }
            (1u64 << width) - 1
        };
        let unsigned = (value as u64) & mask;
        assert(unsigned == unsigned_at(value, width));

        let (result, cf): (u64, u64) = if op == 0 || op == 1 {
            let n = count as u32 % width;
            if n == 0 {
                let cf = if op == 0 {
                    unsigned & 1
                } else {
                    unsigned >> (width - 1) & 1
                };
                (unsigned, cf)
            } else if op == 0 {
                let r = (unsigned << n | unsigned >> (width - n)) & mask;
                (r, r & 1)
            } else {
                let r = (unsigned >> n | unsigned << (width - n)) & mask;
                (r, r >> (width - 1) & 1)
            }
        } else {
            let cycle = width + 1;
            let n = count as u32 % cycle;
            if n == 0 {
                return Some(value);
            }
            let carry_in: u128 = if 0 != self.flags & FLAG_CARRY {
                1
            } else {
                0
            };
            let v = unsigned as u128 | carry_in << width;
            proof {
                lemma_shift_bits(64, cycle, 0, 0, 64, 0);
            }
            let vmask = (1u128 << cycle) - 1;
            let r = if op == 2 {
                (v << n | v >> (cycle - n)) & vmask
            } else {
                (v >> n | v << (cycle - n)) & vmask
            };
            ((r as u64) & mask, (r >> width) as u64 & 1)
        };

        let of = if op == 0 || op == 2 {
            (result >> (width - 1) & 1) ^ cf
        } else {
            (result >> (width - 1) & 1) ^ (result >> (width - 2) & 1)
        };

        self.flags = self.flags & !FLAG_CARRY & !FLAG_OVERFLOW | if cf == 1 {
            FLAG_CARRY
        } else {
            0
        } | if of == 1 {
            FLAG_OVERFLOW
        } else {
            0
        };
        Some(sized(result as i64, osize))
    }

    /// shl, shr and sar at any operand size. Carry and overflow are worked out here; sign, zero and
    /// parity follow the result. A count of zero changes no flags at all and hands the operand back
    /// as it was. The rotates share these opcodes but are refused rather than guessed at.
    pub fn shift_op(&mut self, op: i32, value: i64, raw_count: i32, osize: i32) -> (r: Option<i64>)
        requires
            valid_osize(osize),
        ensures
            (r, final(self).flags) == shift_op_spec(op, value, raw_count, osize, old(self).flags),
            final(self).reg == old(self).reg,
            final(self).instruction_pointer == old(self).instruction_pointer,
            final(self).rex == old(self).rex,
    {
        let count = raw_count & if osize == 64 {
            63
        } else {
            31
        };
        if count == 0 {
            return Some(value);
        }
        proof {
            lemma_shift_bits(64, 0, count, raw_count, osize, 0);
        }

        let (result, cf, of): (i64, i64, i64) = match op {
            // shl
            4 | 6 => {
                // shifting by the count taken modulo 64, as the wrapping shifts do
                let result = sized(value << (count as u32), osize);
                let cf = (value >> (((osize - count) as u32) % 64)) & 1;
                let sign = (result >> ((osize - 1) as u32)) & 1;
                // overflow: the bit shifted out last differs from the result's sign
                (result, cf, if cf == sign {
                    0
                } else {
                    1
                })
            },
            // shr, which is logical and so needs the value zero extended to its own width first
            5 => {
                let unsigned = match osize {
                    8 => value as u8 as u64,
                    16 => value as u16 as u64,
                    32 => value as u32 as u64,
                    _ => value as u64,
                };
                assert(unsigned == unsigned_at(value, osize as u32)) by {
                    lemma_cast_bits(value);
                    lemma_width_constants();
                }
                let result = sized((unsigned >> (count as u32)) as i64, osize);
                let low = unsigned >> ((count - 1) as u32);
                proof {
                    lemma_shift_bits(64, 0, 0, 0, 64, low);
                }
                let cf = (low & 1) as i64;
                // overflow is the sign of the original operand
                let of = (value >> ((osize - 1) as u32)) & 1;
                (result, cf, of)
            },
            // sar, arithmetic, so the operand keeps its sign
            7 => {
                let signed = sized(value, osize);
                let result = sized(signed >> (count as u32), osize);
                let cf = (signed >> ((count - 1) as u32)) & 1;
                (result, cf, 0)
            },
            // the rotates, ops 0 to 3, are refused here, as is anything outside the group
            _ => return None,
        };

        proof {
            lemma_shift_outcome(op, value, count, osize);
        }
        assert(result == shift_outcome(op, value, count, osize).0);
        assert((cf == 1) == shift_outcome(op, value, count, osize).1);
        assert((of == 1) == shift_outcome(op, value, count, osize).2);
        let pf = parity_even(result);
        self.flags = self.flags & !FLAGS_ALL | if cf == 1 {
            FLAG_CARRY
        } else {
            0
        } | if pf {
            FLAG_PARITY
        } else {
            0
        } | if 0 != self.flags & FLAG_ADJUST {
            FLAG_ADJUST
        } else {
            0
        } | if result == 0 {
            FLAG_ZERO
        } else {
            0
        } | if result < 0 {
            FLAG_SIGN
        } else {
            0
        } | if of == 1 {
            FLAG_OVERFLOW
        } else {
            0
        };
        Some(result)
    }
}

} // verus!
