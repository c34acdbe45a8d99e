//! Bit level operations: the bit tests, imul, shld and shrd, popcnt, bsf and bsr, and bswap.

use vstd::prelude::*;
use vstd::std_specs::bits::{u64_leading_zeros, u64_trailing_zeros, axiom_u64_leading_zeros, axiom_u64_trailing_zeros};
use crate::cpu::{Cpu, logical_flags};
use crate::flags::{
    FLAGS_ALL, FLAG_CARRY, FLAG_OVERFLOW, FLAG_PARITY, FLAG_SIGN, FLAG_ZERO, FLAG_ADJUST,
    even_parity, flag_bit, has_flag, parity_even, popcount, popcount_u64, with_arith_flags,
    with_carry, with_carry_overflow,
};
use crate::shift::{lemma_shift_bits, shift_count, unsigned_at, width_mask};
use crate::width::{lemma_cast_bits, sized, sized_spec, valid_osize};

verus! {

/// The bit a bit test selects: the index modulo the operand size.
pub open spec fn bit_mask(bit: i32, osize: i32) -> i64 {
    1i64 << ((bit & ((osize - 1) as i32)) as u32)
}

/// The value bts, btr and btc write back, or `None` for bt, which only reads.
pub open spec fn bit_test_result(op: i32, value: i64, bit: i32, osize: i32) -> Option<i64> {
    let mask = bit_mask(bit, osize);
    if op == 5 {
        Some(value | mask)
    } else if op == 6 {
        Some(value & !mask)
    } else if op == 7 {
        Some(value ^ mask)
    } else {
        None
    }
}

/// shld and shrd at a non-zero count: the result before it is narrowed, and the carry.
pub open spec fn double_shift_outcome(left: bool, dst: i64, fill: i64, count: i32, osize: i32) -> (u64, u64) {
    let width = osize as u32;
    let d = (dst as u64) & width_mask(width);
    let f = (fill as u64) & width_mask(width);
    let n = count as u32;
    if left {
        (d << n | f >> ((width - n) as u32), (d >> ((width - n) as u32)) & 1)
    } else {
        (d >> n | f << ((width - n) as u32), (d >> ((n - 1) as u32)) & 1)
    }
}

/// The bytes of a 64-bit value in reverse order.
pub open spec fn byte_of(v: u64, k: u64) -> u64 {
    (v >> ((8 * k) as u64)) & 0xFF
}

/// The bytes of a 32-bit value in reverse order.
pub open spec fn byte_of32(v: u32, k: u32) -> u32 {
    (v >> ((8 * k) as u32)) & 0xFF
}

/// A 64-bit value with its bytes in reverse order.
pub open spec fn swap64(v: u64) -> u64 {
    (v >> 56u64) | ((v >> 40u64) & 0xFF00) | ((v >> 24u64) & 0xFF_0000) | ((v >> 8u64) & 0xFF00_0000)
        | ((v << 8u64) & 0xFF_0000_0000) | ((v << 24u64) & 0xFF00_0000_0000) | ((v << 40u64)
        & 0xFF_0000_0000_0000) | (v << 56u64)
}

/// A 32-bit value with its bytes in reverse order.
pub open spec fn swap32(v: u32) -> u32 {
    (v >> 24u32) | ((v >> 8u32) & 0xFF00) | ((v << 8u32) & 0xFF_0000) | (v << 24u32)
}

/// Reverse the byte order of a 64-bit value.
pub fn swap_bytes64(v: u64) -> (r: u64)
    ensures
        r == swap64(v),
        forall|k: u64| k < 8 ==> #[trigger] byte_of(r, k) == byte_of(v, (7 - k) as u64),
{
    let r = (v >> 56) | ((v >> 40) & 0xFF00) | ((v >> 24) & 0xFF_0000) | ((v >> 8) & 0xFF00_0000)
        | ((v << 8) & 0xFF_0000_0000) | ((v << 24) & 0xFF00_0000_0000) | ((v << 40)
        & 0xFF_0000_0000_0000) | (v << 56);
    assert(forall|k: u64| k < 8 ==> #[trigger] ((r >> ((8 * k) as u64)) & 0xFF) == ((v >> ((8 * (7 - k)) as u64))
        & 0xFF)) by (bit_vector)
        requires
            r == (v >> 56) | ((v >> 40) & 0xFF00) | ((v >> 24) & 0xFF_0000) | ((v >> 8)
                & 0xFF00_0000) | ((v << 8) & 0xFF_0000_0000) | ((v << 24) & 0xFF00_0000_0000) | ((v
                << 40) & 0xFF_0000_0000_0000) | (v << 56),
    ;
    r
}

/// Reverse the byte order of a 32-bit value.
pub fn swap_bytes32(v: u32) -> (r: u32)
    ensures
        r == swap32(v),
        forall|k: u32| k < 4 ==> #[trigger] byte_of32(r, k) == byte_of32(v, (3 - k) as u32),
{
    let r = (v >> 24) | ((v >> 8) & 0xFF00) | ((v << 8) & 0xFF_0000) | (v << 24);
    assert(forall|k: u32| k < 4 ==> #[trigger] ((r >> ((8 * k) as u32)) & 0xFF) == ((v >> ((8 * (3 - k)) as u32))
        & 0xFF)) by (bit_vector)
        requires
            r == (v >> 24) | ((v >> 8) & 0xFF00) | ((v << 8) & 0xFF_0000) | (v << 24),
    ;
    r
}

/// The value shld or shrd writes back and the flags word it leaves. A count of zero leaves both
/// alone; otherwise the flags are those of a logical operation on the result, except carry, which
/// takes the last bit shifted out.
pub open spec fn double_shift_spec(left: bool, dst: i64, fill: i64, raw_count: i32, osize: i32, flags: i32) -> (i64, i32) {
    let count = shift_count(raw_count, osize);
    if count == 0 {
        (dst, flags)
    } else {
        let (res, carry) = double_shift_outcome(left, dst, fill, count, osize);
        let r = sized_spec(res as i64, osize);
        (r, with_carry(logical_flags(flags, r), carry == 1))
    }
}

/// The index bsf or bsr finds, `None` for a zero operand, and the flags word it leaves: carry
/// clear, zero saying whether the operand was zero, sign and parity following the index, and
/// adjust and overflow, which are undefined, as they were.
pub open spec fn bit_scan_spec(forward: bool, src: i64, osize: i32, flags: i32) -> (Option<i64>, i32) {
    let u = unsigned_at(src, osize as u32);
    let index: i64 = if u == 0 {
        0
    } else if forward {
        u64_trailing_zeros(u) as i64
    } else {
        (63 - u64_leading_zeros(u)) as i64
    };
    (if u == 0 { None } else { Some(index) }, with_arith_flags(
        flags,
        false,
        even_parity(index),
        has_flag(flags, FLAG_ADJUST),
        u == 0,
        false,
        has_flag(flags, FLAG_OVERFLOW),
    ))
}

/// The bit facts of this module: a bit index modulo the operand size is below 64, the
/// flags words the operations build from their parts are the ones `with_carry_overflow`,
/// `with_carry` and `with_arith_flags` describe, and setting or clearing the zero flag does so.
pub proof fn lemma_bits_facts(bit: i32, osize: i32, f: i32, b: i32, c: i32, o: i32, g: i32, z: i32, p: i32, a: i32)
    by (bit_vector)
    ensures
        (g | 64i32) & 64i32 != 0 && (g & !64i32) & 64i32 == 0,
        osize == 8 || osize == 16 || osize == 32 || osize == 64 ==> 0 <= bit & ((osize - 1) as i32) < 64,
        1i32 | 2048i32 == 2049,
        (b == 2049 && c == 1 && o == 2048) || (b == 0 && c == 0 && o == 0) ==> f & !(1i32 | 2048i32)
            | b == f & !1i32 & !2048i32 | c | o,
        g | 1i32 == g & !1i32 | 1i32 && g & !1i32 == g & !1i32 | 0i32,
        f & !0x8D5i32 | z == f & !0x8D5i32 | 0 | 0 | 0 | z | 0 | 0,
        a == (if f & 16i32 != 0 {
            16i32
        } else {
            0i32
        }) ==> a == f & 16i32,
        o == (if f & 2048i32 != 0 {
            2048i32
        } else {
            0i32
        }) ==> o == f & 2048i32,
        f & !0x8D5i32 | p | a | z | o == f & !0x8D5i32 | 0 | p | a | z | 0 | o,
{
}

impl Cpu {
    /// bt, bts, btr and btc. Carry takes the bit as it was; the other arithmetic flags are
    /// undefined and left alone. The bit index is taken modulo the operand size.
    pub fn bit_test_op(&mut self, op: i32, value: i64, bit: i32, osize: i32) -> (r: Option<i64>)
        requires
            valid_osize(osize),
        ensures
            r == bit_test_result(op, value, bit, osize),
            final(self).flags == with_carry(old(self).flags, value & bit_mask(bit, osize) != 0),
            final(self).reg == old(self).reg,
            final(self).instruction_pointer == old(self).instruction_pointer,
            final(self).rex == old(self).rex,
    {
        let index = bit & (osize - 1);
        proof {
            lemma_bits_facts(bit, osize, 0, 0, 0, 0, 0, 0, 0, 0);
        }
        let mask = 1i64 << (index as u32);
        let old = 0 != value & mask;

        self.flags = self.flags & !FLAG_CARRY | if old {
            FLAG_CARRY
        } else {
            0
        };

        match op {
            4 => None,  // bt, which only reads
            5 => Some(value | mask),  // bts
            6 => Some(value & !mask),  // btr
            7 => Some(value ^ mask),  // btc
            _ => None,
        }
    }

    /// The two and three operand forms of imul: the product truncated to the operand size, with
    /// carry and overflow saying it did not fit. The other flags are undefined and left alone.
    pub fn imul_op(&mut self, dst: i64, src: i64, osize: i32) -> (r: i64)
        ensures
            r == sized_spec((dst * src) as i64, osize),
            final(self).flags == with_carry_overflow(old(self).flags, dst * src != r, dst * src != r),
            final(self).reg == old(self).reg,
            final(self).instruction_pointer == old(self).instruction_pointer,
            final(self).rex == old(self).rex,
    {
        assert(i64::MIN * i64::MAX <= dst * src <= i64::MIN * i64::MIN) by (nonlinear_arith)
            requires
                i64::MIN <= dst <= i64::MAX,
                i64::MIN <= src <= i64::MAX,
        ;
        let wide = (dst as i128) * (src as i128);
        let result = sized(wide as i64, osize);
        let overflowed = wide != result as i128;
        self.flags = self.flags & !(FLAG_CARRY | FLAG_OVERFLOW) | if overflowed {
            FLAG_CARRY | FLAG_OVERFLOW
        } else {
            0
        };
        proof {
            let f = old(self).flags;
            let c = flag_bit(overflowed, FLAG_CARRY);
            let o = flag_bit(overflowed, FLAG_OVERFLOW);
            let b: i32 = if overflowed { 1i32 | 2048i32 } else { 0 };
            lemma_bits_facts(0, 8, f, b, c, o, 0, 0, 0, 0);
        }
        result
    }

    /// shld and shrd: shift `dst`, filling the vacated bits from `fill`. A count of zero leaves
    /// the destination and every flag alone. Otherwise the flags are those of a logical operation
    /// on the result, except carry, which takes the last bit shifted out.
    pub fn double_shift(&mut self, left: bool, dst: i64, fill: i64, raw_count: i32, osize: i32) -> (r: i64)
        requires
            osize == 16 || osize == 32 || osize == 64,
            osize == 16 ==> shift_count(raw_count, osize) <= 16,
        ensures
            (r, final(self).flags) == double_shift_spec(left, dst, fill, raw_count, osize, old(self).flags),
            ({
                let count = shift_count(raw_count, osize);
                if count == 0 {
                    r == dst && final(self).flags == old(self).flags
                } else {
                    let (res, carry) = double_shift_outcome(left, dst, fill, count, osize);
                    &&& r == sized_spec(res as i64, osize)
                    &&& final(self).flags == with_carry(logical_flags(old(self).flags, r), carry == 1)
                }
            }),
            final(self).reg == old(self).reg,
            final(self).instruction_pointer == old(self).instruction_pointer,
            final(self).rex == old(self).rex,
    {
        let count = raw_count & if osize == 64 {
            63
        } else {
            31
        };
        if count == 0 {
            return dst;
        }
        proof {
            lemma_shift_bits(64, 0, count, raw_count, osize, 0);
        }
        let width = osize as u32;
        let mask = if width == 64 {
            !0u64
        } else {
            proof {
                lemma_shift_bits(width, 0, 0, 0, 64, 0);
            }
            (1u64 << width) - 1
        };
        let d = dst as u64 & mask;
        let f = fill as u64 & mask;
        let n = count as u32;
        let (result, carry) = if left {
            let k = width - n;
            proof {
                lemma_shift_bits(64, 0, 0, 0, 64, d >> k);
            }
            (d << n | f >> k, d >> k & 1)
        } else {
            let k = n - 1;
            proof {
                lemma_shift_bits(64, 0, 0, 0, 64, d >> k);
            }
            (d >> n | f << (width - n), d >> k & 1)
        };
        let result = sized(result as i64, osize);
        self.set_flags64_logical(result);
        if carry != 0 {
            self.flags = self.flags | FLAG_CARRY;
        } else {
            self.flags = self.flags & !FLAG_CARRY;
        }
        proof {
            let g = logical_flags(old(self).flags, result);
            lemma_bits_facts(0, 8, 0, 0, 0, 0, g, 0, 0, 0);
        }
        result
    }

    /// popcnt: the number of set bits of the operand. Zero says whether the operand was zero;
    /// every other arithmetic flag is cleared.
    pub fn popcnt_op(&mut self, src: i64, osize: i32) -> (r: i64)
        requires
            valid_osize(osize),
        ensures
            r == popcount(unsigned_at(src, osize as u32) as nat),
            final(self).flags == with_arith_flags(
                old(self).flags,
                false,
                false,
                false,
                unsigned_at(src, osize as u32) == 0,
                false,
                false,
            ),
            final(self).reg == old(self).reg,
            final(self).instruction_pointer == old(self).instruction_pointer,
            final(self).rex == old(self).rex,
    {
        let width = osize as u32;
        let masked = if osize == 64 {
            src as u64
        } else {
            proof {
                lemma_shift_bits(width, 0, 0, 0, 64, 0);
            }
            src as u64 & ((1u64 << width) - 1)
        };
        assert(masked == unsigned_at(src, width)) by {
            lemma_cast_bits(src);
        }
        let count = popcount_u64(masked);
        self.flags = self.flags & !FLAGS_ALL | if masked == 0 {
            FLAG_ZERO
        } else {
            0
        };
        proof {
            let f = old(self).flags;
            let z = flag_bit(masked == 0, FLAG_ZERO);
            lemma_bits_facts(0, 8, f, 0, 0, 0, 0, z, 0, 0);
        }
        count as i64
    }

    /// bsf and bsr: the index of the lowest or highest set bit of the operand. A zero operand has
    /// no index, so zero says so and `None` is returned: the destination keeps what it held.
    /// Carry is cleared and sign and parity follow the index; adjust and overflow are undefined and
    /// left alone.
    pub fn bit_scan(&mut self, forward: bool, src: i64, osize: i32) -> (r: Option<i64>)
        requires
            valid_osize(osize),
        ensures
            (r, final(self).flags) == bit_scan_spec(forward, src, osize, old(self).flags),
            ({
                let u = unsigned_at(src, osize as u32);
                let index: i64 = if u == 0 {
                    0
                } else if forward {
                    u64_trailing_zeros(u) as i64
                } else {
                    (63 - u64_leading_zeros(u)) as i64
                };
                &&& u == 0 ==> r is None
                &&& u != 0 ==> r == Some(index)
                &&& 0 <= index < 64
                &&& final(self).flags == with_arith_flags(
                    old(self).flags,
                    false,
                    even_parity(index),
                    has_flag(old(self).flags, FLAG_ADJUST),
                    u == 0,
                    false,
                    has_flag(old(self).flags, FLAG_OVERFLOW),
                )
            }),
            final(self).reg == old(self).reg,
            final(self).instruction_pointer == old(self).instruction_pointer,
            final(self).rex == old(self).rex,
    {
        let width = osize as u32;
        let u = if osize == 64 {
            src as u64
        } else {
            proof {
                lemma_shift_bits(width, 0, 0, 0, 64, 0);
            }
            (src as u64) & ((1u64 << width) - 1)
        };
        assert(u == unsigned_at(src, width)) by {
            lemma_cast_bits(src);
        }
        let result: i64 = if u == 0 {
            0
        } else if forward {
            proof {
                axiom_u64_trailing_zeros(u);
            }
            u.trailing_zeros() as i64
        } else {
            let lz = u.leading_zeros();
            proof {
                axiom_u64_leading_zeros(u);
            }
            63 - lz as i64
        };
        let pf = parity_even(result);
        self.flags = self.flags & !FLAGS_ALL | if pf {
            FLAG_PARITY
        } else {
            0
        } | (self.flags & FLAG_ADJUST) | if u == 0 {
            FLAG_ZERO
        } else {
            0
        } | (self.flags & FLAG_OVERFLOW);
        proof {
            let f = old(self).flags;
            let p = flag_bit(pf, FLAG_PARITY);
            let a = flag_bit(has_flag(f, FLAG_ADJUST), FLAG_ADJUST);
            let z = flag_bit(u == 0, FLAG_ZERO);
            let o = flag_bit(has_flag(f, FLAG_OVERFLOW), FLAG_OVERFLOW);
            lemma_bits_facts(0, 8, f, 0, 0, o, 0, z, p, a);
        }
        if u == 0 {
            None
        } else {
            Some(result)
        }
    }
}

} // verus!
