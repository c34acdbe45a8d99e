//! The arithmetic and logical group: add, or, adc, sbb, and, sub, xor and cmp, at any operand size.

use vstd::prelude::*;
use crate::cpu::{Cpu, arith_flags, logical_flags};
use crate::flags::{
    FLAGS_ALL, FLAG_ADJUST, FLAG_CARRY, FLAG_OVERFLOW, FLAG_PARITY, FLAG_SIGN, FLAG_ZERO,
    even_parity, flag_bit, has_flag, parity_even, with_arith_flags,
};
use crate::width::{lemma_ext_wrap, sext, sized, valid_osize};

verus! {

/// Reducing a wrapped sum or difference at an operand size gives the same value as reducing the
/// exact one.
pub proof fn lemma_sext_wrapping(x: i64, y: i64, osize: i32)
    requires
        valid_osize(osize),
    ensures
        sext(x.wrapping_add(y) as int, osize) == sext(x + y, osize),
        sext(x.wrapping_sub(y) as int, osize) == sext(x - y, osize),
{
    if x + y > i64::MAX {
        lemma_ext_wrap(x + y, -1, osize);
    } else if x + y < i64::MIN {
        lemma_ext_wrap(x + y, 1, osize);
    }
    if x - y > i64::MAX {
        lemma_ext_wrap(x - y, -1, osize);
    } else if x - y < i64::MIN {
        lemma_ext_wrap(x - y, 1, osize);
    }
}

/// The result of adc or sbb, the incoming carry folded in.
pub open spec fn adc_sbb_result(dst: i64, src: i64, osize: i32, is_sub: bool, cf: bool) -> i64 {
    let c: int = if cf {
        1
    } else {
        0
    };
    (if is_sub {
        sext(dst - src - c, osize)
    } else {
        sext(dst + src + c, osize)
    }) as i64
}

/// The carry out of adc or sbb, taken from the sign bits of the operands and the result. With the
/// carry folded in, comparing the operands no longer answers the question.
pub open spec fn adc_sbb_carry(dst: i64, src: i64, result: i64, osize: i32, is_sub: bool) -> bool {
    let sign = osize - 1;
    if is_sub {
        ((result ^ ((result ^ src) & (src ^ dst))) >> sign) & 1 == 1
    } else {
        ((dst ^ ((dst ^ src) & (src ^ result))) >> sign) & 1 == 1
    }
}

/// Signed overflow of adc or sbb, from the sign bits of the operands and the result.
pub open spec fn adc_sbb_overflow(dst: i64, src: i64, result: i64, osize: i32, is_sub: bool) -> bool {
    let sign = osize - 1;
    if is_sub {
        (((src ^ dst) & (result ^ dst)) >> sign) & 1 == 1
    } else {
        (((src ^ result) & (dst ^ result)) >> sign) & 1 == 1
    }
}

/// The flags word after adc or sbb.
pub open spec fn adc_sbb_flags(old: i32, dst: i64, src: i64, osize: i32, is_sub: bool) -> i32 {
    let result = adc_sbb_result(dst, src, osize, is_sub, has_flag(old, FLAG_CARRY));
    with_arith_flags(
        old,
        adc_sbb_carry(dst, src, result, osize, is_sub),
        even_parity(result),
        (dst ^ src ^ result) & 0x10 != 0,
        result == 0,
        result < 0,
        adc_sbb_overflow(dst, src, result, osize, is_sub),
    )
}

/// The value an operation of the arithmetic group produces, or `None` for cmp, which discards it.
/// `op` is bits 5:3 of the opcode or the reg field of the modrm: add, or, adc, sbb, and, sub, xor
/// and cmp.
pub open spec fn group1_result(op: i32, dst: i64, src: i64, osize: i32, cf: bool) -> Option<i64> {
    if op == 0 {
        Some(sext(dst + src, osize) as i64)
    } else if op == 1 {
        Some(sext((dst | src) as int, osize) as i64)
    } else if op == 2 {
        Some(adc_sbb_result(dst, src, osize, false, cf))
    } else if op == 3 {
        Some(adc_sbb_result(dst, src, osize, true, cf))
    } else if op == 4 {
        Some(sext((dst & src) as int, osize) as i64)
    } else if op == 5 {
        Some(sext(dst - src, osize) as i64)
    } else if op == 6 {
        Some(sext((dst ^ src) as int, osize) as i64)
    } else {
        None
    }
}

/// The flags word an operation of the arithmetic group leaves.
pub open spec fn group1_flags(op: i32, dst: i64, src: i64, osize: i32, old: i32) -> i32 {
    if op == 0 {
        arith_flags(old, dst, src, sext(dst + src, osize) as i64, false)
    } else if op == 1 {
        logical_flags(old, sext((dst | src) as int, osize) as i64)
    } else if op == 2 {
        adc_sbb_flags(old, dst, src, osize, false)
    } else if op == 3 {
        adc_sbb_flags(old, dst, src, osize, true)
    } else if op == 4 {
        logical_flags(old, sext((dst & src) as int, osize) as i64)
    } else if op == 5 || op == 7 {
        arith_flags(old, dst, src, sext(dst - src, osize) as i64, true)
    } else if op == 6 {
        logical_flags(old, sext((dst ^ src) as int, osize) as i64)
    } else {
        old
    }
}

impl Cpu {
    /// adc and sbb at any operand size. They need the incoming carry, so carry, adjust and
    /// overflow are worked out from the sign bits, and sign, zero and parity from the result.
    pub fn adc_sbb(&mut self, dst: i64, src: i64, osize: i32, is_sub: bool) -> (r: i64)
        requires
            valid_osize(osize),
        ensures
            r == adc_sbb_result(dst, src, osize, is_sub, has_flag(old(self).flags, FLAG_CARRY)),
            final(self).flags == adc_sbb_flags(old(self).flags, dst, src, osize, is_sub),
            final(self).reg == old(self).reg,
            final(self).instruction_pointer == old(self).instruction_pointer,
            final(self).rex == old(self).rex,
    {
        let cf: i64 = if 0 != self.flags & FLAG_CARRY {
            1
        } else {
            0
        };
        let result = if is_sub {
            sized(dst.wrapping_sub(src).wrapping_sub(cf), osize)
        } else {
            sized(dst.wrapping_add(src).wrapping_add(cf), osize)
        };
        proof {
            lemma_sext_wrapping(dst, src, osize);
            lemma_sext_wrapping(dst.wrapping_sub(src), cf, osize);
            lemma_sext_wrapping(dst.wrapping_add(src), cf, osize);
            // the inner wrap changes the sum by a multiple of 2^64, which the outer reduction
            // does not see
            if is_sub {
                let d = dst.wrapping_sub(src) as int;
                assert(d - cf == (dst - src - cf) + (d - (dst - src)));
                if d != dst - src {
                    if d > dst - src {
                        lemma_ext_wrap(dst - src - cf, 1, osize);
                    } else {
                        lemma_ext_wrap(dst - src - cf, -1, osize);
                    }
                }
            } else {
                let d = dst.wrapping_add(src) as int;
                if d != dst + src {
                    if d > dst + src {
                        lemma_ext_wrap(dst + src + cf, 1, osize);
                    } else {
                        lemma_ext_wrap(dst + src + cf, -1, osize);
                    }
                }
            }
        }

        let sign = osize - 1;
        let (carry, overflow) = if is_sub {
            (
                ((result ^ ((result ^ src) & (src ^ dst))) >> sign) & 1,
                (((src ^ dst) & (result ^ dst)) >> sign) & 1,
            )
        } else {
            (
                ((dst ^ ((dst ^ src) & (src ^ result))) >> sign) & 1,
                (((src ^ result) & (dst ^ result)) >> sign) & 1,
            )
        };
        let adjust = 0 != (dst ^ src ^ result) & 0x10;
        let pf = parity_even(result);
        self.flags = self.flags & !FLAGS_ALL | if carry == 1 {
            FLAG_CARRY
        } else {
            0
        } | if pf {
            FLAG_PARITY
        } else {
            0
        } | if adjust {
            FLAG_ADJUST
        } else {
            0
        } | if result == 0 {
            FLAG_ZERO
        } else {
            0
        } | if result < 0 {
            FLAG_SIGN
        } else {
            0
        } | if overflow == 1 {
            FLAG_OVERFLOW
        } else {
            0
        };
        result
    }

    /// One of the eight operations of the 0x80/0x81/0x83 group, and of the eight `op r/m, r` /
    /// `op r, r/m` pairs. Returns the result to write back, or None for cmp, which discards it.
    /// The operands are brought back to their own width first, so that the sign bit is looked
    /// for where the operand size puts it and a narrow result that wraps counts as zero.
    pub fn group1_op(&mut self, op: i32, dst: i64, src: i64, osize: i32) -> (r: Option<i64>)
        requires
            valid_osize(osize),
        ensures
            r == group1_result(op, dst, src, osize, has_flag(old(self).flags, FLAG_CARRY)),
            final(self).flags == group1_flags(op, dst, src, osize, old(self).flags),
            final(self).reg == old(self).reg,
            final(self).instruction_pointer == old(self).instruction_pointer,
            final(self).rex == old(self).rex,
    {
        proof {
            lemma_sext_wrapping(dst, src, osize);
        }
        match op {
            0 => {
                let r = sized(dst.wrapping_add(src), osize);
                self.set_flags64(dst, src, r, false);
                Some(r)
            },
            1 => {
                let r = sized(dst | src, osize);
                self.set_flags64_logical(r);
                Some(r)
            },
            4 => {
                let r = sized(dst & src, osize);
                self.set_flags64_logical(r);
                Some(r)
            },
            5 => {
                let r = sized(dst.wrapping_sub(src), osize);
                self.set_flags64(dst, src, r, true);
                Some(r)
            },
            6 => {
                let r = sized(dst ^ src, osize);
                self.set_flags64_logical(r);
                Some(r)
            },
            7 => {
                // cmp: subtract and discard
                let r = sized(dst.wrapping_sub(src), osize);
                self.set_flags64(dst, src, r, true);
                None
            },
            2 => Some(self.adc_sbb(dst, src, osize, false)),
            3 => Some(self.adc_sbb(dst, src, osize, true)),
            _ => None,
        }
    }
}

} // verus!
