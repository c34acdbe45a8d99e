//! The widening multiplies and the divides: mul, imul, div and idiv of the 0xf6/0xf7 group.
//!
//! All four work on an operand twice the width of the one encoded. At byte width that pair is
//! ax; at every other width it is dx:ax. The arithmetic is done in 128 bits, which covers the
//! widest case without splitting it.

use vstd::prelude::*;
use crate::cpu::{Cpu, EAX, EDX, sized_write};
use crate::flags::{
    FLAGS_ALL, FLAG_ADJUST, FLAG_CARRY, FLAG_OVERFLOW, FLAG_PARITY, FLAG_SIGN, FLAG_ZERO,
    even_parity, flag_bit, has_flag, parity_even, with_arith_flags,
};
use crate::shift::{lemma_shift_bits, unsigned_at, width_mask};
use crate::width::{lemma_width_constants, sized, sized_spec, valid_osize};

verus! {

/// A divide whose divisor is zero or whose quotient does not fit the destination; the cpu raises
/// #de for it and nothing is written.
pub struct DivideError;

/// The registers after the low and high halves of a double width value are written back: both
/// into ax at byte width, into ax and dx at every other.
pub open spec fn pair_written(regs: Seq<i64>, low: u64, high: u64, w: i32) -> Seq<i64> {
    if w == 8 {
        regs.update(0, sized_write(regs[0], ((low & 0xFF) | ((high & 0xFF) << 8u64)) as i64, 16))
    } else {
        regs.update(0, sized_write(regs[0], low as i64, w)).update(
            2,
            sized_write(regs[2], high as i64, w),
        )
    }
}

/// The product of mul (op 4, unsigned) or imul (op 5, signed) of the accumulator and `src`, as
/// its low and high halves at the operand width.
pub open spec fn mul_halves(op: i32, ax: i64, src: i64, w: i32) -> (u64, u64) {
    let m = width_mask(w as u32);
    if op == 4 {
        let p = ((unsigned_at(ax, w as u32) as u128) * (unsigned_at(src, w as u32) as u128)) as u128;
        ((p as u64) & m, ((p >> (w as u32)) as u64) & m)
    } else {
        let p = ((sized_spec(ax, w) as i128) * (src as i128)) as i128;
        ((p as u64) & m, ((p >> (w as u32)) as u64) & m)
    }
}

/// Whether a multiply's upper half carries anything the lower half does not already say.
pub open spec fn mul_overflow(op: i32, low: u64, high: u64, w: i32) -> bool {
    if op == 4 {
        high != 0
    } else {
        sized_spec(high as i64, w) != sized_spec(low as i64, w) >> ((w - 1) as u32)
    }
}

/// The unsigned dividend of div: ax at byte width, dx:ax otherwise.
pub open spec fn unsigned_dividend(ax: i64, dx: i64, w: i32) -> int {
    if w == 8 {
        (ax as u64) as int % 0x10000
    } else {
        unsigned_at(dx, w as u32) as int * crate::width::modulus(w) + unsigned_at(ax, w as u32) as int
    }
}

/// The signed dividend of idiv: ax at byte width, dx:ax otherwise.
pub open spec fn signed_dividend(ax: i64, dx: i64, w: i32) -> int {
    if w == 8 {
        ax as i16 as int
    } else {
        sized_spec(dx, w) as int * crate::width::modulus(w) + unsigned_at(ax, w as u32) as int
    }
}

/// Division rounding toward zero, as idiv does it.
pub open spec fn trunc_div(x: int, d: int) -> int {
    if x == 0 {
        0
    } else if x > 0 && d > 0 {
        x / d
    } else if x < 0 && d < 0 {
        (x * -1) / (d * -1)
    } else if x < 0 {
        ((x * -1) / d) * -1
    } else {
        (x / (d * -1)) * -1
    }
}

/// The remainder that goes with `trunc_div`, which takes the sign of the dividend.
pub open spec fn trunc_rem(x: int, d: int) -> int {
    x - trunc_div(x, d) * d
}

/// The registers and flags mul, imul, div or idiv leave, or `None` when a divide raises #de.
pub open spec fn mul_div_effect(regs: Seq<i64>, flags: i32, op: i32, src: i64, w: i32) -> Option<(Seq<i64>, i32)> {
    if op == 4 || op == 5 {
        let (low, high) = mul_halves(op, regs[0], src, w);
        let low_s = sized_spec(low as i64, w);
        let overflow = mul_overflow(op, low, high, w);
        Some((pair_written(regs, low, high, w), with_arith_flags(
            flags,
            overflow,
            even_parity(low_s),
            has_flag(flags, FLAG_ADJUST),
            low_s == 0,
            low_s < 0,
            overflow,
        )))
    } else if op == 6 {
        let divisor = unsigned_at(src, w as u32) as int;
        let dividend = unsigned_dividend(regs[0], regs[2], w);
        if divisor == 0 || dividend / divisor >= crate::width::modulus(w) {
            None
        } else {
            Some((pair_written(regs, (dividend / divisor) as u64, (dividend % divisor) as u64, w), flags))
        }
    } else {
        let divisor = src as int;
        let dividend = signed_dividend(regs[0], regs[2], w);
        let q = trunc_div(dividend, divisor);
        if divisor == 0 || q < -(crate::width::modulus(w) / 2) || q >= crate::width::modulus(w) / 2 {
            None
        } else {
            Some((pair_written(regs, q as i128 as u64, trunc_rem(dividend, divisor) as i128 as u64, w), flags))
        }
    }
}

impl Cpu {
    /// Write the low and high halves of a double width value back. The byte forms keep both
    /// halves in ax, so there it is one 16-bit write rather than two.
    fn write_pair(&mut self, low: u64, high: u64, w: i32)
        ensures
            final(self).reg@ == pair_written(old(self).reg@, low, high, w),
            final(self).flags == old(self).flags,
            final(self).instruction_pointer == old(self).instruction_pointer,
            final(self).rex == old(self).rex,
    {
        if w == 8 {
            self.write_reg_sized(EAX, (low & 0xFF | (high & 0xFF) << 8) as i64, 16);
        } else {
            self.write_reg_sized(EAX, low as i64, w);
            self.write_reg_sized(EDX, high as i64, w);
        }
    }

    /// mul, imul, div and idiv, ops 4 to 7 of 0xf6/0xf7, with `src` the sign extended r/m
    /// operand and `w` the operand width in bits.
    ///
    /// The multiplies report in carry and overflow whether the upper half carries anything the
    /// lower half does not already say, and leave sign, zero and parity derived from the lower
    /// half; adjust is undefined and kept. The divides define no flags at all, and fail with
    /// `DivideError` rather than truncating when the divisor is zero or the quotient does not
    /// fit, writing nothing.
    #[verifier::spinoff_prover]
    #[verifier::rlimit(30)]
    pub fn mul_div_op(&mut self, op: i32, src: i64, w: i32) -> (r: Result<(), DivideError>)
        requires
            valid_osize(w),
            4 <= op <= 7,
        ensures
            final(self).instruction_pointer == old(self).instruction_pointer,
            final(self).rex == old(self).rex,
            match mul_div_effect(old(self).reg@, old(self).flags, op, src, w) {
                None => r is Err && *final(self) == *old(self),
                Some((regs, flags)) => r is Ok && final(self).reg@ == regs && final(self).flags == flags,
            },
            op == 4 || op == 5 ==> {
                let (low, high) = mul_halves(op, old(self).reg[0], src, w);
                let low_s = sized_spec(low as i64, w);
                let overflow = mul_overflow(op, low, high, w);
                &&& r is Ok
                &&& final(self).reg@ == pair_written(old(self).reg@, low, high, w)
                &&& final(self).flags == with_arith_flags(
                    old(self).flags,
                    overflow,
                    even_parity(low_s),
                    has_flag(old(self).flags, FLAG_ADJUST),
                    low_s == 0,
                    low_s < 0,
                    overflow,
                )
            },
            op == 6 ==> {
                let divisor = unsigned_at(src, w as u32) as int;
                let dividend = unsigned_dividend(old(self).reg[0], old(self).reg[2], w);
                if divisor == 0 || dividend / divisor >= crate::width::modulus(w) {
                    r is Err && *final(self) == *old(self)
                } else {
                    &&& r is Ok
                    &&& final(self).reg@ == pair_written(
                        old(self).reg@,
                        (dividend / divisor) as u64,
                        (dividend % divisor) as u64,
                        w,
                    )
                    &&& final(self).flags == old(self).flags
                }
            },
            op == 7 ==> {
                let divisor = src as int;
                let dividend = signed_dividend(old(self).reg[0], old(self).reg[2], w);
                let q = trunc_div(dividend, divisor);
                if divisor == 0 || q < -(crate::width::modulus(w) / 2) || q >= crate::width::modulus(w) / 2 {
                    r is Err && *final(self) == *old(self)
                } else {
                    &&& r is Ok
                    &&& final(self).reg@ == pair_written(
                        old(self).reg@,
                        q as i128 as u64,
                        trunc_rem(dividend, divisor) as i128 as u64,
                        w,
                    )
                    &&& final(self).flags == old(self).flags
                }
            },
    {
        let bits = w as u32;
        let low_mask: u64 = if w == 64 {
            !0
        } else {
            proof {
                lemma_shift_bits(bits, 0, 0, 0, 64, 0);
            }
            (1u64 << bits) - 1
        };
        let rax = self.reg[0];
        let rdx = self.reg[2];
        // ax and dx at this width, zero extended and sign extended respectively
        let ax_u = (rax as u64) & low_mask;
        let dx_u = (rdx as u64) & low_mask;
        if bits < 64 {
            proof {
                lemma_muldiv_bits(rax as u64, low_mask, bits, 0, 0, 0, 0);
                lemma_muldiv_bits(rdx as u64, low_mask, bits, 0, 0, 0, 0);
            }
        }
        let src_u = (src as u64) & low_mask;
        let ax_s = sized(rax, w);
        let dx_s = sized(rdx, w);
        proof {
            lemma_width_mask(w);
        }

        match op {
            // mul and imul
            4 | 5 => {
                let (low, high) = if op == 4 {
                    proof {
                        lemma_u64_product(ax_u, src_u);
                    }
                    let r = ax_u as u128 * src_u as u128;
                    ((r as u64) & low_mask, (r >> bits) as u64 & low_mask)
                } else {
                    proof {
                        lemma_i64_product(ax_s, src);
                    }
                    let r = ax_s as i128 * src as i128;
                    ((r as u64) & low_mask, (r >> bits) as u64 & low_mask)
                };
                self.write_pair(low, high, w);

                let overflow = if op == 4 {
                    high != 0
                } else {
                    sized(high as i64, w) != sized(low as i64, w) >> (bits - 1)
                };

                let low_s = sized(low as i64, w);
                let pf = parity_even(low_s);
                self.flags = self.flags & !FLAGS_ALL | if overflow {
                    FLAG_CARRY
                } else {
                    0
                } | if pf {
                    FLAG_PARITY
                } else {
                    0
                } | (self.flags & FLAG_ADJUST) | if low_s == 0 {
                    FLAG_ZERO
                } else {
                    0
                } | if low_s < 0 {
                    FLAG_SIGN
                } else {
                    0
                } | if overflow {
                    FLAG_OVERFLOW
                } else {
                    0
                };
                proof {
                    let f = old(self).flags;
                    let a = flag_bit(has_flag(f, FLAG_ADJUST), FLAG_ADJUST);
                    lemma_muldiv_bits(0, 0, 64, f, a, 0, 0);
                }
                Ok(())
            },
            // div
            6 => {
                let divisor = src_u as u128;
                if divisor == 0 {
                    return Err(DivideError);
                }
                let dividend = if w == 8 {
                    proof {
                        lemma_muldiv_bits(rax as u64, 0, 64, 0, 0, 0, 0);
                    }
                    (rax as u64) as u128 & 0xFFFF
                } else {
                    proof {
                        lemma_concat_halves(dx_u, ax_u, bits);
                    }
                    (dx_u as u128) << bits | ax_u as u128
                };
                let quotient = dividend / divisor;
                if quotient > low_mask as u128 {
                    return Err(DivideError);
                }
                self.write_pair(quotient as u64, (dividend % divisor) as u64, w);
                Ok(())
            },
            // idiv
            _ => {
                let divisor = src as i128;
                if divisor == 0 {
                    return Err(DivideError);
                }
                let dividend = if w == 8 {
                    rax as i16 as i128
                } else {
                    proof {
                        lemma_concat_signed(dx_s, ax_u, bits);
                    }
                    (dx_s as i128) * (1i128 << bits) + ax_u as i128
                };
                // the quotient can be one step outside i128 when dividing the most negative value
                // by -1, so the division itself has to be checked before its result is range
                // checked
                proof {
                    lemma_quotient_overflow(dividend, divisor);
                }
                let quotient = match dividend.checked_div(divisor) {
                    Some(q) => q,
                    None => {
                        return Err(DivideError);
                    },
                };
                assert(1i128 << (bits - 1) == crate::width::modulus(w) / 2) by {
                    lemma_half_modulus(w);
                }
                let limit = 1i128 << (bits - 1);
                if quotient < -limit || quotient >= limit {
                    return Err(DivideError);
                }
                proof {
                    lemma_trunc_rem(dividend, divisor);
                }
                let remainder = match dividend.checked_rem(divisor) {
                    Some(m) => m,
                    None => {
                        return Err(DivideError);
                    },
                };
                assert(dividend == signed_dividend(rax, rdx, w));
                assert(quotient == trunc_div(dividend as int, divisor as int));
                assert(limit == crate::width::modulus(w) / 2);
                self.write_pair(quotient as u64, remainder as u64, w);
                Ok(())
            },
        }
    }
}

/// The bit facts of the multiplies and divides: a value masked below a power of two lies below
/// it, the adjust bit read back from a flags word, the low word of ax, and the double width
/// value two halves make.
proof fn lemma_muldiv_bits(x: u64, mask: u64, bits: u32, f: i32, a: i32, hi: u64, lo: u64)
    by (bit_vector)
    ensures
        bits < 64 && mask == ((1u64 << bits) - 1) as u64 && 1u64 << bits >= 1 ==> x & mask < (1u64
            << bits),
        a == (if f & 16i32 != 0 {
            16i32
        } else {
            0i32
        }) ==> a == f & 16i32,
        (x as u128) & 0xFFFF == (x as int) % 0x10000,
        lo < 0x10000u64 && hi < 0x10000u64 ==> ((hi as u128) << 16u32 | lo as u128) == hi as u128
            * 0x10000 + lo as u128,
        lo < 0x1_0000_0000u64 && hi < 0x1_0000_0000u64 ==> ((hi as u128) << 32u32 | lo as u128)
            == hi as u128 * 0x1_0000_0000 + lo as u128,
        ((hi as u128) << 64u32 | lo as u128) == hi as u128 * 0x1_0000_0000_0000_0000 + lo as u128,
{
}

/// The one quotient of two i128 values that does not fit in one: the most negative value divided
/// by -1.
proof fn lemma_quotient_overflow(x: i128, d: i128)
    ensures
        x == i128::MIN && d == -1 ==> x.checked_div(d) is None,
{
}

proof fn lemma_width_mask(w: i32)
    requires
        valid_osize(w),
    ensures
        width_mask(w as u32) as int == crate::width::modulus(w) - 1,
{
    lemma_width_constants();
}

/// The remainder idiv computes goes with its quotient.
proof fn lemma_trunc_rem(x: i128, d: i128)
    requires
        d != 0,
        !(x == i128::MIN && d == -1),
    ensures
        x.checked_rem(d) == Some(trunc_rem(x as int, d as int) as i128),
{
    let xi = x as int;
    let di = d as int;
    vstd::arithmetic::div_mod::lemma_fundamental_div_mod(xi, di);
    if xi > 0 && di > 0 {
    } else if xi < 0 && di < 0 {
        vstd::arithmetic::div_mod::lemma_fundamental_div_mod(-xi, -di);
    } else if xi < 0 {
        vstd::arithmetic::div_mod::lemma_fundamental_div_mod(-xi, di);
    } else if xi > 0 {
        vstd::arithmetic::div_mod::lemma_fundamental_div_mod(xi, -di);
    }
    let r = trunc_rem(xi, di);
    assert(r == xi - trunc_div(xi, di) * di);
    if xi > 0 && di > 0 {
        assert(trunc_div(xi, di) * di == di * (xi / di)) by (nonlinear_arith)
            requires trunc_div(xi, di) == xi / di;
        vstd::arithmetic::div_mod::lemma_mod_bound(xi, di);
    } else if xi < 0 && di < 0 {
        assert(trunc_div(xi, di) * di == -((-di) * ((-xi) / (-di)))) by (nonlinear_arith)
            requires trunc_div(xi, di) == (xi * -1) / (di * -1);
        vstd::arithmetic::div_mod::lemma_mod_bound(-xi, -di);
    } else if xi < 0 {
        assert(trunc_div(xi, di) * di == -(di * ((-xi) / di))) by (nonlinear_arith)
            requires trunc_div(xi, di) == ((xi * -1) / di) * -1;
        vstd::arithmetic::div_mod::lemma_mod_bound(-xi, di);
    } else if xi > 0 {
        assert(trunc_div(xi, di) * di == (-di) * (xi / (-di))) by (nonlinear_arith)
            requires trunc_div(xi, di) == (xi / (di * -1)) * -1;
        vstd::arithmetic::div_mod::lemma_mod_bound(xi, -di);
    }
}

proof fn lemma_half_modulus(w: i32)
    requires
        valid_osize(w),
    ensures
        1i128 << ((w - 1) as u32) == crate::width::modulus(w) / 2,
{
    lemma_width_constants();
}

proof fn lemma_u64_product(a: u64, b: u64)
    ensures
        a * b <= u128::MAX,
{
    assert(a * b <= u64::MAX * u64::MAX) by (nonlinear_arith)
        requires
            a <= u64::MAX,
            b <= u64::MAX,
    ;
}

proof fn lemma_i64_product(a: i64, b: i64)
    ensures
        i128::MIN <= a * b <= i128::MAX,
{
    assert(i64::MIN * i64::MAX <= a * b <= i64::MIN * i64::MIN) by (nonlinear_arith)
        requires
            i64::MIN <= a <= i64::MAX,
            i64::MIN <= b <= i64::MAX,
    ;
}

proof fn lemma_concat_halves(hi: u64, lo: u64, bits: u32)
    requires
        bits == 16 || bits == 32 || bits == 64,
        bits < 64 ==> lo < (1u64 << bits) && hi < (1u64 << bits),
    ensures
        ((hi as u128) << bits | lo as u128) == hi * crate::width::modulus(bits as i32) + lo,
{
    lemma_width_constants();
    lemma_muldiv_bits(0, 0, 64, 0, 0, hi, lo);
}

proof fn lemma_concat_signed(hi: i64, lo: u64, bits: u32)
    requires
        bits == 16 || bits == 32 || bits == 64,
    ensures
        (1i128 << bits) == crate::width::modulus(bits as i32),
        i128::MIN <= hi * crate::width::modulus(bits as i32) + lo <= i128::MAX,
        i128::MIN <= hi * crate::width::modulus(bits as i32) <= i128::MAX,
{
    lemma_width_constants();
    let m = crate::width::modulus(bits as i32);
    assert(i64::MIN * m <= hi * m <= i64::MAX * m) by (nonlinear_arith)
        requires
            i64::MIN <= hi <= i64::MAX,
            0 < m <= 0x1_0000_0000_0000_0000,
    ;
    assert(i64::MIN * 0x1_0000_0000_0000_0000 <= i64::MIN * m) by (nonlinear_arith)
        requires
            0 < m <= 0x1_0000_0000_0000_0000,
    ;
    assert(i64::MAX * m <= i64::MAX * 0x1_0000_0000_0000_0000) by (nonlinear_arith)
        requires
            0 < m <= 0x1_0000_0000_0000_0000,
    ;
}

} // verus!
