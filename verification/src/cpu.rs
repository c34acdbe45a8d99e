//! The register file and flags of a 64-bit cpu, and the arithmetic and logical operations that
//! act on them.
//!
//! Flags are held eagerly: every operation leaves the architectural value of each flag it
//! defines in `flags`. A flag that an operation leaves undefined keeps its previous value.

use vstd::prelude::*;
use crate::flags::{
    FLAGS_ALL, FLAG_ADJUST, FLAG_CARRY, FLAG_OVERFLOW, FLAG_PARITY, FLAG_SIGN, FLAG_ZERO,
    even_parity, flag_bit, has_flag, parity_even, with_arith_flags,
};
use crate::width::{lemma_cast_widths, uext};

verus! {

pub const EAX: i32 = 0;
pub const ECX: i32 = 1;
pub const EDX: i32 = 2;
pub const EBX: i32 = 3;
pub const ESP: i32 = 4;
pub const EBP: i32 = 5;
pub const ESI: i32 = 6;
pub const EDI: i32 = 7;

pub const REX_B: u8 = 1;
pub const REX_X: u8 = 2;
pub const REX_R: u8 = 4;
pub const REX_W: u8 = 8;

/// The state an instruction in 64-bit mode reads and writes: sixteen general purpose registers,
/// the flags, the instruction pointer and the rex byte of the instruction being run, 0 when it
/// has none.
pub struct Cpu {
    pub reg: [i64; 16],
    pub flags: i32,
    pub instruction_pointer: i64,
    pub rex: u8,
}

/// A general purpose register index.
pub open spec fn valid_reg(reg: i32) -> bool {
    0 <= reg < 16
}

/// The carry of `op1 + op2` or `op1 - op2`, given its `result`. Sign extension preserves unsigned
/// order between the two halves of the range, so comparing the extended values gives the same
/// carry as comparing at the original width.
pub open spec fn carry_flag(op1: i64, op2: i64, result: i64, is_sub: bool) -> bool {
    if is_sub {
        (op1 as u64) < (op2 as u64)
    } else {
        (result as u64) < (op1 as u64)
    }
}

/// The carry out of bit 3.
pub open spec fn adjust_flag(op1: i64, op2: i64, result: i64) -> bool {
    (op1 ^ op2 ^ result) & 0x10 != 0
}

/// Signed overflow of `op1 + op2` or `op1 - op2`, given its `result`.
pub open spec fn overflow_flag(op1: i64, op2: i64, result: i64, is_sub: bool) -> bool {
    if is_sub {
        (op1 ^ op2) & (op1 ^ result) < 0
    } else {
        (op1 ^ result) & (op2 ^ result) < 0
    }
}

/// The flags word after an add or subtract of sign extended operands.
pub open spec fn arith_flags(old: i32, op1: i64, op2: i64, result: i64, is_sub: bool) -> i32 {
    with_arith_flags(
        old,
        carry_flag(op1, op2, result, is_sub),
        even_parity(result),
        adjust_flag(op1, op2, result),
        result == 0,
        result < 0,
        overflow_flag(op1, op2, result, is_sub),
    )
}

/// The flags word after a logical operation, which always clears carry, adjust and overflow.
pub open spec fn logical_flags(old: i32, result: i64) -> i32 {
    with_arith_flags(old, false, even_parity(result), false, result == 0, result < 0, false)
}

/// A general purpose register after a write at an operand size. A 32-bit write zero extends
/// into the full register; a 16-bit one leaves everything above bit 15 as it was.
pub open spec fn sized_write(old: i64, value: i64, osize: i32) -> i64 {
    if osize == 16 {
        old & !0xFFFF | value & 0xFFFF
    } else if osize == 32 {
        value as u32 as i64
    } else {
        value
    }
}

/// What a sized write leaves in the register, read arithmetically.
pub proof fn lemma_sized_write(old: i64, value: i64, osize: i32)
    ensures
        osize == 16 ==> uext(sized_write(old, value, osize) as int, 16) == uext(value as int, 16)
            && sized_write(old, value, osize) >> 16 == old >> 16,
        osize == 32 ==> sized_write(old, value, osize) == uext(value as int, 32),
        osize != 16 && osize != 32 ==> sized_write(old, value, osize) == value,
{
    lemma_cast_widths(value);
    let w = old & !0xFFFF | value & 0xFFFF;
    assert(w as u16 == value as u16 && w >> 16 == old >> 16) by (bit_vector)
        requires
            w == old & !0xFFFF | value & 0xFFFF,
    ;
    lemma_cast_widths(w);
    assert(value as u32 as i64 == value as u32);
}

/// Whether the byte register `idx` names is one of ah, ch, dh and bh, the second byte of rax to
/// rbx: indices 4 to 7 without a rex prefix. Under any rex prefix those indices name spl, bpl, sil
/// and dil instead, and 8 to 15 name r8b to r15b.
pub open spec fn is_high_byte(rex: u8, idx: int) -> bool {
    rex == 0 && 4 <= idx < 8
}

/// The byte register `idx` names, zero extended.
pub open spec fn byte_reg(regs: Seq<i64>, rex: u8, idx: int) -> i64 {
    if is_high_byte(rex, idx) {
        (regs[idx - 4] >> 8) & 0xFF
    } else {
        regs[idx] & 0xFF
    }
}

/// The registers after the low byte of `v` is written to the byte register `idx` names; every
/// other bit of the register it lies in is kept.
pub open spec fn with_byte_reg(regs: Seq<i64>, rex: u8, idx: int, v: i64) -> Seq<i64> {
    if is_high_byte(rex, idx) {
        regs.update(idx - 4, regs[idx - 4] & !0xFF00 | ((v & 0xFF) * 256) as i64)
    } else {
        regs.update(idx, regs[idx] & !0xFF | v & 0xFF)
    }
}

/// Whether a condition code holds. The low bit of the code negates the condition named by the
/// bits above it: o, b, z, be, s, p, l and le.
pub open spec fn condition_holds(flags: i32, condition: i32) -> bool {
    let cf = has_flag(flags, FLAG_CARRY);
    let zf = has_flag(flags, FLAG_ZERO);
    let sf = has_flag(flags, FLAG_SIGN);
    let of = has_flag(flags, FLAG_OVERFLOW);
    let pf = has_flag(flags, FLAG_PARITY);
    let base = match condition >> 1 {
        0 => of,
        1 => cf,
        2 => zf,
        3 => cf || zf,
        4 => sf,
        5 => pf,
        6 => sf != of,
        _ => zf || sf != of,
    };
    base != (condition & 1 != 0)
}

impl Cpu {
    /// A 64-bit register.
    pub fn read_reg64(&self, reg: i32) -> (r: i64)
        requires
            valid_reg(reg),
        ensures
            r == self.reg[reg as int],
    {
        self.reg[reg as usize]
    }

    /// A byte register, zero extended: ah to bh for indices 4 to 7 without a rex prefix, the low
    /// byte of the register otherwise.
    pub fn read_reg8(&self, idx: i32) -> (r: i64)
        requires
            valid_reg(idx),
        ensures
            r == byte_reg(self.reg@, self.rex, idx as int),
            0 <= r < 256,
    {
        if self.rex == 0 && 4 <= idx && idx < 8 {
            let whole = self.reg[(idx - 4) as usize];
            let v = (whole >> 8) & 0xFF;
            assert(0 <= v < 256) by (bit_vector)
                requires
                    v == (whole >> 8) & 0xFF,
            ;
            v
        } else {
            let whole = self.reg[idx as usize];
            let v = whole & 0xFF;
            assert(0 <= v < 256) by (bit_vector)
                requires
                    v == whole & 0xFF,
            ;
            v
        }
    }

    /// Write the low byte of `value` to a byte register, keeping the rest of the register.
    pub fn write_reg8(&mut self, idx: i32, value: i64)
        requires
            valid_reg(idx),
        ensures
            final(self).reg@ == with_byte_reg(old(self).reg@, old(self).rex, idx as int, value),
            final(self).flags == old(self).flags,
            final(self).instruction_pointer == old(self).instruction_pointer,
            final(self).rex == old(self).rex,
    {
        if self.rex == 0 && 4 <= idx && idx < 8 {
            let r = (idx - 4) as usize;
            let low = value & 0xFF;
            assert(0 <= low < 256) by (bit_vector)
                requires
                    low == value & 0xFF,
            ;
            self.reg[r] = self.reg[r] & !0xFF00 | low * 256;
        } else {
            let r = idx as usize;
            self.reg[r] = self.reg[r] & !0xFF | value & 0xFF;
        }
    }

    /// Write a whole 64-bit register.
    pub fn write_reg64(&mut self, reg: i32, value: i64)
        requires
            valid_reg(reg),
        ensures
            final(self).reg@ == old(self).reg@.update(reg as int, value),
            final(self).flags == old(self).flags,
            final(self).instruction_pointer == old(self).instruction_pointer,
            final(self).rex == old(self).rex,
    {
        self.reg[reg as usize] = value;
    }

    /// Write a general purpose register at an operand size. A 32-bit write zero extends into the
    /// full register, which is what makes `sub eax, eax` a valid way to clear rax; a 16-bit one
    /// leaves everything above bit 15 as it was.
    pub fn write_reg_sized(&mut self, reg: i32, value: i64, osize: i32)
        requires
            valid_reg(reg),
        ensures
            final(self).reg@ == old(self).reg@.update(
                reg as int,
                sized_write(old(self).reg[reg as int], value, osize),
            ),
            final(self).flags == old(self).flags,
            final(self).instruction_pointer == old(self).instruction_pointer,
            final(self).rex == old(self).rex,
    {
        let r = reg as usize;
        match osize {
            16 => self.reg[r] = self.reg[r] & !0xFFFF | value & 0xFFFF,
            32 => self.reg[r] = value as u32 as i64,
            _ => self.reg[r] = value,
        }
    }

    /// Set the arithmetic flags from the result of an add or subtract.
    pub fn set_flags64(&mut self, op1: i64, op2: i64, result: i64, is_sub: bool)
        ensures
            final(self).flags == arith_flags(old(self).flags, op1, op2, result, is_sub),
            final(self).reg == old(self).reg,
            final(self).instruction_pointer == old(self).instruction_pointer,
            final(self).rex == old(self).rex,
    {
        let cf = if is_sub {
            (op1 as u64) < (op2 as u64)
        } else {
            (result as u64) < (op1 as u64)
        };
        let af = 0 != (op1 ^ op2 ^ result) & 0x10;
        let zf = result == 0;
        let sf = result < 0;
        let of = if is_sub {
            (op1 ^ op2) & (op1 ^ result) < 0
        } else {
            (op1 ^ result) & (op2 ^ result) < 0
        };
        // parity is computed over the low byte only
        let pf = parity_even(result);

        self.flags = self.flags & !FLAGS_ALL | if cf {
            FLAG_CARRY
        } else {
            0
        } | if pf {
            FLAG_PARITY
        } else {
            0
        } | if af {
            FLAG_ADJUST
        } else {
            0
        } | if zf {
            FLAG_ZERO
        } else {
            0
        } | if sf {
            FLAG_SIGN
        } else {
            0
        } | if of {
            FLAG_OVERFLOW
        } else {
            0
        };
    }

    /// Set the flags of a logical operation, which always clear carry and overflow.
    pub fn set_flags64_logical(&mut self, result: i64)
        ensures
            final(self).flags == logical_flags(old(self).flags, result),
            final(self).reg == old(self).reg,
            final(self).instruction_pointer == old(self).instruction_pointer,
            final(self).rex == old(self).rex,
    {
        let pf = parity_even(result);
        self.flags = self.flags & !FLAGS_ALL | if pf {
            FLAG_PARITY
        } else {
            0
        } | if result == 0 {
            FLAG_ZERO
        } else {
            0
        } | if result < 0 {
            FLAG_SIGN
        } else {
            0
        };
        proof {
            let f = self.flags;
            let o = old(self).flags;
            let p = flag_bit(pf, FLAG_PARITY);
            let z = flag_bit(result == 0, FLAG_ZERO);
            let s = flag_bit(result < 0, FLAG_SIGN);
            assert(f == o & !FLAGS_ALL | p | z | s);
            assert(o & !0x8D5i32 | p | z | s == o & !0x8D5i32 | 0 | p | 0 | z | s | 0)
                by (bit_vector);
        }
    }

    /// The condition encoded in the low nibble of a jcc, setcc or cmovcc opcode.
    pub fn test_condition(&self, condition: i32) -> (r: bool)
        ensures
            r == condition_holds(self.flags, condition),
    {
        let cf = 0 != self.flags & FLAG_CARRY;
        let zf = 0 != self.flags & FLAG_ZERO;
        let sf = 0 != self.flags & FLAG_SIGN;
        let of = 0 != self.flags & FLAG_OVERFLOW;
        let pf = 0 != self.flags & FLAG_PARITY;
        let result = match condition >> 1 {
            0 => of,
            1 => cf,
            2 => zf,
            3 => cf || zf,
            4 => sf,
            5 => pf,
            6 => sf != of,
            _ => zf || sf != of,
        };
        // odd encodings are the negation
        result != (0 != condition & 1)
    }
}

} // verus!
