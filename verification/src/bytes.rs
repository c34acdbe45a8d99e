//! The byte register forms: the instructions whose operand is a byte register. Without a rex
//! prefix, byte registers 4 to 7 are ah, ch, dh and bh; under any rex prefix they are spl, bpl,
//! sil and dil (see `byte_reg`). Byte operands take part in arithmetic sign extended, and a write
//! replaces the one byte and keeps the rest of its register.
//!
//! As in `run`, `code` holds the bytes after the opcode, and an instruction whose operand is in
//! memory is left to the caller, which runs it through `memory_operand` and `run_memory`.

use vstd::prelude::*;
use crate::alu::{group1_flags, group1_result};
use crate::cpu::{Cpu, REX_B, arith_flags, byte_reg, condition_holds, logical_flags, sized_write, with_byte_reg};
use crate::flags::{FLAGS_DEFAULT, FLAG_CARRY, FLAG_ZERO, has_flag, with_carry};
use crate::modrm::{imm8s_at, lemma_modrm_fields, rex_bit, rex_extension};
use crate::muldiv::mul_div_effect;
use crate::run::{Step, outcome, read_imm8s, reg_field, rm_field, unimplemented_past};
use crate::shift::shift_op_spec;

verus! {

/// A byte sign extended, as the byte operations take their operands.
pub open spec fn sext8(v: i64) -> i64 {
    v as i8 as i64
}

/// The one byte opcodes whose operand is a byte register or al.
pub open spec fn is_byte_opcode(op: i32) -> bool {
    ||| 0 <= op < 0x40 && (op & 7 == 0 || op & 7 == 2 || op & 7 == 4)
    ||| op == 0x80 || op == 0x84 || op == 0x86 || op == 0x88 || op == 0x8A || op == 0x9E || op == 0x9F
    ||| op == 0xA8 || 0xB0 <= op <= 0xB7 || op == 0xC0 || op == 0xC6 || op == 0xD0 || op == 0xD2
    ||| op == 0xF6 || op == 0xFE
}

/// The two byte opcodes whose operand is a byte register: setcc, cmpxchg and xadd of a byte, and
/// movzx and movsx from a byte.
pub open spec fn is_byte_0f_opcode(op: i32) -> bool {
    (0x90 <= op <= 0x9F) || op == 0xB0 || op == 0xB6 || op == 0xBE || op == 0xC0
}

/// The arithmetic group on byte registers: `op r/m8, r8` and `op r8, r/m8`, the operation in bits
/// 5:3 of the opcode and the direction in bit 1, and `op r/m8, imm8` (0x80), the operation in the
/// reg field.
pub open spec fn byte_alu_effect(c: Cpu, opcode: i32, code: Seq<u8>) -> (Seq<i64>, i32, i64, Step) {
    if code.len() < 1 {
        outcome(c, Step::FetchFault)
    } else if (code[0] as i32) < 0xC0 {
        outcome(c, Step::Outside)
    } else if opcode == 0x80 && code.len() < 2 {
        outcome(c, Step::FetchFault)
    } else {
        let modrm = code[0] as i32;
        let reg = reg_field(c.rex, modrm);
        let rm = rm_field(c.rex, modrm);
        let m = sext8(byte_reg(c.reg@, c.rex, rm));
        let r = sext8(byte_reg(c.reg@, c.rex, reg));
        let op: i32 = if opcode == 0x80 { modrm >> 3 & 7 } else { opcode >> 3 & 7 };
        let to_reg = opcode != 0x80 && opcode & 2 != 0;
        let dst = if to_reg { r } else { m };
        let src = if opcode == 0x80 { imm8s_at(code, 1) } else if to_reg { m } else { r };
        let target = if to_reg { reg } else { rm };
        let len: int = if opcode == 0x80 { 2 } else { 1 };
        let regs = match group1_result(op, dst, src, 8, has_flag(c.flags, FLAG_CARRY)) {
            Some(v) => with_byte_reg(c.reg@, c.rex, target, v),
            None => c.reg@,
        };
        (regs, group1_flags(op, dst, src, 8, c.flags), c.instruction_pointer.wrapping_add(len as i64), Step::Done)
    }
}

/// `op al, imm8`, the byte accumulator forms of the arithmetic group, and `test al, imm8` (0xa8).
pub open spec fn byte_acc_effect(c: Cpu, opcode: i32, code: Seq<u8>) -> (Seq<i64>, i32, i64, Step) {
    if code.len() < 1 {
        outcome(c, Step::FetchFault)
    } else {
        let dst = sext8(byte_reg(c.reg@, c.rex, 0));
        let past = c.instruction_pointer.wrapping_add(1);
        if opcode == 0xA8 {
            (c.reg@, logical_flags(c.flags, sext8(dst & (code[0] as i64))), past, Step::Done)
        } else {
            let op = opcode >> 3 & 7;
            let imm = imm8s_at(code, 0);
            let regs = match group1_result(op, dst, imm, 8, has_flag(c.flags, FLAG_CARRY)) {
                Some(v) => with_byte_reg(c.reg@, c.rex, 0, v),
                None => c.reg@,
            };
            (regs, group1_flags(op, dst, imm, 8, c.flags), past, Step::Done)
        }
    }
}

/// The byte moves: mov r8, imm8 (0xb0 to 0xb7, the register in the opcode), mov r/m8, r8 (0x88),
/// mov r8, r/m8 (0x8a), xchg r/m8, r8 (0x86), which writes the r/m register first, and mov r/m8,
/// imm8 (0xc6 /0, the other reg fields not implemented). None of them touches the flags.
pub open spec fn byte_move_effect(c: Cpu, opcode: i32, code: Seq<u8>) -> (Seq<i64>, i32, i64, Step) {
    if code.len() < 1 {
        outcome(c, Step::FetchFault)
    } else if 0xB0 <= opcode <= 0xB7 {
        let idx = ((opcode & 7) | rex_extension(c.rex, REX_B)) as int;
        (with_byte_reg(c.reg@, c.rex, idx, code[0] as i64), c.flags, c.instruction_pointer.wrapping_add(1), Step::Done)
    } else if opcode == 0xC6 && (code[0] as i32) >> 3 & 7 != 0 {
        unimplemented_past(c, 1)
    } else if (code[0] as i32) < 0xC0 {
        outcome(c, Step::Outside)
    } else if opcode == 0xC6 && code.len() < 2 {
        outcome(c, Step::FetchFault)
    } else {
        let modrm = code[0] as i32;
        let reg = reg_field(c.rex, modrm);
        let rm = rm_field(c.rex, modrm);
        let r = byte_reg(c.reg@, c.rex, reg);
        let m = byte_reg(c.reg@, c.rex, rm);
        if opcode == 0x88 {
            (with_byte_reg(c.reg@, c.rex, rm, r), c.flags, c.instruction_pointer.wrapping_add(1), Step::Done)
        } else if opcode == 0x8A {
            (with_byte_reg(c.reg@, c.rex, reg, m), c.flags, c.instruction_pointer.wrapping_add(1), Step::Done)
        } else if opcode == 0x86 {
            (with_byte_reg(with_byte_reg(c.reg@, c.rex, rm, r), c.rex, reg, m), c.flags,
                c.instruction_pointer.wrapping_add(1), Step::Done)
        } else {
            (with_byte_reg(c.reg@, c.rex, rm, code[1] as i64), c.flags, c.instruction_pointer.wrapping_add(2), Step::Done)
        }
    }
}

/// sahf (0x9e), which loads sign, zero, adjust, parity and carry from ah and keeps the flags above
/// the low byte, and lahf (0x9f), which stores the low byte of the flags in ah. Both name ah
/// whatever the rex prefix.
pub open spec fn byte_flags_effect(c: Cpu, opcode: i32) -> (Seq<i64>, i32, i64, Step) {
    if opcode == 0x9E {
        let ah = byte_reg(c.reg@, 0, 4);
        (c.reg@, (c.flags & !0xFF) | ((ah & 0xD5) as i32) | FLAGS_DEFAULT, c.instruction_pointer, Step::Done)
    } else {
        (with_byte_reg(c.reg@, 0, 4, (c.flags & 0xFF) as i64), c.flags, c.instruction_pointer, Step::Done)
    }
}

/// The byte shifts with a register operand: by an immediate (0xc0), by one (0xd0) and by cl
/// (0xd2). As at the other widths the rotates are refused.
pub open spec fn byte_shift_effect(c: Cpu, opcode: i32, code: Seq<u8>) -> (Seq<i64>, i32, i64, Step) {
    let len: int = if opcode == 0xC0 { 2 } else { 1 };
    if code.len() < 1 {
        outcome(c, Step::FetchFault)
    } else if (code[0] as i32) < 0xC0 {
        outcome(c, Step::Outside)
    } else if code.len() < len {
        outcome(c, Step::FetchFault)
    } else {
        let modrm = code[0] as i32;
        let rm = rm_field(c.rex, modrm);
        let count: i32 = if opcode == 0xD0 {
            1
        } else if opcode == 0xD2 {
            (c.reg@[1] as u8) as i32
        } else {
            code[1] as i32
        };
        let (res, flags) = shift_op_spec(modrm >> 3 & 7, byte_reg(c.reg@, c.rex, rm), count, 8, c.flags);
        match res {
            Some(v) => (with_byte_reg(c.reg@, c.rex, rm, v), flags, c.instruction_pointer.wrapping_add(len as i64), Step::Done),
            None => unimplemented_past(c, len),
        }
    }
}

/// test r/m8, r8 (0x84), group 3 of a byte register (0xf6: test with an imm8, not, neg, and mul,
/// imul, div and idiv on ax), and inc and dec of a byte register (0xfe /0 and /1, which leave
/// carry alone; the other reg fields are not implemented).
pub open spec fn byte_group_effect(c: Cpu, opcode: i32, code: Seq<u8>) -> (Seq<i64>, i32, i64, Step) {
    if code.len() < 1 {
        outcome(c, Step::FetchFault)
    } else if opcode == 0xFE && (code[0] as i32) >> 3 & 7 > 1 {
        unimplemented_past(c, 1)
    } else if (code[0] as i32) < 0xC0 {
        outcome(c, Step::Outside)
    } else {
        let modrm = code[0] as i32;
        let op = modrm >> 3 & 7;
        let rm = rm_field(c.rex, modrm);
        let m = byte_reg(c.reg@, c.rex, rm);
        let dst = sext8(m);
        let past = c.instruction_pointer.wrapping_add(1);
        if opcode == 0x84 {
            let r = byte_reg(c.reg@, c.rex, reg_field(c.rex, modrm));
            (c.reg@, logical_flags(c.flags, sext8(m & r)), past, Step::Done)
        } else if opcode == 0xFE {
            let alu: i32 = if op == 0 { 0 } else { 5 };
            let cf = has_flag(c.flags, FLAG_CARRY);
            (with_byte_reg(c.reg@, c.rex, rm, group1_result(alu, dst, 1, 8, cf)->0), with_carry(
                group1_flags(alu, dst, 1, 8, c.flags),
                cf,
            ), past, Step::Done)
        } else if op <= 1 {
            if code.len() < 2 {
                outcome(c, Step::FetchFault)
            } else {
                (c.reg@, logical_flags(c.flags, sext8(dst & imm8s_at(code, 1))), c.instruction_pointer.wrapping_add(2),
                    Step::Done)
            }
        } else if op == 2 {
            (with_byte_reg(c.reg@, c.rex, rm, sext8(!dst)), c.flags, past, Step::Done)
        } else if op == 3 {
            let r = sext8(0i64.wrapping_sub(dst));
            (with_byte_reg(c.reg@, c.rex, rm, r), arith_flags(c.flags, 0, dst, r, true), past, Step::Done)
        } else {
            match mul_div_effect(c.reg@, c.flags, op, dst, 8) {
                None => outcome(c, Step::DivideError),
                Some((regs, flags)) => (regs, flags, past, Step::Done),
            }
        }
    }
}

/// One instruction of the one byte map whose operand is a byte register or al.
pub open spec fn byte_effect(c: Cpu, opcode: i32, code: Seq<u8>) -> (Seq<i64>, i32, i64, Step) {
    if 0 <= opcode < 0x40 && opcode & 7 == 4 || opcode == 0xA8 {
        byte_acc_effect(c, opcode, code)
    } else if 0 <= opcode < 0x40 || opcode == 0x80 {
        byte_alu_effect(c, opcode, code)
    } else if opcode == 0x9E || opcode == 0x9F {
        byte_flags_effect(c, opcode)
    } else if opcode == 0xC0 || opcode == 0xD0 || opcode == 0xD2 {
        byte_shift_effect(c, opcode, code)
    } else if opcode == 0x84 || opcode == 0xF6 || opcode == 0xFE {
        byte_group_effect(c, opcode, code)
    } else {
        byte_move_effect(c, opcode, code)
    }
}

/// The two byte instructions on a byte register, `c` past the second opcode byte: setcc (0x90 to
/// 0x9f), which writes 1 when the condition holds and 0 otherwise; cmpxchg r/m8, r8 (0xb0), which
/// compares al against the destination as cmp does and then either puts the register there or
/// loads al with it; xadd r/m8, r8 (0xc0), which gives the register the destination's old value
/// and then the destination the sum; and movzx and movsx from a byte (0xb6, 0xbe).
pub open spec fn byte_0f_effect(c: Cpu, opcode: i32, code: Seq<u8>, osize: i32) -> (Seq<i64>, i32, i64, Step) {
    if code.len() < 1 {
        outcome(c, Step::FetchFault)
    } else if (code[0] as i32) < 0xC0 {
        outcome(c, Step::Outside)
    } else {
        let modrm = code[0] as i32;
        let reg = reg_field(c.rex, modrm);
        let rm = rm_field(c.rex, modrm);
        let r = byte_reg(c.reg@, c.rex, reg);
        let m = byte_reg(c.reg@, c.rex, rm);
        let past = c.instruction_pointer.wrapping_add(1);
        if 0x90 <= opcode <= 0x9F {
            let v: i64 = if condition_holds(c.flags, opcode & 0xF) { 1 } else { 0 };
            (with_byte_reg(c.reg@, c.rex, rm, v), c.flags, past, Step::Done)
        } else if opcode == 0xB6 || opcode == 0xBE {
            let v = if opcode == 0xBE { sext8(m) } else { m };
            (c.reg@.update(reg, sized_write(c.reg@[reg], v, osize)), c.flags, past, Step::Done)
        } else if opcode == 0xB0 {
            let flags = group1_flags(7, sext8(byte_reg(c.reg@, c.rex, 0)), sext8(m), 8, c.flags);
            let regs = if has_flag(flags, FLAG_ZERO) {
                with_byte_reg(c.reg@, c.rex, rm, r)
            } else {
                with_byte_reg(c.reg@, c.rex, 0, m)
            };
            (regs, flags, past, Step::Done)
        } else {
            let sum = group1_result(0, sext8(m), sext8(r), 8, has_flag(c.flags, FLAG_CARRY))->0;
            (with_byte_reg(with_byte_reg(c.reg@, c.rex, reg, m), c.rex, rm, sum), group1_flags(
                0,
                sext8(m),
                sext8(r),
                8,
                c.flags,
            ), past, Step::Done)
        }
    }
}

impl Cpu {
    fn byte_alu(&mut self, opcode: i32, code: &[u8]) -> (r: Step)
        ensures
            outcome(*final(self), r) == byte_alu_effect(*old(self), opcode, code@),
            final(self).rex == old(self).rex,
    {
        if code.len() < 1 {
            return Step::FetchFault;
        }
        let modrm = code[0] as i32;
        if modrm < 0xC0 {
            return Step::Outside;
        }
        if opcode == 0x80 && code.len() < 2 {
            return Step::FetchFault;
        }
        let reg = self.modrm_reg(modrm);
        let rm = self.modrm_rm(modrm);
        let m = self.read_reg8(rm) as i8 as i64;
        let r = self.read_reg8(reg) as i8 as i64;
        let op: i32 = if opcode == 0x80 {
            modrm >> 3 & 7
        } else {
            opcode >> 3 & 7
        };
        let to_reg = opcode != 0x80 && opcode & 2 != 0;
        let dst = if to_reg {
            r
        } else {
            m
        };
        let src = if opcode == 0x80 {
            read_imm8s(code, 1)
        } else if to_reg {
            m
        } else {
            r
        };
        let target = if to_reg {
            reg
        } else {
            rm
        };
        let len: i64 = if opcode == 0x80 {
            2
        } else {
            1
        };
        match self.group1_op(op, dst, src, 8) {
            Some(v) => self.write_reg8(target, v),
            None => {},
        }
        self.instruction_pointer = self.instruction_pointer.wrapping_add(len);
        Step::Done
    }

    fn byte_acc(&mut self, opcode: i32, code: &[u8]) -> (r: Step)
        ensures
            outcome(*final(self), r) == byte_acc_effect(*old(self), opcode, code@),
            final(self).rex == old(self).rex,
    {
        if code.len() < 1 {
            return Step::FetchFault;
        }
        let dst = self.read_reg8(0) as i8 as i64;
        if opcode == 0xA8 {
            self.set_flags64_logical((dst & (code[0] as i64)) as i8 as i64);
        } else {
            match self.group1_op(opcode >> 3 & 7, dst, read_imm8s(code, 0), 8) {
                Some(v) => self.write_reg8(0, v),
                None => {},
            }
        }
        self.instruction_pointer = self.instruction_pointer.wrapping_add(1);
        Step::Done
    }

    fn byte_move(&mut self, opcode: i32, code: &[u8]) -> (r: Step)
        requires
            0xB0 <= opcode <= 0xB7 || opcode == 0x86 || opcode == 0x88 || opcode == 0x8A || opcode == 0xC6,
        ensures
            outcome(*final(self), r) == byte_move_effect(*old(self), opcode, code@),
            final(self).rex == old(self).rex,
    {
        if code.len() < 1 {
            return Step::FetchFault;
        }
        if 0xB0 <= opcode && opcode <= 0xB7 {
            let e = rex_bit(self.rex, REX_B);
            let idx = (opcode & 7) | e;
            proof {
                lemma_modrm_fields(opcode, e, e);
            }
            self.write_reg8(idx, code[0] as i64);
            self.instruction_pointer = self.instruction_pointer.wrapping_add(1);
            return Step::Done;
        }
        let modrm = code[0] as i32;
        if opcode == 0xC6 && modrm >> 3 & 7 != 0 {
            self.instruction_pointer = self.instruction_pointer.wrapping_add(1);
            return Step::Unimplemented;
        }
        if modrm < 0xC0 {
            return Step::Outside;
        }
        if opcode == 0xC6 && code.len() < 2 {
            return Step::FetchFault;
        }
        let reg = self.modrm_reg(modrm);
        let rm = self.modrm_rm(modrm);
        let r = self.read_reg8(reg);
        let m = self.read_reg8(rm);
        if opcode == 0x88 {
            self.write_reg8(rm, r);
        } else if opcode == 0x8A {
            self.write_reg8(reg, m);
        } else if opcode == 0x86 {
            self.write_reg8(rm, r);
            self.write_reg8(reg, m);
        } else {
            self.write_reg8(rm, code[1] as i64);
            self.instruction_pointer = self.instruction_pointer.wrapping_add(2);
            return Step::Done;
        }
        self.instruction_pointer = self.instruction_pointer.wrapping_add(1);
        Step::Done
    }

    fn byte_flags(&mut self, opcode: i32) -> (r: Step)
        requires
            opcode == 0x9E || opcode == 0x9F,
        ensures
            outcome(*final(self), r) == byte_flags_effect(*old(self), opcode),
            final(self).rex == old(self).rex,
    {
        if opcode == 0x9E {
            let r0 = self.reg[0];
            let ah = (r0 >> 8) & 0xFF;
            assert(0 <= ah < 256) by (bit_vector)
                requires
                    ah == (r0 >> 8) & 0xFF,
            ;
            self.flags = (self.flags & !0xFF) | ((ah & 0xD5) as i32) | FLAGS_DEFAULT;
        } else {
            let f = self.flags;
            let low = (f & 0xFF) as i64;
            assert(0 <= low < 256 && low & 0xFF == low) by (bit_vector)
                requires
                    low == (f & 0xFF) as i64,
            ;
            self.reg[0] = self.reg[0] & !0xFF00 | low * 256;
        }
        Step::Done
    }

    fn byte_shift(&mut self, opcode: i32, code: &[u8]) -> (r: Step)
        requires
            opcode == 0xC0 || opcode == 0xD0 || opcode == 0xD2,
        ensures
            outcome(*final(self), r) == byte_shift_effect(*old(self), opcode, code@),
            final(self).rex == old(self).rex,
    {
        let len: usize = if opcode == 0xC0 {
            2
        } else {
            1
        };
        if code.len() < 1 {
            return Step::FetchFault;
        }
        let modrm = code[0] as i32;
        if modrm < 0xC0 {
            return Step::Outside;
        }
        if code.len() < len {
            return Step::FetchFault;
        }
        let rm = self.modrm_rm(modrm);
        let value = self.read_reg8(rm);
        let count: i32 = if opcode == 0xD0 {
            1
        } else if opcode == 0xD2 {
            (self.reg[1] as u8) as i32
        } else {
            code[1] as i32
        };
        let ghost before = *self;
        match self.shift_op(modrm >> 3 & 7, value, count, 8) {
            Some(result) => {
                self.write_reg8(rm, result);
                self.instruction_pointer = self.instruction_pointer.wrapping_add(len as i64);
                Step::Done
            },
            None => {
                proof {
                    assert(self.flags == before.flags);
                }
                self.instruction_pointer = self.instruction_pointer.wrapping_add(len as i64);
                Step::Unimplemented
            },
        }
    }

    fn byte_group(&mut self, opcode: i32, code: &[u8]) -> (r: Step)
        requires
            opcode == 0x84 || opcode == 0xF6 || opcode == 0xFE,
        ensures
            outcome(*final(self), r) == byte_group_effect(*old(self), opcode, code@),
            final(self).rex == old(self).rex,
    {
        if code.len() < 1 {
            return Step::FetchFault;
        }
        let modrm = code[0] as i32;
        let op = modrm >> 3 & 7;
        proof {
            lemma_modrm_fields(modrm, 0, 0);
        }
        if opcode == 0xFE && op > 1 {
            self.instruction_pointer = self.instruction_pointer.wrapping_add(1);
            return Step::Unimplemented;
        }
        if modrm < 0xC0 {
            return Step::Outside;
        }
        let rm = self.modrm_rm(modrm);
        let m = self.read_reg8(rm);
        let dst = m as i8 as i64;
        if opcode == 0x84 {
            let reg = self.modrm_reg(modrm);
            let r = self.read_reg8(reg);
            self.set_flags64_logical((m & r) as i8 as i64);
        } else if opcode == 0xFE {
            // inc and dec are add and sub that leave carry alone
            let carry = 0 != self.flags & FLAG_CARRY;
            let result = self.group1_op(if op == 0 {
                0
            } else {
                5
            }, dst, 1, 8);
            self.flags = self.flags & !FLAG_CARRY | if carry {
                FLAG_CARRY
            } else {
                0
            };
            match result {
                Some(v) => self.write_reg8(rm, v),
                None => {},
            }
        } else if op <= 1 {
            if code.len() < 2 {
                return Step::FetchFault;
            }
            let imm = read_imm8s(code, 1);
            self.set_flags64_logical((dst & imm) as i8 as i64);
            self.instruction_pointer = self.instruction_pointer.wrapping_add(2);
            return Step::Done;
        } else if op == 2 {
            self.write_reg8(rm, (!dst) as i8 as i64);
        } else if op == 3 {
            let r = 0i64.wrapping_sub(dst) as i8 as i64;
            self.set_flags64(0, dst, r, true);
            self.write_reg8(rm, r);
        } else {
            match self.mul_div_op(op, dst, 8) {
                Ok(()) => {},
                Err(_) => {
                    return Step::DivideError;
                },
            }
        }
        self.instruction_pointer = self.instruction_pointer.wrapping_add(1);
        Step::Done
    }

    /// Runs an instruction of the one byte map whose operand is a byte register or al, the
    /// instruction pointer past its opcode.
    pub fn run_byte(&mut self, opcode: i32, code: &[u8]) -> (r: Step)
        requires
            is_byte_opcode(opcode),
        ensures
            outcome(*final(self), r) == byte_effect(*old(self), opcode, code@),
            final(self).rex == old(self).rex,
    {
        if (0 <= opcode && opcode < 0x40 && opcode & 7 == 4) || opcode == 0xA8 {
            self.byte_acc(opcode, code)
        } else if (0 <= opcode && opcode < 0x40) || opcode == 0x80 {
            self.byte_alu(opcode, code)
        } else if opcode == 0x9E || opcode == 0x9F {
            self.byte_flags(opcode)
        } else if opcode == 0xC0 || opcode == 0xD0 || opcode == 0xD2 {
            self.byte_shift(opcode, code)
        } else if opcode == 0x84 || opcode == 0xF6 || opcode == 0xFE {
            self.byte_group(opcode, code)
        } else {
            self.byte_move(opcode, code)
        }
    }

    /// Runs an instruction of the two byte map whose operand is a byte register, the instruction
    /// pointer past its second opcode byte.
    pub fn run_byte_0f(&mut self, opcode: i32, code: &[u8], osize: i32) -> (r: Step)
        requires
            is_byte_0f_opcode(opcode),
        ensures
            outcome(*final(self), r) == byte_0f_effect(*old(self), opcode, code@, osize),
            final(self).rex == old(self).rex,
    {
        if code.len() < 1 {
            return Step::FetchFault;
        }
        let modrm = code[0] as i32;
        if modrm < 0xC0 {
            return Step::Outside;
        }
        let reg = self.modrm_reg(modrm);
        let rm = self.modrm_rm(modrm);
        let r = self.read_reg8(reg);
        let m = self.read_reg8(rm);
        if 0x90 <= opcode && opcode <= 0x9F {
            let v: i64 = if self.test_condition(opcode & 0xF) {
                1
            } else {
                0
            };
            self.write_reg8(rm, v);
        } else if opcode == 0xB6 || opcode == 0xBE {
            let v = if opcode == 0xBE {
                m as i8 as i64
            } else {
                m
            };
            self.write_reg_sized(reg, v, osize);
        } else if opcode == 0xB0 {
            let acc = self.read_reg8(0) as i8 as i64;
            self.group1_op(7, acc, m as i8 as i64, 8);
            if 0 != self.flags & FLAG_ZERO {
                self.write_reg8(rm, r);
            } else {
                self.write_reg8(0, m);
            }
        } else {
            let sum = match self.group1_op(0, m as i8 as i64, r as i8 as i64, 8) {
                Some(v) => v,
                None => {
                    // add always produces a value
                    return Step::Unimplemented;
                },
            };
            self.write_reg8(reg, m);
            self.write_reg8(rm, sum);
        }
        self.instruction_pointer = self.instruction_pointer.wrapping_add(1);
        Step::Done
    }
}

} // verus!
