//! Running one instruction in 64-bit mode, for the instructions whose operands are registers and
//! immediates.
//!
//! `code` holds the instruction's bytes after the opcode (the rex byte and the other prefixes
//! have been consumed), the first of them at `instruction_pointer`. An instruction that runs leaves
//! `instruction_pointer` past its last byte, or at its target if it jumps. An instruction that
//! reaches memory, the stack, a port, a segment or a model specific register is left to the caller
//! untouched, as is one whose bytes run past the end of `code`. The caller then runs it in steps
//! around its own accesses: the memory forms through `memory_operand` and `run_memory`, the stack
//! through `stack_operand` and `run_stack`, the string instructions through `string_next` and
//! `string_element`, the ports through `port_access` and `port_done`, and syscall, sysret, swapgs
//! and iret through the functions of `system`. The byte register forms are in `bytes`.

use vstd::prelude::*;
use crate::alu::{group1_flags, group1_result};
use crate::cpu::{Cpu, EAX, EDX, REX_B, REX_R, REX_W, arith_flags, condition_holds, logical_flags, sized_write};
use crate::bytes::{byte_0f_effect, byte_effect, is_byte_0f_opcode, is_byte_opcode};
use crate::bits::{bit_mask, bit_scan_spec, bit_test_result, double_shift_spec, swap32, swap64, swap_bytes32, swap_bytes64};
use crate::flags::{FLAGS_ALL, FLAG_CARRY, FLAG_DIRECTION, FLAG_ZERO, has_flag, popcount, with_arith_flags, with_carry, with_carry_overflow};
use crate::modrm::{imm32s_at, imm8s_at, lemma_modrm_fields, modrm_address, read_imm32s, resolve_address, rex_bit, rex_extension};
use crate::muldiv::mul_div_effect;
use crate::shift::{shift_count, shift_op_spec, unsigned_at};
use crate::width::{sized, sized_spec};

verus! {

/// How running an instruction ended.
#[derive(Clone, Copy, Debug, PartialEq, Eq, Structural)]
pub enum Step {
    /// The instruction ran.
    Done,
    /// The opcode is not implemented in 64-bit mode; the caller reports it by name.
    Unimplemented,
    /// The instruction is one the caller carries out around its own accesses: it reaches memory,
    /// the stack, a port, a segment, a model specific register, the vector registers or other state
    /// beyond the general purpose registers and flags. Nothing was changed.
    Outside,
    /// The instruction's bytes run past the end of the code given; nothing was changed.
    FetchFault,
    /// A divide raised #de; nothing was changed.
    DivideError,
    /// The instruction raised #ud; nothing was changed.
    InvalidOpcode,
}

/// The operand size: 64 under rex.w, 16 under a 0x66 prefix, 32 otherwise. rex.w wins over 0x66.
pub open spec fn operand_size(rex: u8, opsize_prefix: bool) -> i32 {
    if rex & REX_W != 0 {
        64
    } else if opsize_prefix {
        16
    } else {
        32
    }
}

/// The operand size: 64 under rex.w, 16 under a 0x66 prefix, 32 otherwise. Getting this wrong is
/// not merely a wrong value: an immediate's length depends on it, so a wrong width desynchronises
/// the decoder.
pub fn operand_size_of(rex: u8, opsize_prefix: bool) -> (r: i32)
    ensures
        r == operand_size(rex, opsize_prefix),
{
    if 0 != rex & REX_W {
        64
    } else if opsize_prefix {
        16
    } else {
        32
    }
}

/// The register the reg field of a modrm byte names, extended by rex.r.
pub open spec fn reg_field(rex: u8, modrm: i32) -> int {
    ((modrm >> 3 & 7) | rex_extension(rex, REX_R)) as int
}

/// The register the rm field of a modrm byte names, extended by rex.b.
pub open spec fn rm_field(rex: u8, modrm: i32) -> int {
    ((modrm & 7) | rex_extension(rex, REX_B)) as int
}

/// The length of an immediate at the operand size: two bytes at 16, otherwise four.
pub open spec fn imm_len(osize: i32) -> int {
    if osize == 16 {
        2
    } else {
        4
    }
}

/// The sign extended little endian 16-bit value at `at`.
pub open spec fn imm16s_at(code: Seq<u8>, at: int) -> i64 {
    ((code[at] as u16) | ((code[at + 1] as u16) << 8u16)) as i16 as i64
}

/// The immediate of an instruction whose operand size can vary: two bytes at 16, otherwise four,
/// which rex.w sign extends rather than widening.
pub open spec fn imm_osize_at(code: Seq<u8>, at: int, osize: i32) -> i64 {
    if osize == 16 {
        imm16s_at(code, at)
    } else {
        imm32s_at(code, at)
    }
}

/// What an instruction leaves: the registers, the flags, the instruction pointer, and how it
/// ended. Of the state before an instruction, with the step it ended with, it says that the
/// instruction changed nothing.
pub open spec fn outcome(c: Cpu, step: Step) -> (Seq<i64>, i32, i64, Step) {
    (c.reg@, c.flags, c.instruction_pointer, step)
}

/// An instruction refused as not implemented once `len` of its bytes after the opcode were read:
/// no register or flag changes, and the instruction pointer is past those bytes, where reading
/// them left it.
pub open spec fn unimplemented_past(c: Cpu, len: int) -> (Seq<i64>, i32, i64, Step) {
    (c.reg@, c.flags, c.instruction_pointer.wrapping_add(len as i64), Step::Unimplemented)
}

/// The `op r/m, r` and `op r, r/m` forms of add, or, adc, sbb, and, sub, xor and cmp with a
/// register operand. The operation is bits 5:3 of the opcode and bit 1 picks the direction.
pub open spec fn group1_pair_effect(c: Cpu, opcode: i32, code: Seq<u8>, osize: i32) -> (Seq<i64>, i32, i64, Step) {
    if code.len() < 1 {
        outcome(c, Step::FetchFault)
    } else if (code[0] as i32) < 0xC0 {
        outcome(c, Step::Outside)
    } else {
        let modrm = code[0] as i32;
        let reg = reg_field(c.rex, modrm);
        let rm = rm_field(c.rex, modrm);
        let r = sized_spec(c.reg@[reg], osize);
        let m = sized_spec(c.reg@[rm], osize);
        let to_reg = opcode & 2 != 0;
        let dst = if to_reg { r } else { m };
        let src = if to_reg { m } else { r };
        let target = if to_reg { reg } else { rm };
        let op = opcode >> 3 & 7;
        let regs = match group1_result(op, dst, src, osize, has_flag(c.flags, FLAG_CARRY)) {
            Some(v) => c.reg@.update(target, sized_write(c.reg@[target], v, osize)),
            None => c.reg@,
        };
        (regs, group1_flags(op, dst, src, osize, c.flags), c.instruction_pointer.wrapping_add(1), Step::Done)
    }
}

/// `op eAX, imm`, the accumulator short forms of the arithmetic group.
pub open spec fn group1_acc_effect(c: Cpu, opcode: i32, code: Seq<u8>, osize: i32) -> (Seq<i64>, i32, i64, Step) {
    if code.len() < imm_len(osize) {
        outcome(c, Step::FetchFault)
    } else {
        let dst = sized_spec(c.reg@[0], osize);
        let src = sized_spec(imm_osize_at(code, 0, osize), osize);
        let op = opcode >> 3 & 7;
        let regs = match group1_result(op, dst, src, osize, has_flag(c.flags, FLAG_CARRY)) {
            Some(v) => c.reg@.update(0, sized_write(c.reg@[0], v, osize)),
            None => c.reg@,
        };
        (regs, group1_flags(op, dst, src, osize, c.flags), c.instruction_pointer.wrapping_add(
            imm_len(osize) as i64,
        ), Step::Done)
    }
}

/// The arithmetic group with an immediate, op r/m, imm (0x81) or a sign extended imm8 (0x83), with
/// a register operand. The operation is the reg field of the modrm.
pub open spec fn group1_imm_effect(c: Cpu, opcode: i32, code: Seq<u8>, osize: i32) -> (Seq<i64>, i32, i64, Step) {
    let len: int = if opcode == 0x83 { 1 } else { imm_len(osize) };
    if code.len() < 1 {
        outcome(c, Step::FetchFault)
    } else if (code[0] as i32) < 0xC0 {
        outcome(c, Step::Outside)
    } else if code.len() < 1 + len {
        outcome(c, Step::FetchFault)
    } else {
        let modrm = code[0] as i32;
        let rm = rm_field(c.rex, modrm);
        let dst = sized_spec(c.reg@[rm], osize);
        let imm = if opcode == 0x83 { imm8s_at(code, 1) } else { imm_osize_at(code, 1, osize) };
        let src = sized_spec(imm, osize);
        let op = modrm >> 3 & 7;
        let regs = match group1_result(op, dst, src, osize, has_flag(c.flags, FLAG_CARRY)) {
            Some(v) => c.reg@.update(rm, sized_write(c.reg@[rm], v, osize)),
            None => c.reg@,
        };
        (regs, group1_flags(op, dst, src, osize, c.flags), c.instruction_pointer.wrapping_add(
            (1 + len) as i64,
        ), Step::Done)
    }
}


/// A register read at the operand size, zero extended, as the r/m operand reads.
pub open spec fn zero_ext(v: i64, osize: i32) -> i64 {
    if osize == 16 {
        v as u16 as i64
    } else if osize == 32 {
        v as u32 as i64
    } else {
        v
    }
}

/// An instruction that only writes one register at the operand size and moves past `len` bytes.
pub open spec fn write_effect(c: Cpu, reg: int, value: i64, osize: i32, len: int) -> (Seq<i64>, i32, i64, Step) {
    (c.reg@.update(reg, sized_write(c.reg@[reg], value, osize)), c.flags, c.instruction_pointer.wrapping_add(len as i64), Step::Done)
}

/// test r/m, r with a register operand, and test eAX, imm: an and whose result is dropped.
pub open spec fn test_effect(c: Cpu, opcode: i32, code: Seq<u8>, osize: i32) -> (Seq<i64>, i32, i64, Step) {
    if opcode == 0x85 {
        if code.len() < 1 {
            outcome(c, Step::FetchFault)
        } else if (code[0] as i32) < 0xC0 {
            outcome(c, Step::Outside)
        } else {
            let modrm = code[0] as i32;
            let src = sized_spec(c.reg@[reg_field(c.rex, modrm)], osize);
            let dst = sized_spec(c.reg@[rm_field(c.rex, modrm)], osize);
            (c.reg@, logical_flags(c.flags, sized_spec(dst & src, osize)), c.instruction_pointer.wrapping_add(1), Step::Done)
        }
    } else {
        if code.len() < imm_len(osize) {
            outcome(c, Step::FetchFault)
        } else {
            let dst = sized_spec(c.reg@[0], osize);
            let imm = imm_osize_at(code, 0, osize);
            (c.reg@, logical_flags(c.flags, sized_spec(dst & imm, osize)), c.instruction_pointer.wrapping_add(
                imm_len(osize) as i64,
            ), Step::Done)
        }
    }
}

/// mov r/m, r and mov r, r/m with register operands, and movsxd r64, r/m32.
pub open spec fn mov_effect(c: Cpu, opcode: i32, code: Seq<u8>, osize: i32) -> (Seq<i64>, i32, i64, Step) {
    if opcode == 0x63 && osize != 64 {
        outcome(c, Step::Unimplemented)
    } else if code.len() < 1 {
        outcome(c, Step::FetchFault)
    } else if (code[0] as i32) < 0xC0 {
        outcome(c, Step::Outside)
    } else {
        let modrm = code[0] as i32;
        let reg = reg_field(c.rex, modrm);
        let rm = rm_field(c.rex, modrm);
        if opcode == 0x89 {
            write_effect(c, rm, c.reg@[reg], osize, 1)
        } else if opcode == 0x8B {
            write_effect(c, reg, zero_ext(c.reg@[rm], osize), osize, 1)
        } else {
            write_effect(c, reg, c.reg@[rm] as i32 as i64, 64, 1)
        }
    }
}

/// cbw, cwde and cdqe widen the accumulator in place, keeping its sign; cwd, cdq and cqo fill
/// dx with the accumulator's sign bit.
pub open spec fn widen_effect(c: Cpu, opcode: i32, osize: i32) -> (Seq<i64>, i32, i64, Step) {
    let rax = c.reg@[0];
    if opcode == 0x98 {
        let extended = if osize == 16 {
            rax as i8 as i64
        } else if osize == 32 {
            rax as i16 as i64
        } else {
            rax as i32 as i64
        };
        write_effect(c, 0, extended, osize, 0)
    } else {
        let negative = if osize == 16 {
            (rax as i16) < 0
        } else if osize == 32 {
            (rax as i32) < 0
        } else {
            rax < 0
        };
        write_effect(c, 2, if negative { -1i64 } else { 0i64 }, osize, 0)
    }
}

/// xchg eAX, r. 0x90 naming rax twice is nop and leaves the register unnarrowed.
pub open spec fn xchg_effect(c: Cpu, opcode: i32, osize: i32) -> (Seq<i64>, i32, i64, Step) {
    let reg = ((opcode & 7) | rex_extension(c.rex, REX_B)) as int;
    if reg == 0 {
        outcome(c, Step::Done)
    } else {
        let tmp = sized_spec(c.reg@[0], osize);
        let regs = c.reg@.update(0, sized_write(c.reg@[0], sized_spec(c.reg@[reg], osize), osize));
        (regs.update(reg, sized_write(regs[reg], tmp, osize)), c.flags, c.instruction_pointer, Step::Done)
    }
}

/// xchg r/m, r with a register operand (0x87): the r/m register takes the register, then the
/// register takes what the r/m register held, each at the operand size.
pub open spec fn xchg_rm_effect(c: Cpu, code: Seq<u8>, osize: i32) -> (Seq<i64>, i32, i64, Step) {
    if code.len() < 1 {
        outcome(c, Step::FetchFault)
    } else if (code[0] as i32) < 0xC0 {
        outcome(c, Step::Outside)
    } else {
        let modrm = code[0] as i32;
        let reg = reg_field(c.rex, modrm);
        let rm = rm_field(c.rex, modrm);
        let regs = c.reg@.update(rm, sized_write(c.reg@[rm], sized_spec(c.reg@[reg], osize), osize));
        (regs.update(reg, sized_write(regs[reg], c.reg@[rm], osize)), c.flags, c.instruction_pointer.wrapping_add(1),
            Step::Done)
    }
}

/// mov r, imm. The immediate is 64 bits wide only under rex.w.
pub open spec fn mov_imm_effect(c: Cpu, opcode: i32, code: Seq<u8>, osize: i32) -> (Seq<i64>, i32, i64, Step) {
    let reg = ((opcode & 7) | rex_extension(c.rex, REX_B)) as int;
    if osize == 64 {
        if code.len() < 8 {
            outcome(c, Step::FetchFault)
        } else {
            let low = imm32s_at(code, 0) as u32 as i64;
            let high = imm32s_at(code, 4) as u32 as i64;
            write_effect(c, reg, (high << 32u64) | low, 64, 8)
        }
    } else if code.len() < imm_len(osize) {
        outcome(c, Step::FetchFault)
    } else {
        write_effect(c, reg, imm_osize_at(code, 0, osize), osize, imm_len(osize))
    }
}

/// mov r/m, imm with a register destination (0xc7 /0).
pub open spec fn mov_rm_imm_effect(c: Cpu, code: Seq<u8>, osize: i32) -> (Seq<i64>, i32, i64, Step) {
    if code.len() < 1 {
        outcome(c, Step::FetchFault)
    } else if (code[0] as i32) >> 3 & 7 != 0 {
        unimplemented_past(c, 1)
    } else if (code[0] as i32) < 0xC0 {
        outcome(c, Step::Outside)
    } else if code.len() < 1 + imm_len(osize) {
        outcome(c, Step::FetchFault)
    } else {
        let rm = rm_field(c.rex, code[0] as i32);
        write_effect(c, rm, sized_spec(imm_osize_at(code, 1, osize), osize), osize, 1 + imm_len(osize))
    }
}

/// lea r, m: the effective address, without a segment base, into a register. No memory is
/// touched. A register source is undefined.
pub open spec fn lea_effect(c: Cpu, code: Seq<u8>, osize: i32) -> (Seq<i64>, i32, i64, Step) {
    if code.len() < 1 {
        outcome(c, Step::FetchFault)
    } else if (code[0] as i32) >= 0xC0 {
        unimplemented_past(c, 1)
    } else {
        let modrm = code[0] as i32;
        match modrm_address(
            c.rex,
            c.reg@,
            c.instruction_pointer.wrapping_add(1),
            modrm,
            code.subrange(1, code.len() as int),
            0,
        ) {
            None => outcome(c, Step::FetchFault),
            Some((addr, used)) => write_effect(c, reg_field(c.rex, modrm), addr, osize, 1 + used),
        }
    }
}

/// jmp rel8, jmp rel32 and jcc rel8. The offset counts from the end of the instruction.
pub open spec fn jump_effect(c: Cpu, opcode: i32, code: Seq<u8>) -> (Seq<i64>, i32, i64, Step) {
    let len: int = if opcode == 0xE9 { 4 } else { 1 };
    if code.len() < len {
        outcome(c, Step::FetchFault)
    } else {
        let next = c.instruction_pointer.wrapping_add(len as i64);
        let offset = if opcode == 0xE9 { imm32s_at(code, 0) } else { imm8s_at(code, 0) };
        let taken = opcode == 0xEB || opcode == 0xE9 || condition_holds(c.flags, opcode & 0xF);
        (c.reg@, c.flags, if taken { next.wrapping_add(offset) } else { next }, Step::Done)
    }
}

/// The shift group with a register operand: by an immediate (0xc1), by one (0xd1), by cl (0xd3).
pub open spec fn shift_effect(c: Cpu, opcode: i32, code: Seq<u8>, osize: i32) -> (Seq<i64>, i32, i64, Step) {
    let len: int = if opcode == 0xC1 { 2 } else { 1 };
    if code.len() < 1 {
        outcome(c, Step::FetchFault)
    } else if (code[0] as i32) < 0xC0 {
        outcome(c, Step::Outside)
    } else if code.len() < len {
        outcome(c, Step::FetchFault)
    } else {
        let modrm = code[0] as i32;
        let rm = rm_field(c.rex, modrm);
        let count: i32 = if opcode == 0xD1 {
            1
        } else if opcode == 0xD3 {
            (c.reg@[1] as u8) as i32
        } else {
            code[1] as i32
        };
        let (res, flags) = shift_op_spec(modrm >> 3 & 7, zero_ext(c.reg@[rm], osize), count, osize, c.flags);
        match res {
            Some(v) => (c.reg@.update(rm, sized_write(c.reg@[rm], v, osize)), flags, c.instruction_pointer.wrapping_add(
                len as i64,
            ), Step::Done),
            None => unimplemented_past(c, len),
        }
    }
}

/// Group 3 with a register operand: test, not, neg, mul, imul, div and idiv.
pub open spec fn group3_effect(c: Cpu, code: Seq<u8>, osize: i32) -> (Seq<i64>, i32, i64, Step) {
    if code.len() < 1 {
        outcome(c, Step::FetchFault)
    } else if (code[0] as i32) < 0xC0 {
        outcome(c, Step::Outside)
    } else {
        let modrm = code[0] as i32;
        let op = modrm >> 3 & 7;
        let rm = rm_field(c.rex, modrm);
        let dst = sized_spec(c.reg@[rm], osize);
        if op <= 1 {
            if code.len() < 1 + imm_len(osize) {
                outcome(c, Step::FetchFault)
            } else {
                let imm = imm_osize_at(code, 1, osize);
                (c.reg@, logical_flags(c.flags, sized_spec(dst & imm, osize)), c.instruction_pointer.wrapping_add(
                    (1 + imm_len(osize)) as i64,
                ), Step::Done)
            }
        } else if op == 2 {
            write_effect(c, rm, sized_spec(!dst, osize), osize, 1)
        } else if op == 3 {
            let r = sized_spec(0i64.wrapping_sub(dst), osize);
            (c.reg@.update(rm, sized_write(c.reg@[rm], r, osize)), arith_flags(c.flags, 0, dst, r, true),
                c.instruction_pointer.wrapping_add(1), Step::Done)
        } else {
            match mul_div_effect(c.reg@, c.flags, op, dst, osize) {
                None => outcome(c, Step::DivideError),
                Some((regs, flags)) => (regs, flags, c.instruction_pointer.wrapping_add(1), Step::Done),
            }
        }
    }
}

/// imul r, r/m, imm with a register source: 0x69 takes the immediate at the operand size, 0x6b a
/// sign extended byte.
pub open spec fn imul_imm_effect(c: Cpu, opcode: i32, code: Seq<u8>, osize: i32) -> (Seq<i64>, i32, i64, Step) {
    let len: int = if opcode == 0x6B { 1 } else { imm_len(osize) };
    if code.len() < 1 {
        outcome(c, Step::FetchFault)
    } else if (code[0] as i32) < 0xC0 {
        outcome(c, Step::Outside)
    } else if code.len() < 1 + len {
        outcome(c, Step::FetchFault)
    } else {
        let modrm = code[0] as i32;
        let src = sized_spec(c.reg@[rm_field(c.rex, modrm)], osize);
        let imm = if opcode == 0x6B { imm8s_at(code, 1) } else { imm_osize_at(code, 1, osize) };
        let r = sized_spec((src * imm) as i64, osize);
        let reg = reg_field(c.rex, modrm);
        (c.reg@.update(reg, sized_write(c.reg@[reg], r, osize)), with_carry_overflow(c.flags, src * imm != r, src * imm != r),
            c.instruction_pointer.wrapping_add((1 + len) as i64), Step::Done)
    }
}

/// clc, stc, cmc, cld and std.
pub open spec fn flag_op_effect(c: Cpu, opcode: i32) -> (Seq<i64>, i32, i64, Step) {
    let flags = if opcode == 0xF8 {
        c.flags & !FLAG_CARRY
    } else if opcode == 0xF9 {
        c.flags | FLAG_CARRY
    } else if opcode == 0xF5 {
        c.flags ^ FLAG_CARRY
    } else if opcode == 0xFC {
        c.flags & !FLAG_DIRECTION
    } else {
        c.flags | FLAG_DIRECTION
    };
    (c.reg@, flags, c.instruction_pointer, Step::Done)
}

/// cmovcc r, r/m with a register source. The destination is written either way: a cmov whose
/// condition is false still zero extends a 32-bit destination.
pub open spec fn cmov_effect(c: Cpu, opcode: i32, code: Seq<u8>, osize: i32) -> (Seq<i64>, i32, i64, Step) {
    if code.len() < 1 {
        outcome(c, Step::FetchFault)
    } else if (code[0] as i32) < 0xC0 {
        outcome(c, Step::Outside)
    } else {
        let modrm = code[0] as i32;
        let reg = reg_field(c.rex, modrm);
        let src = zero_ext(c.reg@[rm_field(c.rex, modrm)], osize);
        let value = if condition_holds(c.flags, opcode & 0xF) { src } else { c.reg@[reg] };
        write_effect(c, reg, value, osize, 1)
    }
}

/// jcc rel32, whose offset counts from the end of the instruction.
pub open spec fn jcc32_effect(c: Cpu, opcode: i32, code: Seq<u8>) -> (Seq<i64>, i32, i64, Step) {
    if code.len() < 4 {
        outcome(c, Step::FetchFault)
    } else {
        let next = c.instruction_pointer.wrapping_add(4);
        (c.reg@, c.flags, if condition_holds(c.flags, opcode & 0xF) {
            next.wrapping_add(imm32s_at(code, 0))
        } else {
            next
        }, Step::Done)
    }
}

/// imul r, r/m with a register source: the product truncated to the operand size, carry and
/// overflow saying it did not fit.
pub open spec fn imul_rr_effect(c: Cpu, code: Seq<u8>, osize: i32) -> (Seq<i64>, i32, i64, Step) {
    if code.len() < 1 {
        outcome(c, Step::FetchFault)
    } else if (code[0] as i32) < 0xC0 {
        outcome(c, Step::Outside)
    } else {
        let modrm = code[0] as i32;
        let reg = reg_field(c.rex, modrm);
        let src = sized_spec(c.reg@[rm_field(c.rex, modrm)], osize);
        let dst = sized_spec(c.reg@[reg], osize);
        let r = sized_spec((dst * src) as i64, osize);
        (c.reg@.update(reg, sized_write(c.reg@[reg], r, osize)), with_carry_overflow(c.flags, dst * src != r, dst * src != r),
            c.instruction_pointer.wrapping_add(1), Step::Done)
    }
}

/// bswap r.
pub open spec fn bswap_effect(c: Cpu, opcode: i32, osize: i32) -> (Seq<i64>, i32, i64, Step) {
    let reg = ((opcode & 7) | rex_extension(c.rex, REX_B)) as int;
    let value = c.reg@[reg];
    let swapped = if osize == 64 { swap64(value as u64) as i64 } else { swap32(value as u32) as i64 };
    write_effect(c, reg, swapped, osize, 0)
}

/// The multi byte nop and the prefetch hints: the operand is consumed but never accessed.
pub open spec fn nop_effect(c: Cpu, code: Seq<u8>) -> (Seq<i64>, i32, i64, Step) {
    if code.len() < 1 {
        outcome(c, Step::FetchFault)
    } else if (code[0] as i32) >= 0xC0 {
        (c.reg@, c.flags, c.instruction_pointer.wrapping_add(1), Step::Done)
    } else {
        match modrm_address(
            c.rex,
            c.reg@,
            c.instruction_pointer.wrapping_add(1),
            code[0] as i32,
            code.subrange(1, code.len() as int),
            0,
        ) {
            None => outcome(c, Step::FetchFault),
            Some((_, used)) => (c.reg@, c.flags, c.instruction_pointer.wrapping_add((1 + used) as i64), Step::Done),
        }
    }
}

/// bsf and bsr with a register source. A zero source leaves the destination as it was.
pub open spec fn bit_scan_effect(c: Cpu, opcode: i32, code: Seq<u8>, osize: i32) -> (Seq<i64>, i32, i64, Step) {
    if code.len() < 1 {
        outcome(c, Step::FetchFault)
    } else if (code[0] as i32) < 0xC0 {
        outcome(c, Step::Outside)
    } else {
        let modrm = code[0] as i32;
        let reg = reg_field(c.rex, modrm);
        let (index, flags) = bit_scan_spec(opcode == 0xBC, zero_ext(c.reg@[rm_field(c.rex, modrm)], osize), osize, c.flags);
        let regs = match index {
            Some(i) => c.reg@.update(reg, sized_write(c.reg@[reg], i, osize)),
            None => c.reg@,
        };
        (regs, flags, c.instruction_pointer.wrapping_add(1), Step::Done)
    }
}

/// popcnt with a register source, which needs its f3 prefix.
pub open spec fn popcnt_effect(c: Cpu, code: Seq<u8>, osize: i32, rep_prefix: bool) -> (Seq<i64>, i32, i64, Step) {
    if !rep_prefix {
        outcome(c, Step::Unimplemented)
    } else if code.len() < 1 {
        outcome(c, Step::FetchFault)
    } else if (code[0] as i32) < 0xC0 {
        outcome(c, Step::Outside)
    } else {
        let modrm = code[0] as i32;
        let reg = reg_field(c.rex, modrm);
        let u = unsigned_at(zero_ext(c.reg@[rm_field(c.rex, modrm)], osize), osize as u32);
        (c.reg@.update(reg, sized_write(c.reg@[reg], popcount(u as nat) as i64, osize)), with_arith_flags(
            c.flags,
            false,
            false,
            false,
            u == 0,
            false,
            false,
        ), c.instruction_pointer.wrapping_add(1), Step::Done)
    }
}

/// The bit tests with a register operand: 0xba takes the bit index as an immediate and the
/// operation from the reg field; 0xa3, 0xab, 0xb3 and 0xbb take the index from a register, and
/// their memory form, whose index can reach outside the operand, is not implemented.
pub open spec fn bit_test_effect(c: Cpu, opcode: i32, code: Seq<u8>, osize: i32) -> (Seq<i64>, i32, i64, Step) {
    if code.len() < 1 {
        outcome(c, Step::FetchFault)
    } else {
        let modrm = code[0] as i32;
        let op: i32 = if opcode == 0xBA {
            modrm >> 3 & 7
        } else if opcode == 0xA3 {
            4
        } else if opcode == 0xAB {
            5
        } else if opcode == 0xB3 {
            6
        } else {
            7
        };
        if opcode == 0xBA && !(4 <= op <= 7) {
            unimplemented_past(c, 1)
        } else if modrm < 0xC0 {
            if opcode == 0xBA {
                outcome(c, Step::Outside)
            } else {
                unimplemented_past(c, 1)
            }
        } else if opcode == 0xBA && code.len() < 2 {
            outcome(c, Step::FetchFault)
        } else {
            let rm = rm_field(c.rex, modrm);
            let bit: i32 = if opcode == 0xBA { code[1] as i32 } else { c.reg@[reg_field(c.rex, modrm)] as i32 };
            let value = zero_ext(c.reg@[rm], osize);
            let regs = match bit_test_result(op, value, bit, osize) {
                Some(v) => c.reg@.update(rm, sized_write(c.reg@[rm], v, osize)),
                None => c.reg@,
            };
            let len: int = if opcode == 0xBA { 2 } else { 1 };
            (regs, with_carry(c.flags, value & bit_mask(bit, osize) != 0), c.instruction_pointer.wrapping_add(
                len as i64,
            ), Step::Done)
        }
    }
}

/// shld and shrd with a register destination: 0xa4 and 0xac take the count as an immediate,
/// 0xa5 and 0xad from cl. A 16-bit operand with a count above 16 has no defined result and is not
/// implemented.
pub open spec fn double_shift_effect(c: Cpu, opcode: i32, code: Seq<u8>, osize: i32) -> (Seq<i64>, i32, i64, Step) {
    let imm = opcode & 1 == 0;
    let len: int = if imm { 2 } else { 1 };
    if code.len() < 1 {
        outcome(c, Step::FetchFault)
    } else if (code[0] as i32) < 0xC0 {
        outcome(c, Step::Outside)
    } else if code.len() < len {
        outcome(c, Step::FetchFault)
    } else {
        let modrm = code[0] as i32;
        let raw: i32 = if imm { code[1] as i32 } else { (c.reg@[1] as u8) as i32 };
        if osize == 16 && shift_count(raw, osize) > 16 {
            unimplemented_past(c, len)
        } else {
            let rm = rm_field(c.rex, modrm);
            let fill = c.reg@[reg_field(c.rex, modrm)];
            let (r, flags) = double_shift_spec(opcode < 0xAC, zero_ext(c.reg@[rm], osize), fill, raw, osize, c.flags);
            (c.reg@.update(rm, sized_write(c.reg@[rm], r, osize)), flags, c.instruction_pointer.wrapping_add(
                len as i64,
            ), Step::Done)
        }
    }
}

/// movzx and movsx from a 16-bit register.
pub open spec fn movx_effect(c: Cpu, opcode: i32, code: Seq<u8>, osize: i32) -> (Seq<i64>, i32, i64, Step) {
    if code.len() < 1 {
        outcome(c, Step::FetchFault)
    } else if (code[0] as i32) < 0xC0 {
        outcome(c, Step::Outside)
    } else {
        let modrm = code[0] as i32;
        let value = (c.reg@[rm_field(c.rex, modrm)] as i32) & 0xFFFF;
        let extended: i64 = if opcode == 0xBF { value as i16 as i64 } else { value as i64 };
        write_effect(c, reg_field(c.rex, modrm), extended, osize, 1)
    }
}

/// xadd r/m, r and cmpxchg r/m, r with register operands. xadd leaves the sum in the destination
/// and the destination's old value in the register, writing the destination last. cmpxchg
/// compares the accumulator against the destination as cmp does and, when they are equal, puts the
/// register there, and otherwise loads the destination into the accumulator.
pub open spec fn exchange_effect(c: Cpu, opcode: i32, code: Seq<u8>, osize: i32) -> (Seq<i64>, i32, i64, Step) {
    if code.len() < 1 {
        outcome(c, Step::FetchFault)
    } else if (code[0] as i32) < 0xC0 {
        outcome(c, Step::Outside)
    } else {
        let modrm = code[0] as i32;
        let reg = reg_field(c.rex, modrm);
        let rm = rm_field(c.rex, modrm);
        let dst_raw = zero_ext(c.reg@[rm], osize);
        let dst = sized_spec(dst_raw, osize);
        let cf = has_flag(c.flags, FLAG_CARRY);
        if opcode == 0xC1 {
            let src = sized_spec(c.reg@[reg], osize);
            let sum = group1_result(0, dst, src, osize, cf)->0;
            let regs = c.reg@.update(reg, sized_write(c.reg@[reg], dst_raw, osize));
            (regs.update(rm, sized_write(regs[rm], sum, osize)), group1_flags(0, dst, src, osize, c.flags),
                c.instruction_pointer.wrapping_add(1), Step::Done)
        } else {
            let acc = sized_spec(c.reg@[0], osize);
            let flags = group1_flags(7, acc, dst, osize, c.flags);
            let regs = if has_flag(flags, FLAG_ZERO) {
                c.reg@.update(rm, sized_write(c.reg@[rm], sized_spec(c.reg@[reg], osize), osize))
            } else {
                c.reg@.update(0, sized_write(c.reg@[0], dst_raw, osize))
            };
            (regs, flags, c.instruction_pointer.wrapping_add(1), Step::Done)
        }
    }
}

/// The one byte opcodes that the caller carries out: the byte register forms, the stack, the
/// ports, the string operations, the transfers through the stack and the system instructions.
pub open spec fn is_outside_opcode(op: i32) -> bool {
    ||| op == 0x8C || op == 0x8E || op == 0x68 || op == 0x6A
    ||| 0x50 <= op <= 0x5F || op == 0x9C || op == 0x9D || 0xA0 <= op <= 0xA7 || 0xAA <= op <= 0xAF
    ||| op == 0xCC || op == 0xCD || op == 0xCF || 0xE4 <= op <= 0xE8 || 0xEC <= op <= 0xEF
    ||| op == 0xC2 || op == 0xC3 || op == 0xCB || op == 0xF1 || op == 0xF4 || op == 0xFA || op == 0xFB
}

/// The two byte opcodes that the caller carries out: the system instructions, setcc and the byte
/// forms, fs and gs, and the vector instructions.
pub open spec fn is_outside_0f_opcode(op: i32) -> bool {
    ||| op == 0x00 || op == 0x01 || op == 0x05 || op == 0x06 || op == 0x07 || op == 0x09
    ||| op == 0x0B || op == 0x10 || op == 0x11 || op == 0x15 || op == 0x16 || op == 0x17
    ||| 0x20 <= op <= 0x23 || op == 0x28 || op == 0x29 || 0x2B <= op <= 0x2D || 0x30 <= op <= 0x32
    ||| op == 0x51 || 0x54 <= op <= 0x6F || 0x73 <= op <= 0x77 || 0x7C <= op <= 0x7F
    ||| 0xA0 <= op <= 0xA2 || op == 0xA8 || op == 0xA9 || op == 0xAE
    ||| op == 0xC3 || 0xD1 <= op <= 0xD5
    ||| 0xD8 <= op <= 0xE6 || 0xE8 <= op <= 0xEF || 0xF1 <= op <= 0xF6 || 0xF8 <= op <= 0xFE
}

/// 0x0f 0xae with a register operand: the fences, /5, /6 and /7, which have nothing to order
/// here; the other register forms are not implemented. The memory forms, fxsave, fxrstor,
/// ldmxcsr, stmxcsr and clflush, go to the caller.
pub open spec fn fence_effect(c: Cpu, code: Seq<u8>) -> (Seq<i64>, i32, i64, Step) {
    if code.len() < 1 {
        outcome(c, Step::FetchFault)
    } else if (code[0] as i32) < 0xC0 {
        outcome(c, Step::Outside)
    } else if 5 <= (code[0] as i32) >> 3 & 7 {
        (c.reg@, c.flags, c.instruction_pointer.wrapping_add(1), Step::Done)
    } else {
        unimplemented_past(c, 1)
    }
}

/// movnti (0x0f 0xc3): a store that asks not to be cached, which is an ordinary store here. With a
/// register destination it raises #ud; the memory form goes to the caller.
pub open spec fn movnti_effect(c: Cpu, code: Seq<u8>) -> (Seq<i64>, i32, i64, Step) {
    if code.len() < 1 {
        outcome(c, Step::FetchFault)
    } else if (code[0] as i32) >= 0xC0 {
        outcome(c, Step::InvalidOpcode)
    } else {
        outcome(c, Step::Outside)
    }
}

/// Whether the bytes after 0x0f 0xc7 are the modrm of rdrand with a register operand, /6.
pub open spec fn is_rdrand_modrm(code: Seq<u8>) -> bool {
    code.len() >= 1 && (code[0] as i32) >= 0xC0 && (code[0] as i32) >> 3 & 7 == 6
}

/// Group 9: cmpxchg8b and cmpxchg16b, /1 with a memory operand, and rdrand, /6 with a register,
/// which the caller carries out, the one through memory and the other with a source of
/// randomness. The rest of the group is not implemented.
pub open spec fn group9_effect(c: Cpu, code: Seq<u8>) -> (Seq<i64>, i32, i64, Step) {
    if code.len() < 1 {
        outcome(c, Step::FetchFault)
    } else if ((code[0] as i32) >> 3 & 7 == 1 && (code[0] as i32) < 0xC0) || is_rdrand_modrm(code) {
        outcome(c, Step::Outside)
    } else {
        unimplemented_past(c, 1)
    }
}

/// One instruction of the two byte map, `c` already past its second opcode byte.
pub open spec fn run_0f_effect(c: Cpu, opcode: i32, code: Seq<u8>, osize: i32, rep_prefix: bool) -> (Seq<i64>, i32, i64, Step) {
    if 0x80 <= opcode <= 0x8F {
        jcc32_effect(c, opcode, code)
    } else if 0x40 <= opcode <= 0x4F {
        cmov_effect(c, opcode, code, osize)
    } else if opcode == 0xB1 || opcode == 0xC1 {
        exchange_effect(c, opcode, code, osize)
    } else if opcode == 0xB7 || opcode == 0xBF {
        movx_effect(c, opcode, code, osize)
    } else if opcode == 0xBA || opcode == 0xA3 || opcode == 0xAB || opcode == 0xB3 || opcode == 0xBB {
        bit_test_effect(c, opcode, code, osize)
    } else if opcode == 0xB8 {
        popcnt_effect(c, code, osize, rep_prefix)
    } else if opcode == 0xA4 || opcode == 0xA5 || opcode == 0xAC || opcode == 0xAD {
        double_shift_effect(c, opcode, code, osize)
    } else if opcode == 0xAF {
        imul_rr_effect(c, code, osize)
    } else if 0x18 <= opcode <= 0x1F {
        nop_effect(c, code)
    } else if 0xC8 <= opcode <= 0xCF {
        bswap_effect(c, opcode, osize)
    } else if opcode == 0xBC || opcode == 0xBD {
        bit_scan_effect(c, opcode, code, osize)
    } else if opcode == 0xC7 {
        group9_effect(c, code)
    } else if opcode == 0xAE {
        fence_effect(c, code)
    } else if opcode == 0xC3 {
        movnti_effect(c, code)
    } else if is_byte_0f_opcode(opcode) {
        byte_0f_effect(c, opcode, code, osize)
    } else if is_outside_0f_opcode(opcode) {
        outcome(c, Step::Outside)
    } else {
        outcome(c, Step::Unimplemented)
    }
}

/// 0x0f and the instruction of the two byte map it introduces. One that is not implemented leaves
/// the instruction pointer past the bytes it read; one that ends otherwise without running leaves it
/// on the second opcode byte, as if that had not been read, for the caller to decode again.
pub open spec fn two_byte_effect(c: Cpu, code: Seq<u8>, osize: i32, rep_prefix: bool) -> (Seq<i64>, i32, i64, Step) {
    if code.len() < 1 {
        outcome(c, Step::FetchFault)
    } else {
        let e = run_0f_effect(
            Cpu { instruction_pointer: c.instruction_pointer.wrapping_add(1), ..c },
            code[0] as i32,
            code.subrange(1, code.len() as int),
            osize,
            rep_prefix,
        );
        if e.3 == Step::Done || e.3 == Step::Unimplemented {
            e
        } else {
            outcome(c, e.3)
        }
    }
}

/// One instruction of the one byte map, `c` already past its opcode byte.
pub open spec fn run_effect(c: Cpu, opcode: i32, code: Seq<u8>, opsize_prefix: bool, rep_prefix: bool) -> (Seq<i64>, i32, i64, Step) {
    let osize = operand_size(c.rex, opsize_prefix);
    if 0 <= opcode < 0x40 && (opcode & 7 == 1 || opcode & 7 == 3) {
        group1_pair_effect(c, opcode, code, osize)
    } else if 0 <= opcode < 0x40 && opcode & 7 == 5 {
        group1_acc_effect(c, opcode, code, osize)
    } else if opcode == 0x81 || opcode == 0x83 {
        group1_imm_effect(c, opcode, code, osize)
    } else if opcode == 0x85 || opcode == 0xA9 {
        test_effect(c, opcode, code, osize)
    } else if opcode == 0x89 || opcode == 0x8B || opcode == 0x63 {
        mov_effect(c, opcode, code, osize)
    } else if opcode == 0x98 || opcode == 0x99 {
        widen_effect(c, opcode, osize)
    } else if 0x90 <= opcode <= 0x97 {
        xchg_effect(c, opcode, osize)
    } else if opcode == 0x87 {
        xchg_rm_effect(c, code, osize)
    } else if 0xB8 <= opcode <= 0xBF {
        mov_imm_effect(c, opcode, code, osize)
    } else if opcode == 0xC7 {
        mov_rm_imm_effect(c, code, osize)
    } else if opcode == 0x8D {
        lea_effect(c, code, osize)
    } else if opcode == 0xEB || opcode == 0xE9 || 0x70 <= opcode <= 0x7F {
        jump_effect(c, opcode, code)
    } else if opcode == 0xC1 || opcode == 0xD1 || opcode == 0xD3 {
        shift_effect(c, opcode, code, osize)
    } else if opcode == 0xF7 {
        group3_effect(c, code, osize)
    } else if opcode == 0x69 || opcode == 0x6B {
        imul_imm_effect(c, opcode, code, osize)
    } else if opcode == 0xF8 || opcode == 0xF9 || opcode == 0xF5 || opcode == 0xFC || opcode == 0xFD {
        flag_op_effect(c, opcode)
    } else if opcode == 0x0F {
        two_byte_effect(c, code, osize, rep_prefix)
    } else if is_byte_opcode(opcode) {
        byte_effect(c, opcode, code)
    } else if opcode == 0xCE {
        outcome(c, Step::InvalidOpcode)
    } else if is_outside_opcode(opcode) {
        outcome(c, Step::Outside)
    } else {
        outcome(c, Step::Unimplemented)
    }
}

/// The 0xff group, given its modrm byte: inc and dec, which leave carry alone, and jmp with a
/// register operand. The near call and push go through the stack, and every memory form through
/// memory, so the caller carries those out.
pub open spec fn run_ff_effect(c: Cpu, modrm: i32, opsize_prefix: bool) -> (Seq<i64>, i32, i64, Step) {
    let op = modrm >> 3 & 7;
    let osize = operand_size(c.rex, opsize_prefix);
    let rm = rm_field(c.rex, modrm);
    if op == 0 || op == 1 {
        if modrm < 0xC0 {
            outcome(c, Step::Outside)
        } else {
            let dst = sized_spec(c.reg@[rm], osize);
            let alu: i32 = if op == 0 { 0 } else { 5 };
            let cf = has_flag(c.flags, FLAG_CARRY);
            let regs = match group1_result(alu, dst, 1, osize, cf) {
                Some(v) => c.reg@.update(rm, sized_write(c.reg@[rm], v, osize)),
                None => c.reg@,
            };
            (regs, with_carry(group1_flags(alu, dst, 1, osize, c.flags), cf), c.instruction_pointer, Step::Done)
        }
    } else if op == 4 {
        if modrm < 0xC0 {
            outcome(c, Step::Outside)
        } else {
            (c.reg@, c.flags, c.reg@[rm], Step::Done)
        }
    } else if op == 2 || op == 6 {
        outcome(c, Step::Outside)
    } else {
        outcome(c, Step::Unimplemented)
    }
}

pub fn read_imm8s(code: &[u8], at: usize) -> (r: i64)
    requires
        at < code@.len(),
    ensures
        r == imm8s_at(code@, at as int),
{
    code[at] as i8 as i64
}

pub fn read_imm_osize(code: &[u8], at: usize, osize: i32) -> (r: i64)
    requires
        at + imm_len(osize) <= code@.len(),
    ensures
        r == imm_osize_at(code@, at as int, osize),
{
    if osize == 16 {
        ((code[at] as u16) | ((code[at + 1] as u16) << 8u16)) as i16 as i64
    } else {
        read_imm32s(code, at)
    }
}

fn outside_opcode(op: i32) -> (r: bool)
    ensures
        r == is_outside_opcode(op),
{
    op == 0x8C || op == 0x8E || op == 0x68 || op == 0x6A || (0x50 <= op && op <= 0x5F)
        || op == 0x9C || op == 0x9D || (0xA0 <= op && op <= 0xA7) || (0xAA <= op && op <= 0xAF) || op == 0xCC
        || op == 0xCD || op == 0xCF || (0xE4 <= op && op <= 0xE8) || (0xEC <= op && op <= 0xEF) || op == 0xC2
        || op == 0xC3 || op == 0xCB || op == 0xF1 || op == 0xF4 || op == 0xFA || op == 0xFB
}

fn outside_0f_opcode(op: i32) -> (r: bool)
    ensures
        r == is_outside_0f_opcode(op),
{
    op == 0x00 || op == 0x01 || op == 0x05 || op == 0x06 || op == 0x07 || op == 0x09 || op == 0x0B
        || op == 0x10 || op == 0x11 || op == 0x15 || op == 0x16 || op == 0x17 || (0x20 <= op && op
        <= 0x23) || op == 0x28 || op == 0x29 || (0x2B <= op && op <= 0x2D) || (0x30 <= op && op
        <= 0x32) || op == 0x51 || (0x54 <= op && op <= 0x6F) || (0x73 <= op && op <= 0x77) || (0x7C
        <= op && op <= 0x7F) || (0xA0 <= op && op <= 0xA2) || op == 0xA8 || op == 0xA9 || op == 0xAE
        || op == 0xC3 || (0xD1
        <= op && op <= 0xD5) || (0xD8 <= op && op <= 0xE6) || (0xE8 <= op && op <= 0xEF) || (0xF1
        <= op && op <= 0xF6) || (0xF8 <= op && op <= 0xFE)
}

impl Cpu {
    fn run_group1_pair(&mut self, opcode: i32, code: &[u8], osize: i32) -> (r: Step)
        requires
            osize == 16 || osize == 32 || osize == 64,
        ensures
            outcome(*final(self), r) == group1_pair_effect(*old(self), opcode, code@, osize),
            final(self).rex == old(self).rex,
    {
        if code.len() < 1 {
            return Step::FetchFault;
        }
        let modrm = code[0] as i32;
        if modrm < 0xC0 {
            return Step::Outside;
        }
        let reg = self.modrm_reg(modrm);
        let rm = self.modrm_rm(modrm);
        let r = sized(self.reg[reg as usize], osize);
        let m = sized(self.reg[rm as usize], osize);
        let to_reg = opcode & 2 != 0;
        let (dst, src, target) = if to_reg {
            (r, m, reg)
        } else {
            (m, r, rm)
        };
        match self.group1_op(opcode >> 3 & 7, dst, src, osize) {
            Some(v) => self.write_reg_sized(target, v, osize),
            None => {},
        }
        self.instruction_pointer = self.instruction_pointer.wrapping_add(1);
        Step::Done
    }

    fn run_group1_acc(&mut self, opcode: i32, code: &[u8], osize: i32) -> (r: Step)
        requires
            osize == 16 || osize == 32 || osize == 64,
        ensures
            outcome(*final(self), r) == group1_acc_effect(*old(self), opcode, code@, osize),
            final(self).rex == old(self).rex,
    {
        let len: usize = if osize == 16 {
            2
        } else {
            4
        };
        if code.len() < len {
            return Step::FetchFault;
        }
        let imm = read_imm_osize(code, 0, osize);
        let dst = sized(self.reg[0], osize);
        match self.group1_op(opcode >> 3 & 7, dst, sized(imm, osize), osize) {
            Some(v) => self.write_reg_sized(EAX, v, osize),
            None => {},
        }
        self.instruction_pointer = self.instruction_pointer.wrapping_add(len as i64);
        Step::Done
    }

    fn run_group1_imm(&mut self, opcode: i32, code: &[u8], osize: i32) -> (r: Step)
        requires
            osize == 16 || osize == 32 || osize == 64,
        ensures
            outcome(*final(self), r) == group1_imm_effect(*old(self), opcode, code@, osize),
            final(self).rex == old(self).rex,
    {
        if code.len() < 1 {
            return Step::FetchFault;
        }
        let modrm = code[0] as i32;
        if modrm < 0xC0 {
            return Step::Outside;
        }
        // 0x83 takes a byte of immediate, 0x81 one at the operand size
        let len: usize = if opcode == 0x83 {
            1
        } else if osize == 16 {
            2
        } else {
            4
        };
        if code.len() < 1 + len {
            return Step::FetchFault;
        }
        let rm = self.modrm_rm(modrm);
        let dst = sized(self.reg[rm as usize], osize);
        let imm = if opcode == 0x83 {
            read_imm8s(code, 1)
        } else {
            read_imm_osize(code, 1, osize)
        };
        match self.group1_op(modrm >> 3 & 7, dst, sized(imm, osize), osize) {
            Some(v) => self.write_reg_sized(rm, v, osize),
            None => {},
        }
        self.instruction_pointer = self.instruction_pointer.wrapping_add((1 + len) as i64);
        Step::Done
    }

    fn run_test(&mut self, opcode: i32, code: &[u8], osize: i32) -> (r: Step)
        requires
            osize == 16 || osize == 32 || osize == 64,
        ensures
            outcome(*final(self), r) == test_effect(*old(self), opcode, code@, osize),
            final(self).rex == old(self).rex,
    {
        if opcode == 0x85 {
            if code.len() < 1 {
                return Step::FetchFault;
            }
            let modrm = code[0] as i32;
            if modrm < 0xC0 {
                return Step::Outside;
            }
            let src = sized(self.reg[self.modrm_reg(modrm) as usize], osize);
            let dst = sized(self.reg[self.modrm_rm(modrm) as usize], osize);
            self.set_flags64_logical(sized(dst & src, osize));
            self.instruction_pointer = self.instruction_pointer.wrapping_add(1);
        } else {
            let len: usize = if osize == 16 {
                2
            } else {
                4
            };
            if code.len() < len {
                return Step::FetchFault;
            }
            let imm = read_imm_osize(code, 0, osize);
            let dst = sized(self.reg[0], osize);
            self.set_flags64_logical(sized(dst & imm, osize));
            self.instruction_pointer = self.instruction_pointer.wrapping_add(len as i64);
        }
        Step::Done
    }

    fn run_mov(&mut self, opcode: i32, code: &[u8], osize: i32) -> (r: Step)
        requires
            osize == 16 || osize == 32 || osize == 64,
        ensures
            outcome(*final(self), r) == mov_effect(*old(self), opcode, code@, osize),
            final(self).rex == old(self).rex,
    {
        if opcode == 0x63 && osize != 64 {
            return Step::Unimplemented;
        }
        if code.len() < 1 {
            return Step::FetchFault;
        }
        let modrm = code[0] as i32;
        if modrm < 0xC0 {
            return Step::Outside;
        }
        let reg = self.modrm_reg(modrm);
        let rm = self.modrm_rm(modrm);
        if opcode == 0x89 {
            let value = self.reg[reg as usize];
            self.write_reg_sized(rm, value, osize);
        } else if opcode == 0x8B {
            let v = self.reg[rm as usize];
            let value = match osize {
                16 => v as u16 as i64,
                32 => v as u32 as i64,
                _ => v,
            };
            self.write_reg_sized(reg, value, osize);
        } else {
            // movsxd: the sign extension from 32 bits is done here
            let value = self.reg[rm as usize] as i32 as i64;
            self.write_reg_sized(reg, value, 64);
        }
        self.instruction_pointer = self.instruction_pointer.wrapping_add(1);
        Step::Done
    }

    fn run_widen(&mut self, opcode: i32, osize: i32) -> (r: Step)
        requires
            osize == 16 || osize == 32 || osize == 64,
        ensures
            outcome(*final(self), r) == widen_effect(*old(self), opcode, osize),
            final(self).rex == old(self).rex,
    {
        let rax = self.reg[0];
        if opcode == 0x98 {
            let extended = match osize {
                16 => rax as i8 as i64,
                32 => rax as i16 as i64,
                _ => rax as i32 as i64,
            };
            self.write_reg_sized(EAX, extended, osize);
        } else {
            let negative = match osize {
                16 => (rax as i16) < 0,
                32 => (rax as i32) < 0,
                _ => rax < 0,
            };
            self.write_reg_sized(EDX, if negative {
                -1
            } else {
                0
            }, osize);
        }
        Step::Done
    }

    fn run_xchg_rm(&mut self, code: &[u8], osize: i32) -> (r: Step)
        requires
            osize == 16 || osize == 32 || osize == 64,
        ensures
            outcome(*final(self), r) == xchg_rm_effect(*old(self), code@, osize),
            final(self).rex == old(self).rex,
    {
        if code.len() < 1 {
            return Step::FetchFault;
        }
        let modrm = code[0] as i32;
        if modrm < 0xC0 {
            return Step::Outside;
        }
        let reg = self.modrm_reg(modrm);
        let rm = self.modrm_rm(modrm);
        let held = self.reg[rm as usize];
        let src = sized(self.reg[reg as usize], osize);
        self.write_reg_sized(rm, src, osize);
        self.write_reg_sized(reg, held, osize);
        self.instruction_pointer = self.instruction_pointer.wrapping_add(1);
        Step::Done
    }

    fn run_xchg(&mut self, opcode: i32, osize: i32) -> (r: Step)
        requires
            osize == 16 || osize == 32 || osize == 64,
        ensures
            outcome(*final(self), r) == xchg_effect(*old(self), opcode, osize),
            final(self).rex == old(self).rex,
    {
        let e = rex_bit(self.rex, REX_B);
        let reg = (opcode & 7) | e;
        proof {
            lemma_modrm_fields(opcode, e, e);
        }
        if reg == 0 {
            // xchg rax, rax, the canonical nop, which does not narrow the register
            return Step::Done;
        }
        let tmp = sized(self.reg[0], osize);
        let other = sized(self.reg[reg as usize], osize);
        self.write_reg_sized(EAX, other, osize);
        self.write_reg_sized(reg, tmp, osize);
        Step::Done
    }

    fn run_mov_imm(&mut self, opcode: i32, code: &[u8], osize: i32) -> (r: Step)
        requires
            osize == 16 || osize == 32 || osize == 64,
        ensures
            outcome(*final(self), r) == mov_imm_effect(*old(self), opcode, code@, osize),
            final(self).rex == old(self).rex,
    {
        let e = rex_bit(self.rex, REX_B);
        let reg = (opcode & 7) | e;
        proof {
            lemma_modrm_fields(opcode, e, e);
        }
        if osize == 64 {
            if code.len() < 8 {
                return Step::FetchFault;
            }
            let low = read_imm32s(code, 0) as u32 as i64;
            let high = read_imm32s(code, 4) as u32 as i64;
            self.write_reg_sized(reg, high << 32u64 | low, 64);
            self.instruction_pointer = self.instruction_pointer.wrapping_add(8);
        } else {
            let len: usize = if osize == 16 {
                2
            } else {
                4
            };
            if code.len() < len {
                return Step::FetchFault;
            }
            let v = read_imm_osize(code, 0, osize);
            self.write_reg_sized(reg, v, osize);
            self.instruction_pointer = self.instruction_pointer.wrapping_add(len as i64);
        }
        Step::Done
    }

    fn run_mov_rm_imm(&mut self, code: &[u8], osize: i32) -> (r: Step)
        requires
            osize == 16 || osize == 32 || osize == 64,
        ensures
            outcome(*final(self), r) == mov_rm_imm_effect(*old(self), code@, osize),
            final(self).rex == old(self).rex,
    {
        if code.len() < 1 {
            return Step::FetchFault;
        }
        let modrm = code[0] as i32;
        if modrm >> 3 & 7 != 0 {
            self.instruction_pointer = self.instruction_pointer.wrapping_add(1);
            return Step::Unimplemented;
        }
        if modrm < 0xC0 {
            return Step::Outside;
        }
        let len: usize = if osize == 16 {
            2
        } else {
            4
        };
        if code.len() < 1 + len {
            return Step::FetchFault;
        }
        let imm = read_imm_osize(code, 1, osize);
        let rm = self.modrm_rm(modrm);
        self.write_reg_sized(rm, sized(imm, osize), osize);
        self.instruction_pointer = self.instruction_pointer.wrapping_add((1 + len) as i64);
        Step::Done
    }

    fn run_lea(&mut self, code: &[u8], osize: i32) -> (r: Step)
        requires
            osize == 16 || osize == 32 || osize == 64,
        ensures
            outcome(*final(self), r) == lea_effect(*old(self), code@, osize),
            final(self).rex == old(self).rex,
    {
        if code.len() < 1 {
            return Step::FetchFault;
        }
        let modrm = code[0] as i32;
        if modrm >= 0xC0 {
            // lea with a register source is undefined
            self.instruction_pointer = self.instruction_pointer.wrapping_add(1);
            return Step::Unimplemented;
        }
        let (_, rest) = code.split_at(1);
        let next = self.instruction_pointer.wrapping_add(1);
        match resolve_address(self.rex, &self.reg, next, modrm, rest, 0) {
            Ok((addr, used)) => {
                let reg = self.modrm_reg(modrm);
                self.write_reg_sized(reg, addr, osize);
                self.instruction_pointer = self.instruction_pointer.wrapping_add((1 + used) as i64);
                Step::Done
            },
            Err(()) => Step::FetchFault,
        }
    }

    fn run_jump(&mut self, opcode: i32, code: &[u8]) -> (r: Step)
        ensures
            outcome(*final(self), r) == jump_effect(*old(self), opcode, code@),
            final(self).rex == old(self).rex,
    {
        let len: usize = if opcode == 0xE9 {
            4
        } else {
            1
        };
        if code.len() < len {
            return Step::FetchFault;
        }
        let next = self.instruction_pointer.wrapping_add(len as i64);
        let offset = if opcode == 0xE9 {
            read_imm32s(code, 0)
        } else {
            read_imm8s(code, 0)
        };
        let taken = opcode == 0xEB || opcode == 0xE9 || self.test_condition(opcode & 0xF);
        self.instruction_pointer = if taken {
            next.wrapping_add(offset)
        } else {
            next
        };
        Step::Done
    }

    fn run_shift(&mut self, opcode: i32, code: &[u8], osize: i32) -> (r: Step)
        requires
            osize == 16 || osize == 32 || osize == 64,
            opcode == 0xC1 || opcode == 0xD1 || opcode == 0xD3,
        ensures
            outcome(*final(self), r) == shift_effect(*old(self), opcode, code@, osize),
            final(self).rex == old(self).rex,
    {
        let len: usize = if opcode == 0xC1 {
            2
        } else {
            1
        };
        if code.len() < 1 {
            return Step::FetchFault;
        }
        let modrm = code[0] as i32;
        if modrm < 0xC0 {
            return Step::Outside;
        }
        if code.len() < len {
            return Step::FetchFault;
        }
        let rm = self.modrm_rm(modrm);
        let v = self.reg[rm as usize];
        let value = match osize {
            16 => v as u16 as i64,
            32 => v as u32 as i64,
            _ => v,
        };
        let count: i32 = if opcode == 0xD1 {
            1
        } else if opcode == 0xD3 {
            (self.reg[1] as u8) as i32
        } else {
            code[1] as i32
        };
        let ghost before = *self;
        match self.shift_op(modrm >> 3 & 7, value, count, osize) {
            Some(result) => {
                self.write_reg_sized(rm, result, osize);
                self.instruction_pointer = self.instruction_pointer.wrapping_add(len as i64);
                Step::Done
            },
            None => {
                proof {
                    assert(self.flags == before.flags);
                }
                self.instruction_pointer = self.instruction_pointer.wrapping_add(len as i64);
                Step::Unimplemented
            },
        }
    }

    fn run_group3(&mut self, code: &[u8], osize: i32) -> (r: Step)
        requires
            osize == 16 || osize == 32 || osize == 64,
        ensures
            outcome(*final(self), r) == group3_effect(*old(self), code@, osize),
            final(self).rex == old(self).rex,
    {
        if code.len() < 1 {
            return Step::FetchFault;
        }
        let modrm = code[0] as i32;
        if modrm < 0xC0 {
            return Step::Outside;
        }
        let op = modrm >> 3 & 7;
        proof {
            lemma_modrm_fields(modrm, 0, 0);
        }
        let rm = self.modrm_rm(modrm);
        let dst = sized(self.reg[rm as usize], osize);
        if op <= 1 {
            // test r/m, imm
            let len: usize = if osize == 16 {
                2
            } else {
                4
            };
            if code.len() < 1 + len {
                return Step::FetchFault;
            }
            let imm = read_imm_osize(code, 1, osize);
            self.set_flags64_logical(sized(dst & imm, osize));
            self.instruction_pointer = self.instruction_pointer.wrapping_add((1 + len) as i64);
            Step::Done
        } else if op == 2 {
            // not: does not affect flags
            let r = sized(!dst, osize);
            self.write_reg_sized(rm, r, osize);
            self.instruction_pointer = self.instruction_pointer.wrapping_add(1);
            Step::Done
        } else if op == 3 {
            // neg: 0 - dst, with carry set when the operand was non-zero
            let r = sized(0i64.wrapping_sub(dst), osize);
            self.set_flags64(0, dst, r, true);
            self.write_reg_sized(rm, r, osize);
            self.instruction_pointer = self.instruction_pointer.wrapping_add(1);
            Step::Done
        } else {
            match self.mul_div_op(op, dst, osize) {
                Ok(()) => {
                    self.instruction_pointer = self.instruction_pointer.wrapping_add(1);
                    Step::Done
                },
                Err(_) => Step::DivideError,
            }
        }
    }

    fn run_imul_imm(&mut self, opcode: i32, code: &[u8], osize: i32) -> (r: Step)
        requires
            osize == 16 || osize == 32 || osize == 64,
        ensures
            outcome(*final(self), r) == imul_imm_effect(*old(self), opcode, code@, osize),
            final(self).rex == old(self).rex,
    {
        let len: usize = if opcode == 0x6B {
            1
        } else if osize == 16 {
            2
        } else {
            4
        };
        if code.len() < 1 {
            return Step::FetchFault;
        }
        let modrm = code[0] as i32;
        if modrm < 0xC0 {
            return Step::Outside;
        }
        if code.len() < 1 + len {
            return Step::FetchFault;
        }
        let src = sized(self.reg[self.modrm_rm(modrm) as usize], osize);
        let imm = if opcode == 0x6B {
            read_imm8s(code, 1)
        } else {
            read_imm_osize(code, 1, osize)
        };
        let result = self.imul_op(src, imm, osize);
        let reg = self.modrm_reg(modrm);
        self.write_reg_sized(reg, result, osize);
        self.instruction_pointer = self.instruction_pointer.wrapping_add((1 + len) as i64);
        Step::Done
    }

    fn run_flag_op(&mut self, opcode: i32) -> (r: Step)
        ensures
            outcome(*final(self), r) == flag_op_effect(*old(self), opcode),
            final(self).rex == old(self).rex,
    {
        self.flags = if opcode == 0xF8 {
            self.flags & !FLAG_CARRY
        } else if opcode == 0xF9 {
            self.flags | FLAG_CARRY
        } else if opcode == 0xF5 {
            self.flags ^ FLAG_CARRY
        } else if opcode == 0xFC {
            self.flags & !FLAG_DIRECTION
        } else {
            self.flags | FLAG_DIRECTION
        };
        Step::Done
    }

    fn run_cmov(&mut self, opcode: i32, code: &[u8], osize: i32) -> (r: Step)
        requires
            osize == 16 || osize == 32 || osize == 64,
        ensures
            outcome(*final(self), r) == cmov_effect(*old(self), opcode, code@, osize),
            final(self).rex == old(self).rex,
    {
        if code.len() < 1 {
            return Step::FetchFault;
        }
        let modrm = code[0] as i32;
        if modrm < 0xC0 {
            return Step::Outside;
        }
        let reg = self.modrm_reg(modrm);
        let v = self.reg[self.modrm_rm(modrm) as usize];
        let src = match osize {
            16 => v as u16 as i64,
            32 => v as u32 as i64,
            _ => v,
        };
        let value = if self.test_condition(opcode & 0xF) {
            src
        } else {
            self.reg[reg as usize]
        };
        self.write_reg_sized(reg, value, osize);
        self.instruction_pointer = self.instruction_pointer.wrapping_add(1);
        Step::Done
    }

    fn run_jcc32(&mut self, opcode: i32, code: &[u8]) -> (r: Step)
        ensures
            outcome(*final(self), r) == jcc32_effect(*old(self), opcode, code@),
            final(self).rex == old(self).rex,
    {
        if code.len() < 4 {
            return Step::FetchFault;
        }
        let offset = read_imm32s(code, 0);
        let next = self.instruction_pointer.wrapping_add(4);
        self.instruction_pointer = if self.test_condition(opcode & 0xF) {
            next.wrapping_add(offset)
        } else {
            next
        };
        Step::Done
    }

    fn run_imul_rr(&mut self, code: &[u8], osize: i32) -> (r: Step)
        requires
            osize == 16 || osize == 32 || osize == 64,
        ensures
            outcome(*final(self), r) == imul_rr_effect(*old(self), code@, osize),
            final(self).rex == old(self).rex,
    {
        if code.len() < 1 {
            return Step::FetchFault;
        }
        let modrm = code[0] as i32;
        if modrm < 0xC0 {
            return Step::Outside;
        }
        let reg = self.modrm_reg(modrm);
        let src = sized(self.reg[self.modrm_rm(modrm) as usize], osize);
        let dst = sized(self.reg[reg as usize], osize);
        let result = self.imul_op(dst, src, osize);
        self.write_reg_sized(reg, result, osize);
        self.instruction_pointer = self.instruction_pointer.wrapping_add(1);
        Step::Done
    }

    fn run_bswap(&mut self, opcode: i32, osize: i32) -> (r: Step)
        requires
            osize == 16 || osize == 32 || osize == 64,
        ensures
            outcome(*final(self), r) == bswap_effect(*old(self), opcode, osize),
            final(self).rex == old(self).rex,
    {
        let e = rex_bit(self.rex, REX_B);
        let reg = (opcode & 7) | e;
        proof {
            lemma_modrm_fields(opcode, e, e);
        }
        let value = self.reg[reg as usize];
        let swapped = if osize == 64 {
            swap_bytes64(value as u64) as i64
        } else {
            swap_bytes32(value as u32) as i64
        };
        self.write_reg_sized(reg, swapped, osize);
        Step::Done
    }

    fn run_nop(&mut self, code: &[u8]) -> (r: Step)
        ensures
            outcome(*final(self), r) == nop_effect(*old(self), code@),
            final(self).rex == old(self).rex,
    {
        if code.len() < 1 {
            return Step::FetchFault;
        }
        let modrm = code[0] as i32;
        if modrm >= 0xC0 {
            self.instruction_pointer = self.instruction_pointer.wrapping_add(1);
            return Step::Done;
        }
        let (_, rest) = code.split_at(1);
        let next = self.instruction_pointer.wrapping_add(1);
        match resolve_address(self.rex, &self.reg, next, modrm, rest, 0) {
            Ok((_, used)) => {
                self.instruction_pointer = self.instruction_pointer.wrapping_add((1 + used) as i64);
                Step::Done
            },
            Err(()) => Step::FetchFault,
        }
    }

    fn run_bit_scan(&mut self, opcode: i32, code: &[u8], osize: i32) -> (r: Step)
        requires
            osize == 16 || osize == 32 || osize == 64,
        ensures
            outcome(*final(self), r) == bit_scan_effect(*old(self), opcode, code@, osize),
            final(self).rex == old(self).rex,
    {
        if code.len() < 1 {
            return Step::FetchFault;
        }
        let modrm = code[0] as i32;
        if modrm < 0xC0 {
            return Step::Outside;
        }
        let reg = self.modrm_reg(modrm);
        let v = self.reg[self.modrm_rm(modrm) as usize];
        let src = match osize {
            16 => v as u16 as i64,
            32 => v as u32 as i64,
            _ => v,
        };
        match self.bit_scan(opcode == 0xBC, src, osize) {
            Some(index) => self.write_reg_sized(reg, index, osize),
            None => {},
        }
        self.instruction_pointer = self.instruction_pointer.wrapping_add(1);
        Step::Done
    }

    fn run_popcnt(&mut self, code: &[u8], osize: i32, rep_prefix: bool) -> (r: Step)
        requires
            osize == 16 || osize == 32 || osize == 64,
        ensures
            outcome(*final(self), r) == popcnt_effect(*old(self), code@, osize, rep_prefix),
            final(self).rex == old(self).rex,
    {
        if !rep_prefix {
            return Step::Unimplemented;
        }
        if code.len() < 1 {
            return Step::FetchFault;
        }
        let modrm = code[0] as i32;
        if modrm < 0xC0 {
            return Step::Outside;
        }
        let v = self.reg[self.modrm_rm(modrm) as usize];
        let src = match osize {
            16 => v as u16 as i64,
            32 => v as u32 as i64,
            _ => v,
        };
        let count = self.popcnt_op(src, osize);
        let reg = self.modrm_reg(modrm);
        self.write_reg_sized(reg, count, osize);
        self.instruction_pointer = self.instruction_pointer.wrapping_add(1);
        Step::Done
    }

    fn run_bit_test(&mut self, opcode: i32, code: &[u8], osize: i32) -> (r: Step)
        requires
            osize == 16 || osize == 32 || osize == 64,
        ensures
            outcome(*final(self), r) == bit_test_effect(*old(self), opcode, code@, osize),
            final(self).rex == old(self).rex,
    {
        if code.len() < 1 {
            return Step::FetchFault;
        }
        let modrm = code[0] as i32;
        let op: i32 = if opcode == 0xBA {
            modrm >> 3 & 7
        } else if opcode == 0xA3 {
            4
        } else if opcode == 0xAB {
            5
        } else if opcode == 0xB3 {
            6
        } else {
            7
        };
        if opcode == 0xBA && !(4 <= op && op <= 7) {
            self.instruction_pointer = self.instruction_pointer.wrapping_add(1);
            return Step::Unimplemented;
        }
        if modrm < 0xC0 {
            if opcode == 0xBA {
                return Step::Outside;
            }
            self.instruction_pointer = self.instruction_pointer.wrapping_add(1);
            return Step::Unimplemented;
        }
        if opcode == 0xBA && code.len() < 2 {
            return Step::FetchFault;
        }
        let rm = self.modrm_rm(modrm);
        let bit: i32 = if opcode == 0xBA {
            code[1] as i32
        } else {
            self.reg[self.modrm_reg(modrm) as usize] as i32
        };
        let v = self.reg[rm as usize];
        let value = match osize {
            16 => v as u16 as i64,
            32 => v as u32 as i64,
            _ => v,
        };
        match self.bit_test_op(op, value, bit, osize) {
            Some(result) => self.write_reg_sized(rm, result, osize),
            None => {},
        }
        let len: i64 = if opcode == 0xBA {
            2
        } else {
            1
        };
        self.instruction_pointer = self.instruction_pointer.wrapping_add(len);
        Step::Done
    }

    fn run_double_shift(&mut self, opcode: i32, code: &[u8], osize: i32) -> (r: Step)
        requires
            osize == 16 || osize == 32 || osize == 64,
        ensures
            outcome(*final(self), r) == double_shift_effect(*old(self), opcode, code@, osize),
            final(self).rex == old(self).rex,
    {
        let imm = opcode & 1 == 0;
        let len: usize = if imm {
            2
        } else {
            1
        };
        if code.len() < 1 {
            return Step::FetchFault;
        }
        let modrm = code[0] as i32;
        if modrm < 0xC0 {
            return Step::Outside;
        }
        if code.len() < len {
            return Step::FetchFault;
        }
        let raw: i32 = if imm {
            code[1] as i32
        } else {
            (self.reg[1] as u8) as i32
        };
        let count = raw & if osize == 64 {
            63
        } else {
            31
        };
        if osize == 16 && count > 16 {
            self.instruction_pointer = self.instruction_pointer.wrapping_add(len as i64);
            return Step::Unimplemented;
        }
        let rm = self.modrm_rm(modrm);
        let fill = self.reg[self.modrm_reg(modrm) as usize];
        let v = self.reg[rm as usize];
        let dst = match osize {
            16 => v as u16 as i64,
            32 => v as u32 as i64,
            _ => v,
        };
        let result = self.double_shift(opcode < 0xAC, dst, fill, raw, osize);
        self.write_reg_sized(rm, result, osize);
        self.instruction_pointer = self.instruction_pointer.wrapping_add(len as i64);
        Step::Done
    }

    fn run_movx(&mut self, opcode: i32, code: &[u8], osize: i32) -> (r: Step)
        requires
            osize == 16 || osize == 32 || osize == 64,
        ensures
            outcome(*final(self), r) == movx_effect(*old(self), opcode, code@, osize),
            final(self).rex == old(self).rex,
    {
        if code.len() < 1 {
            return Step::FetchFault;
        }
        let modrm = code[0] as i32;
        if modrm < 0xC0 {
            return Step::Outside;
        }
        let value = (self.reg[self.modrm_rm(modrm) as usize] as i32) & 0xFFFF;
        let extended: i64 = if opcode == 0xBF {
            value as i16 as i64
        } else {
            value as i64
        };
        let reg = self.modrm_reg(modrm);
        self.write_reg_sized(reg, extended, osize);
        self.instruction_pointer = self.instruction_pointer.wrapping_add(1);
        Step::Done
    }

    fn run_exchange(&mut self, opcode: i32, code: &[u8], osize: i32) -> (r: Step)
        requires
            osize == 16 || osize == 32 || osize == 64,
        ensures
            outcome(*final(self), r) == exchange_effect(*old(self), opcode, code@, osize),
            final(self).rex == old(self).rex,
    {
        if code.len() < 1 {
            return Step::FetchFault;
        }
        let modrm = code[0] as i32;
        if modrm < 0xC0 {
            return Step::Outside;
        }
        let reg = self.modrm_reg(modrm);
        let rm = self.modrm_rm(modrm);
        let v = self.reg[rm as usize];
        let dst_raw = match osize {
            16 => v as u16 as i64,
            32 => v as u32 as i64,
            _ => v,
        };
        let dst = sized(dst_raw, osize);
        if opcode == 0xC1 {
            let src = sized(self.reg[reg as usize], osize);
            let sum = match self.group1_op(0, dst, src, osize) {
                Some(v) => v,
                None => {
                    // add always produces a value
                    return Step::Unimplemented;
                },
            };
            self.write_reg_sized(reg, dst_raw, osize);
            self.write_reg_sized(rm, sum, osize);
        } else {
            let acc = sized(self.reg[0], osize);
            let src = sized(self.reg[reg as usize], osize);
            self.group1_op(7, acc, dst, osize);
            if 0 != self.flags & FLAG_ZERO {
                self.write_reg_sized(rm, src, osize);
            } else {
                self.write_reg_sized(EAX, dst_raw, osize);
            }
        }
        self.instruction_pointer = self.instruction_pointer.wrapping_add(1);
        Step::Done
    }

    /// Runs one instruction of the two byte map, the instruction pointer already past its second
    /// opcode byte.
    fn run_0f(&mut self, opcode: i32, code: &[u8], osize: i32, rep_prefix: bool) -> (r: Step)
        requires
            osize == 16 || osize == 32 || osize == 64,
        ensures
            outcome(*final(self), r) == run_0f_effect(*old(self), opcode, code@, osize, rep_prefix),
            final(self).rex == old(self).rex,
    {
        if 0x80 <= opcode && opcode <= 0x8F {
            self.run_jcc32(opcode, code)
        } else if 0x40 <= opcode && opcode <= 0x4F {
            self.run_cmov(opcode, code, osize)
        } else if opcode == 0xB1 || opcode == 0xC1 {
            self.run_exchange(opcode, code, osize)
        } else if opcode == 0xB7 || opcode == 0xBF {
            self.run_movx(opcode, code, osize)
        } else if opcode == 0xBA || opcode == 0xA3 || opcode == 0xAB || opcode == 0xB3 || opcode == 0xBB {
            self.run_bit_test(opcode, code, osize)
        } else if opcode == 0xB8 {
            self.run_popcnt(code, osize, rep_prefix)
        } else if opcode == 0xA4 || opcode == 0xA5 || opcode == 0xAC || opcode == 0xAD {
            self.run_double_shift(opcode, code, osize)
        } else if opcode == 0xAF {
            self.run_imul_rr(code, osize)
        } else if 0x18 <= opcode && opcode <= 0x1F {
            self.run_nop(code)
        } else if 0xC8 <= opcode && opcode <= 0xCF {
            self.run_bswap(opcode, osize)
        } else if opcode == 0xBC || opcode == 0xBD {
            self.run_bit_scan(opcode, code, osize)
        } else if opcode == 0xC7 {
            if code.len() < 1 {
                return Step::FetchFault;
            }
            let modrm = code[0] as i32;
            let group = modrm >> 3 & 7;
            if (group == 1 && modrm < 0xC0) || (group == 6 && modrm >= 0xC0) {
                Step::Outside
            } else {
                self.instruction_pointer = self.instruction_pointer.wrapping_add(1);
                Step::Unimplemented
            }
        } else if opcode == 0xAE || opcode == 0xC3 {
            if code.len() < 1 {
                return Step::FetchFault;
            }
            let modrm = code[0] as i32;
            if opcode == 0xC3 {
                // movnti to a register raises #ud; its memory form is the caller's
                if modrm >= 0xC0 {
                    Step::InvalidOpcode
                } else {
                    Step::Outside
                }
            } else if modrm < 0xC0 {
                Step::Outside
            } else if 5 <= modrm >> 3 & 7 {
                // the fences: there is nothing to order
                self.instruction_pointer = self.instruction_pointer.wrapping_add(1);
                Step::Done
            } else {
                self.instruction_pointer = self.instruction_pointer.wrapping_add(1);
                Step::Unimplemented
            }
        } else if (0x90 <= opcode && opcode <= 0x9F) || opcode == 0xB0 || opcode == 0xB6 || opcode == 0xBE
            || opcode == 0xC0 {
            self.run_byte_0f(opcode, code, osize)
        } else if outside_0f_opcode(opcode) {
            Step::Outside
        } else {
            Step::Unimplemented
        }
    }

    /// Reads the second opcode byte and runs the instruction it names. One that does not run gives
    /// the byte back along with everything else.
    fn run_two_byte(&mut self, code: &[u8], osize: i32, rep_prefix: bool) -> (r: Step)
        requires
            osize == 16 || osize == 32 || osize == 64,
        ensures
            outcome(*final(self), r) == two_byte_effect(*old(self), code@, osize, rep_prefix),
            final(self).rex == old(self).rex,
    {
        if code.len() < 1 {
            return Step::FetchFault;
        }
        let opcode2 = code[0] as i32;
        let (_, rest) = code.split_at(1);
        let start = self.instruction_pointer;
        self.instruction_pointer = start.wrapping_add(1);
        let r = self.run_0f(opcode2, rest, osize, rep_prefix);
        if !matches!(r, Step::Done) && !matches!(r, Step::Unimplemented) {
            self.instruction_pointer = start;
        }
        r
    }

    /// Runs one instruction in 64-bit mode for which the instruction pointer is already past the
    /// opcode byte, and the rex byte, which is in `rex`, and the other prefixes have been consumed.
    /// `code` holds the bytes from the instruction pointer on; `opsize_prefix` says whether a 0x66
    /// prefix came before the instruction and `rep_prefix` whether an f3 did.
    ///
    /// An instruction that runs leaves the registers, the flags and the instruction pointer as
    /// `run_effect` says; one that does not changes nothing, and the step says why.
    pub fn run(&mut self, opcode: i32, code: &[u8], opsize_prefix: bool, rep_prefix: bool) -> (r: Step)
        ensures
            outcome(*final(self), r) == run_effect(*old(self), opcode, code@, opsize_prefix, rep_prefix),
            final(self).rex == old(self).rex,
    {
        let osize = operand_size_of(self.rex, opsize_prefix);
        if 0 <= opcode && opcode < 0x40 && (opcode & 7 == 1 || opcode & 7 == 3) {
            self.run_group1_pair(opcode, code, osize)
        } else if 0 <= opcode && opcode < 0x40 && opcode & 7 == 5 {
            self.run_group1_acc(opcode, code, osize)
        } else if opcode == 0x81 || opcode == 0x83 {
            self.run_group1_imm(opcode, code, osize)
        } else if opcode == 0x85 || opcode == 0xA9 {
            self.run_test(opcode, code, osize)
        } else if opcode == 0x89 || opcode == 0x8B || opcode == 0x63 {
            self.run_mov(opcode, code, osize)
        } else if opcode == 0x98 || opcode == 0x99 {
            self.run_widen(opcode, osize)
        } else if 0x90 <= opcode && opcode <= 0x97 {
            self.run_xchg(opcode, osize)
        } else if opcode == 0x87 {
            self.run_xchg_rm(code, osize)
        } else if 0xB8 <= opcode && opcode <= 0xBF {
            self.run_mov_imm(opcode, code, osize)
        } else if opcode == 0xC7 {
            self.run_mov_rm_imm(code, osize)
        } else if opcode == 0x8D {
            self.run_lea(code, osize)
        } else if opcode == 0xEB || opcode == 0xE9 || (0x70 <= opcode && opcode <= 0x7F) {
            self.run_jump(opcode, code)
        } else if opcode == 0xC1 || opcode == 0xD1 || opcode == 0xD3 {
            self.run_shift(opcode, code, osize)
        } else if opcode == 0xF7 {
            self.run_group3(code, osize)
        } else if opcode == 0x69 || opcode == 0x6B {
            self.run_imul_imm(opcode, code, osize)
        } else if opcode == 0xF8 || opcode == 0xF9 || opcode == 0xF5 || opcode == 0xFC || opcode == 0xFD {
            self.run_flag_op(opcode)
        } else if opcode == 0x0F {
            self.run_two_byte(code, osize, rep_prefix)
        } else if 0xB0 <= opcode && opcode <= 0xB7 || opcode == 0x9E || opcode == 0x9F || opcode == 0x80
            || opcode == 0x84 || opcode == 0x86 || opcode == 0x88 || opcode == 0x8A || opcode == 0xA8
            || opcode == 0xC0 || opcode == 0xC6 || opcode == 0xD0 || opcode == 0xD2 || opcode == 0xF6
            || opcode == 0xFE || (0 <= opcode && opcode < 0x40 && (opcode & 7 == 0 || opcode & 7 == 2
            || opcode & 7 == 4)) {
            self.run_byte(opcode, code)
        } else if opcode == 0xCE {
            // into does not exist in 64-bit mode
            Step::InvalidOpcode
        } else if outside_opcode(opcode) {
            Step::Outside
        } else {
            Step::Unimplemented
        }
    }

    /// How many 32-bit random words the instruction at `code`, which follows a 0x0f, draws: two
    /// for rdrand with a register operand under rex.w, one without, and none for anything else.
    pub fn rdrand_draws(&self, code: &[u8], opsize_prefix: bool) -> (r: u8)
        ensures
            r == if code@.len() >= 2 && code@[0] == 0xC7 && (code@[1] as i32) >= 0xC0 && (
            code@[1] as i32) >> 3 & 7 == 6 {
                if operand_size(self.rex, opsize_prefix) == 64 {
                    2u8
                } else {
                    1u8
                }
            } else {
                0u8
            },
    {
        if code.len() < 2 || code[0] != 0xC7 {
            return 0;
        }
        let modrm = code[1] as i32;
        if modrm < 0xC0 || modrm >> 3 & 7 != 6 {
            return 0;
        }
        if operand_size_of(self.rex, opsize_prefix) == 64 {
            2
        } else {
            1
        }
    }

    /// rdrand with a register operand, 0x0f 0xc7 /6, the instruction pointer on the 0xc7 and
    /// `code` the bytes from there on. The random value is the caller's: `low`, and under rex.w
    /// `high` above it, the two drawn in that order. It goes to the register at the operand size,
    /// carry reports success and every other arithmetic flag is cleared. Anything else is left to
    /// `run`, unchanged.
    pub fn rdrand(&mut self, code: &[u8], opsize_prefix: bool, low: u32, high: u32) -> (r: bool)
        ensures
            r == (code@.len() >= 2 && code@[0] == 0xC7 && (code@[1] as i32) >= 0xC0 && (code@[1] as i32)
                >> 3 & 7 == 6),
            r ==> {
                let osize = operand_size(old(self).rex, opsize_prefix);
                let rm = rm_field(old(self).rex, code@[1] as i32);
                let value: i64 = if osize == 64 {
                    (low as i64) | ((high as i64) << 32u64)
                } else {
                    low as i64
                };
                &&& final(self).reg@ == old(self).reg@.update(rm, sized_write(old(self).reg@[rm], value, osize))
                &&& final(self).flags == old(self).flags & !FLAGS_ALL | FLAG_CARRY
                &&& final(self).instruction_pointer == old(self).instruction_pointer.wrapping_add(2)
            },
            !r ==> *final(self) == *old(self),
            final(self).rex == old(self).rex,
    {
        if code.len() < 2 || code[0] != 0xC7 {
            return false;
        }
        let modrm = code[1] as i32;
        if modrm < 0xC0 || modrm >> 3 & 7 != 6 {
            return false;
        }
        let osize = operand_size_of(self.rex, opsize_prefix);
        let value: i64 = if osize == 64 {
            (low as i64) | ((high as i64) << 32u64)
        } else {
            low as i64
        };
        let rm = self.modrm_rm(modrm);
        self.write_reg_sized(rm, value, osize);
        self.flags = self.flags & !FLAGS_ALL | FLAG_CARRY;
        self.instruction_pointer = self.instruction_pointer.wrapping_add(2);
        true
    }

    /// Runs the 0xff group, given its modrm byte, the instruction pointer already past it.
    pub fn run_ff(&mut self, modrm_byte: i32, opsize_prefix: bool) -> (r: Step)
        ensures
            outcome(*final(self), r) == run_ff_effect(*old(self), modrm_byte, opsize_prefix),
            final(self).rex == old(self).rex,
    {
        let osize = operand_size_of(self.rex, opsize_prefix);
        let op = modrm_byte >> 3 & 7;
        if op == 0 || op == 1 {
            if modrm_byte < 0xC0 {
                return Step::Outside;
            }
            let rm = self.modrm_rm(modrm_byte);
            let dst = sized(self.reg[rm as usize], osize);
            let carry = 0 != self.flags & FLAG_CARRY;
            // inc and dec are add and sub that do not touch carry
            let result = self.group1_op(if op == 0 {
                0
            } else {
                5
            }, dst, 1, osize);
            self.flags = self.flags & !FLAG_CARRY | if carry {
                FLAG_CARRY
            } else {
                0
            };
            match result {
                Some(v) => self.write_reg_sized(rm, v, osize),
                None => {},
            }
            Step::Done
        } else if op == 4 {
            if modrm_byte < 0xC0 {
                return Step::Outside;
            }
            let rm = self.modrm_rm(modrm_byte);
            self.instruction_pointer = self.reg[rm as usize];
            Step::Done
        } else if op == 2 || op == 6 {
            Step::Outside
        } else {
            Step::Unimplemented
        }
    }
}

} // verus!
