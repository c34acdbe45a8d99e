//! The memory forms of the instructions whose operand is a register or memory.
//!
//! Memory belongs to the caller, so such an instruction runs in two steps. `memory_operand`
//! decodes the operand's address and width and says whether the instruction reads it; the caller
//! reads it, and `run_memory` runs the instruction on the value read and hands back the value to
//! store, if any, which the caller writes at the same address. The address is decoded once and
//! kept: decoding it a second time would consume the displacement twice.
//!
//! `code` is as `run` takes it: the bytes after the opcode, the second opcode byte first for the
//! two byte map. The value read is given zero extended from the operand's width. mov with a 64-bit
//! absolute address runs the same way through `moffs_operand` and `run_moffs`, and `modrm_operand`
//! decodes the operand of the two byte instructions the caller runs on its own state.

use vstd::prelude::*;
use crate::alu::{group1_flags, group1_result};
use crate::bits::{bit_mask, bit_scan_spec, bit_test_result, double_shift_spec};
use crate::bytes::sext8;
use crate::cpu::{Cpu, EAX, arith_flags, byte_reg, condition_holds, logical_flags, sized_write, with_byte_reg};
use crate::flags::{FLAG_CARRY, FLAG_ZERO, has_flag, popcount, with_arith_flags, with_carry, with_carry_overflow};
use crate::modrm::{imm32s_at, imm8s_at, lemma_modrm_fields, modrm_address, read_imm32s, resolve_address};
use crate::muldiv::mul_div_effect;
use crate::run::{
    Step, imm_len, imm_osize_at, operand_size, operand_size_of, read_imm8s, read_imm_osize, reg_field,
    rm_field, zero_ext,
};
use crate::shift::{shift_count, shift_op_spec, unsigned_at};
use crate::width::{sized, sized_spec};

verus! {

/// The memory operand of an instruction.
#[derive(Clone, Copy, Debug, PartialEq, Eq, Structural)]
pub struct MemoryOperand {
    /// The address, the segment base added.
    pub addr: i64,
    /// The width of the access in bits.
    pub width: i32,
    /// Whether the instruction reads the operand; the ones that do not only store to it.
    pub read: bool,
}

/// What an instruction changes only once its store has gone through: xchg loads the register
/// after storing it, and shld and shrd set the flags after storing the result.
#[derive(Clone, Copy, Debug, PartialEq, Eq, Structural)]
pub enum AfterStore {
    /// Nothing is left to do.
    Nothing,
    /// The register `reg` takes `value` at the operand size `osize`.
    Register { reg: i32, value: i64, osize: i32 },
    /// The flags word becomes this.
    Flags(i32),
    /// The byte register `reg` takes the low byte of `value`.
    Byte { reg: i32, value: i64 },
}

/// The registers and flags after an `AfterStore` is applied, `rex` naming the byte registers.
pub open spec fn after_store_effect(regs: Seq<i64>, flags: i32, rex: u8, after: AfterStore) -> (Seq<i64>, i32) {
    match after {
        AfterStore::Nothing => (regs, flags),
        AfterStore::Register { reg, value, osize } => if 0 <= reg < 16 {
            (regs.update(reg as int, sized_write(regs[reg as int], value, osize)), flags)
        } else {
            (regs, flags)
        },
        AfterStore::Flags(f) => (regs, f),
        AfterStore::Byte { reg, value } => if 0 <= reg < 16 {
            (with_byte_reg(regs, rex, reg as int, value), flags)
        } else {
            (regs, flags)
        },
    }
}

/// An outcome with nothing left for after the store.
pub open spec fn plain(e: (Seq<i64>, i32, i64, Step, Option<i64>)) -> (Seq<i64>, i32, i64, Step, Option<i64>, AfterStore) {
    (e.0, e.1, e.2, e.3, e.4, AfterStore::Nothing)
}

/// Where an instruction with a memory operand keeps its modrm byte, how many bytes of immediate
/// follow the operand, the operand's width, and whether it is read; `None` for an instruction
/// whose memory form is left to the caller. The shapes: the arithmetic group with a register or an
/// immediate, test, xchg, mov to and from a register and of an immediate, movsxd, the shifts, group 3,
/// imul, inc, dec and jmp of the 0xff group, and of the two byte map cmov, imul, movzx and movsx
/// from a word, popcnt, bsf and bsr, the bit tests with an immediate index, shld and shrd,
/// cmpxchg, xadd and movnti; and the byte forms: the arithmetic group, mov, test and xchg with a
/// byte register, the shifts with an immediate, by one or by cl, mov of an immediate, group 3, inc
/// and dec, setcc, and movzx and movsx from a byte.
pub open spec fn memory_layout(opcode: i32, code: Seq<u8>, osize: i32, rep_prefix: bool) -> Option<(int, i32, i32, bool)> {
    let m: i32 = if code.len() >= 1 {
        code[0] as i32
    } else {
        0
    };
    let m2: i32 = if code.len() >= 2 {
        code[1] as i32
    } else {
        0
    };
    if opcode == 0x0F {
        if code.len() < 1 {
            None
        } else if (0x40 <= m <= 0x4F) || m == 0xAF || m == 0xBC || m == 0xBD || m == 0xB1 || m == 0xC1 || (m
            == 0xB8 && rep_prefix) {
            Some((1, 0, osize, true))
        } else if m == 0xB7 || m == 0xBF {
            Some((1, 0, 16, true))
        } else if m == 0xBA && 4 <= m2 >> 3 & 7 <= 7 {
            Some((1, 1, osize, true))
        } else if m == 0xA4 || m == 0xAC {
            Some((1, 1, osize, true))
        } else if m == 0xA5 || m == 0xAD {
            Some((1, 0, osize, true))
        } else if 0x90 <= m <= 0x9F {
            Some((1, 0, 8, false))
        } else if m == 0xB6 || m == 0xBE || m == 0xB0 || m == 0xC0 {
            Some((1, 0, 8, true))
        } else if m == 0xC3 {
            Some((1, 0, if osize == 64 { 64 } else { 32 }, false))
        } else {
            None
        }
    } else if opcode == 0xFF {
        if m >> 3 & 7 <= 1 {
            Some((0, 0, osize, true))
        } else if m >> 3 & 7 == 4 {
            Some((0, 0, 64, true))
        } else {
            None
        }
    } else if 0 <= opcode < 0x40 && (opcode & 7 == 0 || opcode & 7 == 2) || opcode == 0x84 || opcode == 0x86
        || opcode == 0x8A {
        Some((0, 0, 8, true))
    } else if opcode == 0x88 {
        Some((0, 0, 8, false))
    } else if opcode == 0x80 || opcode == 0xC0 {
        Some((0, 1, 8, true))
    } else if opcode == 0xD0 || opcode == 0xD2 || (opcode == 0xFE && m >> 3 & 7 <= 1) {
        Some((0, 0, 8, true))
    } else if opcode == 0xC6 && m >> 3 & 7 == 0 {
        Some((0, 1, 8, false))
    } else if opcode == 0xF6 {
        Some((0, if m >> 3 & 7 <= 1 { 1 } else { 0 }, 8, true))
    } else if 0 <= opcode < 0x40 && (opcode & 7 == 1 || opcode & 7 == 3) {
        Some((0, 0, osize, true))
    } else if opcode == 0x81 {
        Some((0, imm_len(osize) as i32, osize, true))
    } else if opcode == 0x83 || opcode == 0xC1 {
        Some((0, 1, osize, true))
    } else if opcode == 0x85 || opcode == 0x87 || opcode == 0x8B || opcode == 0xD1 || opcode == 0xD3 {
        Some((0, 0, osize, true))
    } else if opcode == 0x89 {
        Some((0, 0, osize, false))
    } else if opcode == 0x63 && osize == 64 {
        Some((0, 0, 32, true))
    } else if opcode == 0xC7 && m >> 3 & 7 == 0 {
        Some((0, imm_len(osize) as i32, osize, false))
    } else if opcode == 0xF7 {
        Some((0, if m >> 3 & 7 <= 1 { imm_len(osize) as i32 } else { 0 }, osize, true))
    } else if opcode == 0x69 {
        Some((0, imm_len(osize) as i32, osize, true))
    } else if opcode == 0x6B {
        Some((0, 1, osize, true))
    } else {
        None
    }
}

/// The address of the memory operand whose modrm is `code[at]`, the segment base added, and how
/// many bytes after the modrm it took, or `None` when the code ends first.
#[verifier::opaque]
pub open spec fn operand_address(c: Cpu, code: Seq<u8>, at: int, imm_bytes: i32, seg_base: i64) -> Option<(i64, int)> {
    match modrm_address(
        c.rex,
        c.reg@,
        c.instruction_pointer.wrapping_add((at + 1) as i64),
        code[at] as i32,
        code.subrange(at + 1, code.len() as int),
        imm_bytes,
    ) {
        None => None,
        Some((addr, used)) => Some((seg_base.wrapping_add(addr), used)),
    }
}

/// What `memory_operand` decodes: the operand, or the step to report when there is none to hand
/// out: `FetchFault` when the code ends inside the modrm or the address, `Outside` when the
/// instruction's memory form is left to the caller or its operand is a register.
pub open spec fn memory_operand_spec(c: Cpu, opcode: i32, code: Seq<u8>, opsize_prefix: bool, rep_prefix: bool, seg_base: i64) -> Result<MemoryOperand, Step> {
    let osize = operand_size(c.rex, opsize_prefix);
    if opcode == 0x0F && code.len() < 1 {
        Err(Step::FetchFault)
    } else {
        match memory_layout(opcode, code, osize, rep_prefix) {
            None => Err(Step::Outside),
            Some((at, imm_bytes, width, read)) => if code.len() <= at {
                Err(Step::FetchFault)
            } else if (code[at] as i32) >= 0xC0 {
                Err(Step::Outside)
            } else {
                match operand_address(c, code, at, imm_bytes, seg_base) {
                    None => Err(Step::FetchFault),
                    Some((addr, _)) => Ok(MemoryOperand { addr, width, read }),
                }
            },
        }
    }
}

/// What an instruction leaves: the registers, the flags, the instruction pointer, how it ended,
/// and the value to store at its operand.
pub open spec fn stored(c: Cpu, step: Step, store: Option<i64>) -> (Seq<i64>, i32, i64, Step, Option<i64>) {
    (c.reg@, c.flags, c.instruction_pointer, step, store)
}

/// An instruction that changed nothing and stores nothing.
pub open spec fn refused(c: Cpu, step: Step) -> (Seq<i64>, i32, i64, Step, Option<i64>) {
    (c.reg@, c.flags, c.instruction_pointer, step, None)
}

/// An instruction refused as not implemented once its bytes up to `next` were read: no register
/// or flag changes and nothing is stored, and the instruction pointer is past those bytes.
pub open spec fn refused_past(c: Cpu, next: int) -> (Seq<i64>, i32, i64, Step, Option<i64>) {
    (c.reg@, c.flags, c.instruction_pointer.wrapping_add(next as i64), Step::Unimplemented, None)
}

/// The arithmetic group on memory: `op r/m, r` and `op r, r/m`, the operation in bits 5:3 of the
/// opcode and the direction in bit 1, and `op r/m, imm` (0x81) or a sign extended imm8 (0x83),
/// the operation in the reg field. `next` indexes the byte after the operand's address.
pub open spec fn mem_group1_effect(c: Cpu, opcode: i32, code: Seq<u8>, osize: i32, next: int, loaded: i64) -> (Seq<i64>, i32, i64, Step, Option<i64>) {
    let modrm = code[0] as i32;
    let cf = has_flag(c.flags, FLAG_CARRY);
    let m = sized_spec(loaded, osize);
    if opcode == 0x81 || opcode == 0x83 {
        let len: int = if opcode == 0x83 { 1 } else { imm_len(osize) };
        if code.len() < next + len {
            refused(c, Step::FetchFault)
        } else {
            let imm = if opcode == 0x83 { imm8s_at(code, next) } else { imm_osize_at(code, next, osize) };
            let src = sized_spec(imm, osize);
            let op = modrm >> 3 & 7;
            (c.reg@, group1_flags(op, m, src, osize, c.flags), c.instruction_pointer.wrapping_add(
                (next + len) as i64,
            ), Step::Done, group1_result(op, m, src, osize, cf))
        }
    } else {
        let reg = reg_field(c.rex, modrm);
        let r = sized_spec(c.reg@[reg], osize);
        let to_reg = opcode & 2 != 0;
        let dst = if to_reg { r } else { m };
        let src = if to_reg { m } else { r };
        let op = opcode >> 3 & 7;
        let result = group1_result(op, dst, src, osize, cf);
        let regs = match result {
            Some(v) => if to_reg {
                c.reg@.update(reg, sized_write(c.reg@[reg], v, osize))
            } else {
                c.reg@
            },
            None => c.reg@,
        };
        (regs, group1_flags(op, dst, src, osize, c.flags), c.instruction_pointer.wrapping_add(
            next as i64,
        ), Step::Done, if to_reg { None } else { result })
    }
}

/// test r/m, r; mov r/m, r and mov r, r/m; movsxd r64, r/m32; and mov r/m, imm.
pub open spec fn mem_move_effect(c: Cpu, opcode: i32, code: Seq<u8>, osize: i32, next: int, loaded: i64) -> (Seq<i64>, i32, i64, Step, Option<i64>) {
    let reg = reg_field(c.rex, code[0] as i32);
    let past = c.instruction_pointer.wrapping_add(next as i64);
    if opcode == 0x85 {
        let dst = sized_spec(loaded, osize);
        let src = sized_spec(c.reg@[reg], osize);
        (c.reg@, logical_flags(c.flags, sized_spec(dst & src, osize)), past, Step::Done, None)
    } else if opcode == 0x89 {
        (c.reg@, c.flags, past, Step::Done, Some(c.reg@[reg]))
    } else if opcode == 0x8B {
        (c.reg@.update(reg, sized_write(c.reg@[reg], zero_ext(loaded, osize), osize)), c.flags, past, Step::Done, None)
    } else if opcode == 0x63 {
        (c.reg@.update(reg, loaded as u32 as i32 as i64), c.flags, past, Step::Done, None)
    } else if code.len() < next + imm_len(osize) {
        refused(c, Step::FetchFault)
    } else {
        (c.reg@, c.flags, c.instruction_pointer.wrapping_add((next + imm_len(osize)) as i64), Step::Done, Some(
            sized_spec(imm_osize_at(code, next, osize), osize),
        ))
    }
}

/// The shift group on memory: by an immediate (0xc1), by one (0xd1) and by cl (0xd3).
pub open spec fn mem_shift_effect(c: Cpu, opcode: i32, code: Seq<u8>, osize: i32, next: int, loaded: i64) -> (Seq<i64>, i32, i64, Step, Option<i64>) {
    let len: int = if opcode == 0xC1 { 1 } else { 0 };
    if code.len() < next + len {
        refused(c, Step::FetchFault)
    } else {
        let count: i32 = if opcode == 0xD1 {
            1
        } else if opcode == 0xD3 {
            (c.reg@[1] as u8) as i32
        } else {
            code[next] as i32
        };
        let (result, flags) = shift_op_spec((code[0] as i32) >> 3 & 7, zero_ext(loaded, osize), count, osize, c.flags);
        match result {
            Some(v) => (c.reg@, flags, c.instruction_pointer.wrapping_add((next + len) as i64), Step::Done, Some(v)),
            None => refused_past(c, next + len),
        }
    }
}

/// Group 3 on memory: test, not, neg, mul, imul, div and idiv.
pub open spec fn mem_group3_effect(c: Cpu, code: Seq<u8>, osize: i32, next: int, loaded: i64) -> (Seq<i64>, i32, i64, Step, Option<i64>) {
    let op = (code[0] as i32) >> 3 & 7;
    let dst = sized_spec(loaded, osize);
    let past = c.instruction_pointer.wrapping_add(next as i64);
    if op <= 1 {
        if code.len() < next + imm_len(osize) {
            refused(c, Step::FetchFault)
        } else {
            let imm = imm_osize_at(code, next, osize);
            (c.reg@, logical_flags(c.flags, sized_spec(dst & imm, osize)), c.instruction_pointer.wrapping_add(
                (next + imm_len(osize)) as i64,
            ), Step::Done, None)
        }
    } else if op == 2 {
        (c.reg@, c.flags, past, Step::Done, Some(sized_spec(!dst, osize)))
    } else if op == 3 {
        let r = sized_spec(0i64.wrapping_sub(dst), osize);
        (c.reg@, arith_flags(c.flags, 0, dst, r, true), past, Step::Done, Some(r))
    } else {
        match mul_div_effect(c.reg@, c.flags, op, dst, osize) {
            None => refused(c, Step::DivideError),
            Some((regs, flags)) => (regs, flags, past, Step::Done, None),
        }
    }
}

/// imul r, r/m, imm on memory: 0x69 with the immediate at the operand size, 0x6b with a sign
/// extended byte.
pub open spec fn mem_imul_imm_effect(c: Cpu, opcode: i32, code: Seq<u8>, osize: i32, next: int, loaded: i64) -> (Seq<i64>, i32, i64, Step, Option<i64>) {
    let len: int = if opcode == 0x6B { 1 } else { imm_len(osize) };
    if code.len() < next + len {
        refused(c, Step::FetchFault)
    } else {
        let src = sized_spec(loaded, osize);
        let imm = if opcode == 0x6B { imm8s_at(code, next) } else { imm_osize_at(code, next, osize) };
        let r = sized_spec((src * imm) as i64, osize);
        let reg = reg_field(c.rex, code[0] as i32);
        (c.reg@.update(reg, sized_write(c.reg@[reg], r, osize)), with_carry_overflow(
            c.flags,
            src * imm != r,
            src * imm != r,
        ), c.instruction_pointer.wrapping_add((next + len) as i64), Step::Done, None)
    }
}

/// The two byte instructions that read a memory operand into a register: cmov, imul, movzx and
/// movsx from a word, popcnt, bsf and bsr. `code[0]` is the second opcode byte.
pub open spec fn mem_load_0f_effect(c: Cpu, code: Seq<u8>, osize: i32, next: int, loaded: i64) -> (Seq<i64>, i32, i64, Step, Option<i64>) {
    let op = code[0] as i32;
    let reg = reg_field(c.rex, code[1] as i32);
    let past = c.instruction_pointer.wrapping_add(next as i64);
    let value = zero_ext(loaded, osize);
    if 0x40 <= op <= 0x4F {
        let chosen = if condition_holds(c.flags, op & 0xF) { value } else { c.reg@[reg] };
        (c.reg@.update(reg, sized_write(c.reg@[reg], chosen, osize)), c.flags, past, Step::Done, None)
    } else if op == 0xAF {
        let src = sized_spec(loaded, osize);
        let dst = sized_spec(c.reg@[reg], osize);
        let r = sized_spec((dst * src) as i64, osize);
        (c.reg@.update(reg, sized_write(c.reg@[reg], r, osize)), with_carry_overflow(
            c.flags,
            dst * src != r,
            dst * src != r,
        ), past, Step::Done, None)
    } else if op == 0xB7 || op == 0xBF {
        let word = (loaded as i32) & 0xFFFF;
        let extended: i64 = if op == 0xBF { word as i16 as i64 } else { word as i64 };
        (c.reg@.update(reg, sized_write(c.reg@[reg], extended, osize)), c.flags, past, Step::Done, None)
    } else if op == 0xB8 {
        let u = unsigned_at(value, osize as u32);
        (c.reg@.update(reg, sized_write(c.reg@[reg], popcount(u as nat) as i64, osize)), with_arith_flags(
            c.flags,
            false,
            false,
            false,
            u == 0,
            false,
            false,
        ), past, Step::Done, None)
    } else {
        let (index, flags) = bit_scan_spec(op == 0xBC, value, osize, c.flags);
        let regs = match index {
            Some(i) => c.reg@.update(reg, sized_write(c.reg@[reg], i, osize)),
            None => c.reg@,
        };
        (regs, flags, past, Step::Done, None)
    }
}

/// The two byte instructions that write their memory operand back: the bit tests with an
/// immediate index, cmpxchg and xadd. `code[0]` is the second opcode byte.
pub open spec fn mem_update_0f_effect(c: Cpu, code: Seq<u8>, osize: i32, next: int, loaded: i64) -> (Seq<i64>, i32, i64, Step, Option<i64>) {
    let op = code[0] as i32;
    let modrm = code[1] as i32;
    let reg = reg_field(c.rex, modrm);
    let dst_raw = zero_ext(loaded, osize);
    let dst = sized_spec(dst_raw, osize);
    if op == 0xBA {
        if code.len() < next + 1 {
            refused(c, Step::FetchFault)
        } else {
            let bit = code[next] as i32;
            (c.reg@, with_carry(c.flags, dst_raw & bit_mask(bit, osize) != 0), c.instruction_pointer.wrapping_add(
                (next + 1) as i64,
            ), Step::Done, bit_test_result(modrm >> 3 & 7, dst_raw, bit, osize))
        }
    } else if op == 0xC1 {
        let src = sized_spec(c.reg@[reg], osize);
        let sum = group1_result(0, dst, src, osize, has_flag(c.flags, FLAG_CARRY))->0;
        (c.reg@.update(reg, sized_write(c.reg@[reg], dst_raw, osize)), group1_flags(0, dst, src, osize, c.flags),
            c.instruction_pointer.wrapping_add(next as i64), Step::Done, Some(sum))
    } else {
        let acc = sized_spec(c.reg@[EAX as int], osize);
        let flags = group1_flags(7, acc, dst, osize, c.flags);
        if has_flag(flags, FLAG_ZERO) {
            (c.reg@, flags, c.instruction_pointer.wrapping_add(next as i64), Step::Done, Some(
                sized_spec(c.reg@[reg], osize),
            ))
        } else {
            (c.reg@.update(EAX as int, sized_write(c.reg@[EAX as int], dst_raw, osize)), flags,
                c.instruction_pointer.wrapping_add(next as i64), Step::Done, None)
        }
    }
}

/// The byte forms on memory that name no byte register: the arithmetic group with an imm8 (0x80),
/// the shifts by an immediate, by one and by cl (0xc0, 0xd0, 0xd2), mov of an imm8 (0xc6), group
/// 3 (0xf6), and inc and dec (0xfe), which leave carry alone.
pub open spec fn mem_byte_effect(c: Cpu, opcode: i32, code: Seq<u8>, next: int, loaded: i64) -> (Seq<i64>, i32, i64, Step, Option<i64>) {
    let op = (code[0] as i32) >> 3 & 7;
    let byte = loaded as u8 as i64;
    let dst = loaded as i8 as i64;
    let cf = has_flag(c.flags, FLAG_CARRY);
    let past = c.instruction_pointer.wrapping_add(next as i64);
    if opcode == 0x80 {
        if code.len() < next + 1 {
            refused(c, Step::FetchFault)
        } else {
            let imm = imm8s_at(code, next);
            (c.reg@, group1_flags(op, dst, imm, 8, c.flags), c.instruction_pointer.wrapping_add(
                (next + 1) as i64,
            ), Step::Done, group1_result(op, dst, imm, 8, cf))
        }
    } else if opcode == 0xC0 || opcode == 0xD0 || opcode == 0xD2 {
        let len: int = if opcode == 0xC0 { 1 } else { 0 };
        if code.len() < next + len {
            refused(c, Step::FetchFault)
        } else {
            let count: i32 = if opcode == 0xD0 {
                1
            } else if opcode == 0xD2 {
                (c.reg@[1] as u8) as i32
            } else {
                code[next] as i32
            };
            let (result, flags) = shift_op_spec(op, byte, count, 8, c.flags);
            match result {
                Some(v) => (c.reg@, flags, c.instruction_pointer.wrapping_add((next + len) as i64), Step::Done, Some(v)),
                None => refused_past(c, next + len),
            }
        }
    } else if opcode == 0xC6 {
        if code.len() < next + 1 {
            refused(c, Step::FetchFault)
        } else {
            (c.reg@, c.flags, c.instruction_pointer.wrapping_add((next + 1) as i64), Step::Done, Some(
                code[next] as i64,
            ))
        }
    } else if opcode == 0xF6 {
        if op <= 1 {
            if code.len() < next + 1 {
                refused(c, Step::FetchFault)
            } else {
                (c.reg@, logical_flags(c.flags, (dst & imm8s_at(code, next)) as i8 as i64),
                    c.instruction_pointer.wrapping_add((next + 1) as i64), Step::Done, None)
            }
        } else if op == 2 {
            (c.reg@, c.flags, past, Step::Done, Some((!dst) as i8 as i64))
        } else if op == 3 {
            let r = 0i64.wrapping_sub(dst) as i8 as i64;
            (c.reg@, arith_flags(c.flags, 0, dst, r, true), past, Step::Done, Some(r))
        } else {
            match mul_div_effect(c.reg@, c.flags, op, dst, 8) {
                None => refused(c, Step::DivideError),
                Some((regs, flags)) => (regs, flags, past, Step::Done, None),
            }
        }
    } else {
        let alu: i32 = if op == 0 { 0 } else { 5 };
        (c.reg@, with_carry(group1_flags(alu, dst, 1, 8, c.flags), cf), past, Step::Done, group1_result(
            alu,
            dst,
            1,
            8,
            cf,
        ))
    }
}

/// setcc with a memory operand, which stores 1 when the condition holds and 0 otherwise, and
/// movzx and movsx from a byte in memory. `code[0]` is the second opcode byte.
pub open spec fn mem_byte_0f_effect(c: Cpu, code: Seq<u8>, osize: i32, next: int, loaded: i64) -> (Seq<i64>, i32, i64, Step, Option<i64>) {
    let op = code[0] as i32;
    let past = c.instruction_pointer.wrapping_add(next as i64);
    if 0x90 <= op <= 0x9F {
        (c.reg@, c.flags, past, Step::Done, Some(if condition_holds(c.flags, op & 0xF) { 1i64 } else { 0i64 }))
    } else {
        let reg = reg_field(c.rex, code[1] as i32);
        let extended: i64 = if op == 0xBE { loaded as i8 as i64 } else { loaded as u8 as i64 };
        (c.reg@.update(reg, sized_write(c.reg@[reg], extended, osize)), c.flags, past, Step::Done, None)
    }
}

/// The instructions that change state only once their store has gone through: xchg r/m, r and
/// xchg r/m8, r8 (0x86), which store the register and then load it with what the operand held, and
/// shld and shrd (0xa4 and
/// 0xac with an immediate count, 0xa5 and 0xad by cl), which store the result and then set the
/// flags. A count of zero stores the operand back as it was and leaves the flags alone; a 16-bit
/// operand with a count above 16 has no defined result and is not implemented.
pub open spec fn mem_deferred_effect(c: Cpu, opcode: i32, code: Seq<u8>, osize: i32, next: int, loaded: i64) -> (Seq<i64>, i32, i64, Step, Option<i64>, AfterStore) {
    let past = c.instruction_pointer.wrapping_add(next as i64);
    let dst = zero_ext(loaded, osize);
    if opcode == 0x87 {
        let reg = reg_field(c.rex, code[0] as i32);
        (c.reg@, c.flags, past, Step::Done, Some(sized_spec(c.reg@[reg], osize)), AfterStore::Register {
            reg: reg as i32,
            value: dst,
            osize,
        })
    } else if opcode == 0x86 {
        let reg = reg_field(c.rex, code[0] as i32);
        (c.reg@, c.flags, past, Step::Done, Some(byte_reg(c.reg@, c.rex, reg)), AfterStore::Byte {
            reg: reg as i32,
            value: loaded,
        })
    } else {
        let op = code[0] as i32;
        let imm = op & 1 == 0;
        let len: int = if imm { 1 } else { 0 };
        if code.len() < next + len {
            plain(refused(c, Step::FetchFault))
        } else {
            let raw: i32 = if imm { code[next] as i32 } else { (c.reg@[1] as u8) as i32 };
            if osize == 16 && shift_count(raw, osize) > 16 {
                plain(refused_past(c, next + len))
            } else {
                let fill = c.reg@[reg_field(c.rex, code[1] as i32)];
                let (r, flags) = double_shift_spec(op < 0xAC, dst, fill, raw, osize, c.flags);
                (c.reg@, c.flags, c.instruction_pointer.wrapping_add((next + len) as i64), Step::Done, Some(r),
                    AfterStore::Flags(flags))
            }
        }
    }
}

/// The byte forms on memory that name a byte register: the arithmetic group `op r/m8, r8` and
/// `op r8, r/m8`, test r/m8, r8 (0x84), mov r/m8, r8 (0x88) and mov r8, r/m8 (0x8a); and of the
/// two byte map (`code[0]` the second opcode byte) cmpxchg r/m8, r8 (0xb0), which compares al with
/// the operand and then either stores the register or loads al, and xadd r/m8, r8 (0xc0), which
/// gives the register the operand's old value and stores the sum.
pub open spec fn mem_byte_reg_effect(c: Cpu, opcode: i32, code: Seq<u8>, next: int, loaded: i64) -> (Seq<i64>, i32, i64, Step, Option<i64>) {
    let modrm: i32 = if opcode == 0x0F { code[1] as i32 } else { code[0] as i32 };
    let reg = reg_field(c.rex, modrm);
    let r = byte_reg(c.reg@, c.rex, reg);
    let m = sext8(loaded);
    let past = c.instruction_pointer.wrapping_add(next as i64);
    if opcode == 0x0F {
        if code[0] == 0xB0 {
            let flags = group1_flags(7, sext8(byte_reg(c.reg@, c.rex, 0)), m, 8, c.flags);
            if has_flag(flags, FLAG_ZERO) {
                (c.reg@, flags, past, Step::Done, Some(r))
            } else {
                (with_byte_reg(c.reg@, c.rex, 0, loaded), flags, past, Step::Done, None)
            }
        } else {
            (with_byte_reg(c.reg@, c.rex, reg, loaded), group1_flags(0, m, sext8(r), 8, c.flags), past, Step::Done,
                group1_result(0, m, sext8(r), 8, has_flag(c.flags, FLAG_CARRY)))
        }
    } else if opcode == 0x84 {
        (c.reg@, logical_flags(c.flags, sext8(loaded & r)), past, Step::Done, None)
    } else if opcode == 0x88 {
        (c.reg@, c.flags, past, Step::Done, Some(r))
    } else if opcode == 0x8A {
        (with_byte_reg(c.reg@, c.rex, reg, loaded), c.flags, past, Step::Done, None)
    } else {
        let to_reg = opcode & 2 != 0;
        let dst = if to_reg { sext8(r) } else { m };
        let src = if to_reg { m } else { sext8(r) };
        let op = opcode >> 3 & 7;
        let result = group1_result(op, dst, src, 8, has_flag(c.flags, FLAG_CARRY));
        let regs = match result {
            Some(v) => if to_reg { with_byte_reg(c.reg@, c.rex, reg, v) } else { c.reg@ },
            None => c.reg@,
        };
        (regs, group1_flags(op, dst, src, 8, c.flags), past, Step::Done, if to_reg { None } else { result })
    }
}

/// movnti (0x0f 0xc3) on memory: stores the register, 64 bits under rex.w and otherwise its low
/// 32. `code[0]` is the second opcode byte.
pub open spec fn mem_movnti_effect(c: Cpu, code: Seq<u8>, next: int) -> (Seq<i64>, i32, i64, Step, Option<i64>) {
    (c.reg@, c.flags, c.instruction_pointer.wrapping_add(next as i64), Step::Done, Some(
        c.reg@[reg_field(c.rex, code[1] as i32)],
    ))
}

/// The 0xff group on memory, `code[0]` its modrm: inc and dec, which leave carry alone, and jmp
/// through a 64-bit pointer.
pub open spec fn mem_ff_effect(c: Cpu, code: Seq<u8>, osize: i32, next: int, loaded: i64) -> (Seq<i64>, i32, i64, Step, Option<i64>) {
    let op = (code[0] as i32) >> 3 & 7;
    if op == 4 {
        (c.reg@, c.flags, loaded, Step::Done, None)
    } else {
        let dst = sized_spec(loaded, osize);
        let alu: i32 = if op == 0 { 0 } else { 5 };
        let cf = has_flag(c.flags, FLAG_CARRY);
        (c.reg@, with_carry(group1_flags(alu, dst, 1, osize, c.flags), cf), c.instruction_pointer.wrapping_add(
            next as i64,
        ), Step::Done, group1_result(alu, dst, 1, osize, cf))
    }
}

/// The instruction with its operand decoded, `next` indexing the byte after the operand's
/// address in `code`.
#[verifier::opaque]
pub open spec fn memory_dispatch(c: Cpu, opcode: i32, code: Seq<u8>, osize: i32, next: int, loaded: i64) -> (Seq<i64>, i32, i64, Step, Option<i64>, AfterStore) {
    if opcode == 0x0F {
        let op = code[0] as i32;
        if op == 0xBA || op == 0xB1 || op == 0xC1 {
            plain(mem_update_0f_effect(c, code, osize, next, loaded))
        } else if op == 0xA4 || op == 0xA5 || op == 0xAC || op == 0xAD {
            mem_deferred_effect(c, opcode, code, osize, next, loaded)
        } else if (0x90 <= op <= 0x9F) || op == 0xB6 || op == 0xBE {
            plain(mem_byte_0f_effect(c, code, osize, next, loaded))
        } else if op == 0xB0 || op == 0xC0 {
            plain(mem_byte_reg_effect(c, opcode, code, next, loaded))
        } else if op == 0xC3 {
            plain(mem_movnti_effect(c, code, next))
        } else {
            plain(mem_load_0f_effect(c, code, osize, next, loaded))
        }
    } else if opcode == 0x87 || opcode == 0x86 {
        mem_deferred_effect(c, opcode, code, osize, next, loaded)
    } else if opcode == 0xFF {
        plain(mem_ff_effect(c, code, osize, next, loaded))
    } else if 0 <= opcode < 0x40 && (opcode & 7 == 0 || opcode & 7 == 2) || opcode == 0x84 || opcode == 0x88
        || opcode == 0x8A {
        plain(mem_byte_reg_effect(c, opcode, code, next, loaded))
    } else if opcode == 0x80 || opcode == 0xC0 || opcode == 0xD0 || opcode == 0xD2 || opcode == 0xC6 || opcode
        == 0xF6 || opcode == 0xFE {
        plain(mem_byte_effect(c, opcode, code, next, loaded))
    } else if opcode == 0x81 || opcode == 0x83 || (0 <= opcode < 0x40) {
        plain(mem_group1_effect(c, opcode, code, osize, next, loaded))
    } else if opcode == 0x85 || opcode == 0x89 || opcode == 0x8B || opcode == 0x63 || opcode == 0xC7 {
        plain(mem_move_effect(c, opcode, code, osize, next, loaded))
    } else if opcode == 0xC1 || opcode == 0xD1 || opcode == 0xD3 {
        plain(mem_shift_effect(c, opcode, code, osize, next, loaded))
    } else if opcode == 0xF7 {
        plain(mem_group3_effect(c, code, osize, next, loaded))
    } else {
        plain(mem_imul_imm_effect(c, opcode, code, osize, next, loaded))
    }
}

/// What `run_memory` does: the registers, the flags, the instruction pointer, how it ended, the
/// value to store at the operand and what is left for after the store, given `loaded`, the value
/// the caller read there.
pub open spec fn memory_effect(c: Cpu, opcode: i32, code: Seq<u8>, opsize_prefix: bool, rep_prefix: bool, seg_base: i64, loaded: i64) -> (Seq<i64>, i32, i64, Step, Option<i64>, AfterStore) {
    let osize = operand_size(c.rex, opsize_prefix);
    match memory_operand_spec(c, opcode, code, opsize_prefix, rep_prefix, seg_base) {
        Err(step) => plain(refused(c, step)),
        Ok(_) => {
            let (at, imm_bytes, width, read) = memory_layout(opcode, code, osize, rep_prefix)->0;
            let (addr, used) = operand_address(c, code, at, imm_bytes, seg_base)->0;
            memory_dispatch(c, opcode, code, osize, at + 1 + used, loaded)
        },
    }
}

fn layout_of(opcode: i32, code: &[u8], osize: i32, rep_prefix: bool) -> (r: Option<(usize, i32, i32, bool)>)
    requires
        osize == 16 || osize == 32 || osize == 64,
    ensures
        match memory_layout(opcode, code@, osize, rep_prefix) {
            None => r is None,
            Some((at, imm_bytes, width, read)) => r == Some((at as usize, imm_bytes, width, read)) && (at == 0 || at
                == 1) && 0 <= imm_bytes <= 4,
        },
{
    let m: i32 = if code.len() >= 1 {
        code[0] as i32
    } else {
        0
    };
    let m2: i32 = if code.len() >= 2 {
        code[1] as i32
    } else {
        0
    };
    let imm: i32 = if osize == 16 {
        2
    } else {
        4
    };
    if opcode == 0x0F {
        if code.len() < 1 {
            None
        } else if (0x40 <= m && m <= 0x4F) || m == 0xAF || m == 0xBC || m == 0xBD || m == 0xB1 || m == 0xC1
            || (m == 0xB8 && rep_prefix) {
            Some((1, 0, osize, true))
        } else if m == 0xB7 || m == 0xBF {
            Some((1, 0, 16, true))
        } else if m == 0xBA && 4 <= m2 >> 3 & 7 && m2 >> 3 & 7 <= 7 {
            Some((1, 1, osize, true))
        } else if m == 0xA4 || m == 0xAC {
            Some((1, 1, osize, true))
        } else if m == 0xA5 || m == 0xAD {
            Some((1, 0, osize, true))
        } else if 0x90 <= m && m <= 0x9F {
            Some((1, 0, 8, false))
        } else if m == 0xB6 || m == 0xBE || m == 0xB0 || m == 0xC0 {
            Some((1, 0, 8, true))
        } else if m == 0xC3 {
            Some((1, 0, if osize == 64 {
                64
            } else {
                32
            }, false))
        } else {
            None
        }
    } else if opcode == 0xFF {
        if m >> 3 & 7 <= 1 {
            Some((0, 0, osize, true))
        } else if m >> 3 & 7 == 4 {
            Some((0, 0, 64, true))
        } else {
            None
        }
    } else if (0 <= opcode && opcode < 0x40 && (opcode & 7 == 0 || opcode & 7 == 2)) || opcode == 0x84
        || opcode == 0x86 || opcode == 0x8A {
        Some((0, 0, 8, true))
    } else if opcode == 0x88 {
        Some((0, 0, 8, false))
    } else if opcode == 0x80 || opcode == 0xC0 {
        Some((0, 1, 8, true))
    } else if opcode == 0xD0 || opcode == 0xD2 || (opcode == 0xFE && m >> 3 & 7 <= 1) {
        Some((0, 0, 8, true))
    } else if opcode == 0xC6 && m >> 3 & 7 == 0 {
        Some((0, 1, 8, false))
    } else if opcode == 0xF6 {
        Some((0, if m >> 3 & 7 <= 1 {
            1
        } else {
            0
        }, 8, true))
    } else if 0 <= opcode && opcode < 0x40 && (opcode & 7 == 1 || opcode & 7 == 3) {
        Some((0, 0, osize, true))
    } else if opcode == 0x81 {
        Some((0, imm, osize, true))
    } else if opcode == 0x83 || opcode == 0xC1 {
        Some((0, 1, osize, true))
    } else if opcode == 0x85 || opcode == 0x87 || opcode == 0x8B || opcode == 0xD1 || opcode == 0xD3 {
        Some((0, 0, osize, true))
    } else if opcode == 0x89 {
        Some((0, 0, osize, false))
    } else if opcode == 0x63 && osize == 64 {
        Some((0, 0, 32, true))
    } else if opcode == 0xC7 && m >> 3 & 7 == 0 {
        Some((0, imm, osize, false))
    } else if opcode == 0xF7 {
        Some((0, if m >> 3 & 7 <= 1 {
            imm
        } else {
            0
        }, osize, true))
    } else if opcode == 0x69 {
        Some((0, imm, osize, true))
    } else if opcode == 0x6B {
        Some((0, 1, osize, true))
    } else {
        None
    }
}

impl Cpu {
    /// The address of the memory operand whose modrm is `code[at]`, and how many bytes after the
    /// modrm it took.
    pub fn operand_address_of(&self, code: &[u8], at: usize, imm_bytes: i32, seg_base: i64) -> (r: Result<(i64, usize), ()>)
        requires
            at <= 1,
            at < code@.len(),
            0 <= code@[at as int] < 0xC0,
        ensures
            match operand_address(*self, code@, at as int, imm_bytes, seg_base) {
                None => r is Err,
                Some((addr, used)) => r == Ok::<(i64, usize), ()>((addr, used as usize)) && 0 <= used && at + 1
                    + used <= code@.len(),
            },
    {
        reveal(operand_address);
        let (_, rest) = code.split_at(at + 1);
        let ip = self.instruction_pointer.wrapping_add((at + 1) as i64);
        match resolve_address(self.rex, &self.reg, ip, code[at] as i32, rest, imm_bytes) {
            Ok((addr, used)) => Ok((seg_base.wrapping_add(addr), used)),
            Err(()) => Err(()),
        }
    }

    /// Decodes the memory operand of the instruction `run` left to the caller: its address, the
    /// segment base `seg_base` added, its width, and whether the instruction reads it. `Err` says
    /// there is none to hand out: `FetchFault` when the code ends inside the modrm or the address,
    /// `Outside` when the caller carries out the instruction's memory form itself.
    pub fn memory_operand(&self, opcode: i32, code: &[u8], opsize_prefix: bool, rep_prefix: bool, seg_base: i64) -> (r: Result<MemoryOperand, Step>)
        ensures
            r == memory_operand_spec(*self, opcode, code@, opsize_prefix, rep_prefix, seg_base),
    {
        let osize = operand_size_of(self.rex, opsize_prefix);
        if opcode == 0x0F && code.len() < 1 {
            return Err(Step::FetchFault);
        }
        match layout_of(opcode, code, osize, rep_prefix) {
            None => Err(Step::Outside),
            Some((at, imm_bytes, width, read)) => {
                if code.len() <= at {
                    return Err(Step::FetchFault);
                }
                if code[at] as i32 >= 0xC0 {
                    return Err(Step::Outside);
                }
                match self.operand_address_of(code, at, imm_bytes, seg_base) {
                    Err(()) => Err(Step::FetchFault),
                    Ok((addr, _)) => Ok(MemoryOperand { addr, width, read }),
                }
            },
        }
    }

    fn mem_byte(&mut self, opcode: i32, code: &[u8], next: usize, loaded: i64) -> (r: (Step, Option<i64>))
        requires
            1 <= next <= code@.len(),
        ensures
            (final(self).reg@, final(self).flags, final(self).instruction_pointer, r.0, r.1) == mem_byte_effect(
                *old(self),
                opcode,
                code@,
                next as int,
                loaded,
            ),
            final(self).rex == old(self).rex,
    {
        let op = code[0] as i32 >> 3 & 7;
        proof {
            lemma_modrm_fields(code[0] as i32, 0, 0);
        }
        let byte = loaded as u8 as i64;
        let dst = loaded as i8 as i64;
        if opcode == 0x80 {
            if code.len() - next < 1 {
                return (Step::FetchFault, None);
            }
            let imm = read_imm8s(code, next);
            let result = self.group1_op(op, dst, imm, 8);
            self.instruction_pointer = self.instruction_pointer.wrapping_add((next + 1) as i64);
            (Step::Done, result)
        } else if opcode == 0xC0 || opcode == 0xD0 || opcode == 0xD2 {
            let len: usize = if opcode == 0xC0 {
                1
            } else {
                0
            };
            if code.len() - next < len {
                return (Step::FetchFault, None);
            }
            let count: i32 = if opcode == 0xD0 {
                1
            } else if opcode == 0xD2 {
                (self.reg[1] as u8) as i32
            } else {
                code[next] as i32
            };
            let ghost before = *self;
            match self.shift_op(op, byte, count, 8) {
                Some(result) => {
                    self.instruction_pointer = self.instruction_pointer.wrapping_add((next + len) as i64);
                    (Step::Done, Some(result))
                },
                None => {
                    proof {
                        assert(self.flags == before.flags);
                    }
                    self.instruction_pointer = self.instruction_pointer.wrapping_add((next + len) as i64);
                    (Step::Unimplemented, None)
                },
            }
        } else if opcode == 0xC6 {
            if code.len() - next < 1 {
                return (Step::FetchFault, None);
            }
            let imm = code[next] as i64;
            self.instruction_pointer = self.instruction_pointer.wrapping_add((next + 1) as i64);
            (Step::Done, Some(imm))
        } else if opcode == 0xF6 {
            if op <= 1 {
                if code.len() - next < 1 {
                    return (Step::FetchFault, None);
                }
                let imm = read_imm8s(code, next);
                self.set_flags64_logical((dst & imm) as i8 as i64);
                self.instruction_pointer = self.instruction_pointer.wrapping_add((next + 1) as i64);
                (Step::Done, None)
            } else if op == 2 {
                self.instruction_pointer = self.instruction_pointer.wrapping_add(next as i64);
                (Step::Done, Some((!dst) as i8 as i64))
            } else if op == 3 {
                let r = 0i64.wrapping_sub(dst) as i8 as i64;
                self.set_flags64(0, dst, r, true);
                self.instruction_pointer = self.instruction_pointer.wrapping_add(next as i64);
                (Step::Done, Some(r))
            } else {
                match self.mul_div_op(op, dst, 8) {
                    Ok(()) => {
                        self.instruction_pointer = self.instruction_pointer.wrapping_add(next as i64);
                        (Step::Done, None)
                    },
                    Err(_) => (Step::DivideError, None),
                }
            }
        } else {
            // inc and dec are add and sub that leave carry alone
            let carry = 0 != self.flags & FLAG_CARRY;
            let result = self.group1_op(if op == 0 {
                0
            } else {
                5
            }, dst, 1, 8);
            self.flags = self.flags & !FLAG_CARRY | if carry {
                FLAG_CARRY
            } else {
                0
            };
            self.instruction_pointer = self.instruction_pointer.wrapping_add(next as i64);
            (Step::Done, result)
        }
    }

    fn mem_byte_reg(&mut self, opcode: i32, code: &[u8], next: usize, loaded: i64) -> (r: (Step, Option<i64>))
        requires
            1 <= next <= code@.len(),
            opcode == 0x0F ==> 2 <= next,
        ensures
            (final(self).reg@, final(self).flags, final(self).instruction_pointer, r.0, r.1) == mem_byte_reg_effect(
                *old(self),
                opcode,
                code@,
                next as int,
                loaded,
            ),
            final(self).rex == old(self).rex,
    {
        let modrm: i32 = if opcode == 0x0F {
            code[1] as i32
        } else {
            code[0] as i32
        };
        let reg = self.modrm_reg(modrm);
        let r = self.read_reg8(reg);
        let m = loaded as i8 as i64;
        if opcode == 0x0F {
            if code[0] == 0xB0 {
                let acc = self.read_reg8(0) as i8 as i64;
                self.group1_op(7, acc, m, 8);
                self.instruction_pointer = self.instruction_pointer.wrapping_add(next as i64);
                if 0 != self.flags & FLAG_ZERO {
                    (Step::Done, Some(r))
                } else {
                    self.write_reg8(0, loaded);
                    (Step::Done, None)
                }
            } else {
                let sum = self.group1_op(0, m, r as i8 as i64, 8);
                self.write_reg8(reg, loaded);
                self.instruction_pointer = self.instruction_pointer.wrapping_add(next as i64);
                (Step::Done, sum)
            }
        } else if opcode == 0x84 {
            self.set_flags64_logical((loaded & r) as i8 as i64);
            self.instruction_pointer = self.instruction_pointer.wrapping_add(next as i64);
            (Step::Done, None)
        } else if opcode == 0x88 {
            self.instruction_pointer = self.instruction_pointer.wrapping_add(next as i64);
            (Step::Done, Some(r))
        } else if opcode == 0x8A {
            self.write_reg8(reg, loaded);
            self.instruction_pointer = self.instruction_pointer.wrapping_add(next as i64);
            (Step::Done, None)
        } else {
            let to_reg = opcode & 2 != 0;
            let rs = r as i8 as i64;
            let (dst, src) = if to_reg {
                (rs, m)
            } else {
                (m, rs)
            };
            let result = self.group1_op(opcode >> 3 & 7, dst, src, 8);
            self.instruction_pointer = self.instruction_pointer.wrapping_add(next as i64);
            if to_reg {
                match result {
                    Some(v) => self.write_reg8(reg, v),
                    None => {},
                }
                (Step::Done, None)
            } else {
                (Step::Done, result)
            }
        }
    }

    fn mem_ff(&mut self, code: &[u8], osize: i32, next: usize, loaded: i64) -> (r: (Step, Option<i64>))
        requires
            osize == 16 || osize == 32 || osize == 64,
            1 <= next <= code@.len(),
        ensures
            (final(self).reg@, final(self).flags, final(self).instruction_pointer, r.0, r.1) == mem_ff_effect(
                *old(self),
                code@,
                osize,
                next as int,
                loaded,
            ),
            final(self).rex == old(self).rex,
    {
        let op = code[0] as i32 >> 3 & 7;
        if op == 4 {
            self.instruction_pointer = loaded;
            return (Step::Done, None);
        }
        let dst = sized(loaded, osize);
        // inc and dec are add and sub that leave carry alone
        let carry = 0 != self.flags & FLAG_CARRY;
        let result = self.group1_op(if op == 0 {
            0
        } else {
            5
        }, dst, 1, osize);
        self.flags = self.flags & !FLAG_CARRY | if carry {
            FLAG_CARRY
        } else {
            0
        };
        self.instruction_pointer = self.instruction_pointer.wrapping_add(next as i64);
        (Step::Done, result)
    }

    fn mem_byte_0f(&mut self, code: &[u8], osize: i32, next: usize, loaded: i64) -> (r: (Step, Option<i64>))
        requires
            osize == 16 || osize == 32 || osize == 64,
            2 <= next <= code@.len(),
        ensures
            (final(self).reg@, final(self).flags, final(self).instruction_pointer, r.0, r.1) == mem_byte_0f_effect(
                *old(self),
                code@,
                osize,
                next as int,
                loaded,
            ),
            final(self).rex == old(self).rex,
    {
        let op = code[0] as i32;
        if 0x90 <= op && op <= 0x9F {
            let value: i64 = if self.test_condition(op & 0xF) {
                1
            } else {
                0
            };
            self.instruction_pointer = self.instruction_pointer.wrapping_add(next as i64);
            (Step::Done, Some(value))
        } else {
            let reg = self.modrm_reg(code[1] as i32);
            let extended: i64 = if op == 0xBE {
                loaded as i8 as i64
            } else {
                loaded as u8 as i64
            };
            self.write_reg_sized(reg, extended, osize);
            self.instruction_pointer = self.instruction_pointer.wrapping_add(next as i64);
            (Step::Done, None)
        }
    }

    fn mem_group1(&mut self, opcode: i32, code: &[u8], osize: i32, next: usize, loaded: i64) -> (r: (Step, Option<i64>))
        requires
            osize == 16 || osize == 32 || osize == 64,
            1 <= next <= code@.len(),
        ensures
            (final(self).reg@, final(self).flags, final(self).instruction_pointer, r.0, r.1) == mem_group1_effect(
                *old(self),
                opcode,
                code@,
                osize,
                next as int,
                loaded,
            ),
            final(self).rex == old(self).rex,
    {
        let modrm = code[0] as i32;
        let m = sized(loaded, osize);
        if opcode == 0x81 || opcode == 0x83 {
            let len: usize = if opcode == 0x83 {
                1
            } else if osize == 16 {
                2
            } else {
                4
            };
            if code.len() - next < len {
                return (Step::FetchFault, None);
            }
            let imm = if opcode == 0x83 {
                read_imm8s(code, next)
            } else {
                read_imm_osize(code, next, osize)
            };
            let result = self.group1_op(modrm >> 3 & 7, m, sized(imm, osize), osize);
            self.instruction_pointer = self.instruction_pointer.wrapping_add((next + len) as i64);
            (Step::Done, result)
        } else {
            let reg = self.modrm_reg(modrm);
            let r = sized(self.reg[reg as usize], osize);
            let to_reg = opcode & 2 != 0;
            let (dst, src) = if to_reg {
                (r, m)
            } else {
                (m, r)
            };
            let result = self.group1_op(opcode >> 3 & 7, dst, src, osize);
            self.instruction_pointer = self.instruction_pointer.wrapping_add(next as i64);
            if to_reg {
                match result {
                    Some(v) => self.write_reg_sized(reg, v, osize),
                    None => {},
                }
                (Step::Done, None)
            } else {
                (Step::Done, result)
            }
        }
    }

    fn mem_move(&mut self, opcode: i32, code: &[u8], osize: i32, next: usize, loaded: i64) -> (r: (Step, Option<i64>))
        requires
            osize == 16 || osize == 32 || osize == 64,
            1 <= next <= code@.len(),
        ensures
            (final(self).reg@, final(self).flags, final(self).instruction_pointer, r.0, r.1) == mem_move_effect(
                *old(self),
                opcode,
                code@,
                osize,
                next as int,
                loaded,
            ),
            final(self).rex == old(self).rex,
    {
        let reg = self.modrm_reg(code[0] as i32);
        if opcode == 0x85 {
            let dst = sized(loaded, osize);
            let src = sized(self.reg[reg as usize], osize);
            self.set_flags64_logical(sized(dst & src, osize));
            self.instruction_pointer = self.instruction_pointer.wrapping_add(next as i64);
            (Step::Done, None)
        } else if opcode == 0x89 {
            let value = self.reg[reg as usize];
            self.instruction_pointer = self.instruction_pointer.wrapping_add(next as i64);
            (Step::Done, Some(value))
        } else if opcode == 0x8B {
            let value = match osize {
                16 => loaded as u16 as i64,
                32 => loaded as u32 as i64,
                _ => loaded,
            };
            self.write_reg_sized(reg, value, osize);
            self.instruction_pointer = self.instruction_pointer.wrapping_add(next as i64);
            (Step::Done, None)
        } else if opcode == 0x63 {
            // the read zero extends at 32, so the sign extension is done here
            self.write_reg64(reg, loaded as u32 as i32 as i64);
            self.instruction_pointer = self.instruction_pointer.wrapping_add(next as i64);
            (Step::Done, None)
        } else {
            let len: usize = if osize == 16 {
                2
            } else {
                4
            };
            if code.len() - next < len {
                return (Step::FetchFault, None);
            }
            let imm = read_imm_osize(code, next, osize);
            self.instruction_pointer = self.instruction_pointer.wrapping_add((next + len) as i64);
            (Step::Done, Some(sized(imm, osize)))
        }
    }

    fn mem_shift(&mut self, opcode: i32, code: &[u8], osize: i32, next: usize, loaded: i64) -> (r: (Step, Option<i64>))
        requires
            osize == 16 || osize == 32 || osize == 64,
            opcode == 0xC1 || opcode == 0xD1 || opcode == 0xD3,
            1 <= next <= code@.len(),
        ensures
            (final(self).reg@, final(self).flags, final(self).instruction_pointer, r.0, r.1) == mem_shift_effect(
                *old(self),
                opcode,
                code@,
                osize,
                next as int,
                loaded,
            ),
            final(self).rex == old(self).rex,
    {
        let len: usize = if opcode == 0xC1 {
            1
        } else {
            0
        };
        if code.len() - next < len {
            return (Step::FetchFault, None);
        }
        let count: i32 = if opcode == 0xD1 {
            1
        } else if opcode == 0xD3 {
            (self.reg[1] as u8) as i32
        } else {
            code[next] as i32
        };
        let value = match osize {
            16 => loaded as u16 as i64,
            32 => loaded as u32 as i64,
            _ => loaded,
        };
        let ghost before = *self;
        match self.shift_op(code[0] as i32 >> 3 & 7, value, count, osize) {
            Some(result) => {
                self.instruction_pointer = self.instruction_pointer.wrapping_add((next + len) as i64);
                (Step::Done, Some(result))
            },
            None => {
                proof {
                    assert(self.flags == before.flags);
                }
                self.instruction_pointer = self.instruction_pointer.wrapping_add((next + len) as i64);
                (Step::Unimplemented, None)
            },
        }
    }

    fn mem_group3(&mut self, code: &[u8], osize: i32, next: usize, loaded: i64) -> (r: (Step, Option<i64>))
        requires
            osize == 16 || osize == 32 || osize == 64,
            1 <= next <= code@.len(),
        ensures
            (final(self).reg@, final(self).flags, final(self).instruction_pointer, r.0, r.1) == mem_group3_effect(
                *old(self),
                code@,
                osize,
                next as int,
                loaded,
            ),
            final(self).rex == old(self).rex,
    {
        let modrm = code[0] as i32;
        let op = modrm >> 3 & 7;
        proof {
            lemma_modrm_fields(modrm, 0, 0);
        }
        let dst = sized(loaded, osize);
        if op <= 1 {
            let len: usize = if osize == 16 {
                2
            } else {
                4
            };
            if code.len() - next < len {
                return (Step::FetchFault, None);
            }
            let imm = read_imm_osize(code, next, osize);
            self.set_flags64_logical(sized(dst & imm, osize));
            self.instruction_pointer = self.instruction_pointer.wrapping_add((next + len) as i64);
            (Step::Done, None)
        } else if op == 2 {
            self.instruction_pointer = self.instruction_pointer.wrapping_add(next as i64);
            (Step::Done, Some(sized(!dst, osize)))
        } else if op == 3 {
            let r = sized(0i64.wrapping_sub(dst), osize);
            self.set_flags64(0, dst, r, true);
            self.instruction_pointer = self.instruction_pointer.wrapping_add(next as i64);
            (Step::Done, Some(r))
        } else {
            match self.mul_div_op(op, dst, osize) {
                Ok(()) => {
                    self.instruction_pointer = self.instruction_pointer.wrapping_add(next as i64);
                    (Step::Done, None)
                },
                Err(_) => (Step::DivideError, None),
            }
        }
    }

    fn mem_imul_imm(&mut self, opcode: i32, code: &[u8], osize: i32, next: usize, loaded: i64) -> (r: (Step, Option<i64>))
        requires
            osize == 16 || osize == 32 || osize == 64,
            1 <= next <= code@.len(),
        ensures
            (final(self).reg@, final(self).flags, final(self).instruction_pointer, r.0, r.1) == mem_imul_imm_effect(
                *old(self),
                opcode,
                code@,
                osize,
                next as int,
                loaded,
            ),
            final(self).rex == old(self).rex,
    {
        let len: usize = if opcode == 0x6B {
            1
        } else if osize == 16 {
            2
        } else {
            4
        };
        if code.len() - next < len {
            return (Step::FetchFault, None);
        }
        let src = sized(loaded, osize);
        let imm = if opcode == 0x6B {
            read_imm8s(code, next)
        } else {
            read_imm_osize(code, next, osize)
        };
        let result = self.imul_op(src, imm, osize);
        let reg = self.modrm_reg(code[0] as i32);
        self.write_reg_sized(reg, result, osize);
        self.instruction_pointer = self.instruction_pointer.wrapping_add((next + len) as i64);
        (Step::Done, None)
    }

    fn mem_load_0f(&mut self, code: &[u8], osize: i32, next: usize, loaded: i64) -> (r: (Step, Option<i64>))
        requires
            osize == 16 || osize == 32 || osize == 64,
            2 <= next <= code@.len(),
        ensures
            (final(self).reg@, final(self).flags, final(self).instruction_pointer, r.0, r.1) == mem_load_0f_effect(
                *old(self),
                code@,
                osize,
                next as int,
                loaded,
            ),
            final(self).rex == old(self).rex,
    {
        let op = code[0] as i32;
        let reg = self.modrm_reg(code[1] as i32);
        let value = match osize {
            16 => loaded as u16 as i64,
            32 => loaded as u32 as i64,
            _ => loaded,
        };
        if 0x40 <= op && op <= 0x4F {
            let chosen = if self.test_condition(op & 0xF) {
                value
            } else {
                self.reg[reg as usize]
            };
            self.write_reg_sized(reg, chosen, osize);
        } else if op == 0xAF {
            let dst = sized(self.reg[reg as usize], osize);
            let result = self.imul_op(dst, sized(loaded, osize), osize);
            self.write_reg_sized(reg, result, osize);
        } else if op == 0xB7 || op == 0xBF {
            let word = (loaded as i32) & 0xFFFF;
            let extended: i64 = if op == 0xBF {
                word as i16 as i64
            } else {
                word as i64
            };
            self.write_reg_sized(reg, extended, osize);
        } else if op == 0xB8 {
            let count = self.popcnt_op(value, osize);
            self.write_reg_sized(reg, count, osize);
        } else {
            match self.bit_scan(op == 0xBC, value, osize) {
                Some(index) => self.write_reg_sized(reg, index, osize),
                None => {},
            }
        }
        self.instruction_pointer = self.instruction_pointer.wrapping_add(next as i64);
        (Step::Done, None)
    }

    fn mem_update_0f(&mut self, code: &[u8], osize: i32, next: usize, loaded: i64) -> (r: (Step, Option<i64>))
        requires
            osize == 16 || osize == 32 || osize == 64,
            2 <= next <= code@.len(),
        ensures
            (final(self).reg@, final(self).flags, final(self).instruction_pointer, r.0, r.1) == mem_update_0f_effect(
                *old(self),
                code@,
                osize,
                next as int,
                loaded,
            ),
            final(self).rex == old(self).rex,
    {
        let op = code[0] as i32;
        let modrm = code[1] as i32;
        let reg = self.modrm_reg(modrm);
        let dst_raw = match osize {
            16 => loaded as u16 as i64,
            32 => loaded as u32 as i64,
            _ => loaded,
        };
        let dst = sized(dst_raw, osize);
        if op == 0xBA {
            if code.len() - next < 1 {
                return (Step::FetchFault, None);
            }
            let bit = code[next] as i32;
            let result = self.bit_test_op(modrm >> 3 & 7, dst_raw, bit, osize);
            self.instruction_pointer = self.instruction_pointer.wrapping_add((next + 1) as i64);
            (Step::Done, result)
        } else if op == 0xC1 {
            let src = sized(self.reg[reg as usize], osize);
            let sum = match self.group1_op(0, dst, src, osize) {
                Some(v) => v,
                None => {
                    // add always produces a value
                    return (Step::Unimplemented, None);
                },
            };
            // the register takes the old value before the sum is stored
            self.write_reg_sized(reg, dst_raw, osize);
            self.instruction_pointer = self.instruction_pointer.wrapping_add(next as i64);
            (Step::Done, Some(sum))
        } else {
            let acc = sized(self.reg[EAX as usize], osize);
            let src = sized(self.reg[reg as usize], osize);
            self.group1_op(7, acc, dst, osize);
            self.instruction_pointer = self.instruction_pointer.wrapping_add(next as i64);
            if 0 != self.flags & FLAG_ZERO {
                (Step::Done, Some(src))
            } else {
                self.write_reg_sized(EAX, dst_raw, osize);
                (Step::Done, None)
            }
        }
    }

    /// Runs the instruction whose memory operand `memory_operand` decoded, given `loaded`, what
    /// the caller read there, zero extended from the operand's width (any value where the
    /// instruction reads nothing). Returns how it ended, the value to store at the operand, which
    /// the caller writes at the operand's width, and what is left for after the store, which the
    /// caller hands to `after_store` once the store has gone through. The registers, the flags and
    /// the instruction pointer change as `memory_effect` says; an instruction that does not run
    /// changes nothing and stores nothing.
    pub fn run_memory(
        &mut self,
        opcode: i32,
        code: &[u8],
        opsize_prefix: bool,
        rep_prefix: bool,
        seg_base: i64,
        loaded: i64,
    ) -> (r: (Step, Option<i64>, AfterStore))
        ensures
            (final(self).reg@, final(self).flags, final(self).instruction_pointer, r.0, r.1, r.2) == memory_effect(
                *old(self),
                opcode,
                code@,
                opsize_prefix,
                rep_prefix,
                seg_base,
                loaded,
            ),
            final(self).rex == old(self).rex,
    {
        let osize = operand_size_of(self.rex, opsize_prefix);
        match self.memory_operand(opcode, code, opsize_prefix, rep_prefix, seg_base) {
            Err(step) => {
                return (step, None, AfterStore::Nothing);
            },
            Ok(_) => {},
        }
        let (at, imm_bytes) = match layout_of(opcode, code, osize, rep_prefix) {
            Some((at, imm_bytes, _, _)) => (at, imm_bytes),
            None => {
                return (Step::Outside, None, AfterStore::Nothing);
            },
        };
        let total = code.len();
        let ghost decoded = operand_address(*self, code@, at as int, imm_bytes, seg_base);
        let res = self.operand_address_of(code, at, imm_bytes, seg_base);
        assert(decoded is Some);
        let ghost found = decoded->0;
        assert(0 <= found.1 && at + 1 + found.1 <= total);
        let used = match res {
            Ok(pair) => pair.1,
            Err(()) => {
                return (Step::FetchFault, None, AfterStore::Nothing);
            },
        };
        self.dispatch_memory(opcode, code, osize, at + 1 + used, loaded)
    }

    fn dispatch_memory(&mut self, opcode: i32, code: &[u8], osize: i32, next: usize, loaded: i64) -> (r: (Step, Option<i64>, AfterStore))
        requires
            osize == 16 || osize == 32 || osize == 64,
            1 <= next <= code@.len(),
            opcode == 0x0F ==> 2 <= next,
        ensures
            (final(self).reg@, final(self).flags, final(self).instruction_pointer, r.0, r.1, r.2) == memory_dispatch(
                *old(self),
                opcode,
                code@,
                osize,
                next as int,
                loaded,
            ),
            final(self).rex == old(self).rex,
    {
        reveal(memory_dispatch);
        let (step, store) = if opcode == 0x0F {
            let op = code[0] as i32;
            if op == 0xBA || op == 0xB1 || op == 0xC1 {
                self.mem_update_0f(code, osize, next, loaded)
            } else if op == 0xA4 || op == 0xA5 || op == 0xAC || op == 0xAD {
                return self.mem_deferred(opcode, code, osize, next, loaded);
            } else if (0x90 <= op && op <= 0x9F) || op == 0xB6 || op == 0xBE {
                self.mem_byte_0f(code, osize, next, loaded)
            } else if op == 0xB0 || op == 0xC0 {
                self.mem_byte_reg(opcode, code, next, loaded)
            } else if op == 0xC3 {
                let reg = self.modrm_reg(code[1] as i32);
                let value = self.reg[reg as usize];
                self.instruction_pointer = self.instruction_pointer.wrapping_add(next as i64);
                (Step::Done, Some(value))
            } else {
                self.mem_load_0f(code, osize, next, loaded)
            }
        } else if opcode == 0x87 || opcode == 0x86 {
            return self.mem_deferred(opcode, code, osize, next, loaded);
        } else if opcode == 0xFF {
            self.mem_ff(code, osize, next, loaded)
        } else if (0 <= opcode && opcode < 0x40 && (opcode & 7 == 0 || opcode & 7 == 2)) || opcode == 0x84
            || opcode == 0x88 || opcode == 0x8A {
            self.mem_byte_reg(opcode, code, next, loaded)
        } else if opcode == 0x80 || opcode == 0xC0 || opcode == 0xD0 || opcode == 0xD2 || opcode == 0xC6 || opcode
            == 0xF6 || opcode == 0xFE {
            self.mem_byte(opcode, code, next, loaded)
        } else if opcode == 0x81 || opcode == 0x83 || (0 <= opcode && opcode < 0x40) {
            self.mem_group1(opcode, code, osize, next, loaded)
        } else if opcode == 0x85 || opcode == 0x89 || opcode == 0x8B || opcode == 0x63 || opcode == 0xC7 {
            self.mem_move(opcode, code, osize, next, loaded)
        } else if opcode == 0xC1 || opcode == 0xD1 || opcode == 0xD3 {
            self.mem_shift(opcode, code, osize, next, loaded)
        } else if opcode == 0xF7 {
            self.mem_group3(code, osize, next, loaded)
        } else {
            self.mem_imul_imm(opcode, code, osize, next, loaded)
        };
        (step, store, AfterStore::Nothing)
    }

    fn mem_deferred(&mut self, opcode: i32, code: &[u8], osize: i32, next: usize, loaded: i64) -> (r: (Step, Option<i64>, AfterStore))
        requires
            osize == 16 || osize == 32 || osize == 64,
            1 <= next <= code@.len(),
            opcode != 0x87 && opcode != 0x86 ==> 2 <= next,
        ensures
            (final(self).reg@, final(self).flags, final(self).instruction_pointer, r.0, r.1, r.2) == mem_deferred_effect(
                *old(self),
                opcode,
                code@,
                osize,
                next as int,
                loaded,
            ),
            final(self).rex == old(self).rex,
    {
        let dst = match osize {
            16 => loaded as u16 as i64,
            32 => loaded as u32 as i64,
            _ => loaded,
        };
        if opcode == 0x87 {
            let reg = self.modrm_reg(code[0] as i32);
            let src = sized(self.reg[reg as usize], osize);
            self.instruction_pointer = self.instruction_pointer.wrapping_add(next as i64);
            return (Step::Done, Some(src), AfterStore::Register { reg, value: dst, osize });
        }
        if opcode == 0x86 {
            let reg = self.modrm_reg(code[0] as i32);
            let src = self.read_reg8(reg);
            self.instruction_pointer = self.instruction_pointer.wrapping_add(next as i64);
            return (Step::Done, Some(src), AfterStore::Byte { reg, value: loaded });
        }
        let op = code[0] as i32;
        let imm = op & 1 == 0;
        let len: usize = if imm {
            1
        } else {
            0
        };
        if code.len() - next < len {
            return (Step::FetchFault, None, AfterStore::Nothing);
        }
        let raw: i32 = if imm {
            code[next] as i32
        } else {
            (self.reg[1] as u8) as i32
        };
        let count = raw & if osize == 64 {
            63
        } else {
            31
        };
        if osize == 16 && count > 16 {
            self.instruction_pointer = self.instruction_pointer.wrapping_add((next + len) as i64);
            return (Step::Unimplemented, None, AfterStore::Nothing);
        }
        let fill = self.reg[self.modrm_reg(code[1] as i32) as usize];
        // the flags are worked out now and set once the result is stored
        let mut scratch = Cpu {
            reg: self.reg,
            flags: self.flags,
            instruction_pointer: self.instruction_pointer,
            rex: self.rex,
        };
        let result = scratch.double_shift(op < 0xAC, dst, fill, raw, osize);
        self.instruction_pointer = self.instruction_pointer.wrapping_add((next + len) as i64);
        (Step::Done, Some(result), AfterStore::Flags(scratch.flags))
    }

    /// Applies what an instruction left for after its store: called once the store `run_memory`
    /// asked for has gone through.
    pub fn after_store(&mut self, after: AfterStore)
        ensures
            (final(self).reg@, final(self).flags) == after_store_effect(
                old(self).reg@,
                old(self).flags,
                old(self).rex,
                after,
            ),
            final(self).instruction_pointer == old(self).instruction_pointer,
            final(self).rex == old(self).rex,
    {
        match after {
            AfterStore::Nothing => {},
            AfterStore::Register { reg, value, osize } => {
                if 0 <= reg && reg < 16 {
                    self.write_reg_sized(reg, value, osize);
                }
            },
            AfterStore::Flags(flags) => {
                self.flags = flags;
            },
            AfterStore::Byte { reg, value } => {
                if 0 <= reg && reg < 16 {
                    self.write_reg8(reg, value);
                }
            },
        }
    }
}

/// The operand of a two byte instruction the caller carries out, `code[0]` its second opcode byte
/// and `code[1]` its modrm: the registers the reg and rm fields name, the address of the memory
/// operand (the segment base added) for a memory form, and where the instruction pointer goes past
/// the instruction, which has no immediate.
#[derive(Clone, Copy, Debug, PartialEq, Eq, Structural)]
pub struct ModrmOperand {
    pub reg: i32,
    pub rm: i32,
    pub addr: Option<i64>,
    pub next: i64,
}

/// What `modrm_operand` decodes, `FetchFault` when the code ends inside the modrm or the address.
pub open spec fn modrm_operand_spec(c: Cpu, code: Seq<u8>, seg_base: i64) -> Result<ModrmOperand, Step> {
    if code.len() < 2 {
        Err(Step::FetchFault)
    } else {
        let modrm = code[1] as i32;
        let reg = reg_field(c.rex, modrm) as i32;
        let rm = rm_field(c.rex, modrm) as i32;
        if modrm >= 0xC0 {
            Ok(ModrmOperand { reg, rm, addr: None, next: c.instruction_pointer.wrapping_add(2) })
        } else {
            match operand_address(c, code, 1, 0, seg_base) {
                None => Err(Step::FetchFault),
                Some((addr, used)) => Ok(
                    ModrmOperand { reg, rm, addr: Some(addr), next: c.instruction_pointer.wrapping_add((2 + used) as i64) },
                ),
            }
        }
    }
}

/// An operand of mov with an absolute address (0xa0 to 0xa3): eight bytes of address after the
/// opcode, the segment base added; a byte for the even opcodes and the operand size for the odd,
/// read by the loads 0xa0 and 0xa1 and written by the stores 0xa2 and 0xa3. Under a 0x67 prefix the
/// address would be four bytes, which is not implemented; `FetchFault` when the address runs past
/// the code.
pub open spec fn moffs_operand_spec(c: Cpu, opcode: i32, code: Seq<u8>, opsize_prefix: bool, addr32_prefix: bool, seg_base: i64) -> Result<MemoryOperand, Step> {
    if addr32_prefix {
        Err(Step::Unimplemented)
    } else if code.len() < 8 {
        Err(Step::FetchFault)
    } else {
        let low = imm32s_at(code, 0) as u32 as i64;
        let high = imm32s_at(code, 4) as u32 as i64;
        Ok(MemoryOperand {
            addr: seg_base.wrapping_add(high << 32u64 | low),
            width: if opcode & 1 == 0 { 8 } else { operand_size(c.rex, opsize_prefix) },
            read: opcode < 0xA2,
        })
    }
}

/// What `run_moffs` does, given `loaded`, what the caller read at the operand: mov al or the
/// accumulator from it (0xa0, 0xa1), or the value to store there from al or the accumulator
/// (0xa2, 0xa3), the instruction pointer past the address.
pub open spec fn moffs_effect(c: Cpu, opcode: i32, code: Seq<u8>, opsize_prefix: bool, addr32_prefix: bool, seg_base: i64, loaded: i64) -> (Seq<i64>, i32, i64, Step, Option<i64>) {
    let osize = operand_size(c.rex, opsize_prefix);
    match moffs_operand_spec(c, opcode, code, opsize_prefix, addr32_prefix, seg_base) {
        Err(step) => refused(c, step),
        Ok(_) => {
            let past = c.instruction_pointer.wrapping_add(8);
            if opcode == 0xA0 {
                (with_byte_reg(c.reg@, c.rex, 0, loaded), c.flags, past, Step::Done, None)
            } else if opcode == 0xA1 {
                (c.reg@.update(0, sized_write(c.reg@[0], loaded, osize)), c.flags, past, Step::Done, None)
            } else if opcode == 0xA2 {
                (c.reg@, c.flags, past, Step::Done, Some(byte_reg(c.reg@, c.rex, 0)))
            } else {
                (c.reg@, c.flags, past, Step::Done, Some(c.reg@[0]))
            }
        },
    }
}

impl Cpu {
    /// Decodes the operand of a two byte instruction the caller carries out, as
    /// `modrm_operand_spec` says.
    pub fn modrm_operand(&self, code: &[u8], seg_base: i64) -> (r: Result<ModrmOperand, Step>)
        ensures
            r == modrm_operand_spec(*self, code@, seg_base),
    {
        if code.len() < 2 {
            return Err(Step::FetchFault);
        }
        let modrm = code[1] as i32;
        let reg = self.modrm_reg(modrm);
        let rm = self.modrm_rm(modrm);
        if modrm >= 0xC0 {
            return Ok(ModrmOperand { reg, rm, addr: None, next: self.instruction_pointer.wrapping_add(2) });
        }
        match self.operand_address_of(code, 1, 0, seg_base) {
            Err(()) => Err(Step::FetchFault),
            Ok((addr, used)) => Ok(
                ModrmOperand { reg, rm, addr: Some(addr), next: self.instruction_pointer.wrapping_add((2 + used) as i64) },
            ),
        }
    }

    /// The operand of mov with an absolute address, 0xa0 to 0xa3, as `moffs_operand_spec` says.
    pub fn moffs_operand(&self, opcode: i32, code: &[u8], opsize_prefix: bool, addr32_prefix: bool, seg_base: i64) -> (r: Result<MemoryOperand, Step>)
        ensures
            r == moffs_operand_spec(*self, opcode, code@, opsize_prefix, addr32_prefix, seg_base),
    {
        if addr32_prefix {
            return Err(Step::Unimplemented);
        }
        if code.len() < 8 {
            return Err(Step::FetchFault);
        }
        let low = read_imm32s(code, 0) as u32 as i64;
        let high = read_imm32s(code, 4) as u32 as i64;
        Ok(MemoryOperand {
            addr: seg_base.wrapping_add(high << 32u64 | low),
            width: if opcode & 1 == 0 {
                8
            } else {
                operand_size_of(self.rex, opsize_prefix)
            },
            read: opcode < 0xA2,
        })
    }

    /// Runs mov with an absolute address, 0xa0 to 0xa3, given `loaded`, what the caller read at
    /// the operand (any value for a store). Returns how it ended and the value to store, which
    /// the caller writes at the operand's width; the registers and the instruction pointer change
    /// as `moffs_effect` says.
    pub fn run_moffs(
        &mut self,
        opcode: i32,
        code: &[u8],
        opsize_prefix: bool,
        addr32_prefix: bool,
        seg_base: i64,
        loaded: i64,
    ) -> (r: (Step, Option<i64>))
        requires
            0xA0 <= opcode <= 0xA3,
        ensures
            (final(self).reg@, final(self).flags, final(self).instruction_pointer, r.0, r.1) == moffs_effect(
                *old(self),
                opcode,
                code@,
                opsize_prefix,
                addr32_prefix,
                seg_base,
                loaded,
            ),
            final(self).rex == old(self).rex,
    {
        match self.moffs_operand(opcode, code, opsize_prefix, addr32_prefix, seg_base) {
            Err(step) => {
                return (step, None);
            },
            Ok(_) => {},
        }
        let osize = operand_size_of(self.rex, opsize_prefix);
        let store = if opcode == 0xA0 {
            self.write_reg8(0, loaded);
            None
        } else if opcode == 0xA1 {
            self.write_reg_sized(EAX, loaded, osize);
            None
        } else if opcode == 0xA2 {
            Some(self.read_reg8(0))
        } else {
            Some(self.reg[EAX as usize])
        };
        self.instruction_pointer = self.instruction_pointer.wrapping_add(8);
        (Step::Done, store)
    }
}

} // verus!
