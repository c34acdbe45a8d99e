//! The 0x66-prefixed sse operations that take a 128-bit source and act on an xmm register, the
//! moves between an xmm register and a general purpose one or memory, and the shifts of an xmm
//! register by an immediate. The xmm registers and the operations on them are the caller's.

use vstd::prelude::*;
use crate::cpu::{Cpu, REX_W};
use crate::memory::{ModrmOperand, modrm_operand_spec};
use crate::modrm::lemma_modrm_fields;
use crate::run::{Step, rm_field};

verus! {

/// Whether `66 0f opcode` is one of the sse operations whose register and memory forms differ
/// only in where the 128-bit source comes from.
pub open spec fn is_sse_66_source_op(opcode: i32) -> bool {
    opcode == 0x10 || opcode == 0x15 || opcode == 0x28 || opcode == 0x2C || opcode == 0x2D || opcode == 0x51 || opcode == 0x54 || opcode == 0x55 || opcode == 0x56 || opcode == 0x57 || opcode == 0x58 || opcode == 0x59 || opcode == 0x5A || opcode == 0x5B || opcode == 0x5C || opcode == 0x5D || opcode == 0x5E || opcode == 0x5F || opcode == 0x60 || opcode == 0x61 || opcode == 0x62 || opcode == 0x63 || opcode == 0x64 || opcode == 0x65 || opcode == 0x66 || opcode == 0x67 || opcode == 0x68 || opcode == 0x69 || opcode == 0x6A || opcode == 0x6B || opcode == 0x6C || opcode == 0x6D || opcode == 0x6F || opcode == 0x74 || opcode == 0x75 || opcode == 0x76 || opcode == 0x7C || opcode == 0x7D || opcode == 0xD1 || opcode == 0xD2 || opcode == 0xD3 || opcode == 0xD4 || opcode == 0xD5 || opcode == 0xD8 || opcode == 0xD9 || opcode == 0xDA || opcode == 0xDB || opcode == 0xDC || opcode == 0xDD || opcode == 0xDE || opcode == 0xDF || opcode == 0xE0 || opcode == 0xE1 || opcode == 0xE2 || opcode == 0xE3 || opcode == 0xE4 || opcode == 0xE5 || opcode == 0xE6 || opcode == 0xE8 || opcode == 0xE9 || opcode == 0xEA || opcode == 0xEB || opcode == 0xEC || opcode == 0xED || opcode == 0xEE || opcode == 0xEF || opcode == 0xF1 || opcode == 0xF2 || opcode == 0xF3 || opcode == 0xF4 || opcode == 0xF5 || opcode == 0xF6 || opcode == 0xF8 || opcode == 0xF9 || opcode == 0xFA || opcode == 0xFB || opcode == 0xFC || opcode == 0xFD || opcode == 0xFE
}

/// The 66-prefixed sse operation that takes a 128-bit source and acts on an xmm register, named
/// by its opcode byte, or `None` when `66 0f opcode` is not of that shape.
///
/// Their register and memory forms differ only in where the source comes from, so both are served
/// from the value taking form, which is what lets the memory operand be a full 64-bit address.
/// Only shapes that read exactly 128 bits are in this table. The stores, the ones carrying an
/// immediate, and the ones moving to or from a general purpose register have different shapes and
/// are handled on their own.
pub fn sse_66_source_op(opcode: i32) -> (r: Option<u8>)
    ensures
        is_sse_66_source_op(opcode) ==> r == Some(opcode as u8),
        !is_sse_66_source_op(opcode) ==> r is None,
{
    Some(match opcode {
        0x10 => 0x10,
        0x15 => 0x15,
        0x28 => 0x28,
        0x2C => 0x2C,
        0x2D => 0x2D,
        0x51 => 0x51,
        0x54 => 0x54,
        0x55 => 0x55,
        0x56 => 0x56,
        0x57 => 0x57,
        0x58 => 0x58,
        0x59 => 0x59,
        0x5A => 0x5A,
        0x5B => 0x5B,
        0x5C => 0x5C,
        0x5D => 0x5D,
        0x5E => 0x5E,
        0x5F => 0x5F,
        0x60 => 0x60,
        0x61 => 0x61,
        0x62 => 0x62,
        0x63 => 0x63,
        0x64 => 0x64,
        0x65 => 0x65,
        0x66 => 0x66,
        0x67 => 0x67,
        0x68 => 0x68,
        0x69 => 0x69,
        0x6A => 0x6A,
        0x6B => 0x6B,
        0x6C => 0x6C,
        0x6D => 0x6D,
        0x6F => 0x6F,
        0x74 => 0x74,
        0x75 => 0x75,
        0x76 => 0x76,
        0x7C => 0x7C,
        0x7D => 0x7D,
        0xD1 => 0xD1,
        0xD2 => 0xD2,
        0xD3 => 0xD3,
        0xD4 => 0xD4,
        0xD5 => 0xD5,
        0xD8 => 0xD8,
        0xD9 => 0xD9,
        0xDA => 0xDA,
        0xDB => 0xDB,
        0xDC => 0xDC,
        0xDD => 0xDD,
        0xDE => 0xDE,
        0xDF => 0xDF,
        0xE0 => 0xE0,
        0xE1 => 0xE1,
        0xE2 => 0xE2,
        0xE3 => 0xE3,
        0xE4 => 0xE4,
        0xE5 => 0xE5,
        0xE6 => 0xE6,
        0xE8 => 0xE8,
        0xE9 => 0xE9,
        0xEA => 0xEA,
        0xEB => 0xEB,
        0xEC => 0xEC,
        0xED => 0xED,
        0xEE => 0xEE,
        0xEF => 0xEF,
        0xF1 => 0xF1,
        0xF2 => 0xF2,
        0xF3 => 0xF3,
        0xF4 => 0xF4,
        0xF5 => 0xF5,
        0xF6 => 0xF6,
        0xF8 => 0xF8,
        0xF9 => 0xF9,
        0xFA => 0xFA,
        0xFB => 0xFB,
        0xFC => 0xFC,
        0xFD => 0xFD,
        0xFE => 0xFE,
        _ => return None,
    })
}

/// The forms of 0x0f 0x6e, 0x7e, 0x16 and 0x17 by their prefixes: movd and movq to an xmm register
/// (66 0f 6e) and from one (66 0f 7e), and the movhps, movhpd and movq forms beside them (0f 16,
/// 66 0f 16, 0f 17, 66 0f 17, f3 0f 7e), which the caller's sse tables run unchanged.
pub open spec fn xmm_move_form(opcode: int, has_66: bool, has_f3: bool) -> Step {
    if (opcode == 0x16 || opcode == 0x17) && !has_f3 {
        Step::Outside
    } else if opcode == 0x7E && !has_66 && has_f3 {
        Step::Outside
    } else if (opcode == 0x6E || opcode == 0x7E) && has_66 && !has_f3 {
        Step::Done
    } else {
        Step::Unimplemented
    }
}

/// What `xmm_move` decodes, `code[0]` the second opcode byte and `c` on it: for movd and movq the
/// operand, with the instruction pointer past it, and the width, 64 bits under rex.w and 32
/// otherwise, since the 0x66 is the prefix that selects the form rather than an operand size.
/// `Outside`, nothing changed, for the forms the caller runs; `Unimplemented`, past the modrm
/// byte, for the other prefixes.
pub open spec fn xmm_move_spec(c: Cpu, code: Seq<u8>, has_66: bool, has_f3: bool, seg_base: i64) -> (i64, Result<(ModrmOperand, i32), Step>) {
    if code.len() < 2 {
        (c.instruction_pointer, Err(Step::FetchFault))
    } else {
        let form = xmm_move_form(code[0] as int, has_66, has_f3);
        if form == Step::Outside {
            (c.instruction_pointer, Err(Step::Outside))
        } else if form == Step::Unimplemented {
            (c.instruction_pointer.wrapping_add(2), Err(Step::Unimplemented))
        } else {
            match modrm_operand_spec(c, code, seg_base) {
                Err(step) => (c.instruction_pointer, Err(step)),
                Ok(operand) => (operand.next, Ok((operand, if c.rex & REX_W != 0 { 64i32 } else { 32i32 }))),
            }
        }
    }
}

/// The four 32-bit lanes movd and movq leave in the xmm register they load: the operand in the
/// low lanes, its high half only for movq, and the rest cleared.
pub open spec fn xmm_lanes_spec(value: i64, width: i32) -> Seq<i32> {
    seq![value as i32, if width == 64 { (value >> 32) as i32 } else { 0i32 }, 0i32, 0i32]
}

/// The lanes of an xmm register loaded by movd or movq, as `xmm_lanes_spec` says.
pub fn xmm_lanes(value: i64, width: i32) -> (r: [i32; 4])
    ensures
        r@ == xmm_lanes_spec(value, width),
{
    let high = if width == 64 { (value >> 32) as i32 } else { 0 };
    let r = [value as i32, high, 0, 0];
    assert(r@ =~= xmm_lanes_spec(value, width));
    r
}

/// What `xmm_shift` decodes of 66 0f 73, `code[0]` the modrm byte and `code[1]` the shift count,
/// `c` past the second opcode byte: psrlq (/2), psrldq (/3), psllq (/6) and pslldq (/7) of the xmm
/// register the rm field names, extended by rex.b. Only the 0x66 register forms exist; the rest
/// is not implemented. The instruction pointer goes past the count either way.
pub open spec fn xmm_shift_spec(c: Cpu, code: Seq<u8>, has_66: bool) -> (i64, Result<(i32, i32, u8), Step>) {
    if code.len() < 2 {
        (c.instruction_pointer, Err(Step::FetchFault))
    } else {
        let modrm = code[0] as i32;
        let group = modrm >> 3 & 7;
        let past = c.instruction_pointer.wrapping_add(2);
        if !has_66 || modrm < 0xC0 || !(group == 2 || group == 3 || group == 6 || group == 7) {
            (past, Err(Step::Unimplemented))
        } else {
            (past, Ok((group, rm_field(c.rex, modrm) as i32, code[1])))
        }
    }
}

impl Cpu {
    /// movd and movq between an xmm register and a general purpose one or memory, as
    /// `xmm_move_spec` says. The caller loads the xmm register named by the reg field with
    /// `xmm_lanes` of what it reads, or stores the low 64 bits of it at the operand, a register
    /// written at the width as any other.
    pub fn xmm_move(&mut self, code: &[u8], has_66: bool, has_f3: bool, seg_base: i64) -> (r: Result<(ModrmOperand, i32), Step>)
        ensures
            (final(self).instruction_pointer, r) == xmm_move_spec(*old(self), code@, has_66, has_f3, seg_base),
            final(self).reg == old(self).reg,
            final(self).flags == old(self).flags,
            final(self).rex == old(self).rex,
    {
        if code.len() < 2 {
            return Err(Step::FetchFault);
        }
        let opcode = code[0];
        if (opcode == 0x16 || opcode == 0x17) && !has_f3 {
            return Err(Step::Outside);
        }
        if opcode == 0x7E && !has_66 && has_f3 {
            return Err(Step::Outside);
        }
        if !((opcode == 0x6E || opcode == 0x7E) && has_66 && !has_f3) {
            self.instruction_pointer = self.instruction_pointer.wrapping_add(2);
            return Err(Step::Unimplemented);
        }
        match self.modrm_operand(code, seg_base) {
            Err(step) => Err(step),
            Ok(operand) => {
                self.instruction_pointer = operand.next;
                let width: i32 = if self.rex & REX_W != 0 { 64 } else { 32 };
                Ok((operand, width))
            },
        }
    }

    /// The shift of an xmm register by an immediate, as `xmm_shift_spec` says: the group, the
    /// register and the count, for the caller to run.
    pub fn xmm_shift(&mut self, code: &[u8], has_66: bool) -> (r: Result<(i32, i32, u8), Step>)
        ensures
            (final(self).instruction_pointer, r) == xmm_shift_spec(*old(self), code@, has_66),
            final(self).reg == old(self).reg,
            final(self).flags == old(self).flags,
            final(self).rex == old(self).rex,
    {
        if code.len() < 2 {
            return Err(Step::FetchFault);
        }
        let modrm = code[0] as i32;
        let group = modrm >> 3 & 7;
        proof {
            lemma_modrm_fields(modrm, 0, 0);
        }
        self.instruction_pointer = self.instruction_pointer.wrapping_add(2);
        if !has_66 || modrm < 0xC0 || !(group == 2 || group == 3 || group == 6 || group == 7) {
            return Err(Step::Unimplemented);
        }
        Ok((group, self.modrm_rm(modrm), code[1]))
    }
}

} // verus!
