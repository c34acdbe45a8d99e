//! Decoding the operands of a modrm byte in 64-bit mode.
//!
//! The bytes that follow the modrm in the instruction stream (sib, displacement) are read from
//! `code`, whose first byte sits at `instruction_pointer`. Address arithmetic is modulo 2^64.

use vstd::prelude::*;
use crate::cpu::{Cpu, REX_B, REX_R, REX_X};

verus! {

/// 8 when `bit` of the rex byte is set, extending a register field to r8-r15, and 0 otherwise.
pub open spec fn rex_extension(rex: u8, bit: u8) -> i32 {
    if rex & bit != 0 {
        8
    } else {
        0
    }
}

/// The sign extended byte at `at`.
pub open spec fn imm8s_at(code: Seq<u8>, at: int) -> i64 {
    code[at] as i8 as i64
}

/// The sign extended little endian 32-bit value at `at`.
pub open spec fn imm32s_at(code: Seq<u8>, at: int) -> i64 {
    (code[at] as u32 | (code[at + 1] as u32) << 8u32 | (code[at + 2] as u32) << 16u32 | (code[at
        + 3] as u32) << 24u32) as i32 as i64
}

/// The effective address a modrm byte describes and how many bytes after the modrm it consumed,
/// or `None` when the instruction stream ends before them.
///
/// The base and index are full registers, rm=100 takes a sib byte, rm=101 with mod=00 is rip
/// relative rather than an absolute disp32, and mod=01 and mod=10 add an 8 or 32-bit
/// displacement. A rip relative displacement counts from the end of the whole instruction, past
/// the `imm_bytes` of immediate that follow it.
pub open spec fn modrm_address(
    rex: u8,
    regs: Seq<i64>,
    ip: i64,
    modrm_byte: i32,
    code: Seq<u8>,
    imm_bytes: i32,
) -> Option<(i64, int)> {
    let m = modrm_byte >> 6 & 3;
    let rm = modrm_byte & 7;
    let base: Option<(i64, int)> = if rm == 4 {
        if code.len() < 1 {
            None
        } else {
            let sib = code[0] as i32;
            let scale = sib >> 6 & 3;
            let index = (sib >> 3 & 7) | rex_extension(rex, REX_X);
            let base_reg = (sib & 7) | rex_extension(rex, REX_B);
            let index_value: i64 = if index == 4 {
                0
            } else {
                regs[index as int] << scale
            };
            if (sib & 7) == 5 && m == 0 {
                if code.len() < 5 {
                    None
                } else {
                    Some((index_value.wrapping_add(imm32s_at(code, 1)), 5))
                }
            } else {
                Some((regs[base_reg as int].wrapping_add(index_value), 1))
            }
        }
    } else if rm == 5 && m == 0 {
        if code.len() < 4 {
            None
        } else {
            Some(((ip.wrapping_add(4)).wrapping_add(imm_bytes as i64).wrapping_add(imm32s_at(code, 0)), 4))
        }
    } else {
        Some((regs[(rm | rex_extension(rex, REX_B)) as int], 0))
    };
    match base {
        None => None,
        Some((addr, used)) => {
            if m == 1 {
                if code.len() < used + 1 {
                    None
                } else {
                    Some((addr.wrapping_add(imm8s_at(code, used)), used + 1))
                }
            } else if m == 2 {
                if code.len() < used + 4 {
                    None
                } else {
                    Some((addr.wrapping_add(imm32s_at(code, used)), used + 4))
                }
            } else {
                Some((addr, used))
            }
        }
    }
}

/// The fields of a modrm or sib byte: reg and rm extended by a rex bit name one of the sixteen
/// registers, the scale is below 4 and the 3-bit fields below 8.
pub proof fn lemma_modrm_fields(byte: i32, e1: i32, e2: i32)
    by (bit_vector)
    ensures
        e1 == 0 || e1 == 8 ==> 0 <= (byte >> 3 & 7) | e1 < 16,
        e2 == 0 || e2 == 8 ==> 0 <= (byte & 7) | e2 < 16,
        0 <= byte >> 6 & 3 < 4,
        0 <= byte >> 3 & 7 <= 7,
        0 <= byte & 7 <= 7,
{
}

/// Read the sign extended little endian 32-bit immediate at `at`.
pub fn read_imm32s(code: &[u8], at: usize) -> (r: i64)
    requires
        at + 4 <= code@.len(),
    ensures
        r == imm32s_at(code@, at as int),
{
    (code[at] as u32 | (code[at + 1] as u32) << 8u32 | (code[at + 2] as u32) << 16u32
        | (code[at + 3] as u32) << 24u32) as i32 as i64
}

/// 8 when `bit` of the rex byte is set, and 0 otherwise.
pub fn rex_bit(rex: u8, bit: u8) -> (r: i32)
    ensures
        r == rex_extension(rex, bit),
{
    if 0 != rex & bit {
        8
    } else {
        0
    }
}

/// The effective address a modrm byte describes, for the rex byte `rex`, the registers `reg` and
/// `code` starting at address `ip` just past the modrm byte; and the number of bytes of `code` it
/// consumed. `imm_bytes` is the length of the immediate that follows, which only rip
/// relative addressing counts. `Err` means the instruction stream ended first.
pub fn resolve_address(rex: u8, reg: &[i64; 16], ip: i64, modrm_byte: i32, code: &[u8], imm_bytes: i32) -> (r:
    Result<(i64, usize), ()>)
    requires
        0 <= modrm_byte < 0xC0,
    ensures
        match modrm_address(
            rex,
            reg@,
            ip,
            modrm_byte,
            code@,
            imm_bytes,
        ) {
            None => r is Err,
            Some((addr, used)) => r == Ok::<(i64, usize), ()>((addr, used as usize)) && used <= code@.len(),
        },
{
    let m = modrm_byte >> 6 & 3;
    let rm = modrm_byte & 7;

    let (addr, used): (i64, usize) = if rm == 4 {
        // sib byte
        if code.len() < 1 {
            return Err(());
        }
        let sib = code[0] as i32;
        let scale = sib >> 6 & 3;
        let ex = rex_bit(rex, REX_X);
        let eb = rex_bit(rex, REX_B);
        let index = (sib >> 3 & 7) | ex;
        let base_reg = (sib & 7) | eb;
        proof {
            lemma_modrm_fields(sib, ex, eb);
        }

        // index == 4 without rex.x means no index register
        let index_value: i64 = if index == 4 {
            0
        } else {
            reg[index as usize] << scale
        };

        if (sib & 7) == 5 && m == 0 {
            // no base, disp32 follows
            if code.len() < 5 {
                return Err(());
            }
            (index_value.wrapping_add(read_imm32s(code, 1)), 5)
        } else {
            (reg[base_reg as usize].wrapping_add(index_value), 1)
        }
    } else if rm == 5 && m == 0 {
        // rip relative: the displacement counts from the address of the next instruction,
        // which is past the displacement and past any immediate this one carries
        if code.len() < 4 {
            return Err(());
        }
        let disp = read_imm32s(code, 0);
        ((ip.wrapping_add(4)).wrapping_add(imm_bytes as i64).wrapping_add(
            disp,
        ), 4)
    } else {
        {
        let e = rex_bit(rex, REX_B);
        let r = (modrm_byte & 7) | e;
        proof {
            lemma_modrm_fields(modrm_byte, e, e);
        }
        (reg[r as usize], 0)
    }
    };

    if m == 1 {
        if code.len() < used + 1 {
            return Err(());
        }
        Ok((addr.wrapping_add(code[used] as i8 as i64), used + 1))
    } else if m == 2 {
        if code.len() < used + 4 {
            return Err(());
        }
        Ok((addr.wrapping_add(read_imm32s(code, used)), used + 4))
    } else {
        Ok((addr, used))
    }
}


impl Cpu {

    /// The register in the reg field of a modrm byte, extended by rex.r.
    pub fn modrm_reg(&self, modrm_byte: i32) -> (r: i32)
        ensures
            r == (modrm_byte >> 3 & 7) | rex_extension(self.rex, REX_R),
            0 <= r < 16,
    {
        let e = rex_bit(self.rex, REX_R);
        let r = (modrm_byte >> 3 & 7) | e;
        proof {
            lemma_modrm_fields(modrm_byte, e, e);
        }
        r
    }

    /// The register in the rm field of a modrm byte, extended by rex.b.
    pub fn modrm_rm(&self, modrm_byte: i32) -> (r: i32)
        ensures
            r == (modrm_byte & 7) | rex_extension(self.rex, REX_B),
            0 <= r < 16,
    {
        let e = rex_bit(self.rex, REX_B);
        let r = (modrm_byte & 7) | e;
        proof {
            lemma_modrm_fields(modrm_byte, e, e);
        }
        r
    }

    /// The effective address a modrm byte describes, without the segment base and without
    /// checking whether it can be reached, and the number of bytes of `code` it consumed. lea
    /// wants exactly this. `code` starts at `instruction_pointer`, just past the modrm byte.
    /// `imm_bytes` is the length of the immediate that follows, which only rip relative
    /// addressing counts. `Err` means the instruction stream ended first.
    pub fn resolve_modrm64_address_imm(&self, modrm_byte: i32, code: &[u8], imm_bytes: i32) -> (r:
        Result<(i64, usize), ()>)
        requires
            0 <= modrm_byte < 0xC0,
        ensures
            match modrm_address(
                self.rex,
                self.reg@,
                self.instruction_pointer,
                modrm_byte,
                code@,
                imm_bytes,
            ) {
                None => r is Err,
                Some((addr, used)) => r == Ok::<(i64, usize), ()>((addr, used as usize)) && used <= code@.len(),
            },
    {
        resolve_address(self.rex, &self.reg, self.instruction_pointer, modrm_byte, code, imm_bytes)
    }

    /// The address a memory operand refers to: the effective address plus the base of the
    /// segment it is relative to, which in long mode is nonzero only under an fs or gs prefix.
    pub fn resolve_modrm64_imm(&self, seg_base: i64, modrm_byte: i32, code: &[u8], imm_bytes: i32) -> (r:
        Result<(i64, usize), ()>)
        requires
            0 <= modrm_byte < 0xC0,
        ensures
            match modrm_address(
                self.rex,
                self.reg@,
                self.instruction_pointer,
                modrm_byte,
                code@,
                imm_bytes,
            ) {
                None => r is Err,
                Some((addr, used)) => r == Ok::<(i64, usize), ()>((seg_base.wrapping_add(addr), used as usize)),
            },
    {
        let (addr, used) = self.resolve_modrm64_address_imm(modrm_byte, code, imm_bytes)?;
        Ok((seg_base.wrapping_add(addr), used))
    }
}

} // verus!
