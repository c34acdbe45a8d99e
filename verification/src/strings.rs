//! The string instructions, move, compare, store, load and scan, with and without a rep prefix.
//!
//! Memory belongs to the caller, so a string instruction runs one element at a time:
//! `string_next` says whether an element is due and which addresses it reads and writes, the
//! caller makes those accesses, and `string_element` applies what the element does to the
//! registers and flags and says whether the repetition goes on. An access that faults ends the
//! instruction with the registers as the last completed element left them.

use vstd::prelude::*;
use crate::cpu::{Cpu, EAX, ECX, EDI, ESI, arith_flags, sized_write};
use crate::flags::{FLAG_DIRECTION, FLAG_ZERO, has_flag};
use crate::width::{sized, sized_spec};

verus! {

/// movs, 0xa4 and 0xa5.
pub open spec fn is_movs(opcode: i32) -> bool {
    opcode == 0xA4 || opcode == 0xA5
}

/// The string compare, 0xa6 and 0xa7.
pub open spec fn is_string_compare(opcode: i32) -> bool {
    opcode == 0xA6 || opcode == 0xA7
}

/// stos, 0xaa and 0xab.
pub open spec fn is_stos(opcode: i32) -> bool {
    opcode == 0xAA || opcode == 0xAB
}

/// lods, 0xac and 0xad. Any other opcode given to these functions is taken as scas.
pub open spec fn is_lods(opcode: i32) -> bool {
    opcode == 0xAC || opcode == 0xAD
}

/// The width of an element in bits: a byte for the even opcodes, the operand size for the odd.
pub open spec fn string_width(opcode: i32, osize: i32) -> i32 {
    if opcode & 1 == 0 {
        8
    } else {
        osize
    }
}

/// How far rsi and rdi move per element: its size in bytes, backwards when the direction flag is
/// set.
pub open spec fn string_delta(flags: i32, width: i32) -> i64 {
    if has_flag(flags, FLAG_DIRECTION) {
        (0 - width / 8) as i64
    } else {
        (width / 8) as i64
    }
}

/// The memory one element touches.
#[derive(Clone, Copy, Debug, PartialEq, Eq, Structural)]
pub struct StringAccess {
    /// The width of the element in bits.
    pub width: i32,
    /// The address read on the rsi side, the segment base added: movs, the string compare and lods.
    pub source: Option<i64>,
    /// The address read on the rdi side: the string compare and scas.
    pub compare: Option<i64>,
    /// The address written on the rdi side: movs and stos.
    pub store: Option<i64>,
}

/// The accesses of the element `c` is about to run. rdi always addresses es, which has no base in
/// 64-bit mode; rsi addresses the segment whose base is `src_base`.
pub open spec fn string_access(c: Cpu, opcode: i32, osize: i32, src_base: i64) -> StringAccess {
    let src = src_base.wrapping_add(c.reg@[ESI as int]);
    let dst = c.reg@[EDI as int];
    StringAccess {
        width: string_width(opcode, osize),
        source: if is_movs(opcode) || is_string_compare(opcode) || is_lods(opcode) {
            Some(src)
        } else {
            None
        },
        compare: if is_movs(opcode) || is_stos(opcode) || is_lods(opcode) {
            None
        } else {
            Some(dst)
        },
        store: if is_movs(opcode) || is_stos(opcode) {
            Some(dst)
        } else {
            None
        },
    }
}

/// The registers and flags after one element, given the value read at the source and the one
/// read at the destination (each ignored where the element reads none). movs and the string
/// compare advance rsi and rdi, stos and scas rdi, lods rsi. The string compare sets the flags of
/// source minus destination and scas those of the accumulator minus the destination, dropping the
/// difference.
pub open spec fn string_element_effect(c: Cpu, opcode: i32, osize: i32, source: i64, compare: i64) -> (Seq<i64>, i32) {
    let width = string_width(opcode, osize);
    let delta = string_delta(c.flags, width);
    let rsi = c.reg@[ESI as int].wrapping_add(delta);
    let rdi = c.reg@[EDI as int].wrapping_add(delta);
    if is_movs(opcode) {
        (c.reg@.update(ESI as int, rsi).update(EDI as int, rdi), c.flags)
    } else if is_string_compare(opcode) {
        let a = sized_spec(source, width);
        let b = sized_spec(compare, width);
        (c.reg@.update(ESI as int, rsi).update(EDI as int, rdi), arith_flags(
            c.flags,
            a,
            b,
            sized_spec(a.wrapping_sub(b), width),
            true,
        ))
    } else if is_stos(opcode) {
        (c.reg@.update(EDI as int, rdi), c.flags)
    } else if is_lods(opcode) {
        (c.reg@.update(EAX as int, sized_write(c.reg@[EAX as int], source, width)).update(ESI as int, rsi), c.flags)
    } else {
        let a = sized_spec(c.reg@[EAX as int], width);
        let b = sized_spec(compare, width);
        (c.reg@.update(EDI as int, rdi), arith_flags(c.flags, a, b, sized_spec(a.wrapping_sub(b), width), true))
    }
}

/// The count after an element under a rep prefix: rcx goes down by one, and the string compare
/// and scas stop once zf disagrees with the prefix, repz going on while the operands are equal and
/// repnz while they differ. Without a prefix there is exactly one element. The first of the pair is the
/// registers after the count, the second whether to go on.
pub open spec fn string_repeat(regs: Seq<i64>, flags: i32, opcode: i32, rep: bool, repz: bool) -> (Seq<i64>, bool) {
    if !rep {
        (regs, false)
    } else {
        let compares = !(is_movs(opcode) || is_stos(opcode) || is_lods(opcode));
        (regs.update(ECX as int, regs[ECX as int].wrapping_sub(1)), !(compares && has_flag(flags, FLAG_ZERO)
            != repz))
    }
}

impl Cpu {
    /// Whether another element is due, and the memory it touches. Under a rep prefix none is due
    /// once rcx is zero; without one, exactly one is.
    pub fn string_next(&self, opcode: i32, osize: i32, rep: bool, src_base: i64) -> (r: Option<StringAccess>)
        ensures
            r == if rep && self.reg@[ECX as int] == 0 {
                None
            } else {
                Some(string_access(*self, opcode, osize, src_base))
            },
    {
        if rep && self.reg[ECX as usize] == 0 {
            return None;
        }
        let movs = opcode == 0xA4 || opcode == 0xA5;
        let compare_strings = opcode == 0xA6 || opcode == 0xA7;
        let stos = opcode == 0xAA || opcode == 0xAB;
        let lods = opcode == 0xAC || opcode == 0xAD;
        let src = src_base.wrapping_add(self.reg[ESI as usize]);
        let dst = self.reg[EDI as usize];
        Some(
            StringAccess {
                width: if opcode & 1 == 0 {
                    8
                } else {
                    osize
                },
                source: if movs || compare_strings || lods {
                    Some(src)
                } else {
                    None
                },
                compare: if movs || stos || lods {
                    None
                } else {
                    Some(dst)
                },
                store: if movs || stos {
                    Some(dst)
                } else {
                    None
                },
            },
        )
    }

    /// The value an element stores: for movs what it read at the source, for stos the
    /// accumulator. The caller writes it at the element's width.
    pub fn string_store_value(&self, opcode: i32, source: i64) -> (r: i64)
        ensures
            r == if is_movs(opcode) {
                source
            } else {
                self.reg@[EAX as int]
            },
    {
        if opcode == 0xA4 || opcode == 0xA5 {
            source
        } else {
            self.reg[EAX as usize]
        }
    }

    /// Completes one element whose accesses succeeded, given what its reads returned, and then
    /// counts it under a rep prefix. Returns whether the repetition goes on.
    pub fn string_element(
        &mut self,
        opcode: i32,
        osize: i32,
        rep: bool,
        repz: bool,
        source: i64,
        compare: i64,
    ) -> (go_on: bool)
        requires
            osize == 16 || osize == 32 || osize == 64,
        ensures
            ({
                let (regs, flags) = string_element_effect(*old(self), opcode, osize, source, compare);
                let (counted, more) = string_repeat(regs, flags, opcode, rep, repz);
                &&& final(self).reg@ == counted
                &&& final(self).flags == flags
                &&& go_on == more
            }),
            final(self).instruction_pointer == old(self).instruction_pointer,
            final(self).rex == old(self).rex,
    {
        let width: i32 = if opcode & 1 == 0 {
            8
        } else {
            osize
        };
        let bytes: i64 = if width == 8 {
            1
        } else if width == 16 {
            2
        } else if width == 32 {
            4
        } else {
            8
        };
        let step: i64 = if 0 != self.flags & FLAG_DIRECTION {
            -bytes
        } else {
            bytes
        };
        let rsi = self.reg[ESI as usize];
        let rdi = self.reg[EDI as usize];
        let movs = opcode == 0xA4 || opcode == 0xA5;
        let compare_strings = opcode == 0xA6 || opcode == 0xA7;
        let stos = opcode == 0xAA || opcode == 0xAB;
        let lods = opcode == 0xAC || opcode == 0xAD;
        if movs {
            self.write_reg64(ESI, rsi.wrapping_add(step));
            self.write_reg64(EDI, rdi.wrapping_add(step));
        } else if compare_strings {
            let a = sized(source, width);
            let b = sized(compare, width);
            self.set_flags64(a, b, sized(a.wrapping_sub(b), width), true);
            self.write_reg64(ESI, rsi.wrapping_add(step));
            self.write_reg64(EDI, rdi.wrapping_add(step));
        } else if stos {
            self.write_reg64(EDI, rdi.wrapping_add(step));
        } else if lods {
            self.write_reg_sized(EAX, source, width);
            self.write_reg64(ESI, rsi.wrapping_add(step));
        } else {
            let a = sized(self.reg[EAX as usize], width);
            let b = sized(compare, width);
            self.set_flags64(a, b, sized(a.wrapping_sub(b), width), true);
            self.write_reg64(EDI, rdi.wrapping_add(step));
        }
        if !rep {
            return false;
        }
        let rcx = self.reg[ECX as usize];
        self.write_reg64(ECX, rcx.wrapping_sub(1));
        let compares = !(movs || stos || lods);
        !(compares && (0 != self.flags & FLAG_ZERO) != repz)
    }
}

} // verus!
