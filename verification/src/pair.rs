//! cmpxchg8b and cmpxchg16b: compare a pair of halves in memory with rdx:rax and, when they are
//! equal, replace them with rcx:rbx.
//!
//! The caller reads the memory operand, after checking that it can be written so that a fault
//! cannot leave the compare done and the swap half made, and writes back what this decides.

use vstd::prelude::*;
use crate::cpu::{Cpu, EAX, EBX, ECX, EDX, sized_write};
use crate::flags::FLAG_ZERO;

verus! {

/// The registers, the flags and what to write back after comparing the halves `low` and `high`
/// read from memory. The wide form, under rex.w, compares whole registers and writes back rcx and
/// rbx whole; the other compares their low 32 bits, and on a mismatch loads the halves into eax
/// and edx, zero extended as every 32-bit write is in 64-bit mode.
pub open spec fn pair_exchange_effect(c: Cpu, osize: i32, low: i64, high: i64) -> (Seq<i64>, i32, Option<(i64, i64)>) {
    let wide = osize == 64;
    let rax = c.reg@[EAX as int];
    let rdx = c.reg@[EDX as int];
    let want_low = if wide {
        rax
    } else {
        rax as u32 as i64
    };
    let want_high = if wide {
        rdx
    } else {
        rdx as u32 as i64
    };
    if want_low == low && want_high == high {
        (c.reg@, c.flags | FLAG_ZERO, Some((c.reg@[EBX as int], c.reg@[ECX as int])))
    } else {
        let w: i32 = if wide {
            64
        } else {
            32
        };
        (c.reg@.update(EAX as int, sized_write(rax, low, w)).update(EDX as int, sized_write(rdx, high, w)),
            c.flags & !FLAG_ZERO, None)
    }
}

impl Cpu {
    /// Compares the halves read from memory with rdx:rax. Returns the halves to write back, rbx
    /// low and rcx high, when they are equal; otherwise loads them into rdx:rax. zf says which.
    pub fn compare_exchange_pair(&mut self, osize: i32, low: i64, high: i64) -> (r: Option<(i64, i64)>)
        ensures
            ({
                let (regs, flags, write) = pair_exchange_effect(*old(self), osize, low, high);
                &&& final(self).reg@ == regs
                &&& final(self).flags == flags
                &&& r == write
            }),
            final(self).instruction_pointer == old(self).instruction_pointer,
            final(self).rex == old(self).rex,
    {
        let wide = osize == 64;
        let (want_low, want_high) = if wide {
            (self.reg[EAX as usize], self.reg[EDX as usize])
        } else {
            (self.reg[EAX as usize] as u32 as i64, self.reg[EDX as usize] as u32 as i64)
        };
        if want_low == low && want_high == high {
            self.flags = self.flags | FLAG_ZERO;
            Some((self.reg[EBX as usize], self.reg[ECX as usize]))
        } else {
            self.flags = self.flags & !FLAG_ZERO;
            let w: i32 = if wide {
                64
            } else {
                32
            };
            self.write_reg_sized(EAX, low, w);
            self.write_reg_sized(EDX, high, w);
            None
        }
    }
}

} // verus!
