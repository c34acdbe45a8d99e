//! The instructions that go through the stack: push and pop of a register, push of an immediate,
//! pushfq and popfq, the near call and ret, call and push through the 0xff group, the far return,
//! and push and pop of fs and gs.
//!
//! The stack is memory, and memory belongs to the caller, so these run in two steps, as the
//! memory forms do. `stack_operand` says which eight bytes the instruction loads and which it
//! stores; the caller reads the one and checks that the other can be written, raising the fault
//! there if not, so that a fault changes nothing; `run_stack` then runs the instruction on the
//! value read and hands back the store, which the caller makes. The stack is always eight bytes
//! wide in 64-bit mode, and the stack segment has no base.
//!
//! `code` is as `run` takes it, the bytes after the opcode; for 0xff it starts at the modrm, with
//! the instruction pointer on it.

use vstd::prelude::*;
use crate::cpu::{Cpu, ESP, REX_B};
use crate::flags::{FLAGS_DEFAULT, FLAG_INTERRUPT};
use crate::memory::operand_address;
use crate::modrm::{imm32s_at, imm8s_at, lemma_modrm_fields, read_imm32s, rex_bit, rex_extension};
use crate::run::{Step, operand_size, operand_size_of, read_imm8s, rm_field};

verus! {

/// The i/o privilege level field of the flags.
pub const FLAG_IOPL: i32 = 0x3000;

/// The resume flag and the virtual 8086 mode flag, which popfq leaves as they were.
pub const FLAGS_POPF_KEPT: i32 = 0x3_0000;

/// The flags a pop can set at all: the arithmetic flags, trap, interrupt, direction, iopl, nested
/// task, resume, virtual 8086 mode, alignment check and id. The virtual interrupt flags are
/// cleared.
pub const FLAGS_POPF_MASK: i32 = 0x27_7FD5;

/// The eight bytes an instruction of the stack loads and stores.
#[derive(Clone, Copy, Debug, PartialEq, Eq, Structural)]
pub struct StackAccess {
    /// The address of the eight bytes it loads: the top of the stack for a pop, ret and popfq,
    /// the memory operand for call and push through memory.
    pub load: Option<i64>,
    /// The address of the eight bytes it stores: the slot below the top of the stack, for a push
    /// and a call.
    pub store: Option<i64>,
}

/// The flags word popfq leaves, `popped` the low half of the image it popped. Resume and virtual
/// 8086 mode keep their values and the virtual interrupt flags are cleared. Outside ring 0 the
/// i/o privilege level cannot change, and where the privilege level is above it the interrupt flag
/// cannot either. Bit 1 always reads as set.
pub open spec fn popf_flags(old: i32, popped: i32, cpl: u8) -> i32 {
    let iopl = (old >> 12) & 3;
    let kept = FLAGS_POPF_KEPT | (if cpl != 0 { FLAG_IOPL } else { 0 }) | (if cpl as i32 > iopl {
        FLAG_INTERRUPT
    } else {
        0
    });
    (popped & !kept | old & kept) & FLAGS_POPF_MASK | FLAGS_DEFAULT
}

/// Which eight bytes an instruction of the stack loads and stores, or the step to report when it
/// is not one to run this way: `FetchFault` when the code ends inside the instruction, `Outside`
/// when it is not an instruction of the stack, and `Unimplemented` for the 16-bit pushfw and popfw.
pub open spec fn stack_operand_spec(c: Cpu, opcode: i32, code: Seq<u8>, opsize_prefix: bool, seg_base: i64) -> Result<StackAccess, Step> {
    let rsp = c.reg@[ESP as int];
    let push = StackAccess { load: None, store: Some(rsp.wrapping_sub(8)) };
    let pop = StackAccess { load: Some(rsp), store: None };
    if 0x50 <= opcode <= 0x57 {
        Ok(push)
    } else if 0x58 <= opcode <= 0x5F || opcode == 0xC3 {
        Ok(pop)
    } else if opcode == 0x6A {
        if code.len() < 1 { Err(Step::FetchFault) } else { Ok(push) }
    } else if opcode == 0x68 || opcode == 0xE8 {
        if code.len() < 4 { Err(Step::FetchFault) } else { Ok(push) }
    } else if opcode == 0xC2 {
        if code.len() < 2 { Err(Step::FetchFault) } else { Ok(pop) }
    } else if opcode == 0x9C || opcode == 0x9D {
        if operand_size(c.rex, opsize_prefix) == 16 {
            Err(Step::Unimplemented)
        } else if opcode == 0x9C {
            Ok(push)
        } else {
            Ok(pop)
        }
    } else if opcode == 0xFF {
        if code.len() < 1 {
            Err(Step::FetchFault)
        } else if (code[0] as i32) >> 3 & 7 != 2 && (code[0] as i32) >> 3 & 7 != 6 {
            Err(Step::Outside)
        } else if (code[0] as i32) >= 0xC0 {
            Ok(push)
        } else {
            match operand_address(c, code, 0, 0, seg_base) {
                None => Err(Step::FetchFault),
                Some((addr, _)) => Ok(StackAccess { load: Some(addr), store: push.store }),
            }
        }
    } else {
        Err(Step::Outside)
    }
}

/// What `run_stack` does, given `loaded`, the eight bytes the caller read where `stack_operand`
/// said: the registers, the flags, the instruction pointer, how it ended, and the store to make,
/// an address and the eight bytes to write there.
///
/// A push moves rsp down by eight and stores below the old top; a pop reads the top and moves rsp
/// up by eight, then writes its register, so that pop rsp leaves the popped value. push rsp stores
/// the value rsp had before. call stores the address of the next instruction and jumps; ret jumps
/// to the loaded address and drops the slot, and ret imm16 that many bytes more. pushfq stores the
/// flags with resume and virtual 8086 mode cleared; popfq loads them as `popf_flags` says.
pub open spec fn stack_effect(
    c: Cpu,
    opcode: i32,
    code: Seq<u8>,
    opsize_prefix: bool,
    seg_base: i64,
    cpl: u8,
    loaded: i64,
) -> (Seq<i64>, i32, i64, Step, Option<(i64, i64)>) {
    let ip = c.instruction_pointer;
    match stack_operand_spec(c, opcode, code, opsize_prefix, seg_base) {
        Err(step) => (c.reg@, c.flags, ip, step, None),
        Ok(_) => {
            let rsp = c.reg@[ESP as int];
            let below = rsp.wrapping_sub(8);
            let above = rsp.wrapping_add(8);
            let pushed = c.reg@.update(ESP as int, below);
            let popped = c.reg@.update(ESP as int, above);
            let reg = ((opcode & 7) | rex_extension(c.rex, REX_B)) as int;
            if 0x50 <= opcode <= 0x57 {
                (pushed, c.flags, ip, Step::Done, Some((below, c.reg@[reg])))
            } else if 0x58 <= opcode <= 0x5F {
                (popped.update(reg, loaded), c.flags, ip, Step::Done, None)
            } else if opcode == 0x6A {
                (pushed, c.flags, ip.wrapping_add(1), Step::Done, Some((below, imm8s_at(code, 0))))
            } else if opcode == 0x68 {
                (pushed, c.flags, ip.wrapping_add(4), Step::Done, Some((below, imm32s_at(code, 0))))
            } else if opcode == 0xE8 {
                let next = ip.wrapping_add(4);
                (pushed, c.flags, next.wrapping_add(imm32s_at(code, 0)), Step::Done, Some((below, next)))
            } else if opcode == 0xC3 {
                (popped, c.flags, loaded, Step::Done, None)
            } else if opcode == 0xC2 {
                let imm = ((code[0] as u16) | ((code[1] as u16) << 8u16)) as i64;
                (c.reg@.update(ESP as int, above.wrapping_add(imm)), c.flags, loaded, Step::Done, None)
            } else if opcode == 0x9C {
                (pushed, c.flags, ip, Step::Done, Some((below, (c.flags & 0xFC_FFFF) as i64)))
            } else if opcode == 0x9D {
                (popped, popf_flags(c.flags, loaded as i32, cpl), ip, Step::Done, None)
            } else {
                let modrm = code[0] as i32;
                let (next, value) = if modrm >= 0xC0 {
                    (ip.wrapping_add(1), c.reg@[rm_field(c.rex, modrm)])
                } else {
                    let (_, used) = operand_address(c, code, 0, 0, seg_base)->0;
                    (ip.wrapping_add((1 + used) as i64), loaded)
                };
                if modrm >> 3 & 7 == 6 {
                    (pushed, c.flags, next, Step::Done, Some((below, value)))
                } else {
                    (pushed, c.flags, value, Step::Done, Some((below, next)))
                }
            }
        },
    }
}

impl Cpu {
    /// Which eight bytes the stack instruction `opcode` loads and stores, `seg_base` the base of
    /// the segment a memory operand of the 0xff group addresses. `Err` says it is not one to run
    /// this way, as `stack_operand_spec` sets out.
    pub fn stack_operand(&self, opcode: i32, code: &[u8], opsize_prefix: bool, seg_base: i64) -> (r: Result<StackAccess, Step>)
        ensures
            r == stack_operand_spec(*self, opcode, code@, opsize_prefix, seg_base),
    {
        let rsp = self.reg[ESP as usize];
        let push = StackAccess { load: None, store: Some(rsp.wrapping_sub(8)) };
        let pop = StackAccess { load: Some(rsp), store: None };
        if 0x50 <= opcode && opcode <= 0x57 {
            Ok(push)
        } else if (0x58 <= opcode && opcode <= 0x5F) || opcode == 0xC3 {
            Ok(pop)
        } else if opcode == 0x6A {
            if code.len() < 1 {
                Err(Step::FetchFault)
            } else {
                Ok(push)
            }
        } else if opcode == 0x68 || opcode == 0xE8 {
            if code.len() < 4 {
                Err(Step::FetchFault)
            } else {
                Ok(push)
            }
        } else if opcode == 0xC2 {
            if code.len() < 2 {
                Err(Step::FetchFault)
            } else {
                Ok(pop)
            }
        } else if opcode == 0x9C || opcode == 0x9D {
            if operand_size_of(self.rex, opsize_prefix) == 16 {
                Err(Step::Unimplemented)
            } else if opcode == 0x9C {
                Ok(push)
            } else {
                Ok(pop)
            }
        } else if opcode == 0xFF {
            if code.len() < 1 {
                return Err(Step::FetchFault);
            }
            let modrm = code[0] as i32;
            if modrm >> 3 & 7 != 2 && modrm >> 3 & 7 != 6 {
                Err(Step::Outside)
            } else if modrm >= 0xC0 {
                Ok(push)
            } else {
                match self.operand_address_of(code, 0, 0, seg_base) {
                    Err(()) => Err(Step::FetchFault),
                    Ok((addr, _)) => Ok(StackAccess { load: Some(addr), store: push.store }),
                }
            }
        } else {
            Err(Step::Outside)
        }
    }

    /// Runs the stack instruction `opcode` given `loaded`, the eight bytes the caller read where
    /// `stack_operand` said (any value where it loads nothing), and `cpl`, the current privilege
    /// level, which only popfq reads. Returns how it ended and the store to make, an address and
    /// the eight bytes to write there. The registers, the flags and the instruction pointer change
    /// as `stack_effect` says; an instruction that does not run changes nothing.
    pub fn run_stack(
        &mut self,
        opcode: i32,
        code: &[u8],
        opsize_prefix: bool,
        seg_base: i64,
        cpl: u8,
        loaded: i64,
    ) -> (r: (Step, Option<(i64, i64)>))
        ensures
            (final(self).reg@, final(self).flags, final(self).instruction_pointer, r.0, r.1) == stack_effect(
                *old(self),
                opcode,
                code@,
                opsize_prefix,
                seg_base,
                cpl,
                loaded,
            ),
            final(self).rex == old(self).rex,
    {
        match self.stack_operand(opcode, code, opsize_prefix, seg_base) {
            Err(step) => {
                return (step, None);
            },
            Ok(_) => {},
        }
        let ip = self.instruction_pointer;
        let rsp = self.reg[ESP as usize];
        let below = rsp.wrapping_sub(8);
        let above = rsp.wrapping_add(8);
        let e = rex_bit(self.rex, REX_B);
        let reg = (opcode & 7) | e;
        proof {
            lemma_modrm_fields(opcode, e, e);
        }
        if 0x50 <= opcode && opcode <= 0x57 {
            let value = self.reg[reg as usize];
            self.reg[ESP as usize] = below;
            (Step::Done, Some((below, value)))
        } else if 0x58 <= opcode && opcode <= 0x5F {
            self.reg[ESP as usize] = above;
            self.reg[reg as usize] = loaded;
            (Step::Done, None)
        } else if opcode == 0x6A {
            let value = read_imm8s(code, 0);
            self.reg[ESP as usize] = below;
            self.instruction_pointer = ip.wrapping_add(1);
            (Step::Done, Some((below, value)))
        } else if opcode == 0x68 {
            let value = read_imm32s(code, 0);
            self.reg[ESP as usize] = below;
            self.instruction_pointer = ip.wrapping_add(4);
            (Step::Done, Some((below, value)))
        } else if opcode == 0xE8 {
            let next = ip.wrapping_add(4);
            let offset = read_imm32s(code, 0);
            self.reg[ESP as usize] = below;
            self.instruction_pointer = next.wrapping_add(offset);
            (Step::Done, Some((below, next)))
        } else if opcode == 0xC3 {
            self.reg[ESP as usize] = above;
            self.instruction_pointer = loaded;
            (Step::Done, None)
        } else if opcode == 0xC2 {
            let imm = ((code[0] as u16) | ((code[1] as u16) << 8u16)) as i64;
            self.reg[ESP as usize] = above.wrapping_add(imm);
            self.instruction_pointer = loaded;
            (Step::Done, None)
        } else if opcode == 0x9C {
            // resume and virtual 8086 mode are cleared in the image that reaches the stack
            let image = (self.flags & 0xFC_FFFF) as i64;
            self.reg[ESP as usize] = below;
            (Step::Done, Some((below, image)))
        } else if opcode == 0x9D {
            let old = self.flags;
            let popped = loaded as i32;
            let iopl = (old >> 12) & 3;
            let kept = FLAGS_POPF_KEPT | (if cpl != 0 {
                FLAG_IOPL
            } else {
                0
            }) | (if cpl as i32 > iopl {
                FLAG_INTERRUPT
            } else {
                0
            });
            self.flags = (popped & !kept | old & kept) & FLAGS_POPF_MASK | FLAGS_DEFAULT;
            self.reg[ESP as usize] = above;
            (Step::Done, None)
        } else {
            let modrm = code[0] as i32;
            let (next, value) = if modrm >= 0xC0 {
                let rm = self.modrm_rm(modrm);
                (ip.wrapping_add(1), self.reg[rm as usize])
            } else {
                let ghost decoded = operand_address(*self, code@, 0, 0, seg_base);
                let used = match self.operand_address_of(code, 0, 0, seg_base) {
                    Ok((_, used)) => used,
                    Err(()) => {
                        return (Step::FetchFault, None);
                    },
                };
                (ip.wrapping_add((1 + used) as i64), loaded)
            };
            self.reg[ESP as usize] = below;
            if modrm >> 3 & 7 == 6 {
                self.instruction_pointer = next;
                (Step::Done, Some((below, value)))
            } else {
                self.instruction_pointer = value;
                (Step::Done, Some((below, next)))
            }
        }
    }
}

/// The two slots a far return (0xcb) reads: the target at the top of the stack and the selector in
/// the slot above it, each eight bytes under rex.w and four otherwise.
#[derive(Clone, Copy, Debug, PartialEq, Eq, Structural)]
pub struct FarReturn {
    pub target: i64,
    pub selector: i64,
    pub width: i32,
}

/// Where a far return finds its target and selector.
pub open spec fn far_return_spec(c: Cpu, opsize_prefix: bool) -> FarReturn {
    let wide = operand_size(c.rex, opsize_prefix) == 64;
    let rsp = c.reg@[ESP as int];
    FarReturn {
        target: rsp,
        selector: rsp.wrapping_add(if wide { 8 } else { 4 }),
        width: if wide { 64 } else { 32 },
    }
}

/// The selector a far return loads into cs: the low 16 bits of its slot.
pub fn far_return_selector(slot: i64) -> (r: i32)
    ensures
        r == (slot as i32) & 0xFFFF,
{
    (slot as i32) & 0xFFFF
}

impl Cpu {
    /// Where a far return finds its target and selector, as `far_return_spec` says. The caller
    /// reads both, zero extended from the slot width, loads cs from the selector (see
    /// `switch_seg_64_code`) and, once that succeeds, completes the return with `far_return`.
    pub fn far_return_slots(&self, opsize_prefix: bool) -> (r: FarReturn)
        ensures
            r == far_return_spec(*self, opsize_prefix),
    {
        let wide = operand_size_of(self.rex, opsize_prefix) == 64;
        let rsp = self.reg[ESP as usize];
        FarReturn {
            target: rsp,
            selector: rsp.wrapping_add(if wide {
                8
            } else {
                4
            }),
            width: if wide {
                64
            } else {
                32
            },
        }
    }

    /// Completes a far return whose cs was loaded: execution continues at the target read from
    /// its slot, zero extended from four bytes without rex.w, and rsp drops both slots.
    pub fn far_return(&mut self, opsize_prefix: bool, target: i64)
        ensures
            ({
                let wide = operand_size(old(self).rex, opsize_prefix) == 64;
                &&& final(self).instruction_pointer == if wide {
                    target
                } else {
                    target as u32 as i64
                }
                &&& final(self).reg@ == old(self).reg@.update(
                    ESP as int,
                    old(self).reg@[ESP as int].wrapping_add(if wide { 16 } else { 8 }),
                )
            }),
            final(self).flags == old(self).flags,
            final(self).rex == old(self).rex,
    {
        let wide = operand_size_of(self.rex, opsize_prefix) == 64;
        self.instruction_pointer = if wide {
            target
        } else {
            target as u32 as i64
        };
        let rsp = self.reg[ESP as usize];
        self.reg[ESP as usize] = rsp.wrapping_add(if wide {
            16
        } else {
            8
        });
    }
}

/// push and pop of fs and gs (0x0f 0xa0, 0xa1, 0xa8 and 0xa9, `opcode` the second opcode byte):
/// the segment, fs (4) or gs (5), and the eight bytes of stack it moves through, whatever the
/// operand size; `None` for any other opcode.
pub open spec fn segment_stack_spec(c: Cpu, opcode: i32) -> Option<(i32, StackAccess)> {
    let rsp = c.reg@[ESP as int];
    let segment: i32 = if opcode < 0xA8 { 4 } else { 5 };
    if opcode == 0xA0 || opcode == 0xA8 {
        Some((segment, StackAccess { load: None, store: Some(rsp.wrapping_sub(8)) }))
    } else if opcode == 0xA1 || opcode == 0xA9 {
        Some((segment, StackAccess { load: Some(rsp), store: None }))
    } else {
        None
    }
}

impl Cpu {
    /// The segment and the stack slot of push or pop of fs or gs, as `segment_stack_spec` says.
    pub fn segment_stack_operand(&self, opcode: i32) -> (r: Option<(i32, StackAccess)>)
        ensures
            r == segment_stack_spec(*self, opcode),
    {
        let rsp = self.reg[ESP as usize];
        let segment: i32 = if opcode < 0xA8 {
            4
        } else {
            5
        };
        if opcode == 0xA0 || opcode == 0xA8 {
            Some((segment, StackAccess { load: None, store: Some(rsp.wrapping_sub(8)) }))
        } else if opcode == 0xA1 || opcode == 0xA9 {
            Some((segment, StackAccess { load: Some(rsp), store: None }))
        } else {
            None
        }
    }

    /// push fs or push gs, given the segment's selector: rsp moves down by eight, and the caller
    /// stores the selector, zero extended, at the address handed back.
    pub fn push_segment(&mut self, selector: u16) -> (r: (i64, i64))
        ensures
            r == (old(self).reg@[ESP as int].wrapping_sub(8), selector as i64),
            final(self).reg@ == old(self).reg@.update(ESP as int, old(self).reg@[ESP as int].wrapping_sub(8)),
            final(self).flags == old(self).flags,
            final(self).instruction_pointer == old(self).instruction_pointer,
            final(self).rex == old(self).rex,
    {
        let below = self.reg[ESP as usize].wrapping_sub(8);
        self.reg[ESP as usize] = below;
        (below, selector as i64)
    }

    /// pop fs or pop gs, given the eight bytes read at the top of the stack: rsp moves up by eight,
    /// and the selector to load, their low sixteen bits, is handed back.
    pub fn pop_segment(&mut self, loaded: i64) -> (r: i32)
        ensures
            r == (loaded as i32) & 0xFFFF,
            final(self).reg@ == old(self).reg@.update(ESP as int, old(self).reg@[ESP as int].wrapping_add(8)),
            final(self).flags == old(self).flags,
            final(self).instruction_pointer == old(self).instruction_pointer,
            final(self).rex == old(self).rex,
    {
        let above = self.reg[ESP as usize].wrapping_add(8);
        self.reg[ESP as usize] = above;
        (loaded as i32) & 0xFFFF
    }
}

} // verus!
