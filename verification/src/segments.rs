//! The segment loads of 64-bit mode: lldt and ltr, whose system descriptors are sixteen bytes with
//! a 64-bit base, and cs on a far return; the moves to and from segment registers; and the
//! descriptor table instructions of groups 6 and 7.
//!
//! Looking a selector up in the descriptor tables is the caller's; these functions take what the
//! lookup found and decide what is loaded, or which fault is raised.

use vstd::prelude::*;
use crate::cpu::{Cpu, sized_write};
use crate::memory::operand_address;
use crate::modrm::lemma_modrm_fields;
use crate::run::{Step, operand_size, operand_size_of, reg_field, rm_field, unimplemented_past};
use crate::width::truncate_address;

verus! {

/// What the loads read of a descriptor.
#[derive(Clone, Copy, Debug, PartialEq, Eq, Structural)]
pub struct Descriptor {
    /// The s bit is clear: an ldt, a tss or a gate rather than code or data.
    pub system: bool,
    /// The type field of a system descriptor: 2 for an ldt, 9 for an available 64-bit tss.
    pub system_type: u8,
    pub present: bool,
    pub executable: bool,
    /// The l bit of a code descriptor.
    pub long: bool,
    /// The d bit of a code descriptor.
    pub is_32: bool,
    /// The base: all 64 bits for a system descriptor, 32 for a code or data one.
    pub base: i64,
    /// The limit in bytes, the granularity applied.
    pub effective_limit: u32,
    pub access_byte: u8,
}

/// A fault a load raises, with its error code.
#[derive(Clone, Copy, Debug, PartialEq, Eq, Structural)]
pub enum SegmentFault {
    /// #gp.
    GeneralProtection(i32),
    /// #np.
    NotPresent(i32),
}

/// How loading the ldtr or the task register ends.
#[derive(Clone, Copy, Debug, PartialEq, Eq, Structural)]
pub enum TableLoad {
    /// The register takes the selector, the base and the limit.
    Load { selector: u16, base: i32, limit: u32 },
    /// A fault was raised and nothing is loaded.
    Fault(SegmentFault),
    /// The base lies at 4 GiB or above, which the 32-bit segment state cannot hold; nothing is
    /// loaded.
    Refused,
}

/// The error code of a fault on a selector: the selector with its requested privilege level
/// cleared.
pub open spec fn selector_error(selector: i32) -> i32 {
    selector & !3
}

/// Loading a system register from `found`, the descriptor `selector` names or `None` where the
/// lookup failed. It must be a present system descriptor of `wanted_type`.
pub open spec fn table_load(selector: i32, found: Option<Descriptor>, wanted_type: u8) -> TableLoad {
    match found {
        None => TableLoad::Fault(SegmentFault::GeneralProtection(selector_error(selector))),
        Some(d) => if !d.system || d.system_type != wanted_type {
            TableLoad::Fault(SegmentFault::GeneralProtection(selector_error(selector)))
        } else if !d.present {
            TableLoad::Fault(SegmentFault::NotPresent(selector_error(selector)))
        } else if !(0 <= d.base < 0x1_0000_0000) {
            TableLoad::Refused
        } else {
            TableLoad::Load { selector: selector as u16, base: d.base as i32, limit: d.effective_limit }
        },
    }
}

fn load_system(selector: i32, found: Option<Descriptor>, wanted_type: u8) -> (r: TableLoad)
    ensures
        r == table_load(selector, found, wanted_type),
{
    match found {
        None => TableLoad::Fault(SegmentFault::GeneralProtection(selector & !3)),
        Some(d) => {
            if !d.system || d.system_type != wanted_type {
                return TableLoad::Fault(SegmentFault::GeneralProtection(selector & !3));
            }
            if !d.present {
                return TableLoad::Fault(SegmentFault::NotPresent(selector & !3));
            }
            match truncate_address(d.base) {
                Ok(base) => {
                    proof {
                        let full = d.base;
                        assert(base as u32 as int == full ==> base == full as i32) by (bit_vector);
                    }
                    TableLoad::Load { selector: selector as u16, base, limit: d.effective_limit }
                },
                Err(()) => TableLoad::Refused,
            }
        },
    }
}

/// lldt. A null selector empties the ldtr, leaving no table; any other must name a present ldt
/// descriptor, type 2. `found` is what looking the selector up found, `None` where it failed.
pub fn load_ldt_64(selector: i32, null: bool, found: Option<Descriptor>) -> (r: TableLoad)
    ensures
        r == if null {
            TableLoad::Load { selector: selector as u16, base: 0, limit: 0 }
        } else {
            table_load(selector, found, 2)
        },
{
    if null {
        return TableLoad::Load { selector: selector as u16, base: 0, limit: 0 };
    }
    load_system(selector, found, 2)
}

/// ltr. The selector must name a present available 64-bit tss, type 9. Once loaded, the caller
/// marks the descriptor busy, writing `busy_access_byte` of it back to the table.
pub fn load_tr_64(selector: i32, found: Option<Descriptor>) -> (r: TableLoad)
    ensures
        r == table_load(selector, found, 9),
{
    load_system(selector, found, 9)
}

/// The access byte of a tss descriptor marked busy: type 9 becomes 11.
pub fn busy_access_byte(access_byte: u8) -> (r: u8)
    ensures
        r == access_byte | 2,
        r & 0xF == 11 <==> access_byte & 0xF == 9 || access_byte & 0xF == 11,
{
    assert((access_byte | 2) & 0xF == 11 <==> access_byte & 0xF == 9 || access_byte & 0xF == 11)
        by (bit_vector);
    access_byte | 2
}

/// The code segment state a far return loads.
#[derive(Clone, Copy, Debug, PartialEq, Eq, Structural)]
pub struct CodeSegment {
    /// The selector, its requested privilege level replaced by the current one.
    pub selector: u16,
    pub base: i64,
    pub limit: u32,
    pub access_byte: u8,
    /// Whether the segment is 64-bit code.
    pub is_64: bool,
    /// Whether the segment is 32-bit compatibility code; neither means 16-bit.
    pub is_32: bool,
}

/// Loading cs on a far return from `found`, the descriptor `selector` names or `None` where the
/// lookup failed. A 64-bit code segment is flat, so it loads no base and an unlimited limit.
pub open spec fn code_load(selector: i32, found: Option<Descriptor>, cpl: u8) -> Result<CodeSegment, SegmentFault> {
    match found {
        None => Err(SegmentFault::GeneralProtection(selector_error(selector))),
        Some(d) => if !d.present {
            Err(SegmentFault::NotPresent(selector_error(selector)))
        } else if !d.executable {
            Err(SegmentFault::GeneralProtection(selector_error(selector)))
        } else {
            Ok(
                CodeSegment {
                    selector: (selector as u16 & !3u16) | cpl as u16,
                    base: if d.long {
                        0
                    } else {
                        d.base
                    },
                    limit: if d.long {
                        0xFFFF_FFFF
                    } else {
                        d.effective_limit
                    },
                    access_byte: d.access_byte,
                    is_64: d.long,
                    is_32: d.is_32 && !d.long,
                },
            )
        },
    }
}

/// Decides the code segment a far return loads into cs, or the fault it raises. `cpl` is the
/// privilege level the return lands at.
pub fn switch_seg_64_code(selector: i32, found: Option<Descriptor>, cpl: u8) -> (r: Result<CodeSegment, SegmentFault>)
    ensures
        r == code_load(selector, found, cpl),
{
    match found {
        None => Err(SegmentFault::GeneralProtection(selector & !3)),
        Some(d) => {
            if !d.present {
                return Err(SegmentFault::NotPresent(selector & !3));
            }
            if !d.executable {
                return Err(SegmentFault::GeneralProtection(selector & !3));
            }
            Ok(
                CodeSegment {
                    selector: (selector as u16 & !3u16) | cpl as u16,
                    base: if d.long {
                        0
                    } else {
                        d.base
                    },
                    limit: if d.long {
                        0xFFFF_FFFF
                    } else {
                        d.effective_limit
                    },
                    access_byte: d.access_byte,
                    is_64: d.long,
                    is_32: d.is_32 && !d.long,
                },
            )
        },
    }
}

/// What mov r/m, sreg (0x8c) does, `selectors` the six segment selectors es, cs, ss, ds, fs and gs:
/// the selector the reg field names goes to a register zero extended to the operand size, or is
/// stored, sixteen bits of it, at the memory operand, whose address and value are handed back. A
/// reg field past the six is not implemented.
pub open spec fn mov_from_segment_spec(c: Cpu, code: Seq<u8>, opsize_prefix: bool, seg_base: i64, selectors: Seq<u16>) -> (Seq<i64>, i32, i64, Step, Option<(i64, i64)>) {
    if code.len() < 1 {
        (c.reg@, c.flags, c.instruction_pointer, Step::FetchFault, None)
    } else {
        let modrm = code[0] as i32;
        let index = modrm >> 3 & 7;
        if index >= 6 {
            let e = unimplemented_past(c, 1);
            (e.0, e.1, e.2, e.3, None)
        } else {
            let value = selectors[index as int] as i64;
            if modrm >= 0xC0 {
                let rm = rm_field(c.rex, modrm);
                (c.reg@.update(rm, sized_write(c.reg@[rm], value, operand_size(c.rex, opsize_prefix))), c.flags,
                    c.instruction_pointer.wrapping_add(1), Step::Done, None)
            } else {
                match operand_address(c, code, 0, 0, seg_base) {
                    None => (c.reg@, c.flags, c.instruction_pointer, Step::FetchFault, None),
                    Some((addr, used)) => (c.reg@, c.flags, c.instruction_pointer.wrapping_add((1 + used) as i64), Step::Done, Some(
                        (addr, value),
                    )),
                }
            }
        }
    }
}

/// What mov sreg, r/m16 (0x8e) loads: the segment the reg field names, and the selector, the low
/// sixteen bits of a register, or the address of the memory operand the caller reads it from.
#[derive(Clone, Copy, Debug, PartialEq, Eq, Structural)]
pub struct SegmentMove {
    pub segment: i32,
    pub selector: Option<i32>,
    pub addr: Option<i64>,
}

/// What `mov_to_segment` decodes and where it leaves the instruction pointer, past the operand.
pub open spec fn mov_to_segment_spec(c: Cpu, code: Seq<u8>, seg_base: i64) -> (Result<SegmentMove, Step>, i64) {
    if code.len() < 1 {
        (Err(Step::FetchFault), c.instruction_pointer)
    } else {
        let modrm = code[0] as i32;
        let segment = modrm >> 3 & 7;
        if modrm >= 0xC0 {
            (Ok(SegmentMove {
                segment,
                selector: Some((c.reg@[rm_field(c.rex, modrm)] as i32) & 0xFFFF),
                addr: None,
            }), c.instruction_pointer.wrapping_add(1))
        } else {
            match operand_address(c, code, 0, 0, seg_base) {
                None => (Err(Step::FetchFault), c.instruction_pointer),
                Some((addr, used)) => (Ok(SegmentMove { segment, selector: None, addr: Some(addr) }),
                    c.instruction_pointer.wrapping_add((1 + used) as i64)),
            }
        }
    }
}

/// What an instruction of group 6 (0x0f 0x00) or group 7 (0x0f 0x01) leaves to the caller, which
/// holds the descriptor table registers and the memory.
#[derive(Clone, Copy, Debug, PartialEq, Eq, Structural)]
pub enum TableAccess {
    /// sldt or str to memory: the caller stores the low sixteen bits of `value` at `addr`.
    Store16 { addr: i64, value: i64 },
    /// lldt (`ldt`) or ltr: the selector, from a register, or the address the caller reads its
    /// sixteen bits from, before it looks the selector up and loads it with `load_ldt_64` or
    /// `load_tr_64`.
    LoadSelector { ldt: bool, selector: Option<i32>, addr: Option<i64> },
    /// sgdt (`gdt`) or sidt: the caller stores `limit`, sixteen bits, at `addr` and `base`, eight
    /// bytes, at `addr + 2`.
    StoreTable { gdt: bool, addr: i64, limit: i32, base: i64 },
    /// lgdt (`gdt`) or lidt: the caller reads the limit, sixteen bits, at `addr` and the base,
    /// eight bytes, at `addr + 2`, and hands them to `pseudo_descriptor`.
    LoadTable { gdt: bool, addr: i64 },
    /// invlpg: the caller drops the page of `addr` from its translations.
    Invalidate { addr: i64 },
    /// #gp(0); nothing changed.
    GeneralProtection,
}

/// What group 6 does, `code[0]` the modrm byte and `ldtr` and `tr` the two system selectors:
/// sldt (/0) and str (/1) write the selector to a register zero extended to the operand size or
/// leave it to the caller to store; lldt (/2) and ltr (/3) take the selector from the low sixteen
/// bits of a register or from memory. The rest is not implemented. The registers, the instruction
/// pointer, and what is left to the caller or how it ended.
pub open spec fn group6_spec(c: Cpu, code: Seq<u8>, opsize_prefix: bool, seg_base: i64, ldtr: u16, tr: u16) -> (Seq<i64>, i64, Result<TableAccess, Step>) {
    if code.len() < 1 {
        (c.reg@, c.instruction_pointer, Err(Step::FetchFault))
    } else {
        let modrm = code[0] as i32;
        let group = modrm >> 3 & 7;
        let rm = rm_field(c.rex, modrm);
        if group > 3 {
            (c.reg@, c.instruction_pointer.wrapping_add(1), Err(Step::Unimplemented))
        } else if modrm >= 0xC0 {
            let past = c.instruction_pointer.wrapping_add(1);
            if group < 2 {
                let value = if group == 0 { ldtr } else { tr } as i64;
                (c.reg@.update(rm, sized_write(c.reg@[rm], value, operand_size(c.rex, opsize_prefix))), past, Err(Step::Done))
            } else {
                (c.reg@, past, Ok(TableAccess::LoadSelector {
                    ldt: group == 2,
                    selector: Some((c.reg@[rm] as i32) & 0xFFFF),
                    addr: None,
                }))
            }
        } else {
            match operand_address(c, code, 0, 0, seg_base) {
                None => (c.reg@, c.instruction_pointer, Err(Step::FetchFault)),
                Some((addr, used)) => {
                    let past = c.instruction_pointer.wrapping_add((1 + used) as i64);
                    if group < 2 {
                        (c.reg@, past, Ok(TableAccess::Store16 { addr, value: if group == 0 { ldtr } else { tr } as i64 }))
                    } else {
                        (c.reg@, past, Ok(TableAccess::LoadSelector { ldt: group == 2, selector: None, addr: Some(addr) }))
                    }
                },
            }
        }
    }
}

/// What group 7 does, `code[0]` the modrm byte, `cpl` the privilege level and `gdtr` and `idtr`
/// the limit and base of the two tables. invlpg (/7 with a memory operand) is for ring 0 only.
/// swapgs (modrm 0xf8) is `swapgs`'s and answered `Outside`. Of the rest only the memory forms of
/// sgdt, sidt, lgdt and lidt (/0 to /3) are implemented: the pseudo descriptor is ten bytes in
/// long mode, a sixteen bit limit and an eight byte base, of which 32 bits are kept.
pub open spec fn group7_spec(c: Cpu, code: Seq<u8>, seg_base: i64, cpl: u8, gdtr: (i32, i32), idtr: (i32, i32)) -> (i64, Result<TableAccess, Step>) {
    if code.len() < 1 {
        (c.instruction_pointer, Err(Step::FetchFault))
    } else {
        let modrm = code[0] as i32;
        let group = modrm >> 3 & 7;
        if group == 7 && modrm < 0xC0 && cpl != 0 {
            (c.instruction_pointer, Ok(TableAccess::GeneralProtection))
        } else if modrm == 0xF8 {
            (c.instruction_pointer, Err(Step::Outside))
        } else if modrm >= 0xC0 || (group > 3 && group != 7) {
            (c.instruction_pointer.wrapping_add(1), Err(Step::Unimplemented))
        } else {
            match operand_address(c, code, 0, 0, seg_base) {
                None => (c.instruction_pointer, Err(Step::FetchFault)),
                Some((addr, used)) => {
                    let past = c.instruction_pointer.wrapping_add((1 + used) as i64);
                    if group == 7 {
                        (past, Ok(TableAccess::Invalidate { addr }))
                    } else if group < 2 {
                        let (limit, base) = if group == 0 { gdtr } else { idtr };
                        (past, Ok(TableAccess::StoreTable { gdt: group == 0, addr, limit, base: base as u32 as i64 }))
                    } else {
                        (past, Ok(TableAccess::LoadTable { gdt: group == 2, addr }))
                    }
                },
            }
        }
    }
}

impl Cpu {
    /// mov r/m, sreg, as `mov_from_segment_spec` says. Returns how it ended and, for a memory
    /// operand, the address and the selector the caller stores there, sixteen bits wide.
    pub fn mov_from_segment(&mut self, code: &[u8], opsize_prefix: bool, seg_base: i64, selectors: [u16; 6]) -> (r: (Step, Option<(i64, i64)>))
        ensures
            (final(self).reg@, final(self).flags, final(self).instruction_pointer, r.0, r.1) == mov_from_segment_spec(
                *old(self),
                code@,
                opsize_prefix,
                seg_base,
                selectors@,
            ),
            final(self).rex == old(self).rex,
    {
        if code.len() < 1 {
            return (Step::FetchFault, None);
        }
        let modrm = code[0] as i32;
        let index = modrm >> 3 & 7;
        proof {
            lemma_modrm_fields(modrm, 0, 0);
        }
        if index >= 6 {
            self.instruction_pointer = self.instruction_pointer.wrapping_add(1);
            return (Step::Unimplemented, None);
        }
        let value = selectors[index as usize] as i64;
        if modrm >= 0xC0 {
            let rm = self.modrm_rm(modrm);
            let osize = operand_size_of(self.rex, opsize_prefix);
            self.write_reg_sized(rm, value, osize);
            self.instruction_pointer = self.instruction_pointer.wrapping_add(1);
            return (Step::Done, None);
        }
        match self.operand_address_of(code, 0, 0, seg_base) {
            Err(()) => (Step::FetchFault, None),
            Ok((addr, used)) => {
                self.instruction_pointer = self.instruction_pointer.wrapping_add((1 + used) as i64);
                (Step::Done, Some((addr, value)))
            },
        }
    }

    /// mov sreg, r/m16: what it loads, as `mov_to_segment_spec` says, the instruction pointer moved
    /// past the operand when it decodes. The caller reads a memory operand's selector and loads the
    /// segment (see `switch_seg_64_code` for cs).
    pub fn mov_to_segment(&mut self, code: &[u8], seg_base: i64) -> (r: Result<SegmentMove, Step>)
        ensures
            (r, final(self).instruction_pointer) == mov_to_segment_spec(*old(self), code@, seg_base),
            final(self).reg == old(self).reg,
            final(self).flags == old(self).flags,
            final(self).rex == old(self).rex,
    {
        if code.len() < 1 {
            return Err(Step::FetchFault);
        }
        let modrm = code[0] as i32;
        let segment = modrm >> 3 & 7;
        if modrm >= 0xC0 {
            let rm = self.modrm_rm(modrm);
            let selector = (self.reg[rm as usize] as i32) & 0xFFFF;
            self.instruction_pointer = self.instruction_pointer.wrapping_add(1);
            return Ok(SegmentMove { segment, selector: Some(selector), addr: None });
        }
        match self.operand_address_of(code, 0, 0, seg_base) {
            Err(()) => Err(Step::FetchFault),
            Ok((addr, used)) => {
                self.instruction_pointer = self.instruction_pointer.wrapping_add((1 + used) as i64);
                Ok(SegmentMove { segment, selector: None, addr: Some(addr) })
            },
        }
    }

    /// An instruction of group 6, as `group6_spec` says.
    pub fn group6(&mut self, code: &[u8], opsize_prefix: bool, seg_base: i64, ldtr: u16, tr: u16) -> (r: Result<TableAccess, Step>)
        ensures
            (final(self).reg@, final(self).instruction_pointer, r) == group6_spec(*old(self), code@, opsize_prefix, seg_base, ldtr, tr),
            final(self).flags == old(self).flags,
            final(self).rex == old(self).rex,
    {
        if code.len() < 1 {
            return Err(Step::FetchFault);
        }
        let modrm = code[0] as i32;
        let group = modrm >> 3 & 7;
        proof {
            lemma_modrm_fields(modrm, 0, 0);
        }
        let rm = self.modrm_rm(modrm);
        if group > 3 {
            self.instruction_pointer = self.instruction_pointer.wrapping_add(1);
            return Err(Step::Unimplemented);
        }
        if modrm >= 0xC0 {
            self.instruction_pointer = self.instruction_pointer.wrapping_add(1);
            if group < 2 {
                let value = if group == 0 { ldtr } else { tr } as i64;
                let osize = operand_size_of(self.rex, opsize_prefix);
                self.write_reg_sized(rm, value, osize);
                return Err(Step::Done);
            }
            let selector = (self.reg[rm as usize] as i32) & 0xFFFF;
            return Ok(TableAccess::LoadSelector { ldt: group == 2, selector: Some(selector), addr: None });
        }
        match self.operand_address_of(code, 0, 0, seg_base) {
            Err(()) => Err(Step::FetchFault),
            Ok((addr, used)) => {
                self.instruction_pointer = self.instruction_pointer.wrapping_add((1 + used) as i64);
                if group < 2 {
                    Ok(TableAccess::Store16 { addr, value: if group == 0 { ldtr } else { tr } as i64 })
                } else {
                    Ok(TableAccess::LoadSelector { ldt: group == 2, selector: None, addr: Some(addr) })
                }
            },
        }
    }

    /// An instruction of group 7, as `group7_spec` says; only the instruction pointer changes.
    pub fn group7(&mut self, code: &[u8], seg_base: i64, cpl: u8, gdtr: (i32, i32), idtr: (i32, i32)) -> (r: Result<TableAccess, Step>)
        ensures
            (final(self).instruction_pointer, r) == group7_spec(*old(self), code@, seg_base, cpl, gdtr, idtr),
            final(self).reg == old(self).reg,
            final(self).flags == old(self).flags,
            final(self).rex == old(self).rex,
    {
        if code.len() < 1 {
            return Err(Step::FetchFault);
        }
        let modrm = code[0] as i32;
        let group = modrm >> 3 & 7;
        if group == 7 && modrm < 0xC0 && cpl != 0 {
            return Ok(TableAccess::GeneralProtection);
        }
        if modrm == 0xF8 {
            return Err(Step::Outside);
        }
        if modrm >= 0xC0 || (group > 3 && group != 7) {
            self.instruction_pointer = self.instruction_pointer.wrapping_add(1);
            return Err(Step::Unimplemented);
        }
        match self.operand_address_of(code, 0, 0, seg_base) {
            Err(()) => Err(Step::FetchFault),
            Ok((addr, used)) => {
                self.instruction_pointer = self.instruction_pointer.wrapping_add((1 + used) as i64);
                if group == 7 {
                    Ok(TableAccess::Invalidate { addr })
                } else if group < 2 {
                    let (limit, base) = if group == 0 { gdtr } else { idtr };
                    Ok(TableAccess::StoreTable { gdt: group == 0, addr, limit, base: base as u32 as i64 })
                } else {
                    Ok(TableAccess::LoadTable { gdt: group == 2, addr })
                }
            },
        }
    }
}

/// The limit and base lgdt and lidt load, from the sixteen bit limit and eight byte base read from
/// memory: the base must lie below 4 GiB, as the table registers keep 32 bits of it; a base above is
/// refused and nothing is loaded.
pub fn pseudo_descriptor(limit: i32, base: i64) -> (r: Result<(i32, i32), ()>)
    ensures
        r is Ok <==> 0 <= base < 0x1_0000_0000,
        r matches Ok((l, b)) ==> l == limit & 0xFFFF && b as u32 as int == base,
{
    match truncate_address(base) {
        Ok(b) => Ok((limit & 0xFFFF, b)),
        Err(()) => Err(()),
    }
}

} // verus!
