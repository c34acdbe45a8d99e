//! The privilege transitions of long mode, syscall, sysret, swapgs and iret, port i/o, the
//! software interrupts, and the moves to and from control and debug registers.
//!
//! The segment caches, the descriptor tables, the devices behind the ports and the i/o
//! permission check are the caller's. These functions decide what the registers, the flags, the
//! privilege level and the model specific registers become, and say which segments to load or
//! which fault to raise; the caller does the loading and raising.

use vstd::prelude::*;
use crate::cpu::{Cpu, ECX, EAX, EDX, sized_write};
use crate::flags::{FLAGS_DEFAULT, FLAG_RF, FLAG_VM};
use crate::run::{Step, operand_size, operand_size_of, reg_field, rm_field};
use crate::segments::SegmentFault;
use crate::sse::{is_sse_66_source_op, sse_66_source_op};
use crate::stack::popf_flags;

verus! {

/// The system call enable bit of efer.
pub const EFER_SCE: i64 = 1;

/// The state of the privilege transitions beyond the register file: the current privilege level,
/// efer, the three system call msrs, and the active and kernel gs bases that swapgs exchanges.
#[derive(Clone, Copy, Debug, PartialEq, Eq, Structural)]
pub struct SystemState {
    pub cpl: u8,
    pub efer: i64,
    pub star: i64,
    pub lstar: i64,
    pub sfmask: i64,
    pub gs_base: i64,
    pub gs_base_kernel: i64,
}

/// How a privilege transition ended.
#[derive(Clone, Copy, Debug, PartialEq, Eq, Structural)]
pub enum SystemEffect {
    /// It ran, and no segment changes.
    Done,
    /// It ran; the caller loads cs and ss with these selectors, flat, in 64-bit mode or not.
    LoadSegments { cs: i32, ss: i32, long_mode: bool },
    /// #ud; nothing changed.
    InvalidOpcode,
    /// #gp(0); nothing changed.
    GeneralProtection,
}

/// The cs syscall enters with, star[47:32] with its low two bits cleared: the kernel runs at
/// ring 0 whatever the selector says. ss is the descriptor after it.
pub open spec fn syscall_cs(star: i64) -> i32 {
    ((star >> 32) as i32) & 0xFFFC
}

/// The cs and ss sysret returns to, at ring 3: from star[63:48], the base of the pair, ss the
/// descriptor after it, and cs the base in compatibility mode or two descriptors past it in
/// 64-bit mode.
pub open spec fn sysret_segments(star: i64, to_64: bool) -> (i32, i32) {
    let base = ((star >> 48) as i32) & 0xFFFF;
    (((base + if to_64 { 16i32 } else { 0i32 }) as i32) | 3, ((base + 8) as i32) | 3)
}

/// What syscall does: the registers, the flags, the instruction pointer, the system state and how
/// it ends. With efer.sce clear it raises #ud and changes nothing. Otherwise rcx takes the return
/// address and r11 the flags, the flags lose what sfmask names and the resume flag, the privilege
/// level becomes 0, the caller loads cs and ss from star, and execution continues at lstar.
pub open spec fn syscall_spec(c: Cpu, s: SystemState) -> (Seq<i64>, i32, i64, SystemState, SystemEffect) {
    if s.efer & EFER_SCE == 0 {
        (c.reg@, c.flags, c.instruction_pointer, s, SystemEffect::InvalidOpcode)
    } else {
        (
            c.reg@.update(ECX as int, c.instruction_pointer).update(11, c.flags as i64),
            ((c.flags as i64 & !s.sfmask) as i32) & !FLAG_RF,
            s.lstar,
            SystemState { cpl: 0, ..s },
            SystemEffect::LoadSegments { cs: syscall_cs(s.star), ss: (syscall_cs(s.star) + 8) as i32, long_mode: true },
        )
    }
}

/// What sysret does. With efer.sce clear it raises #ud, and anywhere but ring 0 #gp(0), changing
/// nothing. Otherwise it returns to ring 3, in 64-bit mode at rcx under rex.w and in compatibility
/// mode at ecx zero extended without it, with the flags from r11, virtual 8086 mode and resume
/// cleared; the caller loads cs and ss as `sysret_segments` says.
pub open spec fn sysret_spec(c: Cpu, s: SystemState, opsize_prefix: bool) -> (Seq<i64>, i32, i64, SystemState, SystemEffect) {
    let to_64 = operand_size(c.rex, opsize_prefix) == 64;
    let rcx = c.reg@[ECX as int];
    if s.efer & EFER_SCE == 0 {
        (c.reg@, c.flags, c.instruction_pointer, s, SystemEffect::InvalidOpcode)
    } else if s.cpl != 0 {
        (c.reg@, c.flags, c.instruction_pointer, s, SystemEffect::GeneralProtection)
    } else {
        let (cs, ss) = sysret_segments(s.star, to_64);
        (
            c.reg@,
            ((c.reg@[11] as i32) & !(FLAG_VM | FLAG_RF)) | FLAGS_DEFAULT,
            if to_64 { rcx } else { rcx as i32 as u32 as i64 },
            SystemState { cpl: 3, ..s },
            SystemEffect::LoadSegments { cs, ss, long_mode: to_64 },
        )
    }
}

/// What swapgs does: at ring 0 it exchanges the active gs base with the kernel one; anywhere
/// else it raises #gp(0) and changes nothing.
pub open spec fn swapgs_spec(s: SystemState) -> (SystemState, SystemEffect) {
    if s.cpl != 0 {
        (s, SystemEffect::GeneralProtection)
    } else {
        (SystemState { gs_base: s.gs_base_kernel, gs_base_kernel: s.gs_base, ..s }, SystemEffect::Done)
    }
}

/// Where iret returns to: the frame it popped, rip, cs, rflags, rsp and ss in that order, and the
/// privilege level it lands at, the rpl of the popped cs.
#[derive(Clone, Copy, Debug, PartialEq, Eq, Structural)]
pub struct IretTarget {
    pub rip: i64,
    pub cs: i32,
    pub rflags: i64,
    pub rsp: i64,
    pub ss: i32,
    pub cpl: u8,
}

/// What iret decides from the five slots it popped: a return to a more privileged ring than the
/// current one raises #gp(0); otherwise the frame and the ring it lands at, from which the caller
/// loads cs (see `switch_seg_64_code`) and ss before `iret_finish`.
pub open spec fn iret_spec(cpl: u8, frame: Seq<i64>) -> Result<IretTarget, SegmentFault> {
    let new_cpl = (frame[1] & 3) as u8;
    if new_cpl < cpl {
        Err(SegmentFault::GeneralProtection(0))
    } else {
        Ok(IretTarget {
            rip: frame[0],
            cs: (frame[1] as i32) & 0xFFFF,
            rflags: frame[2],
            rsp: frame[3],
            ss: (frame[4] as i32) & 0xFFFF,
            cpl: new_cpl,
        })
    }
}

/// Decides an iret from the five slots it popped, as `iret_spec` says.
pub fn iret_target(cpl: u8, frame: [i64; 5]) -> (r: Result<IretTarget, SegmentFault>)
    ensures
        r == iret_spec(cpl, frame@),
{
    let new_cpl = (frame[1] & 3) as u8;
    if new_cpl < cpl {
        Err(SegmentFault::GeneralProtection(0))
    } else {
        Ok(IretTarget {
            rip: frame[0],
            cs: (frame[1] as i32) & 0xFFFF,
            rflags: frame[2],
            rsp: frame[3],
            ss: (frame[4] as i32) & 0xFFFF,
            cpl: new_cpl,
        })
    }
}

/// A port access: the port, the width in bits, whether it writes, and for a write the value
/// written, the low `width` bits of rax.
#[derive(Clone, Copy, Debug, PartialEq, Eq, Structural)]
pub struct PortAccess {
    pub port: i32,
    pub width: i32,
    pub out: bool,
    pub value: i64,
}

/// What in and out (0xe4 to 0xe7 with the port in an immediate byte, 0xec to 0xef with it in dx)
/// access: a byte for the even opcodes, otherwise 16 bits under a 0x66 prefix and 32 without; rex.w
/// means nothing here. `Outside` for any other opcode, `FetchFault` when the immediate is missing.
pub open spec fn port_access_spec(c: Cpu, opcode: i32, code: Seq<u8>, opsize_prefix: bool) -> Result<PortAccess, Step> {
    if !(0xE4 <= opcode <= 0xE7 || 0xEC <= opcode <= 0xEF) {
        Err(Step::Outside)
    } else if opcode < 0xEC && code.len() < 1 {
        Err(Step::FetchFault)
    } else {
        let port: i32 = if opcode < 0xEC { code[0] as i32 } else { (c.reg@[EDX as int] as i32) & 0xFFFF };
        let width: i32 = if opcode & 1 == 0 { 8 } else if opsize_prefix { 16 } else { 32 };
        let value: i64 = if width == 8 {
            c.reg@[EAX as int] & 0xFF
        } else if width == 16 {
            c.reg@[EAX as int] & 0xFFFF
        } else {
            c.reg@[EAX as int] & 0xFFFF_FFFF
        };
        Ok(PortAccess { port, width, out: opcode & 2 != 0, value })
    }
}

/// The accumulator after an in of `width` bits reads `value`: a byte or a word replaces that much
/// of rax and keeps the rest; 32 bits zero extend into rax, like every 32-bit write in 64-bit mode.
pub open spec fn port_in_write(rax: i64, width: i32, value: i64) -> i64 {
    if width == 8 {
        rax & !0xFF | value & 0xFF
    } else if width == 16 {
        sized_write(rax, value, 16)
    } else {
        sized_write(rax, value, 32)
    }
}

impl Cpu {
    /// syscall: the fast entry to a 64-bit kernel. With efer.sce clear it raises #ud. Otherwise
    /// rcx takes the return address and r11 the flags, the flags lose what sfmask names and the
    /// resume flag, the privilege level becomes 0, the caller loads cs and ss from star, and
    /// execution continues at lstar.
    pub fn syscall(&mut self, s: &mut SystemState) -> (r: SystemEffect)
        ensures
            (final(self).reg@, final(self).flags, final(self).instruction_pointer, *final(s), r) == syscall_spec(
                *old(self),
                *old(s),
            ),
            final(self).rex == old(self).rex,
    {
        if 0 == s.efer & EFER_SCE {
            return SystemEffect::InvalidOpcode;
        }
        // rcx takes the return address and r11 the flags: syscall has no stack to put them on yet
        self.reg[ECX as usize] = self.instruction_pointer;
        self.reg[11] = self.flags as i64;
        self.flags = ((self.flags as i64 & !s.sfmask) as i32) & !FLAG_RF;
        let star = s.star;
        let cs = ((star >> 32) as i32) & 0xFFFC;
        assert(0 <= cs <= 0xFFFC) by (bit_vector)
            requires
                cs == ((star >> 32) as i32) & 0xFFFC,
        ;
        s.cpl = 0;
        self.instruction_pointer = s.lstar;
        SystemEffect::LoadSegments { cs, ss: cs + 8, long_mode: true }
    }

    /// sysret: the return from syscall. With efer.sce clear it raises #ud, and anywhere but ring 0
    /// #gp(0). Otherwise it returns to ring 3, in 64-bit mode at rcx under rex.w and in
    /// compatibility mode at ecx zero extended without it, with the flags from r11, virtual 8086
    /// mode and resume cleared; the caller loads cs and ss as `sysret_segments` says.
    pub fn sysret(&mut self, s: &mut SystemState, opsize_prefix: bool) -> (r: SystemEffect)
        ensures
            (final(self).reg@, final(self).flags, final(self).instruction_pointer, *final(s), r) == sysret_spec(
                *old(self),
                *old(s),
                opsize_prefix,
            ),
            final(self).rex == old(self).rex,
    {
        if 0 == s.efer & EFER_SCE {
            return SystemEffect::InvalidOpcode;
        }
        if s.cpl != 0 {
            return SystemEffect::GeneralProtection;
        }
        let to_64 = operand_size_of(self.rex, opsize_prefix) == 64;
        let star = s.star;
        let base = ((star >> 48) as i32) & 0xFFFF;
        assert(0 <= base <= 0xFFFF) by (bit_vector)
            requires
                base == ((star >> 48) as i32) & 0xFFFF,
        ;
        let cs = (base + if to_64 {
            16
        } else {
            0
        }) | 3;
        let ss = (base + 8) | 3;
        self.flags = ((self.reg[11] as i32) & !(FLAG_VM | FLAG_RF)) | FLAGS_DEFAULT;
        let rcx = self.reg[ECX as usize];
        self.instruction_pointer = if to_64 {
            rcx
        } else {
            rcx as i32 as u32 as i64
        };
        s.cpl = 3;
        SystemEffect::LoadSegments { cs, ss, long_mode: to_64 }
    }

    /// Applies an iret whose code segment the caller has loaded: the instruction pointer, the
    /// stack pointer and the flags come from the frame, the flags as popfq loads them at the ring
    /// the return lands at.
    pub fn iret_finish(&mut self, target: IretTarget)
        ensures
            final(self).instruction_pointer == target.rip,
            final(self).reg@ == old(self).reg@.update(4, target.rsp),
            final(self).flags == popf_flags(old(self).flags, target.rflags as i32, target.cpl),
            final(self).rex == old(self).rex,
    {
        let old = self.flags;
        let popped = target.rflags as i32;
        let cpl = target.cpl;
        let iopl = (old >> 12) & 3;
        let kept = crate::stack::FLAGS_POPF_KEPT | (if cpl != 0 {
            crate::stack::FLAG_IOPL
        } else {
            0
        }) | (if cpl as i32 > iopl {
            crate::flags::FLAG_INTERRUPT
        } else {
            0
        });
        self.flags = (popped & !kept | old & kept) & crate::stack::FLAGS_POPF_MASK | FLAGS_DEFAULT;
        self.instruction_pointer = target.rip;
        self.reg[4] = target.rsp;
    }

    /// What the port instruction `opcode` accesses, as `port_access_spec` says. The caller checks
    /// the i/o permission, makes the access and then calls `port_done`.
    pub fn port_access(&self, opcode: i32, code: &[u8], opsize_prefix: bool) -> (r: Result<PortAccess, Step>)
        ensures
            r == port_access_spec(*self, opcode, code@, opsize_prefix),
    {
        if !((0xE4 <= opcode && opcode <= 0xE7) || (0xEC <= opcode && opcode <= 0xEF)) {
            return Err(Step::Outside);
        }
        if opcode < 0xEC && code.len() < 1 {
            return Err(Step::FetchFault);
        }
        let port: i32 = if opcode < 0xEC {
            code[0] as i32
        } else {
            (self.reg[EDX as usize] as i32) & 0xFFFF
        };
        let width: i32 = if opcode & 1 == 0 {
            8
        } else if opsize_prefix {
            16
        } else {
            32
        };
        let rax = self.reg[EAX as usize];
        let value: i64 = if width == 8 {
            rax & 0xFF
        } else if width == 16 {
            rax & 0xFFFF
        } else {
            rax & 0xFFFF_FFFF
        };
        Ok(PortAccess { port, width, out: opcode & 2 != 0, value })
    }

    /// Completes the port instruction `opcode` once the caller has made the access `access`
    /// that `port_access` gave: an in writes `value`, what it read, to the accumulator as
    /// `port_in_write` says, and an out changes no register; either moves the instruction pointer
    /// past the port's immediate byte, where it has one.
    pub fn port_done(&mut self, opcode: i32, access: PortAccess, value: i64)
        ensures
            final(self).reg@ == if access.out {
                old(self).reg@
            } else {
                old(self).reg@.update(EAX as int, port_in_write(old(self).reg@[EAX as int], access.width, value))
            },
            final(self).flags == old(self).flags,
            final(self).instruction_pointer == if opcode < 0xEC {
                old(self).instruction_pointer.wrapping_add(1)
            } else {
                old(self).instruction_pointer
            },
            final(self).rex == old(self).rex,
    {
        if !access.out {
            let rax = self.reg[EAX as usize];
            self.reg[EAX as usize] = if access.width == 8 {
                rax & !0xFF | value & 0xFF
            } else if access.width == 16 {
                rax & !0xFFFF | value & 0xFFFF
            } else {
                value as u32 as i64
            };
        }
        if opcode < 0xEC {
            self.instruction_pointer = self.instruction_pointer.wrapping_add(1);
        }
    }
}

/// swapgs: exchanges the active gs base with the kernel one, so that a kernel entered from user
/// mode reaches its per-cpu block in one instruction. Anywhere but ring 0 it raises #gp(0) and
/// changes nothing.
pub fn swapgs(s: &mut SystemState) -> (r: SystemEffect)
    ensures
        (*final(s), r) == swapgs_spec(*old(s)),
{
    if s.cpl != 0 {
        return SystemEffect::GeneralProtection;
    }
    let active = s.gs_base;
    s.gs_base = s.gs_base_kernel;
    s.gs_base_kernel = active;
    SystemEffect::Done
}

/// The vector and return address of a software interrupt: int3 (0xcc) raises vector 3 and int1
/// (0xf1) vector 1, past the opcode; int imm8 (0xcd) the vector in its immediate, past it.
/// `Outside` for any other opcode, `FetchFault` when the immediate is missing.
pub open spec fn software_interrupt_spec(c: Cpu, opcode: i32, code: Seq<u8>) -> Result<(u8, i64), Step> {
    if opcode == 0xCC {
        Ok((3, c.instruction_pointer))
    } else if opcode == 0xF1 {
        Ok((1, c.instruction_pointer))
    } else if opcode == 0xCD {
        if code.len() < 1 {
            Err(Step::FetchFault)
        } else {
            Ok((code[0], c.instruction_pointer.wrapping_add(1)))
        }
    } else {
        Err(Step::Outside)
    }
}

/// The two byte instructions the caller carries out with one of the library's functions, by
/// their second opcode byte and modrm.
#[derive(Clone, Copy, Debug, PartialEq, Eq, Structural)]
pub enum SystemForm {
    /// syscall, 0x0f 0x05.
    Syscall,
    /// sysret, 0x0f 0x07.
    Sysret,
    /// swapgs, 0x0f 0x01 0xf8.
    Swapgs,
    /// 0x0f 0xae with a memory operand, the reg field given: fxsave, fxrstor, ldmxcsr, stmxcsr and
    /// clflush for /0 to /3 and /7; /4 to /6 are not implemented.
    FxGroup(i32),
    /// A 66-prefixed sse operation that takes a 128-bit source, named by its opcode byte.
    Sse66(u8),
    /// Anything else.
    Other,
}

/// Which of the forms `SystemForm` names the bytes after 0x0f are, `code[0]` the second opcode
/// byte.
pub open spec fn system_form_spec(code: Seq<u8>, opsize_prefix: bool) -> SystemForm {
    if code.len() < 1 {
        SystemForm::Other
    } else if code[0] == 0x05 {
        SystemForm::Syscall
    } else if code[0] == 0x07 {
        SystemForm::Sysret
    } else if code.len() < 2 {
        SystemForm::Other
    } else if code[0] == 0x01 && code[1] == 0xF8 {
        SystemForm::Swapgs
    } else if code[0] == 0xAE && code[1] < 0xC0 {
        SystemForm::FxGroup((code[1] as i32) >> 3 & 7)
    } else if opsize_prefix && is_sse_66_source_op(code[0] as i32) {
        SystemForm::Sse66(code[0])
    } else {
        SystemForm::Other
    }
}

/// Which form the bytes after 0x0f are, as `system_form_spec` says.
pub fn system_form(code: &[u8], opsize_prefix: bool) -> (r: SystemForm)
    ensures
        r == system_form_spec(code@, opsize_prefix),
{
    if code.len() < 1 {
        SystemForm::Other
    } else if code[0] == 0x05 {
        SystemForm::Syscall
    } else if code[0] == 0x07 {
        SystemForm::Sysret
    } else if code.len() < 2 {
        SystemForm::Other
    } else if code[0] == 0x01 && code[1] == 0xF8 {
        SystemForm::Swapgs
    } else if code[0] == 0xAE && code[1] < 0xC0 {
        SystemForm::FxGroup((code[1] as i32) >> 3 & 7)
    } else if opsize_prefix && sse_66_source_op(code[0] as i32).is_some() {
        SystemForm::Sse66(code[0])
    } else {
        SystemForm::Other
    }
}

/// The debugging extensions bit of cr4: while it is set dr4 and dr5 are reserved.
pub const CR4_DE: i32 = 8;

/// How a move to or from a control or debug register (0x0f 0x20 to 0x0f 0x23) ended.
#[derive(Clone, Copy, Debug, PartialEq, Eq, Structural)]
pub enum RegisterMove {
    /// It ran.
    Done,
    /// It ran as far as the library goes: the caller sets control register `index` to `value`,
    /// cr0, cr3 and cr4 through their setters, which have side effects of their own, and ends the
    /// block.
    SetControl { index: i32, value: i32 },
    /// A control register other than cr0, cr2, cr3 and cr4; the instruction pointer is past the
    /// modrm byte and nothing else changed.
    Unimplemented,
    /// #ud; nothing changed.
    InvalidOpcode,
    /// #gp(0); nothing changed.
    GeneralProtection,
    /// The modrm byte is missing; nothing changed.
    FetchFault,
}

/// What mov r64, crN (0x20) and mov crN, r64 (0x22) do, `code[0]` the modrm byte and `cr` cr0
/// to cr4. Only ring 0 may run them. The operand is the register the rm field names, always 64
/// bits wide, and rex.r picks cr8 to cr15 rather than extending anything; only cr0, cr2, cr3 and
/// cr4 are implemented. A read zero extends the 32 bits kept of the control register; a write
/// hands the low 32 bits of the register to the caller to set.
pub open spec fn control_move_spec(c: Cpu, opcode: i32, code: Seq<u8>, cpl: u8, cr: Seq<i32>) -> (Seq<i64>, i64, RegisterMove) {
    if cpl != 0 {
        (c.reg@, c.instruction_pointer, RegisterMove::GeneralProtection)
    } else if code.len() < 1 {
        (c.reg@, c.instruction_pointer, RegisterMove::FetchFault)
    } else {
        let modrm = code[0] as i32;
        let index = reg_field(c.rex, modrm);
        let rm = rm_field(c.rex, modrm);
        let past = c.instruction_pointer.wrapping_add(1);
        if !(index == 0 || index == 2 || index == 3 || index == 4) {
            (c.reg@, past, RegisterMove::Unimplemented)
        } else if opcode == 0x20 {
            (c.reg@.update(rm, cr[index] as u32 as i64), past, RegisterMove::Done)
        } else {
            (c.reg@, past, RegisterMove::SetControl { index: index as i32, value: c.reg@[rm] as i32 })
        }
    }
}

/// The value a debug register keeps of a write: dr6 and dr7 read back their reserved bits set,
/// 0xffff0ff0 and 0x400; the others keep the low 32 bits.
pub open spec fn debug_register_write(index: int, value: i64) -> i32 {
    if index == 6 {
        value as i32 | 0xFFFF0FF0u32 as i32
    } else if index == 7 {
        value as i32 | 0x400
    } else {
        value as i32
    }
}

/// What mov r64, drN (0x21) and mov drN, r64 (0x23) do, `code[0]` the modrm byte, `cr4` the
/// current cr4 and `dreg` dr0 to dr7. Only ring 0 may run them. dr4 and dr5 alias dr6 and dr7
/// while cr4.de is clear and raise #ud while it is set; rex.r, which would name dr8 to dr15, raises
/// #ud too, as there are no such registers. A read zero extends the 32 bits kept; a write keeps
/// what `debug_register_write` says.
pub open spec fn debug_move_spec(c: Cpu, opcode: i32, code: Seq<u8>, cpl: u8, cr4: i32, dreg: Seq<i32>) -> (Seq<i64>, i64, Seq<i32>, RegisterMove) {
    if cpl != 0 {
        (c.reg@, c.instruction_pointer, dreg, RegisterMove::GeneralProtection)
    } else if code.len() < 1 {
        (c.reg@, c.instruction_pointer, dreg, RegisterMove::FetchFault)
    } else {
        let modrm = code[0] as i32;
        let named = reg_field(c.rex, modrm);
        let rm = rm_field(c.rex, modrm);
        let past = c.instruction_pointer.wrapping_add(1);
        if named >= 8 || ((named == 4 || named == 5) && cr4 & CR4_DE != 0) {
            (c.reg@, c.instruction_pointer, dreg, RegisterMove::InvalidOpcode)
        } else {
            let index = if named == 4 || named == 5 { named + 2 } else { named };
            if opcode == 0x21 {
                (c.reg@.update(rm, dreg[index] as u32 as i64), past, dreg, RegisterMove::Done)
            } else {
                (c.reg@, past, dreg.update(index, debug_register_write(index, c.reg@[rm])), RegisterMove::Done)
            }
        }
    }
}

impl Cpu {
    /// The vector a software interrupt raises and the address it returns to, as
    /// `software_interrupt_spec` says; the caller delivers it.
    pub fn software_interrupt(&self, opcode: i32, code: &[u8]) -> (r: Result<(u8, i64), Step>)
        ensures
            r == software_interrupt_spec(*self, opcode, code@),
    {
        if opcode == 0xCC {
            Ok((3, self.instruction_pointer))
        } else if opcode == 0xF1 {
            Ok((1, self.instruction_pointer))
        } else if opcode == 0xCD {
            if code.len() < 1 {
                Err(Step::FetchFault)
            } else {
                Ok((code[0], self.instruction_pointer.wrapping_add(1)))
            }
        } else {
            Err(Step::Outside)
        }
    }

    /// mov to or from a control register, as `control_move_spec` says.
    pub fn move_control_register(&mut self, opcode: i32, code: &[u8], cpl: u8, cr: [i32; 5]) -> (r: RegisterMove)
        ensures
            (final(self).reg@, final(self).instruction_pointer, r) == control_move_spec(*old(self), opcode, code@, cpl, cr@),
            final(self).flags == old(self).flags,
            final(self).rex == old(self).rex,
    {
        if cpl != 0 {
            return RegisterMove::GeneralProtection;
        }
        if code.len() < 1 {
            return RegisterMove::FetchFault;
        }
        let modrm = code[0] as i32;
        let index = self.modrm_reg(modrm);
        let rm = self.modrm_rm(modrm);
        self.instruction_pointer = self.instruction_pointer.wrapping_add(1);
        if !(index == 0 || index == 2 || index == 3 || index == 4) {
            return RegisterMove::Unimplemented;
        }
        if opcode == 0x20 {
            self.reg[rm as usize] = cr[index as usize] as u32 as i64;
            RegisterMove::Done
        } else {
            RegisterMove::SetControl { index, value: self.reg[rm as usize] as i32 }
        }
    }

    /// mov to or from a debug register, as `debug_move_spec` says.
    pub fn move_debug_register(&mut self, opcode: i32, code: &[u8], cpl: u8, cr4: i32, dreg: &mut [i32; 8]) -> (r: RegisterMove)
        ensures
            (final(self).reg@, final(self).instruction_pointer, final(dreg)@, r) == debug_move_spec(
                *old(self),
                opcode,
                code@,
                cpl,
                cr4,
                old(dreg)@,
            ),
            final(self).flags == old(self).flags,
            final(self).rex == old(self).rex,
    {
        if cpl != 0 {
            return RegisterMove::GeneralProtection;
        }
        if code.len() < 1 {
            return RegisterMove::FetchFault;
        }
        let modrm = code[0] as i32;
        let named = self.modrm_reg(modrm);
        let rm = self.modrm_rm(modrm);
        if named >= 8 || ((named == 4 || named == 5) && cr4 & CR4_DE != 0) {
            return RegisterMove::InvalidOpcode;
        }
        let index = if named == 4 || named == 5 { named + 2 } else { named };
        self.instruction_pointer = self.instruction_pointer.wrapping_add(1);
        if opcode == 0x21 {
            self.reg[rm as usize] = dreg[index as usize] as u32 as i64;
        } else {
            let value = self.reg[rm as usize];
            let kept = if index == 6 {
                value as i32 | 0xFFFF0FF0u32 as i32
            } else if index == 7 {
                value as i32 | 0x400
            } else {
                value as i32
            };
            dreg[index as usize] = kept;
        }
        RegisterMove::Done
    }
}

} // verus!
