use v86::cpu::Cpu;
use v86::flags::{FLAG_INTERRUPT, FLAG_RF};
use v86::fxsave::{ldmxcsr, FpuState, FxFault, F80};
use v86::memory::{AfterStore, MemoryOperand, ModrmOperand};
use v86::run::Step;
use v86::segments::{pseudo_descriptor, SegmentMove, TableAccess};
use v86::sse::xmm_lanes;
use v86::stack::{far_return_selector, FarReturn, StackAccess};
use v86::system::{swapgs, system_form, RegisterMove, SystemEffect, SystemForm, SystemState, CR4_DE};

const RAX: usize = 0;
const RCX: usize = 1;
const RBX: usize = 3;
const RSP: usize = 4;
const R11: usize = 11;

fn cpu(rex: u8) -> Cpu {
    let mut c = Cpu { reg: [0; 16], flags: 2, instruction_pointer: 0x1000, rex };
    c.reg[RSP] = 0x8000;
    c
}

fn msrs(cpl: u8) -> SystemState {
    SystemState {
        cpl,
        efer: 1,
        star: 0x0023_0010_0000_0000,
        lstar: 0x7FFF_8000_0000_1000,
        sfmask: FLAG_INTERRUPT as i64,
        gs_base: 0x1111,
        gs_base_kernel: 0x2222,
    }
}

fn fpu() -> FpuState {
    FpuState {
        control_word: 0x37F,
        status_word: 0,
        stack_empty: 0xFF,
        opcode: 0,
        ip: 0,
        ip_selector: 0,
        dp: 0,
        dp_selector: 0,
        mxcsr: 0x1F80,
        st: [F80 { mantissa: 0, sign_exponent: 0 }; 8],
        xmm: [[0; 2]; 16],
    }
}

const ADDRESS: [u8; 8] = [0x00, 0x20, 0x00, 0x00, 0x01, 0x00, 0x00, 0x00];

#[test]
fn mov_with_an_absolute_address() {
    // mov rax, [0x1_0000_2000] under rex.w, past the eight bytes of address
    let mut c = cpu(0x48);
    assert_eq!(
        c.moffs_operand(0xA1, &ADDRESS, false, false, 0),
        Ok(MemoryOperand { addr: 0x1_0000_2000, width: 64, read: true })
    );
    assert_eq!(c.run_moffs(0xA1, &ADDRESS, false, false, 0, -5), (Step::Done, None));
    assert_eq!((c.reg[RAX], c.instruction_pointer), (-5, 0x1008));
    // mov [addr], al stores a byte, with the segment base added
    let mut d = cpu(0);
    d.reg[RAX] = 0x1234;
    assert_eq!(
        d.moffs_operand(0xA2, &ADDRESS, false, false, 0x10),
        Ok(MemoryOperand { addr: 0x1_0000_2010, width: 8, read: false })
    );
    assert_eq!(d.run_moffs(0xA2, &ADDRESS, false, false, 0x10, 0), (Step::Done, Some(0x34)));
    // a 32-bit mov eax, [addr] zero extends into rax
    let mut e = cpu(0);
    e.reg[RAX] = -1;
    assert_eq!(e.run_moffs(0xA1, &ADDRESS, false, false, 0, 0x8000_0000), (Step::Done, None));
    assert_eq!(e.reg[RAX], 0x8000_0000);
    // the 0x67 form is not implemented, and a short address is a fetch fault
    assert_eq!(cpu(0).moffs_operand(0xA0, &ADDRESS, false, true, 0), Err(Step::Unimplemented));
    let mut f = cpu(0);
    assert_eq!(f.run_moffs(0xA0, &ADDRESS[..7], false, false, 0, 0), (Step::FetchFault, None));
    assert_eq!(f.instruction_pointer, 0x1000);
}

#[test]
fn far_return_pops_target_and_selector() {
    let c = cpu(0);
    assert_eq!(c.far_return_slots(false), FarReturn { target: 0x8000, selector: 0x8004, width: 32 });
    assert_eq!(cpu(0x48).far_return_slots(false), FarReturn { target: 0x8000, selector: 0x8008, width: 64 });
    assert_eq!(far_return_selector(0x1_0033), 0x33);
    // a 32-bit target is zero extended; both slots are dropped
    let mut d = cpu(0);
    d.far_return(false, 0xFFFF_FFFF_0000_1234u64 as i64);
    assert_eq!((d.instruction_pointer, d.reg[RSP]), (0x1234, 0x8008));
    let mut e = cpu(0x48);
    e.far_return(false, 0x7FFF_0000_1234);
    assert_eq!((e.instruction_pointer, e.reg[RSP]), (0x7FFF_0000_1234, 0x8010));
}

#[test]
fn software_interrupts() {
    let c = cpu(0);
    assert_eq!(c.software_interrupt(0xCC, &[]), Ok((3, 0x1000)));
    assert_eq!(c.software_interrupt(0xF1, &[]), Ok((1, 0x1000)));
    assert_eq!(c.software_interrupt(0xCD, &[0x80]), Ok((0x80, 0x1001)));
    assert_eq!(c.software_interrupt(0xCD, &[]), Err(Step::FetchFault));
    assert_eq!(c.software_interrupt(0x90, &[]), Err(Step::Outside));
    // into is invalid in 64-bit mode and changes nothing
    let mut d = cpu(0);
    assert_eq!(d.run(0xCE, &[], false, false), Step::InvalidOpcode);
    assert_eq!(d.instruction_pointer, 0x1000);
}

#[test]
fn two_byte_forms_the_caller_runs() {
    assert_eq!(system_form(&[0x05], false), SystemForm::Syscall);
    assert_eq!(system_form(&[0x07], false), SystemForm::Sysret);
    assert_eq!(system_form(&[0x01, 0xF8], false), SystemForm::Swapgs);
    assert_eq!(system_form(&[0x01, 0xF9], false), SystemForm::Other);
    assert_eq!(system_form(&[0xAE, 0x10], false), SystemForm::FxGroup(2));
    assert_eq!(system_form(&[0xAE, 0xF0], false), SystemForm::Other);
    assert_eq!(system_form(&[0xEF, 0xC0], true), SystemForm::Sse66(0xEF));
    assert_eq!(system_form(&[0xEF, 0xC0], false), SystemForm::Other);
    assert_eq!(system_form(&[], false), SystemForm::Other);
}

#[test]
fn modrm_operands_of_two_byte_instructions() {
    let mut c = cpu(0x44);
    c.reg[RAX] = 0x5000;
    // register form: rex.r extends the reg field
    assert_eq!(c.modrm_operand(&[0xEF, 0xC1], 0), Ok(ModrmOperand { reg: 8, rm: 1, addr: None, next: 0x1002 }));
    // [rax + 8], with the segment base added, past the displacement
    assert_eq!(
        c.modrm_operand(&[0xAE, 0x50, 0x08], 0x100),
        Ok(ModrmOperand { reg: 10, rm: 0, addr: Some(0x5108), next: 0x1003 })
    );
    assert_eq!(c.modrm_operand(&[0xAE, 0x50], 0), Err(Step::FetchFault));
    assert_eq!(c.modrm_operand(&[0xAE], 0), Err(Step::FetchFault));
}

#[test]
fn ldmxcsr_refuses_reserved_bits() {
    let mut f = fpu();
    assert_eq!(ldmxcsr(&mut f, 0x9FC0), Ok(()));
    assert_eq!(f.mxcsr, 0x9FC0);
    assert_eq!(ldmxcsr(&mut f, 0x1_0000), Err(FxFault::GeneralProtection));
    assert_eq!(f.mxcsr, 0x9FC0);
}

#[test]
fn fences_and_movnti() {
    // lfence, mfence and sfence have nothing to order
    for modrm in [0xE8u8, 0xF0, 0xF8] {
        let mut c = cpu(0);
        assert_eq!(c.run(0x0F, &[0xAE, modrm], false, false), Step::Done);
        assert_eq!(c.instruction_pointer, 0x1002);
    }
    // the other register forms are not implemented, past the modrm
    let mut d = cpu(0);
    assert_eq!(d.run(0x0F, &[0xAE, 0xC0], false, false), Step::Unimplemented);
    assert_eq!(d.instruction_pointer, 0x1002);
    // the memory forms are the caller's
    assert_eq!(cpu(0).run(0x0F, &[0xAE, 0x00], false, false), Step::Outside);
    // movnti to a register raises #ud
    let mut e = cpu(0);
    assert_eq!(e.run(0x0F, &[0xC3, 0xC8], false, false), Step::InvalidOpcode);
    assert_eq!(e.instruction_pointer, 0x1000);
    // movnti [rax], rcx stores rcx, 64 bits under rex.w
    let mut f = cpu(0x48);
    f.reg[RAX] = 0x6000;
    f.reg[RCX] = 0x1122_3344_5566_7788;
    assert_eq!(
        f.memory_operand(0x0F, &[0xC3, 0x08], false, false, 0),
        Ok(MemoryOperand { addr: 0x6000, width: 64, read: false })
    );
    assert_eq!(
        f.run_memory(0x0F, &[0xC3, 0x08], false, false, 0, 0),
        (Step::Done, Some(0x1122_3344_5566_7788), AfterStore::Nothing)
    );
    assert_eq!(f.instruction_pointer, 0x1002);
    assert_eq!(cpu(0).memory_operand(0x0F, &[0xC3, 0x08], false, false, 0).map(|o| o.width), Ok(32));
}

const SELECTORS: [u16; 6] = [0x10, 0x08, 0x18, 0x10, 0x2B, 0x33];

#[test]
fn moves_from_and_to_segment_registers() {
    // mov eax, fs zero extends the selector
    let mut c = cpu(0);
    c.reg[RAX] = -1;
    assert_eq!(c.mov_from_segment(&[0xE0], false, 0, SELECTORS), (Step::Done, None));
    assert_eq!((c.reg[RAX], c.instruction_pointer), (0x2B, 0x1001));
    // mov ax, gs keeps the rest of rax
    let mut d = cpu(0);
    d.reg[RAX] = 0x7777_0000;
    assert_eq!(d.mov_from_segment(&[0xE8], true, 0, SELECTORS), (Step::Done, None));
    assert_eq!(d.reg[RAX], 0x7777_0033);
    // mov [rax], gs leaves the store to the caller
    let mut e = cpu(0);
    e.reg[RAX] = 0x6000;
    assert_eq!(e.mov_from_segment(&[0x28], false, 0, SELECTORS), (Step::Done, Some((0x6000, 0x33))));
    // there is no seventh segment register
    let mut f = cpu(0);
    assert_eq!(f.mov_from_segment(&[0xF0], false, 0, SELECTORS), (Step::Unimplemented, None));
    assert_eq!(f.instruction_pointer, 0x1001);
    // mov ds, ax and mov ss, [rax]
    let mut g = cpu(0);
    g.reg[RAX] = 0x1_0023;
    assert_eq!(g.mov_to_segment(&[0xD8], 0), Ok(SegmentMove { segment: 3, selector: Some(0x23), addr: None }));
    assert_eq!(g.instruction_pointer, 0x1001);
    assert_eq!(g.mov_to_segment(&[0x10], 0), Ok(SegmentMove { segment: 2, selector: None, addr: Some(0x1_0023) }));
    assert_eq!(cpu(0).mov_to_segment(&[], 0), Err(Step::FetchFault));
}

#[test]
fn push_and_pop_of_fs_and_gs() {
    let c = cpu(0);
    assert_eq!(c.segment_stack_operand(0xA0), Some((4, StackAccess { load: None, store: Some(0x7FF8) })));
    assert_eq!(c.segment_stack_operand(0xA9), Some((5, StackAccess { load: Some(0x8000), store: None })));
    assert_eq!(c.segment_stack_operand(0xA2), None);
    let mut d = cpu(0);
    assert_eq!(d.push_segment(0x2B), (0x7FF8, 0x2B));
    assert_eq!(d.reg[RSP], 0x7FF8);
    assert_eq!(d.pop_segment(0xFFFF_0033), 0x33);
    assert_eq!(d.reg[RSP], 0x8000);
}

#[test]
fn control_register_moves() {
    let cr = [0x8000_0011u32 as i32, 0, 0x4567, 0x8000_1000u32 as i32, 0x20];
    // mov rax, cr3 zero extends
    let mut c = cpu(0);
    assert_eq!(c.move_control_register(0x20, &[0xD8], 0, cr), RegisterMove::Done);
    assert_eq!((c.reg[RAX], c.instruction_pointer), (0x8000_1000, 0x1001));
    // mov cr4, rbx hands the low 32 bits to the caller
    let mut d = cpu(0);
    d.reg[RBX] = 0x1_0000_06F8;
    assert_eq!(d.move_control_register(0x22, &[0xE3], 0, cr), RegisterMove::SetControl { index: 4, value: 0x6F8 });
    assert_eq!(d.instruction_pointer, 0x1001);
    // cr1 and cr8 are not implemented
    let mut e = cpu(0);
    assert_eq!(e.move_control_register(0x20, &[0xC8], 0, cr), RegisterMove::Unimplemented);
    assert_eq!(e.instruction_pointer, 0x1001);
    assert_eq!(cpu(0x44).move_control_register(0x22, &[0xC0], 0, cr), RegisterMove::Unimplemented);
    // only ring 0, and nothing changes otherwise
    let mut f = cpu(0);
    assert_eq!(f.move_control_register(0x20, &[0xD8], 3, cr), RegisterMove::GeneralProtection);
    assert_eq!((f.reg[RAX], f.instruction_pointer), (0, 0x1000));
    assert_eq!(cpu(0).move_control_register(0x20, &[], 0, cr), RegisterMove::FetchFault);
}

#[test]
fn debug_register_moves() {
    let mut dreg = [0i32; 8];
    // mov dr7, rax and mov dr6, rax read back their fixed bits
    let mut c = cpu(0);
    c.reg[RAX] = 0x1;
    assert_eq!(c.move_debug_register(0x23, &[0xF8], 0, 0, &mut dreg), RegisterMove::Done);
    assert_eq!(dreg[7], 0x401);
    assert_eq!(c.move_debug_register(0x23, &[0xF0], 0, 0, &mut dreg), RegisterMove::Done);
    assert_eq!(dreg[6], 0xFFFF_0FF1u32 as i32);
    assert_eq!(c.instruction_pointer, 0x1002);
    // mov dr0, rbx keeps 32 bits; mov rcx, dr0 zero extends them
    let mut d = cpu(0);
    d.reg[RBX] = 0x1_8000_0000;
    assert_eq!(d.move_debug_register(0x23, &[0xC3], 0, 0, &mut dreg), RegisterMove::Done);
    assert_eq!(dreg[0], 0x8000_0000u32 as i32);
    assert_eq!(d.move_debug_register(0x21, &[0xC1], 0, 0, &mut dreg), RegisterMove::Done);
    assert_eq!(d.reg[RCX], 0x8000_0000);
    // dr4 reads dr6 while cr4.de is clear, and raises #ud while it is set
    let mut e = cpu(0);
    assert_eq!(e.move_debug_register(0x21, &[0xE1], 0, 0, &mut dreg), RegisterMove::Done);
    assert_eq!(e.reg[RCX], 0xFFFF_0FF1);
    let mut f = cpu(0);
    assert_eq!(f.move_debug_register(0x21, &[0xE1], 0, CR4_DE, &mut dreg), RegisterMove::InvalidOpcode);
    assert_eq!((f.reg[RCX], f.instruction_pointer), (0, 0x1000));
    // there is no dr8, and ring 3 may not touch any of them
    assert_eq!(cpu(0x44).move_debug_register(0x21, &[0xC1], 0, 0, &mut dreg), RegisterMove::InvalidOpcode);
    assert_eq!(cpu(0).move_debug_register(0x23, &[0xF8], 3, 0, &mut dreg), RegisterMove::GeneralProtection);
    assert_eq!(dreg[7], 0x401);
}

#[test]
fn group_6_selectors() {
    // str eax
    let mut c = cpu(0);
    c.reg[RAX] = -1;
    assert_eq!(c.group6(&[0xC8], false, 0, 0x28, 0x40), Err(Step::Done));
    assert_eq!((c.reg[RAX], c.instruction_pointer), (0x40, 0x1001));
    // sldt [rax + 4]
    let mut d = cpu(0);
    d.reg[RAX] = 0x6000;
    assert_eq!(d.group6(&[0x40, 0x04], false, 0, 0x28, 0x40), Ok(TableAccess::Store16 { addr: 0x6004, value: 0x28 }));
    assert_eq!(d.instruction_pointer, 0x1002);
    // lldt [rax] and ltr bx
    assert_eq!(
        cpu(0).group6(&[0x10], false, 0, 0, 0),
        Ok(TableAccess::LoadSelector { ldt: true, selector: None, addr: Some(0) })
    );
    let mut e = cpu(0);
    e.reg[RBX] = 0x1_0030;
    assert_eq!(
        e.group6(&[0xDB], false, 0, 0, 0),
        Ok(TableAccess::LoadSelector { ldt: false, selector: Some(0x30), addr: None })
    );
    // verr is not implemented, past the modrm
    let mut f = cpu(0);
    assert_eq!(f.group6(&[0x20], false, 0, 0, 0), Err(Step::Unimplemented));
    assert_eq!(f.instruction_pointer, 0x1001);
}

#[test]
fn group_7_tables_and_invlpg() {
    let gdtr = (0x27, 0x8000_0000u32 as i32);
    let idtr = (0xFFF, 0x9000);
    let mut c = cpu(0);
    c.reg[RAX] = 0x6000;
    // sgdt [rax]: the base is stored zero extended to eight bytes
    assert_eq!(
        c.group7(&[0x00], 0, 3, gdtr, idtr),
        Ok(TableAccess::StoreTable { gdt: true, addr: 0x6000, limit: 0x27, base: 0x8000_0000 })
    );
    assert_eq!(c.instruction_pointer, 0x1001);
    assert_eq!(cpu(0).group7(&[0x18], 0, 0, gdtr, idtr), Ok(TableAccess::LoadTable { gdt: false, addr: 0 }));
    // invlpg is for ring 0
    let mut d = cpu(0);
    d.reg[RAX] = 0x7000;
    assert_eq!(d.group7(&[0x38], 0, 3, gdtr, idtr), Ok(TableAccess::GeneralProtection));
    assert_eq!(d.instruction_pointer, 0x1000);
    assert_eq!(d.group7(&[0x38], 0, 0, gdtr, idtr), Ok(TableAccess::Invalidate { addr: 0x7000 }));
    // swapgs is not group 7's, the register forms are not implemented
    assert_eq!(cpu(0).group7(&[0xF8], 0, 0, gdtr, idtr), Err(Step::Outside));
    let mut e = cpu(0);
    assert_eq!(e.group7(&[0xD0], 0, 0, gdtr, idtr), Err(Step::Unimplemented));
    assert_eq!(e.instruction_pointer, 0x1001);
    // the base a table register is loaded with must fit its 32 bits
    assert_eq!(pseudo_descriptor(0x1_00FF, 0x9000), Ok((0xFF, 0x9000)));
    assert_eq!(pseudo_descriptor(0xFF, 0x1_0000_0000), Err(()));
}

#[test]
fn syscall_then_sysret_returns_after_the_syscall() {
    let mut c = cpu(0x48);
    let flags = FLAG_RF | FLAG_INTERRUPT | 0x2 | 0x1;
    c.flags = flags;
    c.instruction_pointer = 0x4002;
    let mut s = msrs(3);
    assert_eq!(c.syscall(&mut s), SystemEffect::LoadSegments { cs: 0x10, ss: 0x18, long_mode: true });
    assert_eq!(c.instruction_pointer, 0x7FFF_8000_0000_1000);
    assert_eq!(c.reg[R11], flags as i64);
    assert_eq!(c.sysret(&mut s, false), SystemEffect::LoadSegments { cs: 0x33, ss: 0x2B, long_mode: true });
    assert_eq!(c.instruction_pointer, 0x4002);
    assert_eq!(c.flags, flags & !FLAG_RF);
    assert_eq!(s.cpl, 3);
}

#[test]
fn swapgs_twice_restores_both_bases() {
    let mut s = msrs(0);
    assert_eq!(swapgs(&mut s), SystemEffect::Done);
    assert_eq!(swapgs(&mut s), SystemEffect::Done);
    assert_eq!((s.gs_base, s.gs_base_kernel), (0x1111, 0x2222));
}

#[test]
fn movd_and_movq_between_xmm_and_general_registers() {
    // 66 0f 6e c1: movd xmm0, ecx, 32 bits without rex.w
    let mut c = cpu(0);
    assert_eq!(
        c.xmm_move(&[0x6E, 0xC1], true, false, 0),
        Ok((ModrmOperand { reg: 0, rm: 1, addr: None, next: 0x1002 }, 32))
    );
    assert_eq!(c.instruction_pointer, 0x1002);
    // 66 48 0f 7e 00: movq [rax], xmm0, 64 bits under rex.w
    let mut d = cpu(0x48);
    d.reg[RAX] = 0x6000;
    assert_eq!(
        d.xmm_move(&[0x7E, 0x00], true, false, 0),
        Ok((ModrmOperand { reg: 0, rm: 0, addr: Some(0x6000), next: 0x1002 }, 64))
    );
    // the lanes of the loaded register: the high half only for movq
    assert_eq!(xmm_lanes(0x1122_3344_5566_7788, 64), [0x5566_7788, 0x1122_3344, 0, 0]);
    assert_eq!(xmm_lanes(0x1122_3344_5566_7788, 32), [0x5566_7788, 0, 0, 0]);
    // movhps and the f3 movq are the caller's tables', nothing changed
    let mut e = cpu(0);
    assert_eq!(e.xmm_move(&[0x16, 0x00], false, false, 0), Err(Step::Outside));
    assert_eq!(e.xmm_move(&[0x7E, 0xC1], false, true, 0), Err(Step::Outside));
    assert_eq!(e.instruction_pointer, 0x1000);
    // movd without the 0x66 is the mmx form, not implemented here, past the modrm
    assert_eq!(e.xmm_move(&[0x6E, 0xC1], false, false, 0), Err(Step::Unimplemented));
    assert_eq!(e.instruction_pointer, 0x1002);
    assert_eq!(cpu(0).xmm_move(&[0x6E], true, false, 0), Err(Step::FetchFault));
}

#[test]
fn xmm_shifts_by_an_immediate() {
    // 66 41 0f 73 d9 08: psrldq xmm9, 8
    let mut c = cpu(0x41);
    assert_eq!(c.xmm_shift(&[0xD9, 0x08], true), Ok((3, 9, 8)));
    assert_eq!(c.instruction_pointer, 0x1002);
    // no memory form, none without 0x66, and no /4
    let mut d = cpu(0);
    assert_eq!(d.xmm_shift(&[0x19, 0x08], true), Err(Step::Unimplemented));
    assert_eq!(d.instruction_pointer, 0x1002);
    assert_eq!(cpu(0).xmm_shift(&[0xD9, 0x08], false), Err(Step::Unimplemented));
    assert_eq!(cpu(0).xmm_shift(&[0xE1, 0x08], true), Err(Step::Unimplemented));
    assert_eq!(cpu(0).xmm_shift(&[0xD9], true), Err(Step::FetchFault));
}
