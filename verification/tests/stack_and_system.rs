use v86::cpu::Cpu;
use v86::flags::{FLAG_CARRY, FLAG_INTERRUPT, FLAG_RF};
use v86::fxsave::{fxrstor_at, fxsave_at, FpuState, FxFault, F80};
use v86::profiler::{profiler_init, profiler_stat_get, stat, stat_increment_by, Profiler};
use v86::run::Step;
use v86::segments::SegmentFault;
use v86::stack::StackAccess;
use v86::system::{iret_target, swapgs, IretTarget, PortAccess, SystemEffect, SystemState};

const RAX: usize = 0;
const RCX: usize = 1;
const RDX: usize = 2;
const RBX: usize = 3;
const RSP: usize = 4;
const R11: usize = 11;

fn cpu(rex: u8) -> Cpu {
    let mut c = Cpu { reg: [0; 16], flags: 2, instruction_pointer: 0x1000, rex };
    c.reg[RSP] = 0x8000;
    c
}

#[test]
fn push_and_pop() {
    let mut c = cpu(0);
    c.reg[RAX] = 7;
    assert_eq!(c.stack_operand(0x50, &[], false, 0), Ok(StackAccess { load: None, store: Some(0x7FF8) }));
    assert_eq!(c.run_stack(0x50, &[], false, 0, 0, 0), (Step::Done, Some((0x7FF8, 7))));
    assert_eq!(c.reg[RSP], 0x7FF8);
    // pop rbx
    assert_eq!(c.stack_operand(0x5B, &[], false, 0), Ok(StackAccess { load: Some(0x7FF8), store: None }));
    assert_eq!(c.run_stack(0x5B, &[], false, 0, 0, 7), (Step::Done, None));
    assert_eq!((c.reg[RBX], c.reg[RSP]), (7, 0x8000));
    // push rsp stores the value before the push, pop rsp keeps the popped value
    let mut d = cpu(0);
    assert_eq!(d.run_stack(0x54, &[], false, 0, 0, 0), (Step::Done, Some((0x7FF8, 0x8000))));
    assert_eq!(d.run_stack(0x5C, &[], false, 0, 0, 0x1234), (Step::Done, None));
    assert_eq!(d.reg[RSP], 0x1234);
    // push imm8, sign extended
    let mut e = cpu(0);
    assert_eq!(e.run_stack(0x6A, &[0xFF], false, 0, 0, 0), (Step::Done, Some((0x7FF8, -1))));
    assert_eq!(e.instruction_pointer, 0x1001);
    assert_eq!(e.stack_operand(0x68, &[1, 2], false, 0), Err(Step::FetchFault));
}

#[test]
fn call_and_ret() {
    let mut c = cpu(0);
    assert_eq!(c.run_stack(0xE8, &[0x10, 0, 0, 0], false, 0, 0, 0), (Step::Done, Some((0x7FF8, 0x1004))));
    assert_eq!(c.instruction_pointer, 0x1014);
    assert_eq!(c.run_stack(0xC3, &[], false, 0, 0, 0x1004), (Step::Done, None));
    assert_eq!((c.instruction_pointer, c.reg[RSP]), (0x1004, 0x8000));
    // ret 16 drops the arguments too
    assert_eq!(c.run_stack(0xC2, &[0x10, 0x00], false, 0, 0, 0x5000), (Step::Done, None));
    assert_eq!((c.instruction_pointer, c.reg[RSP]), (0x5000, 0x8018));
    // call rax and push [rbx] through the 0xff group, the instruction pointer on the modrm
    let mut d = cpu(0);
    d.reg[RAX] = 0x6000;
    assert_eq!(d.run_stack(0xFF, &[0xD0], false, 0, 0, 0), (Step::Done, Some((0x7FF8, 0x1001))));
    assert_eq!(d.instruction_pointer, 0x6000);
    let mut e = cpu(0);
    e.reg[RBX] = 0x2000;
    assert_eq!(e.stack_operand(0xFF, &[0x33], false, 0), Ok(StackAccess { load: Some(0x2000), store: Some(0x7FF8) }));
    assert_eq!(e.run_stack(0xFF, &[0x33], false, 0, 0, 0x99), (Step::Done, Some((0x7FF8, 0x99))));
    assert_eq!(e.instruction_pointer, 0x1001);
}

#[test]
fn pushfq_and_popfq() {
    let mut c = cpu(0);
    c.flags = 0x1_0246;
    assert_eq!(c.run_stack(0x9C, &[], false, 0, 0, 0), (Step::Done, Some((0x7FF8, 0x246))));
    // at ring 3 with iopl 0 neither iopl nor the interrupt flag can change
    let mut d = cpu(0);
    d.flags = 0x202;
    assert_eq!(d.run_stack(0x9D, &[], false, 0, 3, 0x3001), (Step::Done, None));
    assert_eq!(d.flags, 0x203);
    assert_eq!(d.reg[RSP], 0x8008);
    // at ring 0 both can
    let mut e = cpu(0);
    e.flags = 0x202;
    assert_eq!(e.run_stack(0x9D, &[], false, 0, 0, 0x3001), (Step::Done, None));
    assert_eq!(e.flags, 0x3003);
    assert_eq!(e.flags & FLAG_INTERRUPT, 0);
    // pushfw is not implemented
    assert_eq!(cpu(0).stack_operand(0x9C, &[], true, 0), Err(Step::Unimplemented));
}

fn msrs(cpl: u8) -> SystemState {
    SystemState {
        cpl,
        efer: 1,
        star: 0x0023_0010_0000_0000,
        lstar: 0x7FFF_8000_0000_1000,
        sfmask: FLAG_INTERRUPT as i64,
        gs_base: 0x1111,
        gs_base_kernel: 0x2222,
    }
}

#[test]
fn syscall_and_sysret() {
    let mut c = cpu(0);
    c.flags = FLAG_RF | FLAG_INTERRUPT | 2;
    c.instruction_pointer = 0x1002;
    let mut s = msrs(3);
    assert_eq!(c.syscall(&mut s), SystemEffect::LoadSegments { cs: 0x10, ss: 0x18, long_mode: true });
    assert_eq!((c.reg[RCX], c.reg[R11]), (0x1002, (FLAG_RF | FLAG_INTERRUPT | 2) as i64));
    assert_eq!(c.flags, 2);
    assert_eq!(c.instruction_pointer, 0x7FFF_8000_0000_1000);
    assert_eq!(s.cpl, 0);
    // back to 64-bit mode under rex.w
    let mut d = cpu(0x48);
    d.reg[RCX] = 0x4000;
    d.reg[R11] = 0x3_0202;
    let mut t = msrs(0);
    assert_eq!(d.sysret(&mut t, false), SystemEffect::LoadSegments { cs: 0x33, ss: 0x2B, long_mode: true });
    assert_eq!((d.flags, d.instruction_pointer, t.cpl), (0x202, 0x4000, 3));
    // not from ring 3, and neither with efer.sce clear
    let mut u = msrs(3);
    assert_eq!(cpu(0).sysret(&mut u, false), SystemEffect::GeneralProtection);
    u.efer = 0;
    assert_eq!(cpu(0).syscall(&mut u), SystemEffect::InvalidOpcode);
    assert_eq!(u.cpl, 3);
}

#[test]
fn swapgs_only_in_ring_0() {
    let mut s = msrs(0);
    assert_eq!(swapgs(&mut s), SystemEffect::Done);
    assert_eq!((s.gs_base, s.gs_base_kernel), (0x2222, 0x1111));
    let mut t = msrs(3);
    assert_eq!(swapgs(&mut t), SystemEffect::GeneralProtection);
    assert_eq!(t.gs_base, 0x1111);
}

#[test]
fn iret_to_a_less_privileged_ring() {
    assert_eq!(iret_target(3, [0x1000, 0x08, 0x202, 0x7000, 0x10]), Err(SegmentFault::GeneralProtection(0)));
    let target = iret_target(0, [0x1000, 0x33, 0x3203, 0x7000, 0x2B]).unwrap();
    assert_eq!(target, IretTarget { rip: 0x1000, cs: 0x33, rflags: 0x3203, rsp: 0x7000, ss: 0x2B, cpl: 3 });
    let mut c = cpu(0);
    c.flags = 2;
    c.iret_finish(target);
    assert_eq!((c.instruction_pointer, c.reg[RSP]), (0x1000, 0x7000));
    // landing in ring 3 with iopl 0: neither iopl nor the interrupt flag is taken from the frame
    assert_eq!(c.flags, 0x3 | FLAG_CARRY);
}

#[test]
fn port_in_and_out() {
    let mut c = cpu(0);
    c.reg[RAX] = 0x5500;
    let access = c.port_access(0xE4, &[0x60], false).unwrap();
    assert_eq!(access, PortAccess { port: 0x60, width: 8, out: false, value: 0 });
    c.port_done(0xE4, access, 0x1AB);
    assert_eq!(c.reg[RAX], 0x55AB);
    assert_eq!(c.instruction_pointer, 0x1001);
    // in eax, dx zero extends into rax
    let mut d = cpu(0);
    d.reg[RAX] = -1;
    d.reg[RDX] = 0x1_0CF8;
    let access = d.port_access(0xED, &[], false).unwrap();
    assert_eq!((access.port, access.width), (0xCF8, 32));
    d.port_done(0xED, access, 0x1234);
    assert_eq!(d.reg[RAX], 0x1234);
    assert_eq!(d.instruction_pointer, 0x1000);
    // out dx, ax writes the low word and changes no register
    let mut e = cpu(0);
    e.reg[RAX] = 0x1_2345;
    let access = e.port_access(0xEF, &[], true).unwrap();
    assert_eq!((access.width, access.out, access.value), (16, true, 0x2345));
    e.port_done(0xEF, access, 0);
    assert_eq!(e.reg[RAX], 0x1_2345);
    assert_eq!(cpu(0).port_access(0xE6, &[], false), Err(Step::FetchFault));
}

fn fpu() -> FpuState {
    FpuState {
        control_word: 0x37F,
        status_word: 0,
        stack_empty: 0xFF,
        opcode: 0,
        ip: 0,
        ip_selector: 0,
        dp: 0,
        dp_selector: 0,
        mxcsr: 0x1F80,
        st: [F80 { mantissa: 0, sign_exponent: 0 }; 8],
        xmm: [[7, 9]; 16],
    }
}

#[test]
fn fxsave_and_fxrstor_faults() {
    let mut area = [0xAAu8; 512];
    assert_eq!(fxsave_at(&fpu(), 0x1008, true, &mut area), Err(FxFault::GeneralProtection));
    assert_eq!(area[0], 0xAA);
    assert_eq!(fxsave_at(&fpu(), 0x1000, false, &mut area), Err(FxFault::PageFault));
    assert_eq!(area[0], 0xAA);
    assert_eq!(fxsave_at(&fpu(), 0x1000, true, &mut area), Ok(()));
    assert_eq!(&area[0..2], &[0x7F, 0x03]);
    let mut restored = fpu();
    restored.control_word = 0;
    assert_eq!(fxrstor_at(0x1004, Some(&area), &mut restored), Err(FxFault::GeneralProtection));
    assert_eq!(fxrstor_at(0x1000, None, &mut restored), Err(FxFault::PageFault));
    assert_eq!(restored.control_word, 0);
    assert_eq!(fxrstor_at(0x1000, Some(&area), &mut restored), Ok(()));
    assert_eq!(restored.control_word, 0x37F);
    assert_eq!(restored.xmm[15], [7, 9]);
}

#[test]
fn counting_after_a_reset() {
    let mut p = Profiler::new(true);
    stat_increment_by(&mut p, stat::COMPILE, 3);
    profiler_init(&mut p);
    stat_increment_by(&mut p, stat::RUN_INTERPRETED_STEPS, 40);
    assert_eq!(profiler_stat_get(&p, stat::RUN_INTERPRETED_STEPS), 40);
    assert_eq!(profiler_stat_get(&p, stat::COMPILE), 0);
}
