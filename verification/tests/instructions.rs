use v86::cpu::Cpu;
use v86::flags::{FLAG_CARRY, FLAG_DIRECTION, FLAG_OVERFLOW, FLAG_PARITY, FLAG_SIGN, FLAG_ZERO};
use v86::run::{operand_size_of, Step};

const RAX: usize = 0;
const RCX: usize = 1;
const RDX: usize = 2;
const RSP: usize = 4;
const R8: usize = 8;

fn cpu(rex: u8) -> Cpu {
    Cpu { reg: [0; 16], flags: 2, instruction_pointer: 0x1000, rex }
}

fn run(c: &mut Cpu, opcode: i32, code: &[u8]) -> Step {
    c.run(opcode, code, false, false)
}

#[test]
fn operand_size_prefers_rex_w() {
    assert_eq!(operand_size_of(0x48, false), 64);
    assert_eq!(operand_size_of(0x48, true), 64);
    assert_eq!(operand_size_of(0x40, true), 16);
    assert_eq!(operand_size_of(0x40, false), 32);
}

#[test]
fn add_register_to_register() {
    let mut c = cpu(0x48);
    c.reg[RAX] = 7;
    c.reg[RCX] = 5;
    assert_eq!(run(&mut c, 0x01, &[0xC8]), Step::Done);
    assert_eq!(c.reg[RAX], 12);
    assert_eq!(c.reg[RCX], 5);
    assert_eq!(c.instruction_pointer, 0x1001);
    assert_eq!(c.flags & (FLAG_ZERO | FLAG_CARRY), 0);
}

#[test]
fn sub_eax_eax_clears_all_of_rax() {
    let mut c = cpu(0);
    c.reg[RAX] = 0xFFFF_FFFF_0000_0005u64 as i64;
    assert_eq!(run(&mut c, 0x29, &[0xC0]), Step::Done);
    assert_eq!(c.reg[RAX], 0);
    assert_ne!(c.flags & FLAG_ZERO, 0);
    assert_ne!(c.flags & FLAG_PARITY, 0);
}

#[test]
fn sixteen_bit_add_keeps_upper_bits() {
    let mut c = cpu(0);
    c.reg[RAX] = 0x1234_5678_FFFF;
    c.reg[RCX] = 1;
    assert_eq!(c.run(0x01, &[0xC8], true, false), Step::Done);
    assert_eq!(c.reg[RAX], 0x1234_5678_0000);
    assert_ne!(c.flags & FLAG_CARRY, 0);
    assert_ne!(c.flags & FLAG_ZERO, 0);
}

#[test]
fn adc_adds_the_carry() {
    let mut c = cpu(0x48);
    c.reg[RAX] = 1;
    c.reg[RCX] = 1;
    c.flags |= FLAG_CARRY;
    assert_eq!(run(&mut c, 0x11, &[0xC8]), Step::Done);
    assert_eq!(c.reg[RAX], 3);
    assert_eq!(c.flags & FLAG_CARRY, 0);
}

#[test]
fn add_overflow_at_32_bits() {
    let mut c = cpu(0);
    c.reg[RAX] = 0x7FFF_FFFF;
    c.reg[RCX] = 1;
    assert_eq!(run(&mut c, 0x01, &[0xC8]), Step::Done);
    assert_eq!(c.reg[RAX], 0x8000_0000);
    assert_ne!(c.flags & FLAG_OVERFLOW, 0);
    assert_ne!(c.flags & FLAG_SIGN, 0);
    assert_eq!(c.flags & FLAG_CARRY, 0);
}

#[test]
fn accumulator_immediate_at_16_bits() {
    let mut c = cpu(0);
    c.reg[RAX] = 0x7_0001;
    assert_eq!(c.run(0x05, &[0x02, 0x00], true, false), Step::Done);
    assert_eq!(c.reg[RAX], 0x7_0003);
    assert_eq!(c.instruction_pointer, 0x1002);
}

#[test]
fn cmp_immediate_byte_sets_zero_and_keeps_register() {
    let mut c = cpu(0x48);
    c.reg[RAX] = 5;
    assert_eq!(run(&mut c, 0x83, &[0xF8, 0x05]), Step::Done);
    assert_eq!(c.reg[RAX], 5);
    assert_ne!(c.flags & FLAG_ZERO, 0);
    assert_eq!(c.instruction_pointer, 0x1002);
}

#[test]
fn test_register_with_itself() {
    let mut c = cpu(0x48);
    assert_eq!(run(&mut c, 0x85, &[0xC0]), Step::Done);
    assert_ne!(c.flags & FLAG_ZERO, 0);
    c.reg[RAX] = -1;
    assert_eq!(run(&mut c, 0xA9, &[0x00, 0x00, 0x00, 0x80]), Step::Done);
    assert_ne!(c.flags & FLAG_SIGN, 0);
    assert_eq!(c.flags & FLAG_ZERO, 0);
    assert_eq!(c.instruction_pointer, 0x1005);
}

#[test]
fn mov_immediate_64() {
    let mut c = cpu(0x48);
    let code = [0xEF, 0xCD, 0xAB, 0x89, 0x67, 0x45, 0x23, 0x01];
    assert_eq!(run(&mut c, 0xB8, &code), Step::Done);
    assert_eq!(c.reg[RAX], 0x0123_4567_89AB_CDEF);
    assert_eq!(c.instruction_pointer, 0x1008);
}

#[test]
fn mov_immediate_32_zero_extends() {
    let mut c = cpu(0);
    c.reg[RCX] = -1;
    assert_eq!(run(&mut c, 0xB9, &[0xFF, 0xFF, 0xFF, 0xFF]), Step::Done);
    assert_eq!(c.reg[RCX], 0xFFFF_FFFF);
    assert_eq!(c.instruction_pointer, 0x1004);
}

#[test]
fn mov_rm_immediate_sign_extends_under_rex_w() {
    let mut c = cpu(0x48);
    assert_eq!(run(&mut c, 0xC7, &[0xC1, 0xFE, 0xFF, 0xFF, 0xFF]), Step::Done);
    assert_eq!(c.reg[RCX], -2);
    assert_eq!(c.instruction_pointer, 0x1005);
    let mut d = cpu(0x48);
    assert_eq!(run(&mut d, 0xC7, &[0xC8, 0, 0, 0, 0]), Step::Unimplemented);
}

#[test]
fn mov_between_registers() {
    let mut c = cpu(0);
    c.reg[RAX] = -1;
    c.reg[RCX] = 0x1_2345_6789;
    assert_eq!(run(&mut c, 0x8B, &[0xC1]), Step::Done);
    assert_eq!(c.reg[RAX], 0x2345_6789);
    assert_eq!(run(&mut c, 0x89, &[0xC8]), Step::Done);
    assert_eq!(c.reg[RAX], 0x2345_6789);
}

#[test]
fn movsxd_needs_rex_w() {
    let mut c = cpu(0x48);
    c.reg[RCX] = 0x8000_0000;
    assert_eq!(run(&mut c, 0x63, &[0xC1]), Step::Done);
    assert_eq!(c.reg[RAX], 0xFFFF_FFFF_8000_0000u64 as i64);
    let mut d = cpu(0);
    assert_eq!(run(&mut d, 0x63, &[0xC1]), Step::Unimplemented);
}

#[test]
fn cdqe_and_cqo() {
    let mut c = cpu(0x48);
    c.reg[RAX] = 0xFFFF_FFFF;
    assert_eq!(run(&mut c, 0x98, &[]), Step::Done);
    assert_eq!(c.reg[RAX], -1);
    assert_eq!(run(&mut c, 0x99, &[]), Step::Done);
    assert_eq!(c.reg[RDX], -1);
    assert_eq!(c.instruction_pointer, 0x1000);
}

#[test]
fn xchg_with_r8_is_not_nop() {
    let mut c = cpu(0x41);
    c.reg[RAX] = 1;
    c.reg[R8] = 2;
    assert_eq!(run(&mut c, 0x90, &[]), Step::Done);
    assert_eq!(c.reg[RAX], 2);
    assert_eq!(c.reg[R8], 1);
    let mut d = cpu(0);
    d.reg[RAX] = -1;
    assert_eq!(run(&mut d, 0x90, &[]), Step::Done);
    assert_eq!(d.reg[RAX], -1);
}

#[test]
fn lea_rip_relative_and_sib() {
    let mut c = cpu(0x48);
    assert_eq!(run(&mut c, 0x8D, &[0x05, 0x10, 0, 0, 0]), Step::Done);
    assert_eq!(c.reg[RAX], 0x1015);
    assert_eq!(c.instruction_pointer, 0x1005);
    let mut d = cpu(0x48);
    d.reg[RSP] = 0x8000;
    assert_eq!(run(&mut d, 0x8D, &[0x44, 0x24, 0x08]), Step::Done);
    assert_eq!(d.reg[RAX], 0x8008);
    assert_eq!(d.instruction_pointer, 0x1003);
}

#[test]
fn jumps_count_from_the_end_of_the_instruction() {
    let mut c = cpu(0);
    c.flags |= FLAG_ZERO;
    assert_eq!(run(&mut c, 0x74, &[0x10]), Step::Done);
    assert_eq!(c.instruction_pointer, 0x1011);
    let mut d = cpu(0);
    assert_eq!(run(&mut d, 0x74, &[0x10]), Step::Done);
    assert_eq!(d.instruction_pointer, 0x1001);
    let mut e = cpu(0);
    assert_eq!(run(&mut e, 0xEB, &[0xFE]), Step::Done);
    assert_eq!(e.instruction_pointer, 0xFFF);
    let mut f = cpu(0);
    assert_eq!(run(&mut f, 0xE9, &[0x00, 0x01, 0, 0]), Step::Done);
    assert_eq!(f.instruction_pointer, 0x1104);
}

#[test]
fn shifts_and_refused_rotates() {
    let mut c = cpu(0);
    c.reg[RAX] = 0x8000_0001;
    assert_eq!(run(&mut c, 0xD1, &[0xE0]), Step::Done);
    assert_eq!(c.reg[RAX], 2);
    assert_ne!(c.flags & FLAG_CARRY, 0);

    // the rotates share the shift opcodes but are refused, and change nothing
    let mut d = cpu(0x48);
    d.reg[RAX] = 0x0123_4567_89AB_CDEF;
    assert_eq!(run(&mut d, 0xC1, &[0xC0, 8]), Step::Unimplemented);
    assert_eq!(run(&mut d, 0xC1, &[0xC8, 8]), Step::Unimplemented);
    assert_eq!(run(&mut d, 0xD1, &[0xD0]), Step::Unimplemented);
    assert_eq!(d.reg[RAX], 0x0123_4567_89AB_CDEF);
    // each refusal leaves the instruction pointer past the bytes read: modrm and count
    assert_eq!(d.instruction_pointer, 0x1000 + 2 + 2 + 1);
    d.instruction_pointer = 0x1000;
    // a count of zero is no rotate, and hands the operand back
    assert_eq!(run(&mut d, 0xC1, &[0xC0, 0]), Step::Done);
    assert_eq!(d.reg[RAX], 0x0123_4567_89AB_CDEF);

    let mut e = cpu(0x48);
    e.reg[RAX] = -16;
    e.reg[RCX] = 2;
    assert_eq!(run(&mut e, 0xD3, &[0xF8]), Step::Done);
    assert_eq!(e.reg[RAX], -4);
}

#[test]
fn not_and_neg() {
    let mut c = cpu(0);
    c.reg[RAX] = 1;
    assert_eq!(run(&mut c, 0xF7, &[0xD8]), Step::Done);
    assert_eq!(c.reg[RAX], 0xFFFF_FFFF);
    assert_ne!(c.flags & FLAG_CARRY, 0);
    assert_eq!(run(&mut c, 0xF7, &[0xD0]), Step::Done);
    assert_eq!(c.reg[RAX], 0);
}

#[test]
fn multiply_widens_into_rdx() {
    let mut c = cpu(0x48);
    c.reg[RAX] = i64::MIN;
    c.reg[RCX] = 2;
    assert_eq!(run(&mut c, 0xF7, &[0xE1]), Step::Done);
    assert_eq!(c.reg[RAX], 0);
    assert_eq!(c.reg[RDX], 1);
    assert_ne!(c.flags & FLAG_CARRY, 0);
    assert_ne!(c.flags & FLAG_OVERFLOW, 0);
}

#[test]
fn divide_quotient_and_remainder() {
    let mut c = cpu(0);
    c.reg[RAX] = 100;
    c.reg[RCX] = 7;
    assert_eq!(run(&mut c, 0xF7, &[0xF1]), Step::Done);
    assert_eq!(c.reg[RAX], 14);
    assert_eq!(c.reg[RDX], 2);

    let mut s = cpu(0x48);
    s.reg[RAX] = -7;
    s.reg[RDX] = -1;
    s.reg[RCX] = 2;
    assert_eq!(run(&mut s, 0xF7, &[0xF9]), Step::Done);
    assert_eq!(s.reg[RAX], -3);
    assert_eq!(s.reg[RDX], -1);
}

#[test]
fn divide_error_changes_nothing() {
    let mut c = cpu(0);
    c.reg[RAX] = 100;
    assert_eq!(run(&mut c, 0xF7, &[0xF1]), Step::DivideError);
    assert_eq!(c.reg[RAX], 100);
    assert_eq!(c.instruction_pointer, 0x1000);

    let mut d = cpu(0x48);
    d.reg[RAX] = i64::MIN;
    d.reg[RDX] = -1;
    d.reg[RCX] = -1;
    assert_eq!(run(&mut d, 0xF7, &[0xF9]), Step::DivideError);
    assert_eq!(d.reg[RAX], i64::MIN);
}

#[test]
fn imul_three_operand() {
    let mut c = cpu(0);
    c.reg[RCX] = 3;
    assert_eq!(run(&mut c, 0x6B, &[0xC1, 0x10]), Step::Done);
    assert_eq!(c.reg[RAX], 48);
    assert_eq!(c.flags & FLAG_CARRY, 0);
    assert_eq!(run(&mut c, 0x69, &[0xC1, 0x00, 0x00, 0x00, 0x80]), Step::Done);
    assert_eq!(c.reg[RAX], 0x8000_0000);
    assert_ne!(c.flags & (FLAG_CARRY | FLAG_OVERFLOW), 0);
}

#[test]
fn flag_instructions() {
    let mut c = cpu(0);
    assert_eq!(run(&mut c, 0xF9, &[]), Step::Done);
    assert_ne!(c.flags & FLAG_CARRY, 0);
    assert_eq!(run(&mut c, 0xF5, &[]), Step::Done);
    assert_eq!(c.flags & FLAG_CARRY, 0);
    assert_eq!(run(&mut c, 0xFD, &[]), Step::Done);
    assert_ne!(c.flags & FLAG_DIRECTION, 0);
    assert_eq!(run(&mut c, 0xFC, &[]), Step::Done);
    assert_eq!(c.flags & FLAG_DIRECTION, 0);
    assert_eq!(run(&mut c, 0xF8, &[]), Step::Done);
    assert_eq!(c.flags, 2);
}

#[test]
fn fetch_fault_changes_nothing() {
    let mut c = cpu(0x48);
    c.reg[RAX] = 9;
    assert_eq!(run(&mut c, 0x01, &[]), Step::FetchFault);
    assert_eq!(run(&mut c, 0xB8, &[1, 2, 3]), Step::FetchFault);
    assert_eq!(run(&mut c, 0x8D, &[0x05, 0x10]), Step::FetchFault);
    assert_eq!(run(&mut c, 0x0F, &[]), Step::FetchFault);
    assert_eq!(c.reg[RAX], 9);
    assert_eq!(c.instruction_pointer, 0x1000);
    assert_eq!(c.flags, 2);
}

#[test]
fn memory_and_stack_forms_go_to_the_caller() {
    let mut c = cpu(0x48);
    assert_eq!(run(&mut c, 0x50, &[]), Step::Outside);
    assert_eq!(run(&mut c, 0x01, &[0x00]), Step::Outside);
    assert_eq!(run(&mut c, 0x00, &[0x00]), Step::Outside);
    assert_eq!(run(&mut c, 0xA5, &[]), Step::Outside);
    assert_eq!(run(&mut c, 0x0F, &[0x05]), Step::Outside);
    assert_eq!(run(&mut c, 0xFE, &[0x00]), Step::Outside);
    assert_eq!(run(&mut c, 0xE4, &[0x60]), Step::Outside);
    assert_eq!(c.instruction_pointer, 0x1000);
    // refused after their modrm was read, which leaves the instruction pointer past it
    assert_eq!(run(&mut c, 0xFE, &[0xD0]), Step::Unimplemented);
    assert_eq!(c.instruction_pointer, 0x1001);
    assert_eq!(run(&mut c, 0xC6, &[0xC8, 0]), Step::Unimplemented);
    assert_eq!(c.instruction_pointer, 0x1002);
}

#[test]
fn unknown_opcodes_are_unimplemented() {
    let mut c = cpu(0);
    assert_eq!(run(&mut c, 0xFF, &[0xC0]), Step::Unimplemented);
    assert_eq!(run(&mut c, 0x27, &[]), Step::Unimplemented);
    assert_eq!(run(&mut c, -1, &[]), Step::Unimplemented);
    assert_eq!(c.instruction_pointer, 0x1000);
    // an unknown two byte opcode leaves the instruction pointer past its second byte
    assert_eq!(run(&mut c, 0x0F, &[0xFF, 0xC0]), Step::Unimplemented);
    assert_eq!(c.instruction_pointer, 0x1001);
}

#[test]
fn two_byte_imul_and_jcc() {
    let mut c = cpu(0x48);
    c.reg[RAX] = 3;
    c.reg[RCX] = -4;
    assert_eq!(run(&mut c, 0x0F, &[0xAF, 0xC1]), Step::Done);
    assert_eq!(c.reg[RAX], -12);
    assert_eq!(c.instruction_pointer, 0x1002);

    let mut d = cpu(0);
    d.flags |= FLAG_CARRY;
    assert_eq!(run(&mut d, 0x0F, &[0x82, 0x00, 0x10, 0, 0]), Step::Done);
    assert_eq!(d.instruction_pointer, 0x1000 + 5 + 0x1000);
}

#[test]
fn two_byte_refusals_and_the_instruction_pointer() {
    // a fetch fault gives back the second opcode byte
    let mut c = cpu(0);
    assert_eq!(run(&mut c, 0x0F, &[0xAF]), Step::FetchFault);
    assert_eq!(c.instruction_pointer, 0x1000);
    // popcnt without its f3 prefix is refused once the second opcode byte is read
    assert_eq!(run(&mut c, 0x0F, &[0xB8, 0xC1]), Step::Unimplemented);
    assert_eq!(c.instruction_pointer, 0x1001);
    // 0fba /0 is refused once its modrm is read too
    let mut d = cpu(0);
    assert_eq!(run(&mut d, 0x0F, &[0xBA, 0xC0, 1]), Step::Unimplemented);
    assert_eq!(d.instruction_pointer, 0x1002);
    assert_eq!(d.reg, [0; 16]);
}

#[test]
fn cmov_false_still_zero_extends() {
    let mut c = cpu(0);
    c.reg[RAX] = 0xFFFF_FFFF_1234_5678u64 as i64;
    c.reg[RCX] = 7;
    assert_eq!(run(&mut c, 0x0F, &[0x44, 0xC1]), Step::Done);
    assert_eq!(c.reg[RAX], 0x1234_5678);
    c.flags |= FLAG_ZERO;
    assert_eq!(run(&mut c, 0x0F, &[0x44, 0xC1]), Step::Done);
    assert_eq!(c.reg[RAX], 7);
}

#[test]
fn bswap_32_and_64() {
    let mut c = cpu(0);
    c.reg[RAX] = 0x1122_3344;
    assert_eq!(run(&mut c, 0x0F, &[0xC8]), Step::Done);
    assert_eq!(c.reg[RAX], 0x4433_2211);
    assert_eq!(c.instruction_pointer, 0x1001);
    let mut d = cpu(0x48);
    d.reg[RAX] = 0x0102_0304_0506_0708;
    assert_eq!(run(&mut d, 0x0F, &[0xC8]), Step::Done);
    assert_eq!(d.reg[RAX], 0x0807_0605_0403_0201);
}

#[test]
fn bit_scans() {
    let mut c = cpu(0);
    c.reg[RAX] = 0x55;
    assert_eq!(run(&mut c, 0x0F, &[0xBC, 0xC1]), Step::Done);
    assert_eq!(c.reg[RAX], 0x55);
    assert_ne!(c.flags & FLAG_ZERO, 0);
    c.reg[RCX] = 0x8080;
    assert_eq!(run(&mut c, 0x0F, &[0xBC, 0xC1]), Step::Done);
    assert_eq!(c.reg[RAX], 7);
    assert_eq!(c.flags & FLAG_ZERO, 0);
    assert_eq!(run(&mut c, 0x0F, &[0xBD, 0xC1]), Step::Done);
    assert_eq!(c.reg[RAX], 15);
}

#[test]
fn popcnt_needs_f3() {
    let mut c = cpu(0);
    c.reg[RCX] = 0xFF00FF;
    assert_eq!(c.run(0x0F, &[0xB8, 0xC1], false, true), Step::Done);
    assert_eq!(c.reg[RAX], 16);
    assert_eq!(c.flags & FLAG_ZERO, 0);
    let mut d = cpu(0);
    assert_eq!(d.run(0x0F, &[0xB8, 0xC1], false, false), Step::Unimplemented);
}

#[test]
fn bit_tests() {
    let mut c = cpu(0);
    c.reg[RAX] = 0b100;
    c.reg[RCX] = 2;
    assert_eq!(run(&mut c, 0x0F, &[0xA3, 0xC8]), Step::Done);
    assert_ne!(c.flags & FLAG_CARRY, 0);
    assert_eq!(run(&mut c, 0x0F, &[0xBA, 0xE8, 3]), Step::Done);
    assert_eq!(c.reg[RAX], 0b1100);
    assert_eq!(c.flags & FLAG_CARRY, 0);
    assert_eq!(run(&mut c, 0x0F, &[0xB3, 0xC8]), Step::Done);
    assert_eq!(c.reg[RAX], 0b1000);
    assert_eq!(run(&mut c, 0x0F, &[0xA3, 0x08]), Step::Unimplemented);
    assert_eq!(run(&mut c, 0x0F, &[0xBA, 0xC8, 0]), Step::Unimplemented);
}

#[test]
fn shld_fills_from_the_other_register() {
    let mut c = cpu(0);
    c.reg[RAX] = 0x1234_5678;
    c.reg[RCX] = 0xABCD_EF01;
    assert_eq!(run(&mut c, 0x0F, &[0xA4, 0xC8, 4]), Step::Done);
    assert_eq!(c.reg[RAX], 0x2345_678A);
    assert_ne!(c.flags & FLAG_CARRY, 0);
    assert_eq!(c.instruction_pointer, 0x1003);
}

#[test]
fn movzx_and_movsx_from_a_word() {
    let mut c = cpu(0);
    c.reg[RCX] = 0xFFFF_8001;
    assert_eq!(run(&mut c, 0x0F, &[0xB7, 0xC1]), Step::Done);
    assert_eq!(c.reg[RAX], 0x8001);
    assert_eq!(run(&mut c, 0x0F, &[0xBF, 0xC1]), Step::Done);
    assert_eq!(c.reg[RAX], 0xFFFF_8001);
}

#[test]
fn xadd_and_cmpxchg() {
    let mut c = cpu(0x48);
    c.reg[RAX] = 5;
    c.reg[RCX] = 3;
    assert_eq!(run(&mut c, 0x0F, &[0xC1, 0xC8]), Step::Done);
    assert_eq!(c.reg[RAX], 8);
    assert_eq!(c.reg[RCX], 5);

    let mut d = cpu(0x48);
    d.reg[RAX] = 7;
    d.reg[RDX] = 7;
    d.reg[RCX] = 42;
    assert_eq!(run(&mut d, 0x0F, &[0xB1, 0xCA]), Step::Done);
    assert_eq!(d.reg[RDX], 42);
    assert_ne!(d.flags & FLAG_ZERO, 0);
    assert_eq!(run(&mut d, 0x0F, &[0xB1, 0xCA]), Step::Done);
    assert_eq!(d.reg[RAX], 42);
    assert_eq!(d.flags & FLAG_ZERO, 0);
}

#[test]
fn multi_byte_nop_consumes_its_operand() {
    let mut c = cpu(0);
    assert_eq!(run(&mut c, 0x0F, &[0x1F, 0x44, 0x00, 0x00]), Step::Done);
    assert_eq!(c.instruction_pointer, 0x1004);
    let mut d = cpu(0);
    assert_eq!(run(&mut d, 0x0F, &[0x1F, 0x80, 0, 0]), Step::FetchFault);
    assert_eq!(d.instruction_pointer, 0x1000);
}

#[test]
fn ff_group_inc_keeps_carry() {
    let mut c = cpu(0);
    c.flags |= FLAG_CARRY;
    c.reg[RAX] = 0xFFFF_FFFF;
    assert_eq!(c.run_ff(0xC0, false), Step::Done);
    assert_eq!(c.reg[RAX], 0);
    assert_ne!(c.flags & FLAG_ZERO, 0);
    assert_ne!(c.flags & FLAG_CARRY, 0);
    assert_eq!(c.run_ff(0xC8, false), Step::Done);
    assert_eq!(c.reg[RAX], 0xFFFF_FFFF);
    assert_ne!(c.flags & FLAG_CARRY, 0);
}

#[test]
fn ff_group_jump_and_the_rest() {
    let mut c = cpu(0);
    c.reg[RCX] = 0x7000_0000_1234;
    assert_eq!(c.run_ff(0xE1, false), Step::Done);
    assert_eq!(c.instruction_pointer, 0x7000_0000_1234);
    let mut d = cpu(0);
    assert_eq!(d.run_ff(0xD1, false), Step::Outside);
    assert_eq!(d.run_ff(0xF1, false), Step::Outside);
    assert_eq!(d.run_ff(0x20, false), Step::Outside);
    assert_eq!(d.run_ff(0xD9, false), Step::Unimplemented);
    assert_eq!(d.run_ff(0xF8, false), Step::Unimplemented);
    assert_eq!(d.instruction_pointer, 0x1000);
}

#[test]
fn rdrand_takes_the_random_words_it_is_given() {
    let mut c = cpu(0x48);
    assert_eq!(run(&mut c, 0x0F, &[0xC7, 0xF0]), Step::Outside);
    assert_eq!(c.instruction_pointer, 0x1000);
    assert_eq!(c.rdrand_draws(&[0xC7, 0xF0], false), 2);
    assert!(c.rdrand(&[0xC7, 0xF0], false, 0x1111_2222, 0x3333_4444));
    assert_eq!(c.reg[RAX], 0x3333_4444_1111_2222);
    assert_eq!(c.flags & 0x8D5, FLAG_CARRY);
    assert_eq!(c.instruction_pointer, 0x1002);

    let mut d = cpu(0);
    d.flags |= FLAG_ZERO;
    assert_eq!(d.rdrand_draws(&[0xC7, 0xF1], false), 1);
    assert!(d.rdrand(&[0xC7, 0xF1], false, 0xFFFF_FFFF, 7));
    assert_eq!(d.reg[RCX], 0xFFFF_FFFF);
    assert_eq!(d.flags & FLAG_ZERO, 0);
}

#[test]
fn group_nine_decisions() {
    let mut c = cpu(0);
    assert_eq!(c.rdrand_draws(&[0xC7, 0x08], false), 0);
    assert!(!c.rdrand(&[0xC7, 0x08], false, 1, 2));
    assert_eq!(run(&mut c, 0x0F, &[0xC7, 0x08]), Step::Outside);
    assert_eq!(run(&mut c, 0x0F, &[0xC7]), Step::FetchFault);
    assert_eq!(c.instruction_pointer, 0x1000);
    assert_eq!(run(&mut c, 0x0F, &[0xC7, 0xC8]), Step::Unimplemented);
    assert_eq!(c.instruction_pointer, 0x1002);
    assert_eq!(c.reg, [0; 16]);
}

#[test]
fn xchg_of_two_registers_through_modrm() {
    let mut c = cpu(0x48);
    c.reg[RAX] = 1;
    c.reg[RCX] = 2;
    assert_eq!(run(&mut c, 0x87, &[0xC8]), Step::Done);
    assert_eq!((c.reg[RAX], c.reg[RCX]), (2, 1));
    assert_eq!(c.instruction_pointer, 0x1001);
    let mut d = cpu(0);
    d.reg[RAX] = -1;
    d.reg[RCX] = 2;
    assert_eq!(run(&mut d, 0x87, &[0xC8]), Step::Done);
    assert_eq!((d.reg[RAX], d.reg[RCX]), (2, 0xFFFF_FFFF));
    assert_eq!(run(&mut d, 0x87, &[0x08]), Step::Outside);
}
