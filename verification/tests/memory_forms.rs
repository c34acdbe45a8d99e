use v86::cpu::Cpu;
use v86::flags::{FLAG_CARRY, FLAG_ZERO};
use v86::memory::{AfterStore, MemoryOperand};
use v86::run::Step;

const RAX: usize = 0;
const RCX: usize = 1;
const RDX: usize = 2;
const RBX: usize = 3;

fn cpu(rex: u8) -> Cpu {
    let mut c = Cpu { reg: [0; 16], flags: 2, instruction_pointer: 0x1000, rex };
    c.reg[RBX] = 0x2000;
    c
}

/// Runs a memory form that leaves nothing for after its store.
fn run_mem(
    c: &mut Cpu,
    opcode: i32,
    code: &[u8],
    opsize_prefix: bool,
    rep_prefix: bool,
    seg_base: i64,
    loaded: i64,
) -> (Step, Option<i64>) {
    let (step, store, after) = c.run_memory(opcode, code, opsize_prefix, rep_prefix, seg_base, loaded);
    assert_eq!(after, AfterStore::Nothing);
    (step, store)
}

fn operand(addr: i64, width: i32, read: bool) -> Result<MemoryOperand, Step> {
    Ok(MemoryOperand { addr, width, read })
}

#[test]
fn add_to_memory_stores_the_sum() {
    let mut c = cpu(0x48);
    c.reg[RCX] = 7;
    assert_eq!(c.memory_operand(0x01, &[0x0B], false, false, 0), operand(0x2000, 64, true));
    assert_eq!(run_mem(&mut c, 0x01, &[0x0B], false, false, 0, 5), (Step::Done, Some(12)));
    assert_eq!(c.instruction_pointer, 0x1001);
    assert_eq!(c.reg[RCX], 7);
}

#[test]
fn add_from_memory_writes_the_register() {
    let mut c = cpu(0x48);
    c.reg[RCX] = 7;
    assert_eq!(run_mem(&mut c, 0x03, &[0x0B], false, false, 0, 5), (Step::Done, None));
    assert_eq!(c.reg[RCX], 12);
}

#[test]
fn cmp_with_memory_stores_nothing() {
    let mut c = cpu(0);
    c.reg[RCX] = 5;
    assert_eq!(run_mem(&mut c, 0x39, &[0x0B], false, false, 0, 5), (Step::Done, None));
    assert_ne!(c.flags & FLAG_ZERO, 0);
}

#[test]
fn mov_to_and_from_memory() {
    let mut c = cpu(0);
    c.reg[RCX] = 0x1_2345_6789;
    assert_eq!(c.memory_operand(0x89, &[0x0B], false, false, 0), operand(0x2000, 32, false));
    assert_eq!(run_mem(&mut c, 0x89, &[0x0B], false, false, 0, 0), (Step::Done, Some(0x1_2345_6789)));
    assert_eq!(run_mem(&mut c, 0x8B, &[0x0B], false, false, 0, 0x1_8765_4321), (Step::Done, None));
    assert_eq!(c.reg[RCX], 0x8765_4321);
    let mut d = cpu(0x48);
    assert_eq!(d.memory_operand(0x63, &[0x0B], false, false, 0), operand(0x2000, 32, true));
    assert_eq!(run_mem(&mut d, 0x63, &[0x0B], false, false, 0, 0x8000_0000), (Step::Done, None));
    assert_eq!(d.reg[RCX], 0xFFFF_FFFF_8000_0000u64 as i64);
}

#[test]
fn rip_relative_counts_past_the_immediate() {
    let mut c = cpu(0x48);
    let code = [0x05, 0x10, 0, 0, 0, 0x05];
    assert_eq!(c.memory_operand(0x83, &code, false, false, 0), operand(0x1016, 64, true));
    assert_eq!(run_mem(&mut c, 0x83, &code, false, false, 0, 1), (Step::Done, Some(6)));
    assert_eq!(c.instruction_pointer, 0x1006);
}

#[test]
fn store_an_immediate() {
    let mut c = cpu(0);
    let code = [0x43, 0x08, 0x78, 0x56, 0x34, 0x12];
    assert_eq!(c.memory_operand(0xC7, &code, false, false, 0x1_0000), operand(0x1_2008, 32, false));
    assert_eq!(run_mem(&mut c, 0xC7, &code, false, false, 0x1_0000, 0), (Step::Done, Some(0x1234_5678)));
    assert_eq!(c.instruction_pointer, 0x1006);
    let mut d = cpu(0);
    assert_eq!(d.memory_operand(0xC7, &[0x4B, 0x08], false, false, 0), Err(Step::Outside));
}

#[test]
fn shift_and_neg_in_memory() {
    let mut c = cpu(0);
    assert_eq!(run_mem(&mut c, 0xD1, &[0x23], false, false, 0, 0x8000_0001), (Step::Done, Some(2)));
    assert_ne!(c.flags & FLAG_CARRY, 0);
    assert_eq!(run_mem(&mut c, 0xF7, &[0x1B], false, false, 0, 1), (Step::Done, Some(-1)));
    assert_ne!(c.flags & FLAG_CARRY, 0);
    assert_eq!(run_mem(&mut c, 0xF7, &[0x13], false, false, 0, 0), (Step::Done, Some(-1)));
}

#[test]
fn divide_by_memory() {
    let mut c = cpu(0);
    c.reg[RAX] = 100;
    assert_eq!(run_mem(&mut c, 0xF7, &[0x33], false, false, 0, 7), (Step::Done, None));
    assert_eq!(c.reg[RAX], 14);
    assert_eq!(c.reg[RDX], 2);
    assert_eq!(run_mem(&mut c, 0xF7, &[0x33], false, false, 0, 0), (Step::DivideError, None));
    assert_eq!(c.reg[RAX], 14);
    assert_eq!(c.instruction_pointer, 0x1001);
}

#[test]
fn imul_with_a_memory_source() {
    let mut c = cpu(0);
    assert_eq!(run_mem(&mut c, 0x6B, &[0x0B, 3], false, false, 0, 5), (Step::Done, None));
    assert_eq!(c.reg[RCX], 15);
    assert_eq!(c.instruction_pointer, 0x1002);
}

#[test]
fn two_byte_loads() {
    let mut c = cpu(0);
    c.flags |= FLAG_ZERO;
    assert_eq!(run_mem(&mut c, 0x0F, &[0x44, 0x0B], false, false, 0, 0x77), (Step::Done, None));
    assert_eq!(c.reg[RCX], 0x77);
    assert_eq!(c.instruction_pointer, 0x1002);
    assert_eq!(c.memory_operand(0x0F, &[0xB7, 0x0B], false, false, 0), operand(0x2000, 16, true));
    assert_eq!(run_mem(&mut c, 0x0F, &[0xBF, 0x0B], false, false, 0, 0xFFFF), (Step::Done, None));
    assert_eq!(c.reg[RCX], 0xFFFF_FFFF);
    assert_eq!(run_mem(&mut c, 0x0F, &[0xB8, 0x0B], false, true, 0, 0xF0), (Step::Done, None));
    assert_eq!(c.reg[RCX], 4);
    assert_eq!(c.memory_operand(0x0F, &[0xB8, 0x0B], false, false, 0), Err(Step::Outside));
}

#[test]
fn two_byte_updates() {
    let mut c = cpu(0);
    assert_eq!(run_mem(&mut c, 0x0F, &[0xBA, 0x2B, 3], false, false, 0, 0), (Step::Done, Some(8)));
    assert_eq!(c.flags & FLAG_CARRY, 0);
    assert_eq!(c.instruction_pointer, 0x1003);

    let mut x = cpu(0);
    x.reg[RCX] = 3;
    assert_eq!(run_mem(&mut x, 0x0F, &[0xC1, 0x0B], false, false, 0, 5), (Step::Done, Some(8)));
    assert_eq!(x.reg[RCX], 5);

    let mut e = cpu(0x48);
    e.reg[RAX] = 9;
    e.reg[RCX] = 42;
    assert_eq!(run_mem(&mut e, 0x0F, &[0xB1, 0x0B], false, false, 0, 9), (Step::Done, Some(42)));
    assert_ne!(e.flags & FLAG_ZERO, 0);
    assert_eq!(run_mem(&mut e, 0x0F, &[0xB1, 0x0B], false, false, 0, 10), (Step::Done, None));
    assert_eq!(e.reg[RAX], 10);
    assert_eq!(e.flags & FLAG_ZERO, 0);
}

#[test]
fn what_has_no_memory_operand_here() {
    let c = cpu(0);
    assert_eq!(c.memory_operand(0x01, &[0xC8], false, false, 0), Err(Step::Outside));
    assert_eq!(c.memory_operand(0x01, &[], false, false, 0), Err(Step::FetchFault));
    assert_eq!(c.memory_operand(0x01, &[0x04], false, false, 0), Err(Step::FetchFault));
    assert_eq!(c.memory_operand(0x50, &[], false, false, 0), Err(Step::Outside));
    assert_eq!(c.memory_operand(0x0F, &[], false, false, 0), Err(Step::FetchFault));
    assert_eq!(c.memory_operand(0x0F, &[0xA3, 0x0B], false, false, 0), Err(Step::Outside));
}

#[test]
fn a_missing_immediate_after_the_read_changes_nothing() {
    let mut c = cpu(0);
    assert!(c.memory_operand(0x81, &[0x03, 0x01, 0x02], false, false, 0).is_ok());
    assert_eq!(run_mem(&mut c, 0x81, &[0x03, 0x01, 0x02], false, false, 0, 5), (Step::FetchFault, None));
    assert_eq!(c.instruction_pointer, 0x1000);
    assert_eq!(c.flags, 2);
}

#[test]
fn byte_forms_in_memory() {
    let mut c = cpu(0);
    // add byte [rbx], 1: 0xff wraps to 0 and carries
    assert_eq!(c.memory_operand(0x80, &[0x03, 0x01], false, false, 0), operand(0x2000, 8, true));
    assert_eq!(run_mem(&mut c, 0x80, &[0x03, 0x01], false, false, 0, 0xFF), (Step::Done, Some(0)));
    assert_ne!(c.flags & FLAG_CARRY, 0);
    assert_ne!(c.flags & FLAG_ZERO, 0);
    assert_eq!(c.instruction_pointer, 0x1002);

    // shl byte [rbx], cl
    let mut d = cpu(0);
    d.reg[RCX] = 0x102;
    assert_eq!(run_mem(&mut d, 0xD2, &[0x23], false, false, 0, 0x41), (Step::Done, Some(0x04)));
    assert_ne!(d.flags & FLAG_CARRY, 0);

    // mov byte [rbx], 0x9c
    let mut e = cpu(0);
    assert_eq!(e.memory_operand(0xC6, &[0x03, 0x9C], false, false, 0), operand(0x2000, 8, false));
    assert_eq!(run_mem(&mut e, 0xC6, &[0x03, 0x9C], false, false, 0, 0), (Step::Done, Some(0x9C)));

    // neg byte [rbx], and mul byte [rbx] into ax
    let mut f = cpu(0);
    assert_eq!(run_mem(&mut f, 0xF6, &[0x1B], false, false, 0, 1), (Step::Done, Some(-1)));
    f.reg[RAX] = 0x7_0010;
    assert_eq!(run_mem(&mut f, 0xF6, &[0x23], false, false, 0, 0x20), (Step::Done, None));
    assert_eq!(f.reg[RAX], 0x7_0200);

    // inc byte [rbx] keeps carry
    let mut g = cpu(0);
    g.flags |= FLAG_CARRY;
    assert_eq!(run_mem(&mut g, 0xFE, &[0x03], false, false, 0, 0x7F), (Step::Done, Some(-128)));
    assert_ne!(g.flags & FLAG_CARRY, 0);
    assert_eq!(g.memory_operand(0xFE, &[0x13], false, false, 0), Err(Step::Outside));
}

#[test]
fn setcc_and_byte_extensions_in_memory() {
    let mut c = cpu(0);
    c.flags |= FLAG_ZERO;
    assert_eq!(c.memory_operand(0x0F, &[0x94, 0x03], false, false, 0), operand(0x2000, 8, false));
    assert_eq!(run_mem(&mut c, 0x0F, &[0x94, 0x03], false, false, 0, 0), (Step::Done, Some(1)));
    assert_eq!(run_mem(&mut c, 0x0F, &[0x95, 0x03], false, false, 0, 0), (Step::Done, Some(0)));
    assert_eq!(run_mem(&mut c, 0x0F, &[0xBE, 0x0B], false, false, 0, 0x80), (Step::Done, None));
    assert_eq!(c.reg[RCX], 0xFFFF_FF80);
    assert_eq!(run_mem(&mut c, 0x0F, &[0xB6, 0x0B], false, false, 0, 0x1_80), (Step::Done, None));
    assert_eq!(c.reg[RCX], 0x80);
}

#[test]
fn xchg_with_memory_loads_the_register_after_the_store() {
    let mut c = cpu(0x48);
    c.reg[RCX] = 0x1111;
    let (step, store, after) = c.run_memory(0x87, &[0x0B], false, false, 0, 0x2222);
    assert_eq!((step, store), (Step::Done, Some(0x1111)));
    assert_eq!(after, AfterStore::Register { reg: 1, value: 0x2222, osize: 64 });
    assert_eq!(c.reg[RCX], 0x1111);
    c.after_store(after);
    assert_eq!(c.reg[RCX], 0x2222);
    assert_eq!(c.instruction_pointer, 0x1001);
}

#[test]
fn shld_in_memory_sets_the_flags_after_the_store() {
    let mut c = cpu(0);
    c.reg[RCX] = 0xABCD_EF01;
    let (step, store, after) = c.run_memory(0x0F, &[0xA4, 0x0B, 4], false, false, 0, 0x1234_5678);
    assert_eq!((step, store), (Step::Done, Some(0x2345_678A)));
    assert_eq!(c.flags, 2);
    assert_eq!(c.instruction_pointer, 0x1003);
    c.after_store(after);
    assert_ne!(c.flags & FLAG_CARRY, 0);
    // a count of zero stores the operand back and leaves the flags
    let mut d = cpu(0);
    let (step, store, after) = d.run_memory(0x0F, &[0xA4, 0x0B, 0], false, false, 0, 0x55);
    assert_eq!((step, store), (Step::Done, Some(0x55)));
    d.after_store(after);
    assert_eq!(d.flags, 2);
    // a 16-bit operand with a count above 16
    let mut e = cpu(0);
    e.reg[RCX] = 17;
    let (step, store, after) = e.run_memory(0x0F, &[0xA5, 0x0B], true, false, 0, 1);
    assert_eq!((step, store, after), (Step::Unimplemented, None, AfterStore::Nothing));
}
