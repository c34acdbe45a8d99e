use v86::cpu::Cpu;
use v86::flags::{FLAG_CARRY, FLAG_OVERFLOW, FLAG_SIGN, FLAG_ZERO};
use v86::memory::AfterStore;
use v86::run::Step;

const RAX: usize = 0;
const RCX: usize = 1;
const RDX: usize = 2;
const RBX: usize = 3;
const RSP: usize = 4;
const R13: usize = 13;

fn cpu(rex: u8) -> Cpu {
    Cpu { reg: [0; 16], flags: 2, instruction_pointer: 0x1000, rex }
}

#[test]
fn ah_without_rex_and_spl_with_it() {
    // mov al, ah
    let mut c = cpu(0);
    c.reg[RAX] = 0x1234;
    assert_eq!(c.run(0x88, &[0xE0], false, false), Step::Done);
    assert_eq!(c.reg[RAX], 0x1212);
    assert_eq!(c.instruction_pointer, 0x1001);
    // the same bytes under a rex prefix name spl
    let mut d = cpu(0x40);
    d.reg[RAX] = 0x1234;
    d.reg[RSP] = 0x7755;
    assert_eq!(d.run(0x88, &[0xE0], false, false), Step::Done);
    assert_eq!(d.reg[RAX], 0x1255);
}

#[test]
fn byte_arithmetic_keeps_the_rest_of_the_register() {
    // add al, 1 wraps within the byte
    let mut c = cpu(0);
    c.reg[RAX] = 0x1FF;
    assert_eq!(c.run(0x04, &[0x01], false, false), Step::Done);
    assert_eq!(c.reg[RAX], 0x100);
    assert_ne!(c.flags & FLAG_ZERO, 0);
    assert_ne!(c.flags & FLAG_CARRY, 0);
    // add ah, cl
    let mut d = cpu(0);
    d.reg[RAX] = 0x0100;
    d.reg[RCX] = 5;
    assert_eq!(d.run(0x00, &[0xCC], false, false), Step::Done);
    assert_eq!(d.reg[RAX], 0x0600);
    // add dl, 0x80
    let mut e = cpu(0);
    e.reg[RDX] = 0x7F;
    assert_eq!(e.run(0x80, &[0xC2, 0x80], false, false), Step::Done);
    assert_eq!(e.reg[RDX], 0xFF);
    assert_ne!(e.flags & FLAG_SIGN, 0);
    assert_eq!(e.flags & FLAG_OVERFLOW, 0);
    assert_eq!(e.instruction_pointer, 0x1002);
    // test al, 0x80 sets sign from the byte
    let mut f = cpu(0);
    f.reg[RAX] = 0x80;
    assert_eq!(f.run(0xA8, &[0x80], false, false), Step::Done);
    assert_ne!(f.flags & FLAG_SIGN, 0);
    assert_eq!(f.reg[RAX], 0x80);
}

#[test]
fn byte_moves_and_exchange() {
    // mov ch, 0x9a
    let mut c = cpu(0);
    c.reg[RCX] = 0x11;
    assert_eq!(c.run(0xB5, &[0x9A], false, false), Step::Done);
    assert_eq!(c.reg[RCX], 0x9A11);
    // under rex.b the same opcode names r13b
    let mut d = cpu(0x41);
    d.reg[R13] = -1;
    assert_eq!(d.run(0xB5, &[0x9A], false, false), Step::Done);
    assert_eq!(d.reg[R13], !0xFF | 0x9A);
    // xchg cl, al
    let mut e = cpu(0);
    e.reg[RAX] = 0x101;
    e.reg[RCX] = 0x202;
    assert_eq!(e.run(0x86, &[0xC1], false, false), Step::Done);
    assert_eq!((e.reg[RAX], e.reg[RCX]), (0x102, 0x201));
    // mov bl, 0x7f, and mov r/m8, imm8 with another reg field is not implemented
    let mut f = cpu(0);
    assert_eq!(f.run(0xC6, &[0xC3, 0x7F], false, false), Step::Done);
    assert_eq!(f.reg[RBX], 0x7F);
    assert_eq!(f.instruction_pointer, 0x1002);
    assert_eq!(f.run(0xC6, &[0xCB, 0x7F], false, false), Step::Unimplemented);
}

#[test]
fn sahf_and_lahf() {
    let mut c = cpu(0);
    c.reg[RAX] = 0xD500;
    assert_eq!(c.run(0x9E, &[], false, false), Step::Done);
    assert_eq!(c.flags, 0xD7);
    let mut d = cpu(0x48);
    d.flags = 0x47;
    d.reg[RAX] = 0x12;
    assert_eq!(d.run(0x9F, &[], false, false), Step::Done);
    assert_eq!(d.reg[RAX], 0x4712);
}

#[test]
fn byte_shifts_group3_and_inc() {
    // shl bl, 1
    let mut c = cpu(0);
    c.reg[RBX] = 0x81;
    assert_eq!(c.run(0xD0, &[0xE3], false, false), Step::Done);
    assert_eq!(c.reg[RBX], 0x02);
    assert_ne!(c.flags & FLAG_CARRY, 0);
    // rol bl, 1 is refused
    assert_eq!(c.run(0xD0, &[0xC3], false, false), Step::Unimplemented);
    // mul bl: ax = al * bl
    let mut d = cpu(0);
    d.reg[RAX] = 0x10;
    d.reg[RBX] = 0x10;
    assert_eq!(d.run(0xF6, &[0xE3], false, false), Step::Done);
    assert_eq!(d.reg[RAX], 0x100);
    // div bl by zero
    let mut z = cpu(0);
    z.reg[RAX] = 5;
    assert_eq!(z.run(0xF6, &[0xF3], false, false), Step::DivideError);
    assert_eq!(z.reg[RAX], 5);
    // neg bl, then inc bl wraps to zero and keeps carry
    let mut e = cpu(0);
    e.reg[RBX] = 1;
    assert_eq!(e.run(0xF6, &[0xDB], false, false), Step::Done);
    assert_eq!(e.reg[RBX], 0xFF);
    assert_ne!(e.flags & FLAG_CARRY, 0);
    assert_eq!(e.run(0xFE, &[0xC3], false, false), Step::Done);
    assert_eq!(e.reg[RBX], 0);
    assert_ne!(e.flags & FLAG_ZERO, 0);
    assert_ne!(e.flags & FLAG_CARRY, 0);
}

#[test]
fn two_byte_byte_forms() {
    // sete al
    let mut c = cpu(0);
    c.flags |= FLAG_ZERO;
    c.reg[RAX] = 0x500;
    assert_eq!(c.run(0x0F, &[0x94, 0xC0], false, false), Step::Done);
    assert_eq!(c.reg[RAX], 0x501);
    assert_eq!(c.instruction_pointer, 0x1002);
    // movzx and movsx eax, cl
    let mut d = cpu(0);
    d.reg[RCX] = 0x80;
    assert_eq!(d.run(0x0F, &[0xB6, 0xC1], false, false), Step::Done);
    assert_eq!(d.reg[RAX], 0x80);
    assert_eq!(d.run(0x0F, &[0xBE, 0xC1], false, false), Step::Done);
    assert_eq!(d.reg[RAX], 0xFFFF_FF80);
    // cmpxchg bl, cl: equal, so bl takes cl
    let mut e = cpu(0);
    e.reg[RAX] = 0x44;
    e.reg[RBX] = 0x44;
    e.reg[RCX] = 0x99;
    assert_eq!(e.run(0x0F, &[0xB0, 0xCB], false, false), Step::Done);
    assert_eq!(e.reg[RBX], 0x99);
    assert_ne!(e.flags & FLAG_ZERO, 0);
    // not equal, so al takes bl
    assert_eq!(e.run(0x0F, &[0xB0, 0xCB], false, false), Step::Done);
    assert_eq!(e.reg[RAX], 0x99);
    assert_eq!(e.flags & FLAG_ZERO, 0);
    // xadd bl, cl
    let mut f = cpu(0);
    f.reg[RBX] = 3;
    f.reg[RCX] = 4;
    assert_eq!(f.run(0x0F, &[0xC0, 0xCB], false, false), Step::Done);
    assert_eq!((f.reg[RBX], f.reg[RCX]), (7, 3));
}

#[test]
fn byte_register_forms_on_memory() {
    // add [rbx], al
    let mut c = cpu(0);
    c.reg[RAX] = 1;
    c.reg[RBX] = 0x2000;
    assert_eq!(c.run_memory(0x00, &[0x03], false, false, 0, 0x7F), (Step::Done, Some(-128), AfterStore::Nothing));
    assert_ne!(c.flags & FLAG_OVERFLOW, 0);
    // mov al, [rbx] and mov [rbx], ah
    let mut d = cpu(0);
    d.reg[RAX] = 0x1200;
    assert_eq!(d.run_memory(0x8A, &[0x03], false, false, 0, 0xAB), (Step::Done, None, AfterStore::Nothing));
    assert_eq!(d.reg[RAX], 0x12AB);
    assert_eq!(d.run_memory(0x88, &[0x23], false, false, 0, 0), (Step::Done, Some(0x12), AfterStore::Nothing));
    // xchg [rbx], cl: cl takes the old byte once the store is made
    let mut e = cpu(0);
    e.reg[RCX] = 0x311;
    let (step, store, after) = e.run_memory(0x86, &[0x0B], false, false, 0, 0x44);
    assert_eq!((step, store, after), (Step::Done, Some(0x11), AfterStore::Byte { reg: 1, value: 0x44 }));
    assert_eq!(e.reg[RCX], 0x311);
    e.after_store(after);
    assert_eq!(e.reg[RCX], 0x344);
    // cmpxchg [rbx], cl with al different: al is loaded
    let mut f = cpu(0);
    f.reg[RAX] = 0x45;
    f.reg[RCX] = 0x11;
    assert_eq!(f.run_memory(0x0F, &[0xB0, 0x0B], false, false, 0, 0x44), (Step::Done, None, AfterStore::Nothing));
    assert_eq!(f.reg[RAX], 0x44);
    // now equal: cl is stored
    assert_eq!(f.run_memory(0x0F, &[0xB0, 0x0B], false, false, 0, 0x44), (Step::Done, Some(0x11), AfterStore::Nothing));
}

#[test]
fn ff_group_on_memory() {
    // inc qword [rbx]
    let mut c = cpu(0x48);
    c.flags |= FLAG_CARRY;
    assert_eq!(c.run_memory(0xFF, &[0x03], false, false, 0, 5), (Step::Done, Some(6), AfterStore::Nothing));
    assert_ne!(c.flags & FLAG_CARRY, 0);
    assert_eq!(c.instruction_pointer, 0x1001);
    // dec dword [rbx]
    assert_eq!(cpu(0).run_memory(0xFF, &[0x0B], false, false, 0, 0), (Step::Done, Some(-1), AfterStore::Nothing));
    // jmp [rbx]
    let mut d = cpu(0);
    assert_eq!(d.run_memory(0xFF, &[0x23], false, false, 0, 0x4000), (Step::Done, None, AfterStore::Nothing));
    assert_eq!(d.instruction_pointer, 0x4000);
    // call and push through memory go through the stack instead
    assert_eq!(d.memory_operand(0xFF, &[0x13], false, false, 0), Err(Step::Outside));
}
