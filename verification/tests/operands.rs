use v86::cpu::Cpu;
use v86::flags::{parity_even, popcount_u64, FLAG_ZERO};
use v86::fxsave::{fx_aligned, fxrstor64, fxsave64, FpuState, F80};
use v86::modrm::{read_imm32s, resolve_address, rex_bit};
use v86::segments::{
    busy_access_byte, load_ldt_64, load_tr_64, switch_seg_64_code, Descriptor, SegmentFault,
    TableLoad,
};
use v86::sse::sse_66_source_op;
use v86::strings::StringAccess;
use v86::width::{narrow, sized, truncate_address};

fn cpu(rex: u8) -> Cpu {
    Cpu { reg: [0; 16], flags: 2, instruction_pointer: 0x1000, rex }
}

#[test]
fn sized_sign_extends_from_the_width() {
    assert_eq!(sized(0x1FF, 8), -1);
    assert_eq!(sized(0x80, 8), -128);
    assert_eq!(sized(0x7FFF, 16), 0x7FFF);
    assert_eq!(sized(0x1_0000_0000, 32), 0);
    assert_eq!(sized(0xFFFF_FFFF, 32), -1);
    assert_eq!(sized(-5, 64), -5);
}

#[test]
fn narrow_prefers_the_byte() {
    assert_eq!(narrow(0x1FF, true, 32), -1);
    assert_eq!(narrow(0x1FF, false, 16), 0x1FF);
    assert_eq!(narrow(0x8000, false, 16), -0x8000);
}

#[test]
fn truncate_address_refuses_four_gib() {
    assert_eq!(truncate_address(0xFFFF_FFFF), Ok(-1));
    assert_eq!(truncate_address(0x1234), Ok(0x1234));
    assert_eq!(truncate_address(0x1_0000_0000), Err(()));
    assert_eq!(truncate_address(-1), Err(()));
}

#[test]
fn popcount_and_parity() {
    assert_eq!(popcount_u64(0), 0);
    assert_eq!(popcount_u64(u64::MAX), 64);
    assert_eq!(popcount_u64(0xF0F0), 8);
    assert!(parity_even(0));
    assert!(parity_even(0x3));
    assert!(!parity_even(0x1));
    // only the low byte counts
    assert!(parity_even(0x100));
}

#[test]
fn modrm_addresses() {
    let mut regs = [0i64; 16];
    regs[0] = 0x1000;
    regs[1] = 3;
    regs[9] = 5;
    // [rax + rcx*4]
    assert_eq!(resolve_address(0, &regs, 0x500, 0x04, &[0x88], 0), Ok((0x100C, 1)));
    // rex.x turns the index into r9
    assert_eq!(resolve_address(2, &regs, 0x500, 0x04, &[0x88], 0), Ok((0x1014, 1)));
    // rip relative counts past the displacement and the immediate that follows
    assert_eq!(resolve_address(0, &regs, 0x500, 0x05, &[0x10, 0, 0, 0], 2), Ok((0x516, 4)));
    // [rcx - 1]
    assert_eq!(resolve_address(0, &regs, 0x500, 0x41, &[0xFF], 0), Ok((2, 1)));
    // the displacement runs past the end
    assert_eq!(resolve_address(0, &regs, 0x500, 0x81, &[0, 0], 0), Err(()));
    assert_eq!(read_imm32s(&[0xFF, 0xFF, 0xFF, 0xFF], 0), -1);
    assert_eq!(rex_bit(0x44, 4), 8);
    assert_eq!(rex_bit(0x44, 1), 0);
}

#[test]
fn modrm_fields_take_the_rex_extension() {
    let c = cpu(0x45);
    assert_eq!(c.modrm_reg(0xC8), 9);
    assert_eq!(c.modrm_rm(0xC8), 8);
    let mut d = cpu(0);
    d.reg[3] = 0x40;
    assert_eq!(d.resolve_modrm64_imm(0x1_0000, 0x03, &[], 0), Ok((0x1_0040, 0)));
    assert_eq!(d.resolve_modrm64_address_imm(0x03, &[], 0), Ok((0x40, 0)));
}

#[test]
fn sse_source_table() {
    assert_eq!(sse_66_source_op(0x58), Some(0x58));
    assert_eq!(sse_66_source_op(0xEF), Some(0xEF));
    assert_eq!(sse_66_source_op(0x6E), None);
    assert_eq!(sse_66_source_op(0x7F), None);
}

fn fpu() -> FpuState {
    let mut xmm = [[0u64; 2]; 16];
    for (i, x) in xmm.iter_mut().enumerate() {
        *x = [i as u64 * 3 + 1, u64::MAX - i as u64];
    }
    let mut st = [F80 { mantissa: 0, sign_exponent: 0 }; 8];
    for (i, s) in st.iter_mut().enumerate() {
        *s = F80 { mantissa: 0x8000_0000_0000_0000 | i as u64, sign_exponent: 0x3FFF + i as u16 };
    }
    FpuState {
        control_word: 0x37F,
        status_word: 0x3800,
        stack_empty: 0b1111_0000,
        opcode: 0x1DD,
        ip: 0x1234,
        ip_selector: 0x10,
        dp: 0x5678,
        dp_selector: 0x18,
        mxcsr: 0x1F80,
        st,
        xmm,
    }
}

#[test]
fn fxsave_then_fxrstor_gives_the_state_back() {
    let saved = fpu();
    let mut area = [0xAAu8; 512];
    fxsave64(&saved, &mut area);
    assert_eq!(&area[24..28], &[0x80, 0x1F, 0, 0]);
    // reserved bytes are left alone
    assert_eq!(area[511], 0xAA);
    let mut restored = FpuState {
        control_word: 0,
        status_word: 0,
        stack_empty: 0xFF,
        opcode: 0,
        ip: 0,
        ip_selector: 0,
        dp: 0,
        dp_selector: 0,
        mxcsr: 0,
        st: [F80 { mantissa: 0, sign_exponent: 0 }; 8],
        xmm: [[0; 2]; 16],
    };
    assert_eq!(fxrstor64(&area, &mut restored), Ok(()));
    assert_eq!(restored.control_word, saved.control_word);
    assert_eq!(restored.status_word, saved.status_word);
    assert_eq!(restored.stack_empty, saved.stack_empty);
    assert_eq!(restored.opcode, saved.opcode);
    assert_eq!(restored.ip, saved.ip);
    assert_eq!(restored.dp, saved.dp);
    assert_eq!(restored.mxcsr, saved.mxcsr);
    assert_eq!(restored.xmm, saved.xmm);
    for i in 0..8 {
        assert_eq!(restored.st[i].mantissa, saved.st[i].mantissa);
        assert_eq!(restored.st[i].sign_exponent, saved.st[i].sign_exponent);
    }
}

#[test]
fn fxrstor_refuses_reserved_mxcsr_bits() {
    let mut area = [0u8; 512];
    fxsave64(&fpu(), &mut area);
    area[26] = 1;
    let mut target = fpu();
    target.mxcsr = 0x1234;
    assert_eq!(fxrstor64(&area, &mut target), Err(()));
    assert_eq!(target.mxcsr, 0x1234);
    assert!(fx_aligned(0x1000));
    assert!(!fx_aligned(0x1008));
}

#[test]
fn string_move_runs_rcx_times() {
    let mut c = cpu(0);
    c.reg[1] = 3;
    c.reg[6] = 0x100;
    c.reg[7] = 0x200;
    let mut stores = Vec::new();
    while let Some(access) = c.string_next(0xA4, 32, true, 0x10) {
        assert_eq!(access.width, 8);
        assert_eq!(access.compare, None);
        let source = access.source.unwrap();
        stores.push((access.store.unwrap(), c.string_store_value(0xA4, source)));
        if !c.string_element(0xA4, 32, true, false, source, 0) {
            break;
        }
    }
    assert_eq!(stores, vec![(0x200, 0x110), (0x201, 0x111), (0x202, 0x112)]);
    assert_eq!(c.reg[1], 0);
    assert_eq!(c.reg[6], 0x103);
    assert_eq!(c.reg[7], 0x203);
}

#[test]
fn string_store_backwards_under_the_direction_flag() {
    let mut c = cpu(0x48);
    c.flags |= 1 << 10;
    c.reg[0] = 0x55;
    c.reg[7] = 0x1000;
    let access = c.string_next(0xAB, 64, false, 0).unwrap();
    assert_eq!(
        access,
        StringAccess { width: 64, source: None, compare: None, store: Some(0x1000) }
    );
    assert_eq!(c.string_store_value(0xAB, 0), 0x55);
    assert!(!c.string_element(0xAB, 64, false, false, 0, 0));
    assert_eq!(c.reg[7], 0x1000 - 8);
}

#[test]
fn repne_scas_stops_at_the_match() {
    let memory = [1u8, 2, 3, 0, 5];
    let mut c = cpu(0);
    c.reg[0] = 0;
    c.reg[1] = 100;
    c.reg[7] = 0;
    let mut steps = 0;
    while let Some(access) = c.string_next(0xAE, 32, true, 0) {
        let at = access.compare.unwrap() as usize;
        steps += 1;
        if !c.string_element(0xAE, 32, true, false, 0, memory[at] as i64) {
            break;
        }
    }
    assert_eq!(steps, 4);
    assert_ne!(c.flags & FLAG_ZERO, 0);
    assert_eq!(c.reg[7], 4);
    assert_eq!(c.reg[1], 96);
}

#[test]
fn rep_with_zero_count_does_nothing() {
    let c = cpu(0);
    assert_eq!(c.string_next(0xA4, 32, true, 0), None);
    assert!(c.string_next(0xA4, 32, false, 0).is_some());
}

#[test]
fn lods_and_compare() {
    let mut c = cpu(0);
    c.reg[6] = 0x40;
    let access = c.string_next(0xAD, 32, false, 0).unwrap();
    assert_eq!(access.source, Some(0x40));
    assert!(!c.string_element(0xAD, 32, false, false, 0x1234_5678, 0));
    assert_eq!(c.reg[0], 0x1234_5678);
    assert_eq!(c.reg[6], 0x44);
    let mut d = cpu(0);
    assert!(!d.string_element(0xA6, 32, false, false, 7, 7));
    assert_ne!(d.flags & FLAG_ZERO, 0);
    assert_eq!(d.reg[6], 1);
    assert_eq!(d.reg[7], 1);
}

#[test]
fn compare_exchange_of_a_pair() {
    let mut c = cpu(0x48);
    c.reg[0] = 1;
    c.reg[2] = 2;
    c.reg[3] = 30;
    c.reg[1] = 40;
    assert_eq!(c.compare_exchange_pair(64, 1, 2), Some((30, 40)));
    assert_ne!(c.flags & FLAG_ZERO, 0);
    assert_eq!(c.compare_exchange_pair(64, 5, 6), None);
    assert_eq!(c.flags & FLAG_ZERO, 0);
    assert_eq!((c.reg[0], c.reg[2]), (5, 6));

    let mut d = cpu(0);
    d.reg[0] = 0x7_0000_0001;
    d.reg[2] = 0x9_0000_0002;
    assert!(d.compare_exchange_pair(32, 1, 2).is_some());
    assert_eq!(d.compare_exchange_pair(32, 3, 4), None);
    assert_eq!((d.reg[0], d.reg[2]), (3, 4));
}

fn descriptor(system: bool, system_type: u8, present: bool, base: i64) -> Descriptor {
    Descriptor {
        system,
        system_type,
        present,
        executable: false,
        long: false,
        is_32: false,
        base,
        effective_limit: 0x67,
        access_byte: 0x80 | system_type,
    }
}

#[test]
fn ldt_loads() {
    assert_eq!(load_ldt_64(0, true, None), TableLoad::Load { selector: 0, base: 0, limit: 0 });
    assert_eq!(
        load_ldt_64(0x2B, false, None),
        TableLoad::Fault(SegmentFault::GeneralProtection(0x28))
    );
    assert_eq!(
        load_ldt_64(0x28, false, Some(descriptor(true, 9, true, 0))),
        TableLoad::Fault(SegmentFault::GeneralProtection(0x28))
    );
    assert_eq!(
        load_ldt_64(0x28, false, Some(descriptor(true, 2, false, 0))),
        TableLoad::Fault(SegmentFault::NotPresent(0x28))
    );
    assert_eq!(
        load_ldt_64(0x28, false, Some(descriptor(true, 2, true, 0x1_0000_0000))),
        TableLoad::Refused
    );
    assert_eq!(
        load_ldt_64(0x28, false, Some(descriptor(true, 2, true, 0xFFFF_0000))),
        TableLoad::Load { selector: 0x28, base: 0xFFFF_0000u32 as i32, limit: 0x67 }
    );
}

#[test]
fn tr_loads() {
    assert_eq!(
        load_tr_64(0x40, Some(descriptor(true, 9, true, 0x5000))),
        TableLoad::Load { selector: 0x40, base: 0x5000, limit: 0x67 }
    );
    assert_eq!(
        load_tr_64(0x40, Some(descriptor(false, 9, true, 0x5000))),
        TableLoad::Fault(SegmentFault::GeneralProtection(0x40))
    );
    assert_eq!(busy_access_byte(0x89), 0x8B);
}

#[test]
fn far_return_code_segments() {
    let mut code = descriptor(false, 0, true, 0x1000);
    code.executable = true;
    code.long = true;
    let loaded = switch_seg_64_code(0x33, Some(code), 3).unwrap();
    assert_eq!(loaded.selector, 0x33);
    assert_eq!(loaded.base, 0);
    assert_eq!(loaded.limit, 0xFFFF_FFFF);
    assert!(loaded.is_64);
    assert!(!loaded.is_32);

    code.long = false;
    code.is_32 = true;
    let compat = switch_seg_64_code(0x23, Some(code), 0).unwrap();
    assert_eq!(compat.selector, 0x20);
    assert_eq!(compat.base, 0x1000);
    assert_eq!(compat.limit, 0x67);
    assert!(compat.is_32);

    code.present = false;
    assert_eq!(switch_seg_64_code(0x23, Some(code), 0), Err(SegmentFault::NotPresent(0x20)));
    code.present = true;
    code.executable = false;
    assert_eq!(
        switch_seg_64_code(0x23, Some(code), 0),
        Err(SegmentFault::GeneralProtection(0x20))
    );
    assert_eq!(switch_seg_64_code(0x23, None, 0), Err(SegmentFault::GeneralProtection(0x20)));
}
