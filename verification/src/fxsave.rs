//! fxsave and fxrstor in 64-bit mode: the layout of the 512-byte area that holds the fpu, mmx and
//! sse state.
//!
//! rex.w selects the fxsave64 encoding, whose difference is that the fpu instruction and data
//! pointers are kept at full width rather than as an offset and a selector. 32 bits of each are
//! held either way, so both forms store the same. Sixteen xmm registers are saved, not eight.

use vstd::prelude::*;

verus! {

/// The mxcsr bits that can be set; fxrstor refuses an image with any other bit set.
pub const MXCSR_MASK: i32 = 0xFFFF;

/// The size of the save area in bytes.
pub const FX_AREA_SIZE: usize = 512;

/// An 80-bit extended precision value as the fpu stack holds it.
#[derive(Clone, Copy)]
pub struct F80 {
    pub mantissa: u64,
    pub sign_exponent: u16,
}

/// The state fxsave stores and fxrstor loads.
#[derive(Clone, Copy)]
pub struct FpuState {
    pub control_word: u16,
    /// The status word as it reads, with the top of stack in bits 11 to 13.
    pub status_word: u16,
    /// Bit i set when physical register i is empty.
    pub stack_empty: u8,
    pub opcode: i32,
    pub ip: i32,
    pub ip_selector: i32,
    pub dp: i32,
    pub dp_selector: i32,
    pub mxcsr: i32,
    /// The physical fpu registers, indexed without regard to the top of stack.
    pub st: [F80; 8],
    /// The sixteen xmm registers, low half first.
    pub xmm: [[u64; 2]; 16],
}

/// The top of the fpu stack, which the status word carries in bits 11 to 13.
pub open spec fn stack_top(status_word: u16) -> int {
    ((status_word >> 11u16) & 7) as int
}

/// The little endian 16-bit value at `at`.
pub open spec fn le16(a: Seq<u8>, at: int) -> u16 {
    (a[at] as u16) | ((a[at + 1] as u16) << 8u16)
}

/// The little endian 32-bit value at `at`.
pub open spec fn le32(a: Seq<u8>, at: int) -> u32 {
    (a[at] as u32) | ((a[at + 1] as u32) << 8u32) | ((a[at + 2] as u32) << 16u32) | ((a[at
        + 3] as u32) << 24u32)
}

/// The little endian 64-bit value at `at`.
pub open spec fn le64(a: Seq<u8>, at: int) -> u64 {
    (le32(a, at) as u64) | ((le32(a, at + 4) as u64) << 32u64)
}

/// Whether fxsave writes byte `k` of the area. The bytes it does not write are reserved or
/// available and keep whatever was there.
pub open spec fn fx_written(k: int) -> bool {
    ||| 0 <= k < 5
    ||| 6 <= k < 14
    ||| 16 <= k < 22
    ||| 24 <= k < 32
    ||| (32 <= k < 160 && (k - 32) % 16 < 10)
    ||| 160 <= k < 416
}

/// Register slot `i` of the image: the fpu stack in stack order, starting from its top.
pub open spec fn fx_slot(fpu: FpuState, i: int) -> F80 {
    fpu.st@[(stack_top(fpu.status_word) + i) % 8]
}

/// Whether `a` holds the image fxsave makes of `fpu`.
pub open spec fn fx_saved(fpu: FpuState, a: Seq<u8>) -> bool {
    &&& a.len() == FX_AREA_SIZE
    &&& le16(a, 0) == fpu.control_word
    &&& le16(a, 2) == fpu.status_word
    &&& a[4] == !fpu.stack_empty
    &&& le16(a, 6) == fpu.opcode as u16
    &&& le32(a, 8) == fpu.ip as u32
    &&& le16(a, 12) == fpu.ip_selector as u16
    &&& le32(a, 16) == fpu.dp as u32
    &&& le16(a, 20) == fpu.dp_selector as u16
    &&& le32(a, 24) == fpu.mxcsr as u32
    &&& le32(a, 28) == MXCSR_MASK as u32
    &&& forall|i: int|
        0 <= i < 8 ==> #[trigger] le64(a, 32 + 16 * i) == fx_slot(fpu, i).mantissa && le16(
            a,
            40 + 16 * i,
        ) == fx_slot(fpu, i).sign_exponent
    &&& forall|i: int|
        0 <= i < 16 ==> #[trigger] le64(a, 160 + 16 * i) == fpu.xmm@[i][0] && le64(a, 168 + 16 * i)
            == fpu.xmm@[i][1]
}

/// Whether `fpu` holds what fxrstor loads from `a`, given that its mxcsr is acceptable.
pub open spec fn fx_restored(a: Seq<u8>, fpu: FpuState) -> bool {
    &&& fpu.control_word == le16(a, 0)
    &&& fpu.status_word == le16(a, 2)
    &&& fpu.stack_empty == !a[4]
    &&& fpu.opcode == le16(a, 6) as i32
    &&& fpu.ip == le32(a, 8) as i32
    &&& fpu.ip_selector == le16(a, 12) as i32
    &&& fpu.dp == le32(a, 16) as i32
    &&& fpu.dp_selector == le16(a, 20) as i32
    &&& fpu.mxcsr == le32(a, 24) as i32
    &&& forall|i: int|
        0 <= i < 8 ==> #[trigger] fx_slot(fpu, i) == (F80 {
            mantissa: le64(a, 32 + 16 * i),
            sign_exponent: le16(a, 40 + 16 * i),
        })
    &&& forall|i: int|
        0 <= i < 16 ==> #[trigger] fpu.xmm@[i] == [le64(a, 160 + 16 * i), le64(a, 168 + 16 * i)]
}

/// Whether fxrstor accepts the mxcsr image `a` holds.
pub open spec fn fx_mxcsr_ok(a: Seq<u8>) -> bool {
    (le32(a, 24) as i32) & !MXCSR_MASK == 0
}

/// Splitting a value into its bytes, low first, and putting them back together gives the value.
proof fn lemma_split_bytes(v16: u16, v32: u32, v64: u64)
    by (bit_vector)
    ensures
        ((v16 as u8) as u16) | ((((v16 >> 8u16) as u8) as u16) << 8u16) == v16,
        ((v32 as u8) as u32) | ((((v32 >> 8u32) as u8) as u32) << 8u32) | ((((v32 >> 16u32) as u8)
            as u32) << 16u32) | ((((v32 >> 24u32) as u8) as u32) << 24u32) == v32,
        (((v64 as u32) as u64) | ((((v64 >> 32u64) as u32) as u64) << 32u64)) == v64,
{
}

/// The top of stack field is below 8, and counting from it modulo 8 is a mask.
proof fn lemma_stack_index(status_word: u16, top: u16, i: usize)
    by (bit_vector)
    ensures
        (status_word >> 11u16) & 7 < 8,
        i < 8 && top < 8 ==> ((i + top as usize) as usize) & 7 == (i + top) % 8,
        i < 8 && top < 8 ==> ((top as usize + i) as usize) & 7 == (top + i) % 8,
{
}

/// What the save area keeps of the fields it narrows: the tag byte inverted twice, a selector or
/// opcode that fits 16 bits, and any 32-bit field.
proof fn lemma_round_trip_bits(tags: u8, narrow: i32, wide: i32)
    by (bit_vector)
    ensures
        !(!tags) == tags,
        0 <= narrow < 0x10000 ==> narrow as u16 as i32 == narrow,
        wide as u32 as i32 == wide,
{
}

fn write16(area: &mut [u8; 512], at: usize, v: u16)
    requires
        at + 2 <= 512,
    ensures
        le16(final(area)@, at as int) == v,
        forall|k: int| 0 <= k < 512 && !(at <= k < at + 2) ==> final(area)@[k] == old(area)@[k],
{
    area[at] = v as u8;
    area[at + 1] = (v >> 8u16) as u8;
    proof {
        lemma_split_bytes(v, 0, 0);
    }
}

fn write32(area: &mut [u8; 512], at: usize, v: u32)
    requires
        at + 4 <= 512,
    ensures
        le32(final(area)@, at as int) == v,
        forall|k: int| 0 <= k < 512 && !(at <= k < at + 4) ==> final(area)@[k] == old(area)@[k],
{
    area[at] = v as u8;
    area[at + 1] = (v >> 8u32) as u8;
    area[at + 2] = (v >> 16u32) as u8;
    area[at + 3] = (v >> 24u32) as u8;
    proof {
        lemma_split_bytes(0, v, 0);
    }
}

fn write64(area: &mut [u8; 512], at: usize, v: u64)
    requires
        at + 8 <= 512,
    ensures
        le64(final(area)@, at as int) == v,
        forall|k: int| 0 <= k < 512 && !(at <= k < at + 8) ==> final(area)@[k] == old(area)@[k],
{
    write32(area, at, v as u32);
    write32(area, at + 4, (v >> 32u64) as u32);
    let ghost a = area@;
    assert(le32(a, at as int) == v as u32);
    proof {
        lemma_split_bytes(0, 0, v);
    }
}

fn read16(area: &[u8; 512], at: usize) -> (r: u16)
    requires
        at + 2 <= 512,
    ensures
        r == le16(area@, at as int),
{
    (area[at] as u16) | ((area[at + 1] as u16) << 8u16)
}

fn read32(area: &[u8; 512], at: usize) -> (r: u32)
    requires
        at + 4 <= 512,
    ensures
        r == le32(area@, at as int),
{
    (area[at] as u32) | ((area[at + 1] as u32) << 8u32) | ((area[at + 2] as u32) << 16u32) | ((area[at
        + 3] as u32) << 24u32)
}

fn read64(area: &[u8; 512], at: usize) -> (r: u64)
    requires
        at + 8 <= 512,
    ensures
        r == le64(area@, at as int),
{
    (read32(area, at) as u64) | ((read32(area, at + 4) as u64) << 32u64)
}

/// fxsave and fxrstor require a 16-byte aligned area; any other address raises #gp.
pub fn fx_aligned(addr: i64) -> (r: bool)
    ensures
        r == (addr & 0xF == 0),
{
    addr & 0xF == 0
}

/// The fault fxsave or fxrstor raises at an address.
#[derive(Clone, Copy, Debug, PartialEq, Eq, Structural)]
pub enum FxFault {
    /// #gp(0): the address is not 16-byte aligned, or the restored mxcsr sets a reserved bit.
    GeneralProtection,
    /// The 512 bytes at the address cannot be written, or read, in full.
    PageFault,
}

/// fxsave at `addr`, `writable` saying whether all 512 bytes there can be written, which the
/// caller checks before anything is written. A misaligned address raises #gp(0) and one that
/// cannot be written a page fault, and then nothing is written; otherwise `area` holds the image
/// the caller writes at `addr`.
pub fn fxsave_at(fpu: &FpuState, addr: i64, writable: bool, area: &mut [u8; 512]) -> (r: Result<(), FxFault>)
    ensures
        addr & 0xF != 0 ==> r == Err::<(), FxFault>(FxFault::GeneralProtection) && final(area)@ == old(area)@,
        addr & 0xF == 0 && !writable ==> r == Err::<(), FxFault>(FxFault::PageFault) && final(area)@ == old(area)@,
        addr & 0xF == 0 && writable ==> r is Ok && fx_saved(*fpu, final(area)@) && forall|k: int|
            0 <= k < 512 && !fx_written(k) ==> final(area)@[k] == old(area)@[k],
{
    if !fx_aligned(addr) {
        return Err(FxFault::GeneralProtection);
    }
    if !writable {
        return Err(FxFault::PageFault);
    }
    fxsave64(fpu, area);
    Ok(())
}

/// fxrstor at `addr`, `area` the 512 bytes the caller read there in full, or `None` where the
/// read faulted. A misaligned address raises #gp(0), a failed read a page fault, and an image
/// whose mxcsr sets a reserved bit #gp(0); then nothing is restored. Otherwise the state is the
/// image's.
pub fn fxrstor_at(addr: i64, area: Option<&[u8; 512]>, fpu: &mut FpuState) -> (r: Result<(), FxFault>)
    ensures
        addr & 0xF != 0 ==> r == Err::<(), FxFault>(FxFault::GeneralProtection),
        addr & 0xF == 0 && area is None ==> r == Err::<(), FxFault>(FxFault::PageFault),
        addr & 0xF == 0 && area is Some ==> (r is Ok <==> fx_mxcsr_ok(area->0@)) && (r is Err ==> r
            == Err::<(), FxFault>(FxFault::GeneralProtection)),
        r is Ok ==> area is Some && fx_restored(area->0@, *final(fpu)),
        r is Err ==> *final(fpu) == *old(fpu),
{
    if !fx_aligned(addr) {
        return Err(FxFault::GeneralProtection);
    }
    match area {
        None => Err(FxFault::PageFault),
        Some(a) => match fxrstor64(a, fpu) {
            Ok(()) => Ok(()),
            Err(()) => Err(FxFault::GeneralProtection),
        },
    }
}

/// Store the fpu, mmx and sse state into a save area, leaving its reserved bytes alone.
pub fn fxsave64(fpu: &FpuState, area: &mut [u8; 512])
    ensures
        fx_saved(*fpu, final(area)@),
        forall|k: int| 0 <= k < 512 && !fx_written(k) ==> final(area)@[k] == old(area)@[k],
{
    write16(area, 0, fpu.control_word);
    write16(area, 2, fpu.status_word);
    area[4] = !fpu.stack_empty;
    write16(area, 6, fpu.opcode as u16);
    write32(area, 8, fpu.ip as u32);
    write16(area, 12, fpu.ip_selector as u16);
    write32(area, 16, fpu.dp as u32);
    write16(area, 20, fpu.dp_selector as u16);
    write32(area, 24, fpu.mxcsr as u32);
    write32(area, 28, MXCSR_MASK as u32);
    let ghost header = area@;

    let sw = fpu.status_word;
    let top = (sw >> 11u16) & 7;
    proof {
        lemma_stack_index(sw, 0, 0);
    }
    let mut i: usize = 0;
    while i < 8
        invariant
            i <= 8,
            top < 8,
            top == stack_top(fpu.status_word),
            forall|k: int| 0 <= k < 32 ==> area@[k] == header[k],
            forall|k: int| 0 <= k < 512 && !fx_written(k) ==> area@[k] == old(area)@[k],
            forall|j: int|
                0 <= j < i ==> #[trigger] le64(area@, 32 + 16 * j) == fx_slot(*fpu, j).mantissa
                    && le16(area@, 40 + 16 * j) == fx_slot(*fpu, j).sign_exponent,
        decreases 8 - i,
    {
        let reg = (i + top as usize) & 7;
        proof {
            lemma_stack_index(sw, top, i);
        }
        let f = fpu.st[reg];
        let ghost before = area@;
        write64(area, 32 + i * 16, f.mantissa);
        write16(area, 32 + i * 16 + 8, f.sign_exponent);
        proof {
            assert forall|j: int| 0 <= j < i + 1 implies #[trigger] le64(area@, 32 + 16 * j)
                == fx_slot(*fpu, j).mantissa && le16(area@, 40 + 16 * j) == fx_slot(
                *fpu,
                j,
            ).sign_exponent by {
                if j < i {
                    assert(le64(area@, 32 + 16 * j) == le64(before, 32 + 16 * j));
                    assert(le16(area@, 40 + 16 * j) == le16(before, 40 + 16 * j));
                }
            }
        }
        i = i + 1;
    }
    let ghost with_stack = area@;

    let mut i: usize = 0;
    while i < 16
        invariant
            i <= 16,
            forall|k: int| 0 <= k < 160 ==> area@[k] == with_stack[k],
            forall|k: int| 0 <= k < 512 && !fx_written(k) ==> area@[k] == old(area)@[k],
            forall|j: int|
                0 <= j < i ==> #[trigger] le64(area@, 160 + 16 * j) == fpu.xmm@[j][0] && le64(
                    area@,
                    168 + 16 * j,
                ) == fpu.xmm@[j][1],
        decreases 16 - i,
    {
        let x = fpu.xmm[i];
        let ghost before = area@;
        write64(area, 160 + i * 16, x[0]);
        write64(area, 160 + i * 16 + 8, x[1]);
        proof {
            assert forall|j: int| 0 <= j < i + 1 implies #[trigger] le64(area@, 160 + 16 * j)
                == fpu.xmm@[j][0] && le64(area@, 168 + 16 * j) == fpu.xmm@[j][1] by {
                if j < i {
                    assert(le64(area@, 160 + 16 * j) == le64(before, 160 + 16 * j));
                    assert(le64(area@, 168 + 16 * j) == le64(before, 168 + 16 * j));
                }
            }
        }
        i = i + 1;
    }
    proof {
        let a = area@;
        assert(a[4] == header[4]);
        assert(header[4] == !fpu.stack_empty);
        assert(le16(a, 0) == le16(header, 0));
        assert(le16(a, 2) == le16(header, 2));
        assert(le16(a, 6) == le16(header, 6));
        assert(le32(a, 8) == le32(header, 8));
        assert(le16(a, 12) == le16(header, 12));
        assert(le32(a, 16) == le32(header, 16));
        assert(le16(a, 20) == le16(header, 20));
        assert(le32(a, 24) == le32(header, 24));
        assert(le32(a, 28) == le32(header, 28));
        assert forall|j: int| 0 <= j < 8 implies #[trigger] le64(a, 32 + 16 * j) == fx_slot(
            *fpu,
            j,
        ).mantissa && le16(a, 40 + 16 * j) == fx_slot(*fpu, j).sign_exponent by {
            assert(le64(a, 32 + 16 * j) == le64(with_stack, 32 + 16 * j));
            assert(le16(a, 40 + 16 * j) == le16(with_stack, 40 + 16 * j));
        }
    }
}

/// Load the fpu, mmx and sse state from a save area. The whole area is read before any of it is
/// applied, and an image with a reserved mxcsr bit set is refused with nothing changed.
pub fn fxrstor64(area: &[u8; 512], fpu: &mut FpuState) -> (r: Result<(), ()>)
    ensures
        r is Ok <==> fx_mxcsr_ok(area@),
        r is Ok ==> fx_restored(area@, *final(fpu)),
        r is Err ==> *final(fpu) == *old(fpu),
{
    let new_mxcsr = read32(area, 24) as i32;
    if 0 != new_mxcsr & !MXCSR_MASK {
        return Err(());
    }

    fpu.control_word = read16(area, 0);
    fpu.status_word = read16(area, 2);
    fpu.stack_empty = !area[4];
    fpu.opcode = read16(area, 6) as i32;
    fpu.ip = read32(area, 8) as i32;
    fpu.ip_selector = read16(area, 12) as i32;
    fpu.dp = read32(area, 16) as i32;
    fpu.dp_selector = read16(area, 20) as i32;
    fpu.mxcsr = new_mxcsr;

    let sw = fpu.status_word;
    let top = (sw >> 11u16) & 7;
    proof {
        lemma_stack_index(sw, 0, 0);
    }
    let ghost header = *fpu;
    let mut i: usize = 0;
    while i < 8
        invariant
            i <= 8,
            top < 8,
            top == stack_top(fpu.status_word),
            fpu.control_word == header.control_word,
            fpu.status_word == header.status_word,
            fpu.stack_empty == header.stack_empty,
            fpu.opcode == header.opcode,
            fpu.ip == header.ip,
            fpu.ip_selector == header.ip_selector,
            fpu.dp == header.dp,
            fpu.dp_selector == header.dp_selector,
            fpu.mxcsr == header.mxcsr,
            fpu.status_word == le16(area@, 2),
            forall|j: int|
                0 <= j < i ==> #[trigger] fpu.st@[(top + j) % 8] == (F80 {
                    mantissa: le64(area@, 32 + 16 * j),
                    sign_exponent: le16(area@, 40 + 16 * j),
                }),
        decreases 8 - i,
    {
        let reg = (top as usize + i) & 7;
        proof {
            lemma_stack_index(sw, top, i);
        }
        let at = 32 + i * 16;
        let value = F80 { mantissa: read64(area, at), sign_exponent: read16(area, at + 8) };
        fpu.st[reg] = value;
        proof {
            assert forall|j: int| 0 <= j < i + 1 implies #[trigger] fpu.st@[(top + j) % 8] == (F80 {
                mantissa: le64(area@, 32 + 16 * j),
                sign_exponent: le16(area@, 40 + 16 * j),
            }) by {
                if j < i {
                    assert((top + j) % 8 != (top + i) % 8);
                }
            }
        }
        i = i + 1;
    }

    let ghost with_stack = *fpu;
    let mut i: usize = 0;
    while i < 16
        invariant
            i <= 16,
            fpu.control_word == header.control_word,
            fpu.status_word == header.status_word,
            fpu.stack_empty == header.stack_empty,
            fpu.opcode == header.opcode,
            fpu.ip == header.ip,
            fpu.ip_selector == header.ip_selector,
            fpu.dp == header.dp,
            fpu.dp_selector == header.dp_selector,
            fpu.mxcsr == header.mxcsr,
            fpu.st == with_stack.st,
            forall|j: int|
                0 <= j < i ==> #[trigger] fpu.xmm@[j] == [le64(area@, 160 + 16 * j), le64(
                    area@,
                    168 + 16 * j,
                )],
        decreases 16 - i,
    {
        let at = 160 + i * 16;
        fpu.xmm[i] = [read64(area, at), read64(area, at + 8)];
        i = i + 1;
    }
    assert(fpu.control_word == le16(area@, 0));
    assert(fpu.stack_empty == !area@[4]);
    assert(fpu.mxcsr == le32(area@, 24) as i32);
    assert(forall|i: int| 0 <= i < 8 ==> #[trigger] fx_slot(*fpu, i) == (F80 {
            mantissa: le64(area@, 32 + 16 * i),
            sign_exponent: le16(area@, 40 + 16 * i),
        }));
    Ok(())
}

/// What a restore gives back of a save: fxrstor of an area fxsave filled restores the state that
/// was saved, whenever that state's mxcsr has no reserved bit set and its opcode and selectors fit
/// the 16 bits the area keeps of them.
pub proof fn lemma_fx_round_trip(saved: FpuState, a: Seq<u8>, restored: FpuState)
    requires
        fx_saved(saved, a),
        fx_restored(a, restored),
        saved.mxcsr & !MXCSR_MASK == 0,
        0 <= saved.opcode < 0x10000,
        0 <= saved.ip_selector < 0x10000,
        0 <= saved.dp_selector < 0x10000,
    ensures
        fx_mxcsr_ok(a),
        restored == saved,
{
    lemma_round_trip_bits(saved.stack_empty, saved.opcode, saved.ip);
    lemma_round_trip_bits(saved.stack_empty, saved.ip_selector, saved.dp);
    lemma_round_trip_bits(saved.stack_empty, saved.dp_selector, saved.mxcsr);
    let top = stack_top(saved.status_word);
    lemma_stack_index(saved.status_word, 0, 0);
    assert(restored.st@ =~= saved.st@) by {
        assert forall|r: int| 0 <= r < 8 implies restored.st@[r] == saved.st@[r] by {
            let i = (r - top + 8) % 8;
            assert((top + i) % 8 == r);
            assert(fx_slot(restored, i) == fx_slot(saved, i));
        }
    }
    assert(restored.xmm@ =~= saved.xmm@) by {
        assert forall|i: int| 0 <= i < 16 implies restored.xmm@[i] == saved.xmm@[i] by {
            assert(le64(a, 160 + 16 * i) == saved.xmm@[i][0]);
            assert(restored.xmm@[i]@ =~= saved.xmm@[i]@);
        }
    }
    assert(restored.st == saved.st);
    assert(restored.xmm == saved.xmm);
}

/// ldmxcsr: loads mxcsr with `value`, the 32 bits read at its operand, raising #gp(0) and
/// changing nothing when it sets a bit outside `MXCSR_MASK`.
pub fn ldmxcsr(fpu: &mut FpuState, value: i32) -> (r: Result<(), FxFault>)
    ensures
        value & !MXCSR_MASK != 0 ==> r == Err::<(), FxFault>(FxFault::GeneralProtection) && *final(fpu) == *old(fpu),
        value & !MXCSR_MASK == 0 ==> r is Ok && *final(fpu) == (FpuState { mxcsr: value, ..*old(fpu) }),
{
    if 0 != value & !MXCSR_MASK {
        return Err(FxFault::GeneralProtection);
    }
    fpu.mxcsr = value;
    Ok(())
}

} // verus!
