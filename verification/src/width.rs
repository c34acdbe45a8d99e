//! Operand widths: the unsigned and signed readings of a value at 8, 16, 32 or 64 bits.

use vstd::prelude::*;


verus! {

/// The operand sizes an instruction can have, in bits.
pub open spec fn valid_osize(osize: i32) -> bool {
    osize == 8 || osize == 16 || osize == 32 || osize == 64
}

/// 2 to the power of the operand size.
pub open spec fn modulus(osize: i32) -> int {
    if osize == 8 {
        0x100
    } else if osize == 16 {
        0x1_0000
    } else if osize == 32 {
        0x1_0000_0000
    } else {
        0x1_0000_0000_0000_0000
    }
}

/// The low `osize` bits of `v`, read as an unsigned number.
pub open spec fn uext(v: int, osize: i32) -> int {
    v % modulus(osize)
}

/// The low `osize` bits of `v`, read as a two's complement number.
pub open spec fn sext(v: int, osize: i32) -> int {
    let u = uext(v, osize);
    if u >= modulus(osize) / 2 {
        u - modulus(osize)
    } else {
        u
    }
}

/// Adding a multiple of 2^64 changes no reading at any operand size.
pub proof fn lemma_ext_wrap(v: int, k: int, osize: i32)
    requires
        valid_osize(osize),
    ensures
        uext(v + k * 0x1_0000_0000_0000_0000, osize) == uext(v, osize),
        sext(v + k * 0x1_0000_0000_0000_0000, osize) == sext(v, osize),
{
    let m = modulus(osize);
    let q: int = 0x1_0000_0000_0000_0000int / m;
    assert(q * m == 0x1_0000_0000_0000_0000);
    assert(k * 0x1_0000_0000_0000_0000 == (k * q) * m) by (nonlinear_arith)
        requires
            q * m == 0x1_0000_0000_0000_0000,
    ;
    lemma_mod_add_multiples_vanish_k(v, k * q, m);
}

proof fn lemma_mod_add_multiples_vanish_k(v: int, j: int, m: int)
    requires
        m > 0,
    ensures
        (v + j * m) % m == v % m,
{
    vstd::arithmetic::div_mod::lemma_mod_multiples_vanish(j, v, m);
    assert(m * j == j * m) by (nonlinear_arith);
}

/// The casts between the integer types, bit by bit.
pub proof fn lemma_cast_bits(v: i64)
    by (bit_vector)
    ensures
        (v as u64) as int == (if v < 0 {
            v + 0x1_0000_0000_0000_0000
        } else {
            v as int
        }),
        v as i8 as i64 == (if (v as u64) % 0x100 >= 0x80 {
            (v as u64) % 0x100 - 0x100
        } else {
            ((v as u64) % 0x100) as int
        }),
        v as i16 as i64 == (if (v as u64) % 0x10000 >= 0x8000 {
            (v as u64) % 0x10000 - 0x10000
        } else {
            ((v as u64) % 0x10000) as int
        }),
        v as i32 as i64 == (if (v as u64) % 0x1_0000_0000 >= 0x8000_0000 {
            (v as u64) % 0x1_0000_0000 - 0x1_0000_0000
        } else {
            ((v as u64) % 0x1_0000_0000) as int
        }),
        v as int == (if (v as u64) >= 0x8000_0000_0000_0000 {
            (v as u64) - 0x1_0000_0000_0000_0000
        } else {
            (v as u64) as int
        }),
        v as u8 == (v as u64) % 0x100,
        v as u16 == (v as u64) % 0x10000,
        v as u32 == (v as u64) % 0x1_0000_0000,
        v as u8 as u64 == (v as u64) & 0xFF,
        v as u16 as u64 == (v as u64) & 0xFFFF,
        v as u32 as u64 == (v as u64) & 0xFFFF_FFFF,
        v as u64 == (v as u64) & !0u64,
{
}

/// The powers of two and masks the operand widths use.
pub proof fn lemma_width_constants()
    by (bit_vector)
    ensures
        1u64 << 8u32 == 0x100,
        1u64 << 16u32 == 0x1_0000,
        1u64 << 32u32 == 0x1_0000_0000,
        ((1u64 << 8u32) - 1) as u64 == 0xFFu64,
        ((1u64 << 16u32) - 1) as u64 == 0xFFFFu64,
        ((1u64 << 32u32) - 1) as u64 == 0xFFFF_FFFFu64,
        !0u64 == 0xFFFF_FFFF_FFFF_FFFFu64,
        1i128 << 7u32 == 0x80,
        1i128 << 15u32 == 0x8000,
        1i128 << 31u32 == 0x8000_0000,
        1i128 << 63u32 == 0x8000_0000_0000_0000,
        1i128 << 16u32 == 0x1_0000,
        1i128 << 32u32 == 0x1_0000_0000,
        1i128 << 64u32 == 0x1_0000_0000_0000_0000,
{
}

/// How the casts between the integer types read a value.
pub proof fn lemma_cast_widths(v: i64)
    ensures
        v as i8 as i64 == sext(v as int, 8),
        v as i16 as i64 == sext(v as int, 16),
        v as i32 as i64 == sext(v as int, 32),
        v == sext(v as int, 64),
        v as u8 as int == uext(v as int, 8),
        v as u16 as int == uext(v as int, 16),
        v as u32 as int == uext(v as int, 32),
        v as u64 as int == uext(v as int, 64),
{
    lemma_cast_bits(v);
    assert(uext((v as u64) as int, 8) == uext(v as int, 8)
        && uext((v as u64) as int, 16) == uext(v as int, 16)
        && uext((v as u64) as int, 32) == uext(v as int, 32)
        && uext((v as u64) as int, 64) == uext(v as int, 64)) by {
        if v < 0 {
            lemma_ext_wrap(v as int, 1, 8);
            lemma_ext_wrap(v as int, 1, 16);
            lemma_ext_wrap(v as int, 1, 32);
            lemma_ext_wrap(v as int, 1, 64);
        }
    }
    vstd::arithmetic::div_mod::lemma_small_mod((v as u64) as nat, 0x1_0000_0000_0000_0000nat);
}

/// The value `sized` returns, as the casts compute it.
pub open spec fn sized_spec(value: i64, osize: i32) -> i64 {
    if osize == 8 {
        value as i8 as i64
    } else if osize == 16 {
        value as i16 as i64
    } else if osize == 32 {
        value as i32 as i64
    } else {
        value
    }
}

/// Narrow a value to the operand size, sign extended, so the flag computation finds the sign bit
/// where that size puts it. A size other than 8, 16 or 32 leaves the value as it is.
pub fn sized(value: i64, osize: i32) -> (r: i64)
    ensures
        valid_osize(osize) ==> r == sext(value as int, osize),
        !(osize == 8 || osize == 16 || osize == 32) ==> r == value,
        r == sized_spec(value, osize),
{
    proof {
        lemma_cast_widths(value);
    }
    match osize {
        8 => value as i8 as i64,
        16 => value as i16 as i64,
        32 => value as i32 as i64,
        _ => value,
    }
}

/// Narrow a result to its operand width, sign extended, so the flags are read at the right bit.
/// A byte operation narrows to 8 bits whatever `osize` says.
pub fn narrow(value: i64, byte_op: bool, osize: i32) -> (r: i64)
    ensures
        byte_op ==> r == sext(value as int, 8),
        !byte_op && valid_osize(osize) ==> r == sext(value as int, osize),
        !byte_op && !(osize == 8 || osize == 16 || osize == 32) ==> r == value,
{
    if byte_op {
        proof {
            lemma_cast_widths(value);
        }
        value as i8 as i64
    } else {
        sized(value, osize)
    }
}

/// Narrow an address that is still kept in 32 bits. An address of 4 GiB or more has nowhere to go
/// and is refused rather than wrapped.
pub fn truncate_address(addr: i64) -> (r: Result<i32, ()>)
    ensures
        r is Ok <==> 0 <= addr < 0x1_0000_0000,
        r matches Ok(a) ==> a as u32 as int == addr,
{
    proof {
        lemma_high_half(addr);
    }
    if (addr as u64) >> 32 != 0 {
        return Err(());
    }
    Ok(addr as i32)
}

/// An address fits in 32 bits exactly when its upper half is clear.
proof fn lemma_high_half(addr: i64)
    by (bit_vector)
    ensures
        ((addr as u64) >> 32 != 0) == !(0 <= addr < 0x1_0000_0000),
        (addr as u64) >> 32 == 0 ==> addr as i32 as u32 == addr,
{
}

} // verus!
