//! The arithmetic flags of the flags register, and the parity of a result's low byte.

use vstd::prelude::*;
use vstd::arithmetic::power2::{pow2, lemma_pow2_unfold, lemma2_to64, lemma2_to64_rest};

verus! {

pub const FLAG_CARRY: i32 = 1;
pub const FLAG_PARITY: i32 = 4;
pub const FLAG_ADJUST: i32 = 16;
pub const FLAG_ZERO: i32 = 64;
pub const FLAG_SIGN: i32 = 128;
pub const FLAG_TRAP: i32 = 256;
pub const FLAG_INTERRUPT: i32 = 512;
pub const FLAG_DIRECTION: i32 = 1024;
pub const FLAG_OVERFLOW: i32 = 2048;
pub const FLAG_RF: i32 = 0x1_0000;
pub const FLAG_VM: i32 = 0x2_0000;

/// The six arithmetic flags: carry, parity, adjust, zero, sign and overflow.
pub const FLAGS_ALL: i32 = 0x8D5;

/// Bit 1 of the flags register, which always reads as set.
pub const FLAGS_DEFAULT: i32 = 2;

/// Whether flag `f` is set in the flags word.
pub open spec fn has_flag(flags: i32, f: i32) -> bool {
    flags & f != 0
}

/// The bit `f` when `b` holds, and nothing otherwise.
pub open spec fn flag_bit(b: bool, f: i32) -> i32 {
    if b {
        f
    } else {
        0
    }
}

/// `old` with its six arithmetic flags replaced, every other bit kept.
pub open spec fn with_arith_flags(
    old: i32,
    cf: bool,
    pf: bool,
    af: bool,
    zf: bool,
    sf: bool,
    of: bool,
) -> i32 {
    old & !FLAGS_ALL | flag_bit(cf, FLAG_CARRY) | flag_bit(pf, FLAG_PARITY) | flag_bit(af, FLAG_ADJUST)
        | flag_bit(zf, FLAG_ZERO) | flag_bit(sf, FLAG_SIGN) | flag_bit(of, FLAG_OVERFLOW)
}

/// `old` with only the carry and overflow flags replaced.
pub open spec fn with_carry_overflow(old: i32, cf: bool, of: bool) -> i32 {
    old & !FLAG_CARRY & !FLAG_OVERFLOW | flag_bit(cf, FLAG_CARRY) | flag_bit(of, FLAG_OVERFLOW)
}

/// `old` with only the carry flag replaced.
pub open spec fn with_carry(old: i32, cf: bool) -> i32 {
    old & !FLAG_CARRY | flag_bit(cf, FLAG_CARRY)
}

/// The flags word after `with_arith_flags` reads back each flag as given and keeps every other bit.
pub proof fn lemma_with_arith_flags(
    old: i32,
    cf: bool,
    pf: bool,
    af: bool,
    zf: bool,
    sf: bool,
    of: bool,
)
    ensures
        has_flag(with_arith_flags(old, cf, pf, af, zf, sf, of), FLAG_CARRY) == cf,
        has_flag(with_arith_flags(old, cf, pf, af, zf, sf, of), FLAG_PARITY) == pf,
        has_flag(with_arith_flags(old, cf, pf, af, zf, sf, of), FLAG_ADJUST) == af,
        has_flag(with_arith_flags(old, cf, pf, af, zf, sf, of), FLAG_ZERO) == zf,
        has_flag(with_arith_flags(old, cf, pf, af, zf, sf, of), FLAG_SIGN) == sf,
        has_flag(with_arith_flags(old, cf, pf, af, zf, sf, of), FLAG_OVERFLOW) == of,
        with_arith_flags(old, cf, pf, af, zf, sf, of) & !FLAGS_ALL == old & !FLAGS_ALL,
{
    let c = flag_bit(cf, FLAG_CARRY);
    let p = flag_bit(pf, FLAG_PARITY);
    let a = flag_bit(af, FLAG_ADJUST);
    let z = flag_bit(zf, FLAG_ZERO);
    let s = flag_bit(sf, FLAG_SIGN);
    let o = flag_bit(of, FLAG_OVERFLOW);
    let w = with_arith_flags(old, cf, pf, af, zf, sf, of);
    assert(w == old & !0x8D5i32 | c | p | a | z | s | o);
    assert((c == 0 || c == 1) && (p == 0 || p == 4) && (a == 0 || a == 16) && (z == 0 || z == 64)
        && (s == 0 || s == 128) && (o == 0 || o == 2048));
    assert(w == old & !0x8D5i32 | c | p | a | z | s | o ==> {
        &&& (w & 1 != 0) == (c == 1)
        &&& (w & 4 != 0) == (p == 4)
        &&& (w & 16 != 0) == (a == 16)
        &&& (w & 64 != 0) == (z == 64)
        &&& (w & 128 != 0) == (s == 128)
        &&& (w & 2048 != 0) == (o == 2048)
        &&& w & !0x8D5i32 == old & !0x8D5i32
    }) by (bit_vector)
        requires
            (c == 0 || c == 1) && (p == 0 || p == 4) && (a == 0 || a == 16) && (z == 0 || z == 64)
                && (s == 0 || s == 128) && (o == 0 || o == 2048),
    ;
}

/// The flags word after `with_carry_overflow` reads back carry and overflow as given and keeps
/// every other bit.
pub proof fn lemma_with_carry_overflow(old: i32, cf: bool, of: bool)
    ensures
        has_flag(with_carry_overflow(old, cf, of), FLAG_CARRY) == cf,
        has_flag(with_carry_overflow(old, cf, of), FLAG_OVERFLOW) == of,
        with_carry_overflow(old, cf, of) & !FLAG_CARRY & !FLAG_OVERFLOW == old & !FLAG_CARRY
            & !FLAG_OVERFLOW,
{
    let c = flag_bit(cf, FLAG_CARRY);
    let o = flag_bit(of, FLAG_OVERFLOW);
    let w = with_carry_overflow(old, cf, of);
    assert(w == old & !1i32 & !2048i32 | c | o);
    assert(w == old & !1i32 & !2048i32 | c | o ==> {
        &&& (w & 1 != 0) == (c == 1)
        &&& (w & 2048 != 0) == (o == 2048)
        &&& w & !1i32 & !2048i32 == old & !1i32 & !2048i32
    }) by (bit_vector)
        requires
            (c == 0 || c == 1) && (o == 0 || o == 2048),
    ;
}

/// The flags word after `with_carry` reads back carry as given and keeps every other bit.
pub proof fn lemma_with_carry(old: i32, cf: bool)
    ensures
        has_flag(with_carry(old, cf), FLAG_CARRY) == cf,
        with_carry(old, cf) & !FLAG_CARRY == old & !FLAG_CARRY,
{
    let c = flag_bit(cf, FLAG_CARRY);
    let w = with_carry(old, cf);
    assert(w == old & !1i32 | c);
    assert(w == old & !1i32 | c ==> (w & 1 != 0) == (c == 1) && w & !1i32 == old & !1i32)
        by (bit_vector)
        requires
            c == 0 || c == 1,
    ;
}

/// The number of set bits of a natural number.
pub open spec fn popcount(x: nat) -> nat
    decreases x,
{
    if x == 0 {
        0
    } else {
        (x % 2) + popcount(x / 2)
    }
}

/// The number of set bits of a 64-bit value.
pub fn popcount_u64(value: u64) -> (r: u32)
    ensures
        r == popcount(value as nat),
        r <= 64,
{
    let mut x: u64 = value;
    let mut count: u32 = 0;
    let mut steps: u32 = 0;
    proof {
        lemma2_to64_rest();
    }
    while x != 0
        invariant
            count + popcount(x as nat) == popcount(value as nat),
            count <= steps,
            steps <= 64,
            x < pow2((64 - steps) as nat),
        decreases x,
    {
        assert(x & 1 == x % 2 && x >> 1 == x / 2) by (bit_vector);
        proof {
            lemma_halving_bound((64 - steps) as nat, x);
        }
        count = count + (x & 1) as u32;
        x = x >> 1;
        steps = steps + 1;
    }
    count
}

proof fn lemma_halving_bound(n: nat, x: u64)
    requires
        x < pow2(n),
        x != 0,
    ensures
        n >= 1,
        x / 2 < pow2((n - 1) as nat),
{
    if n == 0 {
        lemma2_to64();
    } else {
        lemma_pow2_unfold(n);
    }
}

/// Whether the low byte of `result` has an even number of set bits, which is what the parity
/// flag reports.
pub open spec fn even_parity(result: i64) -> bool {
    popcount(unsigned_of_byte(result)) % 2 == 0
}

pub open spec fn unsigned_of_byte(result: i64) -> nat {
    ((result as u64) % 0x100) as nat
}

/// The parity flag of a result: set when its low byte has an even number of set bits.
pub fn parity_even(result: i64) -> (r: bool)
    ensures
        r == even_parity(result),
{
    let low = (result as u64) & 0xFF;
    assert((result as u64) & 0xFF == (result as u64) % 0x100) by (bit_vector);
    popcount_u64(low) % 2 == 0
}

} // verus!
