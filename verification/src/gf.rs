//! Arithmetic in the field GF(2^8) used by AES, with its algebraic laws.
use vstd::prelude::*;

verus! {

/// Multiplication by `x` in GF(2^8) modulo x^8 + x^4 + x^3 + x + 1.
pub open spec fn xtime(a: u8) -> u8 {
    if a & 0x80u8 == 0 {
        (a << 1u8) as u8
    } else {
        ((a << 1u8) ^ 0x1bu8) as u8
    }
}

/// Product in GF(2^8): the sum of `x^i * a` over the bits `i` set in `b`.
pub open spec fn gf_mul(a: u8, b: u8) -> u8 {
    let a1 = xtime(a);
    let a2 = xtime(a1);
    let a3 = xtime(a2);
    let a4 = xtime(a3);
    let a5 = xtime(a4);
    let a6 = xtime(a5);
    let a7 = xtime(a6);
    (if b & 0x01u8 != 0 { a } else { 0u8 })
    ^ (if b & 0x02u8 != 0 { a1 } else { 0u8 })
    ^ (if b & 0x04u8 != 0 { a2 } else { 0u8 })
    ^ (if b & 0x08u8 != 0 { a3 } else { 0u8 })
    ^ (if b & 0x10u8 != 0 { a4 } else { 0u8 })
    ^ (if b & 0x20u8 != 0 { a5 } else { 0u8 })
    ^ (if b & 0x40u8 != 0 { a6 } else { 0u8 })
    ^ (if b & 0x80u8 != 0 { a7 } else { 0u8 })
}

pub open spec fn gf_pow(a: u8, n: nat) -> u8
    decreases n,
{
    if n == 0 {
        1u8
    } else {
        gf_mul(gf_pow(a, (n - 1) as nat), a)
    }
}

spec fn clmul(a: u8, b: u8) -> u16 {
    let w = a as u16;
    (if b & 0x01u8 != 0 { w } else { 0u16 })
    ^ (if b & 0x02u8 != 0 { w << 1u16 } else { 0u16 })
    ^ (if b & 0x04u8 != 0 { w << 2u16 } else { 0u16 })
    ^ (if b & 0x08u8 != 0 { w << 3u16 } else { 0u16 })
    ^ (if b & 0x10u8 != 0 { w << 4u16 } else { 0u16 })
    ^ (if b & 0x20u8 != 0 { w << 5u16 } else { 0u16 })
    ^ (if b & 0x40u8 != 0 { w << 6u16 } else { 0u16 })
    ^ (if b & 0x80u8 != 0 { w << 7u16 } else { 0u16 })
}

spec fn reduce(p: u16) -> u8 {
    (p as u8)
    ^ (if p & 0x0100u16 != 0 { 0x1bu8 } else { 0u8 })
    ^ (if p & 0x0200u16 != 0 { 0x36u8 } else { 0u8 })
    ^ (if p & 0x0400u16 != 0 { 0x6cu8 } else { 0u8 })
    ^ (if p & 0x0800u16 != 0 { 0xd8u8 } else { 0u8 })
    ^ (if p & 0x1000u16 != 0 { 0xabu8 } else { 0u8 })
    ^ (if p & 0x2000u16 != 0 { 0x4du8 } else { 0u8 })
    ^ (if p & 0x4000u16 != 0 { 0x9au8 } else { 0u8 })
}

spec fn gf_mul_lin(a: u8, b: u8) -> u8 {
    reduce(clmul(a, b))
}

proof fn lemma_lin(a: u8, b: u8)
    ensures
        gf_mul(a, b) == gf_mul_lin(a, b),
{
    assert(gf_mul(a, b) == gf_mul_lin(a, b)) by (bit_vector);
}

/// Multiplication in GF(2^8) is commutative.
pub proof fn lemma_gf_mul_commutative(a: u8, b: u8)
    ensures
        gf_mul(a, b) == gf_mul(b, a),
{
    lemma_lin(a, b);
    lemma_lin(b, a);
    assert(gf_mul_lin(a, b) == gf_mul_lin(b, a)) by (bit_vector);
}

/// Zero absorbs and one is neutral.
pub proof fn lemma_gf_mul_zero_one(a: u8)
    ensures
        gf_mul(a, 0) == 0,
        gf_mul(0, a) == 0,
        gf_mul(a, 1) == a,
        gf_mul(1, a) == a,
{
    assert(gf_mul(a, 0) == 0 && gf_mul(0, a) == 0 && gf_mul(a, 1) == a && gf_mul(1, a) == a)
        by (bit_vector);
}

#[verifier::rlimit(50)]
proof fn lemma_xtime_left(a: u8, b: u8)
    ensures
        gf_mul(xtime(a), b) == xtime(gf_mul(a, b)),
{
    lemma_lin(xtime(a), b);
    lemma_lin(a, b);
    assert(gf_mul_lin(xtime(a), b) == xtime(gf_mul_lin(a, b))) by (bit_vector);
}

/// Multiplication distributes over addition (XOR) in GF(2^8).
pub proof fn lemma_gf_mul_distributive(a: u8, b: u8, c: u8)
    ensures
        gf_mul(a, b ^ c) == gf_mul(a, b) ^ gf_mul(a, c),
        gf_mul(b ^ c, a) == gf_mul(b, a) ^ gf_mul(c, a),
{
    lemma_lin(a, b ^ c);
    lemma_lin(a, b);
    lemma_lin(a, c);
    assert(gf_mul_lin(a, b ^ c) == gf_mul_lin(a, b) ^ gf_mul_lin(a, c)) by (bit_vector);
    lemma_gf_mul_commutative(a, b ^ c);
    lemma_gf_mul_commutative(a, b);
    lemma_gf_mul_commutative(a, c);
}

proof fn lemma_swap(a: u8, b: u8, c: u8)
    ensures
        gf_mul(gf_mul(a, b), c) == gf_mul(gf_mul(a, c), b),
{
    let a1 = xtime(a);
    let a2 = xtime(a1);
    let a3 = xtime(a2);
    let a4 = xtime(a3);
    let a5 = xtime(a4);
    let a6 = xtime(a5);
    let a7 = xtime(a6);
    let t0 = if b & 0x01u8 != 0 { a } else { 0u8 };
    let t1 = if b & 0x02u8 != 0 { a1 } else { 0u8 };
    let t2 = if b & 0x04u8 != 0 { a2 } else { 0u8 };
    let t3 = if b & 0x08u8 != 0 { a3 } else { 0u8 };
    let t4 = if b & 0x10u8 != 0 { a4 } else { 0u8 };
    let t5 = if b & 0x20u8 != 0 { a5 } else { 0u8 };
    let t6 = if b & 0x40u8 != 0 { a6 } else { 0u8 };
    let t7 = if b & 0x80u8 != 0 { a7 } else { 0u8 };
    assert(gf_mul(a, b) == t0 ^ t1 ^ t2 ^ t3 ^ t4 ^ t5 ^ t6 ^ t7);
    lemma_gf_mul_distributive(c, t0 ^ t1 ^ t2 ^ t3 ^ t4 ^ t5 ^ t6, t7);
    lemma_gf_mul_distributive(c, t0 ^ t1 ^ t2 ^ t3 ^ t4 ^ t5, t6);
    lemma_gf_mul_distributive(c, t0 ^ t1 ^ t2 ^ t3 ^ t4, t5);
    lemma_gf_mul_distributive(c, t0 ^ t1 ^ t2 ^ t3, t4);
    lemma_gf_mul_distributive(c, t0 ^ t1 ^ t2, t3);
    lemma_gf_mul_distributive(c, t0 ^ t1, t2);
    lemma_gf_mul_distributive(c, t0, t1);
    lemma_gf_mul_zero_one(c);
    lemma_xtime_left(a, c);
    lemma_xtime_left(a1, c);
    lemma_xtime_left(a2, c);
    lemma_xtime_left(a3, c);
    lemma_xtime_left(a4, c);
    lemma_xtime_left(a5, c);
    lemma_xtime_left(a6, c);
}

/// Multiplication in GF(2^8) is associative.
pub proof fn lemma_gf_mul_associative(a: u8, b: u8, c: u8)
    ensures
        gf_mul(gf_mul(a, b), c) == gf_mul(a, gf_mul(b, c)),
{
    lemma_gf_mul_commutative(a, gf_mul(b, c));
    lemma_swap(b, c, a);
    lemma_gf_mul_commutative(b, a);
}

/// Powers add: a^(m+n) = a^m * a^n.
pub proof fn lemma_gf_pow_add(a: u8, m: nat, n: nat)
    ensures
        gf_pow(a, m + n) == gf_mul(gf_pow(a, m), gf_pow(a, n)),
    decreases n,
{
    if n == 0 {
        lemma_gf_mul_zero_one(gf_pow(a, m));
    } else {
        lemma_gf_pow_add(a, m, (n - 1) as nat);
        assert(gf_pow(a, m + n) == gf_mul(gf_pow(a, (m + n - 1) as nat), a));
        lemma_gf_mul_associative(gf_pow(a, m), gf_pow(a, (n - 1) as nat), a);
    }
}

/// Powers multiply: (a^m)^n = a^(m*n).
pub proof fn lemma_gf_pow_mul(a: u8, m: nat, n: nat)
    ensures
        gf_pow(gf_pow(a, m), n) == gf_pow(a, m * n),
    decreases n,
{
    if n == 0 {
        assert(m * n == 0) by (nonlinear_arith) requires n == 0;
    } else {
        lemma_gf_pow_mul(a, m, (n - 1) as nat);
        assert(m * n == m * (n - 1) + m) by (nonlinear_arith) requires n >= 1;
        lemma_gf_pow_add(a, m * ((n - 1) as nat), m);
    }
}

/// Every power of one is one.
pub proof fn lemma_gf_pow_one(n: nat)
    ensures
        gf_pow(1u8, n) == 1u8,
    decreases n,
{
    lemma_gf_mul_zero_one(1u8);
    if n > 0 {
        lemma_gf_pow_one((n - 1) as nat);
    }
}

/// Every positive power of zero is zero.
pub proof fn lemma_gf_pow_zero(n: nat)
    requires
        n >= 1,
    ensures
        gf_pow(0u8, n) == 0u8,
    decreases n,
{
    lemma_gf_mul_zero_one(gf_pow(0u8, (n - 1) as nat));
    if n > 1 {
        lemma_gf_pow_zero((n - 1) as nat);
    }
}

proof fn lemma_fermat_chain(a: u8, s2: u8, s4: u8, s8: u8, s16: u8, s32: u8, s64: u8, s128: u8,
    t2: u8, t3: u8, t4: u8, t5: u8, t6: u8, t7: u8, t8: u8)
    requires
        s2 == gf_mul_lin(a, a),
        s4 == gf_mul_lin(s2, s2),
        s8 == gf_mul_lin(s4, s4),
        s16 == gf_mul_lin(s8, s8),
        s32 == gf_mul_lin(s16, s16),
        s64 == gf_mul_lin(s32, s32),
        s128 == gf_mul_lin(s64, s64),
        t2 == gf_mul_lin(a, s2),
        t3 == gf_mul_lin(t2, s4),
        t4 == gf_mul_lin(t3, s8),
        t5 == gf_mul_lin(t4, s16),
        t6 == gf_mul_lin(t5, s32),
        t7 == gf_mul_lin(t6, s64),
        t8 == gf_mul_lin(t7, s128),
    ensures
        a != 0 ==> t8 == 1,
{
    assert(a != 0 ==> t8 == 1) by (bit_vector)
        requires
            s2 == gf_mul_lin(a, a),
            s4 == gf_mul_lin(s2, s2),
            s8 == gf_mul_lin(s4, s4),
            s16 == gf_mul_lin(s8, s8),
            s32 == gf_mul_lin(s16, s16),
            s64 == gf_mul_lin(s32, s32),
            s128 == gf_mul_lin(s64, s64),
            t2 == gf_mul_lin(a, s2),
            t3 == gf_mul_lin(t2, s4),
            t4 == gf_mul_lin(t3, s8),
            t5 == gf_mul_lin(t4, s16),
            t6 == gf_mul_lin(t5, s32),
            t7 == gf_mul_lin(t6, s64),
            t8 == gf_mul_lin(t7, s128),
    ;
}

proof fn lemma_pow_double(a: u8, k: nat)
    ensures
        gf_pow(a, 2 * k) == gf_mul(gf_pow(a, k), gf_pow(a, k)),
{
    lemma_gf_pow_add(a, k, k);
}

/// Fermat's little theorem in GF(2^8): every nonzero element satisfies a^255 = 1.
pub proof fn lemma_gf_pow_255(a: u8)
    requires
        a != 0,
    ensures
        gf_pow(a, 255) == 1u8,
{
    lemma_gf_mul_zero_one(a);
    assert(gf_pow(a, 0) == 1u8);
    assert(gf_pow(a, 1) == a);
    lemma_pow_double(a, 1);
    lemma_pow_double(a, 2);
    lemma_pow_double(a, 4);
    lemma_pow_double(a, 8);
    lemma_pow_double(a, 16);
    lemma_pow_double(a, 32);
    lemma_pow_double(a, 64);
    lemma_gf_pow_add(a, 1, 2);
    lemma_gf_pow_add(a, 3, 4);
    lemma_gf_pow_add(a, 7, 8);
    lemma_gf_pow_add(a, 15, 16);
    lemma_gf_pow_add(a, 31, 32);
    lemma_gf_pow_add(a, 63, 64);
    lemma_gf_pow_add(a, 127, 128);
    let s2 = gf_pow(a, 2);
    let s4 = gf_pow(a, 4);
    let s8 = gf_pow(a, 8);
    let s16 = gf_pow(a, 16);
    let s32 = gf_pow(a, 32);
    let s64 = gf_pow(a, 64);
    let s128 = gf_pow(a, 128);
    lemma_lin(a, a);
    lemma_lin(s2, s2);
    lemma_lin(s4, s4);
    lemma_lin(s8, s8);
    lemma_lin(s16, s16);
    lemma_lin(s32, s32);
    lemma_lin(s64, s64);
    lemma_lin(a, s2);
    lemma_lin(gf_pow(a, 3), s4);
    lemma_lin(gf_pow(a, 7), s8);
    lemma_lin(gf_pow(a, 15), s16);
    lemma_lin(gf_pow(a, 31), s32);
    lemma_lin(gf_pow(a, 63), s64);
    lemma_lin(gf_pow(a, 127), s128);
    lemma_fermat_chain(a, s2, s4, s8, s16, s32, s64, s128, gf_pow(a, 3), gf_pow(a, 7),
        gf_pow(a, 15), gf_pow(a, 31), gf_pow(a, 63), gf_pow(a, 127), gf_pow(a, 255));
}

/// a^254 is the multiplicative inverse of every nonzero a, and 0^254 = 0.
pub proof fn lemma_gf_inverse(a: u8)
    ensures
        a != 0 ==> gf_mul(a, gf_pow(a, 254)) == 1u8,
        a != 0 ==> gf_mul(gf_pow(a, 254), a) == 1u8,
        a == 0 ==> gf_pow(a, 254) == 0u8,
{
    if a != 0 {
        lemma_gf_pow_255(a);
        assert(gf_pow(a, 255) == gf_mul(gf_pow(a, 254), a));
        lemma_gf_mul_commutative(a, gf_pow(a, 254));
    } else {
        lemma_gf_pow_zero(254);
    }
}

/// Inversion (a -> a^254) is an involution on GF(2^8).
pub proof fn lemma_gf_inverse_involution(a: u8)
    ensures
        gf_pow(gf_pow(a, 254), 254) == a,
{
    lemma_gf_pow_mul(a, 254, 254);
    if a == 0 {
        lemma_gf_pow_zero(254);
        lemma_gf_pow_zero(254 * 254);
    } else {
        lemma_gf_pow_add(a, 255 * 253, 1);
        lemma_gf_pow_mul(a, 255, 253);
        lemma_gf_pow_255(a);
        lemma_gf_pow_one(253);
        lemma_gf_mul_zero_one(a);
        assert(gf_pow(a, 0) == 1u8);
    assert(gf_pow(a, 1) == a);
    }
}

/// A byte has at most one multiplicative inverse.
pub proof fn lemma_gf_inverse_unique(c: u8, y1: u8, y2: u8)
    requires
        gf_mul(c, y1) == 1u8,
        gf_mul(c, y2) == 1u8,
    ensures
        y1 == y2,
{
    lemma_gf_mul_zero_one(y1);
    lemma_gf_mul_zero_one(y2);
    lemma_gf_mul_associative(y1, c, y2);
    lemma_gf_mul_commutative(y1, c);
}

} // verus!
