//! Arithmetic in GF(2^8) with the AES reduction polynomial
//! x^8 + x^4 + x^3 + x + 1 (0x11b): field addition (XOR), doubling
//! (`xtime`), and full field multiplication.
use vstd::prelude::*;

verus! {

/// Field addition in GF(2^8): bitwise XOR.
pub open spec fn gf_add(a: u8, b: u8) -> u8 {
    a ^ b
}

/// Multiplication by the field element x (i.e. by 2): shift left one bit and,
/// if the vacated high bit was set, reduce by the low byte of the field
/// polynomial (0x1b).
pub open spec fn xtime_spec(a: u8) -> u8 {
    if a & 0x80 != 0 {
        (a << 1) ^ 0x1b
    } else {
        a << 1
    }
}

/// Full field multiplication: the XOR of the `xtime`-iterated copies of `a`
/// selected by the set bits of `b` (repeated-doubling construction).
pub open spec fn gf_mul(a: u8, b: u8) -> u8 {
    let x1 = a;
    let x2 = xtime_spec(x1);
    let x4 = xtime_spec(x2);
    let x8 = xtime_spec(x4);
    let x16 = xtime_spec(x8);
    let x32 = xtime_spec(x16);
    let x64 = xtime_spec(x32);
    let x128 = xtime_spec(x64);
    (if b & 0x01 != 0 { x1 } else { 0 }) ^ (if b & 0x02 != 0 { x2 } else { 0 })
        ^ (if b & 0x04 != 0 { x4 } else { 0 }) ^ (if b & 0x08 != 0 { x8 } else { 0 })
        ^ (if b & 0x10 != 0 { x16 } else { 0 }) ^ (if b & 0x20 != 0 { x32 } else { 0 })
        ^ (if b & 0x40 != 0 { x64 } else { 0 }) ^ (if b & 0x80 != 0 { x128 } else { 0 })
}

/// Field addition, used throughout the cipher.
pub fn FiniteAdd(a: u8, b: u8) -> (r: u8)
    ensures
        r == gf_add(a, b),
{
    a ^ b
}

/// Multiplication by x in GF(2^8), the doubling step of field multiplication.
pub fn xtime(a: u8) -> (r: u8)
    ensures
        r == xtime_spec(a),
{
    if a & 0x80 != 0 {
        (a << 1u8) ^ 0x1b
    } else {
        a << 1u8
    }
}

/// Field multiplication in GF(2^8), by repeated doubling of `a` along the
/// set bits of `b`.
pub fn FiniteMult(a: u8, b: u8) -> (r: u8)
    ensures
        r == gf_mul(a, b),
{
    let x1 = a;
    let x2 = xtime(x1);
    let x4 = xtime(x2);
    let x8 = xtime(x4);
    let x16 = xtime(x8);
    let x32 = xtime(x16);
    let x64 = xtime(x32);
    let x128 = xtime(x64);
    (if b & 0x01 != 0 { x1 } else { 0 }) ^ (if b & 0x02 != 0 { x2 } else { 0 })
        ^ (if b & 0x04 != 0 { x4 } else { 0 }) ^ (if b & 0x08 != 0 { x8 } else { 0 })
        ^ (if b & 0x10 != 0 { x16 } else { 0 }) ^ (if b & 0x20 != 0 { x32 } else { 0 })
        ^ (if b & 0x40 != 0 { x64 } else { 0 }) ^ (if b & 0x80 != 0 { x128 } else { 0 })
}

/// Law: field multiplication is commutative.
#[verifier::rlimit(100)]
pub proof fn lemma_multiply_commutes(a: u8, b: u8)
    by (bit_vector)
    ensures
        gf_mul(a, b) == gf_mul(b, a),
{
}

/// Law: 1 is the multiplicative identity and 0 annihilates.
pub proof fn lemma_multiply_identity(a: u8)
    by (bit_vector)
    ensures
        gf_mul(a, 1) == a,
        gf_mul(a, 0) == 0,
{
}

/// A branch-free form of `xtime_spec`: the reduction byte 0x1b is taken in
/// exactly when the high bit of `a` is set, by replicating that bit onto the
/// positions 4, 3, 1 and 0.
pub open spec fn xtime_lin(a: u8) -> u8 {
    (a << 1) ^ (((a >> 7) << 4) | ((a >> 7) << 3) | ((a >> 7) << 1) | (a >> 7))
}

/// The branch-free doubling agrees with `xtime_spec` on every byte.
pub proof fn lemma_xtime_lin(a: u8)
    by (bit_vector)
    ensures
        xtime_lin(a) == xtime_spec(a),
{
}

/// Multiplication by each constant of the two column-mix matrices reduces to
/// a short chain of doublings: the constant's set bits select `xtime`
/// iterates of `a`.
pub proof fn lemma_gf_mul_small_constants(a: u8)
    by (bit_vector)
    ensures
        gf_mul(a, 1) == a,
        gf_mul(a, 2) == xtime_spec(a),
        gf_mul(a, 3) == xtime_spec(a) ^ a,
        gf_mul(a, 0x09) == xtime_spec(xtime_spec(xtime_spec(a))) ^ a,
        gf_mul(a, 0x0b) == xtime_spec(xtime_spec(xtime_spec(a))) ^ xtime_spec(a) ^ a,
        gf_mul(a, 0x0d) == xtime_spec(xtime_spec(xtime_spec(a))) ^ xtime_spec(xtime_spec(a)) ^ a,
        gf_mul(a, 0x0e) == xtime_spec(xtime_spec(xtime_spec(a))) ^ xtime_spec(xtime_spec(a))
            ^ xtime_spec(a),
{
}

/// Law: field multiplication distributes over field addition.
pub proof fn lemma_multiply_distributes(a: u8, b: u8, c: u8)
    by (bit_vector)
    ensures
        gf_mul(a, gf_add(b, c)) == gf_add(gf_mul(a, b), gf_mul(a, c)),
{
}

} // verus!
