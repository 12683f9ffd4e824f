//! Conversions between bytes, 4-byte words and the 16-byte state buffer, and
//! the fixed table of round constants used by the key schedule.
//!
//! The state is a 4x4 byte matrix held in a flat 16-byte buffer in
//! column-major order: the entry at row `r`, column `c` sits at index
//! `r + 4 * c`, so byte `i` of a block maps to row `i % 4`, column `i / 4`.
use crate::math::xtime;
use crate::math::xtime_spec;
use vstd::prelude::*;

verus! {

/// The 4-byte word with `a` as its most significant byte, then `b`, `c`, `d`.
pub open spec fn make_word_spec(a: u8, b: u8, c: u8, d: u8) -> u32 {
    ((a as u32) << 24) | ((b as u32) << 16) | ((c as u32) << 8) | (d as u32)
}

/// The most significant byte of a word.
pub open spec fn byte0(x: u32) -> u8 {
    ((x >> 24) & 0xff) as u8
}

/// The second most significant byte of a word.
pub open spec fn byte1(x: u32) -> u8 {
    ((x >> 16) & 0xff) as u8
}

/// The third most significant byte of a word.
pub open spec fn byte2(x: u32) -> u8 {
    ((x >> 8) & 0xff) as u8
}

/// The least significant byte of a word.
pub open spec fn byte3(x: u32) -> u8 {
    (x & 0xff) as u8
}

/// Byte `k` of a word, counted from the most significant byte.
pub open spec fn word_byte(x: u32, k: int) -> u8 {
    if k == 0 {
        byte0(x)
    } else if k == 1 {
        byte1(x)
    } else if k == 2 {
        byte2(x)
    } else {
        byte3(x)
    }
}

/// The round constant for round `r` (1-based): repeated field doubling
/// starting from 1.
pub open spec fn rcon_spec(r: int) -> u8
    decreases r,
{
    if r <= 1 {
        1
    } else {
        xtime_spec(rcon_spec(r - 1))
    }
}

/// Splitting a word back into bytes returns exactly the bytes it was made of.
pub proof fn lemma_word_bytes(a: u8, b: u8, c: u8, d: u8)
    by (bit_vector)
    ensures
        byte0(make_word_spec(a, b, c, d)) == a,
        byte1(make_word_spec(a, b, c, d)) == b,
        byte2(make_word_spec(a, b, c, d)) == c,
        byte3(make_word_spec(a, b, c, d)) == d,
{
}

/// Converts 4 bytes into a 32-bit word, most significant byte first.
pub fn MakeWord(a: u8, b: u8, c: u8, d: u8) -> (o: u32)
    ensures
        o == make_word_spec(a, b, c, d),
{
    ((a as u32) << 24u32) | ((b as u32) << 16u32) | ((c as u32) << 8u32) | (d as u32)
}

/// Converts a 32-bit word to its 4 bytes, most significant byte first.
pub fn MakeBytes(a: u32) -> (o: [u8; 4])
    ensures
        o@.len() == 4,
        o@[0] == byte0(a),
        o@[1] == byte1(a),
        o@[2] == byte2(a),
        o@[3] == byte3(a),
{
    [
        ((a >> 24u32) & 0xff) as u8,
        ((a >> 16u32) & 0xff) as u8,
        ((a >> 8u32) & 0xff) as u8,
        (a & 0xff) as u8,
    ]
}

/// Places a 16-byte input block in the state buffer. With the column-major
/// flat layout (`row + 4 * col`), byte `i` of the block is already the state
/// entry at row `i % 4`, column `i / 4`, so the buffer is carried over as is.
pub fn CopyToState(input: Vec<u8>) -> (state: Vec<u8>)
    requires
        input@.len() == 16,
    ensures
        state@ == input@,
{
    input
}

/// Serializes the state back into a 16-byte output block, the inverse of
/// `CopyToState` under the same column-major layout.
pub fn ToOutput(state: Vec<u8>) -> (out: Vec<u8>)
    requires
        state@.len() == 16,
    ensures
        out@ == state@,
{
    state
}

/// Returns a fresh copy of a 16-byte block, so that a caller holding only a
/// reference can hand an owned state buffer to the round pipeline.
pub fn clone_block(input: &Vec<u8>) -> (out: Vec<u8>)
    requires
        input@.len() == 16,
    ensures
        out@ == input@,
{
    let mut out: Vec<u8> = Vec::new();
    let mut i: usize = 0;
    while i < 16
        invariant
            i <= 16,
            input@.len() == 16,
            out@ == input@.take(i as int),
        decreases 16 - i,
    {
        out.push(input[i]);
        i = i + 1;
    }
    assert(out@ =~= input@);
    out
}

/// Creates the table of the 10 round constants for rounds 1 through 10,
/// each the result of repeated field doubling starting from 1.
pub fn GenerateRoundConstant() -> (rcon: Vec<u8>)
    ensures
        rcon@.len() == 10,
        forall|r: int| 1 <= r <= 10 ==> rcon@[r - 1] == rcon_spec(r),
{
    let mut rcon: Vec<u8> = Vec::new();
    let mut c: u8 = 1;
    let mut i: usize = 0;
    while i < 10
        invariant
            i <= 10,
            rcon@.len() == i,
            c == rcon_spec(i as int + 1),
            forall|r: int| 1 <= r <= i ==> rcon@[r - 1] == rcon_spec(r),
        decreases 10 - i,
    {
        rcon.push(c);
        c = xtime(c);
        i = i + 1;
    }
    rcon
}

} // verus!
