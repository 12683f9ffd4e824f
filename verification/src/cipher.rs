//! The forward cipher: the SubBytes, ShiftRows and MixColumns state
//! transforms and the ten-round pipeline that encrypts one 16-byte block
//! under an expanded 44-word key schedule.
use crate::common::add_round_key_spec;
use crate::common::round_key_spec;
use crate::common::AddRoundKey;
use crate::helpers::clone_block;
use crate::helpers::CopyToState;
use crate::helpers::MakeBytes;
use crate::helpers::ToOutput;
use crate::math::gf_mul;
use crate::math::FiniteMult;
use crate::sbox::s_box;
use crate::sbox::sub_byte;
use vstd::prelude::*;

verus! {

/// The state after SubBytes: the S-box applied to every byte independently.
pub open spec fn sub_bytes_spec(s: Seq<u8>) -> Seq<u8> {
    Seq::new(16, |i: int| s_box(s[i]))
}

/// The state after ShiftRows: row `r` (0-indexed) cyclically rotated left by
/// `r` positions. In the flat column-major layout, the byte at row `i % 4`,
/// column `i / 4` comes from the same row of column `(i / 4 + i % 4) % 4`.
pub open spec fn shift_rows_spec(s: Seq<u8>) -> Seq<u8> {
    Seq::new(16, |i: int| s[(i % 4) + 4 * ((i / 4 + i % 4) % 4)])
}

/// Row 0 of the forward column mix: 2, 3, 1, 1 against the column bytes.
pub open spec fn mix0(a0: u8, a1: u8, a2: u8, a3: u8) -> u8 {
    gf_mul(a0, 2) ^ gf_mul(a1, 3) ^ gf_mul(a2, 1) ^ gf_mul(a3, 1)
}

/// Row 1 of the forward column mix: 1, 2, 3, 1 against the column bytes.
pub open spec fn mix1(a0: u8, a1: u8, a2: u8, a3: u8) -> u8 {
    gf_mul(a0, 1) ^ gf_mul(a1, 2) ^ gf_mul(a2, 3) ^ gf_mul(a3, 1)
}

/// Row 2 of the forward column mix: 1, 1, 2, 3 against the column bytes.
pub open spec fn mix2(a0: u8, a1: u8, a2: u8, a3: u8) -> u8 {
    gf_mul(a0, 1) ^ gf_mul(a1, 1) ^ gf_mul(a2, 2) ^ gf_mul(a3, 3)
}

/// Row 3 of the forward column mix: 3, 1, 1, 2 against the column bytes.
pub open spec fn mix3(a0: u8, a1: u8, a2: u8, a3: u8) -> u8 {
    gf_mul(a0, 3) ^ gf_mul(a1, 1) ^ gf_mul(a2, 1) ^ gf_mul(a3, 2)
}

/// The state after MixColumns: each column, read as a 4-vector over GF(2^8),
/// multiplied by the fixed forward matrix.
pub open spec fn mix_columns_spec(s: Seq<u8>) -> Seq<u8> {
    Seq::new(
        16,
        |i: int|
            {
                let c = 4 * (i / 4);
                let a0 = s[c];
                let a1 = s[c + 1];
                let a2 = s[c + 2];
                let a3 = s[c + 3];
                if i % 4 == 0 {
                    mix0(a0, a1, a2, a3)
                } else if i % 4 == 1 {
                    mix1(a0, a1, a2, a3)
                } else if i % 4 == 2 {
                    mix2(a0, a1, a2, a3)
                } else {
                    mix3(a0, a1, a2, a3)
                }
            },
    )
}

/// The state after the initial AddRoundKey and the full middle rounds
/// 1 through `r` (SubBytes, ShiftRows, MixColumns, AddRoundKey each).
pub open spec fn enc_to_spec(s: Seq<u8>, w: Seq<u32>, r: int) -> Seq<u8>
    decreases r,
{
    if r <= 0 {
        add_round_key_spec(s, round_key_spec(w, 0))
    } else {
        add_round_key_spec(
            mix_columns_spec(shift_rows_spec(sub_bytes_spec(enc_to_spec(s, w, r - 1)))),
            round_key_spec(w, r),
        )
    }
}

/// One 16-byte block encrypted under a 44-word schedule: the initial
/// AddRoundKey, nine full middle rounds, and the final round without
/// MixColumns.
pub open spec fn cipher_spec(s: Seq<u8>, w: Seq<u32>) -> Seq<u8> {
    add_round_key_spec(
        shift_rows_spec(sub_bytes_spec(enc_to_spec(s, w, 9))),
        round_key_spec(w, 10),
    )
}

/// Transformation in the cipher that processes the state using the
/// non-linear byte substitution table, operating on each byte independently.
pub fn SubBytes(state: &mut Vec<u8>)
    requires
        old(state)@.len() == 16,
    ensures
        final(state)@ == sub_bytes_spec(old(state)@),
{
    let mut i: usize = 0;
    while i < 16
        invariant
            i <= 16,
            state@.len() == 16,
            forall|j: int| 0 <= j < i ==> state@[j] == s_box(old(state)@[j]),
            forall|j: int| i <= j < 16 ==> state@[j] == old(state)@[j],
        decreases 16 - i,
    {
        let v = sub_byte(state[i]);
        state[i] = v;
        i = i + 1;
    }
    assert(state@ =~= sub_bytes_spec(old(state)@));
}

/// Transformation in the cipher that cyclically shifts the last three rows
/// of the state left by their row index.
pub fn ShiftRows(state: &mut Vec<u8>)
    requires
        old(state)@.len() == 16,
    ensures
        final(state)@ == shift_rows_spec(old(state)@),
{
    let mut out: Vec<u8> = Vec::new();
    let mut i: usize = 0;
    while i < 16
        invariant
            i <= 16,
            state@ == old(state)@,
            state@.len() == 16,
            out@.len() == i,
            forall|j: int| 0 <= j < i ==> out@[j] == shift_rows_spec(old(state)@)[j],
        decreases 16 - i,
    {
        out.push(state[(i % 4) + 4 * (((i / 4) + (i % 4)) % 4)]);
        i = i + 1;
    }
    *state = out;
    assert(state@ =~= shift_rows_spec(old(state)@));
}

/// Transformation in the cipher that takes all of the columns of the state
/// and mixes their data, independently of each other, through the fixed
/// forward matrix over GF(2^8).
#[verifier::rlimit(100)]
pub fn MixColumns(state: &mut Vec<u8>)
    requires
        old(state)@.len() == 16,
    ensures
        final(state)@ == mix_columns_spec(old(state)@),
{
    let mut col: usize = 0;
    while col < 4
        invariant
            col <= 4,
            state@.len() == 16,
            forall|j: int| 0 <= j < 4 * col ==> state@[j] == mix_columns_spec(old(state)@)[j],
            forall|j: int| 4 * col <= j < 16 ==> state@[j] == old(state)@[j],
        decreases 4 - col,
    {
        let a0 = state[4 * col];
        let a1 = state[4 * col + 1];
        let a2 = state[4 * col + 2];
        let a3 = state[4 * col + 3];
        let m0 = FiniteMult(a0, 2) ^ FiniteMult(a1, 3) ^ FiniteMult(a2, 1) ^ FiniteMult(a3, 1);
        let m1 = FiniteMult(a0, 1) ^ FiniteMult(a1, 2) ^ FiniteMult(a2, 3) ^ FiniteMult(a3, 1);
        let m2 = FiniteMult(a0, 1) ^ FiniteMult(a1, 1) ^ FiniteMult(a2, 2) ^ FiniteMult(a3, 3);
        let m3 = FiniteMult(a0, 3) ^ FiniteMult(a1, 1) ^ FiniteMult(a2, 1) ^ FiniteMult(a3, 2);
        state[4 * col] = m0;
        state[4 * col + 1] = m1;
        state[4 * col + 2] = m2;
        state[4 * col + 3] = m3;
        col = col + 1;
    }
    assert(state@ =~= mix_columns_spec(old(state)@));
}

/// Extracts the 16 bytes of round key `round` from the expanded schedule,
/// column-major like the state.
pub fn round_key(w: &Vec<u32>, round: usize) -> (rk: Vec<u8>)
    requires
        w@.len() == 44,
        round <= 10,
    ensures
        rk@ == round_key_spec(w@, round as int),
{
    let mut rk: Vec<u8> = Vec::new();
    let mut c: usize = 0;
    while c < 4
        invariant
            c <= 4,
            w@.len() == 44,
            round <= 10,
            rk@.len() == 4 * c,
            forall|j: int| 0 <= j < 4 * c ==> rk@[j] == round_key_spec(w@, round as int)[j],
        decreases 4 - c,
    {
        let bytes = MakeBytes(w[4 * round + c]);
        rk.push(bytes[0]);
        rk.push(bytes[1]);
        rk.push(bytes[2]);
        rk.push(bytes[3]);
        c = c + 1;
    }
    assert(rk@ =~= round_key_spec(w@, round as int));
    rk
}

/// Encrypts one 16-byte block under the 44-word expanded schedule `w`:
/// AddRoundKey with round key 0, then rounds 1 through 9 of SubBytes,
/// ShiftRows, MixColumns and AddRoundKey, then the final round 10 in which
/// MixColumns is omitted.
pub fn Cipher(input: &Vec<u8>, w: &Vec<u32>) -> (out: Vec<u8>)
    requires
        input@.len() == 16,
        w@.len() == 44,
    ensures
        out@ == cipher_spec(input@, w@),
{
    let mut state = CopyToState(clone_block(input));
    AddRoundKey(&mut state, round_key(w, 0));
    let mut round: usize = 1;
    while round < 10
        invariant
            1 <= round <= 10,
            input@.len() == 16,
            w@.len() == 44,
            state@ == enc_to_spec(input@, w@, round as int - 1),
        decreases 10 - round,
    {
        SubBytes(&mut state);
        ShiftRows(&mut state);
        MixColumns(&mut state);
        AddRoundKey(&mut state, round_key(w, round));
        proof {
            assert(state@ == enc_to_spec(input@, w@, round as int));
        }
        round = round + 1;
    }
    SubBytes(&mut state);
    ShiftRows(&mut state);
    AddRoundKey(&mut state, round_key(w, 10));
    ToOutput(state)
}

} // verus!
