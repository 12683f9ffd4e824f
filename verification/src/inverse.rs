//! The inverse cipher: the InvSubBytes, InvShiftRows and InvMixColumns
//! transforms, the ten-round decryption pipeline, and the proofs that
//! decryption undoes encryption.
use crate::cipher::cipher_spec;
use crate::cipher::enc_to_spec;
use crate::cipher::mix0;
use crate::cipher::mix1;
use crate::cipher::mix2;
use crate::cipher::mix3;
use crate::cipher::mix_columns_spec;
use crate::cipher::round_key;
use crate::cipher::shift_rows_spec;
use crate::cipher::sub_bytes_spec;
use crate::common::add_round_key_spec;
use crate::common::lemma_add_round_key_inverse;
use crate::common::round_key_spec;
use crate::common::schedule_spec;
use crate::common::AddRoundKey;
use crate::helpers::clone_block;
use crate::helpers::CopyToState;
use crate::helpers::ToOutput;
use crate::math::gf_mul;
use crate::math::lemma_gf_mul_small_constants;
use crate::math::lemma_xtime_lin;
use crate::math::xtime_lin;
use crate::math::xtime_spec;
use crate::math::FiniteMult;
use crate::sbox::inv_s_box;
use crate::sbox::inv_sub_byte;
use crate::sbox::lemma_sbox_round_trip;
use vstd::prelude::*;

verus! {

/// The state after InvSubBytes: the inverse S-box applied to every byte.
pub open spec fn inv_sub_bytes_spec(s: Seq<u8>) -> Seq<u8> {
    Seq::new(16, |i: int| inv_s_box(s[i]))
}

/// The state after InvShiftRows: row `r` cyclically rotated right by `r`
/// positions, undoing ShiftRows.
pub open spec fn inv_shift_rows_spec(s: Seq<u8>) -> Seq<u8> {
    Seq::new(16, |i: int| s[(i % 4) + 4 * ((i / 4 + 4 - i % 4) % 4)])
}

/// Row 0 of the inverse column mix: 0e, 0b, 0d, 09 against the column bytes.
pub open spec fn imix0(a0: u8, a1: u8, a2: u8, a3: u8) -> u8 {
    gf_mul(a0, 0x0e) ^ gf_mul(a1, 0x0b) ^ gf_mul(a2, 0x0d) ^ gf_mul(a3, 0x09)
}

/// Row 1 of the inverse column mix: 09, 0e, 0b, 0d against the column bytes.
pub open spec fn imix1(a0: u8, a1: u8, a2: u8, a3: u8) -> u8 {
    gf_mul(a0, 0x09) ^ gf_mul(a1, 0x0e) ^ gf_mul(a2, 0x0b) ^ gf_mul(a3, 0x0d)
}

/// Row 2 of the inverse column mix: 0d, 09, 0e, 0b against the column bytes.
pub open spec fn imix2(a0: u8, a1: u8, a2: u8, a3: u8) -> u8 {
    gf_mul(a0, 0x0d) ^ gf_mul(a1, 0x09) ^ gf_mul(a2, 0x0e) ^ gf_mul(a3, 0x0b)
}

/// Row 3 of the inverse column mix: 0b, 0d, 09, 0e against the column bytes.
pub open spec fn imix3(a0: u8, a1: u8, a2: u8, a3: u8) -> u8 {
    gf_mul(a0, 0x0b) ^ gf_mul(a1, 0x0d) ^ gf_mul(a2, 0x09) ^ gf_mul(a3, 0x0e)
}

/// The state after InvMixColumns: each column multiplied by the inverse of
/// the forward matrix over GF(2^8).
pub open spec fn inv_mix_columns_spec(s: Seq<u8>) -> Seq<u8> {
    Seq::new(
        16,
        |i: int|
            {
                let c = 4 * (i / 4);
                let a0 = s[c];
                let a1 = s[c + 1];
                let a2 = s[c + 2];
                let a3 = s[c + 3];
                if i % 4 == 0 {
                    imix0(a0, a1, a2, a3)
                } else if i % 4 == 1 {
                    imix1(a0, a1, a2, a3)
                } else if i % 4 == 2 {
                    imix2(a0, a1, a2, a3)
                } else {
                    imix3(a0, a1, a2, a3)
                }
            },
    )
}

/// The decryption state once every round down to round `r` has been undone:
/// for `r == 10` the initial AddRoundKey, InvShiftRows and InvSubBytes; for
/// lower `r` additionally each round's AddRoundKey, InvMixColumns,
/// InvShiftRows and InvSubBytes.
pub open spec fn inv_rounds_spec(s: Seq<u8>, w: Seq<u32>, r: int) -> Seq<u8>
    decreases 10 - r,
{
    if r >= 10 {
        inv_sub_bytes_spec(inv_shift_rows_spec(add_round_key_spec(s, round_key_spec(w, 10))))
    } else {
        inv_sub_bytes_spec(
            inv_shift_rows_spec(
                inv_mix_columns_spec(
                    add_round_key_spec(inv_rounds_spec(s, w, r + 1), round_key_spec(w, r)),
                ),
            ),
        )
    }
}

/// One 16-byte block decrypted under a 44-word schedule: the mirror of
/// `cipher_spec`, ending with the round-0 AddRoundKey.
pub open spec fn inv_cipher_spec(s: Seq<u8>, w: Seq<u32>) -> Seq<u8> {
    add_round_key_spec(inv_rounds_spec(s, w, 1), round_key_spec(w, 0))
}

/// Transformation in the inverse cipher that is the inverse of SubBytes:
/// the inverse S-box applied to each byte of the state independently.
pub fn InvSubBytes(state: &mut Vec<u8>)
    requires
        old(state)@.len() == 16,
    ensures
        final(state)@ == inv_sub_bytes_spec(old(state)@),
{
    let mut i: usize = 0;
    while i < 16
        invariant
            i <= 16,
            state@.len() == 16,
            forall|j: int| 0 <= j < i ==> state@[j] == inv_s_box(old(state)@[j]),
            forall|j: int| i <= j < 16 ==> state@[j] == old(state)@[j],
        decreases 16 - i,
    {
        let v = inv_sub_byte(state[i]);
        state[i] = v;
        i = i + 1;
    }
    assert(state@ =~= inv_sub_bytes_spec(old(state)@));
}

/// Transformation in the inverse cipher that is the inverse of ShiftRows:
/// cyclically shifts row `r` of the state right by `r` positions.
pub fn InvShiftRows(state: &mut Vec<u8>)
    requires
        old(state)@.len() == 16,
    ensures
        final(state)@ == inv_shift_rows_spec(old(state)@),
{
    let mut out: Vec<u8> = Vec::new();
    let mut i: usize = 0;
    while i < 16
        invariant
            i <= 16,
            state@ == old(state)@,
            state@.len() == 16,
            out@.len() == i,
            forall|j: int| 0 <= j < i ==> out@[j] == inv_shift_rows_spec(old(state)@)[j],
        decreases 16 - i,
    {
        out.push(state[(i % 4) + 4 * (((i / 4) + 4 - (i % 4)) % 4)]);
        i = i + 1;
    }
    *state = out;
    assert(state@ =~= inv_shift_rows_spec(old(state)@));
}

/// Transformation in the inverse cipher that is the inverse of MixColumns:
/// each column multiplied by the inverse matrix over GF(2^8).
#[verifier::rlimit(100)]
pub fn InvMixColumns(state: &mut Vec<u8>)
    requires
        old(state)@.len() == 16,
    ensures
        final(state)@ == inv_mix_columns_spec(old(state)@),
{
    let mut col: usize = 0;
    while col < 4
        invariant
            col <= 4,
            state@.len() == 16,
            forall|j: int| 0 <= j < 4 * col ==> state@[j] == inv_mix_columns_spec(old(state)@)[j],
            forall|j: int| 4 * col <= j < 16 ==> state@[j] == old(state)@[j],
        decreases 4 - col,
    {
        let a0 = state[4 * col];
        let a1 = state[4 * col + 1];
        let a2 = state[4 * col + 2];
        let a3 = state[4 * col + 3];
        let m0 = FiniteMult(a0, 0x0e) ^ FiniteMult(a1, 0x0b) ^ FiniteMult(a2, 0x0d) ^ FiniteMult(
            a3,
            0x09,
        );
        let m1 = FiniteMult(a0, 0x09) ^ FiniteMult(a1, 0x0e) ^ FiniteMult(a2, 0x0b) ^ FiniteMult(
            a3,
            0x0d,
        );
        let m2 = FiniteMult(a0, 0x0d) ^ FiniteMult(a1, 0x09) ^ FiniteMult(a2, 0x0e) ^ FiniteMult(
            a3,
            0x0b,
        );
        let m3 = FiniteMult(a0, 0x0b) ^ FiniteMult(a1, 0x0d) ^ FiniteMult(a2, 0x09) ^ FiniteMult(
            a3,
            0x0e,
        );
        state[4 * col] = m0;
        state[4 * col + 1] = m1;
        state[4 * col + 2] = m2;
        state[4 * col + 3] = m3;
        col = col + 1;
    }
    assert(state@ =~= inv_mix_columns_spec(old(state)@));
}

/// Decrypts one 16-byte block under the 44-word expanded schedule `w`, the
/// mirror of `Cipher`: AddRoundKey with round key 10 and the inverse row and
/// byte substitutions, then rounds 9 down to 1 of AddRoundKey,
/// InvMixColumns, InvShiftRows and InvSubBytes, then AddRoundKey with round
/// key 0.
pub fn InvCipher(input: &Vec<u8>, w: &Vec<u32>) -> (out: Vec<u8>)
    requires
        input@.len() == 16,
        w@.len() == 44,
    ensures
        out@ == inv_cipher_spec(input@, w@),
{
    let mut state = CopyToState(clone_block(input));
    AddRoundKey(&mut state, round_key(w, 10));
    InvShiftRows(&mut state);
    InvSubBytes(&mut state);
    let mut round: usize = 9;
    while round >= 1
        invariant
            round <= 9,
            input@.len() == 16,
            w@.len() == 44,
            state@ == inv_rounds_spec(input@, w@, round as int + 1),
        decreases round,
    {
        AddRoundKey(&mut state, round_key(w, round));
        InvMixColumns(&mut state);
        InvShiftRows(&mut state);
        InvSubBytes(&mut state);
        proof {
            assert(state@ == inv_rounds_spec(input@, w@, round as int));
        }
        round = round - 1;
    }
    AddRoundKey(&mut state, round_key(w, 0));
    ToOutput(state)
}

/// Law: InvSubBytes undoes SubBytes on every 4x4 state.
pub proof fn lemma_sub_bytes_inverse(s: Seq<u8>)
    requires
        s.len() == 16,
    ensures
        inv_sub_bytes_spec(sub_bytes_spec(s)) == s,
{
    assert forall|i: int| 0 <= i < 16 implies inv_sub_bytes_spec(sub_bytes_spec(s))[i] == s[i] by {
        lemma_sbox_round_trip(s[i]);
    };
    assert(inv_sub_bytes_spec(sub_bytes_spec(s)) =~= s);
}

/// Law: InvShiftRows undoes ShiftRows on every 4x4 state.
pub proof fn lemma_shift_rows_inverse(s: Seq<u8>)
    requires
        s.len() == 16,
    ensures
        inv_shift_rows_spec(shift_rows_spec(s)) == s,
{
    assert forall|i: int| 0 <= i < 16 implies inv_shift_rows_spec(shift_rows_spec(s))[i]
        == s[i] by {
        let r = i % 4;
        let c = i / 4;
        let j = r + 4 * ((c + 4 - r) % 4);
        assert(0 <= j < 16);
        assert(j % 4 == r && j / 4 == (c + 4 - r) % 4);
        assert(((c + 4 - r) % 4 + r) % 4 == c);
        assert(inv_shift_rows_spec(shift_rows_spec(s))[i] == shift_rows_spec(s)[j]);
    };
    assert(inv_shift_rows_spec(shift_rows_spec(s)) =~= s);
}

/// Row 0 of the inverse matrix undoes the forward mix of a column written
/// as chains of doublings.
#[verifier::rlimit(100)]
proof fn lemma_mix_inverse_chain_row0(a0: u8, a1: u8, a2: u8, a3: u8, m0: u8, m1: u8, m2: u8, m3: u8)
    by (bit_vector)
    requires
        m0 == xtime_lin(a0) ^ (xtime_lin(a1) ^ a1) ^ a2 ^ a3,
        m1 == a0 ^ xtime_lin(a1) ^ (xtime_lin(a2) ^ a2) ^ a3,
        m2 == a0 ^ a1 ^ xtime_lin(a2) ^ (xtime_lin(a3) ^ a3),
        m3 == (xtime_lin(a0) ^ a0) ^ a1 ^ a2 ^ xtime_lin(a3),
    ensures
        (xtime_lin(xtime_lin(xtime_lin(m0))) ^ xtime_lin(xtime_lin(m0)) ^ xtime_lin(m0))
            ^ (xtime_lin(xtime_lin(xtime_lin(m1))) ^ xtime_lin(m1) ^ m1)
            ^ (xtime_lin(xtime_lin(xtime_lin(m2))) ^ xtime_lin(xtime_lin(m2)) ^ m2)
            ^ (xtime_lin(xtime_lin(xtime_lin(m3))) ^ m3) == a0,
{
}

/// Row 1 of the inverse matrix undoes the forward mix of a column written
/// as chains of doublings.
#[verifier::rlimit(100)]
proof fn lemma_mix_inverse_chain_row1(a0: u8, a1: u8, a2: u8, a3: u8, m0: u8, m1: u8, m2: u8, m3: u8)
    by (bit_vector)
    requires
        m0 == xtime_lin(a0) ^ (xtime_lin(a1) ^ a1) ^ a2 ^ a3,
        m1 == a0 ^ xtime_lin(a1) ^ (xtime_lin(a2) ^ a2) ^ a3,
        m2 == a0 ^ a1 ^ xtime_lin(a2) ^ (xtime_lin(a3) ^ a3),
        m3 == (xtime_lin(a0) ^ a0) ^ a1 ^ a2 ^ xtime_lin(a3),
    ensures
        (xtime_lin(xtime_lin(xtime_lin(m0))) ^ m0)
            ^ (xtime_lin(xtime_lin(xtime_lin(m1))) ^ xtime_lin(xtime_lin(m1)) ^ xtime_lin(m1))
            ^ (xtime_lin(xtime_lin(xtime_lin(m2))) ^ xtime_lin(m2) ^ m2)
            ^ (xtime_lin(xtime_lin(xtime_lin(m3))) ^ xtime_lin(xtime_lin(m3)) ^ m3) == a1,
{
}

/// Row 2 of the inverse matrix undoes the forward mix of a column written
/// as chains of doublings.
#[verifier::rlimit(100)]
proof fn lemma_mix_inverse_chain_row2(a0: u8, a1: u8, a2: u8, a3: u8, m0: u8, m1: u8, m2: u8, m3: u8)
    by (bit_vector)
    requires
        m0 == xtime_lin(a0) ^ (xtime_lin(a1) ^ a1) ^ a2 ^ a3,
        m1 == a0 ^ xtime_lin(a1) ^ (xtime_lin(a2) ^ a2) ^ a3,
        m2 == a0 ^ a1 ^ xtime_lin(a2) ^ (xtime_lin(a3) ^ a3),
        m3 == (xtime_lin(a0) ^ a0) ^ a1 ^ a2 ^ xtime_lin(a3),
    ensures
        (xtime_lin(xtime_lin(xtime_lin(m0))) ^ xtime_lin(xtime_lin(m0)) ^ m0)
            ^ (xtime_lin(xtime_lin(xtime_lin(m1))) ^ m1)
            ^ (xtime_lin(xtime_lin(xtime_lin(m2))) ^ xtime_lin(xtime_lin(m2)) ^ xtime_lin(m2))
            ^ (xtime_lin(xtime_lin(xtime_lin(m3))) ^ xtime_lin(m3) ^ m3) == a2,
{
}

/// Row 3 of the inverse matrix undoes the forward mix of a column written
/// as chains of doublings.
#[verifier::rlimit(100)]
proof fn lemma_mix_inverse_chain_row3(a0: u8, a1: u8, a2: u8, a3: u8, m0: u8, m1: u8, m2: u8, m3: u8)
    by (bit_vector)
    requires
        m0 == xtime_lin(a0) ^ (xtime_lin(a1) ^ a1) ^ a2 ^ a3,
        m1 == a0 ^ xtime_lin(a1) ^ (xtime_lin(a2) ^ a2) ^ a3,
        m2 == a0 ^ a1 ^ xtime_lin(a2) ^ (xtime_lin(a3) ^ a3),
        m3 == (xtime_lin(a0) ^ a0) ^ a1 ^ a2 ^ xtime_lin(a3),
    ensures
        (xtime_lin(xtime_lin(xtime_lin(m0))) ^ xtime_lin(m0) ^ m0)
            ^ (xtime_lin(xtime_lin(xtime_lin(m1))) ^ xtime_lin(xtime_lin(m1)) ^ m1)
            ^ (xtime_lin(xtime_lin(xtime_lin(m2))) ^ m2)
            ^ (xtime_lin(xtime_lin(xtime_lin(m3))) ^ xtime_lin(xtime_lin(m3)) ^ xtime_lin(m3)) == a3,
{
}

/// The inverse matrix rows undo the forward matrix rows on every column of
/// four bytes over GF(2^8).
#[verifier::rlimit(100)]
proof fn lemma_gf_mix_inverse(a0: u8, a1: u8, a2: u8, a3: u8)
    ensures
        imix0(
            mix0(a0, a1, a2, a3),
            mix1(a0, a1, a2, a3),
            mix2(a0, a1, a2, a3),
            mix3(a0, a1, a2, a3),
        ) == a0,
        imix1(
            mix0(a0, a1, a2, a3),
            mix1(a0, a1, a2, a3),
            mix2(a0, a1, a2, a3),
            mix3(a0, a1, a2, a3),
        ) == a1,
        imix2(
            mix0(a0, a1, a2, a3),
            mix1(a0, a1, a2, a3),
            mix2(a0, a1, a2, a3),
            mix3(a0, a1, a2, a3),
        ) == a2,
        imix3(
            mix0(a0, a1, a2, a3),
            mix1(a0, a1, a2, a3),
            mix2(a0, a1, a2, a3),
            mix3(a0, a1, a2, a3),
        ) == a3,
{
    let m0 = mix0(a0, a1, a2, a3);
    let m1 = mix1(a0, a1, a2, a3);
    let m2 = mix2(a0, a1, a2, a3);
    let m3 = mix3(a0, a1, a2, a3);
    lemma_gf_mul_small_constants(a0);
    lemma_gf_mul_small_constants(a1);
    lemma_gf_mul_small_constants(a2);
    lemma_gf_mul_small_constants(a3);
    lemma_gf_mul_small_constants(m0);
    lemma_gf_mul_small_constants(m1);
    lemma_gf_mul_small_constants(m2);
    lemma_gf_mul_small_constants(m3);
    assert(m0 == xtime_spec(a0) ^ (xtime_spec(a1) ^ a1) ^ a2 ^ a3);
    assert(m1 == a0 ^ xtime_spec(a1) ^ (xtime_spec(a2) ^ a2) ^ a3);
    assert(m2 == a0 ^ a1 ^ xtime_spec(a2) ^ (xtime_spec(a3) ^ a3));
    assert(m3 == (xtime_spec(a0) ^ a0) ^ a1 ^ a2 ^ xtime_spec(a3));
    lemma_xtime_lin(a0);
    lemma_xtime_lin(a1);
    lemma_xtime_lin(a2);
    lemma_xtime_lin(a3);
    lemma_xtime_lin(m0);
    lemma_xtime_lin(xtime_spec(m0));
    lemma_xtime_lin(xtime_spec(xtime_spec(m0)));
    lemma_xtime_lin(m1);
    lemma_xtime_lin(xtime_spec(m1));
    lemma_xtime_lin(xtime_spec(xtime_spec(m1)));
    lemma_xtime_lin(m2);
    lemma_xtime_lin(xtime_spec(m2));
    lemma_xtime_lin(xtime_spec(xtime_spec(m2)));
    lemma_xtime_lin(m3);
    lemma_xtime_lin(xtime_spec(m3));
    lemma_xtime_lin(xtime_spec(xtime_spec(m3)));
    lemma_mix_inverse_chain_row0(a0, a1, a2, a3, m0, m1, m2, m3);
    lemma_mix_inverse_chain_row1(a0, a1, a2, a3, m0, m1, m2, m3);
    lemma_mix_inverse_chain_row2(a0, a1, a2, a3, m0, m1, m2, m3);
    lemma_mix_inverse_chain_row3(a0, a1, a2, a3, m0, m1, m2, m3);
}

/// Law: InvMixColumns undoes MixColumns on every 4x4 state.
#[verifier::rlimit(100)]
pub proof fn lemma_mix_columns_inverse(s: Seq<u8>)
    requires
        s.len() == 16,
    ensures
        inv_mix_columns_spec(mix_columns_spec(s)) == s,
{
    assert forall|i: int| 0 <= i < 16 implies inv_mix_columns_spec(mix_columns_spec(s))[i]
        == s[i] by {
        let c = 4 * (i / 4);
        let a0 = s[c];
        let a1 = s[c + 1];
        let a2 = s[c + 2];
        let a3 = s[c + 3];
        lemma_gf_mix_inverse(a0, a1, a2, a3);
        assert(mix_columns_spec(s)[c] == mix0(a0, a1, a2, a3));
        assert(mix_columns_spec(s)[c + 1] == mix1(a0, a1, a2, a3));
        assert(mix_columns_spec(s)[c + 2] == mix2(a0, a1, a2, a3));
        assert(mix_columns_spec(s)[c + 3] == mix3(a0, a1, a2, a3));
    };
    assert(inv_mix_columns_spec(mix_columns_spec(s)) =~= s);
}

/// Undoing rounds 10 down to `r` of an encryption leaves exactly the
/// encryption state after round `r - 1`.
proof fn lemma_inv_rounds_undo(p: Seq<u8>, w: Seq<u32>, r: int)
    requires
        p.len() == 16,
        w.len() == 44,
        1 <= r <= 10,
    ensures
        inv_rounds_spec(cipher_spec(p, w), w, r) == enc_to_spec(p, w, r - 1),
    decreases 10 - r,
{
    let c = cipher_spec(p, w);
    if r == 10 {
        let e9 = enc_to_spec(p, w, 9);
        lemma_add_round_key_inverse(
            shift_rows_spec(sub_bytes_spec(e9)),
            round_key_spec(w, 10),
        );
        lemma_shift_rows_inverse(sub_bytes_spec(e9));
        lemma_sub_bytes_inverse(e9);
    } else {
        lemma_inv_rounds_undo(p, w, r + 1);
        let e = enc_to_spec(p, w, r - 1);
        lemma_add_round_key_inverse(
            mix_columns_spec(shift_rows_spec(sub_bytes_spec(e))),
            round_key_spec(w, r),
        );
        lemma_mix_columns_inverse(shift_rows_spec(sub_bytes_spec(e)));
        lemma_shift_rows_inverse(sub_bytes_spec(e));
        lemma_sub_bytes_inverse(e);
    }
}

/// Law: decryption under a schedule undoes encryption under the same
/// schedule, for every 16-byte block and every 44-word schedule.
pub proof fn lemma_cipher_round_trip(p: Seq<u8>, w: Seq<u32>)
    requires
        p.len() == 16,
        w.len() == 44,
    ensures
        inv_cipher_spec(cipher_spec(p, w), w) == p,
{
    lemma_inv_rounds_undo(p, w, 1);
    lemma_add_round_key_inverse(p, round_key_spec(w, 0));
}

/// Law: for every 16-byte block and every 16-byte key, decrypting the
/// encryption of the block under that key's expanded schedule returns the
/// block.
pub proof fn lemma_round_trip_under_key(p: Seq<u8>, key: Seq<u8>)
    requires
        p.len() == 16,
        key.len() == 16,
    ensures
        inv_cipher_spec(cipher_spec(p, schedule_spec(key)), schedule_spec(key)) == p,
{
    lemma_cipher_round_trip(p, schedule_spec(key));
}

} // verus!
