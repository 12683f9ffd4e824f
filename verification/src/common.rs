//! The transforms shared by the cipher and its inverse: AddRoundKey, and the
//! key schedule that expands a 16-byte cipher key into the 44 words (11
//! round keys) consumed by the round pipeline.
use crate::helpers::byte0;
use crate::helpers::byte1;
use crate::helpers::byte2;
use crate::helpers::byte3;
use crate::helpers::make_word_spec;
use crate::helpers::rcon_spec;
use crate::helpers::word_byte;
use crate::helpers::lemma_word_bytes;
use crate::helpers::MakeBytes;
use crate::helpers::MakeWord;
use crate::math::FiniteAdd;
use crate::sbox::s_box;
use crate::sbox::sub_byte;
use vstd::prelude::*;

verus! {

/// The state after AddRoundKey: each byte of the state XORed with the
/// corresponding byte of the 16-byte round key.
pub open spec fn add_round_key_spec(s: Seq<u8>, k: Seq<u8>) -> Seq<u8> {
    Seq::new(16, |i: int| s[i] ^ k[i])
}

/// Word `i` of the expanded key schedule. The first 4 words are the cipher
/// key split into big-endian words; every later word is `w[i-4]` XOR a
/// `temp` that is `w[i-1]`, first rotated one byte left, substituted through
/// the S-box, and XORed in its first byte with the round constant whenever
/// `i` is a multiple of 4.
pub open spec fn word_spec(key: Seq<u8>, i: int) -> u32
    decreases i,
{
    if i < 4 {
        make_word_spec(key[4 * i], key[4 * i + 1], key[4 * i + 2], key[4 * i + 3])
    } else if i % 4 == 0 {
        let prev = word_spec(key, i - 1);
        word_spec(key, i - 4) ^ make_word_spec(
            s_box(byte1(prev)) ^ rcon_spec(i / 4),
            s_box(byte2(prev)),
            s_box(byte3(prev)),
            s_box(byte0(prev)),
        )
    } else {
        word_spec(key, i - 4) ^ word_spec(key, i - 1)
    }
}

/// The full key schedule: 44 words, 4 per round key.
pub open spec fn schedule_spec(key: Seq<u8>) -> Seq<u32> {
    Seq::new(44, |i: int| word_spec(key, i))
}

/// The 16 bytes of round key `r`, laid out column-major like the state:
/// byte `i` is byte `i % 4` of schedule word `4 * r + i / 4`.
pub open spec fn round_key_spec(w: Seq<u32>, r: int) -> Seq<u8> {
    Seq::new(16, |i: int| word_byte(w[4 * r + i / 4], i % 4))
}

/// Transformation in the cipher and the inverse cipher in which a 16-byte
/// round key is added to the state byte by byte using field addition (XOR).
pub fn AddRoundKey(state: &mut Vec<u8>, roundkey: Vec<u8>)
    requires
        old(state)@.len() == 16,
        roundkey@.len() == 16,
    ensures
        final(state)@ == add_round_key_spec(old(state)@, roundkey@),
{
    let mut i: usize = 0;
    while i < 16
        invariant
            i <= 16,
            state@.len() == 16,
            roundkey@.len() == 16,
            forall|j: int| 0 <= j < i ==> state@[j] == old(state)@[j] ^ roundkey@[j],
            forall|j: int| i <= j < 16 ==> state@[j] == old(state)@[j],
        decreases 16 - i,
    {
        let v = FiniteAdd(state[i], roundkey[i]);
        state[i] = v;
        i = i + 1;
    }
    assert(state@ =~= add_round_key_spec(old(state)@, roundkey@));
}

/// Used in the key expansion routine: takes a 4-byte word and performs a
/// cyclic permutation one byte to the left.
pub fn RotWord(word: [u8; 4]) -> (o: [u8; 4])
    ensures
        o@[0] == word@[1],
        o@[1] == word@[2],
        o@[2] == word@[3],
        o@[3] == word@[0],
{
    [word[1], word[2], word[3], word[0]]
}

/// Used in the key expansion routine: applies the S-box to each of the four
/// bytes of a word.
pub fn SubWord(word: [u8; 4]) -> (o: [u8; 4])
    ensures
        o@[0] == s_box(word@[0]),
        o@[1] == s_box(word@[1]),
        o@[2] == s_box(word@[2]),
        o@[3] == s_box(word@[3]),
{
    [sub_byte(word[0]), sub_byte(word[1]), sub_byte(word[2]), sub_byte(word[3])]
}

/// Expands a 16-byte cipher key into the 44-word schedule, overwriting `w`.
/// `Rcon` must hold the 10 round constants, as `GenerateRoundConstant`
/// produces them.
pub fn KeyExpansion(key: Vec<u8>, w: &mut Vec<u32>, Rcon: Vec<u8>)
    requires
        key@.len() == 16,
        Rcon@.len() == 10,
        forall|r: int| 1 <= r <= 10 ==> Rcon@[r - 1] == rcon_spec(r),
    ensures
        final(w)@ == schedule_spec(key@),
{
    w.clear();
    let mut i: usize = 0;
    while i < 4
        invariant
            i <= 4,
            key@.len() == 16,
            w@.len() == i,
            forall|j: int| 0 <= j < i ==> w@[j] == word_spec(key@, j),
        decreases 4 - i,
    {
        w.push(MakeWord(key[4 * i], key[4 * i + 1], key[4 * i + 2], key[4 * i + 3]));
        i = i + 1;
    }
    while i < 44
        invariant
            4 <= i <= 44,
            key@.len() == 16,
            Rcon@.len() == 10,
            forall|r: int| 1 <= r <= 10 ==> Rcon@[r - 1] == rcon_spec(r),
            w@.len() == i,
            forall|j: int| 0 <= j < i ==> w@[j] == word_spec(key@, j),
        decreases 44 - i,
    {
        let prev = w[i - 1];
        let t: u32;
        if i % 4 == 0 {
            let bytes = MakeBytes(prev);
            let rotated = RotWord(bytes);
            let substituted = SubWord(rotated);
            let first = substituted[0] ^ Rcon[i / 4 - 1];
            t = MakeWord(first, substituted[1], substituted[2], substituted[3]);
            proof {
                assert(1 <= i / 4 <= 10);
                assert(Rcon@[i as int / 4 - 1] == rcon_spec(i as int / 4));
                assert(t == make_word_spec(
                    s_box(byte1(prev)) ^ rcon_spec(i as int / 4),
                    s_box(byte2(prev)),
                    s_box(byte3(prev)),
                    s_box(byte0(prev)),
                ));
            }
        } else {
            t = prev;
        }
        let wi = w[i - 4] ^ t;
        proof {
            assert(w@[i as int - 4] == word_spec(key@, i as int - 4));
            if i % 4 == 0 {
                assert(word_spec(key@, i as int) == word_spec(key@, i as int - 4)
                    ^ make_word_spec(
                    s_box(byte1(word_spec(key@, i as int - 1))) ^ rcon_spec(i as int / 4),
                    s_box(byte2(word_spec(key@, i as int - 1))),
                    s_box(byte3(word_spec(key@, i as int - 1))),
                    s_box(byte0(word_spec(key@, i as int - 1))),
                ));
                assert(wi == word_spec(key@, i as int));
            } else {
                assert(word_spec(key@, i as int) == word_spec(key@, i as int - 4) ^ word_spec(
                    key@,
                    i as int - 1,
                ));
                assert(wi == word_spec(key@, i as int));
            }
        }
        w.push(wi);
        i = i + 1;
    }
    assert(w@ =~= schedule_spec(key@));
}

/// Law: AddRoundKey is self-inverse; applying it twice with the same round
/// key restores the state.
pub proof fn lemma_add_round_key_inverse(s: Seq<u8>, k: Seq<u8>)
    requires
        s.len() == 16,
        k.len() == 16,
    ensures
        add_round_key_spec(add_round_key_spec(s, k), k) == s,
{
    assert forall|i: int| 0 <= i < 16 implies add_round_key_spec(add_round_key_spec(s, k), k)[i]
        == s[i] by {
        let x = s[i];
        let y = k[i];
        assert((x ^ y) ^ y == x) by (bit_vector);
    };
    assert(add_round_key_spec(add_round_key_spec(s, k), k) =~= s);
}

/// Law: the first round key of the expanded schedule is the cipher key
/// itself. That the schedule is deterministic is carried by `KeyExpansion`'s
/// contract, which pins the whole schedule to a function of the key alone.
pub proof fn lemma_expand_key_first_round_key(key: Seq<u8>)
    requires
        key.len() == 16,
    ensures
        round_key_spec(schedule_spec(key), 0) == key,
{
    assert forall|i: int| 0 <= i < 16 implies round_key_spec(schedule_spec(key), 0)[i]
        == key[i] by {
        let c = i / 4;
        lemma_word_bytes(key[4 * c], key[4 * c + 1], key[4 * c + 2], key[4 * c + 3]);
    };
    assert(round_key_spec(schedule_spec(key), 0) =~= key);
}

} // verus!
