use aes_core::api::decrypt_block;
use aes_core::api::encrypt_block;
use aes_core::api::expand_key;
use aes_core::api::CipherError;
use aes_core::cipher::Cipher;
use aes_core::cipher::MixColumns;
use aes_core::cipher::ShiftRows;
use aes_core::cipher::SubBytes;
use aes_core::common::AddRoundKey;
use aes_core::helpers::CopyToState;
use aes_core::helpers::MakeBytes;
use aes_core::helpers::MakeWord;
use aes_core::helpers::ToOutput;
use aes_core::inverse::InvCipher;
use aes_core::inverse::InvMixColumns;
use aes_core::inverse::InvShiftRows;
use aes_core::inverse::InvSubBytes;
use aes_core::sbox::inv_sub_byte;
use aes_core::sbox::sub_byte;

use rand::rngs::OsRng;
use rand::RngCore;

fn encode(input: Vec<u8>, key: &[u8; 16]) -> Vec<u8> {
    let w = expand_key(&key.to_vec()).unwrap();
    encrypt_block(&input, &w).unwrap()
}

fn decode(input: Vec<u8>, key: &[u8; 16]) -> Vec<u8> {
    let w = expand_key(&key.to_vec()).unwrap();
    decrypt_block(&input, &w).unwrap()
}

#[test]
fn test_cipher() {
    let mut rbytes = [0u8; 16];
    let mut rkey = [0u8; 16];

    for _ in 0..1024 {
        OsRng.fill_bytes(&mut rbytes);
        OsRng.fill_bytes(&mut rkey);
        assert_eq!(decode(encode(rbytes.to_vec(), &rkey), &rkey), rbytes);
    }
}

#[test]
fn fips_known_answer() {
    let key: Vec<u8> = (0x00..=0x0f).collect();
    let plain: Vec<u8> = vec![
        0x00, 0x11, 0x22, 0x33, 0x44, 0x55, 0x66, 0x77, 0x88, 0x99, 0xaa, 0xbb, 0xcc, 0xdd,
        0xee, 0xff,
    ];
    let expected: Vec<u8> = vec![
        0x69, 0xc4, 0xe0, 0xd8, 0x6a, 0x7b, 0x04, 0x30, 0xd8, 0xcd, 0xb7, 0x80, 0x70, 0xb4,
        0xc5, 0x5a,
    ];
    let w = expand_key(&key).unwrap();
    let cipher = Cipher(&plain, &w);
    assert_eq!(cipher, expected);
    assert_eq!(InvCipher(&cipher, &w), plain);
}

#[test]
fn wrong_lengths_are_rejected() {
    let short_key: Vec<u8> = vec![1, 2, 3];
    assert_eq!(expand_key(&short_key), Err(CipherError::KeyLength));

    let key: Vec<u8> = (0x00..=0x0f).collect();
    let w = expand_key(&key).unwrap();
    let short_block: Vec<u8> = vec![0; 15];
    assert_eq!(encrypt_block(&short_block, &w), Err(CipherError::BlockLength));
    assert_eq!(decrypt_block(&short_block, &w), Err(CipherError::BlockLength));

    let block: Vec<u8> = vec![0; 16];
    let short_w: Vec<u32> = vec![0; 43];
    assert_eq!(
        encrypt_block(&block, &short_w),
        Err(CipherError::ScheduleLength)
    );
    assert_eq!(
        decrypt_block(&block, &short_w),
        Err(CipherError::ScheduleLength)
    );
}

#[test]
fn sbox_round_trips_on_every_byte() {
    for b in 0..=255u8 {
        assert_eq!(inv_sub_byte(sub_byte(b)), b);
        assert_eq!(sub_byte(inv_sub_byte(b)), b);
    }
    assert_eq!(sub_byte(0x53), 0xed);
    assert_eq!(sub_byte(0x00), 0x63);
    assert_eq!(inv_sub_byte(0x63), 0x00);
}

#[test]
fn shift_rows_round_trip() {
    let block: Vec<u8> = (0..16).collect();
    let mut state = block.clone();
    ShiftRows(&mut state);
    assert_eq!(
        state,
        vec![0, 5, 10, 15, 4, 9, 14, 3, 8, 13, 2, 7, 12, 1, 6, 11]
    );
    InvShiftRows(&mut state);
    assert_eq!(state, block);
}

#[test]
fn mix_columns_round_trip() {
    // One column of the FIPS-197 MixColumns example, then arbitrary bytes.
    let mut state: Vec<u8> = vec![
        0xd4, 0xbf, 0x5d, 0x30, 0x01, 0x23, 0x45, 0x67, 0x89, 0xab, 0xcd, 0xef, 0xfe, 0xdc,
        0xba, 0x98,
    ];
    let before = state.clone();
    MixColumns(&mut state);
    assert_eq!(&state[0..4], &[0x04, 0x66, 0x81, 0xe5]);
    InvMixColumns(&mut state);
    assert_eq!(state, before);
}

#[test]
fn sub_bytes_round_trip() {
    let mut state: Vec<u8> = (16..32).collect();
    let before = state.clone();
    SubBytes(&mut state);
    InvSubBytes(&mut state);
    assert_eq!(state, before);
}

#[test]
fn add_round_key_is_self_inverse() {
    let mut state: Vec<u8> = (0..16).collect();
    let before = state.clone();
    let rk: Vec<u8> = (100..116).collect();
    AddRoundKey(&mut state, rk.clone());
    assert_ne!(state, before);
    AddRoundKey(&mut state, rk);
    assert_eq!(state, before);
}

#[test]
fn state_copy_round_trip() {
    let block: Vec<u8> = (40..56).collect();
    let state = CopyToState(block.clone());
    assert_eq!(ToOutput(state), block);
}

#[test]
fn word_byte_round_trip() {
    let word = MakeWord(0x2b, 0x7e, 0x15, 0x16);
    assert_eq!(word, 0x2b7e1516);
    assert_eq!(MakeBytes(word), [0x2b, 0x7e, 0x15, 0x16]);
}
