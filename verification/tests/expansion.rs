use aes_core::cipher::round_key;
use aes_core::common::KeyExpansion;
use aes_core::helpers::GenerateRoundConstant;

const TEST_KEY: [u8; 16] = [
    0x2b, 0x7e, 0x15, 0x16, 0x28, 0xae, 0xd2, 0xa6, 0xab, 0xf7, 0x15, 0x88, 0x09, 0xcf, 0x4f,
    0x3c,
];

#[test]
fn test_expansion() {
    let key: [u8; 16] = TEST_KEY;
    let mut w: Vec<u32> = vec![0; 4];
    let rcon = GenerateRoundConstant();
    KeyExpansion(key.to_vec(), &mut w, rcon);
    assert_eq!(
        w[0..4].to_vec(),
        vec![0x2b7e1516u32, 0x28aed2a6, 0xabf71588, 0x09cf4f3c]
    );
}

#[test]
fn expansion_known_words() {
    let mut w: Vec<u32> = Vec::new();
    KeyExpansion(TEST_KEY.to_vec(), &mut w, GenerateRoundConstant());
    assert_eq!(w.len(), 44);
    assert_eq!(w[4], 0xa0fafe17);
    assert_eq!(w[5], 0x88542cb1);
    assert_eq!(w[6], 0x23a33939);
    assert_eq!(w[7], 0x2a6c7605);
    assert_eq!(w[40], 0xd014f9a8);
    assert_eq!(w[41], 0xc9ee2589);
    assert_eq!(w[42], 0xe13f0cc8);
    assert_eq!(w[43], 0xb6630ca6);
}

#[test]
fn expansion_is_deterministic() {
    let mut w1: Vec<u32> = Vec::new();
    let mut w2: Vec<u32> = vec![7; 44];
    KeyExpansion(TEST_KEY.to_vec(), &mut w1, GenerateRoundConstant());
    KeyExpansion(TEST_KEY.to_vec(), &mut w2, GenerateRoundConstant());
    assert_eq!(w1, w2);
}

#[test]
fn first_round_key_is_the_key() {
    let mut w: Vec<u32> = Vec::new();
    KeyExpansion(TEST_KEY.to_vec(), &mut w, GenerateRoundConstant());
    assert_eq!(round_key(&w, 0), TEST_KEY.to_vec());
}

#[test]
fn round_constants() {
    let rcon = GenerateRoundConstant();
    assert_eq!(
        rcon,
        vec![0x01, 0x02, 0x04, 0x08, 0x10, 0x20, 0x40, 0x80, 0x1b, 0x36]
    );
}
