//! The operations the core exposes to its caller: key expansion and
//! single-block encryption and decryption. Inputs of the wrong length are
//! rejected with an invalid-input error before the transform pipeline runs;
//! well-formed inputs always produce a defined result.
use crate::cipher::cipher_spec;
use crate::cipher::Cipher;
use crate::common::schedule_spec;
use crate::common::KeyExpansion;
use crate::helpers::GenerateRoundConstant;
use crate::inverse::inv_cipher_spec;
use crate::inverse::InvCipher;
use vstd::prelude::*;

verus! {

/// The invalid-input errors: a caller supplied a block, key or expanded
/// schedule of the wrong length.
#[derive(Clone, Copy, Debug, PartialEq, Eq, Structural)]
pub enum CipherError {
    /// The block was not exactly 16 bytes.
    BlockLength,
    /// The cipher key was not exactly 16 bytes.
    KeyLength,
    /// The expanded schedule was not exactly 44 words.
    ScheduleLength,
}

/// Expands a 16-byte cipher key into the 44-word round-key schedule; a key
/// of any other length is rejected.
pub fn expand_key(key: &Vec<u8>) -> (r: Result<Vec<u32>, CipherError>)
    ensures
        key@.len() == 16 ==> (r matches Ok(w) && w@ == schedule_spec(key@)),
        key@.len() != 16 ==> r === Err(CipherError::KeyLength),
{
    if key.len() != 16 {
        return Err(CipherError::KeyLength);
    }
    let mut w: Vec<u32> = Vec::new();
    KeyExpansion(crate::helpers::clone_block(key), &mut w, GenerateRoundConstant());
    Ok(w)
}

/// Encrypts one 16-byte block under a 44-word expanded schedule; a block or
/// schedule of any other length is rejected, the block checked first.
pub fn encrypt_block(block: &Vec<u8>, w: &Vec<u32>) -> (r: Result<Vec<u8>, CipherError>)
    ensures
        block@.len() == 16 && w@.len() == 44 ==> (r matches Ok(c) && c@ == cipher_spec(
            block@,
            w@,
        )),
        block@.len() != 16 ==> r === Err(CipherError::BlockLength),
        block@.len() == 16 && w@.len() != 44 ==> r === Err(CipherError::ScheduleLength),
{
    if block.len() != 16 {
        return Err(CipherError::BlockLength);
    }
    if w.len() != 44 {
        return Err(CipherError::ScheduleLength);
    }
    Ok(Cipher(block, w))
}

/// Decrypts one 16-byte block under a 44-word expanded schedule; a block or
/// schedule of any other length is rejected, the block checked first.
pub fn decrypt_block(block: &Vec<u8>, w: &Vec<u32>) -> (r: Result<Vec<u8>, CipherError>)
    ensures
        block@.len() == 16 && w@.len() == 44 ==> (r matches Ok(p) && p@ == inv_cipher_spec(
            block@,
            w@,
        )),
        block@.len() != 16 ==> r === Err(CipherError::BlockLength),
        block@.len() == 16 && w@.len() != 44 ==> r === Err(CipherError::ScheduleLength),
{
    if block.len() != 16 {
        return Err(CipherError::BlockLength);
    }
    if w.len() != 44 {
        return Err(CipherError::ScheduleLength);
    }
    Ok(InvCipher(block, w))
}

} // verus!
