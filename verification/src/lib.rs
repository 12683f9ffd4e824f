//! A verified AES-128 (Rijndael) block-cipher core: single-block encryption
//! and decryption under a 128-bit key, built from GF(2^8) byte arithmetic,
//! the fixed substitution table, the four state transforms and their
//! inverses, and the round-key schedule.
#![allow(non_snake_case)]

pub mod api;
pub mod cipher;
pub mod common;
pub mod helpers;
pub mod inverse;
pub mod math;
pub mod sbox;
