//! Block-cipher wrapper: fixed-key, fixed-block AES-128 encryption and
//! decryption of single 128-bit blocks. Every input here is either a fresh
//! random wire label or a pre-padded block, so single-block use is sound.

use vstd::prelude::*;
use aes::Aes128;
use aes::cipher::BlockDecrypt;
use aes::cipher::BlockEncrypt;
use aes::cipher::KeyInit;
use aes::cipher::generic_array::GenericArray;

verus! {

/// The AES-128 encryption of one block under one key.
pub uninterp spec fn aes_enc_of(key: Seq<u8>, block: Seq<u8>) -> Seq<u8>;

/// The AES-128 decryption of one block under one key.
pub uninterp spec fn aes_dec_of(key: Seq<u8>, block: Seq<u8>) -> Seq<u8>;

/// Encrypts one 128-bit block under a 128-bit key.
///
/// Relies on `aes::Aes128::encrypt_block`: a deterministic permutation of
/// the block for each key, inverted exactly by `decrypt_block`.
#[verifier::external_body]
pub fn encryption(key: [u8; 16], plaintext: [u8; 16]) -> (r: [u8; 16])
    ensures
        r@ == aes_enc_of(key@, plaintext@),
        aes_dec_of(key@, r@) == plaintext@,
{
    let aes_key = GenericArray::from(key);
    let mut block = GenericArray::from(plaintext);
    let cipher = Aes128::new(&aes_key);
    cipher.encrypt_block(&mut block);
    block.into()
}

/// Decrypts one 128-bit block under a 128-bit key.
///
/// Relies on `aes::Aes128::decrypt_block`: the deterministic inverse of
/// `encrypt_block` under the same key, inverted exactly by it in turn.
#[verifier::external_body]
pub fn decryption(key: [u8; 16], ciphertext: [u8; 16]) -> (r: [u8; 16])
    ensures
        r@ == aes_dec_of(key@, ciphertext@),
        aes_enc_of(key@, r@) == ciphertext@,
{
    let aes_key = GenericArray::from(key);
    let mut block = GenericArray::from(ciphertext);
    let cipher = Aes128::new(&aes_key);
    cipher.decrypt_block(&mut block);
    block.into()
}

} // verus!
