//! Key-derivation function: two 128-bit secrets are combined into one by
//! hashing their concatenation with the SHAKE128 extendable-output hash and
//! reading the first 128 bits of output.

use vstd::prelude::*;
use sha3::Shake128;
use sha3::digest::ExtendableOutput;
use sha3::digest::Update;
use sha3::digest::XofReader;

verus! {

/// The first 16 bytes of SHAKE128 output over the given input bytes.
pub uninterp spec fn shake128_of(data: Seq<u8>) -> Seq<u8>;

/// What `key_derivation` returns: SHAKE128 over the concatenation of the
/// two keys, truncated to 128 bits. Order-sensitive, as the row-derivation
/// scheme of the garbled table requires.
pub open spec fn derive_of(a: Seq<u8>, b: Seq<u8>) -> Seq<u8> {
    shake128_of(a + b)
}

/// Relies on `sha3::Shake128`: the 16 bytes read from the XOF are a
/// function of the input bytes alone.
#[verifier::external_body]
fn shake128_16(data: &Vec<u8>) -> (r: [u8; 16])
    ensures
        r@ == shake128_of(data@),
{
    let mut hasher = Shake128::default();
    hasher.update(data.as_slice());
    let mut reader = hasher.finalize_xof();
    let mut result = [0u8; 16];
    reader.read(&mut result);
    result
}

/// Derives one 128-bit key from two: SHAKE128 over `key1 || key2`,
/// truncated to 128 bits. Deterministic, and sensitive to argument order.
pub fn key_derivation(key1: [u8; 16], key2: [u8; 16]) -> (r: [u8; 16])
    ensures
        r@ == derive_of(key1@, key2@),
{
    let mut data: Vec<u8> = Vec::new();
    let mut i: usize = 0;
    while i < 16
        invariant
            i <= 16,
            data@ =~= key1@.take(i as int),
        decreases 16 - i,
    {
        data.push(key1[i]);
        i = i + 1;
    }
    let mut j: usize = 0;
    while j < 16
        invariant
            j <= 16,
            data@ =~= key1@ + key2@.take(j as int),
        decreases 16 - j,
    {
        data.push(key2[j]);
        j = j + 1;
    }
    proof {
        assert(data@ =~= key1@ + key2@);
    }
    shake128_16(&data)
}

} // verus!
