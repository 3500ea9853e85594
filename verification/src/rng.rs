//! Secure random key generation: wire labels are drawn from the operating
//! system's cryptographically secure entropy source. A failing source is
//! fatal and is never silently replaced with a weaker one.

use vstd::prelude::*;
use crate::errors::CryptoError;

verus! {

/// The failure value of the entropy source, opaque to the library; every
/// occurrence is mapped to `CryptoError::EntropySourceUnavailable`.
#[verifier::external_type_specification]
#[verifier::external_body]
pub struct ExGetrandomError(getrandom::Error);

/// Relies on `getrandom::fill`: fills the whole buffer from the system's
/// secure entropy source, or reports failure without touching anything
/// else; nothing is promised of which bytes come back.
#[verifier::external_body]
pub(crate) fn fill_random(buf: &mut Vec<u8>) -> (r: Result<(), getrandom::Error>)
    ensures
        final(buf)@.len() == old(buf)@.len(),
{
    getrandom::fill(buf.as_mut_slice())
}

/// Relies on `getrandom::u32`: a value from the system's secure entropy
/// source; nothing is promised of which value comes back.
#[verifier::external_body]
pub(crate) fn random_u32() -> Result<u32, getrandom::Error> {
    getrandom::u32()
}

/// Draws `n` bytes from the secure entropy source.
pub(crate) fn random_bytes(n: usize) -> (r: Result<Vec<u8>, CryptoError>)
    ensures
        r matches Ok(v) ==> v@.len() == n,
        r matches Err(e) ==> e == CryptoError::EntropySourceUnavailable,
{
    let mut buf: Vec<u8> = Vec::new();
    let mut i: usize = 0;
    while i < n
        invariant
            i <= n,
            buf@.len() == i,
        decreases n - i,
    {
        buf.push(0u8);
        i = i + 1;
    }
    match fill_random(&mut buf) {
        Ok(_) => Ok(buf),
        Err(_) => Err(CryptoError::EntropySourceUnavailable),
    }
}

/// Draws one fresh 128-bit wire label from the secure entropy source.
pub(crate) fn random_label() -> (r: Result<[u8; 16], CryptoError>)
    ensures
        r matches Err(e) ==> e == CryptoError::EntropySourceUnavailable,
{
    let buf = match random_bytes(16) {
        Ok(v) => v,
        Err(e) => {
            return Err(e);
        },
    };
    let mut label = [0u8; 16];
    let mut j: usize = 0;
    while j < 16
        invariant
            j <= 16,
            buf@.len() == 16,
        decreases 16 - j,
    {
        label[j] = buf[j];
        j = j + 1;
    }
    Ok(label)
}

/// Draws the four 128-bit wire labels of a two-wire gate: two wires, and
/// one label for each of the two bit values of each wire. Fails only with
/// `EntropySourceUnavailable`, when the secure source cannot supply bytes.
pub fn generate_random_keys() -> (r: Result<[[[u8; 16]; 2]; 2], CryptoError>)
    ensures
        r matches Err(e) ==> e == CryptoError::EntropySourceUnavailable,
{
    let k00 = match random_label() {
        Ok(v) => v,
        Err(e) => {
            return Err(e);
        },
    };
    let k01 = match random_label() {
        Ok(v) => v,
        Err(e) => {
            return Err(e);
        },
    };
    let k10 = match random_label() {
        Ok(v) => v,
        Err(e) => {
            return Err(e);
        },
    };
    let k11 = match random_label() {
        Ok(v) => v,
        Err(e) => {
            return Err(e);
        },
    };
    Ok([[k00, k01], [k10, k11]])
}

} // verus!
