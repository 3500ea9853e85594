//! Modular big-integer arithmetic for the oblivious-transfer engine.
//!
//! Group elements and exponents travel through the library as big-endian
//! byte vectors; `be_value` says which number such a vector stands for.
//! Each operation hands the bytes to the big-integer facility and takes
//! its canonical big-endian answer back, so the contracts speak purely
//! about numbers.

use vstd::prelude::*;
use vstd::arithmetic::power::pow;
use num::BigUint;
use sha3::Shake128;
use sha3::digest::ExtendableOutput;
use sha3::digest::Update;
use sha3::digest::XofReader;

verus! {

/// The number a big-endian byte string stands for.
pub open spec fn be_value(s: Seq<u8>) -> nat
    decreases s.len(),
{
    if s.len() == 0 {
        0
    } else {
        (be_value(s.drop_last()) * 256 + s.last()) as nat
    }
}

/// Relies on `num::BigUint::modpow`: `(base ^ exp) % modulus`, defined for
/// a nonzero modulus, with the result already reduced.
#[verifier::external_body]
pub(crate) fn mod_pow(base: &Vec<u8>, exp: &Vec<u8>, modulus: &Vec<u8>) -> (r: Vec<u8>)
    requires
        be_value(modulus@) > 0,
    ensures
        be_value(r@) == pow(be_value(base@) as int, be_value(exp@)) % (be_value(modulus@) as int),
{
    let b = BigUint::from_bytes_be(base.as_slice());
    let e = BigUint::from_bytes_be(exp.as_slice());
    let m = BigUint::from_bytes_be(modulus.as_slice());
    b.modpow(&e, &m).to_bytes_be()
}

/// One witness of invertibility: `(v * x) % p == 1`.
pub open spec fn mul_mod_one(v: nat, x: nat, p: nat) -> bool {
    (v * x) % p == 1
}

/// Whether `v` has a multiplicative inverse modulo `p`.
pub open spec fn invertible(v: nat, p: nat) -> bool {
    exists|x: nat| mul_mod_one(v, x, p)
}

/// Relies on `num::BigUint::modinv`: for a modulus above 1 it yields the
/// multiplicative inverse in `[0, modulus)` whenever one exists, and
/// `None` only when none does.
#[verifier::external_body]
pub(crate) fn mod_inv(a: &Vec<u8>, modulus: &Vec<u8>) -> (r: Option<Vec<u8>>)
    requires
        be_value(modulus@) > 1,
    ensures
        r matches Some(x) ==> mul_mod_one(be_value(a@), be_value(x@), be_value(modulus@)),
        invertible(be_value(a@), be_value(modulus@)) ==> r is Some,
{
    let av = BigUint::from_bytes_be(a.as_slice());
    let m = BigUint::from_bytes_be(modulus.as_slice());
    match av.modinv(&m) {
        Some(x) => Some(x.to_bytes_be()),
        None => None,
    }
}

/// Relies on `num::BigUint` multiplication: the exact product.
#[verifier::external_body]
pub(crate) fn big_mul(a: &Vec<u8>, b: &Vec<u8>) -> (r: Vec<u8>)
    ensures
        be_value(r@) == be_value(a@) * be_value(b@),
{
    let av = BigUint::from_bytes_be(a.as_slice());
    let bv = BigUint::from_bytes_be(b.as_slice());
    (av * bv).to_bytes_be()
}

/// Relies on `num::BigUint` remainder: the exact remainder, defined for a
/// nonzero modulus.
#[verifier::external_body]
pub(crate) fn big_rem(a: &Vec<u8>, modulus: &Vec<u8>) -> (r: Vec<u8>)
    requires
        be_value(modulus@) > 0,
    ensures
        be_value(r@) == be_value(a@) % be_value(modulus@),
{
    let av = BigUint::from_bytes_be(a.as_slice());
    let m = BigUint::from_bytes_be(modulus.as_slice());
    (av % m).to_bytes_be()
}

/// The first 16 bytes of SHAKE128 output over the canonical big-endian
/// byte representation of a number.
pub uninterp spec fn shake_num_of(n: nat) -> Seq<u8>;

/// Hashes a group element to a 128-bit cipher key.
///
/// Relies on `num::BigUint::to_bytes_be` and `sha3::Shake128`: the byte
/// representation is canonical, so the digest is a function of the numeric
/// value alone, however that value was produced.
#[verifier::external_body]
pub(crate) fn hash_message(value: &Vec<u8>) -> (r: [u8; 16])
    ensures
        r@ == shake_num_of(be_value(value@)),
{
    let v = BigUint::from_bytes_be(value.as_slice());
    let bytes = v.to_bytes_be();
    let mut hasher = Shake128::default();
    hasher.update(&bytes);
    let mut reader = hasher.finalize_xof();
    let mut result = [0u8; 16];
    reader.read(&mut result);
    result
}

} // verus!
