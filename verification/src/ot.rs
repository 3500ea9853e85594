//! 1-out-of-2 oblivious transfer over a multiplicative group modulo a fixed
//! large prime, in the semi-honest model under the decisional Diffie-Hellman
//! assumption.
//!
//! The sender holds two 128-bit messages and learns nothing about which one
//! was taken; the receiver holds a chooser bit and recovers exactly the
//! chosen message. The two roles are independent state-holding objects that
//! exchange explicit byte-vector messages, so they can be split across a
//! real channel; `oblivious_transfer` runs all four steps in one call.

use vstd::prelude::*;
use vstd::arithmetic::power::pow;
use vstd::arithmetic::power::lemma_pow0;
use vstd::arithmetic::power::lemma_pow1;
use vstd::arithmetic::power::lemma_pow_positive;
use vstd::arithmetic::power::lemma0_pow;
use vstd::arithmetic::power::lemma_pow_multiplies;
use vstd::arithmetic::power::lemma_pow_distributes;
use vstd::arithmetic::power::lemma_pow_mod_noop;
use vstd::arithmetic::div_mod::lemma_mul_mod_noop_general;
use vstd::arithmetic::div_mod::lemma_mul_mod_noop_right;
use vstd::arithmetic::div_mod::lemma_small_mod;
use vstd::arithmetic::div_mod::lemma_mod_twice;
use vstd::arithmetic::div_mod::lemma_mod_bound;
use vstd::arithmetic::mul::lemma_mul_is_associative;
use vstd::arithmetic::mul::lemma_mul_is_commutative;
use vstd::slice::slice_to_vec;
use crate::bigmod::be_value;
use crate::bigmod::big_mul;
use crate::bigmod::invertible;
use crate::bigmod::mul_mod_one;
use crate::bigmod::big_rem;
use crate::bigmod::hash_message;
use crate::bigmod::mod_inv;
use crate::bigmod::mod_pow;
use crate::bigmod::shake_num_of;
use crate::cipher::aes_dec_of;
use crate::cipher::decryption;
use crate::cipher::encryption;
use crate::errors::CryptoError;
use crate::rng::random_bytes;

verus! {

/// Modular exponentiation: `(b ^ e) % m`.
pub open spec fn pow_mod(b: nat, e: nat, m: nat) -> nat
    recommends
        m > 0,
{
    (pow(b as int, e) % (m as int)) as nat
}

/// The big-endian bytes of the fixed 512-bit prime modulus.
pub open spec fn group_prime_bytes() -> Seq<u8> {
    seq![
        0x9du8, 0x30u8, 0x2eu8, 0x98u8, 0xedu8, 0xedu8, 0x1eu8, 0xe6u8,
        0x29u8, 0x72u8, 0x44u8, 0x85u8, 0x33u8, 0x9eu8, 0xafu8, 0xafu8,
        0x1au8, 0x06u8, 0x21u8, 0xf9u8, 0x8du8, 0x6au8, 0x43u8, 0xd6u8,
        0x20u8, 0x16u8, 0xbdu8, 0xd9u8, 0x21u8, 0x2eu8, 0xedu8, 0xa8u8,
        0xbeu8, 0xf9u8, 0xacu8, 0xebu8, 0xf7u8, 0xf3u8, 0xe4u8, 0xcdu8,
        0x6bu8, 0xf9u8, 0x48u8, 0xe3u8, 0x9bu8, 0x96u8, 0x41u8, 0xe8u8,
        0xdfu8, 0x38u8, 0x5bu8, 0x0cu8, 0x65u8, 0x20u8, 0x82u8, 0x1du8,
        0xdbu8, 0xa2u8, 0x47u8, 0x20u8, 0x24u8, 0x77u8, 0x8eu8, 0xf5u8,
    ]
}

/// The fixed prime modulus, as a number.
pub open spec fn group_prime() -> nat {
    be_value(group_prime_bytes())
}

/// The group parameters both parties must share: the modulus `p` and the
/// generator `g`, each as big-endian bytes. An explicitly constructed,
/// immutable configuration value, so tests can substitute toy parameters.
pub struct GroupParams {
    pub p: Vec<u8>,
    pub g: Vec<u8>,
}

impl GroupParams {
    /// The modulus as a number.
    pub open spec fn p_val(&self) -> nat {
        be_value(self.p@)
    }

    /// The generator as a number.
    pub open spec fn g_val(&self) -> nat {
        be_value(self.g@)
    }

    /// A usable group: the modulus admits reduction and a unit.
    pub open spec fn wf(&self) -> bool {
        self.p_val() > 1
    }
}

/// The default group: the fixed 512-bit prime modulus with generator 2.
pub fn default_group_params() -> (r: GroupParams)
    ensures
        r.wf(),
        r.p_val() == group_prime(),
        r.g_val() == 2,
{
    let p_arr: [u8; 64] = [
        0x9d, 0x30, 0x2e, 0x98, 0xed, 0xed, 0x1e, 0xe6,
        0x29, 0x72, 0x44, 0x85, 0x33, 0x9e, 0xaf, 0xaf,
        0x1a, 0x06, 0x21, 0xf9, 0x8d, 0x6a, 0x43, 0xd6,
        0x20, 0x16, 0xbd, 0xd9, 0x21, 0x2e, 0xed, 0xa8,
        0xbe, 0xf9, 0xac, 0xeb, 0xf7, 0xf3, 0xe4, 0xcd,
        0x6b, 0xf9, 0x48, 0xe3, 0x9b, 0x96, 0x41, 0xe8,
        0xdf, 0x38, 0x5b, 0x0c, 0x65, 0x20, 0x82, 0x1d,
        0xdb, 0xa2, 0x47, 0x20, 0x24, 0x77, 0x8e, 0xf5,
    ];
    let p = slice_to_vec(p_arr.as_slice());
    let mut g: Vec<u8> = Vec::new();
    g.push(2u8);
    proof {
        assert(p@ =~= group_prime_bytes());
        assert(g@ =~= seq![2u8]);
        assert(be_value(seq![2u8]) == 2) by {
            assert(be_value(Seq::<u8>::empty()) == 0);
            assert(seq![2u8].drop_last() =~= Seq::<u8>::empty());
        }
        assert(group_prime() > 1) by {
            let s = group_prime_bytes();
            assert(s.last() == 0xf5);
            assert(be_value(s) == be_value(s.drop_last()) * 256 + 0xf5);
        }
    }
    GroupParams { p, g }
}

/// Sender-side state of one transfer: the group, the private exponent,
/// and the public value `A = g^a mod p` sent as the first message.
pub struct OtSender {
    pub params: GroupParams,
    pub a_priv: Vec<u8>,
    pub a_pub: Vec<u8>,
}

impl OtSender {
    /// The private exponent as a number.
    pub open spec fn a_val(&self) -> nat {
        be_value(self.a_priv@)
    }

    /// The published value `A` as a number.
    pub open spec fn pub_val(&self) -> nat {
        be_value(self.a_pub@)
    }

    /// A usable group, with the published value really `g^a mod p`.
    pub open spec fn wf(&self) -> bool {
        &&& self.params.wf()
        &&& self.pub_val() == pow_mod(self.params.g_val(), self.a_val(), self.params.p_val())
    }
}

/// Receiver-side state of one transfer: the group, the private exponent,
/// the sender's public value, and the private chooser bit.
pub struct OtReceiver {
    pub params: GroupParams,
    pub b_priv: Vec<u8>,
    pub a_pub: Vec<u8>,
    pub bit: u8,
}

impl OtReceiver {
    /// The private exponent as a number.
    pub open spec fn b_val(&self) -> nat {
        be_value(self.b_priv@)
    }

    /// The sender's public value `A` as a number.
    pub open spec fn sender_val(&self) -> nat {
        be_value(self.a_pub@)
    }

    /// A usable group and a boolean chooser bit.
    pub open spec fn wf(&self) -> bool {
        &&& self.params.wf()
        &&& self.bit == 0 || self.bit == 1
    }

    /// The cipher key this receiver derives in its final step:
    /// `H(A^b mod p)`.
    pub open spec fn derived_key(&self) -> Seq<u8> {
        shake_num_of(pow_mod(self.sender_val(), self.b_val(), self.params.p_val()))
    }
}

/// First sender step: draw the private exponent `a` and publish
/// `A = g^a mod p`, the message handed to the receiver.
pub fn ot_sender_step1(params: GroupParams) -> (r: Result<(OtSender, Vec<u8>), CryptoError>)
    requires
        params.wf(),
    ensures
        r matches Ok(s) ==> ({
            &&& s.0.wf()
            &&& s.0.params == params
            &&& s.1@ == s.0.a_pub@
        }),
        r matches Err(e) ==> e == CryptoError::EntropySourceUnavailable,
{
    let a_priv = match random_bytes(64) {
        Ok(v) => v,
        Err(e) => {
            return Err(e);
        },
    };
    let a_pub = mod_pow(&params.g, &a_priv, &params.p);
    let a_msg = slice_to_vec(a_pub.as_slice());
    let sender = OtSender { params, a_priv, a_pub };
    Ok((sender, a_msg))
}

/// First receiver step: draw the private exponent `b` and answer the
/// sender's `A` with `B = (g^b * A^c) mod p`, which hides the chooser
/// bit `c` from the sender.
pub fn ot_receiver_step1(params: GroupParams, a_msg: Vec<u8>, bit: u8) -> (r: Result<
    (OtReceiver, Vec<u8>),
    CryptoError,
>)
    requires
        params.wf(),
        bit == 0 || bit == 1,
    ensures
        r matches Ok(s) ==> ({
            &&& s.0.wf()
            &&& s.0.params == params
            &&& s.0.bit == bit
            &&& s.0.a_pub@ == a_msg@
            &&& be_value(s.1@) == (pow_mod(params.g_val(), s.0.b_val(), params.p_val())
                * pow_mod(be_value(a_msg@), bit as nat, params.p_val())) % params.p_val()
        }),
        r matches Err(e) ==> e == CryptoError::EntropySourceUnavailable,
{
    let b_priv = match random_bytes(64) {
        Ok(v) => v,
        Err(e) => {
            return Err(e);
        },
    };
    let g_b = mod_pow(&params.g, &b_priv, &params.p);
    let mut bit_vec: Vec<u8> = Vec::new();
    bit_vec.push(bit);
    proof {
        assert(be_value(Seq::<u8>::empty()) == 0);
        assert(bit_vec@.drop_last() =~= Seq::<u8>::empty());
        assert(be_value(bit_vec@) == bit);
    }
    let a_c = mod_pow(&a_msg, &bit_vec, &params.p);
    let prod = big_mul(&g_b, &a_c);
    let b_msg = big_rem(&prod, &params.p);
    let receiver = OtReceiver { params, b_priv, a_pub: a_msg, bit };
    Ok((receiver, b_msg))
}

/// Second sender step: derive the two keys from the receiver's answer `B`
/// as `K0 = H(B^a mod p)` and `K1 = H((B^a * A^-a) mod p)`, and hand back
/// the two encrypted messages `(e0, e1)`. The receiver can recompute
/// exactly the key for its chooser bit. A group in which `A` has no
/// inverse modulo `p` is not the agreed prime-modulus group, and exactly
/// then the step is rejected with `GroupParameterMismatch`.
pub fn ot_sender_step2(sender: &OtSender, b_msg: &Vec<u8>, m0: [u8; 16], m1: [u8; 16]) -> (r:
    Result<([u8; 16], [u8; 16]), CryptoError>)
    requires
        sender.wf(),
    ensures
        r matches Ok(es) ==> ({
            let p = sender.params.p_val();
            let a = sender.a_val();
            let bv = be_value(b_msg@);
            &&& aes_dec_of(shake_num_of(pow_mod(bv, a, p)), es.0@) == m0@
            &&& exists|ai: nat|
                mul_mod_one(sender.pub_val(), ai, p) && aes_dec_of(
                    shake_num_of((pow_mod(bv, a, p) * pow_mod(ai, a, p)) % p),
                    es.1@,
                ) == m1@
        }),
        r matches Err(e) ==> e == CryptoError::GroupParameterMismatch && !invertible(
            sender.pub_val(),
            sender.params.p_val(),
        ),
{
    let k0_group = mod_pow(b_msg, &sender.a_priv, &sender.params.p);
    let a_inv = match mod_inv(&sender.a_pub, &sender.params.p) {
        Some(v) => v,
        None => {
            proof {
                assert(!invertible(sender.pub_val(), sender.params.p_val()));
            }
            return Err(CryptoError::GroupParameterMismatch);
        },
    };
    let inv_pow = mod_pow(&a_inv, &sender.a_priv, &sender.params.p);
    let prod = big_mul(&k0_group, &inv_pow);
    let k1_group = big_rem(&prod, &sender.params.p);
    let k0 = hash_message(&k0_group);
    let k1 = hash_message(&k1_group);
    let e0 = encryption(k0, m0);
    let e1 = encryption(k1, m1);
    proof {
        let p = sender.params.p_val();
        let a = sender.a_val();
        let bv = be_value(b_msg@);
        let w = be_value(a_inv@);
        assert(mul_mod_one(sender.pub_val(), w, p) && aes_dec_of(
            shake_num_of((pow_mod(bv, a, p) * pow_mod(w, a, p)) % p),
            e1@,
        ) == m1@);
    }
    Ok((e0, e1))
}

/// Final receiver step: derive `Kc = H(A^b mod p)` and decrypt the chosen
/// ciphertext with it; the other ciphertext is never touched.
pub fn ot_receiver_step2(receiver: &OtReceiver, e0: [u8; 16], e1: [u8; 16]) -> (r: [u8; 16])
    requires
        receiver.wf(),
    ensures
        r@ == aes_dec_of(
            receiver.derived_key(),
            if receiver.bit == 0 {
                e0@
            } else {
                e1@
            },
        ),
{
    let kc_group = mod_pow(&receiver.a_pub, &receiver.b_priv, &receiver.params.p);
    let kc = hash_message(&kc_group);
    let chosen = if receiver.bit == 0 {
        e0
    } else {
        e1
    };
    decryption(kc, chosen)
}

/// A power of a natural number is never negative.
proof fn lemma_pow_nat_nonneg(b: nat, e: nat)
    ensures
        pow(b as int, e) >= 0,
{
    if b > 0 {
        lemma_pow_positive(b as int, e);
    } else if e == 0 {
        lemma_pow0(b as int);
    } else {
        lemma0_pow(e);
    }
}

/// Key agreement of the transfer: whatever the two private exponents and
/// whichever inverse of `A` the sender used, the key the receiver derives,
/// `A^b mod p`, equals the sender's key for the receiver's chooser bit.
pub proof fn lemma_ot_keys_match(p: nat, g: nat, a: nat, b: nat, bit: nat, ai: nat)
    requires
        p > 1,
        bit == 0 || bit == 1,
        (pow_mod(g, a, p) * ai) % p == 1,
    ensures
        ({
            let apub = pow_mod(g, a, p);
            let bpub = (pow_mod(g, b, p) * pow_mod(apub, bit, p)) % p;
            &&& (bit == 0 ==> pow_mod(bpub, a, p) == pow_mod(apub, b, p))
            &&& (bit == 1 ==> (pow_mod(bpub, a, p) * pow_mod(ai, a, p)) % p == pow_mod(
                apub,
                b,
                p,
            ))
        }),
{
    let pi = p as int;
    let gi = g as int;
    let aii = ai as int;
    let apub = pow_mod(g, a, p);
    let ap = apub as int;
    lemma_pow_nat_nonneg(g, a);
    lemma_pow_nat_nonneg(g, b);
    lemma_mod_bound(pow(gi, a), pi);
    lemma_mod_bound(pow(gi, b), pi);
    assert(ap == pow(gi, a) % pi);
    assert(0 <= ap < pi);
    // The key the receiver derives: A^b == g^(a*b) modulo p.
    lemma_pow_mod_noop(pow(gi, a), b, pi);
    lemma_pow_multiplies(gi, a, b);
    assert(pow_mod(apub, b, p) == pow(gi, (a * b) as nat) % pi);
    if bit == 0 {
        let bpub = (pow_mod(g, b, p) * pow_mod(apub, 0, p)) % p;
        lemma_pow0(ap);
        lemma_small_mod(1, p);
        assert(pow_mod(apub, 0, p) == 1);
        assert(pow_mod(g, b, p) * 1 == pow_mod(g, b, p));
        assert(bpub == pow_mod(g, b, p) % p);
        lemma_mod_bound(pow(gi, b), pi);
        lemma_mod_twice(pow(gi, b), pi);
        assert(bpub == pow(gi, b) % pi);
        lemma_pow_mod_noop(pow(gi, b), a, pi);
        lemma_pow_multiplies(gi, b, a);
        lemma_mul_is_commutative(a as int, b as int);
        assert(pow_mod(bpub, a, p) == pow(gi, (a * b) as nat) % pi);
    } else {
        lemma_pow1(ap);
        lemma_small_mod(apub, p);
        assert(pow_mod(apub, 1, p) == apub);
        let bpub = (pow_mod(g, b, p) * apub) % p;
        let bp = bpub as int;
        // B == (g^b * A) mod p.
        lemma_mul_mod_noop_general(pow(gi, b), ap, pi);
        assert(bp == (pow(gi, b) * ap) % pi);
        let x = pow(gi, b) * ap;
        // The sender's second key: (B^a * ai^a) == (x * ai)^a == g^(a*b)
        // modulo p, because A * ai == 1 modulo p.
        lemma_pow_nat_nonneg(bpub, a);
        lemma_pow_nat_nonneg(ai, a);
        lemma_mod_bound(pow(bp, a), pi);
        lemma_mod_bound(pow(aii, a), pi);
        lemma_mul_mod_noop_general(pow(bp, a), pow(aii, a), pi);
        assert((pow_mod(bpub, a, p) * pow_mod(ai, a, p)) % p == (pow(bp, a) * pow(aii, a))
            % pi);
        lemma_pow_mod_noop(x, a, pi);
        assert(pow(bp, a) % pi == pow(x, a) % pi);
        lemma_mul_mod_noop_general(pow(x, a), pow(aii, a), pi);
        assert((pow(bp, a) * pow(aii, a)) % pi == (pow(x, a) * pow(aii, a)) % pi);
        lemma_pow_distributes(x, aii, a);
        assert(pow(x, a) * pow(aii, a) == pow(x * aii, a));
        lemma_mul_is_associative(pow(gi, b), ap, aii);
        assert(x * aii == pow(gi, b) * (ap * aii));
        lemma_mul_mod_noop_right(pow(gi, b), ap * aii, pi);
        assert((ap * aii) % pi == 1);
        assert((x * aii) % pi == (pow(gi, b) * 1) % pi);
        lemma_pow_mod_noop(x * aii, a, pi);
        assert(pow(x * aii, a) % pi == pow((x * aii) % pi, a) % pi);
        lemma_pow_mod_noop(pow(gi, b), a, pi);
        assert(pow((pow(gi, b)) % pi, a) % pi == pow(pow(gi, b), a) % pi);
        lemma_pow_multiplies(gi, b, a);
        lemma_mul_is_commutative(a as int, b as int);
        assert((pow_mod(bpub, a, p) * pow_mod(ai, a, p)) % p == pow(gi, (a * b) as nat) % pi);
    }
}

/// Runs the whole 1-out-of-2 transfer locally, both roles in one call: the
/// receiver recovers exactly the sender message named by its chooser bit.
pub fn oblivious_transfer(keys: [[u8; 16]; 2], bit: u8) -> (r: Result<[u8; 16], CryptoError>)
    requires
        bit == 0 || bit == 1,
    ensures
        r matches Ok(m) ==> m@ == (if bit == 0 {
            keys[0]@
        } else {
            keys[1]@
        }),
        r matches Err(e) ==> (e == CryptoError::EntropySourceUnavailable || (e
            == CryptoError::GroupParameterMismatch && exists|a: nat|
            !invertible(#[trigger] pow_mod(2, a, group_prime()), group_prime()))),
{
    let sender_params = default_group_params();
    let receiver_params = default_group_params();
    let (sender, a_msg) = match ot_sender_step1(sender_params) {
        Ok(v) => v,
        Err(e) => {
            return Err(e);
        },
    };
    let ghost a_msg_view = a_msg@;
    let (receiver, b_msg) = match ot_receiver_step1(receiver_params, a_msg, bit) {
        Ok(v) => v,
        Err(e) => {
            return Err(e);
        },
    };
    let (e0, e1) = match ot_sender_step2(&sender, &b_msg, keys[0], keys[1]) {
        Ok(v) => v,
        Err(e) => {
            proof {
                assert(!invertible(pow_mod(2, sender.a_val(), group_prime()), group_prime()));
            }
            return Err(e);
        },
    };
    let m = ot_receiver_step2(&receiver, e0, e1);
    proof {
        let p = sender.params.p_val();
        let a = sender.a_val();
        let b = receiver.b_val();
        let bv = be_value(b_msg@);
        let ai = choose|ai: nat|
            mul_mod_one(sender.pub_val(), ai, p) && aes_dec_of(
                shake_num_of((pow_mod(bv, a, p) * pow_mod(ai, a, p)) % p),
                e1@,
            ) == keys[1]@;
        lemma_ot_keys_match(p, 2, a, b, bit as nat, ai);
    }
    Ok(m)
}

} // verus!
