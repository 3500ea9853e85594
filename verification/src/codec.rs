//! Padding codec: a single bit is carried in a 128-bit block as one marker
//! byte followed by fifteen sentinel bytes, and decoding checks every
//! sentinel byte so that a block decrypted under a wrong key is rejected.

use vstd::prelude::*;

verus! {

/// The sentinel value held by each of the 15 trailing bytes of a padded block.
pub const PAD_SENTINEL: u8 = 15;

/// The block a bit is padded to: the bit itself, then 15 sentinel bytes.
pub open spec fn pad_spec(bit: u8) -> Seq<u8> {
    Seq::new(16, |i: int| if i == 0 { bit } else { 15u8 })
}

/// What decoding a 16-byte block yields: the marker byte exactly when all
/// 15 trailing bytes hold the sentinel, and nothing otherwise.
pub open spec fn unpad_spec(block: Seq<u8>) -> Option<u8>
    recommends
        block.len() == 16,
{
    if forall|i: int| 1 <= i < 16 ==> block[i] == 15u8 {
        Some(block[0])
    } else {
        None
    }
}

/// Encodes a bit as a 128-bit block with a verifiable sentinel marker.
pub fn pad(bit: u8) -> (r: [u8; 16])
    ensures
        r@ == pad_spec(bit),
{
    let mut block = [PAD_SENTINEL; 16];
    block[0] = bit;
    proof {
        assert(block@ =~= pad_spec(bit));
    }
    block
}

/// Decodes a padded block, returning the carried bit only if every one of
/// the 15 trailing bytes holds the sentinel; a mismatch anywhere yields
/// `None`, the normal outcome for a block decrypted under a wrong key.
pub fn unpad(padded_bit: [u8; 16]) -> (r: Option<u8>)
    ensures
        r == unpad_spec(padded_bit@),
{
    let mut check = false;
    let mut i: usize = 1;
    while i < 16
        invariant
            1 <= i <= 16,
            check <==> exists|k: int| 1 <= k < i && padded_bit@[k] != 15u8,
        decreases 16 - i,
    {
        if padded_bit[i] != PAD_SENTINEL {
            check = true;
        }
        i = i + 1;
    }
    if check {
        None
    } else {
        Some(padded_bit[0])
    }
}

/// Padding round-trip: a padded bit always decodes back to itself.
pub proof fn lemma_pad_round_trip(bit: u8)
    requires
        bit == 0 || bit == 1,
    ensures
        unpad_spec(pad_spec(bit)) == Some(bit),
{
    assert(forall|i: int| 1 <= i < 16 ==> pad_spec(bit)[i] == 15u8);
}

/// Padding rejection: a block with any trailing byte off the sentinel
/// decodes to nothing.
pub proof fn lemma_unpad_rejects(block: Seq<u8>)
    requires
        block.len() == 16,
        exists|i: int| 1 <= i < 16 && block[i] != 15u8,
    ensures
        unpad_spec(block) is None,
{
}

} // verus!
