//! Garbled-table builder: each truth-table row is encrypted under a key
//! derived from the row's two input wire labels, and the four entries are
//! then shuffled so that table position reveals nothing about row
//! semantics. An evaluator holding one label per wire finds the output by
//! trial decryption: only the matching row yields valid padding.

use vstd::prelude::*;
use crate::cipher::aes_dec_of;
use crate::cipher::aes_enc_of;
use crate::cipher::encryption;
use crate::codec::pad;
use crate::codec::pad_spec;
use crate::errors::CryptoError;
use crate::kdf::derive_of;
use crate::kdf::key_derivation;
use crate::shuffle::shuffle;
use crate::truth::gate_out;
use crate::truth::row_input_a;
use crate::truth::row_input_b;
use crate::truth::supported_gate;
use crate::truth::truth_row;
use crate::truth::truth_table;

verus! {

/// The cipher key of truth-table row `i`: derived from the label of wire A
/// for the row's first input bit and the label of wire B for its second.
pub open spec fn row_key(key: [[[u8; 16]; 2]; 2], i: int) -> Seq<u8> {
    derive_of(key[0][i / 2]@, key[1][i % 2]@)
}

/// The padded output bit of truth-table row `i` of `gate`.
pub open spec fn row_plain(gate: Seq<char>, i: int) -> Seq<u8> {
    pad_spec(gate_out(gate, row_input_a(i), row_input_b(i)))
}

/// What the builder guarantees of a finished table `t`: for every
/// truth-table row of `gate`, some entry of `t` decrypts under that row's
/// key to that row's padded output bit.
pub open spec fn garbled_ok(key: [[[u8; 16]; 2]; 2], gate: Seq<char>, t: [[u8; 16]; 4]) -> bool {
    forall|i: int|
        0 <= i < 4 ==> exists|j: int|
            0 <= j < 4 && aes_dec_of(#[trigger] row_key(key, i), t[j]@) == row_plain(gate, i)
}

/// The ciphertext of truth-table row `i`: the row's padded output bit
/// encrypted under the row's key.
pub open spec fn row_cipher(key: [[[u8; 16]; 2]; 2], gate: Seq<char>, i: int) -> Seq<u8> {
    aes_enc_of(row_key(key, i), row_plain(gate, i))
}

/// The views of a sequence of blocks.
pub open spec fn views_of(s: Seq<[u8; 16]>) -> Seq<Seq<u8>> {
    Seq::new(s.len(), |i: int| s[i]@)
}

/// A finished table `t` is a permutation of the four row ciphertexts:
/// its entries, as a multiset, are exactly them.
pub open spec fn garbled_permutation(
    key: [[[u8; 16]; 2]; 2],
    gate: Seq<char>,
    t: [[u8; 16]; 4],
) -> bool {
    seq![t[0]@, t[1]@, t[2]@, t[3]@].to_multiset() == seq![
        row_cipher(key, gate, 0),
        row_cipher(key, gate, 1),
        row_cipher(key, gate, 2),
        row_cipher(key, gate, 3),
    ].to_multiset()
}

/// Two sequences that hold the same blocks, as a multiset, hold the same
/// block views, as a multiset.
proof fn lemma_view_multiset(s1: Seq<[u8; 16]>, s2: Seq<[u8; 16]>)
    requires
        s1.to_multiset() == s2.to_multiset(),
    ensures
        views_of(s1).to_multiset() == views_of(s2).to_multiset(),
    decreases s1.len(),
{
    broadcast use vstd::seq_lib::group_to_multiset_ensures;
    broadcast use vstd::multiset::group_multiset_axioms;

    assert(s1.to_multiset().len() == s1.len());
    assert(s2.to_multiset().len() == s2.len());
    if s1.len() == 0 {
        assert(s2.len() == 0);
        assert(views_of(s1) =~= views_of(s2));
    } else {
        let x = s1.last();
        let s1p = s1.drop_last();
        assert(s1 =~= s1p.push(x));
        assert(s1.to_multiset() =~= s1p.to_multiset().insert(x));
        assert(s1.contains(x));
        assert(s2.to_multiset().count(x) > 0);
        assert(s2.contains(x));
        let k = choose|k: int| 0 <= k < s2.len() && s2[k] == x;
        let s2p = s2.remove(k);
        assert(s2p.to_multiset() =~= s2.to_multiset().remove(x));
        assert(s1p.to_multiset() =~= s1p.to_multiset().insert(x).remove(x));
        assert(s1p.to_multiset() =~= s2p.to_multiset());
        lemma_view_multiset(s1p, s2p);
        assert(views_of(s1) =~= views_of(s1p).push(x@));
        assert(views_of(s1).to_multiset() =~= views_of(s1p).to_multiset().insert(x@));
        assert(views_of(s2p) =~= views_of(s2).remove(k));
        assert(views_of(s2).remove(k).to_multiset() =~= views_of(s2).to_multiset().remove(
            views_of(s2)[k],
        ));
        assert(views_of(s2)[k] == x@);
        assert(views_of(s2).contains(x@));
        assert(views_of(s2).to_multiset().count(x@) > 0);
        assert(views_of(s2).to_multiset() =~= views_of(s2).to_multiset().remove(x@).insert(x@));
        assert(views_of(s2).to_multiset() =~= views_of(s2p).to_multiset().insert(x@));
        assert(views_of(s1).to_multiset() =~= views_of(s2).to_multiset());
    }
}

/// Builds the garbled table for `gate` from the four wire labels: each of
/// the 4 truth-table rows is padded and encrypted under its row key, and
/// the entries are then permuted at random. Exactly which position holds
/// which row is erased; what remains, and what the contract states, is
/// that the entries are exactly the four row ciphertexts as a multiset,
/// and that for every row some entry decrypts under that row's key to
/// that row's padded output bit. A gate outside the supported set is
/// rejected with `UnsupportedGate`; a failing entropy source during the
/// shuffle stops the build with `EntropySourceUnavailable`.
pub fn garbled_circuit(key: [[[u8; 16]; 2]; 2], gate: String) -> (r: Result<
    [[u8; 16]; 4],
    CryptoError,
>)
    ensures
        supported_gate(gate@) ==> (r matches Ok(t) ==> garbled_ok(key, gate@, t)),
        supported_gate(gate@) ==> (r matches Ok(t) ==> garbled_permutation(key, gate@, t)),
        supported_gate(gate@) ==> (r matches Err(e) ==> e
            == CryptoError::EntropySourceUnavailable),
        !supported_gate(gate@) ==> (r matches Err(e) && e == CryptoError::UnsupportedGate),
{
    let ghost gname = gate@;
    let tt = match truth_table(gate) {
        Ok(t) => t,
        Err(e) => {
            return Err(e);
        },
    };
    let mut entries: Vec<[u8; 16]> = Vec::new();
    let mut i: usize = 0;
    while i < 4
        invariant
            i <= 4,
            entries@.len() == i,
            supported_gate(gname),
            forall|k: int| 0 <= k < 4 ==> tt[k]@ =~= truth_row(gname, k),
            forall|k: int|
                0 <= k < i ==> aes_dec_of(row_key(key, k), entries@[k]@) == row_plain(gname, k),
            forall|k: int| 0 <= k < i ==> entries@[k]@ == #[trigger] row_cipher(key, gname, k),
        decreases 4 - i,
    {
        let ia = i / 2;
        let ib = i % 2;
        let ka = key[0][ia];
        let kb = key[1][ib];
        let ek = key_derivation(ka, kb);
        let pb = pad(tt[i][2]);
        let entry = encryption(ek, pb);
        entries.push(entry);
        proof {
            assert(tt[i as int]@ =~= truth_row(gname, i as int));
            assert(truth_row(gname, i as int)[2] == gate_out(gname, row_input_a(i as int),
                row_input_b(i as int)));
            assert(tt[i as int]@[2] == gate_out(gname, row_input_a(i as int), row_input_b(
                i as int,
            )));
            assert(aes_dec_of(row_key(key, i as int), entry@) == row_plain(gname, i as int));
            assert(entry@ == row_cipher(key, gname, i as int));
        }
        i = i + 1;
    }
    let ghost before = entries@;
    match shuffle(&mut entries) {
        Ok(_) => {},
        Err(e) => {
            return Err(e);
        },
    };
    let out = [entries[0], entries[1], entries[2], entries[3]];
    proof {
        broadcast use vstd::seq_lib::group_to_multiset_ensures;

        let after = entries@;
        assert(forall|j: int| 0 <= j < 4 ==> out[j] == after[j]);
        assert forall|k: int| 0 <= k < 4 implies exists|j: int|
            0 <= j < 4 && aes_dec_of(#[trigger] row_key(key, k), out[j]@) == row_plain(
                gname,
                k,
            ) by {
            assert(before.contains(before[k]));
            assert(after.to_multiset().count(before[k]) > 0);
            assert(after.contains(before[k]));
            let j = choose|j: int| 0 <= j < after.len() && after[j] == before[k];
            assert(aes_dec_of(row_key(key, k), out[j]@) == row_plain(gname, k));
        };
        assert(garbled_ok(key, gname, out));
        lemma_view_multiset(before, after);
        assert(views_of(before) =~= seq![
            row_cipher(key, gname, 0),
            row_cipher(key, gname, 1),
            row_cipher(key, gname, 2),
            row_cipher(key, gname, 3),
        ]);
        assert(views_of(after) =~= seq![out[0]@, out[1]@, out[2]@, out[3]@]);
        assert(garbled_permutation(key, gname, out));
    }
    Ok(out)
}

} // verus!
