//! Secure shuffle: a Fisher-Yates permutation driven by the secure entropy
//! source. The garbled-table builder uses it to erase the correlation
//! between table position and truth-table row, so a statistical generator
//! would not do here.

use vstd::prelude::*;
use crate::errors::CryptoError;
use crate::rng::random_u32;

verus! {

/// Permutes the elements of `vec` in place by a Fisher-Yates walk, each
/// step drawing its index from the secure entropy source. Whatever the
/// source does, the result holds exactly the elements it started with;
/// a failing source stops the walk with `EntropySourceUnavailable`.
pub fn shuffle<T: Copy>(vec: &mut Vec<T>) -> (r: Result<(), CryptoError>)
    requires
        old(vec)@.len() >= 1,
    ensures
        final(vec)@.to_multiset() == old(vec)@.to_multiset(),
        final(vec)@.len() == old(vec)@.len(),
        r matches Err(e) ==> e == CryptoError::EntropySourceUnavailable,
{
    let n: usize = vec.len();
    let mut i: usize = 0;
    while i < n - 1
        invariant
            1 <= n == old(vec)@.len(),
            i <= n - 1,
            vec@.len() == n,
            vec@.to_multiset() == old(vec)@.to_multiset(),
        decreases n - 1 - i,
    {
        let rand = match random_u32() {
            Ok(v) => v,
            Err(_) => {
                return Err(CryptoError::EntropySourceUnavailable);
            },
        };
        // The remainder after division is less than the divisor, so
        // i <= j < n.
        let j = (rand as usize) % (n - i) + i;
        let ghost s0 = vec@;
        let tmp = vec[i];
        let vj = vec[j];
        vec.set(i, vj);
        vec.set(j, tmp);
        proof {
            broadcast use vstd::seq_lib::group_to_multiset_ensures;

            assert(s0.contains(s0[i as int]));
            assert(s0.contains(s0[j as int]));
            assert(vec@ == s0.update(i as int, s0[j as int]).update(j as int, s0[i as int]));
            assert(vec@.to_multiset() =~= s0.to_multiset());
        }
        i = i + 1;
    }
    Ok(())
}

} // verus!
