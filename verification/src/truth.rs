//! Truth tables: a pure lookup of the 4-row boolean table
//! for a requested gate kind. Row order is fixed as (0,0),(0,1),(1,0),(1,1)
//! to match the `i -> (i >> 1, i & 1)` label-selection scheme of the
//! garbled-table builder.

use vstd::prelude::*;
use crate::errors::CryptoError;

verus! {

/// The first input bit of truth-table row `i`.
pub open spec fn row_input_a(i: int) -> u8 {
    if i >= 2 {
        1u8
    } else {
        0u8
    }
}

/// The second input bit of truth-table row `i`.
pub open spec fn row_input_b(i: int) -> u8 {
    if i % 2 == 1 {
        1u8
    } else {
        0u8
    }
}

/// The AND of two bits.
pub open spec fn and_bit(a: u8, b: u8) -> u8 {
    if a == 1 && b == 1 {
        1u8
    } else {
        0u8
    }
}

/// The XOR of two bits.
pub open spec fn xor_bit(a: u8, b: u8) -> u8 {
    if a == b {
        0u8
    } else {
        1u8
    }
}

/// Whether a gate name is one of the two known kinds.
pub open spec fn supported_gate(gate: Seq<char>) -> bool {
    gate == "AND"@ || gate == "XOR"@
}

/// The output bit of the supported gate named `gate` on two input bits.
pub open spec fn gate_out(gate: Seq<char>, a: u8, b: u8) -> u8
    recommends
        supported_gate(gate),
{
    if gate == "AND"@ {
        and_bit(a, b)
    } else {
        xor_bit(a, b)
    }
}

/// Row `i` of the truth table for `gate`: the two input bits, then the
/// gate's output bit on them.
pub open spec fn truth_row(gate: Seq<char>, i: int) -> Seq<u8> {
    seq![
        row_input_a(i),
        row_input_b(i),
        gate_out(gate, row_input_a(i), row_input_b(i)),
    ]
}

/// What a returned table holds: row `i` is exactly row `i` of the
/// mathematical truth table of `gate`.
pub open spec fn truth_table_ok(gate: Seq<char>, t: [[u8; 3]; 4]) -> bool {
    forall|i: int| 0 <= i < 4 ==> t[i]@ =~= truth_row(gate, i)
}

/// The 4-row truth table for the named gate, each row holding the
/// two input bits and the output bit, in the fixed row order
/// (0,0),(0,1),(1,0),(1,1). Any gate name outside the supported set is
/// rejected with `UnsupportedGate`.
pub fn truth_table(gate: String) -> (r: Result<[[u8; 3]; 4], CryptoError>)
    ensures
        supported_gate(gate@) ==> (r matches Ok(t) && truth_table_ok(gate@, t)),
        !supported_gate(gate@) ==> (r matches Err(e) && e == CryptoError::UnsupportedGate),
{
    proof {
        reveal_strlit("AND");
        reveal_strlit("XOR");
    }
    let and_name: String = "AND".to_owned();
    let xor_name: String = "XOR".to_owned();
    if gate == and_name {
        let t: [[u8; 3]; 4] = [
            [0u8, 0u8, 0u8],
            [0u8, 1u8, 0u8],
            [1u8, 0u8, 0u8],
            [1u8, 1u8, 1u8],
        ];
        proof {
            assert(t[0]@ =~= truth_row(gate@, 0));
            assert(t[1]@ =~= truth_row(gate@, 1));
            assert(t[2]@ =~= truth_row(gate@, 2));
            assert(t[3]@ =~= truth_row(gate@, 3));
            assert(truth_table_ok(gate@, t));
        }
        Ok(t)
    } else if gate == xor_name {
        let t: [[u8; 3]; 4] = [
            [0u8, 0u8, 0u8],
            [0u8, 1u8, 1u8],
            [1u8, 0u8, 1u8],
            [1u8, 1u8, 0u8],
        ];
        proof {
            assert(t[0]@ =~= truth_row(gate@, 0));
            assert(t[1]@ =~= truth_row(gate@, 1));
            assert(t[2]@ =~= truth_row(gate@, 2));
            assert(t[3]@ =~= truth_row(gate@, 3));
            assert(truth_table_ok(gate@, t));
        }
        Ok(t)
    } else {
        Err(CryptoError::UnsupportedGate)
    }
}

} // verus!
