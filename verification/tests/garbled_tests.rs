use circuit::CryptoError;
use circuit::decryption;
use circuit::garbled_circuit;
use circuit::key_derivation;
use circuit::unpad;

fn labels() -> [[[u8; 16]; 2]; 2] {
    [
        [[0x11u8; 16], [0x22u8; 16]],
        [[0x33u8; 16], [0x44u8; 16]],
    ]
}

fn decrypt_rows(table: &[[u8; 16]; 4], key: [u8; 16]) -> Vec<u8> {
    let mut bits = Vec::new();
    for entry in table.iter() {
        if let Some(bit) = unpad(decryption(key, *entry)) {
            bits.push(bit);
        }
    }
    bits
}

#[test]
fn garbled_xor_end_to_end() {
    let key = labels();
    let table = garbled_circuit(key, String::from("XOR")).unwrap();
    for bit_a in 0..2usize {
        for bit_b in 0..2usize {
            let row_key = key_derivation(key[0][bit_a], key[1][bit_b]);
            let bits = decrypt_rows(&table, row_key);
            assert_eq!(bits, vec![(bit_a ^ bit_b) as u8]);
        }
    }
}

#[test]
fn garbled_and_end_to_end() {
    let key = labels();
    let table = garbled_circuit(key, String::from("AND")).unwrap();
    for bit_a in 0..2usize {
        for bit_b in 0..2usize {
            let row_key = key_derivation(key[0][bit_a], key[1][bit_b]);
            let bits = decrypt_rows(&table, row_key);
            assert_eq!(bits, vec![(bit_a & bit_b) as u8]);
        }
    }
}

#[test]
fn garbled_unknown_gate() {
    assert_eq!(
        garbled_circuit(labels(), String::from("NOR")),
        Err(CryptoError::UnsupportedGate)
    );
}

#[test]
fn example_scenario_xor_one_zero() {
    let key = labels();
    let table = garbled_circuit(key, String::from("XOR")).unwrap();
    let row_key = key_derivation(key[0][1], key[1][0]);
    let mut valid = 0;
    let mut value = None;
    for entry in table.iter() {
        if let Some(bit) = unpad(decryption(row_key, *entry)) {
            valid += 1;
            value = Some(bit);
        }
    }
    assert_eq!(valid, 1);
    assert_eq!(value, Some(1));
}

#[test]
fn wrong_key_opens_no_row() {
    let key = labels();
    let table = garbled_circuit(key, String::from("XOR")).unwrap();
    let stray_key = key_derivation([0x55u8; 16], [0x66u8; 16]);
    assert_eq!(decrypt_rows(&table, stray_key), Vec::<u8>::new());
}
