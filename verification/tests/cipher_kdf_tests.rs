use circuit::decryption;
use circuit::encryption;
use circuit::key_derivation;

#[test]
fn cipher_round_trip() {
    let key: [u8; 16] = [
        0x2b, 0x7e, 0x15, 0x16, 0x28, 0xae, 0xd2, 0xa6, 0xab, 0xf7, 0x15, 0x88, 0x09, 0xcf, 0x4f,
        0x3c,
    ];
    let block: [u8; 16] = [
        0x32, 0x43, 0xf6, 0xa8, 0x88, 0x5a, 0x30, 0x8d, 0x31, 0x31, 0x98, 0xa2, 0xe0, 0x37, 0x07,
        0x34,
    ];
    assert_eq!(decryption(key, encryption(key, block)), block);
}

#[test]
fn cipher_round_trip_trivial_inputs() {
    let key = [0u8; 16];
    let block = [0u8; 16];
    assert_eq!(decryption(key, encryption(key, block)), block);
}

#[test]
fn encryption_changes_block() {
    let key = [5u8; 16];
    let block = [1u8; 16];
    assert_ne!(encryption(key, block), block);
}

#[test]
fn wrong_key_does_not_decrypt() {
    let key = [5u8; 16];
    let other = [6u8; 16];
    let block = [1u8; 16];
    assert_ne!(decryption(other, encryption(key, block)), block);
}

#[test]
fn kdf_deterministic() {
    let a = [0x11u8; 16];
    let b = [0x33u8; 16];
    assert_eq!(key_derivation(a, b), key_derivation(a, b));
}

#[test]
fn kdf_order_sensitive() {
    let a = [0x11u8; 16];
    let b = [0x33u8; 16];
    assert_ne!(key_derivation(a, b), key_derivation(b, a));
}

#[test]
fn kdf_not_identity() {
    let a = [0x11u8; 16];
    let b = [0x33u8; 16];
    let derived = key_derivation(a, b);
    assert_ne!(derived, a);
    assert_ne!(derived, b);
}
