//! Cryptographic core of a two-party garbled-gate protocol: a padding codec,
//! a SHAKE128-based key-derivation function, an AES-128 block-cipher wrapper,
//! truth-table generation, secure wire-label generation, a Fisher-Yates
//! shuffle, garbled-table construction, and a Diffie-Hellman-based 1-out-of-2
//! oblivious transfer.

pub mod bigmod;
pub mod cipher;
pub mod codec;
pub mod errors;
pub mod garble;
pub mod kdf;
pub mod ot;
pub mod rng;
pub mod shuffle;
pub mod truth;

pub use cipher::decryption;
pub use cipher::encryption;
pub use codec::pad;
pub use codec::unpad;
pub use errors::CryptoError;
pub use garble::garbled_circuit;
pub use kdf::key_derivation;
pub use ot::oblivious_transfer;
pub use rng::generate_random_keys;
pub use shuffle::shuffle;
pub use truth::truth_table;
