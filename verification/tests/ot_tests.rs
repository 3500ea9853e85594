use circuit::oblivious_transfer;
use circuit::ot::default_group_params;
use circuit::ot::ot_receiver_step1;
use circuit::ot::ot_receiver_step2;
use circuit::ot::ot_sender_step1;
use circuit::ot::ot_sender_step2;

#[test]
fn oblivious_transfer_bit_zero() {
    let m0 = [0xaau8; 16];
    let m1 = [0xbbu8; 16];
    assert_eq!(oblivious_transfer([m0, m1], 0).unwrap(), m0);
}

#[test]
fn oblivious_transfer_bit_one() {
    let m0 = [0xaau8; 16];
    let m1 = [0xbbu8; 16];
    assert_eq!(oblivious_transfer([m0, m1], 1).unwrap(), m1);
}

#[test]
fn oblivious_transfer_repeated() {
    let m0 = [0x01u8; 16];
    let m1 = [0x02u8; 16];
    for _ in 0..4 {
        assert_eq!(oblivious_transfer([m0, m1], 0).unwrap(), m0);
        assert_eq!(oblivious_transfer([m0, m1], 1).unwrap(), m1);
    }
}

#[test]
fn ot_roles_exchange_messages() {
    let m0 = [0x5au8; 16];
    let m1 = [0xc3u8; 16];
    for bit in 0..2u8 {
        let (sender, a_msg) = ot_sender_step1(default_group_params()).unwrap();
        let (receiver, b_msg) = ot_receiver_step1(default_group_params(), a_msg, bit).unwrap();
        let (e0, e1) = ot_sender_step2(&sender, &b_msg, m0, m1).unwrap();
        let recovered = ot_receiver_step2(&receiver, e0, e1);
        let expected = if bit == 0 { m0 } else { m1 };
        assert_eq!(recovered, expected);
    }
}

#[test]
fn sender_public_value_is_not_the_generator() {
    let (_, a_msg) = ot_sender_step1(default_group_params()).unwrap();
    assert_ne!(a_msg, vec![2u8]);
}
