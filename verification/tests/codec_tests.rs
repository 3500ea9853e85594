use circuit::pad;
use circuit::unpad;

#[test]
fn pad_round_trip_zero() {
    assert_eq!(unpad(pad(0)), Some(0));
}

#[test]
fn pad_round_trip_one() {
    assert_eq!(unpad(pad(1)), Some(1));
}

#[test]
fn pad_exact_layout() {
    let block = pad(1);
    assert_eq!(block[0], 1);
    for i in 1..16 {
        assert_eq!(block[i], 15);
    }
    let expected: [u8; 16] = [0, 15, 15, 15, 15, 15, 15, 15, 15, 15, 15, 15, 15, 15, 15, 15];
    assert_eq!(pad(0), expected);
}

#[test]
fn unpad_rejects_one_bad_byte() {
    for bad in 1..16 {
        let mut block = pad(1);
        block[bad] = 14;
        assert_eq!(unpad(block), None);
    }
}

#[test]
fn unpad_rejects_all_bad_bytes() {
    let block = [7u8; 16];
    assert_eq!(unpad(block), None);
}

#[test]
fn unpad_returns_marker_byte() {
    let mut block = [15u8; 16];
    block[0] = 9;
    assert_eq!(unpad(block), Some(9));
}
