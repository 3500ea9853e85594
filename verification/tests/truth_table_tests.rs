use circuit::CryptoError;
use circuit::truth_table;

#[test]
fn truth_table_and() {
    let t = truth_table(String::from("AND")).unwrap();
    let expected: [[u8; 3]; 4] = [[0, 0, 0], [0, 1, 0], [1, 0, 0], [1, 1, 1]];
    assert_eq!(t, expected);
}

#[test]
fn truth_table_and_only_last_row_is_one() {
    let t = truth_table(String::from("AND")).unwrap();
    for row in 0..4 {
        let expected = if t[row][0] == 1 && t[row][1] == 1 { 1 } else { 0 };
        assert_eq!(t[row][2], expected);
    }
}

#[test]
fn truth_table_xor() {
    let t = truth_table(String::from("XOR")).unwrap();
    let expected: [[u8; 3]; 4] = [[0, 0, 0], [0, 1, 1], [1, 0, 1], [1, 1, 0]];
    assert_eq!(t, expected);
    for row in 0..4 {
        assert_eq!(t[row][2], t[row][0] ^ t[row][1]);
    }
}

#[test]
fn truth_table_unknown_gate() {
    assert_eq!(truth_table(String::from("NAND")), Err(CryptoError::UnsupportedGate));
    assert_eq!(truth_table(String::from("")), Err(CryptoError::UnsupportedGate));
    assert_eq!(truth_table(String::from("and")), Err(CryptoError::UnsupportedGate));
}
