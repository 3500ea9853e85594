use circuit::generate_random_keys;
use circuit::shuffle;

#[test]
fn shuffle_is_a_permutation() {
    for n in 1..12usize {
        let mut v: Vec<u32> = (0..n as u32).collect();
        shuffle(&mut v).unwrap();
        assert_eq!(v.len(), n);
        let mut sorted = v.clone();
        sorted.sort();
        let expected: Vec<u32> = (0..n as u32).collect();
        assert_eq!(sorted, expected);
    }
}

#[test]
fn shuffle_keeps_duplicates() {
    let mut v: Vec<u8> = vec![3, 3, 7, 7, 7];
    shuffle(&mut v).unwrap();
    let mut sorted = v.clone();
    sorted.sort();
    assert_eq!(sorted, vec![3, 3, 7, 7, 7]);
}

#[test]
fn shuffle_single_element() {
    let mut v: Vec<u8> = vec![42];
    shuffle(&mut v).unwrap();
    assert_eq!(v, vec![42]);
}

#[test]
fn generated_labels_are_distinct() {
    let keys = generate_random_keys().unwrap();
    assert_ne!(keys[0][0], keys[0][1]);
    assert_ne!(keys[1][0], keys[1][1]);
    assert_ne!(keys[0][0], keys[1][0]);
}

#[test]
fn generated_labels_are_filled() {
    let keys = generate_random_keys().unwrap();
    let other = generate_random_keys().unwrap();
    assert_ne!(keys[0][0], [0u8; 16]);
    assert_ne!(keys[0][0], other[0][0]);
}
