// Helpers on byte strings.

use ashborn::bytes::{append, array_eq};

#[test]
fn arrays_are_compared_byte_by_byte() {
    let a = [7u8; 32];
    let mut b = a;
    assert!(array_eq(&a, &b));
    b[31] = 8;
    assert!(!array_eq(&a, &b));
    b[31] = 7;
    b[0] = 6;
    assert!(!array_eq(&a, &b));
    b[0] = 7;
    assert!(array_eq(&a, &b));
}

#[test]
fn arrays_of_any_length_are_compared() {
    let empty: [u8; 0] = [];
    assert!(array_eq(&empty, &empty));
    assert!(array_eq(&[1u8], &[1u8]));
    assert!(!array_eq(&[1u8], &[2u8]));
    let mut long = [0u8; 128];
    assert!(array_eq(&long, &[0u8; 128]));
    long[64] = 1;
    assert!(!array_eq(&long, &[0u8; 128]));
}

#[test]
fn append_adds_the_bytes_at_the_end() {
    let mut buffer = vec![1u8, 2, 3];
    append(&mut buffer, &[4, 5]);
    assert_eq!(buffer, vec![1, 2, 3, 4, 5]);
    append(&mut buffer, &[]);
    assert_eq!(buffer, vec![1, 2, 3, 4, 5]);

    let mut empty = Vec::new();
    append(&mut empty, &[9u8; 64]);
    assert_eq!(empty, vec![9u8; 64]);
}
