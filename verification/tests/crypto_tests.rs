use ethereum_consensus::crypto::{hash, integer_square_root};

#[test]
fn integer_square_root_of_small_numbers() {
    assert_eq!(integer_square_root(0), 0);
    assert_eq!(integer_square_root(1), 1);
    assert_eq!(integer_square_root(3), 1);
    assert_eq!(integer_square_root(4), 2);
    assert_eq!(integer_square_root(80), 8);
    assert_eq!(integer_square_root(81), 9);
    assert_eq!(integer_square_root(u64::MAX), 4_294_967_295);
}

#[test]
fn hash_of_empty_input_is_the_known_digest() {
    let digest = hash(&[]);
    assert_eq!(digest[0], 0xe3);
    assert_eq!(digest[1], 0xb0);
    assert_eq!(digest[31], 0x55);
}
