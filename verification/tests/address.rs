use wybe_core::address::Address;

#[test]
fn addresses_with_the_same_bytes_are_equal() {
    let mut bytes = [0u8; 32];
    for (i, b) in bytes.iter_mut().enumerate() {
        *b = i as u8;
    }
    assert_eq!(Address::new(bytes), Address::new(bytes));
    assert_eq!(Address::new(bytes).to_bytes(), bytes);
}

#[test]
fn addresses_differing_in_one_byte_are_different() {
    let base = Address::new([7u8; 32]);
    for i in 0..32 {
        let mut bytes = [7u8; 32];
        bytes[i] = 8;
        assert_ne!(Address::new(bytes), base);
        assert_ne!(base, Address::new(bytes));
    }
}

#[test]
fn the_zero_address_is_all_zero() {
    assert_eq!(Address::zero().to_bytes(), [0u8; 32]);
    assert_eq!(Address::zero(), Address::new([0u8; 32]));
}
