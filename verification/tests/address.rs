use key_generator::address::Address;

#[test]
fn address_from_twenty_bytes() {
    let mut bytes = [0u8; 20];
    bytes[3] = 1;
    bytes[19] = 2;
    assert_eq!(Address::from_bytes(&bytes), Some(Address::new(1, 2)));

    let bytes: Vec<u8> = (1..=20).collect();
    assert_eq!(
        Address::from_bytes(&bytes),
        Some(Address::new(0x01020304, 0x05060708090a0b0c0d0e0f1011121314))
    );
    assert_eq!(Address::from_bytes(&[0xff; 20]), Some(Address::new(u32::MAX, u128::MAX)));
    assert_eq!(Address::from_bytes(&[0; 20]), Some(Address::new(0, 0)));
}

#[test]
fn address_from_other_lengths_is_none() {
    assert_eq!(Address::from_bytes(&[]), None);
    assert_eq!(Address::from_bytes(&[1; 19]), None);
    assert_eq!(Address::from_bytes(&[1; 21]), None);
}

#[test]
fn address_order_follows_bytes() {
    let mut low = [0u8; 20];
    low[19] = 0xff;
    let mut high = [0u8; 20];
    high[0] = 1;
    let low = Address::from_bytes(&low).unwrap();
    let high = Address::from_bytes(&high).unwrap();
    assert!(low.is_before(&high));
    assert!(!high.is_before(&low));
}
