use token_purchaser::uint::Uint256;

#[test]
fn from_u128_is_big_endian() {
    let bytes = Uint256::from_u128(1000).to_be_bytes();
    let mut expected = [0u8; 32];
    expected[30] = 0x03;
    expected[31] = 0xe8;
    assert_eq!(bytes, expected);
}

#[test]
fn from_u128_fills_the_low_half() {
    let x: u128 = 0x0102030405060708090a0b0c0d0e0f10;
    let bytes = Uint256::from_u128(x).to_be_bytes();
    assert_eq!(bytes[..16], [0u8; 16]);
    assert_eq!(bytes[16..], x.to_be_bytes());
    let bytes = Uint256::from_u128(u128::MAX).to_be_bytes();
    assert_eq!(bytes[..16], [0u8; 16]);
    assert_eq!(bytes[16..], [0xffu8; 16]);
}

#[test]
fn from_u8_is_the_last_byte() {
    let bytes = Uint256::from_u8(6).to_be_bytes();
    let mut expected = [0u8; 32];
    expected[31] = 6;
    assert_eq!(bytes, expected);
    assert_eq!(Uint256::from_u8(200), Uint256::from_u128(200));
}

#[test]
fn zero_is_all_zero_bytes() {
    assert_eq!(Uint256::zero().to_be_bytes(), [0u8; 32]);
    assert_eq!(Uint256::zero(), Uint256::from_u128(0));
    assert_eq!(Uint256::zero(), Uint256::from_u8(0));
}

#[test]
fn bytes_come_back_unchanged() {
    let mut bytes = [0u8; 32];
    for i in 0..32 {
        bytes[i] = (7 * i + 3) as u8;
    }
    assert_eq!(Uint256::from_be_bytes(bytes).to_be_bytes(), bytes);
}

#[test]
fn fits_counts_binary_digits() {
    assert!(Uint256::zero().fits(0));
    assert!(!Uint256::from_u8(1).fits(0));
    assert!(Uint256::from_u8(1).fits(1));
    assert!(!Uint256::from_u8(2).fits(1));
    assert!(Uint256::from_u8(255).fits(8));
    assert!(!Uint256::from_u128(256).fits(8));
    assert!(Uint256::from_u128(256).fits(9));
    assert!(Uint256::from_u128(65535).fits(16));
    assert!(!Uint256::from_u128(65536).fits(16));
    assert!(Uint256::from_u128(u128::MAX).fits(128));
    assert!(!Uint256::from_u128(u128::MAX).fits(127));
    assert!(Uint256::from_u128(u128::MAX >> 1).fits(127));
}

#[test]
fn fits_looks_at_the_high_bytes() {
    let mut bytes = [0u8; 32];
    bytes[0] = 0x80;
    let top = Uint256::from_be_bytes(bytes);
    assert!(!top.fits(255));
    assert!(top.fits(256));
    assert!(top.fits(300));
    assert!(top.fits(usize::MAX));
    let mut bytes = [0u8; 32];
    bytes[15] = 1;
    let above = Uint256::from_be_bytes(bytes);
    assert!(!above.fits(128));
    assert!(above.fits(129));
    let mut bytes = [0u8; 32];
    bytes[0] = 0x7f;
    assert!(Uint256::from_be_bytes(bytes).fits(255));
    assert!(!Uint256::from_be_bytes(bytes).fits(254));
    assert!(Uint256::from_be_bytes([0xff; 32]).fits(256));
    assert!(!Uint256::from_be_bytes([0xff; 32]).fits(255));
}
