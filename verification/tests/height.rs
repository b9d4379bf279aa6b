use clarity::Uint256;
use orchestrator::height::BlockHeight;

#[test]
fn from_u64_fills_the_low_limb() {
    let h = BlockHeight::from_u64(1000);
    assert_eq!(h.hi, 0);
    assert_eq!(h.lo, 1000);
    assert_eq!(h, BlockHeight::from_limbs(0, 1000));
}

#[test]
fn to_u64_returns_what_fits() {
    assert_eq!(BlockHeight::from_u64(0).to_u64(), Some(0));
    assert_eq!(BlockHeight::from_u64(u64::MAX).to_u64(), Some(u64::MAX));
    assert_eq!(BlockHeight::from_limbs(0, u64::MAX as u128 + 1).to_u64(), None);
    assert_eq!(BlockHeight::from_limbs(1, 5).to_u64(), None);
}

#[test]
fn is_below_is_the_order_of_the_numbers() {
    let small = BlockHeight::from_limbs(0, u128::MAX);
    let large = BlockHeight::from_limbs(1, 0);
    assert!(small.is_below(&large));
    assert!(!large.is_below(&small));
    assert!(!small.is_below(&small));
    assert!(BlockHeight::from_u64(7).is_below(&BlockHeight::from_u64(8)));
    assert!(!BlockHeight::from_u64(8).is_below(&BlockHeight::from_u64(7)));
}

#[test]
fn is_at_most_includes_equality() {
    let small = BlockHeight::from_limbs(0, u128::MAX);
    let large = BlockHeight::from_limbs(1, 0);
    assert!(small.is_at_most(&large));
    assert!(small.is_at_most(&small));
    assert!(!large.is_at_most(&small));
}

#[test]
fn derived_order_agrees_with_is_below() {
    let heights = [
        BlockHeight::from_limbs(0, 0),
        BlockHeight::from_limbs(0, 9),
        BlockHeight::from_limbs(0, u128::MAX),
        BlockHeight::from_limbs(1, 0),
        BlockHeight::from_limbs(u128::MAX, u128::MAX),
    ];
    for a in heights {
        for b in heights {
            assert_eq!(a < b, a.is_below(&b));
            assert_eq!(a <= b, a.is_at_most(&b));
        }
    }
}

#[test]
fn successor_adds_one() {
    assert_eq!(BlockHeight::from_u64(1049).successor(), Some(BlockHeight::from_u64(1050)));
}

#[test]
fn successor_carries_into_the_high_limb() {
    assert_eq!(
        BlockHeight::from_limbs(4, u128::MAX).successor(),
        Some(BlockHeight::from_limbs(5, 0))
    );
}

#[test]
fn successor_of_the_largest_height_is_none() {
    assert_eq!(BlockHeight::from_limbs(u128::MAX, u128::MAX).successor(), None);
}

#[test]
fn from_be_bytes_reads_most_significant_byte_first() {
    let mut bytes = [0u8; 32];
    bytes[30] = 0x03;
    bytes[31] = 0xe8;
    assert_eq!(BlockHeight::from_be_bytes(bytes), BlockHeight::from_u64(1000));
    let mut bytes = [0u8; 32];
    bytes[15] = 1;
    assert_eq!(BlockHeight::from_be_bytes(bytes), BlockHeight::from_limbs(1, 0));
    let mut bytes = [0u8; 32];
    bytes[0] = 0x80;
    bytes[16] = 0x01;
    assert_eq!(BlockHeight::from_be_bytes(bytes), BlockHeight::from_limbs(1 << 127, 1 << 120));
}

#[test]
fn to_be_bytes_writes_most_significant_byte_first() {
    let mut expected = [0u8; 32];
    expected[30] = 0x04;
    expected[31] = 0x1a;
    assert_eq!(BlockHeight::from_u64(1050).to_be_bytes(), expected);
    let mut expected = [0u8; 32];
    expected[15] = 2;
    expected[31] = 3;
    assert_eq!(BlockHeight::from_limbs(2, 3).to_be_bytes(), expected);
    assert_eq!(BlockHeight::from_limbs(u128::MAX, u128::MAX).to_be_bytes(), [0xffu8; 32]);
}

#[test]
fn bytes_round_trip() {
    let heights = [
        BlockHeight::from_limbs(0, 0),
        BlockHeight::from_limbs(0, 0x0102_0304_0506_0708_090a_0b0c_0d0e_0f10),
        BlockHeight::from_limbs(0x1112_1314_1516_1718_191a_1b1c_1d1e_1f20, 7),
        BlockHeight::from_limbs(u128::MAX, u128::MAX),
    ];
    for h in heights {
        assert_eq!(BlockHeight::from_be_bytes(h.to_be_bytes()), h);
    }
}

#[test]
fn bytes_agree_with_a_256_bit_number() {
    let n = Uint256::from(1000u64);
    assert_eq!(BlockHeight::from_be_bytes(n.to_be_bytes()), BlockHeight::from_u64(1000));
    let back = Uint256::from(BlockHeight::from_u64(1050).to_be_bytes());
    assert_eq!(back, Uint256::from(1050u64));
    let big = Uint256::from(u128::MAX) + Uint256::from(1u8);
    assert_eq!(BlockHeight::from_be_bytes(big.to_be_bytes()), BlockHeight::from_limbs(1, 0));
    assert_eq!(Uint256::from(BlockHeight::from_limbs(1, 0).to_be_bytes()), big);
}
