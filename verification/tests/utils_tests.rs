use cpc_emu::utils::{combine_to_double_byte, nibbles, signed, split_double_byte};

#[test]
fn test_split_double_byte() {
    let (high, low) = split_double_byte(0xABEF);
    assert!(high == 0xAB);
    assert!(low == 0xEF);
}

#[test]
fn test_signed() {
    let signed_3 = signed(3);
    assert!(signed_3 == 3);
    let signed_minus_5 = signed(0xFB);
    assert!(signed_minus_5 == -5);
}

#[test]
fn nibbles_split_a_byte() {
    assert_eq!(nibbles(0xA7), (0xA, 0x7));
    assert_eq!(nibbles(0x00), (0x0, 0x0));
    assert_eq!(nibbles(0xFF), (0xF, 0xF));
}

#[test]
fn combine_and_split_round_trip() {
    assert_eq!(combine_to_double_byte(0xAB, 0xEF), 0xABEF);
    let (high, low) = split_double_byte(combine_to_double_byte(0x12, 0x34));
    assert_eq!((high, low), (0x12, 0x34));
}
