use evm_core::word::Word;

#[test]
fn test_word_byte_access() {
    let w = Word::from_u64(0x1122_3344_5566_7788);
    assert_eq!(w.byte(0), 0x88);
    assert_eq!(w.byte(1), 0x77);
    assert_eq!(w.byte(7), 0x11);
    assert_eq!(w.byte(8), 0);
    assert_eq!(w.byte(31), 0);
}

#[test]
fn test_word_with_byte_roundtrip() {
    let w = Word::from_u64(0x1122_3344_5566_7788);
    let updated = w.with_byte(31, 0xab);
    assert_eq!(updated.byte(31), 0xab);
    // Every other byte is unchanged.
    assert_eq!(updated.byte(0), 0x88);
    assert_eq!(updated.byte(7), 0x11);
    assert_eq!(updated.byte(30), 0);
    let again = updated.with_byte(0, 0xcd);
    assert_eq!(again.byte(0), 0xcd);
    assert_eq!(again.byte(31), 0xab);
}

#[test]
fn test_word_is_zero() {
    assert!(Word::zero().is_zero());
    assert!(Word::from_u64(0).is_zero());
    assert!(!Word::from_u64(1).is_zero());
    assert!(!Word::zero().with_byte(20, 1).is_zero());
}

#[test]
fn test_word_byte_len() {
    assert_eq!(Word::zero().byte_len(), 0);
    assert_eq!(Word::from_u64(1).byte_len(), 1);
    assert_eq!(Word::from_u64(255).byte_len(), 1);
    assert_eq!(Word::from_u64(256).byte_len(), 2);
    assert_eq!(Word::from_u64(u64::MAX).byte_len(), 8);
    // A nonzero byte above the low limb raises the length.
    assert_eq!(Word::zero().with_byte(8, 1).byte_len(), 9);
    assert_eq!(Word::zero().with_byte(31, 1).byte_len(), 32);
}

#[test]
fn test_word_equality() {
    assert_eq!(Word::from_u64(42), Word::from_u64(42));
    assert_ne!(Word::from_u64(42), Word::from_u64(43));
    assert_ne!(Word::from_u64(1), Word::zero().with_byte(8, 1));
}
