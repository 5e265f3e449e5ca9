use lkbc_autosplitter::signature::{scan_first, Hit, PatternByte, Signature};

fn literal(bytes: &[u8]) -> Signature {
    Signature::new(bytes, &vec![0xFF; bytes.len()]).unwrap()
}

#[test]
fn literal_position_takes_its_own_byte_only() {
    let position = PatternByte::literal(0x48);
    assert_eq!(position, PatternByte { value: 0x48, mask: 0xFF });
    assert!(position.accepts(0x48));
    assert!(!position.accepts(0x49));
    assert!(!position.accepts(0x00));
}

#[test]
fn open_position_takes_every_byte() {
    let position = PatternByte::any();
    assert_eq!(position, PatternByte { value: 0, mask: 0 });
    for byte in [0x00u8, 0x01, 0x7F, 0x80, 0xFF] {
        assert!(position.accepts(byte));
    }
}

#[test]
fn half_open_position_fixes_one_half() {
    let position = PatternByte { value: 0x05, mask: 0x0F };
    assert!(position.accepts(0x05));
    assert!(position.accepts(0x35));
    assert!(position.accepts(0xF5));
    assert!(!position.accepts(0x06));
    assert!(!position.accepts(0x50));
}

#[test]
fn new_pairs_values_with_masks() {
    let signature = Signature::new(&[0x53, 0x00, 0x33], &[0xFF, 0x00, 0xFF]).unwrap();
    assert_eq!(
        signature.positions,
        vec![
            PatternByte { value: 0x53, mask: 0xFF },
            PatternByte { value: 0x00, mask: 0x00 },
            PatternByte { value: 0x33, mask: 0xFF },
        ]
    );
}

#[test]
fn new_refuses_lists_of_different_length() {
    assert_eq!(Signature::new(&[1, 2], &[0xFF]), None);
    assert_eq!(Signature::new(&[], &[0xFF]), None);
}

#[test]
fn matches_checks_one_offset() {
    let signature = literal(&[2, 3]);
    let haystack = [1u8, 2, 3, 4];
    assert!(!signature.matches(&haystack, 0));
    assert!(signature.matches(&haystack, 1));
    assert!(!signature.matches(&haystack, 2));
    assert!(!signature.matches(&haystack, 3));
    assert!(!signature.matches(&haystack, 4));
    assert!(!signature.matches(&haystack, usize::MAX));
}

#[test]
fn scan_returns_the_lowest_offset() {
    let signature = literal(&[0xAB, 0xCD]);
    let haystack = [0x00, 0xAB, 0xCD, 0x00, 0xAB, 0xCD];
    assert_eq!(signature.scan(&haystack), Some(1));
}

#[test]
fn scan_finds_a_match_at_the_start_and_at_the_end() {
    let signature = literal(&[7, 8]);
    assert_eq!(signature.scan(&[7, 8, 0, 0]), Some(0));
    assert_eq!(signature.scan(&[0, 0, 7, 8]), Some(2));
}

#[test]
fn scan_honours_open_positions() {
    let signature = Signature::new(&[0xA1, 0, 0, 0x53], &[0xFF, 0, 0, 0xFF]).unwrap();
    assert_eq!(signature.scan(&[0xA1, 0x11, 0x22, 0x54, 0xA1, 0x33, 0x44, 0x53]), Some(4));
}

#[test]
fn scan_of_an_empty_haystack_finds_nothing() {
    assert_eq!(literal(&[1]).scan(&[]), None);
    assert_eq!(scan_first(&[literal(&[1])], &[]), None);
}

#[test]
fn scan_of_a_pattern_longer_than_the_haystack_finds_nothing() {
    assert_eq!(literal(&[1, 2, 3]).scan(&[1, 2]), None);
}

#[test]
fn empty_pattern_occurs_nowhere() {
    let signature = Signature::new(&[], &[]).unwrap();
    assert_eq!(signature.scan(&[1, 2, 3]), None);
    assert_eq!(signature.scan(&[]), None);
    assert!(!signature.matches(&[1, 2, 3], 0));
}

#[test]
fn scan_without_a_match_finds_nothing() {
    assert_eq!(literal(&[9, 9]).scan(&[1, 2, 3, 9, 8, 9]), None);
}

#[test]
fn scan_first_prefers_the_earlier_pattern_over_the_lower_address() {
    let patterns = [literal(&[5, 5]), literal(&[1, 2])];
    let haystack = [1u8, 2, 0, 5, 5, 0, 5, 5];
    assert_eq!(scan_first(&patterns, &haystack), Some(Hit { pattern: 0, offset: 3 }));
}

#[test]
fn scan_first_falls_back_to_a_later_pattern() {
    let patterns = [literal(&[9, 9]), literal(&[8, 8]), literal(&[3, 4])];
    let haystack = [1u8, 2, 3, 4, 3, 4];
    assert_eq!(scan_first(&patterns, &haystack), Some(Hit { pattern: 2, offset: 2 }));
}

#[test]
fn scan_first_without_any_match_finds_nothing() {
    let patterns = [literal(&[9, 9]), literal(&[8, 8])];
    assert_eq!(scan_first(&patterns, &[1, 2, 3]), None);
    assert_eq!(scan_first(&[], &[1, 2, 3]), None);
}
