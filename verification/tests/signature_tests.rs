use livesplit_auto_splitting::signature::Signature;

#[test]
fn scan_finds_match_with_wildcard() {
    let sig = Signature::new("DE ?? BE EF");
    let buf = [0xDEu8, 0xAD, 0xBE, 0xEF, 0x41, 0x42, 0x43];
    assert_eq!(sig.scan(&buf), Some(0));
}

#[test]
fn scan_misses_absent_pattern() {
    let sig = Signature::new("CA FE");
    let buf = [0xDEu8, 0xAD, 0xBE, 0xEF, 0x41, 0x42, 0x43];
    assert_eq!(sig.scan(&buf), None);
}

#[test]
fn scan_finds_interior_match() {
    let sig = Signature::new("41 42");
    let buf = [0xDEu8, 0xAD, 0xBE, 0xEF, 0x41, 0x42, 0x43];
    assert_eq!(sig.scan(&buf), Some(4));
}

#[test]
fn scan_returns_first_of_several_matches() {
    let sig = Signature::new("AB ?? CD");
    let buf = [0x00u8, 0xAB, 0x11, 0xCD, 0xAB, 0x22, 0xCD];
    assert_eq!(sig.scan(&buf), Some(1));
}

#[test]
fn empty_signature_never_matches() {
    let sig = Signature::new("");
    let buf = [0x01u8, 0x02, 0x03];
    assert_eq!(sig.scan(&buf), None);
    assert_eq!(sig.scan(&[]), None);
}

#[test]
fn all_wildcard_signature_matches_at_zero() {
    let sig = Signature::new("?? ??");
    let buf = [0x10u8, 0x20, 0x30];
    assert_eq!(sig.scan(&buf), Some(0));
}

#[test]
fn pattern_longer_than_buffer_never_matches() {
    let sig = Signature::new("01 02 03 04");
    let buf = [0x01u8, 0x02, 0x03];
    assert_eq!(sig.scan(&buf), None);
}

#[test]
fn single_wildcard_nibble_is_concrete() {
    // A byte with one `?` nibble is not a wildcard: `?A` keeps only the
    // low nibble and must match the byte 0x0A exactly.
    let sig = Signature::new("?A");
    assert_eq!(sig.scan(&[0x0Au8]), Some(0));
    assert_eq!(sig.scan(&[0xAAu8]), None);
}

#[test]
fn whitespace_and_other_characters_are_ignored() {
    let spaced = Signature::new("  4142 ");
    let buf = [0x41u8, 0x42];
    assert_eq!(spaced.scan(&buf), Some(0));
    let noisy = Signature::new("41x42zz");
    assert_eq!(noisy.scan(&buf), Some(0));
}

#[test]
fn trailing_unpaired_nibble_is_dropped() {
    let sig = Signature::new("41 4");
    let buf = [0x41u8, 0x42];
    assert_eq!(sig.scan(&buf), Some(0));
}
