use attestation_bridge::codec::fits_encoding;

#[test]
fn encoding_length_limit_is_exact() {
    let groups = usize::MAX / 4;
    assert!(fits_encoding(0));
    assert!(fits_encoding(1));
    assert!(fits_encoding(8192));
    assert!(fits_encoding(3 * groups));
    assert!(!fits_encoding(3 * groups + 1));
    assert!(!fits_encoding(usize::MAX));
    assert!(!fits_encoding(usize::MAX - 1));
    assert!(!fits_encoding(usize::MAX - 2));
}
