use nvdec_pipeline::version::is_newer;

#[test]
fn test_is_newer() {
    assert!(is_newer("0.3.0", "0.2.0"));
    assert!(is_newer("1.0.0", "0.9.9"));
    assert!(is_newer("0.2.1", "0.2.0"));
    assert!(!is_newer("0.2.0", "0.2.0"));
    assert!(!is_newer("0.1.0", "0.2.0"));
}

#[test]
fn non_numeric_pieces_are_skipped() {
    // "1.x.2" reads as 1.2.0
    assert!(is_newer("1.x.2", "1.1.9"));
    assert!(!is_newer("1.x.2", "1.2.0"));
    assert!(is_newer("+2", "1.9.9"));
    assert!(!is_newer("", "0.0.0"));
    assert!(is_newer("0.0.1", ""));
    // a piece too large for 32 bits is skipped
    assert!(!is_newer("99999999999.1", "1.0.0"));
    assert!(is_newer("4294967295", "4294967294"));
}
