#[test]
fn version_is_populated() {
    assert!(!proofsheet::VERSION.is_empty());
}
