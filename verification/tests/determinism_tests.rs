use proofsheet::determinism::preamble_script;

#[test]
fn preamble_embeds_its_settings() {
    let js = preamble_script(7, 1_750_000_000_000, "16.666666666666668");
    assert!(js.contains("let s = 7 >>> 0"));
    assert!(js.contains("const T0 = 1750000000000"));
    assert!(js.contains("const FRAME = 16.666666666666668;"));
}

#[test]
fn preamble_overrides_every_known_entropy_source() {
    let js = preamble_script(42, 1_750_000_000_000, "16.666666666666668");
    for sym in ["Math.random", "Date.now", "performance.now", "requestAnimationFrame", "getRandomValues"] {
        assert!(js.contains(sym), "preamble does not override {sym}");
    }
    assert!(js.starts_with("(() => {\n  let s = 42 >>> 0;\n"));
    assert!(js.ends_with("}\n})();"));
}

#[test]
fn preamble_writes_a_negative_instant_with_its_sign() {
    assert!(preamble_script(0, -5, "1").contains("const T0 = -5;"));
    assert!(preamble_script(0, i64::MIN, "1").contains("const T0 = -9223372036854775808;"));
    assert!(preamble_script(u64::MAX, 0, "1").contains("let s = 18446744073709551615 >>> 0"));
}

#[test]
fn different_seeds_give_different_preambles() {
    let a = preamble_script(1, 0, "16");
    let b = preamble_script(12, 0, "16");
    assert_ne!(a, b);
    assert_eq!(a, preamble_script(1, 0, "16"));
}
