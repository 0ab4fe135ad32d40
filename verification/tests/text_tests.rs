use proofsheet::codec::to_hex;
use proofsheet::text::{parse_unsigned_at, trim_bounds, u64_text};

#[test]
fn decimal_text() {
    assert_eq!(u64_text(0), "0");
    assert_eq!(u64_text(1750000000000), "1750000000000");
    assert_eq!(u64_text(u64::MAX), "18446744073709551615");
}

#[test]
fn unsigned_parsing_follows_str_parse() {
    let p = |s: &str, max: u64| parse_unsigned_at(&s.chars().collect::<Vec<_>>(), 0, max);
    assert_eq!(p("65535", 65535), Some(65535));
    assert_eq!(p("65536", 65535), None);
    assert_eq!(p("+12", 65535), Some(12));
    assert_eq!(p("+", 65535), None);
    assert_eq!(p("", 65535), None);
    assert_eq!(p("007", 65535), Some(7));
    assert_eq!(p(" 7", 65535), None);
}

#[test]
fn trimming_uses_unicode_white_space() {
    let cs: Vec<char> = "\u{3000}\t x y \u{a0}".chars().collect();
    let (a, b) = trim_bounds(&cs, 0, cs.len());
    assert_eq!(cs[a..b].iter().collect::<String>(), "x y");
}

#[test]
fn digests_render_as_lower_case_hex() {
    assert_eq!(to_hex(&[0x00, 0x0f, 0xa9, 0xff]), "000fa9ff");
    assert_eq!(to_hex(&[]), "");
}

#[test]
fn sha256_hex_is_the_known_digest() {
    assert_eq!(
        proofsheet::codec::sha256_hex(b"abc"),
        "ba7816bf8f01cfea414140de5dae2223b00361a396177a9cb410ff61f20015ad"
    );
    assert_eq!(
        proofsheet::codec::sha256_hex(b""),
        "e3b0c44298fc1c149afbf4c8996fb92427ae41e4649b934ca495991b7852b855"
    );
}
