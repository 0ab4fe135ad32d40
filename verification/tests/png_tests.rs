use proofsheet::error::Error;
use proofsheet::png::dimensions;

const MAGIC: [u8; 8] = [0x89, b'P', b'N', b'G', 0x0D, 0x0A, 0x1A, 0x0A];

fn header(w: u32, h: u32) -> Vec<u8> {
    let mut v = Vec::new();
    v.extend_from_slice(&MAGIC);
    v.extend_from_slice(&13u32.to_be_bytes());
    v.extend_from_slice(b"IHDR");
    v.extend_from_slice(&w.to_be_bytes());
    v.extend_from_slice(&h.to_be_bytes());
    v
}

#[test]
fn reads_dimensions() {
    assert_eq!(dimensions(&header(1290, 2796)).unwrap(), (1290, 2796));
}

#[test]
fn rejects_non_png() {
    let mut bad = header(1, 1);
    bad[1] = b'X';
    assert!(dimensions(&bad).is_err());
}

#[test]
fn rejects_truncated() {
    assert!(dimensions(&[0u8; 10]).is_err());
}

#[test]
fn each_png_rejection_has_its_message() {
    match dimensions(&[0u8; 10]) {
        Err(Error::Shape(m)) => assert_eq!(m, "png too short: 10 bytes"),
        other => panic!("unexpected {other:?}"),
    }
    let mut bad = header(1, 1);
    bad[0] = 0;
    match dimensions(&bad) {
        Err(Error::Shape(m)) => assert_eq!(m, "not a png (bad magic)"),
        other => panic!("unexpected {other:?}"),
    }
    let mut chunk = header(1, 1);
    chunk[12] = b'X';
    match dimensions(&chunk) {
        Err(Error::Shape(m)) => assert_eq!(m, "first chunk is not IHDR"),
        other => panic!("unexpected {other:?}"),
    }
}

#[test]
fn large_dimensions_survive_big_endian_decoding() {
    let mut v = header(0xFFFF_FFFF, 0x0102_0304);
    v.extend_from_slice(&[1, 2, 3]);
    assert_eq!(dimensions(&v).unwrap(), (0xFFFF_FFFF, 0x0102_0304));
}
