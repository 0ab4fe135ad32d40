use base64::Engine as _;
use proofsheet::error::Error;
use proofsheet::text::find_subslice;
use proofsheet::ws::{
    accept_for, check_handshake, encode_frame, handshake_request, random_bytes, read_frame,
    split_url, Assembler, Frame, Step, OP_BINARY, OP_CLOSE, OP_CONTINUATION, OP_PING, OP_PONG,
    OP_TEXT,
};

#[test]
fn rfc6455_accept_vector() {
    assert_eq!(accept_for("dGhlIHNhbXBsZSBub25jZQ=="), "s3pPLMBiTxaQ9kYGzzhZRbK+xOo=");
}

#[test]
fn url_splitting() {
    let (h, p, path) = split_url("ws://127.0.0.1:9222/devtools/page/AB12").unwrap();
    assert_eq!(h, "127.0.0.1");
    assert_eq!(p, 9222);
    assert_eq!(path, "/devtools/page/AB12");
}

#[test]
fn url_without_path_defaults_to_root() {
    let (h, p, path) = split_url("ws://localhost:1234").unwrap();
    assert_eq!((h.as_str(), p, path.as_str()), ("localhost", 1234, "/"));
}

#[test]
fn non_ws_scheme_is_rejected() {
    assert!(split_url("http://example.com/").is_err());
}

#[test]
fn url_without_port_defaults_to_80_and_bad_ports_are_rejected() {
    let (h, p, path) = split_url("ws://example.com/x").unwrap();
    assert_eq!((h.as_str(), p, path.as_str()), ("example.com", 80, "/x"));
    match split_url("ws://example.com:70000/") {
        Err(Error::Protocol(m)) => assert_eq!(m, "bad port in ws://example.com:70000/"),
        other => panic!("unexpected {other:?}"),
    }
    match split_url("wss://example.com/") {
        Err(Error::Protocol(m)) => assert_eq!(m, "only ws:// is supported, got wss://example.com/"),
        other => panic!("unexpected {other:?}"),
    }
}

#[test]
fn subslice_search() {
    assert_eq!(find_subslice(b"abc\r\n\r\ndef", b"\r\n\r\n"), Some(3));
    assert_eq!(find_subslice(b"abcdef", b"\r\n\r\n"), None);
    assert_eq!(find_subslice(b"", b"x"), None);
}

#[test]
fn a_small_frame_is_masked_as_the_rfc_shows() {
    let f = encode_frame(OP_TEXT, b"Hello", [0x37, 0xfa, 0x21, 0x3d]);
    assert_eq!(f, vec![0x81, 0x85, 0x37, 0xfa, 0x21, 0x3d, 0x7f, 0x9f, 0x4d, 0x51, 0x58]);
}

#[test]
fn frames_read_back_what_was_written() {
    for n in [0usize, 5, 125, 126, 65535, 65536] {
        let payload: Vec<u8> = (0..n).map(|i| (i % 251) as u8).collect();
        let bytes = encode_frame(OP_BINARY, &payload, [1, 2, 3, 4]);
        match read_frame(&bytes).unwrap() {
            Frame::Complete { fin, opcode, payload: p, consumed } => {
                assert!(fin);
                assert_eq!(opcode, OP_BINARY);
                assert_eq!(p, payload);
                assert_eq!(consumed, bytes.len());
            }
            Frame::Incomplete => panic!("complete frame of {n} bytes read as incomplete"),
        }
        for cut in [0, 1, bytes.len() - 1] {
            assert!(matches!(read_frame(&bytes[..cut]).unwrap(), Frame::Incomplete));
        }
    }
}

#[test]
fn an_unmasked_server_frame_is_read() {
    match read_frame(&[0x81, 0x02, b'o', b'k', 0xFF]).unwrap() {
        Frame::Complete { fin, opcode, payload, consumed } => {
            assert!(fin);
            assert_eq!(opcode, OP_TEXT);
            assert_eq!(payload, b"ok".to_vec());
            assert_eq!(consumed, 4);
        }
        Frame::Incomplete => panic!("incomplete"),
    }
}

#[test]
fn oversized_frames_are_refused() {
    let mut f = vec![0x82, 127];
    f.extend_from_slice(&(1u64 << 40).to_be_bytes());
    match read_frame(&f) {
        Err(Error::Protocol(m)) => assert_eq!(m, "frame of 1099511627776 bytes exceeds limit"),
        other => panic!("unexpected {other:?}"),
    }
}

#[test]
fn fragmented_text_is_reassembled() {
    let mut a = Assembler::new();
    assert!(matches!(a.on_frame(false, OP_TEXT, b"hel".to_vec()).unwrap(), Step::Continue));
    match a.on_frame(true, OP_PING, b"p".to_vec()).unwrap() {
        Step::Pong(p) => assert_eq!(p, b"p".to_vec()),
        other => panic!("unexpected {other:?}"),
    }
    assert!(matches!(a.on_frame(true, OP_PONG, vec![]).unwrap(), Step::Continue));
    match a.on_frame(true, OP_CONTINUATION, b"lo".to_vec()).unwrap() {
        Step::Message(m) => assert_eq!(m, "hello"),
        other => panic!("unexpected {other:?}"),
    }
    match a.on_frame(true, OP_TEXT, "é".as_bytes().to_vec()).unwrap() {
        Step::Message(m) => assert_eq!(m, "é"),
        other => panic!("unexpected {other:?}"),
    }
}

#[test]
fn assembly_failures_are_protocol_errors() {
    let mut a = Assembler::new();
    match a.on_frame(true, OP_CONTINUATION, vec![1]) {
        Err(Error::Protocol(m)) => assert_eq!(m, "continuation without start"),
        other => panic!("unexpected {other:?}"),
    }
    match a.on_frame(true, OP_CLOSE, vec![]) {
        Err(Error::Protocol(m)) => assert_eq!(m, "peer sent close"),
        other => panic!("unexpected {other:?}"),
    }
    match a.on_frame(true, 0x3, vec![]) {
        Err(Error::Protocol(m)) => assert_eq!(m, "unknown opcode 0x3"),
        other => panic!("unexpected {other:?}"),
    }
    match a.on_frame(true, OP_TEXT, vec![0xFF]) {
        Err(Error::Protocol(m)) => assert!(m.starts_with("invalid utf-8: "), "{m}"),
        other => panic!("unexpected {other:?}"),
    }
}

#[test]
fn handshake_request_and_check() {
    let req = handshake_request("/devtools/page/1", "127.0.0.1", 9222, "dGhlIHNhbXBsZSBub25jZQ==");
    assert_eq!(
        req,
        "GET /devtools/page/1 HTTP/1.1\r\nHost: 127.0.0.1:9222\r\nUpgrade: websocket\r\nConnection: Upgrade\r\nSec-WebSocket-Key: dGhlIHNhbXBsZSBub25jZQ==\r\nSec-WebSocket-Version: 13\r\n\r\n"
    );
    let good = "HTTP/1.1 101 Switching Protocols\r\nUpgrade: websocket\r\nsec-websocket-accept:  s3pPLMBiTxaQ9kYGzzhZRbK+xOo= ";
    assert!(check_handshake(good, "dGhlIHNhbXBsZSBub25jZQ==").is_ok());
    match check_handshake("HTTP/1.1 400 Bad Request", "k") {
        Err(Error::Protocol(m)) => assert_eq!(m, "upgrade refused: HTTP/1.1 400 Bad Request"),
        other => panic!("unexpected {other:?}"),
    }
    match check_handshake("HTTP/1.1 101 OK\r\nUpgrade: websocket", "k") {
        Err(Error::Protocol(m)) => assert_eq!(m, "no Sec-WebSocket-Accept header"),
        other => panic!("unexpected {other:?}"),
    }
    match check_handshake("HTTP/1.1 101 OK\r\nSec-WebSocket-Accept: nope", "dGhlIHNhbXBsZSBub25jZQ==") {
        Err(Error::Protocol(m)) => assert_eq!(
            m,
            "accept mismatch: got nope, want s3pPLMBiTxaQ9kYGzzhZRbK+xOo="
        ),
        other => panic!("unexpected {other:?}"),
    }
}

#[test]
fn random_bytes_have_the_requested_length() {
    assert_eq!(random_bytes(16).unwrap().len(), 16);
    assert!(random_bytes(0).unwrap().is_empty());
}

#[test]
fn a_handshake_key_is_sixteen_random_bytes_in_base64() {
    let k = proofsheet::ws::new_key().unwrap();
    assert_eq!(k.len(), 24);
    let raw = base64::engine::general_purpose::STANDARD.decode(&k).unwrap();
    assert_eq!(raw.len(), 16);
}

#[test]
fn a_text_message_arrives_as_sent() {
    let text = "{\"id\":1,\"method\":\"Page.enable\",\"params\":{}} — ünïcödé";
    let mut bytes = encode_frame(OP_TEXT, text.as_bytes(), [9, 8, 7, 6]);
    bytes.extend_from_slice(&[0x81, 0x00]);
    let mut a = Assembler::new();
    match read_frame(&bytes).unwrap() {
        Frame::Complete { fin, opcode, payload, .. } => match a.on_frame(fin, opcode, payload).unwrap() {
            Step::Message(m) => assert_eq!(m, text),
            other => panic!("unexpected {other:?}"),
        },
        Frame::Incomplete => panic!("incomplete"),
    }
}
