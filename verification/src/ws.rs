//! The client side of the WebSocket protocol (RFC 6455), as far as the
//! Chrome DevTools Protocol needs it: framing, message reassembly and the
//! opening handshake. The socket itself is driven by the caller.

use vstd::prelude::*;
use crate::error::Error;
use crate::text::{
    push_str, push_u64, push_char, dec, digit_char, chars_of, string_of_range, owned, first_index,
    last_index, find_char, rfind_char, parse_unsigned, parse_unsigned_at, starts_with,
    begins_with, first_occurrence, find_chars_from, has_sub, contains, trim, lower, trim_bounds,
    eq_ignore_ascii_case, lemma_first_occurrence, slice_from, slice_range,
};
use crate::codec::{sha1, sha1_digest, base64_encode, base64_text, fill_random, rng_error_text, hex_digit};
use std::string::FromUtf8Error;
use vstd::utf8::{valid_utf8, decode_utf8, encode_utf8};

verus! {

/// Frame opcodes (RFC 6455 section 5.2).
pub const OP_CONTINUATION: u8 = 0x0;
pub const OP_TEXT: u8 = 0x1;
pub const OP_BINARY: u8 = 0x2;
pub const OP_CLOSE: u8 = 0x8;
pub const OP_PING: u8 = 0x9;
pub const OP_PONG: u8 = 0xA;

/// Refuse to buffer a single message larger than this. CDP screenshot
/// responses are base64 and can be many megabytes, so the ceiling is
/// generous, but unbounded growth from a confused peer is not acceptable.
pub const MAX_MESSAGE: usize = 268435456;

/// `256` to the power `k`.
pub open spec fn pow256(k: nat) -> nat
    decreases k,
{
    if k == 0 {
        1
    } else {
        256 * pow256((k - 1) as nat)
    }
}

/// The last `k` bytes of `v` in big-endian order (`to_be_bytes`).
pub open spec fn be_bytes(v: nat, k: nat) -> Seq<u8>
    decreases k,
{
    if k == 0 {
        Seq::empty()
    } else {
        be_bytes(v / 256, (k - 1) as nat).push((v % 256) as u8)
    }
}

/// The number that big-endian bytes stand for (`from_be_bytes`).
pub open spec fn be_value(s: Seq<u8>) -> nat
    decreases s.len(),
{
    if s.len() == 0 {
        0
    } else {
        (be_value(s.drop_last()) * 256 + s.last()) as nat
    }
}

/// Reading back the `k` big-endian bytes of `v` gives `v`, when it fits.
pub proof fn lemma_be_roundtrip(v: nat, k: nat)
    requires
        v < pow256(k),
    ensures
        be_value(be_bytes(v, k)) == v,
        be_bytes(v, k).len() == k,
    decreases k,
{
    if k > 0 {
        let p = pow256((k - 1) as nat);
        assert(v / 256 < p) by (nonlinear_arith)
            requires
                v < 256 * p,
        ;
        lemma_be_roundtrip(v / 256, (k - 1) as nat);
        assert(be_bytes(v, k).drop_last() == be_bytes(v / 256, (k - 1) as nat));
    }
}

/// The payload length field of a frame header, after the opcode byte, with
/// the mask bit set.
pub open spec fn len_header(n: nat) -> Seq<u8> {
    if n < 126 {
        seq![(128 + n) as u8]
    } else if n <= 65535 {
        seq![254u8] + be_bytes(n, 2)
    } else {
        seq![255u8] + be_bytes(n, 8)
    }
}

/// `p` with every byte XORed with the mask byte at its position modulo 4.
pub open spec fn masked(p: Seq<u8>, m: Seq<u8>) -> Seq<u8> {
    Seq::new(p.len(), |i: int| p[i] ^ m[i % 4])
}

/// A complete, masked, final frame as a client sends it.
pub open spec fn frame_bytes(opcode: u8, p: Seq<u8>, m: Seq<u8>) -> Seq<u8> {
    seq![(0x80u8 | opcode)] + len_header(p.len()) + m + masked(p, m)
}

/// Appends the last `k` bytes of `v`, most significant first.
fn push_be(out: &mut Vec<u8>, v: u64, k: usize)
    ensures
        final(out)@ == old(out)@ + be_bytes(v as nat, k as nat),
    decreases k,
{
    if k > 0 {
        push_be(out, v / 256, k - 1);
        out.push((v % 256) as u8);
    } else {
        assert(old(out)@ + be_bytes(v as nat, 0) == old(out)@);
    }
}

/// Encode one final frame, masking `payload` with `mask` as a client must.
pub fn encode_frame(opcode: u8, payload: &[u8], mask: [u8; 4]) -> (out: Vec<u8>)
    ensures
        out@ == frame_bytes(opcode, payload@, mask@),
{
    let mut out: Vec<u8> = Vec::new();
    out.push(0x80u8 | opcode);
    let n = payload.len();
    if n < 126 {
        let b = n as u8;
        assert((0x80u8 | b) == (128 + b) as u8) by (bit_vector)
            requires
                b < 126,
        ;
        out.push(0x80u8 | b);
    } else if n <= 65535 {
        out.push(0x80u8 | 126u8);
        assert((0x80u8 | 126u8) == 254u8) by (bit_vector);
        push_be(&mut out, n as u64, 2);
    } else {
        out.push(0x80u8 | 127u8);
        assert((0x80u8 | 127u8) == 255u8) by (bit_vector);
        push_be(&mut out, n as u64, 8);
    }
    assert(out@ == seq![(0x80u8 | opcode)] + len_header(n as nat));
    let ghost head = out@;
    out.push(mask[0]);
    out.push(mask[1]);
    out.push(mask[2]);
    out.push(mask[3]);
    assert(out@ == head + mask@);
    let ghost head2 = out@;
    let mut i: usize = 0;
    while i < n
        invariant
            n == payload@.len(),
            i <= n,
            out@ == head2 + masked(payload@, mask@).take(i as int),
        decreases n - i,
    {
        out.push(payload[i] ^ mask[i % 4]);
        assert(masked(payload@, mask@).take(i + 1) == masked(payload@, mask@).take(i as int).push(
            payload@[i as int] ^ mask@[(i % 4) as int],
        ));
        i = i + 1;
    }
    assert(masked(payload@, mask@).take(n as int) == masked(payload@, mask@));
    out
}

/// A frame header and payload as `read_frame` sees them, before any byte
/// is owned by the caller.
pub enum FrameSpec {
    /// More bytes are needed.
    Incomplete,
    /// The header announces a payload larger than `MAX_MESSAGE`.
    TooLarge(nat),
    /// A whole frame: FIN bit, opcode, unmasked payload, bytes consumed.
    Complete(bool, u8, Seq<u8>, nat),
}

/// The declared payload length and the offset of the byte after it, or
/// `None` while the extended length is still incomplete.
pub open spec fn spec_len_field(b: Seq<u8>) -> Option<(nat, nat)>
    recommends
        b.len() >= 2,
{
    let len7 = (b[1] % 128) as nat;
    if len7 < 126 {
        Some((len7, 2))
    } else if len7 == 126 {
        if b.len() < 4 {
            None
        } else {
            Some((be_value(b.subrange(2, 4)), 4))
        }
    } else {
        if b.len() < 10 {
            None
        } else {
            Some((be_value(b.subrange(2, 10)), 10))
        }
    }
}

/// What a buffer holding the start of the incoming byte stream yields.
pub open spec fn spec_read_frame(b: Seq<u8>) -> FrameSpec {
    if b.len() < 2 {
        FrameSpec::Incomplete
    } else {
        match spec_len_field(b) {
            None => FrameSpec::Incomplete,
            Some((len, off)) => {
                if len > MAX_MESSAGE {
                    FrameSpec::TooLarge(len)
                } else {
                    let is_masked = b[1] >= 128;
                    let start = if is_masked {
                        off + 4
                    } else {
                        off
                    };
                    if b.len() < start + len {
                        FrameSpec::Incomplete
                    } else {
                        let raw = b.subrange(start as int, (start + len) as int);
                        FrameSpec::Complete(
                            b[0] >= 128,
                            (b[0] % 16) as u8,
                            if is_masked {
                                masked(raw, b.subrange(off as int, (off + 4) as int))
                            } else {
                                raw
                            },
                            start + len,
                        )
                    }
                }
            },
        }
    }
}

/// One decoded frame, or a note that more bytes must arrive first.
#[derive(Debug)]
pub enum Frame {
    Incomplete,
    Complete { fin: bool, opcode: u8, payload: Vec<u8>, consumed: usize },
}

/// The text of the oversize-frame error.
pub open spec fn too_large_message(len: nat) -> Seq<char> {
    "frame of "@ + dec(len) + " bytes exceeds limit"@
}

/// Decode the frame at the start of `buf`.
pub fn read_frame(buf: &[u8]) -> (r: Result<Frame, Error>)
    ensures
        match spec_read_frame(buf@) {
            FrameSpec::Incomplete => r matches Ok(Frame::Incomplete),
            FrameSpec::TooLarge(len) => r matches Err(Error::Protocol(m)) && m@
                == too_large_message(len),
            FrameSpec::Complete(fin, opcode, payload, consumed) => r matches Ok(
                Frame::Complete { fin: f, opcode: o, payload: p, consumed: c },
            ) && f == fin && o == opcode && p@ == payload && c == consumed,
        },
{
    if buf.len() < 2 {
        return Ok(Frame::Incomplete);
    }
    let b0 = buf[0];
    let b1 = buf[1];
    assert(((b0 & 0x80) != 0) == (b0 >= 128) && (b0 & 0x0F) == b0 % 16) by (bit_vector);
    assert(((b1 & 0x80) != 0) == (b1 >= 128) && (b1 & 0x7F) == b1 % 128) by (bit_vector);
    let fin = b0 & 0x80 != 0;
    let opcode = b0 & 0x0F;
    let is_masked = b1 & 0x80 != 0;
    let len7 = b1 & 0x7F;
    let mut off: usize = 2;
    let mut len: u64 = len7 as u64;
    if len7 == 126 {
        if buf.len() < 4 {
            return Ok(Frame::Incomplete);
        }
        len = (buf[2] as u64) * 256 + (buf[3] as u64);
        proof {
            let s = buf@.subrange(2, 4);
            assert(s.drop_last().drop_last() =~= Seq::<u8>::empty());
            assert(be_value(s) == be_value(s.drop_last()) * 256 + s.last());
            assert(be_value(s.drop_last()) == be_value(s.drop_last().drop_last()) * 256 + s[0]);
        }
        off = 4;
    } else if len7 == 127 {
        if buf.len() < 10 {
            return Ok(Frame::Incomplete);
        }
        let mut acc: u64 = 0;
        let mut i: usize = 2;
        while i < 10
            invariant
                2 <= i <= 10,
                buf.len() >= 10,
                acc as nat == be_value(buf@.subrange(2, i as int)),
                (acc as nat) < pow256((i - 2) as nat),
            decreases 10 - i,
        {
            proof {
                let p = pow256((i - 2) as nat);
                assert(pow256((i - 1) as nat) == 256 * p);
                assert(acc * 256 + buf@[i as int] < 256 * p) by (nonlinear_arith)
                    requires
                        acc < p,
                        buf@[i as int] < 256,
                ;
                assert(p <= pow256(7)) by {
                    lemma_pow256_mono((i - 2) as nat, 7);
                }
                assert(pow256(7) == 72057594037927936) by {
                    reveal_with_fuel(pow256, 8);
                }
                assert(acc * 256 + buf@[i as int] <= u64::MAX) by (nonlinear_arith)
                    requires
                        acc < p,
                        p <= 72057594037927936,
                        buf@[i as int] < 256,
                ;
                assert(buf@.subrange(2, i + 1).drop_last() == buf@.subrange(2, i as int));
            }
            acc = acc * 256 + (buf[i] as u64);
            i = i + 1;
        }
        len = acc;
        off = 10;
    }
    assert(spec_len_field(buf@) == Some((len as nat, off as nat)));
    if len > MAX_MESSAGE as u64 {
        let mut m = String::new();
        push_str(&mut m, "frame of ");
        push_u64(&mut m, len);
        push_str(&mut m, " bytes exceeds limit");
        return Err(Error::Protocol(m));
    }
    let n = len as usize;
    let start = if is_masked { off + 4 } else { off };
    if buf.len() < start || buf.len() - start < n {
        return Ok(Frame::Incomplete);
    }
    let mut data: Vec<u8> = Vec::new();
    let mut i: usize = 0;
    while i < n
        invariant
            n == len,
            start + n <= buf.len(),
            off + 4 <= buf.len() || !is_masked,
            start == (if is_masked { off + 4 } else { off as int }),
            i <= n,
            data@ == (if is_masked {
                masked(buf@.subrange(start as int, start + n), buf@.subrange(off as int, off + 4))
            } else {
                buf@.subrange(start as int, start + n)
            }).take(i as int),
        decreases n - i,
    {
        let b = buf[start + i];
        let v = if is_masked { b ^ buf[off + (i % 4)] } else { b };
        proof {
            let full = if is_masked {
                masked(buf@.subrange(start as int, start + n), buf@.subrange(off as int, off + 4))
            } else {
                buf@.subrange(start as int, start + n)
            };
            assert(full[i as int] == v);
            assert(full.take(i + 1) == full.take(i as int).push(v));
        }
        data.push(v);
        i = i + 1;
    }
    proof {
        let full = if is_masked {
            masked(buf@.subrange(start as int, start + n), buf@.subrange(off as int, off + 4))
        } else {
            buf@.subrange(start as int, start + n)
        };
        assert(full.take(n as int) == full);
    }
    Ok(Frame::Complete { fin, opcode, payload: data, consumed: start + n })
}

/// More bytes hold larger numbers.
pub proof fn lemma_pow256_mono(a: nat, b: nat)
    requires
        a <= b,
    ensures
        pow256(a) <= pow256(b),
    decreases b,
{
    if a < b {
        lemma_pow256_mono(a, (b - 1) as nat);
    }
}


/// Masking twice with the same key gives the payload back.
pub proof fn lemma_unmask(p: Seq<u8>, m: Seq<u8>)
    requires
        m.len() == 4,
    ensures
        masked(masked(p, m), m) == p,
{
    assert forall|i: int| 0 <= i < p.len() implies masked(masked(p, m), m)[i] == p[i] by {
        let x = p[i];
        let y = m[i % 4];
        assert((x ^ y) ^ y == x) by (bit_vector);
    }
    assert(masked(masked(p, m), m) =~= p);
}

/// The length header of a frame that carries `n` payload bytes.
proof fn lemma_len_field(n: nat, m: Seq<u8>, b: Seq<u8>)
    requires
        n <= MAX_MESSAGE,
        m.len() == 4,
        b.len() >= 1 + len_header(n).len(),
        b.subrange(1, 1 + len_header(n).len() as int) == len_header(n),
    ensures
        b[1] >= 128,
        spec_len_field(b) == Some((n, 1 + len_header(n).len())),
{
    let h = len_header(n);
    assert(b[1] == h[0]);
    if n < 126 {
        let x = (128 + n) as u8;
        assert(x == 128 + n);
        assert(x >= 128 && x % 128 == n);
    } else if n <= 65535 {
        reveal_with_fuel(pow256, 3);
        lemma_be_roundtrip(n, 2);
        assert(h.subrange(1, 3) == be_bytes(n, 2));
        assert(b.subrange(2, 4) == b.subrange(1, 4).subrange(1, 3));
        assert(b.subrange(2, 4) == be_bytes(n, 2));
    } else {
        reveal_with_fuel(pow256, 9);
        lemma_be_roundtrip(n, 8);
        assert(h.subrange(1, 9) == be_bytes(n, 8));
        assert(b.subrange(2, 10) == b.subrange(1, 10).subrange(1, 9));
        assert(b.subrange(2, 10) == be_bytes(n, 8));
    }
}

/// What a client writes reads back as what it wrote: a frame produced by
/// `encode_frame`, followed by any further bytes, decodes to a final frame
/// with the same opcode and the unmasked payload, consuming exactly its own
/// bytes.
pub proof fn lemma_frame_roundtrip(opcode: u8, payload: Seq<u8>, mask: Seq<u8>, rest: Seq<u8>)
    requires
        opcode < 16,
        mask.len() == 4,
        payload.len() <= MAX_MESSAGE,
    ensures
        spec_read_frame(frame_bytes(opcode, payload, mask) + rest) == FrameSpec::Complete(
            true,
            opcode,
            payload,
            frame_bytes(opcode, payload, mask).len(),
        ),
{
    let f = frame_bytes(opcode, payload, mask);
    let b = f + rest;
    let n = payload.len();
    let h = len_header(n);
    let hl = h.len() as int;
    assert(h.len() == 1 || h.len() == 3 || h.len() == 9) by {
        if n >= 126 && n <= 65535 {
            reveal_with_fuel(pow256, 3);
            lemma_be_roundtrip(n, 2);
        } else if n > 65535 {
            reveal_with_fuel(pow256, 9);
            lemma_be_roundtrip(n, 8);
        }
    }
    let b0 = (0x80u8 | opcode);
    assert(b0 >= 128 && b0 % 16 == opcode) by (bit_vector)
        requires
            b0 == (0x80u8 | opcode),
            opcode < 16,
    ;
    assert(b[0] == b0);
    assert(b.subrange(1, 1 + hl) == h);
    lemma_len_field(n, mask, b);
    assert(b.subrange(1 + hl, 1 + hl + 4) == mask);
    assert(b.subrange(1 + hl + 4, 1 + hl + 4 + n) == masked(payload, mask));
    lemma_unmask(payload, mask);
}


/// A frame is never decoded from part of its bytes: every strict prefix of
/// what `encode_frame` writes reads as incomplete.
pub proof fn lemma_frame_prefix_incomplete(opcode: u8, payload: Seq<u8>, mask: Seq<u8>, k: int)
    requires
        opcode < 16,
        mask.len() == 4,
        payload.len() <= MAX_MESSAGE,
        0 <= k < frame_bytes(opcode, payload, mask).len(),
    ensures
        spec_read_frame(frame_bytes(opcode, payload, mask).take(k)) == FrameSpec::Incomplete,
{
    let f = frame_bytes(opcode, payload, mask);
    let b = f.take(k);
    let n = payload.len();
    let h = len_header(n);
    let hl = h.len() as int;
    if k >= 2 {
        assert(b[1] == h[0]);
        if k >= 1 + hl {
            assert(b.subrange(1, 1 + hl) == h);
            lemma_len_field(n, mask, b);
        } else {
            assert(n >= 126);
            if n <= 65535 {
                reveal_with_fuel(pow256, 3);
                lemma_be_roundtrip(n, 2);
            } else {
                reveal_with_fuel(pow256, 9);
                lemma_be_roundtrip(n, 8);
            }
        }
    }
}


#[verifier::external_type_specification]
#[verifier::external_body]
pub struct ExFromUtf8Error(FromUtf8Error);

/// `String::from_utf8`: the bytes as text when they are valid UTF-8, as its
/// documentation states; the error otherwise.
#[verifier::external_body]
fn string_from_utf8(v: Vec<u8>) -> (r: Result<String, FromUtf8Error>)
    ensures
        r is Ok <==> valid_utf8(v@),
        r matches Ok(s) ==> s@ == decode_utf8(v@),
{
    String::from_utf8(v)
}

/// The text of a UTF-8 error (`Display` of `FromUtf8Error`). Nothing is
/// claimed of the text, which names the offset of the first bad byte.
#[verifier::external_body]
fn utf8_error_text(e: &FromUtf8Error) -> String {
    e.to_string()
}

/// Lower-case hexadecimal digits of `n`, without leading zeros.
pub open spec fn hex(n: nat) -> Seq<char>
    decreases n,
{
    if n < 16 {
        seq![hex_digit(n)]
    } else {
        hex(n / 16).push(hex_digit(n % 16))
    }
}

fn push_hex(s: &mut String, n: u64)
    ensures
        final(s)@ == old(s)@ + hex(n as nat),
    decreases n,
{
    let d = (n % 16) as u8;
    let c: char = if d < 10 {
        (48u8 + d) as char
    } else {
        (87u8 + d) as char
    };
    if n >= 16 {
        push_hex(s, n / 16);
    }
    push_char(s, c);
}

/// What the reassembler does with one frame.
pub enum StepSpec {
    /// Nothing to hand back yet.
    Continue,
    /// Answer a ping with a pong carrying these bytes.
    Pong(Seq<u8>),
    /// A complete message, as text.
    Message(Seq<char>),
    /// The message cannot be read; the text describes why.
    Fail(Seq<char>),
    /// The payload of a completed message is not UTF-8.
    BadUtf8,
}

/// The fragments gathered so far and whether a message is being assembled.
pub struct AssemblySpec {
    pub parts: Seq<u8>,
    pub assembling: bool,
}

/// The state before any frame of a message has arrived.
pub open spec fn fresh() -> AssemblySpec {
    AssemblySpec { parts: Seq::empty(), assembling: false }
}

/// The outcome of a finished message.
pub open spec fn finish_spec(parts: Seq<u8>) -> StepSpec {
    if valid_utf8(parts) {
        StepSpec::Message(decode_utf8(parts))
    } else {
        StepSpec::BadUtf8
    }
}

/// One step of message reassembly: answer pings, ignore pongs, fail on
/// close, start a message on a text or binary frame, extend it on a
/// continuation frame, and hand it over when a frame carries FIN. After a
/// message or a failure the state starts afresh.
pub open spec fn step_spec(st: AssemblySpec, fin: bool, opcode: u8, data: Seq<u8>) -> (
    AssemblySpec,
    StepSpec,
) {
    if opcode == OP_CLOSE {
        (fresh(), StepSpec::Fail("peer sent close"@))
    } else if opcode == OP_PING {
        (st, StepSpec::Pong(data))
    } else if opcode == OP_PONG {
        (st, StepSpec::Continue)
    } else if opcode == OP_TEXT || opcode == OP_BINARY {
        if fin {
            (fresh(), finish_spec(data))
        } else {
            (AssemblySpec { parts: data, assembling: true }, StepSpec::Continue)
        }
    } else if opcode == OP_CONTINUATION {
        if !st.assembling {
            (fresh(), StepSpec::Fail("continuation without start"@))
        } else if st.parts.len() + data.len() > MAX_MESSAGE {
            (fresh(), StepSpec::Fail("message exceeds limit"@))
        } else if fin {
            (fresh(), finish_spec(st.parts + data))
        } else {
            (AssemblySpec { parts: st.parts + data, assembling: true }, StepSpec::Continue)
        }
    } else {
        (fresh(), StepSpec::Fail("unknown opcode 0x"@ + hex(opcode as nat)))
    }
}

/// What the caller must do after a frame.
#[derive(Debug)]
pub enum Step {
    /// Read another frame.
    Continue,
    /// Send a pong frame with this payload, then read another frame.
    Pong(Vec<u8>),
    /// A complete text message.
    Message(String),
}

/// Reassembles messages out of frames.
#[derive(Debug)]
pub struct Assembler {
    parts: Vec<u8>,
    assembling: bool,
}

impl View for Assembler {
    type V = AssemblySpec;

    /// The fragments held and whether a message is being assembled.
    closed spec fn view(&self) -> AssemblySpec {
        AssemblySpec { parts: self.parts@, assembling: self.assembling }
    }
}

impl Assembler {
    /// An assembler waiting for the first frame of a message.
    pub fn new() -> (a: Assembler)
        ensures
            a.view() == fresh(),
    {
        Assembler { parts: Vec::new(), assembling: false }
    }

    /// Take in one frame.
    pub fn on_frame(&mut self, fin: bool, opcode: u8, data: Vec<u8>) -> (r: Result<Step, Error>)
        ensures
            final(self).view() == step_spec(old(self).view(), fin, opcode, data@).0,
            match step_spec(old(self).view(), fin, opcode, data@).1 {
                StepSpec::Continue => r matches Ok(Step::Continue),
                StepSpec::Pong(p) => r matches Ok(Step::Pong(q)) && q@ == p,
                StepSpec::Message(t) => r matches Ok(Step::Message(m)) && m@ == t,
                StepSpec::Fail(t) => r matches Err(Error::Protocol(m)) && m@ == t,
                StepSpec::BadUtf8 => r matches Err(Error::Protocol(m)) && crate::text::starts_with(
                    m@,
                    "invalid utf-8: "@,
                ),
            },
    {
        if opcode == OP_CLOSE {
            self.reset();
            return Err(Error::Protocol(crate::text::owned("peer sent close")));
        }
        if opcode == OP_PING {
            return Ok(Step::Pong(data));
        }
        if opcode == OP_PONG {
            return Ok(Step::Continue);
        }
        if opcode == OP_TEXT || opcode == OP_BINARY {
            if fin {
                self.reset();
                return finish(data);
            }
            self.parts = data;
            self.assembling = true;
            return Ok(Step::Continue);
        }
        if opcode == OP_CONTINUATION {
            if !self.assembling {
                self.reset();
                return Err(Error::Protocol(crate::text::owned("continuation without start")));
            }
            if self.parts.len() > MAX_MESSAGE || data.len() > MAX_MESSAGE - self.parts.len() {
                self.reset();
                return Err(Error::Protocol(crate::text::owned("message exceeds limit")));
            }
            let mut d = data;
            self.parts.append(&mut d);
            if fin {
                let mut parts: Vec<u8> = Vec::new();
                std::mem::swap(&mut parts, &mut self.parts);
                self.assembling = false;
                return finish(parts);
            }
            return Ok(Step::Continue);
        }
        self.reset();
        let mut m = crate::text::owned("unknown opcode 0x");
        push_hex(&mut m, opcode as u64);
        Err(Error::Protocol(m))
    }

    fn reset(&mut self)
        ensures
            final(self).view() == fresh(),
    {
        self.parts = Vec::new();
        self.assembling = false;
    }
}

/// A finished message as text.
fn finish(parts: Vec<u8>) -> (r: Result<Step, Error>)
    ensures
        match finish_spec(parts@) {
            StepSpec::Message(t) => r matches Ok(Step::Message(m)) && m@ == t,
            _ => r matches Err(Error::Protocol(m)) && crate::text::starts_with(
                m@,
                "invalid utf-8: "@,
            ),
        },
{
    match string_from_utf8(parts) {
        Ok(s) => Ok(Step::Message(s)),
        Err(e) => {
            let mut m = crate::text::owned("invalid utf-8: ");
            let ghost head = m@;
            let t = utf8_error_text(&e);
            push_str(&mut m, t.as_str());
            assert(m@.take(head.len() as int) == head);
            Err(Error::Protocol(m))
        },
    }
}

/// What a client sends as a text message arrives as that text: a final
/// text frame whose payload is valid UTF-8, decoded by `read_frame` and
/// handed to a fresh reassembler, yields the message and leaves the
/// reassembler fresh.
pub proof fn lemma_text_message_roundtrip(payload: Seq<u8>, mask: Seq<u8>, rest: Seq<u8>)
    requires
        mask.len() == 4,
        payload.len() <= MAX_MESSAGE,
        valid_utf8(payload),
    ensures
        spec_read_frame(frame_bytes(OP_TEXT, payload, mask) + rest) matches FrameSpec::Complete(
            fin,
            op,
            p,
            _,
        ) && step_spec(fresh(), fin, op, p) == (fresh(), StepSpec::Message(decode_utf8(payload))),
{
    lemma_frame_roundtrip(OP_TEXT, payload, mask, rest);
}


/// RFC 6455 section 1.3.
pub const GUID: &'static str = "258EAFA5-E914-47DA-95CA-C5AB0DC85B11";

/// The `Sec-WebSocket-Accept` value a server must answer `key` with.
pub open spec fn accept_spec(key: Seq<char>) -> Seq<char> {
    base64_text(sha1_digest(encode_utf8(key) + encode_utf8(GUID@)))
}

/// Compute the `Sec-WebSocket-Accept` value for a given client key.
pub fn accept_for(key: &str) -> (r: String)
    ensures
        r@ == accept_spec(key@),
{
    let mut data = vstd::slice::slice_to_vec(key.as_bytes());
    let mut tail = vstd::slice::slice_to_vec(GUID.as_bytes());
    data.append(&mut tail);
    let digest = sha1(data.as_slice());
    base64_encode(digest.as_slice())
}

/// `n` bytes from the operating system's random source.
pub fn random_bytes(n: usize) -> (r: Result<Vec<u8>, Error>)
    ensures
        r matches Ok(v) ==> v@.len() == n,
        r matches Err(e) ==> e matches Error::Protocol(m) && starts_with(m@, "rng unavailable: "@),
{
    let mut b: Vec<u8> = Vec::new();
    let mut i: usize = 0;
    while i < n
        invariant
            i <= n,
            b@.len() == i,
        decreases n - i,
    {
        b.push(0);
        i = i + 1;
    }
    match fill_random(&mut b) {
        Ok(()) => Ok(b),
        Err(e) => {
            let mut m = owned("rng unavailable: ");
            let ghost head = m@;
            let t = rng_error_text(&e);
            push_str(&mut m, t.as_str());
            assert(m@.take(head.len() as int) == head);
            Err(Error::Protocol(m))
        },
    }
}

/// A fresh `Sec-WebSocket-Key`: sixteen random bytes in base64.
pub fn new_key() -> (r: Result<String, Error>)
    ensures
        r matches Ok(k) ==> exists|b: Seq<u8>| b.len() == 16 && k@ == #[trigger] base64_text(b),
        r matches Err(e) ==> e matches Error::Protocol(m) && starts_with(m@, "rng unavailable: "@),
{
    match random_bytes(16) {
        Ok(b) => {
            let k = base64_encode(b.as_slice());
            assert(b@.len() == 16 && k@ == base64_text(b@));
            Ok(k)
        },
        Err(e) => Err(e),
    }
}

/// Where a `ws://host:port/path` URL points, or why it cannot be used.
pub open spec fn split_url_spec(url: Seq<char>) -> Result<(Seq<char>, u16, Seq<char>), Seq<char>> {
    if !starts_with(url, "ws://"@) {
        Err("only ws:// is supported, got "@ + url)
    } else {
        let rest = url.skip(5);
        let i = first_index(rest, '/');
        let authority = if i >= 0 {
            rest.take(i)
        } else {
            rest
        };
        let path = if i >= 0 {
            rest.skip(i)
        } else {
            "/"@
        };
        let j = last_index(authority, ':');
        if j >= 0 {
            match parse_unsigned(authority.skip(j + 1), 65535) {
                Some(p) => Ok((authority.take(j), p as u16, path)),
                None => Err("bad port in "@ + url),
            }
        } else {
            Ok((authority, 80u16, path))
        }
    }
}

/// Split a `ws://host:port/path` URL into its parts. The port defaults to
/// 80 and the path to `/`.
pub fn split_url(url: &str) -> (r: Result<(String, u16, String), Error>)
    ensures
        match split_url_spec(url@) {
            Ok((h, p, path)) => r matches Ok((rh, rp, rpath)) && rh@ == h && rp == p && rpath@
                == path,
            Err(m) => r matches Err(Error::Protocol(rm)) && rm@ == m,
        },
{
    proof {
        reveal_strlit("ws://");
    }
    let cs = chars_of(url);
    let prefix = chars_of("ws://");
    if !begins_with(cs.as_slice(), prefix.as_slice()) {
        let mut m = owned("only ws:// is supported, got ");
        push_str(&mut m, url);
        return Err(Error::Protocol(m));
    }
    let ghost rest = cs@.skip(5);
    proof {
        crate::text::lemma_first_index(rest, '/');
    }
    // Positions are kept relative to the whole URL.
    let tail: Vec<char> = slice_from(cs.as_slice(), 5);
    assert(tail@.len() == cs@.len() - 5);
    let found = find_char(tail.as_slice(), '/');
    let (auth_end, path) = match found {
        Some(i) => {
            assert(i < tail@.len());
            assert(cs@.len() >= 5);
            assert(5 + i < cs@.len());
            let total = cs.len();
            let e: usize = i + 5;
            (e, string_of_range(cs.as_slice(), e, cs.len()))
        },
        None => (cs.len(), owned("/")),
    };
    assert(cs@.subrange(5, auth_end as int) == (if first_index(rest, '/') >= 0 {
        rest.take(first_index(rest, '/'))
    } else {
        rest
    }));
    assert(first_index(rest, '/') >= 0 ==> cs@.subrange(auth_end as int, cs.len() as int) == rest.skip(first_index(rest, '/')));
    let authority: Vec<char> = slice_range(cs.as_slice(), 5, auth_end);
    match rfind_char(authority.as_slice(), ':') {
        Some(j) => {
            assert(authority@.skip(j + 1) == authority@.subrange(j + 1, authority@.len() as int));
            match parse_unsigned_at(authority.as_slice(), j + 1, 65535) {
                Some(p) => {
                    let host = string_of_range(authority.as_slice(), 0, j);
                    assert(authority@.subrange(0, j as int) == authority@.take(j as int));
                    Ok((host, p as u16, path))
                },
                None => {
                    let mut m = owned("bad port in ");
                    push_str(&mut m, url);
                    Err(Error::Protocol(m))
                },
            }
        },
        None => {
            let host = string_of_range(authority.as_slice(), 0, authority.len());
            assert(authority@.subrange(0, authority@.len() as int) == authority@);
            Ok((host, 80u16, path))
        },
    }
}

/// The opening request of the WebSocket handshake.
pub open spec fn handshake_request_spec(path: Seq<char>, host: Seq<char>, port: u16, key: Seq<char>) -> Seq<char> {
    "GET "@ + path + " HTTP/1.1\r\nHost: "@ + host + ":"@ + dec(port as nat)
        + "\r\nUpgrade: websocket\r\nConnection: Upgrade\r\nSec-WebSocket-Key: "@ + key
        + "\r\nSec-WebSocket-Version: 13\r\n\r\n"@
}

/// Build the HTTP upgrade request for `path` on `host:port` with `key`.
pub fn handshake_request(path: &str, host: &str, port: u16, key: &str) -> (r: String)
    ensures
        r@ == handshake_request_spec(path@, host@, port, key@),
{
    let mut r = owned("GET ");
    push_str(&mut r, path);
    push_str(&mut r, " HTTP/1.1\r\nHost: ");
    push_str(&mut r, host);
    push_str(&mut r, ":");
    push_u64(&mut r, port as u64);
    push_str(&mut r, "\r\nUpgrade: websocket\r\nConnection: Upgrade\r\nSec-WebSocket-Key: ");
    push_str(&mut r, key);
    push_str(&mut r, "\r\nSec-WebSocket-Version: 13\r\n\r\n");
    r
}

/// The line separator of HTTP.
pub open spec fn crlf() -> Seq<char> {
    seq!['\r', '\n']
}

/// The first line of `s`, up to the first CRLF.
pub open spec fn first_line(s: Seq<char>) -> Seq<char> {
    let k = first_occurrence(s, crlf());
    if k >= 0 {
        s.take(k)
    } else {
        s
    }
}

/// Whether `line` is a header line `name: value` whose name, trimmed, is
/// `name` up to ASCII case.
pub open spec fn is_header(line: Seq<char>, name: Seq<char>) -> bool {
    let c = first_index(line, ':');
    c >= 0 && lower(trim(line.take(c))) == lower(name)
}

/// The trimmed value of a header line.
pub open spec fn header_value(line: Seq<char>) -> Seq<char> {
    trim(line.skip(first_index(line, ':') + 1))
}

/// The value of the first header called `name` among the CRLF-separated
/// lines of `rest`.
pub open spec fn find_header(rest: Seq<char>, name: Seq<char>) -> Option<Seq<char>>
    decreases rest.len(),
{
    let k = first_occurrence(rest, crlf());
    let line = first_line(rest);
    if is_header(line, name) {
        Some(header_value(line))
    } else if 0 <= k && k + 2 <= rest.len() {
        find_header(rest.skip(k + 2), name)
    } else {
        None
    }
}

/// The response head after its status line.
pub open spec fn after_status(head: Seq<char>) -> Seq<char> {
    let k = first_occurrence(head, crlf());
    if k >= 0 && k + 2 <= head.len() {
        head.skip(k + 2)
    } else {
        Seq::empty()
    }
}

/// Whether the upgrade response head (without its blank line) accepts the
/// handshake made with `key`, and if not, why.
pub open spec fn handshake_check_spec(head: Seq<char>, key: Seq<char>) -> Result<(), Seq<char>> {
    let status = first_line(head);
    if !has_sub(status, "101"@) {
        Err("upgrade refused: "@ + status)
    } else {
        match find_header(after_status(head), "sec-websocket-accept"@) {
            None => Err("no Sec-WebSocket-Accept header"@),
            Some(got) => if got == accept_spec(key) {
                Ok(())
            } else {
                Err("accept mismatch: got "@ + got + ", want "@ + accept_spec(key))
            },
        }
    }
}

/// Where the line starting at `from` ends: the position of the next CRLF,
/// or the end.
fn line_end(cs: &[char], from: usize) -> (r: usize)
    requires
        from <= cs.len(),
    ensures
        from <= r <= cs.len(),
        cs@.subrange(from as int, r as int) == first_line(cs@.skip(from as int)),
        first_occurrence(cs@.skip(from as int), crlf()) >= 0 ==> r + 2 <= cs.len() && r - from
            == first_occurrence(cs@.skip(from as int), crlf()),
        first_occurrence(cs@.skip(from as int), crlf()) < 0 ==> r == cs.len(),
{
    let sep = vec!['\r', '\n'];
    assert(sep@ == crlf());
    proof {
        lemma_first_occurrence(cs@.skip(from as int), crlf());
    }
    match find_chars_from(cs, sep.as_slice(), from) {
        Some(k) => {
            assert(cs@.subrange(from as int, k as int) == cs@.skip(from as int).take(k - from));
            k
        },
        None => {
            assert(cs@.subrange(from as int, cs@.len() as int) == cs@.skip(from as int));
            cs.len()
        },
    }
}

/// The value of the first header called `name` among the CRLF-separated
/// lines of `cs[from..]`.
pub fn header_in(cs: &[char], from: usize, name: &[char]) -> (r: Option<String>)
    requires
        from <= cs.len(),
    ensures
        match r {
            Some(g) => find_header(cs@.skip(from as int), name@) == Some(g@),
            None => find_header(cs@.skip(from as int), name@) is None,
        },
{
    let n = cs.len();
    let mut pos = from;
    let ghost rest0 = cs@.skip(from as int);
    let mut got: Option<String> = None;
    while got.is_none()
        invariant_except_break
            pos <= n == cs@.len(),
            got is None,
            find_header(rest0, name@) == find_header(cs@.skip(pos as int), name@),
        invariant
            n == cs@.len(),
        ensures
            got matches Some(g) ==> find_header(rest0, name@) == Some(g@),
            got is None ==> find_header(rest0, name@) is None,
        decreases n - pos,
    {
        let ghost rest = cs@.skip(pos as int);
        let e = line_end(cs, pos);
        let line = slice_range(cs, pos, e);
        assert(line@ == first_line(rest));
        proof {
            crate::text::lemma_first_index(line@, ':');
        }
        match find_char(line.as_slice(), ':') {
            Some(c) => {
                let (a, b) = trim_bounds(line.as_slice(), 0, c);
                let key_part = slice_range(line.as_slice(), a, b);
                assert(line@.subrange(0, c as int) == line@.take(c as int));
                if eq_ignore_ascii_case(key_part.as_slice(), name) {
                    let ll = line.len();
                    let (va, vb) = trim_bounds(line.as_slice(), c + 1, ll);
                    assert(line@.subrange(c + 1, ll as int) == line@.skip(c + 1));
                    let v = string_of_range(line.as_slice(), va, vb);
                    got = Some(v);
                    break;
                }
            },
            None => {},
        }
        if e == n {
            assert(!(0 <= first_occurrence(rest, crlf()) && first_occurrence(rest, crlf()) + 2
                <= rest.len()));
            break;
        }
        proof {
            assert(cs@.skip(pos as int).skip(e - pos + 2) == cs@.skip(e + 2));
        }
        pos = e + 2;
    }
    got
}

/// Check the server's upgrade response head (the text before the blank
/// line) against the key the handshake was made with.
pub fn check_handshake(head: &str, key: &str) -> (r: Result<(), Error>)
    ensures
        match handshake_check_spec(head@, key@) {
            Ok(()) => r is Ok,
            Err(m) => r matches Err(Error::Protocol(rm)) && rm@ == m,
        },
{
    let cs = chars_of(head);
    let n = cs.len();
    let status_end = line_end(cs.as_slice(), 0);
    assert(cs@.skip(0) == cs@);
    let status = string_of_range(cs.as_slice(), 0, status_end);
    let status_chars = slice_range(cs.as_slice(), 0, status_end);
    let code = chars_of("101");
    if !contains(status_chars.as_slice(), code.as_slice()) {
        let mut m = owned("upgrade refused: ");
        push_str(&mut m, status.as_str());
        return Err(Error::Protocol(m));
    }
    let name = chars_of("sec-websocket-accept");
    let pos: usize = if status_end < n { status_end + 2 } else { n };
    assert(cs@.skip(pos as int) == after_status(cs@));
    let got = header_in(cs.as_slice(), pos, name.as_slice());
    match got {
        None => Err(Error::Protocol(owned("no Sec-WebSocket-Accept header"))),
        Some(g) => {
            let want = accept_for(key);
            if g == want {
                Ok(())
            } else {
                let mut m = owned("accept mismatch: got ");
                push_str(&mut m, g.as_str());
                push_str(&mut m, ", want ");
                push_str(&mut m, want.as_str());
                Err(Error::Protocol(m))
            }
        },
    }
}

} // verus!
