//! Hashing, base64, JSON string quoting and randomness, done by the crates
//! the project has always used for them, plus the hexadecimal rendering of
//! digests.

use vstd::prelude::*;
use base64::engine::general_purpose::STANDARD as B64;
use base64::Engine as _;
use base64::DecodeError;
use getrandom::Error as RngError;
use sha1::Digest as _;
use crate::text::push_char;

verus! {

#[verifier::external_type_specification]
#[verifier::external_body]
pub struct ExDecodeError(DecodeError);

#[verifier::external_type_specification]
#[verifier::external_body]
pub struct ExRngError(RngError);

/// The SHA-1 digest of `data`.
pub uninterp spec fn sha1_digest(data: Seq<u8>) -> Seq<u8>;

/// The SHA-256 digest of `data`.
pub uninterp spec fn sha256_digest(data: Seq<u8>) -> Seq<u8>;

/// The character of the standard base64 alphabet for `v`, from 0 to 63:
/// `A`-`Z`, `a`-`z`, `0`-`9`, `+`, `/`.
pub open spec fn b64_digit(v: nat) -> char {
    if v < 26 {
        ((65 + v) as u8) as char
    } else if v < 52 {
        ((71 + v) as u8) as char
    } else if v < 62 {
        ((v - 4) as u8) as char
    } else if v == 62 {
        '+'
    } else {
        '/'
    }
}

/// Standard base64 with padding (RFC 4648, section 4): every three bytes
/// become four characters of six bits each; a final one or two bytes become
/// four characters ending in `==` or `=`.
pub open spec fn base64_text(d: Seq<u8>) -> Seq<char>
    decreases d.len(),
{
    if d.len() == 0 {
        Seq::empty()
    } else if d.len() == 1 {
        seq![b64_digit((d[0] / 4) as nat), b64_digit(((d[0] % 4) * 16) as nat), '=', '=']
    } else if d.len() == 2 {
        seq![
            b64_digit((d[0] / 4) as nat),
            b64_digit(((d[0] % 4) * 16 + d[1] / 16) as nat),
            b64_digit(((d[1] % 16) * 4) as nat),
            '=',
        ]
    } else {
        seq![
            b64_digit((d[0] / 4) as nat),
            b64_digit(((d[0] % 4) * 16 + d[1] / 16) as nat),
            b64_digit(((d[1] % 16) * 4 + d[2] / 64) as nat),
            b64_digit((d[2] % 64) as nat),
        ] + base64_text(d.skip(3))
    }
}

/// The bytes whose base64 text is `text`, or `None` when `text` is not the
/// base64 of any bytes.
pub open spec fn base64_bytes(text: Seq<char>) -> Option<Seq<u8>> {
    if exists|b: Seq<u8>| base64_text(b) == text {
        Some(choose|b: Seq<u8>| base64_text(b) == text)
    } else {
        None
    }
}

proof fn lemma_b64_digit(v: nat, w: nat)
    requires
        v < 64,
        w < 64,
    ensures
        b64_digit(v) != '=',
        b64_digit(v) == b64_digit(w) ==> v == w,
{
}

proof fn lemma_base64_len(d: Seq<u8>)
    ensures
        base64_text(d).len() == 4 * ((d.len() + 2) / 3),
    decreases d.len(),
{
    if d.len() >= 3 {
        lemma_base64_len(d.skip(3));
    }
}

proof fn lemma_group(a0: u8, a1: u8, a2: u8, b0: u8, b1: u8, b2: u8)
    requires
        a0 / 4 == b0 / 4,
        (a0 % 4) * 16 + a1 / 16 == (b0 % 4) * 16 + b1 / 16,
        (a1 % 16) * 4 + a2 / 64 == (b1 % 16) * 4 + b2 / 64,
        a2 % 64 == b2 % 64,
    ensures
        a0 == b0 && a1 == b1 && a2 == b2,
{
    assert(a0 == b0 && a1 == b1 && a2 == b2) by (bit_vector)
        requires
            a0 / 4 == b0 / 4,
            (a0 % 4) * 16 + a1 / 16 == (b0 % 4) * 16 + b1 / 16,
            (a1 % 16) * 4 + a2 / 64 == (b1 % 16) * 4 + b2 / 64,
            a2 % 64 == b2 % 64,
    ;
}

/// Different bytes have different base64 texts.
pub proof fn lemma_base64_injective(a: Seq<u8>, b: Seq<u8>)
    requires
        base64_text(a) == base64_text(b),
    ensures
        a == b,
    decreases a.len(),
{
    let t = base64_text(a);
    lemma_base64_len(a);
    lemma_base64_len(b);
    if a.len() == 0 || b.len() == 0 {
        assert(a.len() == 0 && b.len() == 0);
        assert(a =~= b);
        return;
    }
    let (x0, y0) = (a[0], b[0]);
    lemma_b64_digit((x0 / 4) as nat, (y0 / 4) as nat);
    assert(t[0] == b64_digit((x0 / 4) as nat) && t[0] == b64_digit((y0 / 4) as nat));
    if a.len() >= 3 && b.len() >= 3 {
        let (x1, x2, y1, y2) = (a[1], a[2], b[1], b[2]);
        lemma_b64_digit(((x0 % 4) * 16 + x1 / 16) as nat, ((y0 % 4) * 16 + y1 / 16) as nat);
        lemma_b64_digit(((x1 % 16) * 4 + x2 / 64) as nat, ((y1 % 16) * 4 + y2 / 64) as nat);
        lemma_b64_digit((x2 % 64) as nat, (y2 % 64) as nat);
        assert(t[1] == b64_digit(((x0 % 4) * 16 + x1 / 16) as nat));
        assert(t[1] == b64_digit(((y0 % 4) * 16 + y1 / 16) as nat));
        assert(t[2] == b64_digit(((x1 % 16) * 4 + x2 / 64) as nat));
        assert(t[2] == b64_digit(((y1 % 16) * 4 + y2 / 64) as nat));
        assert(t[3] == b64_digit((x2 % 64) as nat));
        assert(t[3] == b64_digit((y2 % 64) as nat));
        lemma_group(x0, x1, x2, y0, y1, y2);
        assert(base64_text(a.skip(3)) =~= t.skip(4));
        assert(base64_text(b.skip(3)) =~= t.skip(4));
        lemma_base64_injective(a.skip(3), b.skip(3));
        assert(a =~= b) by {
            assert forall|i: int| 0 <= i < a.len() implies a[i] == b[i] by {
                if i >= 3 {
                    assert(a[i] == a.skip(3)[i - 3]);
                    assert(b[i] == b.skip(3)[i - 3]);
                }
            }
        }
    } else if a.len() >= 3 || b.len() >= 3 {
        // One has a padded final group, the other a full one of the same
        // length, or a longer text.
        if a.len() >= 3 {
            lemma_b64_digit((a[2] % 64) as nat, 0);
            assert(b.len() <= 2);
            assert(t[3] == '=');
            assert(t[3] == b64_digit((a[2] % 64) as nat));
        } else {
            lemma_b64_digit((b[2] % 64) as nat, 0);
            assert(t[3] == '=');
            assert(t[3] == b64_digit((b[2] % 64) as nat));
        }
    } else if a.len() == 1 && b.len() == 1 {
        lemma_b64_digit(((x0 % 4) * 16) as nat, ((y0 % 4) * 16) as nat);
        assert(x0 == y0) by (bit_vector)
            requires
                x0 / 4 == y0 / 4,
                (x0 % 4) * 16 == (y0 % 4) * 16,
        ;
        assert(a =~= b);
    } else if a.len() == 2 && b.len() == 2 {
        let (x1, y1) = (a[1], b[1]);
        lemma_b64_digit(((x0 % 4) * 16 + x1 / 16) as nat, ((y0 % 4) * 16 + y1 / 16) as nat);
        lemma_b64_digit(((x1 % 16) * 4) as nat, ((y1 % 16) * 4) as nat);
        assert(x0 == y0 && x1 == y1) by (bit_vector)
            requires
                x0 / 4 == y0 / 4,
                (x0 % 4) * 16 + x1 / 16 == (y0 % 4) * 16 + y1 / 16,
                (x1 % 16) * 4 == (y1 % 16) * 4,
        ;
        assert(a =~= b);
    } else if a.len() == 1 {
        lemma_b64_digit(((b[1] % 16) * 4) as nat, 0);
        assert(t[2] == '=');
        assert(t[2] == b64_digit(((b[1] % 16) * 4) as nat));
    } else {
        lemma_b64_digit(((a[1] % 16) * 4) as nat, 0);
        assert(t[2] == '=');
        assert(t[2] == b64_digit(((a[1] % 16) * 4) as nat));
    }
}

/// The base64 text of some bytes decodes to exactly those bytes.
pub proof fn lemma_base64_bytes_of_text(d: Seq<u8>)
    ensures
        base64_bytes(base64_text(d)) == Some(d),
{
    let t = base64_text(d);
    assert(base64_text(d) == t);
    let c = choose|b: Seq<u8>| base64_text(b) == t;
    lemma_base64_injective(c, d);
}

/// `<sha1::Sha1 as Digest>::digest`: the 20-byte SHA-1 digest of `data`.
#[verifier::external_body]
pub(crate) fn sha1(data: &[u8]) -> (r: Vec<u8>)
    ensures
        r@ == sha1_digest(data@),
        r@.len() == 20,
{
    sha1::Sha1::digest(data).to_vec()
}

/// `<sha2::Sha256 as Digest>::digest`: the 32-byte SHA-256 digest of `data`.
#[verifier::external_body]
pub(crate) fn sha256(data: &[u8]) -> (r: Vec<u8>)
    ensures
        r@ == sha256_digest(data@),
        r@.len() == 32,
{
    sha2::Sha256::digest(data).to_vec()
}

/// `base64::engine::general_purpose::STANDARD.encode`: standard base64 with
/// padding.
#[verifier::external_body]
pub(crate) fn base64_encode(data: &[u8]) -> (r: String)
    ensures
        r@ == base64_text(data@),
{
    B64.encode(data)
}

/// `base64::engine::general_purpose::STANDARD.decode`. That engine pads on
/// encoding and, decoding, requires canonical padding and rejects non-zero
/// trailing bits, so it accepts exactly the texts its encoder writes: it
/// returns the bytes whose base64 text is `text`, and an error when there
/// are none.
#[verifier::external_body]
pub(crate) fn base64_decode(text: &str) -> (r: Result<Vec<u8>, DecodeError>)
    ensures
        match r {
            Ok(v) => base64_text(v@) == text@,
            Err(_) => forall|b: Seq<u8>| base64_text(b) != text@,
        },
{
    B64.decode(text)
}

/// The text of a base64 error (`Display` of `DecodeError`). Nothing is
/// claimed of the text, which names the offending symbol and its offset.
#[verifier::external_body]
pub(crate) fn decode_error_text(e: &DecodeError) -> String {
    e.to_string()
}

/// How serde_json writes one character inside a JSON string: `"` and `\`
/// behind a backslash, backspace, tab, line feed, form feed and carriage
/// return as `\b`, `\t`, `\n`, `\f` and `\r`, every other control
/// character below 0x20 as `\u00` and two lower-case hex digits, and
/// everything else as itself.
pub open spec fn json_escape(c: char) -> Seq<char> {
    let u = c as u32;
    if c == '"' {
        seq!['\\', '"']
    } else if c == '\\' {
        seq!['\\', '\\']
    } else if u == 0x08 {
        seq!['\\', 'b']
    } else if u == 0x09 {
        seq!['\\', 't']
    } else if u == 0x0A {
        seq!['\\', 'n']
    } else if u == 0x0C {
        seq!['\\', 'f']
    } else if u == 0x0D {
        seq!['\\', 'r']
    } else if u < 0x20 {
        seq!['\\', 'u', '0', '0', hex_digit((u / 16) as nat), hex_digit((u % 16) as nat)]
    } else {
        seq![c]
    }
}

/// The escaped characters of `s`.
pub open spec fn json_escaped(s: Seq<char>) -> Seq<char>
    decreases s.len(),
{
    if s.len() == 0 {
        Seq::empty()
    } else {
        json_escaped(s.drop_last()) + json_escape(s.last())
    }
}

/// The JSON string literal for `s`: quoted, with serde_json's escapes.
pub open spec fn json_quoted(s: Seq<char>) -> Seq<char> {
    seq!['"'] + json_escaped(s) + seq!['"']
}

/// `serde_json::to_string` of a string slice: its JSON string literal,
/// escaped as serde_json's escape table (`ser.rs`, `ESCAPE`) says.
/// Serialising a `str` into memory cannot fail, so the error arm is never
/// taken.
#[verifier::external_body]
pub(crate) fn quote_json(s: &str) -> (r: String)
    ensures
        r@ == json_quoted(s@),
{
    match serde_json::to_string(s) {
        Ok(t) => t,
        Err(_) => String::new(),
    }
}

/// `getrandom::getrandom`: fills `buf` from the operating system's random
/// source. Only the length of the buffer is claimed to be kept; its contents
/// are whatever the source produced.
#[verifier::external_body]
pub(crate) fn fill_random(buf: &mut Vec<u8>) -> (r: Result<(), RngError>)
    ensures
        final(buf)@.len() == old(buf)@.len(),
{
    getrandom::getrandom(buf.as_mut_slice())
}

/// The text of a randomness failure (`Display` of `getrandom::Error`).
/// Nothing is claimed of the text, which comes from the operating system.
#[verifier::external_body]
pub(crate) fn rng_error_text(e: &RngError) -> String {
    e.to_string()
}

/// A lower-case hexadecimal digit.
pub open spec fn hex_digit(d: nat) -> char {
    if d < 10 {
        ((48 + d) as u8) as char
    } else {
        ((87 + d) as u8) as char
    }
}

/// Two lower-case hexadecimal digits per byte, as `{:x}` prints a digest.
pub open spec fn hex_lower(bytes: Seq<u8>) -> Seq<char>
    decreases bytes.len(),
{
    if bytes.len() == 0 {
        Seq::empty()
    } else {
        hex_lower(bytes.drop_last()).push(hex_digit((bytes.last() / 16) as nat)).push(
            hex_digit((bytes.last() % 16) as nat),
        )
    }
}

/// Every byte becomes two digits.
pub proof fn lemma_hex_lower_len(bytes: Seq<u8>)
    ensures
        hex_lower(bytes).len() == 2 * bytes.len(),
    decreases bytes.len(),
{
    if bytes.len() > 0 {
        lemma_hex_lower_len(bytes.drop_last());
    }
}

fn hex_digit_char(d: u8) -> (c: char)
    requires
        d < 16,
    ensures
        c == hex_digit(d as nat),
{
    if d < 10 {
        (48u8 + d) as char
    } else {
        (87u8 + d) as char
    }
}

/// Render bytes as lower-case hexadecimal.
pub fn to_hex(bytes: &[u8]) -> (s: String)
    ensures
        s@ == hex_lower(bytes@),
{
    let mut s = String::new();
    let mut i: usize = 0;
    while i < bytes.len()
        invariant
            i <= bytes.len(),
            s@ == hex_lower(bytes@.take(i as int)),
        decreases bytes.len() - i,
    {
        let b = bytes[i];
        push_char(&mut s, hex_digit_char(b / 16));
        push_char(&mut s, hex_digit_char(b % 16));
        assert(bytes@.take(i + 1).drop_last() == bytes@.take(i as int));
        i = i + 1;
    }
    assert(bytes@.take(bytes.len() as int) == bytes@);
    s
}

/// The SHA-256 digest of `data` as 64 lower-case hexadecimal digits, as
/// `format!("{:x}", digest)` writes it.
pub fn sha256_hex(data: &[u8]) -> (r: String)
    ensures
        r@ == hex_lower(sha256_digest(data@)),
        r@.len() == 64,
{
    let d = sha256(data);
    proof {
        lemma_hex_lower_len(d@);
    }
    to_hex(d.as_slice())
}

} // verus!
