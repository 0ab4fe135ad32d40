//! Just enough PNG to verify what the browser handed back: the header, and
//! the image size it declares.

use vstd::prelude::*;
use crate::error::Error;
use crate::text::{owned, push_str, push_u64, dec};
use crate::ws::{be_value, be_bytes, lemma_be_roundtrip, pow256};

verus! {

/// The eight-byte PNG signature.
pub open spec fn magic() -> Seq<u8> {
    seq![0x89u8, 0x50u8, 0x4Eu8, 0x47u8, 0x0Du8, 0x0Au8, 0x1Au8, 0x0Au8]
}

/// The chunk type `IHDR` in ASCII.
pub open spec fn ihdr() -> Seq<u8> {
    seq![0x49u8, 0x48u8, 0x44u8, 0x52u8]
}

/// Width and height declared by the IHDR chunk of `data`, or the message it
/// is rejected with.
pub open spec fn dimensions_spec(data: Seq<u8>) -> Result<(u32, u32), Seq<char>> {
    if data.len() < 24 {
        Err("png too short: "@ + dec(data.len()) + " bytes"@)
    } else if data.subrange(0, 8) != magic() {
        Err("not a png (bad magic)"@)
    } else if data.subrange(12, 16) != ihdr() {
        Err("first chunk is not IHDR"@)
    } else {
        Ok((be_value(data.subrange(16, 20)) as u32, be_value(data.subrange(20, 24)) as u32))
    }
}

fn be32(data: &[u8], at: usize) -> (r: u32)
    requires
        at + 4 <= data@.len(),
    ensures
        r == be_value(data@.subrange(at as int, at + 4)),
{
    let ghost s = data@.subrange(at as int, at + 4);
    let a = data[at] as u32;
    let b = data[at + 1] as u32;
    let c = data[at + 2] as u32;
    let d = data[at + 3] as u32;
    let ghost s1 = s.drop_last().drop_last().drop_last();
    assert(s1.drop_last() =~= Seq::<u8>::empty());
    assert(s1.last() == data@[at as int]);
    assert(be_value(s1.drop_last()) == 0);
    assert(be_value(s1) == a);
    assert(be_value(s.drop_last().drop_last()) == a * 256 + b);
    assert(be_value(s.drop_last()) == (a * 256 + b) * 256 + c);
    assert(be_value(s) == ((a * 256 + b) * 256 + c) * 256 + d);
    ((a * 256 + b) * 256 + c) * 256 + d
}

/// Width and height straight out of the IHDR chunk.
pub fn dimensions(data: &[u8]) -> (r: Result<(u32, u32), Error>)
    ensures
        match dimensions_spec(data@) {
            Ok(wh) => r matches Ok(v) && v == wh,
            Err(m) => r matches Err(Error::Shape(e)) && e@ == m,
        },
{
    let n = data.len();
    if n < 24 {
        let mut m = owned("png too short: ");
        push_u64(&mut m, n as u64);
        push_str(&mut m, " bytes");
        return Err(Error::Shape(m));
    }
    let sig: [u8; 8] = [0x89, 0x50, 0x4E, 0x47, 0x0D, 0x0A, 0x1A, 0x0A];
    let mut i: usize = 0;
    while i < 8
        invariant
            i <= 8,
            n == data@.len(),
            n >= 24,
            sig@ == magic(),
            forall|j: int| 0 <= j < i ==> data@[j] == magic()[j],
        decreases 8 - i,
    {
        if data[i] != sig[i] {
            assert(data@.subrange(0, 8)[i as int] != magic()[i as int]);
            return Err(Error::Shape(owned("not a png (bad magic)")));
        }
        i = i + 1;
    }
    assert(data@.subrange(0, 8) =~= magic());
    if data[12] != 0x49 || data[13] != 0x48 || data[14] != 0x44 || data[15] != 0x52 {
        assert(data@.subrange(12, 16) != ihdr()) by {
            let s = data@.subrange(12, 16);
            assert(s[0] == data@[12] && s[1] == data@[13] && s[2] == data@[14] && s[3]
                == data@[15]);
        }
        return Err(Error::Shape(owned("first chunk is not IHDR")));
    }
    assert(data@.subrange(12, 16) =~= ihdr());
    let w = be32(data, 16);
    let h = be32(data, 20);
    Ok((w, h))
}

/// The first 24 bytes of a PNG of the given size: signature, IHDR length,
/// IHDR type, width, height.
pub open spec fn header(w: u32, h: u32) -> Seq<u8> {
    magic() + be_bytes(13, 4) + ihdr() + be_bytes(w as nat, 4) + be_bytes(h as nat, 4)
}

/// What the header of a `w` x `h` PNG declares is read back as `(w, h)`,
/// whatever follows it.
pub proof fn lemma_dimensions_of_header(w: u32, h: u32, rest: Seq<u8>)
    ensures
        dimensions_spec(header(w, h) + rest) == Ok::<(u32, u32), Seq<char>>((w, h)),
{
    reveal_with_fuel(pow256, 5);
    lemma_be_roundtrip(13, 4);
    lemma_be_roundtrip(w as nat, 4);
    lemma_be_roundtrip(h as nat, 4);
    let d = header(w, h) + rest;
    assert(d.subrange(0, 8) =~= magic());
    assert(d.subrange(12, 16) =~= ihdr());
    assert(d.subrange(16, 20) =~= be_bytes(w as nat, 4));
    assert(d.subrange(20, 24) =~= be_bytes(h as nat, 4));
}

} // verus!
