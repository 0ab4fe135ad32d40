//! The determinism preamble: the script injected before any page script on
//! every document, which freezes the clock, seeds the random number
//! generators and replaces the animation clock with a virtual one, so that
//! a rerun reproduces a screenshot set byte for byte.

use vstd::prelude::*;
use crate::text::{
    dec, owned, push_i64, push_str, push_u64, int_text, lemma_dec_then_non_digit, has_sub, occurs_at,
};

verus! {

/// The script up to the seed.
pub const SEED_PREFIX: &'static str = "(() => {\n  let s = ";

/// The seeded `Math.random`, up to the frozen instant.
pub const EPOCH_PREFIX: &'static str = " >>> 0;\n  Math.random = function () {\n    s |= 0; s = (s + 0x6D2B79F5) | 0;\n    let t = Math.imul(s ^ (s >>> 15), 1 | s);\n    t = (t + Math.imul(t ^ (t >>> 7), 61 | t)) ^ t;\n    return ((t ^ (t >>> 14)) >>> 0) / 4294967296;\n  };\n  const T0 = ";

/// The frozen `Date` and virtual `performance.now`, up to the frame interval.
pub const FRAME_PREFIX: &'static str = ";\n  const RealDate = Date;\n  function FrozenDate(...a) {\n    if (!(this instanceof FrozenDate)) return new RealDate(T0).toString();\n    return a.length ? new RealDate(...a) : new RealDate(T0);\n  }\n  FrozenDate.prototype = RealDate.prototype;\n  FrozenDate.now = () => T0;\n  FrozenDate.parse = RealDate.parse;\n  FrozenDate.UTC = RealDate.UTC;\n  Object.defineProperty(FrozenDate, 'name', { value: 'Date' });\n  window.Date = FrozenDate;\n\n  let perf = 0;\n  performance.now = () => perf;\n\n  const FRAME = ";

/// The virtual animation clock and the seeded `crypto.getRandomValues`.
pub const CLOSING: &'static str = ";\n  window.requestAnimationFrame = (cb) => {\n    perf += FRAME;\n    const t = perf;\n    return setTimeout(() => cb(t), 0);\n  };\n  window.cancelAnimationFrame = (h) => clearTimeout(h);\n\n  // crypto.getRandomValues is a second entropy source that would otherwise\n  // leak nondeterminism into anything generating ids.\n  if (window.crypto && crypto.getRandomValues) {\n    crypto.getRandomValues = (arr) => {\n      for (let i = 0; i < arr.length; i++) {\n        arr[i] = Math.floor(Math.random() * 256);\n      }\n      return arr;\n    };\n  }\n})();";

/// The preamble for PRNG seed `seed`, frozen instant `epoch_ms` (milliseconds
/// since the epoch) and virtual frame interval `frame` (the interval's
/// decimal text): a mulberry32 `Math.random` seeded with `seed`, a `Date`
/// frozen at `epoch_ms`, a `performance.now` and `requestAnimationFrame`
/// that advance by `frame` per frame, and a `crypto.getRandomValues` fed
/// from the seeded generator.
pub open spec fn preamble_spec(seed: u64, epoch_ms: i64, frame: Seq<char>) -> Seq<char> {
    SEED_PREFIX@ + dec(seed as nat) + EPOCH_PREFIX@ + int_text(epoch_ms as int) + FRAME_PREFIX@ + frame + CLOSING@
}

/// Render the preamble.
pub fn preamble_script(seed: u64, epoch_ms: i64, frame: &str) -> (r: String)
    ensures
        r@ == preamble_spec(seed, epoch_ms, frame@),
{
    let mut r = owned(SEED_PREFIX);
    push_u64(&mut r, seed);
    push_str(&mut r, EPOCH_PREFIX);
    push_i64(&mut r, epoch_ms);
    push_str(&mut r, FRAME_PREFIX);
    push_str(&mut r, frame);
    push_str(&mut r, CLOSING);
    r
}

/// The preamble is determined by the seed: with the same instant and frame
/// interval, two seeds give the same script exactly when they are equal.
/// Timezone and locale do not enter it.
pub proof fn lemma_preamble_determined_by_seed(s1: u64, s2: u64, epoch_ms: i64, frame: Seq<char>)
    ensures
        (preamble_spec(s1, epoch_ms, frame) == preamble_spec(s2, epoch_ms, frame)) == (s1 == s2),
{
    if preamble_spec(s1, epoch_ms, frame) == preamble_spec(s2, epoch_ms, frame) {
        reveal_strlit(" >>> 0;\n  Math.random = function () {\n    s |= 0; s = (s + 0x6D2B79F5) | 0;\n    let t = Math.imul(s ^ (s >>> 15), 1 | s);\n    t = (t + Math.imul(t ^ (t >>> 7), 61 | t)) ^ t;\n    return ((t ^ (t >>> 14)) >>> 0) / 4294967296;\n  };\n  const T0 = ");
        let p = SEED_PREFIX@;
        let rest = EPOCH_PREFIX@ + int_text(epoch_ms as int) + FRAME_PREFIX@ + frame + CLOSING@;
        let t1 = preamble_spec(s1, epoch_ms, frame);
        let t2 = preamble_spec(s2, epoch_ms, frame);
        assert(t1 =~= p + (dec(s1 as nat) + rest));
        assert(t2 =~= p + (dec(s2 as nat) + rest));
        assert(dec(s1 as nat) + rest =~= t1.skip(p.len() as int));
        assert(dec(s2 as nat) + rest =~= t2.skip(p.len() as int));
        assert(rest[0] == EPOCH_PREFIX@[0]);
        lemma_dec_then_non_digit(s1 as nat, s2 as nat, rest, rest);
    }
}

/// The preamble's animation clock is virtual and advances by the given
/// frame interval: whatever the seed, instant and interval, the script
/// defines `FRAME` as `frame` and overrides `requestAnimationFrame` so that
/// each frame first adds `FRAME` to the virtual time that `performance.now`
/// reports, then hands that time to the callback.
pub proof fn lemma_preamble_advances_by_frame(seed: u64, epoch_ms: i64, frame: Seq<char>)
    ensures
        has_sub(
            preamble_spec(seed, epoch_ms, frame),
            "const FRAME = "@ + frame
                + ";\n  window.requestAnimationFrame = (cb) => {\n    perf += FRAME;\n    const t = perf;\n    return setTimeout(() => cb(t), 0);"@,
        ),
        has_sub(preamble_spec(seed, epoch_ms, frame), "performance.now = () => perf;"@),
{
    reveal_strlit(";\n  const RealDate = Date;\n  function FrozenDate(...a) {\n    if (!(this instanceof FrozenDate)) return new RealDate(T0).toString();\n    return a.length ? new RealDate(...a) : new RealDate(T0);\n  }\n  FrozenDate.prototype = RealDate.prototype;\n  FrozenDate.now = () => T0;\n  FrozenDate.parse = RealDate.parse;\n  FrozenDate.UTC = RealDate.UTC;\n  Object.defineProperty(FrozenDate, 'name', { value: 'Date' });\n  window.Date = FrozenDate;\n\n  let perf = 0;\n  performance.now = () => perf;\n\n  const FRAME = ");
    reveal_strlit(";\n  window.requestAnimationFrame = (cb) => {\n    perf += FRAME;\n    const t = perf;\n    return setTimeout(() => cb(t), 0);\n  };\n  window.cancelAnimationFrame = (h) => clearTimeout(h);\n\n  // crypto.getRandomValues is a second entropy source that would otherwise\n  // leak nondeterminism into anything generating ids.\n  if (window.crypto && crypto.getRandomValues) {\n    crypto.getRandomValues = (arr) => {\n      for (let i = 0; i < arr.length; i++) {\n        arr[i] = Math.floor(Math.random() * 256);\n      }\n      return arr;\n    };\n  }\n})();");
    reveal_strlit("const FRAME = ");
    reveal_strlit(";\n  window.requestAnimationFrame = (cb) => {\n    perf += FRAME;\n    const t = perf;\n    return setTimeout(() => cb(t), 0);");
    reveal_strlit("performance.now = () => perf;");
    let s = preamble_spec(seed, epoch_ms, frame);
    let a = SEED_PREFIX@ + dec(seed as nat) + EPOCH_PREFIX@ + int_text(epoch_ms as int);
    let f = FRAME_PREFIX@;
    let c = CLOSING@;
    assert(s =~= a + f + frame + c);
    let t1 = "const FRAME = "@ + frame
        + ";\n  window.requestAnimationFrame = (cb) => {\n    perf += FRAME;\n    const t = perf;\n    return setTimeout(() => cb(t), 0);"@;
    let tail = ";\n  window.requestAnimationFrame = (cb) => {\n    perf += FRAME;\n    const t = perf;\n    return setTimeout(() => cb(t), 0);"@;
    let k1: int = a.len() + f.len() - 14;
    assert(f.skip(f.len() - 14) =~= "const FRAME = "@);
    assert(c.take(tail.len() as int) =~= tail);
    assert(s.subrange(k1, k1 + t1.len() as int) =~= t1);
    assert(occurs_at(s, t1, k1));
    let t2 = "performance.now = () => perf;"@;
    let k2: int = a.len() as int + 452;
    assert(f.subrange(452, 452 + t2.len() as int) =~= t2);
    assert(s.subrange(k2, k2 + t2.len() as int) =~= t2);
    assert(occurs_at(s, t2, k2));
}

} // verus!
