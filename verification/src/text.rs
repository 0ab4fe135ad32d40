//! Text helpers over `char` sequences: building strings, decimal numbers,
//! searching, trimming and ASCII case folding, each with the meaning std
//! gives the corresponding operation.

use vstd::prelude::*;

verus! {

/// Appends one character (`String::push`).
#[verifier::external_body]
pub(crate) fn push_char(s: &mut String, c: char)
    ensures
        final(s)@ == old(s)@.push(c),
{
    s.push(c);
}

/// Appends a string slice (`String::push_str`).
#[verifier::external_body]
pub(crate) fn push_str(s: &mut String, t: &str)
    ensures
        final(s)@ == old(s)@ + t@,
{
    s.push_str(t);
}

/// An owned copy of a string slice.
pub fn owned(t: &str) -> (s: String)
    ensures
        s@ == t@,
{
    t.to_owned()
}

/// The characters of a string slice.
pub fn chars_of(s: &str) -> (v: Vec<char>)
    ensures
        v@ == s@,
{
    let mut v: Vec<char> = Vec::new();
    for c in it: s.chars()
        invariant
            v@ == it.seq().take(it.index() as int),
    {
        v.push(c);
    }
    v
}

/// A string made of the given characters.
pub fn string_of(cs: &[char]) -> (s: String)
    ensures
        s@ == cs@,
{
    let mut s = String::new();
    let mut i: usize = 0;
    while i < cs.len()
        invariant
            i <= cs.len(),
            s@ == cs@.take(i as int),
        decreases cs.len() - i,
    {
        push_char(&mut s, cs[i]);
        assert(cs@.take(i + 1) == cs@.take(i as int).push(cs@[i as int]));
        i = i + 1;
    }
    assert(cs@.take(cs.len() as int) == cs@);
    s
}

/// The string made of `cs[from..to]`.
pub fn string_of_range(cs: &[char], from: usize, to: usize) -> (s: String)
    requires
        from <= to <= cs.len(),
    ensures
        s@ == cs@.subrange(from as int, to as int),
{
    let mut s = String::new();
    let mut i: usize = from;
    while i < to
        invariant
            from <= i <= to <= cs.len(),
            s@ == cs@.subrange(from as int, i as int),
        decreases to - i,
    {
        push_char(&mut s, cs[i]);
        assert(cs@.subrange(from as int, i + 1) == cs@.subrange(from as int, i as int).push(
            cs@[i as int],
        ));
        i = i + 1;
    }
    s
}

/// The ASCII digit for `d`.
pub open spec fn digit_char(d: nat) -> char {
    ((48 + d) as u8) as char
}

/// Decimal digits of `n`, most significant first, without leading zeros.
pub open spec fn dec(n: nat) -> Seq<char>
    decreases n,
{
    if n < 10 {
        seq![digit_char(n)]
    } else {
        dec(n / 10).push(digit_char(n % 10))
    }
}

/// Decimal text is one or more ASCII digits.
pub proof fn lemma_dec_digits(n: nat)
    ensures
        dec(n).len() >= 1,
        n >= 10 ==> dec(n).len() >= 2,
        forall|i: int| 0 <= i < dec(n).len() ==> '0' <= #[trigger] dec(n)[i] <= '9',
    decreases n,
{
    if n >= 10 {
        lemma_dec_digits(n / 10);
        assert forall|i: int| 0 <= i < dec(n).len() implies '0' <= #[trigger] dec(n)[i] <= '9' by {
            if i < dec(n).len() - 1 {
                assert(dec(n)[i] == dec(n / 10)[i]);
            }
        }
    }
}

/// Different numbers have different decimal texts.
pub proof fn lemma_dec_injective(a: nat, b: nat)
    requires
        dec(a) == dec(b),
    ensures
        a == b,
    decreases a,
{
    lemma_dec_digits(a);
    lemma_dec_digits(b);
    if a >= 10 && b >= 10 {
        assert(dec(a / 10) == dec(a).drop_last());
        assert(dec(b / 10) == dec(b).drop_last());
        lemma_dec_injective(a / 10, b / 10);
        assert(digit_char(a % 10) == dec(a).last());
        assert(digit_char(b % 10) == dec(b).last());
    } else if a < 10 && b < 10 {
        assert(digit_char(a) == dec(a)[0]);
    }
}

/// A number's decimal text followed by text that does not start with a
/// digit determines the number.
pub proof fn lemma_dec_then_non_digit(a: nat, b: nat, x: Seq<char>, y: Seq<char>)
    requires
        dec(a) + x == dec(b) + y,
        x.len() > 0 && !('0' <= x[0] <= '9'),
        y.len() > 0 && !('0' <= y[0] <= '9'),
    ensures
        a == b,
{
    lemma_dec_digits(a);
    lemma_dec_digits(b);
    let la = dec(a).len();
    let lb = dec(b).len();
    if la < lb {
        assert((dec(a) + x)[la as int] == x[0]);
        assert((dec(b) + y)[la as int] == dec(b)[la as int]);
    } else if lb < la {
        assert((dec(b) + y)[lb as int] == y[0]);
        assert((dec(a) + x)[lb as int] == dec(a)[lb as int]);
    } else {
        assert(dec(a) =~= (dec(a) + x).take(la as int));
        assert(dec(b) =~= (dec(b) + y).take(lb as int));
        lemma_dec_injective(a, b);
    }
}

/// `n` in decimal, as `format!("{n}")` writes it.
pub fn u64_text(n: u64) -> (s: String)
    ensures
        s@ == dec(n as nat),
    decreases n,
{
    let d: u8 = (n % 10) as u8;
    let c: char = (48u8 + d) as char;
    if n < 10 {
        let mut s = String::new();
        push_char(&mut s, c);
        s
    } else {
        let mut s = u64_text(n / 10);
        push_char(&mut s, c);
        s
    }
}

/// Appends `n` in decimal.
pub fn push_u64(s: &mut String, n: u64)
    ensures
        final(s)@ == old(s)@ + dec(n as nat),
{
    let t = u64_text(n);
    push_str(s, t.as_str());
}


/// The view of an optional string.
pub open spec fn opt_str(o: Option<String>) -> Option<Seq<char>> {
    match o {
        Some(s) => Some(s@),
        None => None,
    }
}

/// `n` in decimal, with a leading `-` when negative.
pub open spec fn int_text(n: int) -> Seq<char> {
    if n < 0 {
        seq!['-'] + dec((-n) as nat)
    } else {
        dec(n as nat)
    }
}

/// Appends `n` in decimal, as `format!("{n}")` writes an `i64`.
pub fn push_i64(s: &mut String, n: i64)
    ensures
        final(s)@ == old(s)@ + int_text(n as int),
{
    if n < 0 {
        push_char(s, '-');
        let m: u64 = (-(n as i128)) as u64;
        push_u64(s, m);
        assert(old(s)@ + seq!['-'] + dec(m as nat) == old(s)@ + (seq!['-'] + dec(m as nat)));
    } else {
        push_u64(s, n as u64);
    }
}

/// Whether `c` is an ASCII decimal digit.
pub open spec fn is_digit(c: char) -> bool {
    '0' <= c <= '9'
}

/// The value of a run of decimal digits.
pub open spec fn digits_value(s: Seq<char>) -> nat
    decreases s.len(),
{
    if s.len() == 0 {
        0
    } else {
        digits_value(s.drop_last()) * 10 + ((s.last() as u32) - 48) as nat
    }
}

/// Whether every character of `s` is an ASCII digit.
pub open spec fn all_digits(s: Seq<char>) -> bool {
    forall|i: int| 0 <= i < s.len() ==> is_digit(#[trigger] s[i])
}

/// `s` without the one leading `+` that `str::parse` accepts.
pub open spec fn unsigned_digits(s: Seq<char>) -> Seq<char> {
    if s.len() > 0 && s[0] == '+' {
        s.drop_first()
    } else {
        s
    }
}

/// What `str::parse` gives for an unsigned integer type whose largest value
/// is `max`: an optional leading `+`, then one or more ASCII digits whose
/// value does not exceed `max`.
pub open spec fn parse_unsigned(s: Seq<char>, max: nat) -> Option<nat> {
    let d = unsigned_digits(s);
    if d.len() == 0 || !all_digits(d) || digits_value(d) > max {
        None
    } else {
        Some(digits_value(d))
    }
}

proof fn lemma_digits_value_grows(s: Seq<char>, i: int)
    requires
        0 <= i <= s.len(),
        all_digits(s),
    ensures
        digits_value(s.take(i)) <= digits_value(s),
    decreases s.len() - i,
{
    if i < s.len() {
        lemma_digits_value_grows(s, i + 1);
        assert(s.take(i + 1).drop_last() == s.take(i));
    } else {
        assert(s.take(i) == s);
    }
}

/// Parses `cs[from..]` as `str::parse` parses an unsigned integer no larger
/// than `max`.
pub fn parse_unsigned_at(cs: &[char], from: usize, max: u64) -> (r: Option<u64>)
    requires
        from <= cs.len(),
    ensures
        r matches Some(v) ==> parse_unsigned(cs@.skip(from as int), max as nat) == Some(v as nat),
        r is None ==> parse_unsigned(cs@.skip(from as int), max as nat) is None,
{
    let ghost s = cs@.skip(from as int);
    let mut i = from;
    if i < cs.len() && cs[i] == '+' {
        i = i + 1;
    }
    let ghost d = cs@.skip(i as int);
    assert(d == unsigned_digits(s));
    if i == cs.len() {
        return None;
    }
    let start = i;
    let mut acc: u64 = 0;
    while i < cs.len()
        invariant
            start <= i <= cs.len(),
            start < cs.len(),
            d == cs@.skip(start as int),
            s == cs@.skip(from as int),
            d == unsigned_digits(s),
            acc <= max,
            forall|j: int| start <= j < i ==> is_digit(#[trigger] cs@[j]),
            acc as nat == digits_value(cs@.subrange(start as int, i as int)),
        decreases cs.len() - i,
    {
        let c = cs[i];
        if !('0' <= c && c <= '9') {
            assert(d[i - start] == c);
            assert(!is_digit(d[i - start]));
            return None;
        }
        let dv: u64 = ((c as u32) - 48) as u64;
        assert(cs@.subrange(start as int, i + 1).drop_last() == cs@.subrange(start as int, i as int));
        assert(digits_value(cs@.subrange(start as int, i + 1)) == acc * 10 + dv);
        if acc > max / 10 || (acc == max / 10 && dv > max % 10) {
            proof {
                assert(acc * 10 + dv > max) by (nonlinear_arith)
                    requires acc > max / 10 || (acc == max / 10 && dv > max % 10), dv <= 9;
                let ghost dd = cs@.subrange(start as int, cs.len() as int);
                if all_digits(dd) {
                    lemma_digits_value_grows(dd, i + 1 - start);
                    assert(dd.take(i + 1 - start) == cs@.subrange(start as int, i + 1));
                    assert(dd == d);
                }
            }
            return None;
        }
        proof {
            assert(acc * 10 + dv <= max) by (nonlinear_arith)
                requires acc <= (max - dv) / 10, dv <= 9, max >= 0;
        }
        acc = acc * 10 + dv;
        i = i + 1;
    }
    assert(cs@.subrange(start as int, cs.len() as int) == d);
    Some(acc)
}


/// Index of the first `c` in `s`, or -1.
pub open spec fn first_index(s: Seq<char>, c: char) -> int
    decreases s.len(),
{
    if s.len() == 0 {
        -1
    } else if s[0] == c {
        0
    } else {
        let r = first_index(s.drop_first(), c);
        if r < 0 {
            -1
        } else {
            r + 1
        }
    }
}

/// Index of the last `c` in `s`, or -1.
pub open spec fn last_index(s: Seq<char>, c: char) -> int
    decreases s.len(),
{
    if s.len() == 0 {
        -1
    } else if s.last() == c {
        s.len() - 1
    } else {
        last_index(s.drop_last(), c)
    }
}

/// `first_index` is the position of the first `c`, or -1 when there is none.
pub proof fn lemma_first_index(s: Seq<char>, c: char)
    ensures
        -1 <= first_index(s, c) < s.len(),
        first_index(s, c) >= 0 ==> s[first_index(s, c)] == c,
        forall|j: int| 0 <= j < s.len() && (first_index(s, c) < 0 || j < first_index(s, c))
            ==> s[j] != c,
    decreases s.len(),
{
    if s.len() > 0 && s[0] != c {
        lemma_first_index(s.drop_first(), c);
        assert forall|j: int| 0 <= j < s.len() && (first_index(s, c) < 0 || j < first_index(s, c))
            implies s[j] != c by {
            if j > 0 {
                assert(s[j] == s.drop_first()[j - 1]);
            }
        }
    }
}

/// `last_index` is the position of the last `c`, or -1 when there is none.
pub proof fn lemma_last_index(s: Seq<char>, c: char)
    ensures
        -1 <= last_index(s, c) < s.len(),
        last_index(s, c) >= 0 ==> s[last_index(s, c)] == c,
        forall|j: int| 0 <= j < s.len() && j > last_index(s, c) ==> s[j] != c,
    decreases s.len(),
{
    if s.len() > 0 && s.last() != c {
        lemma_last_index(s.drop_last(), c);
        assert forall|j: int| 0 <= j < s.len() && j > last_index(s, c) implies s[j] != c by {
            if j < s.len() - 1 {
                assert(s[j] == s.drop_last()[j]);
            }
        }
    }
}

/// Position of the first `c` in `cs`, like `str::find` with a `char`.
pub fn find_char(cs: &[char], c: char) -> (r: Option<usize>)
    ensures
        r matches Some(i) ==> i as int == first_index(cs@, c) && i < cs@.len() && cs@[i as int]
            == c,
        r is None ==> first_index(cs@, c) == -1,
{
    proof {
        lemma_first_index(cs@, c);
    }
    let mut i: usize = 0;
    while i < cs.len()
        invariant
            i <= cs.len(),
            forall|j: int| 0 <= j < i ==> cs@[j] != c,
            -1 <= first_index(cs@, c) < cs@.len(),
            first_index(cs@, c) >= 0 ==> cs@[first_index(cs@, c)] == c,
            forall|j: int| 0 <= j < cs@.len() && (first_index(cs@, c) < 0 || j < first_index(cs@, c))
                ==> cs@[j] != c,
        decreases cs.len() - i,
    {
        if cs[i] == c {
            return Some(i);
        }
        i = i + 1;
    }
    None
}

/// Position of the last `c` in `cs`, like `str::rfind` with a `char`.
pub fn rfind_char(cs: &[char], c: char) -> (r: Option<usize>)
    ensures
        r matches Some(i) ==> i as int == last_index(cs@, c) && i < cs@.len() && cs@[i as int]
            == c,
        r is None ==> last_index(cs@, c) == -1,
{
    proof {
        lemma_last_index(cs@, c);
    }
    let mut i: usize = cs.len();
    while i > 0
        invariant
            i <= cs.len(),
            forall|j: int| i <= j < cs.len() ==> cs@[j] != c,
            -1 <= last_index(cs@, c) < cs@.len(),
            last_index(cs@, c) >= 0 ==> cs@[last_index(cs@, c)] == c,
            forall|j: int| 0 <= j < cs@.len() && j > last_index(cs@, c) ==> cs@[j] != c,
        decreases i,
    {
        if cs[i - 1] == c {
            return Some(i - 1);
        }
        i = i - 1;
    }
    None
}

/// Whether `t` occurs in `s` at position `k`.
pub open spec fn occurs_at<A>(s: Seq<A>, t: Seq<A>, k: int) -> bool {
    0 <= k && k + t.len() <= s.len() && s.subrange(k, k + t.len()) == t
}

/// Whether `t` occurs anywhere in `s` (`str::contains`).
pub open spec fn has_sub(s: Seq<char>, t: Seq<char>) -> bool {
    exists|k: int| occurs_at(s, t, k)
}

/// Whether `s` begins with `t` (`str::starts_with`).
pub open spec fn starts_with(s: Seq<char>, t: Seq<char>) -> bool {
    t.len() <= s.len() && s.take(t.len() as int) == t
}

/// Whether `s` ends with `t` (`str::ends_with`).
pub open spec fn ends_with(s: Seq<char>, t: Seq<char>) -> bool {
    t.len() <= s.len() && s.skip(s.len() - t.len()) == t
}

/// Whether `t` occurs in `s` starting at `k`.
pub fn matches_at(s: &[char], t: &[char], k: usize) -> (r: bool)
    ensures
        r == occurs_at(s@, t@, k as int),
{
    if k > s.len() || t.len() > s.len() - k {
        return false;
    }
    let mut i: usize = 0;
    while i < t.len()
        invariant
            k + t.len() <= s.len(),
            i <= t.len(),
            forall|j: int| 0 <= j < i ==> s@[k + j] == t@[j],
        decreases t.len() - i,
    {
        if s[k + i] != t[i] {
            assert(s@.subrange(k as int, k + t.len())[i as int] != t@[i as int]);
            return false;
        }
        i = i + 1;
    }
    assert(s@.subrange(k as int, k + t.len()) == t@);
    true
}

/// Whether `t` occurs in `s` (`str::contains` with a string pattern).
pub fn contains(s: &[char], t: &[char]) -> (r: bool)
    ensures
        r == has_sub(s@, t@),
{
    if t.len() == 0 {
        assert(s@.subrange(0, 0) =~= t@);
        assert(occurs_at(s@, t@, 0));
        return true;
    }
    if t.len() > s.len() {
        assert forall|j: int| !occurs_at(s@, t@, j) by {}
        return false;
    }
    let last = s.len() - t.len();
    let mut k: usize = 0;
    while k <= last
        invariant
            last == s.len() - t.len(),
            t.len() >= 1,
            k <= last + 1,
            forall|j: int| 0 <= j < k ==> !occurs_at(s@, t@, j),
        decreases last + 1 - k,
    {
        if matches_at(s, t, k) {
            return true;
        }
        k = k + 1;
    }
    assert forall|j: int| !occurs_at(s@, t@, j) by {
        if 0 <= j < k {
        }
    }
    false
}

/// Whether `s` begins with `t`.
pub fn begins_with(s: &[char], t: &[char]) -> (r: bool)
    ensures
        r == starts_with(s@, t@),
{
    let r = matches_at(s, t, 0);
    proof {
        if t@.len() <= s@.len() {
            assert(s@.subrange(0, t@.len() as int) == s@.take(t@.len() as int));
        }
    }
    r
}

/// `c` with ASCII upper case folded to lower case (`char::to_ascii_lowercase`).
pub open spec fn ascii_lower(c: char) -> char {
    if 'A' <= c <= 'Z' {
        ((c as u32) + 32) as char
    } else {
        c
    }
}

/// `s` with ASCII upper case folded to lower case.
pub open spec fn lower(s: Seq<char>) -> Seq<char> {
    s.map_values(|c: char| ascii_lower(c))
}

/// `char::to_ascii_lowercase`.
pub fn to_ascii_lower(c: char) -> (r: char)
    ensures
        r == ascii_lower(c),
{
    if 'A' <= c && c <= 'Z' {
        (((c as u32) + 32) as u8) as char
    } else {
        c
    }
}

/// `str::eq_ignore_ascii_case`.
pub fn eq_ignore_ascii_case(a: &[char], b: &[char]) -> (r: bool)
    ensures
        r == (lower(a@) == lower(b@)),
{
    if a.len() != b.len() {
        assert(lower(a@).len() != lower(b@).len());
        return false;
    }
    let mut i: usize = 0;
    while i < a.len()
        invariant
            a.len() == b.len(),
            i <= a.len(),
            forall|j: int| 0 <= j < i ==> ascii_lower(a@[j]) == ascii_lower(b@[j]),
        decreases a.len() - i,
    {
        if to_ascii_lower(a[i]) != to_ascii_lower(b[i]) {
            assert(lower(a@)[i as int] != lower(b@)[i as int]);
            return false;
        }
        i = i + 1;
    }
    assert(lower(a@) =~= lower(b@));
    true
}

/// Unicode `White_Space`, which `char::is_whitespace` and `str::trim` use.
pub open spec fn is_ws(c: char) -> bool {
    let u = c as u32;
    (9 <= u <= 13) || u == 32 || u == 0x85 || u == 0xA0 || u == 0x1680 || (0x2000 <= u
        <= 0x200A) || u == 0x2028 || u == 0x2029 || u == 0x202F || u == 0x205F || u == 0x3000
}

/// `char::is_whitespace`.
pub fn is_whitespace(c: char) -> (r: bool)
    ensures
        r == is_ws(c),
{
    let u = c as u32;
    (9 <= u && u <= 13) || u == 32 || u == 0x85 || u == 0xA0 || u == 0x1680 || (0x2000 <= u
        && u <= 0x200A) || u == 0x2028 || u == 0x2029 || u == 0x202F || u == 0x205F || u
        == 0x3000
}

/// `s` without leading white space.
pub open spec fn trim_start(s: Seq<char>) -> Seq<char>
    decreases s.len(),
{
    if s.len() > 0 && is_ws(s[0]) {
        trim_start(s.drop_first())
    } else {
        s
    }
}

/// `s` without trailing white space.
pub open spec fn trim_end(s: Seq<char>) -> Seq<char>
    decreases s.len(),
{
    if s.len() > 0 && is_ws(s.last()) {
        trim_end(s.drop_last())
    } else {
        s
    }
}

/// `str::trim`.
pub open spec fn trim(s: Seq<char>) -> Seq<char> {
    trim_end(trim_start(s))
}

/// The bounds of `trim(cs[from..to])` within `cs`.
pub fn trim_bounds(cs: &[char], from: usize, to: usize) -> (r: (usize, usize))
    requires
        from <= to <= cs.len(),
    ensures
        from <= r.0 <= r.1 <= to,
        cs@.subrange(r.0 as int, r.1 as int) == trim(cs@.subrange(from as int, to as int)),
{
    let mut a = from;
    while a < to && is_whitespace(cs[a])
        invariant
            from <= a <= to <= cs.len(),
            trim_start(cs@.subrange(from as int, to as int)) == trim_start(
                cs@.subrange(a as int, to as int),
            ),
        decreases to - a,
    {
        assert(cs@.subrange(a as int, to as int).drop_first() == cs@.subrange(a + 1, to as int));
        a = a + 1;
    }
    let mut b = to;
    while b > a && is_whitespace(cs[b - 1])
        invariant
            from <= a <= b <= to <= cs.len(),
            trim_end(cs@.subrange(a as int, to as int)) == trim_end(
                cs@.subrange(a as int, b as int),
            ),
        decreases b,
    {
        assert(cs@.subrange(a as int, b as int).drop_last() == cs@.subrange(a as int, b - 1));
        b = b - 1;
    }
    (a, b)
}


/// Position of the first occurrence of `t` in `s`, or -1.
pub open spec fn first_occurrence<A>(s: Seq<A>, t: Seq<A>) -> int
    decreases s.len(),
{
    if t.len() > s.len() {
        -1
    } else if s.len() == 0 || s.take(t.len() as int) == t {
        0
    } else {
        let r = first_occurrence(s.drop_first(), t);
        if r < 0 {
            -1
        } else {
            r + 1
        }
    }
}

/// `first_occurrence` is the position of the first occurrence of `t`, or -1
/// when there is none.
pub proof fn lemma_first_occurrence<A>(s: Seq<A>, t: Seq<A>)
    ensures
        -1 <= first_occurrence(s, t),
        first_occurrence(s, t) >= 0 ==> occurs_at(s, t, first_occurrence(s, t)),
        forall|j: int|
            0 <= j && (first_occurrence(s, t) < 0 || j < first_occurrence(s, t)) ==> !occurs_at(
                s,
                t,
                j,
            ),
    decreases s.len(),
{
    if t.len() > s.len() {
    } else if s.len() == 0 || s.take(t.len() as int) == t {
        assert(s.subrange(0, t.len() as int) == s.take(t.len() as int));
        if s.len() == 0 {
            assert(s.take(0) =~= t);
        }
    } else {
        lemma_first_occurrence(s.drop_first(), t);
        assert(!occurs_at(s, t, 0)) by {
            assert(s.subrange(0, t.len() as int) == s.take(t.len() as int));
        }
        assert forall|j: int|
            0 < j && (first_occurrence(s, t) < 0 || j < first_occurrence(s, t)) implies !occurs_at(
            s,
            t,
            j,
        ) by {
            assert(!occurs_at(s.drop_first(), t, j - 1));
            if j + t.len() <= s.len() {
                assert(s.subrange(j, j + t.len()) == s.drop_first().subrange(j - 1, j - 1 + t.len()));
            }
        }
        let r = first_occurrence(s.drop_first(), t);
        if r >= 0 {
            assert(s.subrange(r + 1, r + 1 + t.len()) == s.drop_first().subrange(r, r + t.len()));
        }
    }
}

proof fn lemma_occurs_shift<A>(s: Seq<A>, t: Seq<A>, from: int, j: int)
    requires
        0 <= from <= s.len(),
    ensures
        occurs_at(s.skip(from), t, j) <==> (j >= 0 && occurs_at(s, t, from + j)),
{
    if j >= 0 && from + j + t.len() <= s.len() {
        assert(s.skip(from).subrange(j, j + t.len()) == s.subrange(from + j, from + j + t.len()));
    }
}

/// Position in `cs` of the first occurrence of `t` at or after `from`.
pub fn find_chars_from(cs: &[char], t: &[char], from: usize) -> (r: Option<usize>)
    requires
        from <= cs.len(),
    ensures
        r matches Some(k) ==> k - from == first_occurrence(cs@.skip(from as int), t@) && from <= k
            && k + t@.len() <= cs@.len() && occurs_at(cs@, t@, k as int),
        r is None ==> first_occurrence(cs@.skip(from as int), t@) == -1,
{
    let ghost s = cs@.skip(from as int);
    proof {
        lemma_first_occurrence(s, t@);
    }
    if t.len() > cs.len() - from {
        return None;
    }
    if t.len() == 0 {
        proof {
            lemma_occurs_shift(cs@, t@, from as int, 0);
            assert(cs@.subrange(from as int, from as int) =~= t@);
            assert(occurs_at(s, t@, 0));
            assert(occurs_at(cs@, t@, from as int));
        }
        return Some(from);
    }
    let last = cs.len() - t.len();
    let mut k = from;
    while k <= last
        invariant
            from <= k <= last + 1,
            last == cs.len() - t.len(),
            t.len() > 0,
            s == cs@.skip(from as int),
            -1 <= first_occurrence(s, t@),
            first_occurrence(s, t@) >= 0 ==> occurs_at(s, t@, first_occurrence(s, t@)),
            forall|j: int|
                0 <= j && (first_occurrence(s, t@) < 0 || j < first_occurrence(s, t@)) ==> !occurs_at(
                    s,
                    t@,
                    j,
                ),
            forall|j: int| 0 <= j < k - from ==> !occurs_at(s, t@, j),
        decreases last + 1 - k,
    {
        if matches_at(cs, t, k) {
            proof {
                lemma_occurs_shift(cs@, t@, from as int, k - from);
            }
            return Some(k);
        }
        proof {
            lemma_occurs_shift(cs@, t@, from as int, k - from);
        }
        k = k + 1;
    }
    proof {
        let f = first_occurrence(s, t@);
        if f >= 0 {
            assert(!occurs_at(s, t@, f));
        }
    }
    None
}

/// Position of the first occurrence of `needle` in `hay`, like the
/// `windows(..).position(..)` search; an empty needle is never found.
pub fn find_subslice(hay: &[u8], needle: &[u8]) -> (r: Option<usize>)
    ensures
        needle@.len() == 0 ==> r is None,
        needle@.len() > 0 ==> match r {
            Some(k) => k == first_occurrence(hay@, needle@),
            None => first_occurrence(hay@, needle@) == -1,
        },
{
    proof {
        lemma_first_occurrence(hay@, needle@);
    }
    if needle.len() == 0 || hay.len() < needle.len() {
        return None;
    }
    let last = hay.len() - needle.len();
    let mut k: usize = 0;
    while k <= last
        invariant
            k <= last + 1,
            last == hay.len() - needle.len(),
            needle.len() > 0,
            -1 <= first_occurrence(hay@, needle@),
            first_occurrence(hay@, needle@) >= 0 ==> occurs_at(
                hay@,
                needle@,
                first_occurrence(hay@, needle@),
            ),
            forall|j: int|
                0 <= j && (first_occurrence(hay@, needle@) < 0 || j < first_occurrence(
                    hay@,
                    needle@,
                )) ==> !occurs_at(hay@, needle@, j),
            forall|j: int| 0 <= j < k ==> !occurs_at(hay@, needle@, j),
        decreases last + 1 - k,
    {
        let mut i: usize = 0;
        let mut same = true;
        while i < needle.len()
            invariant
                k + needle.len() <= hay.len(),
                i <= needle.len(),
                same ==> forall|j: int| 0 <= j < i ==> hay@[k + j] == needle@[j],
                !same ==> !occurs_at(hay@, needle@, k as int),
            decreases needle.len() - i,
        {
            if hay[k + i] != needle[i] {
                assert(hay@.subrange(k as int, k + needle.len())[i as int] != needle@[i as int]);
                same = false;
            }
            i = i + 1;
        }
        if same {
            assert(hay@.subrange(k as int, k + needle.len()) =~= needle@);
            assert(occurs_at(hay@, needle@, k as int));
            return Some(k);
        }
        k = k + 1;
    }
    proof {
        let f = first_occurrence(hay@, needle@);
        if f >= 0 {
            assert(!occurs_at(hay@, needle@, f));
        }
    }
    None
}

/// `cs[from..]` as a vector.
pub fn slice_from(cs: &[char], from: usize) -> (v: Vec<char>)
    requires
        from <= cs.len(),
    ensures
        v@ == cs@.skip(from as int),
{
    slice_range(cs, from, cs.len())
}

/// `cs[from..to]` as a vector.
pub fn slice_range(cs: &[char], from: usize, to: usize) -> (v: Vec<char>)
    requires
        from <= to <= cs.len(),
    ensures
        v@ == cs@.subrange(from as int, to as int),
{
    let mut v: Vec<char> = Vec::new();
    let mut i = from;
    while i < to
        invariant
            from <= i <= to <= cs.len(),
            v@ == cs@.subrange(from as int, i as int),
        decreases to - i,
    {
        v.push(cs[i]);
        assert(cs@.subrange(from as int, i + 1) == cs@.subrange(from as int, i as int).push(
            cs@[i as int],
        ));
        i = i + 1;
    }
    v
}

} // verus!
