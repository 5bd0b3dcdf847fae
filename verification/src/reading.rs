//! Sensor readings: which text lines count as a decimal reading.
//!
//! A line from the device is accepted when, after trimming surrounding
//! whitespace (the Unicode white-space characters, matched by their
//! UTF-8 bytes), it is a well-formed decimal floating-point literal:
//! an optional sign followed by either one of the words `inf`, `infinity`
//! or `nan` (in any letter case) or a number made of digits with an
//! optional fraction part and an optional exponent part.

use vstd::prelude::*;

verus! {

pub const BYTE_PLUS: u8 = 43;
pub const BYTE_MINUS: u8 = 45;
pub const BYTE_DOT: u8 = 46;
pub const BYTE_LOWER_E: u8 = 101;
pub const BYTE_UPPER_E: u8 = 69;

/// ASCII decimal digits `0` to `9`.
pub open spec fn is_digit(b: u8) -> bool {
    48 <= b <= 57
}

/// A leading sign byte, `+` or `-`.
pub open spec fn is_sign(b: u8) -> bool {
    b == BYTE_PLUS || b == BYTE_MINUS
}

/// The byte that opens an exponent part, `e` or `E`.
pub open spec fn is_exp_marker(b: u8) -> bool {
    b == BYTE_LOWER_E || b == BYTE_UPPER_E
}

/// The one-byte whitespace characters: space, horizontal tab, line
/// feed, vertical tab, form feed, carriage return.
pub open spec fn is_ascii_space(b: u8) -> bool {
    b == 32 || 9 <= b <= 13
}

/// The UTF-8 bytes of a two-byte whitespace character: `C2 85` is
/// U+0085 (next line), `C2 A0` is U+00A0 (no-break space).
pub open spec fn is_two_byte_space(a: u8, b: u8) -> bool {
    a == 0xc2 && (b == 0x85 || b == 0xa0)
}

/// The UTF-8 bytes of a three-byte whitespace character: U+1680,
/// U+2000 to U+200A, U+2028, U+2029, U+202F, U+205F and U+3000.
pub open spec fn is_three_byte_space(a: u8, b: u8, c: u8) -> bool {
    (a == 0xe1 && b == 0x9a && c == 0x80) || (a == 0xe2 && b == 0x80 && (0x80 <= c <= 0x8a || c
        == 0xa8 || c == 0xa9 || c == 0xaf)) || (a == 0xe2 && b == 0x81 && c == 0x9f) || (a == 0xe3
        && b == 0x80 && c == 0x80)
}

/// How many leading bytes of `s` spell one whitespace character: 1, 2
/// or 3, or 0 when `s` does not begin with whitespace. Together these
/// cover the UTF-8 encodings of every Unicode white-space character.
pub open spec fn space_prefix_len(s: Seq<u8>) -> int {
    if s.len() >= 1 && is_ascii_space(s[0]) {
        1
    } else if s.len() >= 2 && is_two_byte_space(s[0], s[1]) {
        2
    } else if s.len() >= 3 && is_three_byte_space(s[0], s[1], s[2]) {
        3
    } else {
        0
    }
}

/// How many trailing bytes of `s` spell one whitespace character: 1,
/// 2 or 3, or 0 when `s` does not end with whitespace. The three
/// patterns cannot overlap, since no whitespace encoding ends in a
/// byte that another one accepts at the same position.
pub open spec fn space_suffix_len(s: Seq<u8>) -> int {
    if s.len() >= 1 && is_ascii_space(s[s.len() - 1]) {
        1
    } else if s.len() >= 2 && is_two_byte_space(s[s.len() - 2], s[s.len() - 1]) {
        2
    } else if s.len() >= 3 && is_three_byte_space(s[s.len() - 3], s[s.len() - 2], s[s.len() - 1]) {
        3
    } else {
        0
    }
}

/// Every byte of `s` is a decimal digit.
pub open spec fn all_digits(s: Seq<u8>) -> bool {
    forall|i: int| 0 <= i < s.len() ==> is_digit(#[trigger] s[i])
}

/// `s` without its leading sign byte, if it has one.
pub open spec fn strip_sign(s: Seq<u8>) -> Seq<u8> {
    if s.len() > 0 && is_sign(s[0]) {
        s.skip(1)
    } else {
        s
    }
}

/// The digit part of a number: digits, or digits around a single dot,
/// with at least one digit in total.
pub open spec fn is_mantissa(m: Seq<u8>) -> bool {
    (m.len() > 0 && all_digits(m)) || (m.len() > 1 && exists|i: int|
        0 <= i < m.len() && (#[trigger] m[i]) == BYTE_DOT && all_digits(m.take(i)) && all_digits(
            m.skip(i + 1),
        ))
}

/// What may follow an exponent marker: an optional sign, then at least
/// one digit.
pub open spec fn is_exp_tail(x: Seq<u8>) -> bool {
    strip_sign(x).len() > 0 && all_digits(strip_sign(x))
}

/// An unsigned number: a mantissa, optionally followed by an exponent
/// marker and an exponent tail.
pub open spec fn is_number(t: Seq<u8>) -> bool {
    is_mantissa(t) || (exists|j: int|
        0 <= j < t.len() && is_exp_marker(#[trigger] t[j]) && is_mantissa(t.take(j)) && is_exp_tail(
            t.skip(j + 1),
        ))
}

/// The lower-case image of an ASCII byte.
pub open spec fn to_lower(b: u8) -> u8 {
    if 65 <= b <= 90 {
        (b + 32) as u8
    } else {
        b
    }
}

/// `s` equals the (already lower-case) word `w` up to letter case.
pub open spec fn lower_matches(s: Seq<u8>, w: Seq<u8>) -> bool {
    s.len() == w.len() && forall|i: int| 0 <= i < s.len() ==> to_lower(#[trigger] s[i]) == w[i]
}

/// The bytes of the word `inf`.
pub open spec fn word_inf() -> Seq<u8> {
    seq![105u8, 110u8, 102u8]
}

/// The bytes of the word `infinity`.
pub open spec fn word_infinity() -> Seq<u8> {
    seq![105u8, 110u8, 102u8, 105u8, 110u8, 105u8, 116u8, 121u8]
}

/// The bytes of the word `nan`.
pub open spec fn word_nan() -> Seq<u8> {
    seq![110u8, 97u8, 110u8]
}

/// The unsigned special words: `inf`, `infinity` and `nan`, in any case.
pub open spec fn is_special(t: Seq<u8>) -> bool {
    lower_matches(t, word_inf()) || lower_matches(t, word_infinity()) || lower_matches(
        t,
        word_nan(),
    )
}

/// A well-formed decimal floating-point literal: an optional sign, then
/// a special word or a number.
pub open spec fn is_float_literal(s: Seq<u8>) -> bool {
    is_special(strip_sign(s)) || is_number(strip_sign(s))
}

/// `s` with leading whitespace removed, one character at a time.
pub open spec fn trim_front(s: Seq<u8>) -> Seq<u8>
    decreases s.len(),
{
    let k = space_prefix_len(s);
    if k == 0 {
        s
    } else {
        trim_front(s.skip(k))
    }
}

/// `s` with trailing whitespace removed, one character at a time.
pub open spec fn trim_back(s: Seq<u8>) -> Seq<u8>
    decreases s.len(),
{
    let k = space_suffix_len(s);
    if k == 0 {
        s
    } else {
        trim_back(s.take(s.len() - k))
    }
}

/// `s` with surrounding whitespace removed.
pub open spec fn trimmed(s: Seq<u8>) -> Seq<u8> {
    trim_back(trim_front(s))
}

/// Reports whether a byte is an ASCII decimal digit.
pub fn byte_is_digit(b: u8) -> (r: bool)
    ensures
        r == is_digit(b),
{
    48 <= b && b <= 57
}

/// Reports whether a byte is one-byte whitespace.
pub fn byte_is_ascii_space(b: u8) -> (r: bool)
    ensures
        r == is_ascii_space(b),
{
    b == 32 || (9 <= b && b <= 13)
}

/// Reports whether three bytes spell a three-byte whitespace
/// character.
fn bytes_are_three_byte_space(a: u8, b: u8, c: u8) -> (r: bool)
    ensures
        r == is_three_byte_space(a, b, c),
{
    (a == 0xe1 && b == 0x9a && c == 0x80) || (a == 0xe2 && b == 0x80 && ((0x80 <= c && c <= 0x8a)
        || c == 0xa8 || c == 0xa9 || c == 0xaf)) || (a == 0xe2 && b == 0x81 && c == 0x9f) || (a
        == 0xe3 && b == 0x80 && c == 0x80)
}

/// The length of the whitespace character that `s` holds at position
/// `i`, if any.
fn space_prefix_at(s: &[u8], i: usize) -> (k: usize)
    requires
        i <= s@.len(),
    ensures
        k == space_prefix_len(s@.skip(i as int)),
{
    let n = s.len();
    proof {
        let sub = s@.skip(i as int);
        if sub.len() >= 1 {
            assert(sub[0] == s@[i as int]);
        }
        if sub.len() >= 2 {
            assert(sub[1] == s@[i as int + 1]);
        }
        if sub.len() >= 3 {
            assert(sub[2] == s@[i as int + 2]);
        }
    }
    if n - i >= 1 && byte_is_ascii_space(s[i]) {
        1
    } else if n - i >= 2 && s[i] == 0xc2 && (s[i + 1] == 0x85 || s[i + 1] == 0xa0) {
        2
    } else if n - i >= 3 && bytes_are_three_byte_space(s[i], s[i + 1], s[i + 2]) {
        3
    } else {
        0
    }
}

/// The length of the whitespace character that `s` ends with just
/// before position `end`, looking no further back than `start`.
fn space_suffix_at(s: &[u8], start: usize, end: usize) -> (k: usize)
    requires
        start <= end <= s@.len(),
    ensures
        k == space_suffix_len(s@.subrange(start as int, end as int)),
{
    let m = end - start;
    proof {
        let cur = s@.subrange(start as int, end as int);
        if cur.len() >= 1 {
            assert(cur[cur.len() - 1] == s@[end - 1]);
        }
        if cur.len() >= 2 {
            assert(cur[cur.len() - 2] == s@[end - 2]);
        }
        if cur.len() >= 3 {
            assert(cur[cur.len() - 3] == s@[end - 3]);
        }
    }
    if m >= 1 && byte_is_ascii_space(s[end - 1]) {
        1
    } else if m >= 2 && s[end - 2] == 0xc2 && (s[end - 1] == 0x85 || s[end - 1] == 0xa0) {
        2
    } else if m >= 3 && bytes_are_three_byte_space(s[end - 3], s[end - 2], s[end - 1]) {
        3
    } else {
        0
    }
}

/// Reports whether every byte of `s` is a decimal digit.
fn check_all_digits(s: &[u8]) -> (r: bool)
    ensures
        r == all_digits(s@),
{
    let n = s.len();
    let mut i: usize = 0;
    while i < n
        invariant
            i <= n,
            n == s@.len(),
            forall|k: int| 0 <= k < i ==> is_digit(#[trigger] s@[k]),
        decreases n - i,
    {
        if !byte_is_digit(s[i]) {
            assert(!is_digit(s@[i as int]));
            return false;
        }
        i = i + 1;
    }
    true
}

/// Finds the first dot in `s`, if any.
fn find_dot(s: &[u8]) -> (r: Option<usize>)
    ensures
        match r {
            Some(j) => j < s@.len() && s@[j as int] == BYTE_DOT && (forall|k: int|
                0 <= k < j ==> (#[trigger] s@[k]) != BYTE_DOT),
            None => forall|k: int| 0 <= k < s@.len() ==> (#[trigger] s@[k]) != BYTE_DOT,
        },
{
    let n = s.len();
    let mut i: usize = 0;
    while i < n
        invariant
            i <= n,
            n == s@.len(),
            forall|k: int| 0 <= k < i ==> (#[trigger] s@[k]) != BYTE_DOT,
        decreases n - i,
    {
        if s[i] == BYTE_DOT {
            return Some(i);
        }
        i = i + 1;
    }
    None
}

/// Finds the first exponent marker in `s`, if any.
fn find_exp_marker(s: &[u8]) -> (r: Option<usize>)
    ensures
        match r {
            Some(j) => j < s@.len() && is_exp_marker(s@[j as int]) && (forall|k: int|
                0 <= k < j ==> !is_exp_marker(#[trigger] s@[k])),
            None => forall|k: int| 0 <= k < s@.len() ==> !is_exp_marker(#[trigger] s@[k]),
        },
{
    let n = s.len();
    let mut i: usize = 0;
    while i < n
        invariant
            i <= n,
            n == s@.len(),
            forall|k: int| 0 <= k < i ==> !is_exp_marker(#[trigger] s@[k]),
        decreases n - i,
    {
        if s[i] == BYTE_LOWER_E || s[i] == BYTE_UPPER_E {
            return Some(i);
        }
        i = i + 1;
    }
    None
}

/// Every byte of a mantissa is a digit or the dot.
proof fn lemma_mantissa_bytes(m: Seq<u8>, k: int)
    requires
        is_mantissa(m),
        0 <= k < m.len(),
    ensures
        is_digit(m[k]) || m[k] == BYTE_DOT,
{
    if m.len() > 0 && all_digits(m) {
    } else {
        let i = choose|i: int|
            0 <= i < m.len() && (#[trigger] m[i]) == BYTE_DOT && all_digits(m.take(i))
                && all_digits(m.skip(i + 1));
        if k < i {
            assert(m.take(i)[k] == m[k]);
        } else if k > i {
            assert(m.skip(i + 1)[k - i - 1] == m[k]);
        }
    }
}

/// Reports whether `m` is a mantissa.
fn check_mantissa(m: &[u8]) -> (r: bool)
    ensures
        r == is_mantissa(m@),
{
    match find_dot(m) {
        None => {
            let r = m.len() > 0 && check_all_digits(m);
            proof {
                if !r && is_mantissa(m@) {
                    let i = choose|i: int|
                        0 <= i < m@.len() && (#[trigger] m@[i]) == BYTE_DOT && all_digits(
                            m@.take(i),
                        ) && all_digits(m@.skip(i + 1));
                    assert(false);
                }
            }
            r
        },
        Some(i) => {
            let n = m.len();
            let left = vstd::slice::slice_subrange(m, 0, i);
            let right = vstd::slice::slice_subrange(m, i + 1, n);
            let ok = n > 1 && check_all_digits(left) && check_all_digits(right);
            proof {
                assert(left@ =~= m@.take(i as int));
                assert(right@ =~= m@.skip(i as int + 1));
                if ok {
                    assert(is_mantissa(m@));
                } else {
                    if is_mantissa(m@) {
                        if m@.len() > 0 && all_digits(m@) {
                            assert(is_digit(m@[i as int]));
                            assert(false);
                        } else {
                            let i2 = choose|i2: int|
                                0 <= i2 < m@.len() && (#[trigger] m@[i2]) == BYTE_DOT
                                    && all_digits(m@.take(i2)) && all_digits(m@.skip(i2 + 1));
                            if i2 < i {
                                assert(m@[i2] != BYTE_DOT);
                                assert(false);
                            } else if i2 > i {
                                assert(m@.take(i2)[i as int] == m@[i as int]);
                                assert(is_digit(m@[i as int]));
                                assert(false);
                            } else {
                                assert(false);
                            }
                        }
                    }
                }
            }
            ok
        },
    }
}

/// Reports whether `x` is an exponent tail.
fn check_exp_tail(x: &[u8]) -> (r: bool)
    ensures
        r == is_exp_tail(x@),
{
    let n = x.len();
    if n > 0 && (x[0] == BYTE_PLUS || x[0] == BYTE_MINUS) {
        let d = vstd::slice::slice_subrange(x, 1, n);
        proof {
            assert(d@ =~= strip_sign(x@));
        }
        d.len() > 0 && check_all_digits(d)
    } else {
        proof {
            assert(strip_sign(x@) =~= x@);
        }
        n > 0 && check_all_digits(x)
    }
}

/// Reports whether `t` is an unsigned number.
fn check_number(t: &[u8]) -> (r: bool)
    ensures
        r == is_number(t@),
{
    match find_exp_marker(t) {
        None => {
            let r = check_mantissa(t);
            proof {
                if !r && is_number(t@) {
                    let j = choose|j: int|
                        0 <= j < t@.len() && is_exp_marker(#[trigger] t@[j]) && is_mantissa(
                            t@.take(j),
                        ) && is_exp_tail(t@.skip(j + 1));
                    assert(false);
                }
            }
            r
        },
        Some(j) => {
            let n = t.len();
            let mant = vstd::slice::slice_subrange(t, 0, j);
            let tail = vstd::slice::slice_subrange(t, j + 1, n);
            let ok = check_mantissa(mant) && check_exp_tail(tail);
            proof {
                assert(mant@ =~= t@.take(j as int));
                assert(tail@ =~= t@.skip(j as int + 1));
                if ok {
                    assert(is_number(t@));
                } else {
                    if is_number(t@) {
                        if is_mantissa(t@) {
                            lemma_mantissa_bytes(t@, j as int);
                            assert(false);
                        } else {
                            let j2 = choose|j2: int|
                                0 <= j2 < t@.len() && is_exp_marker(#[trigger] t@[j2])
                                    && is_mantissa(t@.take(j2)) && is_exp_tail(t@.skip(j2 + 1));
                            if j2 < j {
                                assert(!is_exp_marker(t@[j2]));
                                assert(false);
                            } else if j2 > j {
                                assert(t@.take(j2)[j as int] == t@[j as int]);
                                lemma_mantissa_bytes(t@.take(j2), j as int);
                                assert(false);
                            } else {
                                assert(false);
                            }
                        }
                    }
                }
            }
            ok
        },
    }
}

/// The lower-case image of an ASCII byte, computed.
fn byte_to_lower(b: u8) -> (r: u8)
    ensures
        r == to_lower(b),
{
    if 65 <= b && b <= 90 {
        b + 32
    } else {
        b
    }
}

/// Reports whether `t` equals the word `w` up to letter case.
fn check_lower_matches(t: &[u8], w: &[u8]) -> (r: bool)
    ensures
        r == lower_matches(t@, w@),
{
    let n = t.len();
    if n != w.len() {
        return false;
    }
    let mut i: usize = 0;
    while i < n
        invariant
            i <= n,
            n == t@.len(),
            n == w@.len(),
            forall|k: int| 0 <= k < i ==> to_lower(#[trigger] t@[k]) == w@[k],
        decreases n - i,
    {
        if byte_to_lower(t[i]) != w[i] {
            assert(to_lower(t@[i as int]) != w@[i as int]);
            return false;
        }
        i = i + 1;
    }
    true
}

/// The bytes of `inf`, as a vector.
fn word_inf_vec() -> (r: Vec<u8>)
    ensures
        r@ == word_inf(),
{
    let mut v: Vec<u8> = Vec::new();
    v.push(105);
    v.push(110);
    v.push(102);
    proof {
        assert(v@ =~= word_inf());
    }
    v
}

/// The bytes of `infinity`, as a vector.
fn word_infinity_vec() -> (r: Vec<u8>)
    ensures
        r@ == word_infinity(),
{
    let mut v: Vec<u8> = Vec::new();
    v.push(105);
    v.push(110);
    v.push(102);
    v.push(105);
    v.push(110);
    v.push(105);
    v.push(116);
    v.push(121);
    proof {
        assert(v@ =~= word_infinity());
    }
    v
}

/// The bytes of `nan`, as a vector.
fn word_nan_vec() -> (r: Vec<u8>)
    ensures
        r@ == word_nan(),
{
    let mut v: Vec<u8> = Vec::new();
    v.push(110);
    v.push(97);
    v.push(110);
    proof {
        assert(v@ =~= word_nan());
    }
    v
}

/// Reports whether `t` is one of the special words.
fn check_special(t: &[u8]) -> (r: bool)
    ensures
        r == is_special(t@),
{
    let inf = word_inf_vec();
    if check_lower_matches(t, inf.as_slice()) {
        return true;
    }
    let infinity = word_infinity_vec();
    if check_lower_matches(t, infinity.as_slice()) {
        return true;
    }
    let nan = word_nan_vec();
    check_lower_matches(t, nan.as_slice())
}

/// Reports whether `s` is a well-formed decimal floating-point literal.
pub fn check_float_literal(s: &[u8]) -> (r: bool)
    ensures
        r == is_float_literal(s@),
{
    let n = s.len();
    let t = if n > 0 && (s[0] == BYTE_PLUS || s[0] == BYTE_MINUS) {
        vstd::slice::slice_subrange(s, 1, n)
    } else {
        vstd::slice::slice_subrange(s, 0, n)
    };
    proof {
        assert(t@ =~= strip_sign(s@));
    }
    check_special(t) || check_number(t)
}

/// Trims surrounding whitespace from `s`, returning a copy of what
/// is left.
pub fn trim_bytes(s: &[u8]) -> (r: Vec<u8>)
    ensures
        r@ == trimmed(s@),
{
    let n = s.len();
    let mut start: usize = 0;
    proof {
        assert(s@.skip(0) =~= s@);
    }
    let mut k = space_prefix_at(s, start);
    while k > 0
        invariant
            start <= n,
            n == s@.len(),
            k == space_prefix_len(s@.skip(start as int)),
            trim_front(s@) == trim_front(s@.skip(start as int)),
        decreases n - start,
    {
        proof {
            let sub = s@.skip(start as int);
            assert(k <= sub.len());
            assert(sub.skip(k as int) =~= s@.skip(start as int + k as int));
        }
        start = start + k;
        k = space_prefix_at(s, start);
    }
    proof {
        assert(trim_front(s@) == s@.skip(start as int));
        assert(s@.skip(start as int) =~= s@.subrange(start as int, n as int));
    }
    let mut end: usize = n;
    let mut j = space_suffix_at(s, start, end);
    while j > 0
        invariant
            start <= end <= n,
            n == s@.len(),
            j == space_suffix_len(s@.subrange(start as int, end as int)),
            trim_front(s@) == s@.skip(start as int),
            trim_back(s@.skip(start as int)) == trim_back(s@.subrange(start as int, end as int)),
        decreases end,
    {
        proof {
            let cur = s@.subrange(start as int, end as int);
            assert(j <= cur.len());
            assert(cur.take(cur.len() - j) =~= s@.subrange(start as int, end - j as int));
        }
        end = end - j;
        j = space_suffix_at(s, start, end);
    }
    proof {
        assert(trim_back(s@.subrange(start as int, end as int)) == s@.subrange(
            start as int,
            end as int,
        ));
    }
    let mid = vstd::slice::slice_subrange(s, start, end);
    vstd::slice::slice_to_vec(mid)
}

/// One accepted sensor reading: the trimmed text of a line that is a
/// well-formed decimal floating-point literal.
pub struct Reading {
    text: Vec<u8>,
}

impl View for Reading {
    type V = Seq<u8>;

    closed spec fn view(&self) -> Seq<u8> {
        self.text@
    }
}

impl Reading {
    /// A reading holds well-formed literal text.
    pub open spec fn wf(&self) -> bool {
        is_float_literal(self@)
    }

    /// Accepts or rejects one line from the device: trims it, and
    /// keeps it as a reading exactly when what is left is a
    /// well-formed decimal floating-point literal.
    pub fn parse(line: &[u8]) -> (r: Option<Reading>)
        ensures
            r is Some <==> is_float_literal(trimmed(line@)),
            match r {
                Some(rd) => rd@ == trimmed(line@) && rd.wf(),
                None => true,
            },
    {
        let t = trim_bytes(line);
        if check_float_literal(t.as_slice()) {
            Some(Reading { text: t })
        } else {
            None
        }
    }

    /// The reading's text.
    pub fn bytes(&self) -> (r: &Vec<u8>)
        ensures
            r@ == self@,
    {
        &self.text
    }
}

} // verus!
