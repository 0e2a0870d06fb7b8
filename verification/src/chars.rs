//! Scanning of character sequences: prefixes, first and last separators,
//! hexadecimal words and small decimal numbers, as the key parsers use them.

use vstd::prelude::*;

use crate::text::{chars_of, decimal_value, has_prefix, is_digit_char, is_hex_char};

verus! {

/// Whether `i` is the first position of `c` in `s`.
pub open spec fn is_first_index(s: Seq<char>, c: char, i: int) -> bool {
    0 <= i < s.len() && s[i] == c && forall|j: int| 0 <= j < i ==> s[j] != c
}

/// `s` split around the first `c` (`str::split_once`).
pub open spec fn split_once(s: Seq<char>, c: char) -> Option<(Seq<char>, Seq<char>)> {
    if exists|i: int| is_first_index(s, c, i) {
        let i = choose|i: int| is_first_index(s, c, i);
        Some((s.subrange(0, i), s.subrange(i + 1, s.len() as int)))
    } else {
        None
    }
}

/// Whether `pat` occurs in `s` at position `i`.
pub open spec fn matches_at(s: Seq<char>, pat: Seq<char>, i: int) -> bool {
    0 <= i && i + pat.len() <= s.len() && s.subrange(i, i + pat.len()) == pat
}

/// Whether `i` is the last position of `pat` in `s`.
pub open spec fn is_last_match(s: Seq<char>, pat: Seq<char>, i: int) -> bool {
    matches_at(s, pat, i) && forall|j: int| i < j ==> !#[trigger] matches_at(s, pat, j)
}

/// `s` split around the last occurrence of `pat` (`str::rsplit_once`).
pub open spec fn rsplit_once(s: Seq<char>, pat: Seq<char>) -> Option<(Seq<char>, Seq<char>)> {
    if exists|i: int| is_last_match(s, pat, i) {
        let i = choose|i: int| is_last_match(s, pat, i);
        Some((s.subrange(0, i), s.subrange(i + pat.len(), s.len() as int)))
    } else {
        None
    }
}

/// `s` without `prefix`, when it starts with it (`str::strip_prefix`).
pub open spec fn strip_prefix(s: Seq<char>, prefix: Seq<char>) -> Option<Seq<char>> {
    if has_prefix(s, prefix) {
        Some(s.subrange(prefix.len() as int, s.len() as int))
    } else {
        None
    }
}

/// Whether every character is an ASCII hexadecimal digit.
pub open spec fn all_hex(s: Seq<char>) -> bool {
    forall|i: int| 0 <= i < s.len() ==> is_hex_char(#[trigger] s[i])
}

/// Whether every character is an ASCII decimal digit.
pub open spec fn all_digits(s: Seq<char>) -> bool {
    forall|i: int| 0 <= i < s.len() ==> is_digit_char(#[trigger] s[i])
}

/// Exactly four hexadecimal digits.
pub open spec fn is_hex_word(s: Seq<char>) -> bool {
    s.len() == 4 && all_hex(s)
}

/// The digits of a `u8` literal: `s` without one leading `+`.
pub open spec fn unsigned_digits(s: Seq<char>) -> Seq<char> {
    if s.len() > 0 && s[0] == '+' { s.drop_first() } else { s }
}

/// Whether `s` parses as a `u8` (`str::parse::<u8>`): an optional `+`, then
/// at least one decimal digit, of value at most 255.
pub open spec fn parses_as_u8(s: Seq<char>) -> bool {
    let d = unsigned_digits(s);
    d.len() > 0 && all_digits(d) && decimal_value(d) <= 255
}

/// The characters `s[lo..hi]`.
pub fn sub_chars(s: &[char], lo: usize, hi: usize) -> (r: Vec<char>)
    requires
        lo <= hi <= s@.len(),
    ensures
        r@ == s@.subrange(lo as int, hi as int),
{
    let mut r: Vec<char> = Vec::new();
    let mut i: usize = lo;
    while i < hi
        invariant
            lo <= i <= hi <= s@.len(),
            r@ == s@.subrange(lo as int, i as int),
        decreases hi - i,
    {
        r.push(s[i]);
        assert(r@ =~= s@.subrange(lo as int, i + 1));
        i = i + 1;
    }
    r
}

/// Whether `s` equals the characters of `t`.
pub fn chars_eq_str(s: &[char], t: &str) -> (b: bool)
    ensures
        b == (s@ == t@),
{
    let tc = chars_of(t);
    if s.len() != tc.len() {
        return false;
    }
    let mut i: usize = 0;
    while i < s.len()
        invariant
            tc@ == t@,
            s@.len() == tc@.len(),
            i <= s@.len(),
            forall|j: int| 0 <= j < i ==> s@[j] == tc@[j],
        decreases s@.len() - i,
    {
        if s[i] != tc[i] {
            assert(s@[i as int] != t@[i as int]);
            return false;
        }
        i = i + 1;
    }
    assert(s@ =~= t@);
    true
}

/// `s` without `prefix`, when it starts with it.
pub fn strip_prefix_chars(s: &[char], prefix: &str) -> (r: Option<Vec<char>>)
    ensures
        r matches Some(v) ==> strip_prefix(s@, prefix@) == Some(v@),
        r is None ==> strip_prefix(s@, prefix@) is None,
{
    let p = chars_of(prefix);
    if p.len() > s.len() {
        return None;
    }
    let mut i: usize = 0;
    while i < p.len()
        invariant
            p@ == prefix@,
            p@.len() <= s@.len(),
            i <= p@.len(),
            forall|j: int| 0 <= j < i ==> s@[j] == p@[j],
        decreases p@.len() - i,
    {
        if s[i] != p[i] {
            assert(s@.subrange(0, p@.len() as int)[i as int] != p@[i as int]);
            return None;
        }
        i = i + 1;
    }
    assert(s@.subrange(0, p@.len() as int) =~= p@);
    Some(sub_chars(s, p.len(), s.len()))
}

/// The position of the first `c` in `s`.
pub fn find_char(s: &[char], c: char) -> (r: Option<usize>)
    ensures
        r matches Some(i) ==> is_first_index(s@, c, i as int),
        r is None ==> forall|i: int| 0 <= i < s@.len() ==> s@[i] != c,
{
    let mut i: usize = 0;
    while i < s.len()
        invariant
            i <= s@.len(),
            forall|j: int| 0 <= j < i ==> s@[j] != c,
        decreases s@.len() - i,
    {
        if s[i] == c {
            return Some(i);
        }
        i = i + 1;
    }
    None
}

/// `s` split around the first `c`.
pub fn split_once_chars(s: &[char], c: char) -> (r: Option<(Vec<char>, Vec<char>)>)
    ensures
        r matches Some((a, b)) ==> split_once(s@, c) == Some((a@, b@)),
        r is None ==> split_once(s@, c) is None,
{
    match find_char(s, c) {
        Some(i) => {
            let ghost k = choose|k: int| is_first_index(s@, c, k);
            assert(is_first_index(s@, c, k));
            assert(k == i) by {
                if k < i {
                    assert(s@[k] != c);
                } else if k > i {
                    assert(s@[i as int] != c);
                }
            }
            let n: usize = s.len();
            assert(i < n);
            Some((sub_chars(s, 0, i), sub_chars(s, i + 1, n)))
        },
        None => None,
    }
}

/// Whether `pat` occurs in `s` at position `i`.
fn matches_at_exec(s: &[char], pat: &[char], i: usize) -> (b: bool)
    requires
        i + pat@.len() <= s@.len(),
    ensures
        b == matches_at(s@, pat@, i as int),
{
    let _n: usize = s.len();
    let mut k: usize = 0;
    while k < pat.len()
        invariant
            i + pat@.len() <= s@.len(),
            s@.len() <= usize::MAX,
            k <= pat@.len(),
            forall|j: int| 0 <= j < k ==> s@[i + j] == pat@[j],
        decreases pat@.len() - k,
    {
        if s[i + k] != pat[k] {
            assert(s@.subrange(i as int, i + pat@.len())[k as int] != pat@[k as int]);
            return false;
        }
        k = k + 1;
    }
    assert(s@.subrange(i as int, i + pat@.len()) =~= pat@);
    true
}

/// `s` split around the last occurrence of the characters of `pat`.
pub fn rsplit_once_chars(s: &[char], pat: &str) -> (r: Option<(Vec<char>, Vec<char>)>)
    ensures
        r matches Some((a, b)) ==> rsplit_once(s@, pat@) == Some((a@, b@)),
        r is None ==> rsplit_once(s@, pat@) is None,
{
    let p = chars_of(pat);
    if p.len() > s.len() {
        assert forall|i: int| !is_last_match(s@, pat@, i) by {}
        return None;
    }
    let top: usize = s.len() - p.len();
    let mut i: usize = top;
    loop
        invariant
            p@ == pat@,
            p@.len() <= s@.len(),
            top == s@.len() - p@.len(),
            i <= top,
            forall|j: int| i < j ==> !#[trigger] matches_at(s@, pat@, j),
        ensures
            forall|j: int| 0 <= j ==> !#[trigger] matches_at(s@, pat@, j),
        decreases i,
    {
        if matches_at_exec(s, p.as_slice(), i) {
            let ghost k = choose|k: int| is_last_match(s@, pat@, k);
            assert(is_last_match(s@, pat@, i as int));
            assert(k == i) by {
                if k < i {
                    assert(!matches_at(s@, pat@, i as int));
                } else if k > i {
                    assert(!matches_at(s@, pat@, k));
                }
            }
            let n: usize = s.len();
            assert(i + p@.len() <= n);
            return Some((sub_chars(s, 0, i), sub_chars(s, i + p.len(), n)));
        }
        if i == 0 {
            break;
        }
        i = i - 1;
    }
    assert forall|k: int| !is_last_match(s@, pat@, k) by {
        if k >= 0 {
            assert(!matches_at(s@, pat@, k));
        }
    }
    None
}

/// Whether every character of `s` is an ASCII hexadecimal digit.
pub fn all_hex_chars(s: &[char]) -> (b: bool)
    ensures
        b == all_hex(s@),
{
    let mut i: usize = 0;
    while i < s.len()
        invariant
            i <= s@.len(),
            forall|j: int| 0 <= j < i ==> is_hex_char(#[trigger] s@[j]),
        decreases s@.len() - i,
    {
        let c = s[i];
        if !(('0' <= c && c <= '9') || ('a' <= c && c <= 'f') || ('A' <= c && c <= 'F')) {
            assert(!is_hex_char(s@[i as int]));
            return false;
        }
        i = i + 1;
    }
    true
}

/// Whether `s` is exactly four hexadecimal digits.
pub fn is_hex_word_chars(s: &[char]) -> (b: bool)
    ensures
        b == is_hex_word(s@),
{
    s.len() == 4 && all_hex_chars(s)
}

/// Whether `s` parses as a `u8`.
pub fn parses_as_u8_chars(s: &[char]) -> (b: bool)
    ensures
        b == parses_as_u8(s@),
{
    let start: usize = if s.len() > 0 && s[0] == '+' { 1 } else { 0 };
    let ghost d = unsigned_digits(s@);
    assert(d =~= s@.subrange(start as int, s@.len() as int));
    if start == s.len() {
        return false;
    }
    let mut value: u32 = 0;
    let mut i: usize = start;
    while i < s.len()
        invariant
            start <= i <= s@.len(),
            d == s@.subrange(start as int, s@.len() as int),
            d == unsigned_digits(s@),
            all_digits(s@.subrange(start as int, i as int)),
            value <= 256,
            value == (if decimal_value(s@.subrange(start as int, i as int)) > 255 { 256 } else {
                decimal_value(s@.subrange(start as int, i as int))
            }),
        decreases s@.len() - i,
    {
        let c = s[i];
        if !('0' <= c && c <= '9') {
            assert(d[i - start] == c);
            assert(!is_digit_char(d[i - start]));
            return false;
        }
        proof {
            let t = s@.subrange(start as int, i + 1);
            assert(t.drop_last() =~= s@.subrange(start as int, i as int));
            assert(all_digits(t));
            assert(decimal_value(t) == decimal_value(t.drop_last()) * 10 + (c as nat - 48));
        }
        let digit: u32 = (c as u32) - 48;
        if value >= 256 {
            value = 256;
        } else {
            value = value * 10 + digit;
            if value > 255 {
                value = 256;
            }
        }
        i = i + 1;
    }
    assert(s@.subrange(start as int, s@.len() as int) =~= d);
    value <= 255
}

/// Stripping a prefix from a sequence that starts with it leaves the rest.
pub proof fn lemma_strip_prefix_concat(prefix: Seq<char>, rest: Seq<char>)
    ensures
        strip_prefix(prefix + rest, prefix) == Some(rest),
{
    assert((prefix + rest).subrange(0, prefix.len() as int) =~= prefix);
    assert((prefix + rest).subrange(prefix.len() as int, (prefix + rest).len() as int) =~= rest);
}

/// Splitting `a + [c] + b` at its first `c` yields `a` and `b` when `a`
/// holds no `c`.
pub proof fn lemma_split_once_concat(a: Seq<char>, c: char, b: Seq<char>)
    requires
        forall|i: int| 0 <= i < a.len() ==> a[i] != c,
    ensures
        split_once(a + seq![c] + b, c) == Some((a, b)),
{
    let s = a + seq![c] + b;
    assert(is_first_index(s, c, a.len() as int));
    let k = choose|k: int| is_first_index(s, c, k);
    assert(k == a.len()) by {
        if k < a.len() {
            assert(s[k] == a[k]);
        } else if k > a.len() {
            assert(s[a.len() as int] == c);
        }
    }
    assert(s.subrange(0, a.len() as int) =~= a);
    assert(s.subrange(a.len() as int + 1, s.len() as int) =~= b);
}

/// Whether `c` has the Unicode `White_Space` property (`char::is_whitespace`).
pub open spec fn is_whitespace(c: char) -> bool {
    ||| ('\u{09}' <= c && c <= '\u{0D}')
    ||| c == ' '
    ||| c == '\u{85}'
    ||| c == '\u{A0}'
    ||| c == '\u{1680}'
    ||| ('\u{2000}' <= c && c <= '\u{200A}')
    ||| c == '\u{2028}'
    ||| c == '\u{2029}'
    ||| c == '\u{202F}'
    ||| c == '\u{205F}'
    ||| c == '\u{3000}'
}

/// The number of whitespace characters `s` starts with.
pub open spec fn leading_whitespace(s: Seq<char>) -> nat
    decreases s.len(),
{
    if s.len() > 0 && is_whitespace(s[0]) {
        1 + leading_whitespace(s.drop_first())
    } else {
        0
    }
}

/// The number of whitespace characters `s` ends with.
pub open spec fn trailing_whitespace(s: Seq<char>) -> nat
    decreases s.len(),
{
    if s.len() > 0 && is_whitespace(s.last()) {
        1 + trailing_whitespace(s.drop_last())
    } else {
        0
    }
}

/// `s` without leading and trailing whitespace (`str::trim`).
pub open spec fn trim(s: Seq<char>) -> Seq<char> {
    let a = leading_whitespace(s);
    if a == s.len() {
        Seq::empty()
    } else {
        s.subrange(a as int, s.len() - trailing_whitespace(s))
    }
}

/// `s` split at every `c` (`str::split`): never empty.
pub open spec fn split_on(s: Seq<char>, c: char) -> Seq<Seq<char>>
    decreases s.len(),
{
    if exists|i: int| is_first_index(s, c, i) {
        let i = choose|i: int| is_first_index(s, c, i);
        seq![s.subrange(0, i)] + split_on(s.subrange(i + 1, s.len() as int), c)
    } else {
        seq![s]
    }
}

proof fn lemma_leading_whitespace_step(s: Seq<char>, i: int)
    requires
        0 <= i < s.len(),
        forall|j: int| 0 <= j < i ==> is_whitespace(s[j]),
        is_whitespace(s[i]),
    ensures
        leading_whitespace(s.subrange(i, s.len() as int)) == 1 + leading_whitespace(s.subrange(i + 1, s.len() as int)),
{
    assert(s.subrange(i, s.len() as int).drop_first() =~= s.subrange(i + 1, s.len() as int));
}

proof fn lemma_trailing_whitespace_step(s: Seq<char>, k: int)
    requires
        0 < k <= s.len(),
        is_whitespace(s[k - 1]),
    ensures
        trailing_whitespace(s.subrange(0, k)) == 1 + trailing_whitespace(s.subrange(0, k - 1)),
{
    assert(s.subrange(0, k).drop_last() =~= s.subrange(0, k - 1));
}

/// The number of whitespace characters `s` starts with, and the position
/// after the last non-whitespace character.
fn whitespace_bounds(s: &[char]) -> (r: (usize, usize))
    ensures
        r.0 == leading_whitespace(s@),
        r.0 < s@.len() ==> r.1 == s@.len() - trailing_whitespace(s@),
        r.0 < s@.len() ==> r.0 < r.1 <= s@.len(),
        r.0 <= s@.len(),
{
    let n: usize = s.len();
    let mut a: usize = 0;
    assert(s@.subrange(0, n as int) =~= s@);
    while a < n && (('\u{09}' <= s[a] && s[a] <= '\u{0D}') || s[a] == ' ' || s[a] == '\u{85}' || s[a] == '\u{A0}'
        || s[a] == '\u{1680}' || ('\u{2000}' <= s[a] && s[a] <= '\u{200A}') || s[a] == '\u{2028}'
        || s[a] == '\u{2029}' || s[a] == '\u{202F}' || s[a] == '\u{205F}' || s[a] == '\u{3000}')
        invariant
            n == s@.len(),
            a <= n,
            forall|j: int| 0 <= j < a ==> is_whitespace(s@[j]),
            leading_whitespace(s@) == a + leading_whitespace(s@.subrange(a as int, n as int)),
        decreases n - a,
    {
        proof { lemma_leading_whitespace_step(s@, a as int); }
        a = a + 1;
    }
    proof {
        if a < n {
            assert(!is_whitespace(s@.subrange(a as int, n as int)[0]));
        }
    }
    if a == n {
        return (a, n);
    }
    let mut b: usize = n;
    assert(s@.subrange(0, n as int) =~= s@);
    while b > a && (('\u{09}' <= s[b - 1] && s[b - 1] <= '\u{0D}') || s[b - 1] == ' ' || s[b - 1] == '\u{85}'
        || s[b - 1] == '\u{A0}' || s[b - 1] == '\u{1680}' || ('\u{2000}' <= s[b - 1] && s[b - 1] <= '\u{200A}')
        || s[b - 1] == '\u{2028}' || s[b - 1] == '\u{2029}' || s[b - 1] == '\u{202F}' || s[b - 1] == '\u{205F}'
        || s[b - 1] == '\u{3000}')
        invariant
            n == s@.len(),
            a < n,
            !is_whitespace(s@[a as int]),
            a < b <= n,
            trailing_whitespace(s@) == (n - b) + trailing_whitespace(s@.subrange(0, b as int)),
        decreases b,
    {
        proof { lemma_trailing_whitespace_step(s@, b as int); }
        b = b - 1;
    }
    proof {
        assert(!is_whitespace(s@.subrange(0, b as int).last()));
    }
    (a, b)
}

/// `s` without leading and trailing whitespace.
pub fn trim_chars(s: &[char]) -> (r: Vec<char>)
    ensures
        r@ == trim(s@),
{
    let (a, b) = whitespace_bounds(s);
    if a == s.len() {
        assert(trim(s@) =~= Seq::<char>::empty());
        Vec::new()
    } else {
        sub_chars(s, a, b)
    }
}

/// Splitting at the first `c` peels off the part before it.
pub proof fn lemma_split_on_step(s: Seq<char>, c: char)
    ensures
        split_once(s, c) matches Some((a, b)) ==> split_on(s, c) == seq![a] + split_on(b, c),
        split_once(s, c) is None ==> split_on(s, c) == seq![s],
{
}

} // verus!
