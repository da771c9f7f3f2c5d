//! White space at the ends of a text.
//!
//! White space is what Unicode calls so, read from the bytes of its UTF-8
//! encoding: the six ASCII characters, and nineteen more of two or three
//! bytes each. In text that is UTF-8 a character found here is a character
//! of the text; other bytes are never taken for white space.

use vstd::prelude::*;

verus! {

/// `b` is one of the ASCII white-space characters: tab, line feed, vertical
/// tab, form feed, carriage return, space.
pub open spec fn is_ascii_space(b: u8) -> bool {
    b == 0x20 || (0x09 <= b && b <= 0x0d)
}

/// `a b` encodes a white-space character of two bytes: U+0085 or U+00A0.
pub open spec fn is_space_pair(a: u8, b: u8) -> bool {
    a == 0xc2 && (b == 0x85 || b == 0xa0)
}

/// `a b c` encodes a white-space character of three bytes: U+1680, U+2000
/// to U+200A, U+2028, U+2029, U+202F, U+205F or U+3000.
pub open spec fn is_space_triple(a: u8, b: u8, c: u8) -> bool {
    ||| a == 0xe1 && b == 0x9a && c == 0x80
    ||| a == 0xe2 && b == 0x80 && ((0x80 <= c && c <= 0x8a) || c == 0xa8 || c == 0xa9 || c == 0xaf)
    ||| a == 0xe2 && b == 0x81 && c == 0x9f
    ||| a == 0xe3 && b == 0x80 && c == 0x80
}

/// The length in bytes of the white-space character that starts at offset
/// `i` of `s`; 0 where none starts there.
pub open spec fn space_at(s: Seq<u8>, i: int) -> nat {
    if i < 0 || i >= s.len() {
        0
    } else if is_ascii_space(s[i]) {
        1
    } else if i + 1 < s.len() && is_space_pair(s[i], s[i + 1]) {
        2
    } else if i + 2 < s.len() && is_space_triple(s[i], s[i + 1], s[i + 2]) {
        3
    } else {
        0
    }
}

/// The length in bytes of the white-space character that ends just before
/// offset `end` of `s`; 0 where none ends there.
pub open spec fn space_before(s: Seq<u8>, end: int) -> nat {
    if end <= 0 || end > s.len() {
        0
    } else if is_ascii_space(s[end - 1]) {
        1
    } else if end >= 2 && is_space_pair(s[end - 2], s[end - 1]) {
        2
    } else if end >= 3 && is_space_triple(s[end - 3], s[end - 2], s[end - 1]) {
        3
    } else {
        0
    }
}

/// The number of bytes of white space that `s` has from offset `i` on,
/// before the first byte that begins no white-space character.
pub open spec fn space_run_from(s: Seq<u8>, i: int) -> nat
    decreases s.len() - i,
{
    if space_at(s, i) == 0 {
        0
    } else {
        space_at(s, i) + space_run_from(s, i + space_at(s, i))
    }
}

/// The number of bytes of white space that `s` has up to offset `end`,
/// behind the last byte that ends no white-space character.
pub open spec fn space_run_upto(s: Seq<u8>, end: int) -> nat
    decreases end,
{
    if space_before(s, end) == 0 {
        0
    } else {
        space_before(s, end) + space_run_upto(s, end - space_before(s, end))
    }
}

/// The number of bytes of white space at the start of `s`.
pub open spec fn leading_space(s: Seq<u8>) -> nat {
    space_run_from(s, 0)
}

/// The number of bytes of white space at the end of `s`.
pub open spec fn trailing_space(s: Seq<u8>) -> nat {
    space_run_upto(s, s.len() as int)
}

/// `s` without the white space at its start.
pub open spec fn trim_start(s: Seq<u8>) -> Seq<u8> {
    s.subrange(leading_space(s) as int, s.len() as int)
}

/// `s` without the white space at its end.
pub open spec fn trim_end(s: Seq<u8>) -> Seq<u8> {
    s.subrange(0, s.len() - trailing_space(s))
}

/// A run of white space from `i` on ends inside the text, at a byte that
/// begins no white-space character or at the end.
pub proof fn lemma_space_run_from(s: Seq<u8>, i: int)
    requires
        0 <= i <= s.len(),
    ensures
        i + space_run_from(s, i) <= s.len(),
        space_at(s, i + space_run_from(s, i)) == 0,
    decreases s.len() - i,
{
    if space_at(s, i) > 0 {
        lemma_space_run_from(s, i + space_at(s, i));
    }
}

/// Tells whether `b` is an ASCII white-space character.
pub fn is_ascii_space_byte(b: u8) -> (r: bool)
    ensures
        r == is_ascii_space(b),
{
    b == 0x20 || (0x09 <= b && b <= 0x0d)
}

/// Tells whether `a b` encodes a white-space character of two bytes.
pub fn is_space_pair_bytes(a: u8, b: u8) -> (r: bool)
    ensures
        r == is_space_pair(a, b),
{
    a == 0xc2 && (b == 0x85 || b == 0xa0)
}

/// Tells whether `a b c` encodes a white-space character of three bytes.
pub fn is_space_triple_bytes(a: u8, b: u8, c: u8) -> (r: bool)
    ensures
        r == is_space_triple(a, b, c),
{
    (a == 0xe1 && b == 0x9a && c == 0x80) || (a == 0xe2 && b == 0x80 && ((0x80 <= c && c <= 0x8a)
        || c == 0xa8 || c == 0xa9 || c == 0xaf)) || (a == 0xe2 && b == 0x81 && c == 0x9f) || (a
        == 0xe3 && b == 0x80 && c == 0x80)
}

/// The length in bytes of the white-space character that starts at offset
/// `i` of `s`; 0 where none starts there.
pub fn space_len_at(s: &[u8], i: usize) -> (r: usize)
    ensures
        r == space_at(s@, i as int),
        r <= 3,
        i + r <= s.len() || r == 0,
{
    let n: usize = s.len();
    if i >= n {
        0
    } else if is_ascii_space_byte(s[i]) {
        1
    } else if n - i >= 2 && is_space_pair_bytes(s[i], s[i + 1]) {
        2
    } else if n - i >= 3 && is_space_triple_bytes(s[i], s[i + 1], s[i + 2]) {
        3
    } else {
        0
    }
}

/// The length in bytes of the white-space character that ends just before
/// offset `end` of `s`; 0 where none ends there.
pub fn space_len_before(s: &[u8], end: usize) -> (r: usize)
    ensures
        r == space_before(s@, end as int),
        r <= 3,
        r <= end,
{
    if end == 0 || end > s.len() {
        0
    } else if is_ascii_space_byte(s[end - 1]) {
        1
    } else if end >= 2 && is_space_pair_bytes(s[end - 2], s[end - 1]) {
        2
    } else if end >= 3 && is_space_triple_bytes(s[end - 3], s[end - 2], s[end - 1]) {
        3
    } else {
        0
    }
}

/// The offset of the first byte of `s` that begins no white-space
/// character, or the length of `s`.
pub fn leading_space_len(s: &[u8]) -> (r: usize)
    ensures
        r == leading_space(s@),
        r <= s.len(),
        space_at(s@, r as int) == 0,
{
    proof {
        lemma_space_run_from(s@, 0);
    }
    let mut i: usize = 0;
    loop
        invariant
            i <= s.len(),
            leading_space(s@) == i + space_run_from(s@, i as int),
            leading_space(s@) <= s.len(),
        decreases s.len() - i,
    {
        let k: usize = space_len_at(s, i);
        if k == 0 {
            return i;
        }
        i += k;
    }
}

/// The length of `s` without the white space at its end.
pub fn trimmed_end_len(s: &[u8]) -> (r: usize)
    ensures
        r == s@.len() - trailing_space(s@),
        r <= s.len(),
        space_before(s@, r as int) == 0,
{
    let mut n: usize = s.len();
    loop
        invariant
            n <= s.len(),
            trailing_space(s@) == (s.len() - n) + space_run_upto(s@, n as int),
        decreases n,
    {
        let k: usize = space_len_before(s, n);
        if k == 0 {
            return n;
        }
        n -= k;
    }
}

} // verus!
