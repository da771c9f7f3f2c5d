//! Searching and editing of byte text.
//!
//! Source files are handled as byte sequences. Every function here is stated
//! over `Seq<u8>`; offsets are byte offsets.

use vstd::prelude::*;
use vstd::slice::slice_subrange;

verus! {

/// `pat` stands in `s` at offset `i`.
pub open spec fn occurs_at(s: Seq<u8>, pat: Seq<u8>, i: int) -> bool {
    0 <= i && i + pat.len() <= s.len() && s.subrange(i, i + pat.len()) == pat
}

/// `pat` stands somewhere in `s`.
pub open spec fn contains(s: Seq<u8>, pat: Seq<u8>) -> bool {
    exists|i: int| occurs_at(s, pat, i)
}

/// `i` is the least offset not below `from` at which `pat` stands in `s`.
pub open spec fn is_first_occurrence(s: Seq<u8>, pat: Seq<u8>, from: int, i: int) -> bool {
    &&& from <= i
    &&& occurs_at(s, pat, i)
    &&& forall|j: int| from <= j < i ==> !occurs_at(s, pat, j)
}

/// The least offset not below `from` at which `pat` stands in `s`, if any.
pub open spec fn first_occurrence(s: Seq<u8>, pat: Seq<u8>, from: int) -> Option<int>
    decreases s.len() + 1 - from,
{
    if from < 0 || from + pat.len() > s.len() {
        None
    } else if occurs_at(s, pat, from) {
        Some(from)
    } else {
        first_occurrence(s, pat, from + 1)
    }
}

/// `first_occurrence` returns the least occurrence, and `None` only where
/// there is none at or after `from`.
pub proof fn lemma_first_occurrence(s: Seq<u8>, pat: Seq<u8>, from: int)
    requires
        0 <= from,
    ensures
        match first_occurrence(s, pat, from) {
            Some(i) => is_first_occurrence(s, pat, from, i),
            None => forall|j: int| from <= j ==> !occurs_at(s, pat, j),
        },
    decreases s.len() + 1 - from,
{
    if from + pat.len() > s.len() {
    } else if occurs_at(s, pat, from) {
    } else {
        lemma_first_occurrence(s, pat, from + 1);
    }
}

/// `s` holds `pat` exactly when a first occurrence from the start exists.
pub proof fn lemma_contains_iff_first_occurrence(s: Seq<u8>, pat: Seq<u8>)
    ensures
        contains(s, pat) <==> first_occurrence(s, pat, 0) is Some,
{
    lemma_first_occurrence(s, pat, 0);
    if first_occurrence(s, pat, 0) is Some {
        assert(occurs_at(s, pat, first_occurrence(s, pat, 0)->0));
    }
}

/// The least offset not below `from` at which the byte `b` stands in `s`, if
/// any.
pub open spec fn first_byte(s: Seq<u8>, b: u8, from: int) -> Option<int>
    decreases s.len() - from,
{
    if from < 0 || from >= s.len() {
        None
    } else if s[from] == b {
        Some(from)
    } else {
        first_byte(s, b, from + 1)
    }
}

/// `first_byte` returns the least offset that holds the byte, and `None`
/// only where none at or after `from` does.
pub proof fn lemma_first_byte(s: Seq<u8>, b: u8, from: int)
    requires
        0 <= from,
    ensures
        match first_byte(s, b, from) {
            Some(i) => from <= i < s.len() && s[i] == b && forall|j: int|
                from <= j < i ==> s[j] != b,
            None => forall|j: int| from <= j < s.len() ==> s[j] != b,
        },
    decreases s.len() - from,
{
    if from < s.len() && s[from] != b {
        lemma_first_byte(s, b, from + 1);
    }
}

/// A text holds itself.
pub proof fn lemma_contains_itself(t: Seq<u8>)
    ensures
        contains(t, t),
{
    assert(t.subrange(0, t.len() as int) =~= t);
    assert(occurs_at(t, t, 0));
}

/// An occurrence in the middle part of a concatenation is an occurrence in
/// the whole.
pub proof fn lemma_contains_in_middle(a: Seq<u8>, t: Seq<u8>, b: Seq<u8>, pat: Seq<u8>)
    requires
        contains(t, pat),
    ensures
        contains(a + t + b, pat),
{
    let i = choose|i: int| occurs_at(t, pat, i);
    let whole = a + t + b;
    assert(whole.subrange(a.len() + i, a.len() + i + pat.len()) =~= t.subrange(i, i + pat.len()));
    assert(occurs_at(whole, pat, a.len() + i));
}

/// The text of `s` from `i` on, with every occurrence of `from` replaced by
/// `to`, going left to right; an occurrence that overlaps a replaced one is
/// not counted.
pub open spec fn replaced_tail(s: Seq<u8>, from: Seq<u8>, to: Seq<u8>, i: int) -> Seq<u8>
    decreases s.len() - i,
{
    if i < 0 || i >= s.len() || from.len() == 0 {
        Seq::empty()
    } else if occurs_at(s, from, i) {
        to + replaced_tail(s, from, to, i + from.len())
    } else {
        seq![s[i]] + replaced_tail(s, from, to, i + 1)
    }
}

/// `s` with every occurrence of `from` replaced by `to`, left to right and
/// without overlap. An empty `from` selects nothing.
pub open spec fn replace_all(s: Seq<u8>, from: Seq<u8>, to: Seq<u8>) -> Seq<u8> {
    if from.len() == 0 {
        s
    } else {
        replaced_tail(s, from, to, 0)
    }
}

/// Where `from` does not occur at or after `i`, the replaced tail is the tail.
pub proof fn lemma_replaced_tail_without_occurrence(
    s: Seq<u8>,
    from: Seq<u8>,
    to: Seq<u8>,
    i: int,
)
    requires
        0 <= i <= s.len(),
        from.len() > 0,
        forall|j: int| i <= j ==> !occurs_at(s, from, j),
    ensures
        replaced_tail(s, from, to, i) == s.subrange(i, s.len() as int),
    decreases s.len() - i,
{
    if i < s.len() {
        lemma_replaced_tail_without_occurrence(s, from, to, i + 1);
        assert(seq![s[i]] + s.subrange(i + 1, s.len() as int) =~= s.subrange(i, s.len() as int));
    } else {
        assert(s.subrange(i, s.len() as int) =~= Seq::<u8>::empty());
    }
}

/// Replacing in a text that does not hold `from` changes nothing.
pub proof fn lemma_replace_all_absent(s: Seq<u8>, from: Seq<u8>, to: Seq<u8>)
    requires
        !contains(s, from),
    ensures
        replace_all(s, from, to) == s,
{
    if from.len() > 0 {
        lemma_replaced_tail_without_occurrence(s, from, to, 0);
        assert(s.subrange(0, s.len() as int) =~= s);
    }
}

/// Where `from` stands at `p` and nowhere else, replacing rewrites that one
/// span and leaves every other byte in place.
pub proof fn law_single_occurrence_is_rewritten(s: Seq<u8>, from: Seq<u8>, to: Seq<u8>, p: int)
    requires
        from.len() > 0,
        occurs_at(s, from, p),
        forall|j: int| j != p ==> !occurs_at(s, from, j),
    ensures
        replace_all(s, from, to) == s.subrange(0, p) + to + s.subrange(
            p + from.len(),
            s.len() as int,
        ),
{
    lemma_replaced_tail_without_occurrence(s, from, to, p + from.len());
    lemma_replaced_tail_before_first(s, from, to, p, 0);
}

/// Up to the next occurrence of `from` the replaced tail is the text as it
/// stands; there `to` follows, and the replaced tail behind the occurrence.
pub proof fn lemma_replaced_tail_before_first(
    s: Seq<u8>,
    from: Seq<u8>,
    to: Seq<u8>,
    p: int,
    i: int,
)
    requires
        from.len() > 0,
        0 <= i <= p,
        occurs_at(s, from, p),
        forall|j: int| i <= j < p ==> !occurs_at(s, from, j),
    ensures
        replaced_tail(s, from, to, i) == s.subrange(i, p) + to + replaced_tail(
            s,
            from,
            to,
            p + from.len(),
        ),
    decreases p - i,
{
    let rest = replaced_tail(s, from, to, p + from.len());
    if i < p {
        lemma_replaced_tail_before_first(s, from, to, p, i + 1);
        assert(seq![s[i]] + (s.subrange(i + 1, p) + to + rest) =~= s.subrange(i, p) + to + rest);
    } else {
        assert(to + rest =~= s.subrange(i, p) + to + rest);
    }
}

/// Replacing by a text that is not shorter does not shorten the tail, and
/// replacing by one that is not longer does not lengthen it.
pub proof fn lemma_replaced_tail_len(s: Seq<u8>, from: Seq<u8>, to: Seq<u8>, i: int)
    requires
        0 <= i <= s.len(),
        from.len() > 0,
    ensures
        to.len() >= from.len() ==> replaced_tail(s, from, to, i).len() >= s.len() - i,
        to.len() <= from.len() ==> replaced_tail(s, from, to, i).len() <= s.len() - i,
    decreases s.len() - i,
{
    if i < s.len() {
        if occurs_at(s, from, i) {
            lemma_replaced_tail_len(s, from, to, i + from.len());
        } else {
            lemma_replaced_tail_len(s, from, to, i + 1);
        }
    }
}

/// Tells whether `needle` stands in `hay` at offset `i`.
pub fn matches_at(hay: &[u8], needle: &[u8], i: usize) -> (r: bool)
    ensures
        r == occurs_at(hay@, needle@, i as int),
{
    let n: usize = needle.len();
    if i > hay.len() || n > hay.len() - i {
        return false;
    }
    let mut k: usize = 0;
    while k < n
        invariant
            n == needle.len(),
            i + n <= hay.len(),
            k <= n,
            forall|j: int| 0 <= j < k ==> hay@[i + j] == needle@[j],
        decreases n - k,
    {
        if hay[i + k] != needle[k] {
            assert(hay@.subrange(i as int, i + n)[k as int] != needle@[k as int]);
            return false;
        }
        k += 1;
    }
    assert(hay@.subrange(i as int, i + n) =~= needle@);
    true
}

/// The least offset not below `from` at which `needle` stands in `hay`.
pub fn find(hay: &[u8], needle: &[u8], from: usize) -> (r: Option<usize>)
    ensures
        match r {
            Some(i) => is_first_occurrence(hay@, needle@, from as int, i as int),
            None => forall|j: int| from <= j ==> !occurs_at(hay@, needle@, j),
        },
        match r {
            Some(i) => first_occurrence(hay@, needle@, from as int) == Some(i as int),
            None => first_occurrence(hay@, needle@, from as int) is None,
        },
{
    proof {
        lemma_first_occurrence(hay@, needle@, from as int);
    }
    let n: usize = needle.len();
    if from > hay.len() || n > hay.len() - from {
        return None;
    }
    let last: usize = hay.len() - n;
    let mut i: usize = from;
    loop
        invariant
            n == needle.len(),
            last == hay.len() - n,
            from <= i <= last,
            forall|j: int| from <= j < i ==> !occurs_at(hay@, needle@, j),
            match first_occurrence(hay@, needle@, from as int) {
                Some(k) => is_first_occurrence(hay@, needle@, from as int, k),
                None => forall|j: int| from <= j ==> !occurs_at(hay@, needle@, j),
            },
        decreases last - i,
    {
        if matches_at(hay, needle, i) {
            return Some(i);
        }
        if i == last {
            return None;
        }
        i += 1;
    }
}

/// The least offset not below `from` at which the byte `b` stands in `hay`.
pub fn find_byte(hay: &[u8], b: u8, from: usize) -> (r: Option<usize>)
    ensures
        match r {
            Some(i) => first_byte(hay@, b, from as int) == Some(i as int),
            None => first_byte(hay@, b, from as int) is None,
        },
        match r {
            Some(i) => from <= i < hay@.len() && hay@[i as int] == b && forall|j: int|
                from <= j < i ==> hay@[j] != b,
            None => forall|j: int| from <= j < hay@.len() ==> hay@[j] != b,
        },
{
    proof {
        lemma_first_byte(hay@, b, from as int);
    }
    let mut i: usize = from;
    while i < hay.len()
        invariant
            from <= i,
            forall|j: int| from <= j < i && j < hay@.len() ==> hay@[j] != b,
            match first_byte(hay@, b, from as int) {
                Some(k) => from <= k < hay@.len() && hay@[k] == b && forall|j: int|
                    from <= j < k ==> hay@[j] != b,
                None => forall|j: int| from <= j < hay@.len() ==> hay@[j] != b,
            },
        decreases hay.len() - i,
    {
        if hay[i] == b {
            return Some(i);
        }
        i += 1;
    }
    None
}

/// Tells whether `needle` stands somewhere in `hay`.
pub fn contains_bytes(hay: &[u8], needle: &[u8]) -> (r: bool)
    ensures
        r == contains(hay@, needle@),
{
    proof {
        lemma_contains_iff_first_occurrence(hay@, needle@);
    }
    find(hay, needle, 0).is_some()
}

/// Tells whether `hay` begins with `prefix`.
pub fn starts_with(hay: &[u8], prefix: &[u8]) -> (r: bool)
    ensures
        r == occurs_at(hay@, prefix@, 0),
{
    matches_at(hay, prefix, 0)
}

/// Tells whether `hay` ends with `suffix`.
pub fn ends_with(hay: &[u8], suffix: &[u8]) -> (r: bool)
    ensures
        r == (suffix@.len() <= hay@.len() && occurs_at(
            hay@,
            suffix@,
            hay@.len() - suffix@.len(),
        )),
{
    if suffix.len() > hay.len() {
        return false;
    }
    matches_at(hay, suffix, hay.len() - suffix.len())
}

/// Tells whether the two texts are the same bytes.
pub fn same_bytes(a: &[u8], b: &[u8]) -> (r: bool)
    ensures
        r == (a@ == b@),
{
    if a.len() != b.len() {
        return false;
    }
    let r = matches_at(a, b, 0);
    assert(a@.subrange(0, a@.len() as int) =~= a@);
    r
}

/// An owned copy of `hay[start..end]`.
pub fn copy_range(hay: &[u8], start: usize, end: usize) -> (r: Vec<u8>)
    requires
        start <= end <= hay.len(),
    ensures
        r@ == hay@.subrange(start as int, end as int),
{
    let mut out: Vec<u8> = Vec::new();
    out.extend_from_slice(slice_subrange(hay, start, end));
    out
}

/// `hay` with the span `start..end` replaced by `insert`.
pub fn splice(hay: &[u8], start: usize, end: usize, insert: &[u8]) -> (r: Vec<u8>)
    requires
        start <= end <= hay.len(),
    ensures
        r@ == hay@.subrange(0, start as int) + insert@ + hay@.subrange(
            end as int,
            hay@.len() as int,
        ),
{
    let mut out: Vec<u8> = Vec::new();
    out.extend_from_slice(slice_subrange(hay, 0, start));
    out.extend_from_slice(insert);
    out.extend_from_slice(slice_subrange(hay, end, hay.len()));
    out
}

/// `hay` with every occurrence of `from` replaced by `to`, left to right and
/// without overlap. An empty `from` selects nothing.
pub fn replace_all_bytes(hay: &[u8], from: &[u8], to: &[u8]) -> (r: Vec<u8>)
    ensures
        r@ == replace_all(hay@, from@, to@),
        !contains(hay@, from@) ==> r@ == hay@,
{
    proof {
        if !contains(hay@, from@) {
            lemma_replace_all_absent(hay@, from@, to@);
        }
    }
    if from.len() == 0 {
        let r = copy_range(hay, 0, hay.len());
        assert(hay@.subrange(0, hay@.len() as int) =~= hay@);
        return r;
    }
    let mut out: Vec<u8> = Vec::new();
    let mut i: usize = 0;
    while i < hay.len()
        invariant
            from@.len() > 0,
            i <= hay.len(),
            out@ + replaced_tail(hay@, from@, to@, i as int) == replace_all(hay@, from@, to@),
        decreases hay.len() - i,
    {
        let ghost before = out@;
        if matches_at(hay, from, i) {
            out.extend_from_slice(to);
            assert(before + to@ + replaced_tail(hay@, from@, to@, i + from@.len()) =~= before + (to@
                + replaced_tail(hay@, from@, to@, i + from@.len())));
            i += from.len();
        } else {
            out.push(hay[i]);
            assert(before.push(hay@[i as int]) + replaced_tail(hay@, from@, to@, i + 1) =~= before
                + (seq![hay@[i as int]] + replaced_tail(hay@, from@, to@, i + 1)));
            i += 1;
        }
    }
    assert(out@ + Seq::<u8>::empty() =~= out@);
    out
}

} // verus!
