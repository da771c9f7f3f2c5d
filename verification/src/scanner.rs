//! A lexical scanner that finds the brace closing a block of C source.
//!
//! The scanner goes over the bytes once and keeps three things: the nesting
//! depth, whether it is inside a quoted literal, and whether the next byte is
//! escaped. It knows nothing else of C: a brace inside a character literal,
//! or a literal that runs over several lines by other means than `\`, is
//! read like any other byte.

use vstd::prelude::*;

verus! {

/// The opening delimiter, `{`.
pub const OPEN: u8 = 0x7b;

/// The closing delimiter, `}`.
pub const CLOSE: u8 = 0x7d;

/// The quote that starts and ends a literal, `"`.
pub const QUOTE: u8 = 0x22;

/// The escape character inside a literal, `\`.
pub const ESCAPE: u8 = 0x5c;

/// What the scanner knows after a run of bytes.
pub ghost struct LexState {
    /// Opening delimiters outside literals, less closing ones.
    pub depth: int,
    /// The scanner is inside a quoted literal.
    pub in_string: bool,
    /// The next byte is escaped and stands for itself.
    pub escaped: bool,
}

/// The state before any byte is read.
pub open spec fn initial_state() -> LexState {
    LexState { depth: 0, in_string: false, escaped: false }
}

/// The state after reading byte `b` in state `st`.
pub open spec fn step(st: LexState, b: u8) -> LexState {
    if st.escaped {
        LexState { escaped: false, ..st }
    } else if b == ESCAPE && st.in_string {
        LexState { escaped: true, ..st }
    } else if b == QUOTE {
        LexState { in_string: !st.in_string, ..st }
    } else if b == OPEN && !st.in_string {
        LexState { depth: st.depth + 1, ..st }
    } else if b == CLOSE && !st.in_string {
        LexState { depth: st.depth - 1, ..st }
    } else {
        st
    }
}

/// The state after reading `s[start..end]` from the initial state.
pub open spec fn state_after(s: Seq<u8>, start: int, end: int) -> LexState
    decreases end - start,
{
    if end <= start {
        initial_state()
    } else {
        step(state_after(s, start, end - 1), s[end - 1])
    }
}

/// The byte at `j` closes the block opened at `start`: it is a closing
/// delimiter outside any literal, and it takes the depth back to zero.
pub open spec fn closes_at(s: Seq<u8>, start: int, j: int) -> bool {
    let before = state_after(s, start, j);
    &&& start < j < s.len()
    &&& s[j] == CLOSE
    &&& !before.escaped
    &&& !before.in_string
    &&& before.depth == 1
}

/// The offset one past the first byte at or after `j` that closes the block
/// opened at `start`.
pub open spec fn first_close_from(s: Seq<u8>, start: int, j: int) -> Option<int>
    decreases s.len() - j,
{
    if j >= s.len() {
        None
    } else if closes_at(s, start, j) {
        Some(j + 1)
    } else {
        first_close_from(s, start, j + 1)
    }
}

/// The offset one past the delimiter that closes the block opened at
/// `start`. `None` where no opening delimiter stands at `start`, or the text
/// ends before the depth is back at zero.
pub open spec fn matching_close(s: Seq<u8>, start: int) -> Option<int> {
    if 0 <= start < s.len() && s[start] == OPEN {
        first_close_from(s, start, start + 1)
    } else {
        None
    }
}

/// `first_close_from` returns the first closing position at or after `j`.
pub proof fn lemma_first_close_from(s: Seq<u8>, start: int, j: int)
    ensures
        match first_close_from(s, start, j) {
            Some(e) => j < e <= s.len() && closes_at(s, start, e - 1) && forall|k: int|
                j <= k < e - 1 ==> !closes_at(s, start, k),
            None => forall|k: int| j <= k ==> !closes_at(s, start, k),
        },
    decreases s.len() - j,
{
    if j < s.len() && !closes_at(s, start, j) {
        lemma_first_close_from(s, start, j + 1);
    }
}

/// What `matching_close` returns: the first position after `start` at which
/// the depth is back at zero, and `None` exactly where there is none or no
/// block opens at `start`.
pub proof fn lemma_matching_close(s: Seq<u8>, start: int)
    ensures
        match matching_close(s, start) {
            Some(e) => {
                &&& 0 <= start < s.len()
                &&& s[start] == OPEN
                &&& start + 1 < e <= s.len()
                &&& closes_at(s, start, e - 1)
                &&& forall|k: int| start < k < e - 1 ==> !closes_at(s, start, k)
            },
            None => !(0 <= start < s.len() && s[start] == OPEN) || forall|k: int|
                !closes_at(s, start, k),
        },
{
    if 0 <= start < s.len() && s[start] == OPEN {
        lemma_first_close_from(s, start, start + 1);
    }
}

/// The number of opening delimiters in `s[start..end]`, less the number of
/// closing ones, every byte counted.
pub open spec fn brace_balance(s: Seq<u8>, start: int, end: int) -> int
    decreases end - start,
{
    if end <= start {
        0
    } else if s[end - 1] == OPEN {
        brace_balance(s, start, end - 1) + 1
    } else if s[end - 1] == CLOSE {
        brace_balance(s, start, end - 1) - 1
    } else {
        brace_balance(s, start, end - 1)
    }
}

/// In text without quotes the scanner's depth is the plain balance of the
/// delimiters, so the block closes where that balance is back at zero.
pub proof fn law_depth_is_balance_without_quotes(s: Seq<u8>, start: int, end: int)
    requires
        0 <= start <= end <= s.len(),
        forall|k: int| start <= k < end ==> s[k] != QUOTE,
    ensures
        state_after(s, start, end) == (LexState {
            depth: brace_balance(s, start, end),
            in_string: false,
            escaped: false,
        }),
    decreases end - start,
{
    if start < end {
        law_depth_is_balance_without_quotes(s, start, end - 1);
    }
}

/// Inside a literal no byte changes the depth: delimiters in quoted text do
/// not count, balanced or not.
pub proof fn law_depth_frozen_in_literal(s: Seq<u8>, start: int, i: int)
    requires
        start <= i < s.len(),
        state_after(s, start, i).in_string,
    ensures
        state_after(s, start, i + 1).depth == state_after(s, start, i).depth,
        !closes_at(s, start, i),
{
}

/// A literal without escapes leaves the scanner where it was: after the
/// closing quote the state is the state before the opening quote, whatever
/// stands between the two.
pub proof fn law_literal_is_inert(s: Seq<u8>, start: int, open: int, close: int)
    requires
        0 <= start <= open < close < s.len(),
        !state_after(s, start, open).in_string,
        !state_after(s, start, open).escaped,
        s[open] == QUOTE,
        s[close] == QUOTE,
        forall|k: int| open < k < close ==> s[k] != QUOTE && s[k] != ESCAPE,
    ensures
        state_after(s, start, close + 1) == state_after(s, start, open),
{
    lemma_inside_plain_literal(s, start, open, close);
}

proof fn lemma_inside_plain_literal(s: Seq<u8>, start: int, open: int, i: int)
    requires
        0 <= start <= open < i <= s.len(),
        !state_after(s, start, open).in_string,
        !state_after(s, start, open).escaped,
        s[open] == QUOTE,
        forall|k: int| open < k < i ==> s[k] != QUOTE && s[k] != ESCAPE,
    ensures
        state_after(s, start, i) == (LexState {
            in_string: true,
            ..state_after(s, start, open)
        }),
    decreases i - open,
{
    if i > open + 1 {
        lemma_inside_plain_literal(s, start, open, i - 1);
    }
}

/// `t` is `s` with other text inside its literals: the two differ only at
/// bytes that the scanner reads inside a literal, and no such difference
/// puts a quote or an escape character in or takes one out.
pub open spec fn differs_inside_literals(s: Seq<u8>, t: Seq<u8>, start: int) -> bool {
    &&& s.len() == t.len()
    &&& forall|i: int|
        start <= i < s.len() ==> #[trigger] s[i] == t[i] || {
            &&& state_after(s, start, i).in_string
            &&& s[i] != QUOTE
            &&& s[i] != ESCAPE
            &&& t[i] != QUOTE
            &&& t[i] != ESCAPE
        }
}

proof fn lemma_same_state(s: Seq<u8>, t: Seq<u8>, start: int, end: int)
    requires
        0 <= start <= end <= s.len(),
        differs_inside_literals(s, t, start),
    ensures
        state_after(s, start, end) == state_after(t, start, end),
    decreases end - start,
{
    if start < end {
        lemma_same_state(s, t, start, end - 1);
        assert(s[end - 1] == t[end - 1] || state_after(s, start, end - 1).in_string);
    }
}

proof fn lemma_same_first_close(s: Seq<u8>, t: Seq<u8>, start: int, j: int)
    requires
        0 <= start < j,
        differs_inside_literals(s, t, start),
    ensures
        first_close_from(s, start, j) == first_close_from(t, start, j),
    decreases s.len() - j,
{
    if j < s.len() {
        lemma_same_state(s, t, start, j);
        assert(s[j] == t[j] || state_after(s, start, j).in_string);
        lemma_same_first_close(s, t, start, j + 1);
    }
}

/// What stands inside the literals does not matter: two texts that differ
/// only inside their literals have their block closed at the same offset,
/// however unbalanced the delimiters in either literal text are.
pub proof fn law_literal_text_is_ignored(s: Seq<u8>, t: Seq<u8>, start: int)
    requires
        differs_inside_literals(s, t, start),
    ensures
        matching_close(s, start) == matching_close(t, start),
{
    if 0 <= start < s.len() {
        assert(s[start] == t[start] || state_after(s, start, start).in_string);
        lemma_same_first_close(s, t, start, start + 1);
    }
}

/// An escaped byte does not end the literal: after the escape character and
/// the byte behind it, a quote included, the scanner is still inside the
/// literal, in the state it had before the two.
pub proof fn law_escaped_byte_keeps_literal_open(s: Seq<u8>, start: int, i: int)
    requires
        0 <= start <= i,
        i + 1 < s.len(),
        state_after(s, start, i).in_string,
        !state_after(s, start, i).escaped,
        s[i] == ESCAPE,
    ensures
        state_after(s, start, i + 2) == state_after(s, start, i),
        state_after(s, start, i + 2).in_string,
        !closes_at(s, start, i + 1),
{
    assert(state_after(s, start, i + 1) == step(state_after(s, start, i), s[i]));
}

/// Finds the delimiter that closes the block opened at `open_pos` and
/// returns the offset one past it. Delimiters inside quoted literals are
/// passed over, and so is a quote behind an escape character inside a
/// literal. Returns `None` where no opening delimiter stands at `open_pos`,
/// or the text ends before the block is closed.
pub fn find_matching_close(buf: &[u8], open_pos: usize) -> (r: Option<usize>)
    ensures
        match r {
            Some(e) => matching_close(buf@, open_pos as int) == Some(e as int),
            None => matching_close(buf@, open_pos as int) is None,
        },
        match r {
            Some(e) => {
                &&& open_pos < buf@.len()
                &&& buf@[open_pos as int] == OPEN
                &&& open_pos + 1 < e <= buf@.len()
                &&& closes_at(buf@, open_pos as int, e - 1)
                &&& forall|k: int| open_pos < k < e - 1 ==> !closes_at(buf@, open_pos as int, k)
            },
            None => !(open_pos < buf@.len() && buf@[open_pos as int] == OPEN) || forall|k: int|
                !closes_at(buf@, open_pos as int, k),
        },
{
    proof {
        lemma_matching_close(buf@, open_pos as int);
    }
    if open_pos >= buf.len() || buf[open_pos] != OPEN {
        return None;
    }
    let mut depth: usize = 1;
    let mut in_string: bool = false;
    let mut escaped: bool = false;
    let mut i: usize = open_pos + 1;
    proof {
        assert(state_after(buf@, open_pos as int, open_pos as int) == initial_state());
    }
    while i < buf.len()
        invariant
            open_pos < i <= buf.len(),
            buf@[open_pos as int] == OPEN,
            1 <= depth <= i - open_pos,
            state_after(buf@, open_pos as int, i as int) == (LexState {
                depth: depth as int,
                in_string,
                escaped,
            }),
            forall|k: int| open_pos < k < i ==> !closes_at(buf@, open_pos as int, k),
            first_close_from(buf@, open_pos as int, open_pos + 1) == first_close_from(
                buf@,
                open_pos as int,
                i as int,
            ),
        decreases buf.len() - i,
    {
        let b: u8 = buf[i];
        if escaped {
            escaped = false;
        } else if b == ESCAPE && in_string {
            escaped = true;
        } else if b == QUOTE {
            in_string = !in_string;
        } else if b == OPEN && !in_string {
            depth += 1;
        } else if b == CLOSE && !in_string {
            if depth == 1 {
                assert(closes_at(buf@, open_pos as int, i as int));
                return Some(i + 1);
            }
            depth -= 1;
        }
        i += 1;
    }
    None
}

} // verus!
