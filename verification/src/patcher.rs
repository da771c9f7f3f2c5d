//! The three kinds of edit that rewrite a source file, each safe to apply
//! again to its own output.
//!
//! Every edit is a function from text to text. An edit that finds its work
//! already done returns the text as it is.

use vstd::prelude::*;
use crate::scanner::{find_matching_close, matching_close, OPEN};
use crate::text::{
    contains, contains_bytes, copy_range, find, find_byte, first_byte, first_occurrence,
    lemma_contains_iff_first_occurrence, lemma_contains_in_middle,
    lemma_contains_itself, lemma_first_occurrence, lemma_replace_all_absent,
    lemma_replaced_tail_before_first, lemma_replaced_tail_len, occurs_at, replace_all,
    replace_all_bytes, replaced_tail, same_bytes, splice,
};
use crate::whitespace::{leading_space_len, trim_end, trim_start, trimmed_end_len};
use vstd::slice::slice_subrange;

verus! {

/// Why an edit could not be made.
#[derive(Clone, Copy, Debug, PartialEq, Eq)]
pub enum PatchError {
    /// The signature of the function to remove is not in the text.
    AnchorNotFound,
    /// No block opens behind the signature, or the text ends before the
    /// block is closed.
    UnbalancedStructure,
    /// The landmark behind which to insert is not in the text.
    MarkerNotFound,
}

/// The name of `PatchError::AnchorNotFound`.
pub const ANCHOR_NOT_FOUND: &'static str = "anchor not found";

/// The name of `PatchError::UnbalancedStructure`.
pub const UNBALANCED_STRUCTURE: &'static str = "unbalanced structure";

/// The name of `PatchError::MarkerNotFound`.
pub const MARKER_NOT_FOUND: &'static str = "marker not found";

/// The name under which `error` is reported.
pub open spec fn patch_message(error: PatchError) -> Seq<char> {
    match error {
        PatchError::AnchorNotFound => ANCHOR_NOT_FOUND@,
        PatchError::UnbalancedStructure => UNBALANCED_STRUCTURE@,
        PatchError::MarkerNotFound => MARKER_NOT_FOUND@,
    }
}

impl PatchError {
    /// The name under which the error is reported.
    pub fn message(&self) -> (r: &'static str)
        ensures
            r@ == patch_message(*self),
    {
        match self {
            PatchError::AnchorNotFound => ANCHOR_NOT_FOUND,
            PatchError::UnbalancedStructure => UNBALANCED_STRUCTURE,
            PatchError::MarkerNotFound => MARKER_NOT_FOUND,
        }
    }
}

/// Replaces every occurrence of the exact text `from` by `to`. Where `from`
/// is not in `content`, the result is `content`: a signature that has
/// drifted is passed over, not reported.
pub fn replace_exact(content: &[u8], from: &[u8], to: &[u8]) -> (r: Vec<u8>)
    ensures
        r@ == replace_all(content@, from@, to@),
        !contains(content@, from@) ==> r@ == content@,
{
    replace_all_bytes(content, from, to)
}

/// Makes a function visible outside its file: replaces every occurrence of
/// `qualifier` followed by `signature` by `signature` alone. Where the
/// qualified signature is not in `content`, the result is `content`.
pub fn strip_qualifier(content: &[u8], qualifier: &[u8], signature: &[u8]) -> (r: Vec<u8>)
    ensures
        r@ == replace_all(content@, qualifier@ + signature@, signature@),
        !contains(content@, qualifier@ + signature@) ==> r@ == content@,
{
    let mut qualified: Vec<u8> = Vec::new();
    qualified.extend_from_slice(qualifier);
    qualified.extend_from_slice(signature);
    assert(qualified@ =~= qualifier@ + signature@);
    replace_all_bytes(content, qualified.as_slice(), signature)
}

/// The span that a removal by `signature` takes out of `s`: from the first
/// occurrence of the signature to one past the delimiter that closes the
/// first block opened behind it.
pub open spec fn function_span(s: Seq<u8>, signature: Seq<u8>) -> Result<(int, int), PatchError> {
    match first_occurrence(s, signature, 0) {
        None => Err(PatchError::AnchorNotFound),
        Some(p) => match first_byte(s, OPEN, p + signature.len()) {
            None => Err(PatchError::UnbalancedStructure),
            Some(b) => match matching_close(s, b) {
                None => Err(PatchError::UnbalancedStructure),
                Some(e) => Ok((p, e)),
            },
        },
    }
}

/// `s` with the function named by `signature` taken out and `notice` put in
/// its place; the white space that adjoined the function goes with it. A
/// text that already holds `notice` is returned as it is.
pub open spec fn remove_function_spec(s: Seq<u8>, signature: Seq<u8>, notice: Seq<u8>) -> Result<
    Seq<u8>,
    PatchError,
> {
    if contains(s, notice) {
        Ok(s)
    } else {
        match function_span(s, signature) {
            Err(e) => Err(e),
            Ok((p, e)) => Ok(
                trim_end(s.subrange(0, p)) + notice + trim_start(s.subrange(e, s.len() as int)),
            ),
        }
    }
}

/// Removes the function whose header is `signature`, body included, and
/// leaves `notice` in its place.
///
/// The function runs from the first occurrence of `signature` to the
/// delimiter that closes the first block opened behind it. White space
/// before and behind the function is dropped, so that `notice` follows the
/// preceding text directly. Where `content` already holds `notice`, the
/// removal has been made and `content` is returned unchanged.
pub fn remove_function(content: &[u8], signature: &[u8], notice: &[u8]) -> (r: Result<
    Vec<u8>,
    PatchError,
>)
    ensures
        match r {
            Ok(v) => remove_function_spec(content@, signature@, notice@) == Ok::<
                Seq<u8>,
                PatchError,
            >(v@),
            Err(e) => remove_function_spec(content@, signature@, notice@) == Err::<
                Seq<u8>,
                PatchError,
            >(e),
        },
        contains(content@, notice@) ==> r is Ok && r->Ok_0@ == content@,
        !contains(content@, notice@) && !contains(content@, signature@) ==> r == Err::<
            Vec<u8>,
            PatchError,
        >(PatchError::AnchorNotFound),
        r is Err ==> r->Err_0 != PatchError::MarkerNotFound,
{
    proof {
        lemma_contains_iff_first_occurrence(content@, signature@);
    }
    if contains_bytes(content, notice) {
        let same = copy_range(content, 0, content.len());
        assert(content@.subrange(0, content@.len() as int) =~= content@);
        return Ok(same);
    }
    let p: usize = match find(content, signature, 0) {
        Some(p) => p,
        None => {
            return Err(PatchError::AnchorNotFound);
        },
    };
    assert(occurs_at(content@, signature@, p as int));
    assert(p + signature@.len() <= content.len());
    let open: usize = match find_byte(content, OPEN, p + signature.len()) {
        Some(b) => b,
        None => {
            return Err(PatchError::UnbalancedStructure);
        },
    };
    let end: usize = match find_matching_close(content, open) {
        Some(e) => e,
        None => {
            return Err(PatchError::UnbalancedStructure);
        },
    };
    let before = slice_subrange(content, 0, p);
    let after = slice_subrange(content, end, content.len());
    let keep: usize = trimmed_end_len(before);
    let skip: usize = leading_space_len(after);
    let r = splice(content, keep, end + skip, notice);
    proof {
        let s = content@;
        assert(trim_end(s.subrange(0, p as int)) =~= s.subrange(0, keep as int));
        assert(trim_start(s.subrange(end as int, s.len() as int)) =~= s.subrange(
            end + skip,
            s.len() as int,
        ));
    }
    Ok(r)
}

/// `s` with `text` put in directly behind the first occurrence of `marker`.
/// A text that already holds `guard` is returned as it is.
pub open spec fn insert_after_marker_spec(
    s: Seq<u8>,
    marker: Seq<u8>,
    guard: Seq<u8>,
    text: Seq<u8>,
) -> Result<Seq<u8>, PatchError> {
    if contains(s, guard) {
        Ok(s)
    } else {
        match first_occurrence(s, marker, 0) {
            None => Err(PatchError::MarkerNotFound),
            Some(p) => Ok(
                s.subrange(0, p + marker.len()) + text + s.subrange(
                    p + marker.len(),
                    s.len() as int,
                ),
            ),
        }
    }
}

/// Inserts `text` directly behind the first occurrence of the landmark
/// `marker`.
///
/// `guard` is a piece of the inserted text by which it is known again: where
/// `content` already holds `guard`, the insertion has been made and
/// `content` is returned unchanged. Otherwise a missing landmark is an
/// error.
pub fn insert_after_marker(content: &[u8], marker: &[u8], guard: &[u8], text: &[u8]) -> (r: Result<
    Vec<u8>,
    PatchError,
>)
    ensures
        match r {
            Ok(v) => insert_after_marker_spec(content@, marker@, guard@, text@) == Ok::<
                Seq<u8>,
                PatchError,
            >(v@),
            Err(e) => insert_after_marker_spec(content@, marker@, guard@, text@) == Err::<
                Seq<u8>,
                PatchError,
            >(e),
        },
        contains(content@, guard@) ==> r is Ok && r->Ok_0@ == content@,
        r is Err <==> !contains(content@, guard@) && !contains(content@, marker@),
        r is Err ==> r->Err_0 == PatchError::MarkerNotFound,
{
    if contains_bytes(content, guard) {
        let same = copy_range(content, 0, content.len());
        assert(content@.subrange(0, content@.len() as int) =~= content@);
        return Ok(same);
    }
    match find(content, marker, 0) {
        Some(p) => {
            assert(occurs_at(content@, marker@, p as int));
            assert(p + marker@.len() <= content.len());
            let at: usize = p + marker.len();
            Ok(splice(content, at, at, text))
        },
        None => Err(PatchError::MarkerNotFound),
    }
}

/// `s` with `text` added at its end, unless `s` already holds `guard`.
pub open spec fn append_once_spec(s: Seq<u8>, guard: Seq<u8>, text: Seq<u8>) -> Seq<u8> {
    if contains(s, guard) {
        s
    } else {
        s + text
    }
}

/// Adds `text` at the end of `content`. Where `content` already holds
/// `guard`, a piece of `text` by which it is known again, `content` is
/// returned unchanged.
pub fn append_once(content: &[u8], guard: &[u8], text: &[u8]) -> (r: Vec<u8>)
    ensures
        r@ == append_once_spec(content@, guard@, text@),
{
    let mut out = copy_range(content, 0, content.len());
    assert(content@.subrange(0, content@.len() as int) =~= content@);
    if !contains_bytes(content, guard) {
        out.extend_from_slice(text);
    }
    out
}

/// One edit of a source file, with the texts it works on.
#[derive(Debug, PartialEq, Eq)]
pub enum PatchOperation {
    /// Replace every occurrence of `from` by `to`; a text without `from` is
    /// left as it is.
    Replace { from: Vec<u8>, to: Vec<u8> },
    /// Remove the function whose header is `signature` and leave `notice`
    /// in its place.
    RemoveFunction { signature: Vec<u8>, notice: Vec<u8> },
    /// Insert `text` behind the landmark `marker`, unless the text holds
    /// `guard` already.
    InsertAfterMarker { marker: Vec<u8>, guard: Vec<u8>, text: Vec<u8> },
    /// Add `text` at the end, unless the text holds `guard` already.
    AppendOnce { guard: Vec<u8>, text: Vec<u8> },
}

/// An edit as a value of texts.
pub ghost enum PatchOp {
    /// Replace every occurrence of `from` by `to`.
    Replace { from: Seq<u8>, to: Seq<u8> },
    /// Remove the function whose header is `signature` and leave `notice`.
    RemoveFunction { signature: Seq<u8>, notice: Seq<u8> },
    /// Insert `text` behind `marker`, unless the text holds `guard`.
    InsertAfterMarker { marker: Seq<u8>, guard: Seq<u8>, text: Seq<u8> },
    /// Add `text` at the end, unless the text holds `guard`.
    AppendOnce { guard: Seq<u8>, text: Seq<u8> },
}

impl View for PatchOperation {
    type V = PatchOp;

    open spec fn view(&self) -> PatchOp {
        match self {
            PatchOperation::Replace { from, to } => PatchOp::Replace { from: from@, to: to@ },
            PatchOperation::RemoveFunction { signature, notice } => PatchOp::RemoveFunction {
                signature: signature@,
                notice: notice@,
            },
            PatchOperation::InsertAfterMarker { marker, guard, text } => PatchOp::InsertAfterMarker {
                marker: marker@,
                guard: guard@,
                text: text@,
            },
            PatchOperation::AppendOnce { guard, text } => PatchOp::AppendOnce {
                guard: guard@,
                text: text@,
            },
        }
    }
}

/// The edits of a list, as values of texts.
pub open spec fn views_of_operations(operations: Seq<PatchOperation>) -> Seq<PatchOp> {
    Seq::new(operations.len(), |i: int| operations[i]@)
}

/// What the edit `op` makes of the text `s`.
pub open spec fn apply_spec(op: PatchOp, s: Seq<u8>) -> Result<Seq<u8>, PatchError> {
    match op {
        PatchOp::Replace { from, to } => Ok(replace_all(s, from, to)),
        PatchOp::RemoveFunction { signature, notice } => remove_function_spec(s, signature, notice),
        PatchOp::InsertAfterMarker { marker, guard, text } => insert_after_marker_spec(
            s,
            marker,
            guard,
            text,
        ),
        PatchOp::AppendOnce { guard, text } => Ok(append_once_spec(s, guard, text)),
    }
}

/// The edit is known again by its guard: where it inserts or adds a text,
/// the guard is a piece of that text.
pub open spec fn is_self_checking(op: PatchOp) -> bool {
    match op {
        PatchOp::Replace { .. } => true,
        PatchOp::RemoveFunction { .. } => true,
        PatchOp::InsertAfterMarker { guard, text, .. } => contains(text, guard),
        PatchOp::AppendOnce { guard, text } => contains(text, guard),
    }
}

/// An edit that failed: the number of the edit in its list, counted from 0,
/// and why it could not be made.
#[derive(Clone, Copy, Debug, PartialEq, Eq)]
pub struct PatchFailure {
    /// The number of the edit that failed.
    pub operation: usize,
    /// Why it failed.
    pub error: PatchError,
}

/// What a list of edits made of a text.
#[derive(Debug, PartialEq, Eq)]
pub struct Patched {
    /// The text after the last edit.
    pub text: Vec<u8>,
    /// The text is not the text that went in: it has to be written back.
    pub changed: bool,
}

/// What the edits `ops` make of the text `s`, applied in their order, each
/// to what the one before it returned. The first edit that fails ends the
/// work; its number and its error are the result.
pub open spec fn apply_all_spec(ops: Seq<PatchOp>, s: Seq<u8>) -> Result<Seq<u8>, (int, PatchError)>
    decreases ops.len(),
{
    if ops.len() == 0 {
        Ok(s)
    } else {
        match apply_all_spec(ops.drop_last(), s) {
            Err(failure) => Err(failure),
            Ok(t) => match apply_spec(ops.last(), t) {
                Err(e) => Err((ops.len() - 1, e)),
                Ok(u) => Ok(u),
            },
        }
    }
}

impl PatchOperation {
    /// Makes the edit on `content`.
    pub fn apply(&self, content: &[u8]) -> (r: Result<Vec<u8>, PatchError>)
        ensures
            match r {
                Ok(v) => apply_spec(self@, content@) == Ok::<Seq<u8>, PatchError>(v@),
                Err(e) => apply_spec(self@, content@) == Err::<Seq<u8>, PatchError>(e),
            },
    {
        match self {
            PatchOperation::Replace { from, to } => Ok(
                replace_exact(content, from.as_slice(), to.as_slice()),
            ),
            PatchOperation::RemoveFunction { signature, notice } => remove_function(
                content,
                signature.as_slice(),
                notice.as_slice(),
            ),
            PatchOperation::InsertAfterMarker { marker, guard, text } => insert_after_marker(
                content,
                marker.as_slice(),
                guard.as_slice(),
                text.as_slice(),
            ),
            PatchOperation::AppendOnce { guard, text } => Ok(
                append_once(content, guard.as_slice(), text.as_slice()),
            ),
        }
    }
}

/// Makes the edits of `operations` on `content`, in their order, each on
/// what the one before it returned, and tells whether the text that comes
/// out differs from `content`. The first edit that fails ends the work, and
/// no text is returned: its number and its error are.
pub fn apply_all(operations: &Vec<PatchOperation>, content: &[u8]) -> (r: Result<
    Patched,
    PatchFailure,
>)
    ensures
        match r {
            Ok(done) => apply_all_spec(views_of_operations(operations@), content@) == Ok::<
                Seq<u8>,
                (int, PatchError),
            >(done.text@) && done.changed == (done.text@ != content@),
            Err(failure) => apply_all_spec(views_of_operations(operations@), content@) == Err::<
                Seq<u8>,
                (int, PatchError),
            >((failure.operation as int, failure.error)),
        },
        r matches Err(failure) ==> failure.operation < operations@.len(),
{
    let ghost ops = views_of_operations(operations@);
    let mut text: Vec<u8> = copy_range(content, 0, content.len());
    assert(content@.subrange(0, content@.len() as int) =~= content@);
    let mut i: usize = 0;
    while i < operations.len()
        invariant
            i <= operations.len(),
            ops == views_of_operations(operations@),
            apply_all_spec(ops.take(i as int), content@) == Ok::<Seq<u8>, (int, PatchError)>(
                text@,
            ),
        decreases operations.len() - i,
    {
        proof {
            let next = ops.take(i + 1);
            assert(next.drop_last() =~= ops.take(i as int));
            assert(next.last() == operations@[i as int]@);
        }
        match operations[i].apply(text.as_slice()) {
            Ok(v) => {
                text = v;
            },
            Err(error) => {
                proof {
                    lemma_failure_stays(ops, content@, i + 1);
                }
                return Err(PatchFailure { operation: i, error });
            },
        }
        i += 1;
    }
    assert(ops.take(i as int) =~= ops);
    let changed = !same_bytes(text.as_slice(), content);
    Ok(Patched { text, changed })
}

/// With one more edit at the end of the list, the edits before it are made
/// first, and the new one on what they return.
pub proof fn lemma_apply_all_push(ops: Seq<PatchOp>, op: PatchOp, s: Seq<u8>)
    ensures
        apply_all_spec(ops.push(op), s) == match apply_all_spec(ops, s) {
            Err(failure) => Err::<Seq<u8>, (int, PatchError)>(failure),
            Ok(t) => match apply_spec(op, t) {
                Err(e) => Err((ops.len() as int, e)),
                Ok(u) => Ok(u),
            },
        },
{
    assert(ops.push(op).drop_last() =~= ops);
}

/// Once an edit has failed, the edits behind it change nothing of the
/// result.
proof fn lemma_failure_stays(ops: Seq<PatchOp>, s: Seq<u8>, n: int)
    requires
        0 <= n <= ops.len(),
        apply_all_spec(ops.take(n), s) is Err,
    ensures
        apply_all_spec(ops, s) == apply_all_spec(ops.take(n), s),
    decreases ops.len() - n,
{
    if n < ops.len() {
        assert(ops.take(n + 1).drop_last() =~= ops.take(n));
        lemma_failure_stays(ops, s, n + 1);
    } else {
        assert(ops.take(n) =~= ops);
    }
}

/// Replacing a text by itself changes nothing.
proof fn lemma_replaced_tail_by_itself(s: Seq<u8>, from: Seq<u8>, i: int)
    requires
        0 <= i <= s.len(),
        from.len() > 0,
    ensures
        replaced_tail(s, from, from, i) == s.subrange(i, s.len() as int),
    decreases s.len() - i,
{
    let n = s.len() as int;
    if i >= n {
        assert(s.subrange(i, n) =~= Seq::<u8>::empty());
    } else if occurs_at(s, from, i) {
        lemma_replaced_tail_by_itself(s, from, i + from.len());
        assert(from + s.subrange(i + from.len(), n) =~= s.subrange(i, n));
    } else {
        lemma_replaced_tail_by_itself(s, from, i + 1);
        assert(seq![s[i]] + s.subrange(i + 1, n) =~= s.subrange(i, n));
    }
}

/// An exact replacement made a second time changes nothing, provided the
/// first left no occurrence of `from` behind (or there was nothing to
/// replace by anything else: `from` is empty, or `to` is the same text). A
/// replacement can leave one behind where `to` and its surroundings spell
/// `from` anew.
pub proof fn law_replace_exact_idempotent(s: Seq<u8>, from: Seq<u8>, to: Seq<u8>)
    requires
        from.len() == 0 || from == to || !contains(replace_all(s, from, to), from),
    ensures
        replace_all(replace_all(s, from, to), from, to) == replace_all(s, from, to),
{
    let once = replace_all(s, from, to);
    if from.len() == 0 {
    } else if from == to {
        if from.len() > 0 {
            lemma_replaced_tail_by_itself(once, from, 0);
            assert(once.subrange(0, once.len() as int) =~= once);
        }
    } else {
        lemma_replace_all_absent(once, from, to);
    }
}

/// Where a text still holds `from`, replacing it by another text changes
/// the text: an exact replacement is repeatable on no other output than
/// those of `law_replace_exact_idempotent`.
pub proof fn law_replace_exact_changes_what_it_finds(s: Seq<u8>, from: Seq<u8>, to: Seq<u8>)
    requires
        from.len() > 0,
        from != to,
        contains(s, from),
    ensures
        replace_all(s, from, to) != s,
{
    lemma_contains_iff_first_occurrence(s, from);
    lemma_first_occurrence(s, from, 0);
    let p = first_occurrence(s, from, 0)->0;
    let rest = replaced_tail(s, from, to, p + from.len());
    let replaced = s.subrange(0, p) + to + rest;
    lemma_replaced_tail_before_first(s, from, to, p, 0);
    lemma_replaced_tail_len(s, from, to, p + from.len());
    if to.len() == from.len() {
        // Of equal length and not equal: the two differ at some offset.
        assert(s.subrange(p, p + from.len()) == from);
        if replaced == s {
            assert(replaced.subrange(p, p + to.len()) =~= to);
            assert(to =~= from);
        }
    }
}

/// A removal made a second time changes nothing: what a successful removal
/// returns is returned again when the removal is applied to it.
pub proof fn law_remove_function_idempotent(s: Seq<u8>, signature: Seq<u8>, notice: Seq<u8>)
    ensures
        match remove_function_spec(s, signature, notice) {
            Ok(t) => remove_function_spec(t, signature, notice) == Ok::<Seq<u8>, PatchError>(t),
            Err(_) => true,
        },
{
    if !contains(s, notice) {
        match function_span(s, signature) {
            Ok((p, e)) => {
                lemma_contains_itself(notice);
                lemma_contains_in_middle(
                    trim_end(s.subrange(0, p)),
                    notice,
                    trim_start(s.subrange(e, s.len() as int)),
                    notice,
                );
            },
            Err(_) => {},
        }
    }
}

/// An insertion made a second time changes nothing, provided the guard is a
/// piece of the inserted text: what a successful insertion returns is
/// returned again when the insertion is applied to it.
pub proof fn law_insert_after_marker_idempotent(
    s: Seq<u8>,
    marker: Seq<u8>,
    guard: Seq<u8>,
    text: Seq<u8>,
)
    requires
        contains(text, guard),
    ensures
        match insert_after_marker_spec(s, marker, guard, text) {
            Ok(t) => insert_after_marker_spec(t, marker, guard, text) == Ok::<
                Seq<u8>,
                PatchError,
            >(t),
            Err(_) => true,
        },
{
    if !contains(s, guard) {
        match first_occurrence(s, marker, 0) {
            Some(p) => {
                lemma_contains_in_middle(
                    s.subrange(0, p + marker.len()),
                    text,
                    s.subrange(p + marker.len(), s.len() as int),
                    guard,
                );
            },
            None => {},
        }
    }
}

/// An addition at the end made a second time changes nothing, provided the
/// guard is a piece of the added text.
pub proof fn law_append_once_idempotent(s: Seq<u8>, guard: Seq<u8>, text: Seq<u8>)
    requires
        contains(text, guard),
    ensures
        append_once_spec(append_once_spec(s, guard, text), guard, text) == append_once_spec(
            s,
            guard,
            text,
        ),
{
    if !contains(s, guard) {
        lemma_contains_in_middle(s, text, Seq::<u8>::empty(), guard);
        assert(s + text + Seq::<u8>::empty() =~= s + text);
    }
}

/// An edit made a second time changes nothing: what a successful edit
/// returns is returned again when the edit is applied to it. This holds of
/// every self-checking edit, but for a replacement that has left its
/// `from` behind.
pub proof fn law_apply_idempotent(op: PatchOp, s: Seq<u8>)
    requires
        is_self_checking(op),
        op matches PatchOp::Replace { from, to } ==> from.len() == 0 || from == to || !contains(
            replace_all(s, from, to),
            from,
        ),
    ensures
        match apply_spec(op, s) {
            Ok(t) => apply_spec(op, t) == Ok::<Seq<u8>, PatchError>(t),
            Err(_) => true,
        },
{
    match op {
        PatchOp::Replace { from, to } => {
            law_replace_exact_idempotent(s, from, to);
        },
        PatchOp::RemoveFunction { signature, notice } => {
            law_remove_function_idempotent(s, signature, notice);
        },
        PatchOp::InsertAfterMarker { marker, guard, text } => {
            law_insert_after_marker_idempotent(s, marker, guard, text);
        },
        PatchOp::AppendOnce { guard, text } => {
            law_append_once_idempotent(s, guard, text);
        },
    }
}

} // verus!

