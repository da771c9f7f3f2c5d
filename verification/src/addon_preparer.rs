//! The edits that turn the command-line program into a library with a
//! callable entry point, and the files that go with it.

use vstd::prelude::*;
use vstd::string::StringSliceAdditionalSpecFns;
use crate::patcher::{
    append_once, append_once_spec, apply_all, apply_all_spec, insert_after_marker,
    insert_after_marker_spec, law_append_once_idempotent, law_insert_after_marker_idempotent,
    law_remove_function_idempotent, lemma_apply_all_push, remove_function,
    remove_function_spec, views_of_operations, PatchError, PatchOp, PatchOperation,
};
use crate::paths::{join, join_path};
use crate::templates::{
    BINDING_C, CLEANUP_SIGNATURE, CONFIG_H, ENTRY_POINT, INCLUDE_MARKER, LINE_BREAK,
    MAIN_REMOVED_HEAD, MAIN_REMOVED_TAIL, MAIN_SIGNATURE, NAPI_INCLUDE, POSTPROC_ARGUMENTS,
    POSTPROC_CALL, POSTPROC_CONDITION, POSTPROC_END, POSTPROC_INDENT, RUN_FUNCTION_HEAD,
    RUN_FUNCTION_REST, RUN_FUNCTION_TYPE, STATIC_QUALIFIER, TRANSCODE_SIGNATURE,
};
use crate::text::{
    contains, contains_bytes, copy_range, find, first_occurrence,
    lemma_contains_iff_first_occurrence, lemma_contains_in_middle, lemma_contains_itself,
    occurs_at, replace_all, same_bytes, splice,
};
use crate::vcpkg_manager::{VcpkgManager, TOOL_DIR, TREE_DIR};

verus! {

/// The directory of the prepared sources, below the base directory.
pub const ADDON_DIR: &'static str = "addon_src";

/// The directory of the program's own sources, below the unpacked sources.
pub const TOOLS_DIR: &'static str = "fftools";

/// The inserted include directive on a line of its own.
pub open spec fn napi_include_line() -> Seq<u8> {
    LINE_BREAK.spec_bytes() + NAPI_INCLUDE.spec_bytes() + LINE_BREAK.spec_bytes()
}

/// The notice that stands in the place of the removed entry point; it
/// names the callable one.
pub open spec fn main_removed_notice() -> Seq<u8> {
    MAIN_REMOVED_HEAD.spec_bytes() + ENTRY_POINT.spec_bytes() + MAIN_REMOVED_TAIL.spec_bytes()
}

/// The start of the callable entry point's header, by which the function is
/// known again: its result type and its name.
pub open spec fn run_function_guard() -> Seq<u8> {
    RUN_FUNCTION_TYPE.spec_bytes() + ENTRY_POINT.spec_bytes()
}

/// The callable entry point with the comment above it.
pub open spec fn run_function() -> Seq<u8> {
    RUN_FUNCTION_HEAD.spec_bytes() + run_function_guard() + RUN_FUNCTION_REST.spec_bytes()
}

/// The line that reports the post-processing library.
pub open spec fn postproc_line() -> Seq<u8> {
    POSTPROC_INDENT.spec_bytes() + POSTPROC_CALL.spec_bytes() + POSTPROC_ARGUMENTS.spec_bytes()
}

/// The same line under its condition.
pub open spec fn guarded_postproc_line() -> Seq<u8> {
    POSTPROC_CONDITION.spec_bytes() + LINE_BREAK.spec_bytes() + postproc_line()
        + POSTPROC_END.spec_bytes()
}

/// The text already reports the post-processing library under a condition.
pub open spec fn postproc_is_guarded(s: Seq<u8>) -> bool {
    contains(s, POSTPROC_CONDITION.spec_bytes()) && contains(s, POSTPROC_CALL.spec_bytes())
}

/// The options source with the line that reports the post-processing
/// library put under its condition; `None` where the text is left as it is,
/// because that was done before or the line is not in it.
pub open spec fn guard_postproc_spec(s: Seq<u8>) -> Option<Seq<u8>> {
    if postproc_is_guarded(s) {
        None
    } else {
        match first_occurrence(s, postproc_line(), 0) {
            None => None,
            Some(p) => Some(
                s.subrange(0, p) + guarded_postproc_line() + s.subrange(
                    p + postproc_line().len(),
                    s.len() as int,
                ),
            ),
        }
    }
}

/// The program's main source with the entry point removed.
pub open spec fn without_main(s: Seq<u8>) -> Result<Seq<u8>, PatchError> {
    remove_function_spec(s, MAIN_SIGNATURE.spec_bytes(), main_removed_notice())
}

/// The program's main source with the host runtime's header included.
pub open spec fn with_napi_include(s: Seq<u8>) -> Result<Seq<u8>, PatchError> {
    insert_after_marker_spec(
        s,
        INCLUDE_MARKER.spec_bytes(),
        NAPI_INCLUDE.spec_bytes(),
        napi_include_line(),
    )
}

/// The program's main source with the callable entry point at its end.
pub open spec fn with_run_function(s: Seq<u8>) -> Seq<u8> {
    append_once_spec(s, run_function_guard(), run_function())
}

/// The program's main source with the two helper functions made visible.
pub open spec fn with_public_helpers(s: Seq<u8>) -> Seq<u8> {
    replace_all(
        replace_all(
            s,
            STATIC_QUALIFIER.spec_bytes() + TRANSCODE_SIGNATURE.spec_bytes(),
            TRANSCODE_SIGNATURE.spec_bytes(),
        ),
        STATIC_QUALIFIER.spec_bytes() + CLEANUP_SIGNATURE.spec_bytes(),
        CLEANUP_SIGNATURE.spec_bytes(),
    )
}

/// The edits of the program's main source, in their fixed order: the two
/// helpers are made visible, the entry point is removed, the header is
/// included, and the callable entry point is added.
pub open spec fn ffmpeg_c_edits() -> Seq<PatchOp> {
    seq![
        PatchOp::Replace {
            from: STATIC_QUALIFIER.spec_bytes() + TRANSCODE_SIGNATURE.spec_bytes(),
            to: TRANSCODE_SIGNATURE.spec_bytes(),
        },
        PatchOp::Replace {
            from: STATIC_QUALIFIER.spec_bytes() + CLEANUP_SIGNATURE.spec_bytes(),
            to: CLEANUP_SIGNATURE.spec_bytes(),
        },
        PatchOp::RemoveFunction {
            signature: MAIN_SIGNATURE.spec_bytes(),
            notice: main_removed_notice(),
        },
        PatchOp::InsertAfterMarker {
            marker: INCLUDE_MARKER.spec_bytes(),
            guard: NAPI_INCLUDE.spec_bytes(),
            text: napi_include_line(),
        },
        PatchOp::AppendOnce { guard: run_function_guard(), text: run_function() },
    ]
}

/// The program's main source after all edits: each edit is made on what the
/// one before it returned, and the first that fails decides the error.
pub open spec fn modified_ffmpeg_c(s: Seq<u8>) -> Result<Seq<u8>, PatchError> {
    match without_main(with_public_helpers(s)) {
        Err(e) => Err(e),
        Ok(removed) => match with_napi_include(removed) {
            Err(e) => Err(e),
            Ok(included) => Ok(with_run_function(included)),
        },
    }
}

/// The edits of the list, made in their order, are the edits of the single
/// functions, each made on what the one before it returned.
pub proof fn lemma_ffmpeg_c_edits(s: Seq<u8>)
    ensures
        match apply_all_spec(ffmpeg_c_edits(), s) {
            Ok(t) => modified_ffmpeg_c(s) == Ok::<Seq<u8>, PatchError>(t),
            Err((_, e)) => modified_ffmpeg_c(s) == Err::<Seq<u8>, PatchError>(e),
        },
{
    let ops = ffmpeg_c_edits();
    let none = Seq::<PatchOp>::empty();
    lemma_apply_all_push(none, ops[0], s);
    lemma_apply_all_push(none.push(ops[0]), ops[1], s);
    lemma_apply_all_push(none.push(ops[0]).push(ops[1]), ops[2], s);
    lemma_apply_all_push(none.push(ops[0]).push(ops[1]).push(ops[2]), ops[3], s);
    lemma_apply_all_push(none.push(ops[0]).push(ops[1]).push(ops[2]).push(ops[3]), ops[4], s);
    assert(none.push(ops[0]).push(ops[1]).push(ops[2]).push(ops[3]).push(ops[4]) =~= ops);
}

/// The directories the preparation reads and writes, all fixed by the base
/// directory.
pub struct AddonPreparer {
    base_dir: String,
    ffmpeg_source_dir: String,
    addon_src_dir: String,
    vcpkg_root: String,
}

impl AddonPreparer {
    /// Each directory is the one of its name below the base.
    #[verifier::type_invariant]
    pub closed spec fn wf(self) -> bool {
        &&& self.ffmpeg_source_dir@ == join_path(self.base_dir@, TREE_DIR@)
        &&& self.addon_src_dir@ == join_path(self.base_dir@, ADDON_DIR@)
        &&& self.vcpkg_root@ == join_path(self.base_dir@, TOOL_DIR@)
    }

    /// The base directory.
    pub closed spec fn base(self) -> Seq<char> {
        self.base_dir@
    }

    /// The directory of the unpacked sources.
    pub open spec fn source_dir(self) -> Seq<char> {
        join_path(self.base(), TREE_DIR@)
    }

    /// The directory of the prepared sources.
    pub open spec fn addon_dir(self) -> Seq<char> {
        join_path(self.base(), ADDON_DIR@)
    }

    /// The directories below `base_dir`.
    pub fn new(base_dir: &str) -> (r: AddonPreparer)
        ensures
            r.base() == base_dir@,
    {
        AddonPreparer {
            base_dir: base_dir.to_owned(),
            ffmpeg_source_dir: join(base_dir, TREE_DIR),
            addon_src_dir: join(base_dir, ADDON_DIR),
            vcpkg_root: join(base_dir, TOOL_DIR),
        }
    }

    /// The directory of the prepared sources.
    pub fn get_addon_src_dir(&self) -> (r: &str)
        ensures
            r@ == self.addon_dir(),
    {
        proof {
            use_type_invariant(self);
        }
        self.addon_src_dir.as_str()
    }

    /// The directory of the unpacked sources.
    pub fn get_ffmpeg_source_dir(&self) -> (r: &str)
        ensures
            r@ == self.source_dir(),
    {
        proof {
            use_type_invariant(self);
        }
        self.ffmpeg_source_dir.as_str()
    }

    /// The directory of the package manager.
    pub fn get_vcpkg_root(&self) -> (r: &str)
        ensures
            r@ == join_path(self.base(), TOOL_DIR@),
    {
        proof {
            use_type_invariant(self);
        }
        self.vcpkg_root.as_str()
    }

    /// The path of the header of feature flags.
    pub fn config_h_path(&self) -> (r: String)
        ensures
            r@ == join_path(self.source_dir(), "config.h"@),
    {
        join(self.get_ffmpeg_source_dir(), "config.h")
    }

    /// The path of the options source that is edited in place.
    pub fn opt_common_c_path(&self) -> (r: String)
        ensures
            r@ == join_path(join_path(self.source_dir(), TOOLS_DIR@), "opt_common.c"@),
    {
        let tools = join(self.get_ffmpeg_source_dir(), TOOLS_DIR);
        join(tools.as_str(), "opt_common.c")
    }

    /// The path of the program's main source as it was unpacked.
    pub fn ffmpeg_c_source_path(&self) -> (r: String)
        ensures
            r@ == join_path(join_path(self.source_dir(), TOOLS_DIR@), "ffmpeg.c"@),
    {
        let tools = join(self.get_ffmpeg_source_dir(), TOOLS_DIR);
        join(tools.as_str(), "ffmpeg.c")
    }

    /// The path to which the edited main source is written.
    pub fn ffmpeg_c_target_path(&self) -> (r: String)
        ensures
            r@ == join_path(self.addon_dir(), "ffmpeg.c"@),
    {
        join(self.get_addon_src_dir(), "ffmpeg.c")
    }

    /// The path of the binding shim.
    pub fn binding_c_path(&self) -> (r: String)
        ensures
            r@ == join_path(self.addon_dir(), "binding.c"@),
    {
        join(self.get_addon_src_dir(), "binding.c")
    }

    /// What to write as the header of feature flags: the header, where none
    /// exists; nothing where one does, for it may have been edited by hand.
    pub fn create_config_h(&self, exists: bool) -> (r: Option<Vec<u8>>)
        ensures
            r is Some <==> !exists,
            r matches Some(v) ==> v@ == CONFIG_H.spec_bytes(),
    {
        if exists {
            None
        } else {
            Some(owned(CONFIG_H.as_bytes()))
        }
    }

    /// What to write as the binding shim. It is written on every run: the
    /// file is this tool's own.
    pub fn create_binding_c(&self) -> (r: Vec<u8>)
        ensures
            r@ == BINDING_C.spec_bytes(),
    {
        owned(BINDING_C.as_bytes())
    }

    /// Puts the line of the options source that reports the post-processing
    /// library under its condition. Returns the new text, or `None` where
    /// the file is to be left as it is: the condition is there already, or
    /// the line is not in the text.
    pub fn modify_opt_common_c(&self, content: &[u8]) -> (r: Option<Vec<u8>>)
        ensures
            match r {
                Some(v) => guard_postproc_spec(content@) == Some(v@),
                None => guard_postproc_spec(content@) is None,
            },
            postproc_is_guarded(content@) ==> r is None,
            !contains(content@, postproc_line()) ==> r is None,
    {
        let mut line: Vec<u8> = Vec::new();
        line.extend_from_slice(POSTPROC_INDENT.as_bytes());
        line.extend_from_slice(POSTPROC_CALL.as_bytes());
        line.extend_from_slice(POSTPROC_ARGUMENTS.as_bytes());
        assert(line@ =~= postproc_line());
        proof {
            lemma_contains_iff_first_occurrence(content@, postproc_line());
        }
        if contains_bytes(content, POSTPROC_CONDITION.as_bytes()) && contains_bytes(
            content,
            POSTPROC_CALL.as_bytes(),
        ) {
            return None;
        }
        match find(content, line.as_slice(), 0) {
            None => None,
            Some(p) => {
                let mut guarded: Vec<u8> = Vec::new();
                guarded.extend_from_slice(POSTPROC_CONDITION.as_bytes());
                guarded.extend_from_slice(LINE_BREAK.as_bytes());
                guarded.extend_from_slice(line.as_slice());
                guarded.extend_from_slice(POSTPROC_END.as_bytes());
                assert(guarded@ =~= guarded_postproc_line());
                assert(occurs_at(content@, line@, p as int));
                assert(p + line@.len() <= content.len());
                Some(splice(content, p, p + line.len(), guarded.as_slice()))
            },
        }
    }

    /// The edits of the program's main source, in the order in which they
    /// are made. The order matters: the landmark of the include is looked
    /// for in what the removal of the entry point has left.
    pub fn ffmpeg_c_operations(&self) -> (r: Vec<PatchOperation>)
        ensures
            views_of_operations(r@) == ffmpeg_c_edits(),
    {
        let mut transcode: Vec<u8> = Vec::new();
        transcode.extend_from_slice(STATIC_QUALIFIER.as_bytes());
        transcode.extend_from_slice(TRANSCODE_SIGNATURE.as_bytes());
        let mut cleanup: Vec<u8> = Vec::new();
        cleanup.extend_from_slice(STATIC_QUALIFIER.as_bytes());
        cleanup.extend_from_slice(CLEANUP_SIGNATURE.as_bytes());
        let mut directive: Vec<u8> = Vec::new();
        directive.extend_from_slice(LINE_BREAK.as_bytes());
        directive.extend_from_slice(NAPI_INCLUDE.as_bytes());
        directive.extend_from_slice(LINE_BREAK.as_bytes());
        let mut run: Vec<u8> = Vec::new();
        run.extend_from_slice(RUN_FUNCTION_HEAD.as_bytes());
        run.extend_from_slice(RUN_FUNCTION_TYPE.as_bytes());
        run.extend_from_slice(ENTRY_POINT.as_bytes());
        run.extend_from_slice(RUN_FUNCTION_REST.as_bytes());
        proof {
            assert(transcode@ =~= STATIC_QUALIFIER.spec_bytes() + TRANSCODE_SIGNATURE.spec_bytes());
            assert(cleanup@ =~= STATIC_QUALIFIER.spec_bytes() + CLEANUP_SIGNATURE.spec_bytes());
            assert(directive@ =~= napi_include_line());
            assert(run@ =~= run_function());
        }
        let mut out: Vec<PatchOperation> = Vec::new();
        out.push(
            PatchOperation::Replace { from: transcode, to: owned(TRANSCODE_SIGNATURE.as_bytes()) },
        );
        out.push(
            PatchOperation::Replace { from: cleanup, to: owned(CLEANUP_SIGNATURE.as_bytes()) },
        );
        out.push(
            PatchOperation::RemoveFunction {
                signature: owned(MAIN_SIGNATURE.as_bytes()),
                notice: notice_bytes(),
            },
        );
        out.push(
            PatchOperation::InsertAfterMarker {
                marker: owned(INCLUDE_MARKER.as_bytes()),
                guard: owned(NAPI_INCLUDE.as_bytes()),
                text: directive,
            },
        );
        out.push(
            PatchOperation::AppendOnce { guard: guard_bytes(), text: run },
        );
        assert(views_of_operations(out@) =~= ffmpeg_c_edits());
        out
    }

    /// Applies all edits to the program's main source, in their fixed
    /// order: the two helper functions are made visible, the entry point is
    /// removed, the host runtime's header is included, and the callable
    /// entry point is added at the end. The first edit that fails ends the
    /// work with its error.
    pub fn modify_ffmpeg_c_content(&self, content: &[u8]) -> (r: Result<Vec<u8>, PatchError>)
        ensures
            match r {
                Ok(v) => modified_ffmpeg_c(content@) == Ok::<Seq<u8>, PatchError>(v@),
                Err(e) => modified_ffmpeg_c(content@) == Err::<Seq<u8>, PatchError>(e),
            },
    {
        proof {
            lemma_ffmpeg_c_edits(content@);
        }
        let operations = self.ffmpeg_c_operations();
        match apply_all(&operations, content) {
            Ok(done) => Ok(done.text),
            Err(failure) => Err(failure.error),
        }
    }

    /// Includes the host runtime's header on a line of its own, directly
    /// behind the landmark include. A text that already includes it is
    /// returned unchanged; a text without the landmark is an error.
    pub fn add_napi_include(&self, content: &[u8]) -> (r: Result<Vec<u8>, PatchError>)
        ensures
            match r {
                Ok(v) => with_napi_include(content@) == Ok::<Seq<u8>, PatchError>(v@),
                Err(e) => with_napi_include(content@) == Err::<Seq<u8>, PatchError>(e),
            },
            contains(content@, NAPI_INCLUDE.spec_bytes()) ==> r is Ok && r->Ok_0@ == content@,
            r is Err <==> !contains(content@, NAPI_INCLUDE.spec_bytes()) && !contains(
                content@,
                INCLUDE_MARKER.spec_bytes(),
            ),
            r is Err ==> r->Err_0 == PatchError::MarkerNotFound,
    {
        let mut line: Vec<u8> = Vec::new();
        line.extend_from_slice(LINE_BREAK.as_bytes());
        line.extend_from_slice(NAPI_INCLUDE.as_bytes());
        line.extend_from_slice(LINE_BREAK.as_bytes());
        assert(line@ =~= napi_include_line());
        insert_after_marker(
            content,
            INCLUDE_MARKER.as_bytes(),
            NAPI_INCLUDE.as_bytes(),
            line.as_slice(),
        )
    }

    /// Removes the program's entry point, body included, and leaves a
    /// notice in its place that names the callable entry point. A text that
    /// already holds the notice is returned unchanged. A text without the
    /// entry point's header is an error, and so is one in which the body is
    /// never closed.
    pub fn remove_main_function(&self, content: &[u8]) -> (r: Result<Vec<u8>, PatchError>)
        ensures
            match r {
                Ok(v) => without_main(content@) == Ok::<Seq<u8>, PatchError>(v@),
                Err(e) => without_main(content@) == Err::<Seq<u8>, PatchError>(e),
            },
            contains(content@, main_removed_notice()) ==> r is Ok && r->Ok_0@
                == content@,
            !contains(content@, main_removed_notice()) && !contains(
                content@,
                MAIN_SIGNATURE.spec_bytes(),
            ) ==> r == Err::<Vec<u8>, PatchError>(PatchError::AnchorNotFound),
            r is Err ==> r->Err_0 != PatchError::MarkerNotFound,
    {
        let notice = notice_bytes();
        remove_function(content, MAIN_SIGNATURE.as_bytes(), notice.as_slice())
    }

    /// Adds the callable entry point at the end of the text. A text that
    /// already holds the start of its header is returned unchanged.
    pub fn add_ffmpeg_run_function(&self, content: &[u8]) -> (r: Vec<u8>)
        ensures
            r@ == with_run_function(content@),
            contains(content@, run_function_guard()) ==> r@ == content@,
            !contains(content@, run_function_guard()) ==> r@ == content@
                + run_function(),
    {
        let guard = guard_bytes();
        let mut text: Vec<u8> = Vec::new();
        text.extend_from_slice(RUN_FUNCTION_HEAD.as_bytes());
        text.extend_from_slice(guard.as_slice());
        text.extend_from_slice(RUN_FUNCTION_REST.as_bytes());
        assert(text@ =~= run_function());
        append_once(content, guard.as_slice(), text.as_slice())
    }

    /// Tells whether `patched` has to be written to a file that holds
    /// `existing`, or does not exist where `existing` is `None`: it has
    /// unless the file holds the same bytes already.
    pub fn needs_write(&self, existing: Option<&[u8]>, patched: &[u8]) -> (r: bool)
        ensures
            r == match existing {
                Some(old) => old@ != patched@,
                None => true,
            },
    {
        match existing {
            Some(old) => !same_bytes(old, patched),
            None => true,
        }
    }
}

/// The notice that stands in the place of the removed entry point.
fn notice_bytes() -> (r: Vec<u8>)
    ensures
        r@ == main_removed_notice(),
{
    let mut out: Vec<u8> = Vec::new();
    out.extend_from_slice(MAIN_REMOVED_HEAD.as_bytes());
    out.extend_from_slice(ENTRY_POINT.as_bytes());
    out.extend_from_slice(MAIN_REMOVED_TAIL.as_bytes());
    assert(out@ =~= main_removed_notice());
    out
}

/// The start of the callable entry point's header.
fn guard_bytes() -> (r: Vec<u8>)
    ensures
        r@ == run_function_guard(),
{
    let mut out: Vec<u8> = Vec::new();
    out.extend_from_slice(RUN_FUNCTION_TYPE.as_bytes());
    out.extend_from_slice(ENTRY_POINT.as_bytes());
    assert(out@ =~= run_function_guard());
    out
}

/// Both the notice left for the removed entry point and the function added
/// at the end name the callable entry point.
pub proof fn law_texts_name_the_entry_point()
    ensures
        contains(main_removed_notice(), ENTRY_POINT.spec_bytes()),
        contains(run_function_guard(), ENTRY_POINT.spec_bytes()),
        contains(run_function(), run_function_guard()),
        contains(run_function(), ENTRY_POINT.spec_bytes()),
{
    let name = ENTRY_POINT.spec_bytes();
    lemma_contains_itself(name);
    lemma_contains_in_middle(
        MAIN_REMOVED_HEAD.spec_bytes(),
        name,
        MAIN_REMOVED_TAIL.spec_bytes(),
        name,
    );
    lemma_contains_in_middle(RUN_FUNCTION_TYPE.spec_bytes(), name, Seq::<u8>::empty(), name);
    assert(RUN_FUNCTION_TYPE.spec_bytes() + name + Seq::<u8>::empty() =~= run_function_guard());
    lemma_contains_itself(run_function_guard());
    lemma_contains_in_middle(
        RUN_FUNCTION_HEAD.spec_bytes(),
        run_function_guard(),
        RUN_FUNCTION_REST.spec_bytes(),
        run_function_guard(),
    );
    lemma_contains_in_middle(
        RUN_FUNCTION_HEAD.spec_bytes(),
        run_function_guard(),
        RUN_FUNCTION_REST.spec_bytes(),
        name,
    );
}

/// An owned copy of `bytes`.
fn owned(bytes: &[u8]) -> (r: Vec<u8>)
    ensures
        r@ == bytes@,
{
    let r = copy_range(bytes, 0, bytes.len());
    assert(bytes@.subrange(0, bytes@.len() as int) =~= bytes@);
    r
}

/// The sources that are prepared are the sources that were extracted: with
/// one base directory, the preparer reads the tree from where the install
/// target has it put, and looks for the tool where the target has its root.
pub proof fn law_preparer_reads_the_extracted_tree(preparer: AddonPreparer, target: VcpkgManager)
    requires
        preparer.base() == target.base(),
    ensures
        preparer.source_dir() == target.tree(),
        join_path(preparer.base(), TOOL_DIR@) == target.root(),
{
}

/// Removing the entry point a second time changes nothing.
pub proof fn law_remove_main_idempotent(s: Seq<u8>)
    ensures
        match without_main(s) {
            Ok(t) => without_main(t) == Ok::<Seq<u8>, PatchError>(t),
            Err(_) => true,
        },
{
    law_remove_function_idempotent(
        s,
        MAIN_SIGNATURE.spec_bytes(),
        main_removed_notice(),
    );
}

/// Including the host runtime's header a second time changes nothing.
pub proof fn law_napi_include_idempotent(s: Seq<u8>)
    ensures
        match with_napi_include(s) {
            Ok(t) => with_napi_include(t) == Ok::<Seq<u8>, PatchError>(t),
            Err(_) => true,
        },
{
    lemma_contains_itself(NAPI_INCLUDE.spec_bytes());
    lemma_contains_in_middle(
        LINE_BREAK.spec_bytes(),
        NAPI_INCLUDE.spec_bytes(),
        LINE_BREAK.spec_bytes(),
        NAPI_INCLUDE.spec_bytes(),
    );
    law_insert_after_marker_idempotent(
        s,
        INCLUDE_MARKER.spec_bytes(),
        NAPI_INCLUDE.spec_bytes(),
        napi_include_line(),
    );
}

/// Adding the callable entry point a second time changes nothing.
pub proof fn law_run_function_idempotent(s: Seq<u8>)
    ensures
        with_run_function(with_run_function(s)) == with_run_function(s),
{
    law_texts_name_the_entry_point();
    law_append_once_idempotent(s, run_function_guard(), run_function());
}

/// Once the line that reports the post-processing library stands under its
/// condition, nothing more is done to the text.
pub proof fn law_guard_postproc_idempotent(s: Seq<u8>)
    ensures
        match guard_postproc_spec(s) {
            Some(t) => guard_postproc_spec(t) is None,
            None => true,
        },
{
    if let Some(t) = guard_postproc_spec(s) {
        let p = first_occurrence(s, postproc_line(), 0)->0;
        let before = s.subrange(0, p);
        let after = s.subrange(p + postproc_line().len(), s.len() as int);
        let condition = POSTPROC_CONDITION.spec_bytes();
        let call = POSTPROC_CALL.spec_bytes();
        lemma_contains_itself(condition);
        lemma_contains_itself(call);
        // The guarded line holds the condition at its start ...
        lemma_contains_in_middle(
            Seq::<u8>::empty(),
            condition,
            LINE_BREAK.spec_bytes() + postproc_line() + POSTPROC_END.spec_bytes(),
            condition,
        );
        assert(Seq::<u8>::empty() + condition + (LINE_BREAK.spec_bytes() + postproc_line()
            + POSTPROC_END.spec_bytes()) =~= guarded_postproc_line());
        // ... and the call inside the line.
        lemma_contains_in_middle(
            condition + LINE_BREAK.spec_bytes() + POSTPROC_INDENT.spec_bytes(),
            call,
            POSTPROC_ARGUMENTS.spec_bytes() + POSTPROC_END.spec_bytes(),
            call,
        );
        assert(condition + LINE_BREAK.spec_bytes() + POSTPROC_INDENT.spec_bytes() + call + (
        POSTPROC_ARGUMENTS.spec_bytes() + POSTPROC_END.spec_bytes()) =~= guarded_postproc_line());
        lemma_contains_in_middle(before, guarded_postproc_line(), after, condition);
        lemma_contains_in_middle(before, guarded_postproc_line(), after, call);
    }
}

} // verus!
