use ffmpeg_addon::patcher::{
    append_once, apply_all, insert_after_marker, remove_function, replace_exact, strip_qualifier,
    PatchError, PatchFailure, PatchOperation, Patched,
};

fn sample_operations() -> Vec<PatchOperation> {
    vec![
        PatchOperation::Replace { from: b"static int f(void)".to_vec(), to: b"int f(void)".to_vec() },
        PatchOperation::RemoveFunction {
            signature: b"int main(int argc, char **argv)".to_vec(),
            notice: b"/* main removed */\n".to_vec(),
        },
        PatchOperation::InsertAfterMarker {
            marker: b"#include \"a.h\"".to_vec(),
            guard: b"<new.h>".to_vec(),
            text: b"\n#include <new.h>".to_vec(),
        },
        PatchOperation::AppendOnce { guard: b"int run".to_vec(), text: b"int run(void);\n".to_vec() },
    ]
}

const SIGNATURE: &[u8] = b"int main(int argc, char **argv)";
const NOTICE: &[u8] = b"/* main removed */\n";

#[test]
fn visibility_change_rewrites_the_one_signature_in_a_large_buffer() {
    let qualified: &[u8] = b"static int transcode(Scheduler *sch)";
    let bare: &[u8] = b"int transcode(Scheduler *sch)";
    let mut buffer: Vec<u8> = Vec::new();
    while buffer.len() < 20_000 {
        buffer.extend_from_slice(b"x = y + 1;\n");
    }
    let head = buffer.clone();
    buffer.extend_from_slice(qualified);
    let mut tail: Vec<u8> = Vec::new();
    while head.len() + qualified.len() + tail.len() < 50_000 {
        tail.push(b'z');
    }
    buffer.extend_from_slice(&tail);
    assert_eq!(buffer.len(), 50_000);

    let out = strip_qualifier(&buffer, b"static ", bare);

    let mut expected = head.clone();
    expected.extend_from_slice(bare);
    expected.extend_from_slice(&tail);
    assert_eq!(out, expected);
    assert_eq!(out.len(), 50_000 - b"static ".len());
    assert_eq!(replace_exact(&buffer, qualified, bare), expected);
}

#[test]
fn visibility_change_is_a_no_op_without_the_signature() {
    let text = b"int transcode(Scheduler *sch)\n{\n}\n";
    assert_eq!(strip_qualifier(text, b"static ", b"int transcode(Scheduler *sch)"), text.to_vec());
    assert_eq!(replace_exact(text, b"static void other(void)", b"void other(void)"), text.to_vec());
}

#[test]
fn visibility_change_twice_is_visibility_change_once() {
    let text = b"a\nstatic int transcode(Scheduler *sch)\n{ }\nstatic int transcode(Scheduler *sch);\n";
    let once = strip_qualifier(text, b"static ", b"int transcode(Scheduler *sch)");
    let twice = strip_qualifier(&once, b"static ", b"int transcode(Scheduler *sch)");
    assert_eq!(once, b"a\nint transcode(Scheduler *sch)\n{ }\nint transcode(Scheduler *sch);\n".to_vec());
    assert_eq!(twice, once);
}

#[test]
fn visibility_change_can_leave_a_new_qualified_signature_behind() {
    // The one input kind on which a second run still changes the text.
    let text = b"static static int f()";
    let once = strip_qualifier(text, b"static ", b"int f()");
    assert_eq!(once, b"static int f()".to_vec());
    let twice = strip_qualifier(&once, b"static ", b"int f()");
    assert_eq!(twice, b"int f()".to_vec());
}

#[test]
fn removal_replaces_the_function_by_the_notice() {
    let text = b"int helper(void)\n{\n    return 1;\n}\n\nint main(int argc, char **argv)\n{\n    if (argc) { return helper(); }\n    return 0;\n}\n\nint after(void);\n";
    let out = remove_function(text, SIGNATURE, NOTICE);
    assert_eq!(
        out,
        Ok(b"int helper(void)\n{\n    return 1;\n}/* main removed */\nint after(void);\n".to_vec())
    );
}

#[test]
fn removal_passes_over_delimiters_in_literals() {
    let text = b"int main(int argc, char **argv)\n{\n    puts(\"}\\\"}{\");\n}\nrest";
    assert_eq!(remove_function(text, SIGNATURE, NOTICE), Ok(b"/* main removed */\nrest".to_vec()));
}

#[test]
fn removal_takes_the_first_block_behind_the_signature() {
    let text = b"a int main(int argc, char **argv) /* { */ { } b";
    // The brace in the comment is read as the opening delimiter.
    assert_eq!(
        remove_function(text, SIGNATURE, NOTICE),
        Err(PatchError::UnbalancedStructure)
    );
    let text = b"a int main(int argc, char **argv) { x } b { y }";
    assert_eq!(remove_function(text, SIGNATURE, NOTICE), Ok(b"a/* main removed */\nb { y }".to_vec()));
}

#[test]
fn removal_fails_without_the_signature() {
    let text = b"int helper(void) { return 1; }\n";
    assert_eq!(remove_function(text, SIGNATURE, NOTICE), Err(PatchError::AnchorNotFound));
    assert_eq!(remove_function(b"", SIGNATURE, NOTICE), Err(PatchError::AnchorNotFound));
}

#[test]
fn removal_fails_where_the_body_is_never_closed() {
    let text = b"int main(int argc, char **argv)\n{\n    if (argc) {\n    return 0;\n}\n";
    assert_eq!(remove_function(text, SIGNATURE, NOTICE), Err(PatchError::UnbalancedStructure));
}

#[test]
fn removal_fails_where_no_block_follows_the_signature() {
    let text = b"{ } int main(int argc, char **argv);\n";
    assert_eq!(remove_function(text, SIGNATURE, NOTICE), Err(PatchError::UnbalancedStructure));
}

#[test]
fn removal_twice_is_removal_once() {
    let text = b"x\nint main(int argc, char **argv)\n{\n    return 0;\n}\ny\n";
    let once = remove_function(text, SIGNATURE, NOTICE).unwrap();
    assert_eq!(once, b"x/* main removed */\ny\n".to_vec());
    assert_eq!(remove_function(&once, SIGNATURE, NOTICE), Ok(once.clone()));
}

#[test]
fn removal_skips_a_text_that_holds_the_notice() {
    let text = b"/* main removed */\nint main(int argc, char **argv) { }";
    assert_eq!(remove_function(text, SIGNATURE, NOTICE), Ok(text.to_vec()));
}

#[test]
fn insertion_goes_directly_behind_the_first_marker() {
    let text = b"#include \"a.h\"\n#include \"b.h\"\n#include \"a.h\"\n";
    let out = insert_after_marker(text, b"#include \"a.h\"", b"<new.h>", b"\n#include <new.h>");
    assert_eq!(
        out,
        Ok(b"#include \"a.h\"\n#include <new.h>\n#include \"b.h\"\n#include \"a.h\"\n".to_vec())
    );
}

#[test]
fn insertion_fails_without_the_marker() {
    let text = b"#include \"b.h\"\n";
    assert_eq!(
        insert_after_marker(text, b"#include \"a.h\"", b"<new.h>", b"\n#include <new.h>"),
        Err(PatchError::MarkerNotFound)
    );
}

#[test]
fn insertion_skips_a_text_that_holds_the_guard() {
    let text = b"#include <new.h>\n";
    assert_eq!(
        insert_after_marker(text, b"#include \"a.h\"", b"<new.h>", b"\n#include <new.h>"),
        Ok(text.to_vec())
    );
    let text = b"#include \"a.h\"\n#include <new.h>\n";
    assert_eq!(
        insert_after_marker(text, b"#include \"a.h\"", b"<new.h>", b"\n#include <new.h>"),
        Ok(text.to_vec())
    );
}

#[test]
fn insertion_twice_is_insertion_once() {
    let text = b"#include \"a.h\"\nint x;\n";
    let once =
        insert_after_marker(text, b"#include \"a.h\"", b"<new.h>", b"\n#include <new.h>").unwrap();
    let twice = insert_after_marker(&once, b"#include \"a.h\"", b"<new.h>", b"\n#include <new.h>");
    assert_eq!(twice, Ok(once));
}

#[test]
fn append_once_adds_the_text_one_time() {
    let once = append_once(b"int x;\n", b"int run", b"\nint run(void) { }\n");
    assert_eq!(once, b"int x;\n\nint run(void) { }\n".to_vec());
    assert_eq!(append_once(&once, b"int run", b"\nint run(void) { }\n"), once);
}

#[test]
fn errors_have_their_names() {
    assert_eq!(PatchError::AnchorNotFound.message(), "anchor not found");
    assert_eq!(PatchError::UnbalancedStructure.message(), "unbalanced structure");
    assert_eq!(PatchError::MarkerNotFound.message(), "marker not found");
}

#[test]
fn a_list_of_edits_is_applied_in_its_order() {
    let text = b"#include \"a.h\"\nstatic int f(void) { }\nint main(int argc, char **argv) { f(); }\n";
    let done = apply_all(&sample_operations(), text).unwrap();
    assert_eq!(
        done,
        Patched {
            text: b"#include \"a.h\"\n#include <new.h>\nint f(void) { }/* main removed */\nint run(void);\n"
                .to_vec(),
            changed: true
        }
    );
}

#[test]
fn a_list_of_edits_applied_again_reports_no_change() {
    let text = b"#include \"a.h\"\nstatic int f(void) { }\nint main(int argc, char **argv) { f(); }\n";
    let once = apply_all(&sample_operations(), text).unwrap();
    let twice = apply_all(&sample_operations(), &once.text).unwrap();
    assert_eq!(twice.text, once.text);
    assert!(!twice.changed);
}

#[test]
fn the_first_edit_that_fails_is_named() {
    let text = b"static int f(void) { }\nint main(int argc, char **argv) { f(); }\n";
    assert_eq!(
        apply_all(&sample_operations(), text),
        Err(PatchFailure { operation: 2, error: PatchError::MarkerNotFound })
    );
    let text = b"#include \"a.h\"\nint main(int argc, char **argv) { f();\n";
    assert_eq!(
        apply_all(&sample_operations(), text),
        Err(PatchFailure { operation: 1, error: PatchError::UnbalancedStructure })
    );
    assert_eq!(
        apply_all(&sample_operations(), b""),
        Err(PatchFailure { operation: 1, error: PatchError::AnchorNotFound })
    );
}

#[test]
fn no_edits_change_nothing() {
    assert_eq!(
        apply_all(&Vec::new(), b"abc"),
        Ok(Patched { text: b"abc".to_vec(), changed: false })
    );
}

#[test]
fn each_kind_of_edit_is_applied_by_its_function() {
    let ops = sample_operations();
    assert_eq!(ops[0].apply(b"static int f(void);"), Ok(b"int f(void);".to_vec()));
    assert_eq!(ops[0].apply(b"int g(void);"), Ok(b"int g(void);".to_vec()));
    assert_eq!(ops[1].apply(b"int g(void);"), Err(PatchError::AnchorNotFound));
    assert_eq!(ops[2].apply(b"int g(void);"), Err(PatchError::MarkerNotFound));
    assert_eq!(ops[3].apply(b"x\n"), Ok(b"x\nint run(void);\n".to_vec()));
}

#[test]
fn removal_drops_white_space_of_more_than_one_byte() {
    let text = "x\u{a0}\nint main(int argc, char **argv) { }\u{3000}\ny";
    assert_eq!(
        remove_function(text.as_bytes(), SIGNATURE, NOTICE),
        Ok(b"x/* main removed */\ny".to_vec())
    );
}
