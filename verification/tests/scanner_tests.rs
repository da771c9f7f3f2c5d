use ffmpeg_addon::scanner::find_matching_close;

#[test]
fn closes_an_empty_block() {
    assert_eq!(find_matching_close(b"{}", 0), Some(2));
}

#[test]
fn closes_the_outer_block_of_nested_ones() {
    let text = b"{ a { b { c } } d }";
    assert_eq!(find_matching_close(text, 0), Some(text.len()));
}

#[test]
fn closes_an_inner_block_from_its_own_offset() {
    let text = b"{ a { b { c } } d }";
    assert_eq!(find_matching_close(text, 4), Some(15));
    assert_eq!(find_matching_close(text, 8), Some(13));
}

#[test]
fn stops_at_the_first_return_to_depth_zero() {
    assert_eq!(find_matching_close(b"{}{}", 0), Some(2));
    assert_eq!(find_matching_close(b"{}{}", 2), Some(4));
}

#[test]
fn passes_over_a_closing_delimiter_inside_a_literal() {
    let text = b"{ printf(\"}\"); }";
    assert_eq!(find_matching_close(text, 0), Some(text.len()));
}

#[test]
fn passes_over_an_opening_delimiter_inside_a_literal() {
    let text = b"{ s = \"{{{\"; }";
    assert_eq!(find_matching_close(text, 0), Some(text.len()));
}

#[test]
fn passes_over_an_escaped_quote_inside_a_literal() {
    // The literal is  "a\"}"  : the quote behind the backslash does not end it.
    let text = b"{ s = \"a\\\"}\"; }";
    assert_eq!(find_matching_close(text, 0), Some(text.len()));
}

#[test]
fn an_escaped_backslash_does_not_escape_the_quote_behind_it() {
    // The literal is  "\\"  and ends at its second quote.
    let text = b"{ s = \"\\\\\"; } }";
    assert_eq!(find_matching_close(text, 0), Some(text.len() - 2));
}

#[test]
fn a_backslash_outside_a_literal_escapes_nothing() {
    // Outside a literal the backslash is a plain byte, so the quote behind
    // it opens a literal that hides the first closing delimiter.
    let text = b"{ \\\" } \" }";
    assert_eq!(find_matching_close(text, 0), Some(text.len()));
}

#[test]
fn reports_no_match_for_a_block_that_is_never_closed() {
    assert_eq!(find_matching_close(b"{ a { b } ", 0), None);
    assert_eq!(find_matching_close(b"{", 0), None);
}

#[test]
fn reports_no_match_where_the_only_close_is_inside_a_literal() {
    assert_eq!(find_matching_close(b"{ \"}\" ", 0), None);
}

#[test]
fn reports_no_match_for_a_literal_that_is_never_closed() {
    assert_eq!(find_matching_close(b"{ \" }", 0), None);
}

#[test]
fn reports_no_match_where_no_block_opens_at_the_offset() {
    assert_eq!(find_matching_close(b"a{}", 0), None);
    assert_eq!(find_matching_close(b"}{", 0), None);
}

#[test]
fn reports_no_match_for_an_offset_outside_the_text() {
    assert_eq!(find_matching_close(b"{}", 2), None);
    assert_eq!(find_matching_close(b"{}", 100), None);
    assert_eq!(find_matching_close(b"", 0), None);
}

#[test]
fn gives_the_same_offset_whatever_the_literals_hold() {
    let balanced = b"{ f(\"....\"); g(\"....\"); }";
    let unbalanced = b"{ f(\"}}}{\"); g(\"{ } \"); }";
    assert_eq!(balanced.len(), unbalanced.len());
    assert_eq!(find_matching_close(balanced, 0), Some(balanced.len()));
    assert_eq!(find_matching_close(unbalanced, 0), find_matching_close(balanced, 0));
}

#[test]
fn counts_plain_nesting_in_text_without_quotes() {
    let text = b"{{}{{}}}tail}";
    assert_eq!(find_matching_close(text, 0), Some(8));
}

#[test]
fn reads_a_brace_in_a_character_literal_as_a_delimiter() {
    // A known limit: the scanner does not know character literals.
    assert_eq!(find_matching_close(b"{ c = '}'; }", 0), Some(8));
}
