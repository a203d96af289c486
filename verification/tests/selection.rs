//! Line references, gutters, selections and ranges.

use herdr_file_viewer::annotation::LineRange;
use herdr_file_viewer::selection::{
    char_index_at_col, filter_control_keep_tabs, format_line_reference, merge_line_ranges,
    sanitize_control, strip_line_gutter, LineSelectState,
};

fn range(start: usize, end: usize) -> LineRange {
    LineRange::new(start, end).unwrap()
}

#[test]
fn annotation_indicator_ranges_sort_and_merge_overlap_and_adjacency() {
    assert_eq!(
        merge_line_ranges(vec![range(8, 10), range(2, 4), range(4, 7), range(20, 20)]),
        vec![range(2, 10), range(20, 20)]
    );
}

#[test]
fn annotation_indicator_range_merge_saturates_at_usize_max() {
    assert_eq!(
        merge_line_ranges(vec![
            range(usize::MAX, usize::MAX),
            range(usize::MAX - 1, usize::MAX - 1),
        ]),
        vec![range(usize::MAX - 1, usize::MAX)]
    );
}

#[test]
fn single_line_has_no_range_suffix() {
    assert_eq!(
        format_line_reference("src/editor.rs", 50, 50),
        "src/editor.rs:50"
    );
}

#[test]
fn range_normalizes_ascending() {
    assert_eq!(
        format_line_reference("src/editor.rs", 50, 58),
        "src/editor.rs:50-58"
    );
    assert_eq!(
        format_line_reference("src/editor.rs", 58, 50),
        "src/editor.rs:50-58"
    );
}

#[test]
fn strip_gutter_removes_number_and_space_keeps_code() {
    assert_eq!(
        strip_line_gutter("   1 # Architecture", 1),
        "# Architecture"
    );
    assert_eq!(strip_line_gutter("  42 fn main() {", 42), "fn main() {");
}

#[test]
fn strip_gutter_preserves_code_indentation() {
    assert_eq!(strip_line_gutter("  2     let x = 5;", 2), "    let x = 5;");
}

#[test]
fn strip_gutter_handles_box_drawing_separator() {
    assert_eq!(strip_line_gutter("  1 \u{2502} code", 1), "code");
    assert_eq!(strip_line_gutter("  1 | code", 1), "code");
}

#[test]
fn strip_gutter_blank_line_becomes_empty() {
    assert_eq!(strip_line_gutter("   2 ", 2), "");
}

#[test]
fn strip_gutter_leaves_ungutter_content_untouched() {
    assert_eq!(strip_line_gutter("line4", 5), "line4");
    assert_eq!(strip_line_gutter("42 is the answer", 7), "42 is the answer");
    assert_eq!(strip_line_gutter("5000 loops", 5), "5000 loops");
}

#[test]
fn char_index_at_col_maps_column_to_char_and_clamps() {
    assert_eq!(char_index_at_col("hello", 0), 0);
    assert_eq!(char_index_at_col("hello", 3), 3);
    assert_eq!(char_index_at_col("hello", 99), 5);
    assert_eq!(char_index_at_col("", 4), 0);
}

#[test]
fn char_span_orders_by_line_then_column() {
    let mut s = LineSelectState::new(3);
    s.begin_char(3, 7, 10);
    s.drag_char(3, 2, 10);
    assert_eq!(s.char_span(), ((3, 2), (3, 7)));
    assert!(s.is_char_mode());

    let mut s = LineSelectState::new(5);
    s.begin_char(5, 1, 10);
    s.drag_char(2, 9, 10);
    assert_eq!(s.char_span(), ((2, 9), (5, 1)));
}

#[test]
fn keyboard_move_reverts_to_line_mode() {
    let mut s = LineSelectState::new(1);
    s.begin_char(1, 4, 10);
    assert!(s.is_char_mode(), "a mouse press is character-granular");
    s.move_to(3, 10);
    assert!(
        !s.is_char_mode(),
        "a keyboard move reverts to line granularity"
    );
}

#[test]
fn move_clamps_to_bounds() {
    let mut state = LineSelectState::new(5);
    state.move_to(0, 10);
    assert_eq!(state.selection(), (1, 1));

    let mut state = LineSelectState::new(5);
    state.move_to(999, 10);
    assert_eq!(state.selection(), (10, 10));
}

#[test]
fn move_keeps_single_line_selection() {
    let mut state = LineSelectState::new(5);
    state.move_to(8, 10);
    assert_eq!(state.selection(), (8, 8));
}

#[test]
fn extend_holds_anchor_and_orders() {
    let mut state = LineSelectState::new(5);
    state.extend_to(2, 10);
    assert_eq!(state.selection(), (2, 5));

    let mut state = LineSelectState::new(5);
    state.extend_to(9, 10);
    assert_eq!(state.selection(), (5, 9));
}

#[test]
fn sanitized_texts_have_no_control_characters() {
    assert_eq!(sanitize_control("a\u{1b}[31mb\tc\n\u{9b}"), "a[31mbc");
    assert_eq!(filter_control_keep_tabs("a\u{1b}b\tc\n"), "ab\tc");
    assert_eq!(sanitize_control("plain \u{e9}"), "plain \u{e9}");
}

#[test]
fn drags_select_the_same_characters_both_ways() {
    let mut down = LineSelectState::new(2);
    down.begin_char(2, 3, 9);
    down.drag_char(4, 1, 9);
    let mut up = LineSelectState::new(4);
    up.begin_char(4, 1, 9);
    up.drag_char(2, 3, 9);
    assert_eq!(down.char_span(), up.char_span());
    assert_eq!(down.selection(), up.selection());
}
