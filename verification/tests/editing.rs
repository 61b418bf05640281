use dioxus_code::advanced::{InputEditTracker, Point, SourceEdit};
use dioxus_code::edit::{
    byte_to_point, source_edit_from_diff, source_edit_from_selection,
    source_edit_from_target_range, utf16_offset_to_byte_offset,
};

fn edit(start_byte: usize, old_end_byte: usize, new_end_byte: usize) -> SourceEdit {
    SourceEdit { start_byte, old_end_byte, new_end_byte }
}

#[test]
fn render_takes_diff_from_rendered_baseline_to_latest_input() {
    let mut tracker = InputEditTracker::new("abc".to_string());

    tracker.input("abx".to_string());
    tracker.input("abxy".to_string());

    assert_eq!(tracker.take_for_render("abxy"), Some(edit(2, 3, 4)));
}

#[test]
fn external_value_change_drops_pending_edit() {
    let mut tracker = InputEditTracker::new("abc".to_string());

    tracker.input("abx".to_string());

    assert_eq!(tracker.take_for_render("xyz"), None);
}

#[test]
fn rendering_the_rendered_value_keeps_the_pending_edit() {
    let mut tracker = InputEditTracker::new("abc".to_string());
    tracker.input("abcd".to_string());
    assert_eq!(tracker.take_for_render("abc"), None);
    assert_eq!(tracker.take_for_render("abcd"), Some(edit(3, 3, 4)));
    assert_eq!(tracker.take_for_render("abcd"), None);
}

#[test]
fn captured_edit_is_kept_only_without_earlier_input() {
    let mut tracker = InputEditTracker::new("abc".to_string());
    tracker.input_with_capture("abXc".to_string(), Some(edit(2, 2, 3)));
    assert_eq!(tracker.take_for_render("abXc"), Some(edit(2, 2, 3)));

    let mut tracker = InputEditTracker::new("abc".to_string());
    tracker.input_with_capture("abXc".to_string(), Some(edit(2, 2, 3)));
    tracker.input_with_capture("abXYc".to_string(), Some(edit(3, 3, 4)));
    assert_eq!(tracker.take_for_render("abXYc"), None);
}

#[test]
fn utf16_offsets_convert_to_byte_offsets() {
    let value = "a💡é";

    assert_eq!(utf16_offset_to_byte_offset(value, 0), Some(0));
    assert_eq!(utf16_offset_to_byte_offset(value, 1), Some(1));
    assert_eq!(utf16_offset_to_byte_offset(value, 3), Some(5));
    assert_eq!(utf16_offset_to_byte_offset(value, 4), Some(7));
}

#[test]
fn utf16_offsets_reject_surrogate_boundaries() {
    assert_eq!(utf16_offset_to_byte_offset("a💡", 2), None);
}

#[test]
fn utf16_offsets_past_the_end_are_rejected() {
    assert_eq!(utf16_offset_to_byte_offset("ab", 3), None);
    assert_eq!(utf16_offset_to_byte_offset("", 0), Some(0));
    assert_eq!(utf16_offset_to_byte_offset("", 1), None);
}

#[test]
fn diff_tracks_insertion() {
    assert_eq!(source_edit_from_diff("abc", "abxc"), Some(edit(2, 2, 3)));
}

#[test]
fn diff_tracks_deletion() {
    assert_eq!(source_edit_from_diff("abxc", "abc"), Some(edit(2, 3, 2)));
}

#[test]
fn diff_tracks_unicode_replacement_on_char_boundaries() {
    assert_eq!(source_edit_from_diff("aéz", "aèz"), Some(edit(1, 3, 3)));
}

#[test]
fn diff_of_equal_values_is_none() {
    assert_eq!(source_edit_from_diff("same", "same"), None);
    assert_eq!(source_edit_from_diff("", "x"), Some(edit(0, 0, 1)));
}

#[test]
fn diff_rebuilds_the_new_value() {
    let pairs = [("hello world", "hello there world"), ("aaaa", "aa"), ("日本語", "日本"), ("x", "")];
    for (old, new) in pairs {
        let e = source_edit_from_diff(old, new).unwrap();
        let rebuilt = format!(
            "{}{}{}",
            &old[..e.start_byte],
            &new[e.start_byte..e.new_end_byte],
            &old[e.old_end_byte..]
        );
        assert_eq!(rebuilt, new);
    }
}

#[test]
fn byte_to_point_counts_rows_and_columns() {
    assert_eq!(byte_to_point("abc", 2), Point { row: 0, column: 2 });
    assert_eq!(byte_to_point("ab\ncd\nef", 6), Point { row: 2, column: 0 });
    assert_eq!(byte_to_point("ab\ncd\nef", 8), Point { row: 2, column: 2 });
}

#[test]
fn input_edit_has_points_and_rejects_bad_offsets() {
    let e = edit(3, 3, 5).into_input_edit("ab\ncd", "ab\nXXcd").unwrap();
    assert_eq!(e.start_position, Point { row: 1, column: 0 });
    assert_eq!(e.old_end_position, Point { row: 1, column: 0 });
    assert_eq!(e.new_end_position, Point { row: 1, column: 2 });
    assert_eq!(edit(21, 999, 22).into_input_edit("short", "shorter"), None);
    assert_eq!(edit(2, 1, 2).into_input_edit("abc", "abc"), None);
    assert_eq!(edit(1, 2, 2).into_input_edit("aé", "aé"), None);
}

#[test]
fn selection_edits_follow_the_inserted_data() {
    assert_eq!(
        source_edit_from_selection("a💡é", 3, 3, Some("xy"), "insertText"),
        Some(edit(5, 5, 7))
    );
    assert_eq!(
        source_edit_from_selection("abc", 1, 2, None, "deleteContentBackward"),
        Some(edit(1, 2, 1))
    );
    assert_eq!(
        source_edit_from_selection("abc", 1, 1, None, "deleteContentForward"),
        Some(edit(1, 1, 1))
    );
    assert_eq!(source_edit_from_selection("abc", 1, 1, None, "insertLineBreak"), None);
    assert_eq!(source_edit_from_selection("a💡", 2, 2, Some("x"), "insertText"), None);
}

#[test]
fn target_range_edits_follow_the_inserted_data() {
    assert_eq!(source_edit_from_target_range(4, 6, Some("é")), edit(4, 6, 6));
    assert_eq!(source_edit_from_target_range(4, 6, None), edit(4, 6, 4));
}
