use cherry::{Span, TextBuffer};

fn lines(buffer: &TextBuffer) -> Vec<String> {
    (0..buffer.len()).map(|i| buffer.get(i).unwrap().clone()).collect()
}

fn store(rows: &[&str]) -> TextBuffer {
    TextBuffer::new(rows.iter().map(|s| s.to_string()).collect())
}

#[test]
fn insert_in_range_shifts_later_lines_by_one() {
    let mut buffer = store(&["a", "b", "c"]);
    buffer.insert(1, "x");
    assert_eq!(lines(&buffer), vec!["a", "x", "b", "c"]);
    assert_eq!(buffer.remove(2), Some("b".to_owned()));
    assert_eq!(lines(&buffer), vec!["a", "x", "c"]);
    assert_eq!(buffer.remove(3), None);
    assert_eq!(lines(&buffer), vec!["a", "x", "c"]);
}

#[test]
fn insert_past_end_fills_gap_with_empty_lines() {
    let mut buffer = store(&["a"]);
    buffer.insert(3, "z");
    assert_eq!(lines(&buffer), vec!["a", "", "", "z"]);
    buffer.append("w");
    assert_eq!(buffer.get(4).unwrap(), "w");
    assert_eq!(buffer.get(5), None);
}

#[test]
fn line_insert_past_end_pads_with_spaces() {
    let mut buffer = store(&["ab"]);
    buffer.line_insert(0, 5, 'x');
    assert_eq!(buffer.get(0).unwrap(), "ab   x");
    assert_eq!(buffer.line_len(0), 6);
    buffer.line_insert(0, 0, '>');
    assert_eq!(buffer.get(0).unwrap(), ">ab   x");
    buffer.line_insert(2, 3, 'q');
    assert_eq!(lines(&buffer), vec![">ab   x", "", "   q"]);
    assert_eq!(buffer.line_len(9), 0);
}

#[test]
fn line_insert_counts_characters_not_bytes() {
    let mut buffer = store(&["é!"]);
    buffer.line_insert(0, 1, 'x');
    assert_eq!(buffer.get(0).unwrap(), "éx!");
    assert_eq!(buffer.line_len(0), 3);
    assert_eq!(buffer.line_remove(0, 0), Some('é'));
    assert_eq!(buffer.get(0).unwrap(), "x!");
}

#[test]
fn line_insert_str_and_appends() {
    let mut buffer = store(&["hello"]);
    buffer.line_insert_str(0, 2, "--");
    assert_eq!(buffer.get(0).unwrap(), "he--llo");
    buffer.line_append(0, '!');
    buffer.line_append_str(0, "?");
    assert_eq!(buffer.get(0).unwrap(), "he--llo!?");
    buffer.line_append(2, 'c');
    assert_eq!(lines(&buffer), vec!["he--llo!?", "", "c"]);
}

#[test]
fn line_remove_span_clamps_end() {
    let mut buffer = store(&["Hello world"]);
    assert_eq!(buffer.line_remove_span(0, Span { start: 6, end: 100 }), Some("world".to_owned()));
    assert_eq!(buffer.get(0).unwrap(), "Hello ");
    assert_eq!(buffer.line_remove_span(0, Span { start: 6, end: 7 }), None);
    assert_eq!(buffer.line_remove_span(1, Span { start: 0, end: 1 }), None);
}

#[test]
fn format_span_shows_missing_rows_empty() {
    let buffer = store(&["a", "b"]);
    assert_eq!(buffer.format_span(Span { start: 1, end: 4 }), "b\r\n\r\n\r\n");
    assert_eq!(buffer.format_span(Span { start: 2, end: 1 }), "");
}

#[test]
fn from_text_and_format_round_trip() {
    let buffer = TextBuffer::from_text("x\ny\n");
    assert_eq!(lines(&buffer), vec!["x", "y", ""]);
    assert_eq!(buffer.format(), "x\ny\n");
    assert!(!buffer.is_empty());
    assert!(TextBuffer::new(vec![]).is_empty());
    assert_eq!(TextBuffer::new(vec![]).format(), "");
    assert_eq!(buffer.into_inner(), vec!["x", "y", ""]);
}

#[test]
fn remove_span_needs_end_below_length() {
    let mut buffer = store(&["a", "b", "c"]);
    assert!(buffer.remove_span(Span { start: 1, end: 3 }).is_empty());
    assert_eq!(buffer.remove_span(Span { start: 0, end: 2 }), vec!["a", "b"]);
    assert_eq!(lines(&buffer), vec!["c"]);
}

#[test]
fn get_mut_changes_line_in_place() {
    let mut buffer = store(&["abc"]);
    buffer.get_mut(0).unwrap().push('d');
    assert_eq!(buffer.get(0).unwrap(), "abcd");
    assert!(buffer.get_mut(1).is_none());

    let mut frame = cherry::FrameBuffer::new(vec!["x".to_owned()], None, Span { start: 0, end: 1 });
    frame.get_mut(cherry::Line::Current).unwrap().push_str("yz");
    assert_eq!(frame.format(), "xyz");
    assert!(frame.get_mut(cherry::Line::Previous).is_none());
}

#[test]
fn display_range_runs_rows_together() {
    let buffer = store(&["ab", "c"]);
    assert_eq!(buffer.display_range(&Span { start: 0, end: 3 }), "abc\n");
    assert_eq!(buffer.display_range(&Span { start: 1, end: 1 }), "");
}

#[test]
fn default_store_is_empty() {
    let buffer = TextBuffer::default();
    assert!(buffer.is_empty());
    assert_eq!(buffer.len(), 0);
}
