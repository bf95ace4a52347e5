use cherry::{FrameBuffer, Line, Span};

fn line(buffer: &FrameBuffer, row: usize) -> Option<String> {
    buffer.get(Line::Index(row)).cloned()
}

#[test]
fn insert() {
    let mut buffer = FrameBuffer::new(vec![], None, Span { start: 0, end: 5 });
    buffer.append("hello world");
    buffer.insert(Line::Index(1), "xiu");
    buffer.insert(Line::Index(1), "my name is");
    buffer.insert(Line::Index(3), ":)");

    assert_eq!(line(&buffer, 0).unwrap(), "hello world");
    assert_eq!(line(&buffer, 1).unwrap(), "my name is");
    assert_eq!(line(&buffer, 2).unwrap(), "xiu");
    assert_eq!(line(&buffer, 3).unwrap(), ":)");
}

#[test]
fn frame_buffer_from_path() {
    let text = "(\n    alternate_screen: true,\n)";
    let lines = FrameBuffer::text_buffer_from_str(text);
    let mut buffer = FrameBuffer::new(
        lines,
        Some("config.ron".to_owned()),
        Span { start: 0, end: 5 },
    );
    buffer.append("hello world");

    assert_eq!(buffer.len(), 4);
    assert_eq!(line(&buffer, 0).unwrap(), "(");
    assert_eq!(line(&buffer, 1).unwrap(), "    alternate_screen: true,");
    assert_eq!(line(&buffer, 2).unwrap(), ")");
    assert_eq!(line(&buffer, 3).unwrap(), "hello world");
}

#[test]
fn line_remove_span() {
    let mut buffer = FrameBuffer::new(
        vec!["Hello world".to_owned()],
        None,
        Span { start: 0, end: 5 },
    );

    let segment = buffer.line_remove_span(Line::Current, Span { start: 0, end: 5 });
    assert_eq!(segment, Some("Hello".to_owned()));
    assert_eq!(line(&buffer, 0).unwrap(), " world");
}

#[test]
fn line_remove_span_full() {
    let mut buffer = FrameBuffer::new(
        vec!["Hello world".to_owned()],
        None,
        Span { start: 0, end: 5 },
    );

    let line_len = buffer.line_len(Line::Current);
    let segment = buffer.line_remove_span(
        Line::Current,
        Span {
            start: 0,
            end: line_len,
        },
    );
    assert_eq!(segment, Some("Hello world".to_owned()));
}

#[test]
fn works() {
    let mut buffer = FrameBuffer::new(vec![], None, Span { start: 0, end: 5 });
    buffer.append("hello world");
    buffer.insert(Line::Index(3), "xiu");
    buffer.insert(Line::Index(3), "my name is");
    buffer.insert(Line::Index(6), ":)");

    assert_eq!(buffer.len(), 7);
    assert_eq!(line(&buffer, 1).unwrap(), "");
    assert_eq!(line(&buffer, 2).unwrap(), "");
    assert_eq!(line(&buffer, 3).unwrap(), "my name is");
    assert_eq!(line(&buffer, 4).unwrap(), "xiu");
    assert_eq!(line(&buffer, 5).unwrap(), "");
    assert_eq!(line(&buffer, 6).unwrap(), ":)");
    assert_eq!(
        buffer.format_viewable(),
        "   0 hello world\r\n   1 \r\n   2 \r\n   3 my name is\r\n   4 xiu\r\n"
    );
    assert_eq!(buffer.format(), "hello world\n\n\nmy name is\nxiu\n\n:)");
}

#[test]
fn mod_from_path() {
    let text = "first\nsecond";
    let mut buffer = FrameBuffer::new(
        FrameBuffer::text_buffer_from_str(text),
        Some("config.ron".to_owned()),
        Span { start: 0, end: 5 },
    );
    buffer.append("hello world");

    assert_eq!(
        buffer.format_viewable(),
        "   0 first\r\n   1 second\r\n   2 hello world\r\n   3 \r\n   4 \r\n"
    );
    assert_eq!(buffer.format(), "first\nsecond\nhello world");
}

#[test]
fn relative_lines_follow_the_cursor() {
    let mut buffer = FrameBuffer::new(
        vec!["a".to_owned(), "bb".to_owned(), "ccc".to_owned()],
        None,
        Span { start: 0, end: 3 },
    );
    assert_eq!(buffer.get_previous(), None);
    assert_eq!(buffer.get_row(Line::Previous), None);
    buffer.position = (0, 1);
    assert_eq!(buffer.get_previous().cloned(), Some("a".to_owned()));
    assert_eq!(buffer.get_current().cloned(), Some("bb".to_owned()));
    assert_eq!(buffer.get_next().cloned(), Some("ccc".to_owned()));
    assert_eq!(buffer.get_row(Line::Next), Some(2));
    assert_eq!(buffer.line_len(Line::Next), 3);
    assert!(!buffer.line_is_empty(Line::Current));
    assert!(buffer.line_is_empty(Line::Index(9)));
    assert!(!buffer.is_empty());
}

#[test]
fn line_edits_through_relative_lines() {
    let mut buffer = FrameBuffer::new(vec!["ab".to_owned()], None, Span { start: 0, end: 3 });
    buffer.line_insert(Line::Current, 1, 'x');
    assert_eq!(line(&buffer, 0).unwrap(), "axb");
    buffer.line_insert_str(Line::Current, 5, "yz");
    assert_eq!(line(&buffer, 0).unwrap(), "axb  yz");
    buffer.line_append(Line::Current, '!');
    assert_eq!(line(&buffer, 0).unwrap(), "axb  yz!");
    buffer.line_append_str(Line::Next, "new");
    assert_eq!(line(&buffer, 1).unwrap(), "new");
    assert_eq!(buffer.line_remove(Line::Current, 1), Some('x'));
    assert_eq!(buffer.line_remove(Line::Current, 40), None);
    assert_eq!(line(&buffer, 0).unwrap(), "ab  yz!");
    assert_eq!(buffer.remove(Line::Next), Some("new".to_owned()));
    assert_eq!(buffer.remove(Line::Next), None);
    buffer.insert(Line::Previous, "never");
    assert_eq!(buffer.len(), 1);
}

#[test]
fn line_remove_span_edges() {
    let mut buffer = FrameBuffer::new(
        vec!["Hello".to_owned(), String::new()],
        None,
        Span { start: 0, end: 2 },
    );
    assert_eq!(buffer.line_remove_span(Line::Index(0), Span { start: 5, end: 9 }), None);
    assert_eq!(buffer.line_remove_span(Line::Index(0), Span { start: 3, end: 2 }), None);
    assert_eq!(buffer.line_remove_span(Line::Index(1), Span { start: 0, end: 1 }), None);
    assert_eq!(buffer.line_remove_span(Line::Index(7), Span { start: 0, end: 1 }), None);
    assert_eq!(
        buffer.line_remove_span(Line::Index(0), Span { start: 2, end: 99 }),
        Some("llo".to_owned())
    );
    assert_eq!(line(&buffer, 0).unwrap(), "He");
}

#[test]
fn remove_span_of_rows() {
    let rows: Vec<String> = ["a", "b", "c", "d"].iter().map(|s| s.to_string()).collect();
    let mut buffer = FrameBuffer::new(rows, None, Span { start: 0, end: 4 });
    assert_eq!(buffer.remove_span(Span { start: 1, end: 3 }), vec!["b", "c"]);
    assert_eq!(buffer.format(), "a\nd");
    assert!(buffer.remove_span(Span { start: 0, end: 2 }).is_empty());
    assert_eq!(buffer.format(), "a\nd");
}

#[test]
fn gutter_labels_widen_with_the_row_number() {
    let mut buffer = FrameBuffer::new(vec![], None, Span { start: 9, end: 11 });
    assert_eq!(buffer.format_viewable(), "   9 \r\n  10 \r\n");
    buffer.viewable_rows = Span { start: 999, end: 1001 };
    assert_eq!(buffer.format_viewable(), " 999 \r\n1000 \r\n");
    assert_eq!(buffer.format_span(Span { start: 0, end: 2 }), "\r\n\r\n");
}

#[test]
fn text_round_trips_through_lines() {
    for text in ["", "\n", "a\n\nb", "trailing\n", "one"] {
        let buffer = FrameBuffer::new(FrameBuffer::text_buffer_from_str(text), None, Span { start: 0, end: 1 });
        assert_eq!(buffer.format(), text);
    }
    assert_eq!(FrameBuffer::text_buffer_from_str("a\n\nb"), vec!["a", "", "b"]);
    assert_eq!(FrameBuffer::text_buffer_from_str(""), vec![""]);
}
