use cherry::error::{Error, SerdeError};
use cherry::{
    Action, ColorConfig, Command, Config, Editor, Event, FrameBuffer, KeyCode, KeyEvent,
    KeyModifiers, Line, Message, Mode, Move, MouseEvent, MouseEventKind, Span, StatusBar, Terminal,
    ThemeConfig,
};

fn plain_config() -> Config {
    Config::new(ThemeConfig::new(None, None, None), false, false, false)
}

fn editor_with(lines: &[&str], size: (u16, u16)) -> Editor {
    let lines = lines.iter().map(|s| s.to_string()).collect();
    let buffer = FrameBuffer::new(lines, None, Span { start: 0, end: 0 });
    Editor::new(Terminal::new(plain_config(), size), buffer)
}

fn lines(editor: &Editor) -> Vec<String> {
    (0..editor.buffer.len())
        .map(|i| editor.buffer.get(Line::Index(i)).unwrap().clone())
        .collect()
}

fn key(code: KeyCode) -> Event {
    Event::Key(KeyEvent { code, modifiers: KeyModifiers::Plain })
}

#[test]
fn typing_two_lines_from_empty_buffer() {
    let mut editor = editor_with(&[], (80, 24));
    editor.execute(Action::Write(KeyCode::Char('h')));
    editor.execute(Action::Write(KeyCode::Char('i')));
    editor.execute(Action::Newline);
    editor.execute(Action::Write(KeyCode::Char('!')));
    assert_eq!(lines(&editor), vec!["hi", "!"]);
    assert_eq!(editor.buffer.position, (1, 1));
}

#[test]
fn move_right_then_left_at_end_of_line_returns() {
    let mut editor = editor_with(&["abc"], (80, 24));
    editor.buffer.position = (3, 0);
    editor.execute(Action::MoveRight);
    assert_eq!(editor.buffer.position, (0, 1));
    editor.execute(Action::MoveLeft);
    assert_eq!(editor.buffer.position, (3, 0));
    assert_eq!(lines(&editor), vec!["abc"]);
}

#[test]
fn move_left_wraps_to_previous_line_end() {
    let mut editor = editor_with(&["hello", "x"], (80, 24));
    editor.buffer.position = (0, 1);
    let (message, commands) = editor.execute(Action::MoveLeft);
    assert_eq!(message, Message::Continue);
    assert_eq!(editor.buffer.position, (5, 0));
    assert_eq!(commands, vec![Command::MoveTo(10, 0)]);
    let (_, commands) = editor.execute(Action::MoveLeft);
    assert_eq!(editor.buffer.position, (4, 0));
    assert_eq!(commands, vec![Command::Move(Move::Left(1))]);
    editor.buffer.position = (0, 0);
    let (_, commands) = editor.execute(Action::MoveLeft);
    assert_eq!(editor.buffer.position, (0, 0));
    assert!(commands.is_empty());
}

#[test]
fn move_right_from_end_of_line_goes_to_next_row() {
    let mut editor = editor_with(&["ab"], (80, 24));
    editor.buffer.position = (2, 0);
    let (_, commands) = editor.execute(Action::MoveRight);
    assert_eq!(editor.buffer.position, (0, 1));
    assert_eq!(commands, vec![Command::MoveTo(5, 1)]);
    assert_eq!(editor.buffer.len(), 1);
    let (_, commands) = editor.execute(Action::MoveRight);
    assert_eq!(editor.buffer.position, (0, 1));
    assert!(commands.is_empty());
}

#[test]
fn vertical_moves_snap_to_end_of_target_line() {
    let mut editor = editor_with(&["abcd", "x", "hello"], (80, 24));
    editor.buffer.position = (1, 1);
    editor.execute(Action::MoveUp);
    assert_eq!(editor.buffer.position, (4, 0));
    editor.execute(Action::MoveUp);
    assert_eq!(editor.buffer.position, (4, 0));
    editor.execute(Action::MoveDown);
    editor.execute(Action::MoveDown);
    assert_eq!(editor.buffer.position, (5, 2));
    editor.execute(Action::MoveDown);
    assert_eq!(editor.buffer.position, (0, 3));
    editor.execute(Action::MoveDown);
    assert_eq!(editor.buffer.position, (0, 3));
}

#[test]
fn newline_splits_line_at_cursor() {
    let mut editor = editor_with(&["hello world", "end"], (80, 4));
    editor.buffer.position = (5, 0);
    let (_, commands) = editor.execute(Action::Newline);
    assert_eq!(lines(&editor), vec!["hello", " world", "end"]);
    assert_eq!(editor.buffer.position, (0, 1));
    assert_eq!(
        commands,
        vec![
            Command::HideCursor,
            Command::Clear,
            Command::MoveTo(0, 0),
            Command::Print("   0 hello\r\n   1  world\r\n   2 end\r\n".to_owned()),
            Command::MoveTo(5, 1),
            Command::ShowCursor,
        ]
    );
}

#[test]
fn newline_at_end_of_line_inserts_empty_line() {
    let mut editor = editor_with(&["ab", "cd"], (80, 24));
    editor.buffer.position = (2, 0);
    editor.execute(Action::Newline);
    assert_eq!(lines(&editor), vec!["ab", "", "cd"]);
    editor.buffer.position = (0, 3);
    editor.execute(Action::Newline);
    assert_eq!(lines(&editor), vec!["ab", "", "cd", "", ""]);
    assert_eq!(editor.buffer.position, (0, 4));
}

#[test]
fn write_past_end_pads_and_draws_rest_of_line() {
    let mut editor = editor_with(&["ab"], (80, 24));
    editor.buffer.position = (1, 0);
    let (_, commands) = editor.execute(Action::Write(KeyCode::Char('x')));
    assert_eq!(lines(&editor), vec!["axb"]);
    assert_eq!(commands, vec![Command::Print("xb".to_owned()), Command::MoveTo(7, 0)]);
    let (_, commands) = editor.execute(Action::Tab);
    assert_eq!(editor.buffer.position, (6, 0));
    assert_eq!(commands, vec![Command::Print("\t".to_owned()), Command::MoveTo(11, 0)]);
    editor.execute(Action::Write(KeyCode::Char('y')));
    assert_eq!(lines(&editor), vec!["axb   y"]);
    assert_eq!(editor.buffer.position, (7, 0));
    let (_, commands) = editor.execute(Action::Write(KeyCode::Char('|')));
    assert!(commands.is_empty());
    assert_eq!(lines(&editor), vec!["axb   y"]);
}

#[test]
fn delete_last_removes_character_before_cursor() {
    let mut editor = editor_with(&["abc"], (80, 24));
    editor.buffer.position = (2, 0);
    let (_, commands) = editor.execute(Action::DeleteLast);
    assert_eq!(lines(&editor), vec!["ac"]);
    assert_eq!(editor.buffer.position, (1, 0));
    assert_eq!(
        commands,
        vec![
            Command::Move(Move::Left(1)),
            Command::Print("c ".to_owned()),
            Command::MoveTo(6, 0),
        ]
    );
    editor.buffer.position = (5, 0);
    editor.execute(Action::DeleteCurrent);
    assert_eq!(lines(&editor), vec!["ac"]);
}

#[test]
fn history_records_actions_and_positions() {
    let mut editor = editor_with(&[], (80, 24));
    editor.execute(Action::ChangeMode(Mode::Insert));
    editor.execute(Action::Write(KeyCode::Char('a')));
    editor.execute(Action::MoveTo(7, 9));
    editor.execute(Action::Ignore);
    let (message, _) = editor.execute(Action::Exit);
    assert_eq!(message, Message::Exit);
    assert_eq!(editor.history.len(), 3);
    assert_eq!(editor.history[2].position, (0, 1));
    assert_eq!(
        editor.format_history(),
        "Action: Insert Mode\nPosition: (0, 0)\n\n\
         Action: Write `Char('a')`\nPosition: (1, 0)\n\n\
         Action: Move `(7, 9)`\nPosition: (0, 1)\n\n"
    );
}

#[test]
fn keys_map_to_actions_by_mode() {
    let mut editor = editor_with(&["abc"], (80, 24));
    let control_c = KeyEvent { code: KeyCode::Char('c'), modifiers: KeyModifiers::Control };
    let shift_a = KeyEvent { code: KeyCode::Char('A'), modifiers: KeyModifiers::Shift };
    let plain = |code| KeyEvent { code, modifiers: KeyModifiers::Plain };
    assert_eq!(editor.handle_key_event(plain(KeyCode::Char('i'))), Action::ChangeMode(Mode::Insert));
    assert_eq!(editor.handle_key_event(plain(KeyCode::Char('h'))), Action::MoveLeft);
    assert_eq!(editor.handle_key_event(plain(KeyCode::Char('l'))), Action::MoveRight);
    assert_eq!(editor.handle_key_event(plain(KeyCode::Up)), Action::MoveUp);
    assert_eq!(editor.handle_key_event(plain(KeyCode::Char('j'))), Action::MoveDown);
    assert_eq!(editor.handle_key_event(plain(KeyCode::Char('x'))), Action::Ignore);
    assert_eq!(editor.handle_key_event(control_c), Action::Exit);
    editor.mode = Mode::Insert;
    assert_eq!(editor.handle_key_event(plain(KeyCode::Esc)), Action::ChangeMode(Mode::Normal));
    assert_eq!(editor.handle_key_event(plain(KeyCode::Backspace)), Action::DeleteLast);
    assert_eq!(editor.handle_key_event(plain(KeyCode::Enter)), Action::Newline);
    assert_eq!(editor.handle_key_event(plain(KeyCode::Tab)), Action::Tab);
    assert_eq!(editor.handle_key_event(plain(KeyCode::Char('h'))), Action::Write(KeyCode::Char('h')));
    assert_eq!(editor.handle_key_event(shift_a), Action::Write(KeyCode::Char('A')));
    assert_eq!(editor.handle_key_event(control_c), Action::Ignore);
    editor.mode = Mode::Visual;
    assert_eq!(editor.handle_key_event(plain(KeyCode::Char('i'))), Action::Ignore);
}

#[test]
fn events_drive_mode_and_text() {
    let mut editor = editor_with(&[], (80, 24));
    editor.handle_event(&key(KeyCode::Char('i')));
    assert_eq!(editor.mode, Mode::Insert);
    editor.handle_event(&key(KeyCode::Char('o')));
    editor.handle_event(&key(KeyCode::Char('k')));
    editor.handle_event(&key(KeyCode::Esc));
    assert_eq!(editor.mode, Mode::Normal);
    let (message, _) = editor.handle_event(&Event::Key(KeyEvent {
        code: KeyCode::Char('c'),
        modifiers: KeyModifiers::Control,
    }));
    assert_eq!(message, Message::Exit);
    assert_eq!(lines(&editor), vec!["ok"]);
}

#[test]
fn left_click_moves_to_text_cell_within_text() {
    let mut editor = editor_with(&["hello", "hi"], (80, 24));
    let click = |column, row| {
        Event::Mouse(MouseEvent { kind: MouseEventKind::LeftDown, column, row })
    };
    let (_, commands) = editor.handle_event(&click(8, 0));
    assert_eq!(editor.buffer.position, (3, 0));
    assert_eq!(commands, vec![Command::MoveTo(8, 0)]);
    editor.handle_event(&click(40, 1));
    assert_eq!(editor.buffer.position, (2, 1));
    editor.handle_event(&click(2, 20));
    assert_eq!(editor.buffer.position, (0, 2));
    let before = editor.history.len();
    editor.handle_event(&Event::Mouse(MouseEvent { kind: MouseEventKind::Other, column: 9, row: 0 }));
    assert_eq!(editor.buffer.position, (0, 2));
    assert_eq!(editor.history.len(), before);
}

#[test]
fn resize_moves_viewport_end_by_row_change() {
    let mut editor = editor_with(&[], (80, 24));
    assert_eq!(editor.buffer.viewable_rows, Span { start: 0, end: 23 });
    editor.handle_event(&Event::Resize(100, 30));
    assert_eq!(editor.buffer.viewable_rows, Span { start: 0, end: 29 });
    assert_eq!(editor.terminal.size, (100, 30));
    editor.handle_event(&Event::Resize(100, 20));
    assert_eq!(editor.buffer.viewable_rows, Span { start: 0, end: 19 });
}

#[test]
fn span_resize_never_goes_below_start() {
    let mut span = Span { start: 3, end: 10 };
    span.resize(20, 15);
    assert_eq!(span, Span { start: 3, end: 5 });
    span.resize(15, 5);
    assert_eq!(span, Span { start: 3, end: 3 });
    span.resize(5, 9);
    assert_eq!(span, Span { start: 3, end: 7 });
}

#[test]
fn status_bar_fills_terminal_width() {
    let bar = StatusBar::new((30, 10), Mode::Insert, None, (12, 3));
    let text = bar.render();
    assert_eq!(text, " Insert    [scratch]     12:3 ");
    assert_eq!(text.chars().count(), 30);
    let narrow = StatusBar::new((4, 10), Mode::Normal, Some("a.txt".to_owned()), (0, 0));
    assert_eq!(narrow.render(), " Normal    a.txt0:0 ");
}

#[test]
fn initialize_draws_viewport_status_bar_and_cursor() {
    let config = Config::new(
        ThemeConfig::new(Some(ColorConfig::Red), None, Some(ColorConfig::Rgb { r: 1, g: 2, b: 3 })),
        true,
        false,
        true,
    );
    let buffer = FrameBuffer::new(vec!["x".to_owned()], None, Span { start: 0, end: 0 });
    let editor = Editor::new(Terminal::new(config, (20, 3)), buffer);
    let commands = editor.initialize();
    assert_eq!(
        commands,
        vec![
            Command::EnableRawMode,
            Command::EnterAlternateScreen,
            Command::EnableMouseCapture,
            Command::SetForegroundColor(ColorConfig::Red),
            Command::SetUnderlineColor(ColorConfig::Rgb { r: 1, g: 2, b: 3 }),
            Command::MoveTo(0, 0),
            Command::Print("   0 x\r\n   1 \r\n".to_owned()),
            Command::MoveTo(0, 2),
            Command::Print(" Normal    [scratch]0:0 ".to_owned()),
            Command::MoveTo(5, 0),
            Command::MoveTo(5, 0),
        ]
    );
    assert_eq!(
        editor.terminal.restore(),
        vec![Command::LeaveAlternateScreen, Command::DisableMouseCapture, Command::DisableRawMode]
    );
    assert_eq!(editor.terminal.cursor_move(Move::Up(2)), Command::Move(Move::Up(2)));
    assert_eq!(editor.terminal.cursor_move_to((4, 1)), Command::MoveTo(4, 1));
}

#[test]
fn describes_actions_and_errors() {
    assert_eq!(Action::MoveTo(3, 14).describe(), "Move `(3, 14)`");
    assert_eq!(Action::Write(KeyCode::Enter).describe(), "Write `Enter`");
    assert_eq!(Action::Ignore.describe(), "None");
    assert_eq!(Error::Io("broken pipe".to_owned()).describe(), "broken pipe");
    assert_eq!(
        Error::Serde(SerdeError::Deserialize("bad".to_owned())).describe(),
        "bad"
    );
}

#[test]
fn key_map_writes_printable_characters() {
    assert_eq!(cherry::keymap::char_for(KeyCode::Char('a')), Some('a'));
    assert_eq!(cherry::keymap::char_for(KeyCode::Char('~')), Some('~'));
    assert_eq!(cherry::keymap::char_for(KeyCode::Char('\\')), None);
    assert_eq!(cherry::keymap::char_for(KeyCode::Char('é')), None);
    assert_eq!(cherry::keymap::char_for(KeyCode::Tab), Some('\t'));
    assert_eq!(cherry::keymap::char_for(KeyCode::Left), None);
}
