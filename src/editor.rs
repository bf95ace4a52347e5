use crate::frame_buffer::{viewable_text, FrameBuffer, Line, GUTTER_WIDTH};
use crate::keymap::{
    char_for, char_of, Event, KeyCode, KeyEvent, KeyModifiers, MouseEvent, MouseEventKind,
};
use crate::span::{resized_end, Span};
use crate::terminal::{emit, views, Command, CommandView, Move, Terminal};
use crate::status_bar::{status_text, StatusBar};
use crate::terminal::startup;
use crate::text::{chars_of, decimal, push_decimal, string_of};
use crate::text_buffer::{edited, inserted, line_or_empty, min};
use vstd::prelude::*;
use vstd::string::*;

verus! {

/// How far a tab moves the cursor.
pub const TAB_WIDTH: usize = 4;

/// The editing mode, which decides what a key does.
#[derive(Debug, Clone, Copy, PartialEq, Eq, Structural)]
pub enum Mode {
    Normal,
    Insert,
    /// Accepted, but every key is ignored in it.
    Visual,
}

/// Whether the input loop goes on after an event.
#[derive(Debug, Clone, Copy, PartialEq, Eq, Structural)]
pub enum Message {
    Continue,
    Exit,
}

/// An editing or movement command.
#[derive(Debug, Clone, Copy, PartialEq, Eq, Structural)]
pub enum Action {
    ChangeMode(Mode),
    MoveLeft,
    MoveRight,
    MoveUp,
    MoveDown,
    /// Moves to `(column, row)`, kept within the text.
    MoveTo(usize, usize),
    Write(KeyCode),
    Newline,
    Tab,
    DeleteLast,
    DeleteCurrent,
    Exit,
    /// Does nothing.
    Ignore,
}

/// An executed action and the cursor `(column, row)` right after it.
#[derive(Debug, Clone, Copy)]
pub struct HistoryNode {
    pub action: Action,
    pub position: (usize, usize),
}

/// The number of characters on line `row`; zero when there is none.
pub open spec fn length_of(lines: Seq<Seq<char>>, row: int) -> int {
    line_or_empty(lines, row).len() as int
}

/// `x`, or the largest `usize` when it is larger.
pub open spec fn saturated(x: int) -> int {
    if x > usize::MAX {
        usize::MAX as int
    } else {
        x
    }
}

/// The characters of `line` from `column` on.
pub open spec fn suffix(line: Seq<char>, column: int) -> Seq<char> {
    if column < line.len() {
        line.subrange(column, line.len() as int)
    } else {
        Seq::empty()
    }
}

/// The cursor after moving left from `pos`: one column back, else to the end
/// of the line before; nothing moves at the origin.
pub open spec fn left_of(lines: Seq<Seq<char>>, pos: (int, int)) -> (int, int) {
    if pos.0 > 0 {
        (pos.0 - 1, pos.1)
    } else if pos.1 == 0 {
        pos
    } else {
        (length_of(lines, pos.1 - 1), pos.1 - 1)
    }
}

/// The cursor after moving right from `pos`: one column on, else to the
/// start of the next row, which need not hold a line yet; nothing moves
/// past the row after the last line.
pub open spec fn right_of(lines: Seq<Seq<char>>, pos: (int, int)) -> (int, int) {
    if pos.0 < length_of(lines, pos.1) {
        (pos.0 + 1, pos.1)
    } else if pos.1 < lines.len() {
        (0, pos.1 + 1)
    } else {
        pos
    }
}

/// The lines after the character at `pos` is removed, if there is one.
pub open spec fn removed_at(lines: Seq<Seq<char>>, pos: (int, int)) -> Seq<Seq<char>> {
    if 0 <= pos.1 < lines.len() && 0 <= pos.0 < lines[pos.1].len() {
        lines.update(pos.1, lines[pos.1].remove(pos.0))
    } else {
        lines
    }
}

/// The lines after line `pos.1` is split at column `pos.0`: the rest of the
/// line becomes a new line after it (an empty one when the cursor is at or
/// past the end); a missing line is created empty first.
pub open spec fn split_at(lines: Seq<Seq<char>>, pos: (int, int)) -> Seq<Seq<char>> {
    let line = line_or_empty(lines, pos.1);
    if pos.1 < lines.len() && pos.0 < line.len() {
        lines.update(pos.1, line.subrange(0, pos.0)).insert(pos.1 + 1, suffix(line, pos.0))
    } else if pos.1 < lines.len() {
        inserted(lines, pos.1 + 1, Seq::empty())
    } else {
        lines + seq![Seq::<char>::empty(), Seq::<char>::empty()]
    }
}

/// The cursor after `action` from `pos`.
pub open spec fn moved(lines: Seq<Seq<char>>, pos: (int, int), action: Action) -> (int, int) {
    match action {
        Action::MoveLeft => left_of(lines, pos),
        Action::MoveRight => right_of(lines, pos),
        Action::MoveUp => if pos.1 == 0 {
            pos
        } else {
            (length_of(lines, pos.1 - 1), pos.1 - 1)
        },
        Action::MoveDown => if pos.1 < lines.len() {
            (length_of(lines, pos.1 + 1), pos.1 + 1)
        } else {
            pos
        },
        Action::MoveTo(column, row) => {
            let r = min(row as int, lines.len() as int);
            (min(column as int, length_of(lines, r)), r)
        },
        Action::Write(code) => if char_of(code) is Some {
            (saturated(pos.0 + 1), pos.1)
        } else {
            pos
        },
        Action::Newline => (0, pos.1 + 1),
        Action::Tab => (saturated(pos.0 + TAB_WIDTH), pos.1),
        Action::DeleteLast => left_of(lines, pos),
        _ => pos,
    }
}

/// The lines after `action` with the cursor at `pos`.
pub open spec fn edited_lines(lines: Seq<Seq<char>>, pos: (int, int), action: Action) -> Seq<
    Seq<char>,
> {
    match action {
        Action::Write(code) => match char_of(code) {
            Some(ch) => edited(lines, pos.1, pos.0, seq![ch]),
            None => lines,
        },
        Action::Newline => split_at(lines, pos),
        Action::DeleteCurrent => removed_at(lines, pos),
        Action::DeleteLast => removed_at(lines, left_of(lines, pos)),
        _ => lines,
    }
}

/// The command that puts the screen cursor where buffer position `pos`
/// shows: right of the gutter, and counted from the viewport's first row.
pub open spec fn cursor_to(pos: (int, int), view: Span) -> CommandView {
    CommandView::MoveTo(
        saturated(pos.0 + GUTTER_WIDTH) as usize,
        (if pos.1 >= view.start {
            pos.1 - view.start
        } else {
            0
        }) as usize,
    )
}

/// What moving left draws: a one-cell move within the line, a move to the
/// new position across lines, nothing at the origin.
pub open spec fn left_drawn(lines: Seq<Seq<char>>, pos: (int, int), view: Span) -> Seq<
    CommandView,
> {
    if pos.0 > 0 {
        seq![CommandView::Move(Move::Left(1))]
    } else if pos.1 == 0 {
        Seq::empty()
    } else {
        seq![cursor_to(left_of(lines, pos), view)]
    }
}

/// What removing the character at `pos` draws: the rest of the line, a space
/// over the cell it vacates, and the cursor put back.
pub open spec fn delete_drawn(lines: Seq<Seq<char>>, pos: (int, int), view: Span) -> Seq<
    CommandView,
> {
    let after = removed_at(lines, pos);
    seq![
        CommandView::Print(suffix(line_or_empty(after, pos.1), pos.0) + seq![' ']),
        cursor_to(pos, view),
    ]
}

/// The commands that `action` from `pos` draws.
pub open spec fn drawn(lines: Seq<Seq<char>>, pos: (int, int), view: Span, action: Action) -> Seq<
    CommandView,
> {
    let to = moved(lines, pos, action);
    let after = edited_lines(lines, pos, action);
    match action {
        Action::MoveLeft => left_drawn(lines, pos, view),
        Action::MoveRight => if pos.0 < length_of(lines, pos.1) {
            seq![CommandView::Move(Move::Right(1))]
        } else if pos.1 < lines.len() {
            seq![cursor_to(to, view)]
        } else {
            Seq::empty()
        },
        Action::MoveUp => if pos.1 == 0 {
            Seq::empty()
        } else {
            seq![cursor_to(to, view)]
        },
        Action::MoveDown => if pos.1 < lines.len() {
            seq![cursor_to(to, view)]
        } else {
            Seq::empty()
        },
        Action::MoveTo(_, _) => seq![cursor_to(to, view)],
        Action::Write(code) => if char_of(code) is Some {
            seq![
                CommandView::Print(suffix(line_or_empty(after, pos.1), pos.0)),
                cursor_to(to, view),
            ]
        } else {
            Seq::empty()
        },
        Action::Newline => seq![
            CommandView::HideCursor,
            CommandView::Clear,
            CommandView::MoveTo(0, 0),
            CommandView::Print(viewable_text(after, view.start as int, view.end as int)),
            cursor_to(to, view),
            CommandView::ShowCursor,
        ],
        Action::Tab => seq![CommandView::Print(seq!['\t']), cursor_to(to, view)],
        Action::DeleteCurrent => delete_drawn(lines, pos, view),
        Action::DeleteLast => left_drawn(lines, pos, view) + delete_drawn(
            lines,
            left_of(lines, pos),
            view,
        ),
        _ => Seq::empty(),
    }
}

/// The mode after `action`.
pub open spec fn next_mode(mode: Mode, action: Action) -> Mode {
    match action {
        Action::ChangeMode(m) => m,
        _ => mode,
    }
}

/// The action of a key in Normal mode.
pub open spec fn normal_action(key: KeyEvent) -> Action {
    if key.modifiers == KeyModifiers::Plain {
        match key.code {
            KeyCode::Char('i') => Action::ChangeMode(Mode::Insert),
            KeyCode::Left | KeyCode::Char('h') => Action::MoveLeft,
            KeyCode::Right | KeyCode::Char('l') => Action::MoveRight,
            KeyCode::Up | KeyCode::Char('k') => Action::MoveUp,
            KeyCode::Down | KeyCode::Char('j') => Action::MoveDown,
            _ => Action::Ignore,
        }
    } else if key.modifiers == KeyModifiers::Control && key.code == KeyCode::Char('c') {
        Action::Exit
    } else {
        Action::Ignore
    }
}

/// The action of a key in Insert mode.
pub open spec fn insert_action(key: KeyEvent) -> Action {
    match key.modifiers {
        KeyModifiers::Plain => match key.code {
            KeyCode::Esc => Action::ChangeMode(Mode::Normal),
            KeyCode::Left => Action::MoveLeft,
            KeyCode::Right => Action::MoveRight,
            KeyCode::Up => Action::MoveUp,
            KeyCode::Down => Action::MoveDown,
            KeyCode::Backspace => Action::DeleteLast,
            KeyCode::Enter => Action::Newline,
            KeyCode::Tab => Action::Tab,
            code => Action::Write(code),
        },
        KeyModifiers::Shift => Action::Write(key.code),
        _ => Action::Ignore,
    }
}

/// The action of a key in `mode`; Visual mode ignores every key.
pub open spec fn key_action(mode: Mode, key: KeyEvent) -> Action {
    match mode {
        Mode::Normal => normal_action(key),
        Mode::Insert => insert_action(key),
        Mode::Visual => Action::Ignore,
    }
}

/// The message that follows `action`.
pub open spec fn message_of(action: Action) -> Message {
    if action == Action::Exit {
        Message::Exit
    } else {
        Message::Continue
    }
}

/// Whether `action` is recorded in the history: all but `Exit` and `Ignore`.
pub open spec fn recorded(action: Action) -> bool {
    action != Action::Exit && action != Action::Ignore
}

/// How a key is named in the history.
pub open spec fn key_text(code: KeyCode) -> Seq<char> {
    match code {
        KeyCode::Char(c) => "Char('"@ + seq![c] + "')"@,
        KeyCode::Left => "Left"@,
        KeyCode::Right => "Right"@,
        KeyCode::Up => "Up"@,
        KeyCode::Down => "Down"@,
        KeyCode::Backspace => "Backspace"@,
        KeyCode::Enter => "Enter"@,
        KeyCode::Tab => "Tab"@,
        KeyCode::Esc => "Esc"@,
        KeyCode::Other => "Other"@,
    }
}

/// How an action is named in the history.
pub open spec fn action_text(action: Action) -> Seq<char> {
    match action {
        Action::ChangeMode(Mode::Insert) => "Insert Mode"@,
        Action::ChangeMode(Mode::Normal) => "Normal Mode"@,
        Action::ChangeMode(Mode::Visual) => "Visual Mode"@,
        Action::MoveRight => "Move Right"@,
        Action::MoveLeft => "Move Left"@,
        Action::MoveUp => "Move Up"@,
        Action::MoveDown => "Move Down"@,
        Action::MoveTo(column, row) => "Move `("@ + decimal(column as nat) + ", "@ + decimal(
            row as nat,
        ) + ")`"@,
        Action::Write(code) => "Write `"@ + key_text(code) + "`"@,
        Action::Newline => "Newline"@,
        Action::Tab => "Tab"@,
        Action::DeleteLast => "Delete Last"@,
        Action::DeleteCurrent => "Delete Current"@,
        Action::Exit => "Exit"@,
        Action::Ignore => "None"@,
    }
}

/// How a history node is shown: the action, then the cursor after it, each
/// on a line of its own.
pub open spec fn node_text(node: HistoryNode) -> Seq<char> {
    "Action: "@ + action_text(node.action) + "\nPosition: ("@ + decimal(node.position.0 as nat)
        + ", "@ + decimal(node.position.1 as nat) + ")\n"@
}

/// The history as shown after a session: each node followed by an empty line.
pub open spec fn history_text(nodes: Seq<HistoryNode>) -> Seq<char>
    decreases nodes.len(),
{
    if nodes.len() == 0 {
        Seq::empty()
    } else {
        history_text(nodes.drop_last()) + node_text(nodes.last()) + "\n"@
    }
}

impl KeyCode {
    /// The key's name, as the history shows it.
    pub fn describe(&self) -> (r: String)
        ensures
            r@ == key_text(*self),
    {
        let mut r = String::new();
        match *self {
            KeyCode::Char(c) => {
                r.append("Char('");
                r.push(c);
                r.append("')");
            },
            KeyCode::Left => r.append("Left"),
            KeyCode::Right => r.append("Right"),
            KeyCode::Up => r.append("Up"),
            KeyCode::Down => r.append("Down"),
            KeyCode::Backspace => r.append("Backspace"),
            KeyCode::Enter => r.append("Enter"),
            KeyCode::Tab => r.append("Tab"),
            KeyCode::Esc => r.append("Esc"),
            KeyCode::Other => r.append("Other"),
        }
        assert(r@ =~= key_text(*self));
        r
    }
}

impl Action {
    /// The action's name, as the history shows it.
    pub fn describe(&self) -> (r: String)
        ensures
            r@ == action_text(*self),
    {
        let mut r = String::new();
        match *self {
            Action::ChangeMode(Mode::Insert) => r.append("Insert Mode"),
            Action::ChangeMode(Mode::Normal) => r.append("Normal Mode"),
            Action::ChangeMode(Mode::Visual) => r.append("Visual Mode"),
            Action::MoveRight => r.append("Move Right"),
            Action::MoveLeft => r.append("Move Left"),
            Action::MoveUp => r.append("Move Up"),
            Action::MoveDown => r.append("Move Down"),
            Action::MoveTo(column, row) => {
                r.append("Move `(");
                push_decimal(&mut r, column);
                r.append(", ");
                push_decimal(&mut r, row);
                r.append(")`");
            },
            Action::Write(code) => {
                r.append("Write `");
                let key = code.describe();
                r.append(key.as_str());
                r.append("`");
            },
            Action::Newline => r.append("Newline"),
            Action::Tab => r.append("Tab"),
            Action::DeleteLast => r.append("Delete Last"),
            Action::DeleteCurrent => r.append("Delete Current"),
            Action::Exit => r.append("Exit"),
            Action::Ignore => r.append("None"),
        }
        assert(r@ =~= action_text(*self));
        r
    }
}

impl HistoryNode {
    /// The node as the history shows it.
    pub fn describe(&self) -> (r: String)
        ensures
            r@ == node_text(*self),
    {
        let mut r = String::new();
        r.append("Action: ");
        let action = self.action.describe();
        r.append(action.as_str());
        r.append("\nPosition: (");
        push_decimal(&mut r, self.position.0);
        r.append(", ");
        push_decimal(&mut r, self.position.1);
        r.append(")\n");
        assert(r@ =~= node_text(*self));
        r
    }
}

/// The characters of `line` from `column` on.
fn suffix_of(line: &str, column: usize) -> (r: String)
    ensures
        r@ == suffix(line@, column as int),
{
    let chars = chars_of(line);
    if column < chars.len() {
        string_of(&chars, column, chars.len())
    } else {
        String::new()
    }
}

/// The editor: the text with its cursor and viewport, the mode, the actions
/// done so far, and the terminal it draws on.
pub struct Editor {
    pub terminal: Terminal,
    pub buffer: FrameBuffer,
    pub mode: Mode,
    pub history: Vec<HistoryNode>,
}

impl Editor {
    /// The cursor, `(column, row)`.
    pub open spec fn cursor(&self) -> (int, int) {
        (self.buffer.position.0 as int, self.buffer.position.1 as int)
    }

    /// The cursor is on a line or on the row just after the last one, and the
    /// viewport spans no more rows than the terminal has.
    pub open spec fn wf(&self) -> bool {
        &&& self.buffer.position.1 <= self.buffer.lines().len()
        &&& self.buffer.viewable_rows.start <= self.buffer.viewable_rows.end
        &&& self.buffer.viewable_rows.end <= self.buffer.viewable_rows.start + self.terminal.size.1
        &&& self.buffer.viewable_rows.start + u16::MAX <= usize::MAX
    }

    /// `after` is `before` once `action` is applied to the text and the
    /// cursor, and `drawn_after` is `drawn_before` with what that draws.
    pub open spec fn stepped(
        before: &Editor,
        after: &Editor,
        action: Action,
        drawn_before: Seq<CommandView>,
        drawn_after: Seq<CommandView>,
    ) -> bool {
        let lines = before.buffer.lines();
        let pos = before.cursor();
        &&& after.buffer.lines() == edited_lines(lines, pos, action)
        &&& after.cursor() == moved(lines, pos, action)
        &&& drawn_after == drawn_before + drawn(lines, pos, before.buffer.viewable_rows, action)
        &&& after.buffer.entry == before.buffer.entry
        &&& after.buffer.viewable_rows == before.buffer.viewable_rows
        &&& after.terminal == before.terminal
        &&& after.mode == before.mode
        &&& after.history == before.history
    }

    /// `after` is `before` once `action` is executed, which returns
    /// `message` and draws `drawn_out`; a recorded action is appended to the
    /// history with the cursor it left.
    pub open spec fn executed(
        before: &Editor,
        after: &Editor,
        action: Action,
        message: Message,
        drawn_out: Seq<CommandView>,
    ) -> bool {
        let lines = before.buffer.lines();
        let pos = before.cursor();
        &&& message == message_of(action)
        &&& after.buffer.lines() == edited_lines(lines, pos, action)
        &&& after.cursor() == moved(lines, pos, action)
        &&& drawn_out == drawn(lines, pos, before.buffer.viewable_rows, action)
        &&& after.mode == next_mode(before.mode, action)
        &&& after.history@ == if recorded(action) {
            before.history@.push((HistoryNode { action, position: after.buffer.position }))
        } else {
            before.history@
        }
        &&& after.buffer.entry == before.buffer.entry
        &&& after.buffer.viewable_rows == before.buffer.viewable_rows
        &&& after.terminal == before.terminal
    }

    /// The action that `event` triggers: a key's action in the current mode,
    /// a move to the text cell under a left click, nothing for other mouse
    /// events and for a resize.
    pub open spec fn event_action(&self, event: Event) -> Action {
        match event {
            Event::Key(key) => key_action(self.mode, key),
            Event::Mouse(mouse) => if mouse.kind == MouseEventKind::LeftDown {
                Action::MoveTo(
                    (if mouse.column >= GUTTER_WIDTH {
                        mouse.column - GUTTER_WIDTH
                    } else {
                        0
                    }) as usize,
                    (mouse.row + self.buffer.viewable_rows.start) as usize,
                )
            } else {
                Action::Ignore
            },
            Event::Resize(_, _) => Action::Ignore,
        }
    }

    /// An editor on `buffer` drawing on `terminal`, in Normal mode with no
    /// history; the viewport spans the terminal's rows but the last, which
    /// the status bar takes.
    pub fn new(terminal: Terminal, buffer: FrameBuffer) -> (r: Self)
        requires
            buffer.position.1 <= buffer.lines().len(),
        ensures
            r.wf(),
            r.terminal == terminal,
            r.buffer.lines() == buffer.lines(),
            r.buffer.position == buffer.position,
            r.buffer.entry == buffer.entry,
            r.buffer.viewable_rows == (Span {
                start: 0,
                end: if terminal.size.1 > 0 {
                    (terminal.size.1 - 1) as usize
                } else {
                    0
                },
            }),
            r.mode == Mode::Normal,
            r.history@.len() == 0,
    {
        let mut buffer = buffer;
        let rows = terminal.size.1 as usize;
        buffer.viewable_rows = Span {
            start: 0,
            end: if rows > 0 {
                rows - 1
            } else {
                0
            },
        };
        Editor { terminal, buffer, mode: Mode::Normal, history: Vec::new() }
    }

    /// The action of `event` in Normal mode.
    pub fn handle_normal_mode_key_event(&self, event: KeyEvent) -> (r: Action)
        ensures
            r == normal_action(event),
    {
        match event.modifiers {
            KeyModifiers::Plain => match event.code {
                KeyCode::Char('i') => Action::ChangeMode(Mode::Insert),
                KeyCode::Left | KeyCode::Char('h') => Action::MoveLeft,
                KeyCode::Right | KeyCode::Char('l') => Action::MoveRight,
                KeyCode::Up | KeyCode::Char('k') => Action::MoveUp,
                KeyCode::Down | KeyCode::Char('j') => Action::MoveDown,
                _ => Action::Ignore,
            },
            KeyModifiers::Control => match event.code {
                KeyCode::Char('c') => Action::Exit,
                _ => Action::Ignore,
            },
            _ => Action::Ignore,
        }
    }

    /// The action of `event` in Insert mode.
    pub fn handle_insert_mode_key_event(&self, event: KeyEvent) -> (r: Action)
        ensures
            r == insert_action(event),
    {
        match event.modifiers {
            KeyModifiers::Plain => match event.code {
                KeyCode::Esc => Action::ChangeMode(Mode::Normal),
                KeyCode::Left => Action::MoveLeft,
                KeyCode::Right => Action::MoveRight,
                KeyCode::Up => Action::MoveUp,
                KeyCode::Down => Action::MoveDown,
                KeyCode::Backspace => Action::DeleteLast,
                KeyCode::Enter => Action::Newline,
                KeyCode::Tab => Action::Tab,
                code => Action::Write(code),
            },
            KeyModifiers::Shift => Action::Write(event.code),
            _ => Action::Ignore,
        }
    }

    /// The action of `event` in the current mode.
    pub fn handle_key_event(&self, event: KeyEvent) -> (r: Action)
        ensures
            r == key_action(self.mode, event),
    {
        match self.mode {
            Mode::Normal => self.handle_normal_mode_key_event(event),
            Mode::Insert => self.handle_insert_mode_key_event(event),
            Mode::Visual => Action::Ignore,
        }
    }

    /// The command that puts the screen cursor where the cursor shows.
    fn cursor_command(&self) -> (r: Command)
        ensures
            r@ == cursor_to(self.cursor(), self.buffer.viewable_rows),
    {
        let (column, row) = self.buffer.position;
        let start = self.buffer.viewable_rows.start;
        let screen_row = if row >= start {
            row - start
        } else {
            0
        };
        Command::MoveTo(column.saturating_add(GUTTER_WIDTH), screen_row)
    }

    fn move_left(&mut self, out: &mut Vec<Command>)
        requires
            old(self).wf(),
        ensures
            final(self).wf(),
            Editor::stepped(
                old(self),
                final(self),
                Action::MoveLeft,
                views(old(out)@),
                views(final(out)@),
            ),
    {
        let ghost expected = views(old(out)@) + drawn(
            self.buffer.lines(),
            self.cursor(),
            self.buffer.viewable_rows,
            Action::MoveLeft,
        );
        let (column, row) = self.buffer.position;
        if column > 0 {
            self.buffer.position = (column - 1, row);
            emit(out, Command::Move(Move::Left(1)));
        } else if row > 0 {
            let len = self.buffer.line_len(Line::Index(row - 1));
            self.buffer.position = (len, row - 1);
            let command = self.cursor_command();
            emit(out, command);
        }
        assert(views(out@) =~= expected);
    }

    fn move_right(&mut self, out: &mut Vec<Command>)
        requires
            old(self).wf(),
        ensures
            final(self).wf(),
            Editor::stepped(
                old(self),
                final(self),
                Action::MoveRight,
                views(old(out)@),
                views(final(out)@),
            ),
    {
        let ghost expected = views(old(out)@) + drawn(
            self.buffer.lines(),
            self.cursor(),
            self.buffer.viewable_rows,
            Action::MoveRight,
        );
        let (column, row) = self.buffer.position;
        let len = self.buffer.line_len(Line::Index(row));
        if column < len {
            self.buffer.position = (column + 1, row);
            emit(out, Command::Move(Move::Right(1)));
        } else if row < self.buffer.len() {
            self.buffer.position = (0, row + 1);
            let command = self.cursor_command();
            emit(out, command);
        }
        assert(views(out@) =~= expected);
    }

    fn move_up(&mut self, out: &mut Vec<Command>)
        requires
            old(self).wf(),
        ensures
            final(self).wf(),
            Editor::stepped(
                old(self),
                final(self),
                Action::MoveUp,
                views(old(out)@),
                views(final(out)@),
            ),
    {
        let ghost expected = views(old(out)@) + drawn(
            self.buffer.lines(),
            self.cursor(),
            self.buffer.viewable_rows,
            Action::MoveUp,
        );
        let row = self.buffer.position.1;
        if row > 0 {
            let len = self.buffer.line_len(Line::Index(row - 1));
            self.buffer.position = (len, row - 1);
            let command = self.cursor_command();
            emit(out, command);
        }
        assert(views(out@) =~= expected);
    }

    fn move_down(&mut self, out: &mut Vec<Command>)
        requires
            old(self).wf(),
        ensures
            final(self).wf(),
            Editor::stepped(
                old(self),
                final(self),
                Action::MoveDown,
                views(old(out)@),
                views(final(out)@),
            ),
    {
        let ghost expected = views(old(out)@) + drawn(
            self.buffer.lines(),
            self.cursor(),
            self.buffer.viewable_rows,
            Action::MoveDown,
        );
        let row = self.buffer.position.1;
        if row < self.buffer.len() {
            let len = self.buffer.line_len(Line::Index(row + 1));
            self.buffer.position = (len, row + 1);
            let command = self.cursor_command();
            emit(out, command);
        }
        assert(views(out@) =~= expected);
    }

    fn move_to(&mut self, column: usize, row: usize, out: &mut Vec<Command>)
        requires
            old(self).wf(),
        ensures
            final(self).wf(),
            Editor::stepped(
                old(self),
                final(self),
                Action::MoveTo(column, row),
                views(old(out)@),
                views(final(out)@),
            ),
    {
        let ghost expected = views(old(out)@) + drawn(
            self.buffer.lines(),
            self.cursor(),
            self.buffer.viewable_rows,
            Action::MoveTo(column, row),
        );
        let lines = self.buffer.len();
        let row = if row < lines {
            row
        } else {
            lines
        };
        let len = self.buffer.line_len(Line::Index(row));
        let column = if column < len {
            column
        } else {
            len
        };
        self.buffer.position = (column, row);
        let command = self.cursor_command();
        emit(out, command);
        assert(views(out@) =~= expected);
    }

    fn write_char(&mut self, code: KeyCode, out: &mut Vec<Command>)
        requires
            old(self).wf(),
        ensures
            final(self).wf(),
            Editor::stepped(
                old(self),
                final(self),
                Action::Write(code),
                views(old(out)@),
                views(final(out)@),
            ),
    {
        let ghost expected = views(old(out)@) + drawn(
            self.buffer.lines(),
            self.cursor(),
            self.buffer.viewable_rows,
            Action::Write(code),
        );
        if let Some(character) = char_for(code) {
            let (column, row) = self.buffer.position;
            self.buffer.line_insert(Line::Index(row), column, character);
            self.buffer.position = (column.saturating_add(1), row);
            let rest = match self.buffer.get(Line::Index(row)) {
                Some(line) => suffix_of(line.as_str(), column),
                None => String::new(),
            };
            emit(out, Command::Print(rest));
            let command = self.cursor_command();
            emit(out, command);
        }
        assert(views(out@) =~= expected);
    }

    fn tab(&mut self, out: &mut Vec<Command>)
        requires
            old(self).wf(),
        ensures
            final(self).wf(),
            Editor::stepped(
                old(self),
                final(self),
                Action::Tab,
                views(old(out)@),
                views(final(out)@),
            ),
    {
        let ghost expected = views(old(out)@) + drawn(
            self.buffer.lines(),
            self.cursor(),
            self.buffer.viewable_rows,
            Action::Tab,
        );
        let (column, row) = self.buffer.position;
        self.buffer.position = (column.saturating_add(TAB_WIDTH), row);
        let mut tab = String::new();
        tab.push('\t');
        emit(out, Command::Print(tab));
        let command = self.cursor_command();
        emit(out, command);
        assert(views(out@) =~= expected);
    }

    fn newline(&mut self, out: &mut Vec<Command>)
        requires
            old(self).wf(),
        ensures
            final(self).wf(),
            Editor::stepped(
                old(self),
                final(self),
                Action::Newline,
                views(old(out)@),
                views(final(out)@),
            ),
    {
        let ghost lines = self.buffer.lines();
        let ghost expected = views(old(out)@) + drawn(
            self.buffer.lines(),
            self.cursor(),
            self.buffer.viewable_rows,
            Action::Newline,
        );
        let (column, row) = self.buffer.position;
        let count = self.buffer.len();
        let len = self.buffer.line_len(Line::Index(row));
        if row < count && column < len {
            let removed = self.buffer.line_remove_span(Line::Index(row), Span { start: column, end: len });
            let rest = match removed {
                Some(rest) => rest,
                None => String::new(),
            };
            proof {
                let line = lines[row as int];
                assert(line.subrange(0, column as int) + line.subrange(len as int, len as int)
                    =~= line.subrange(0, column as int));
            }
            self.buffer.insert(Line::Index(row + 1), rest.as_str());
            proof {
                let line = lines[row as int];
                let cut = lines.update(row as int, line.subrange(0, column as int));
                assert(inserted(cut, row + 1, suffix(line, column as int)) =~= cut.insert(
                    row + 1,
                    suffix(line, column as int),
                ));
            }
        } else if row < count {
            self.buffer.insert(Line::Index(row + 1), "");
            proof {
                reveal_strlit("");
                assert(""@ =~= Seq::<char>::empty());
            }
        } else {
            self.buffer.append("");
            self.buffer.append("");
            proof {
                reveal_strlit("");
                assert(""@ =~= Seq::<char>::empty());
                assert(self.buffer.lines() =~= lines + seq![
                    Seq::<char>::empty(),
                    Seq::<char>::empty(),
                ]);
            }
        }
        // The store now holds a line past `row`, so `row + 1` fits in a `usize`.
        let total = self.buffer.len();
        assert(row + 1 <= total);
        self.buffer.position = (0, row + 1);
        self.rerender(out);
        assert(views(out@) =~= expected);
    }

    /// Draws the whole viewport again and puts the screen cursor back, with
    /// the cursor hidden meanwhile.
    fn rerender(&self, out: &mut Vec<Command>)
        ensures
            views(final(out)@) == views(old(out)@) + seq![
                CommandView::HideCursor,
                CommandView::Clear,
                CommandView::MoveTo(0, 0),
                CommandView::Print(
                    viewable_text(
                        self.buffer.lines(),
                        self.buffer.viewable_rows.start as int,
                        self.buffer.viewable_rows.end as int,
                    ),
                ),
                cursor_to(self.cursor(), self.buffer.viewable_rows),
                CommandView::ShowCursor,
            ],
    {
        emit(out, Command::HideCursor);
        emit(out, Command::Clear);
        emit(out, Command::MoveTo(0, 0));
        emit(out, Command::Print(self.buffer.format_viewable()));
        emit(out, self.cursor_command());
        emit(out, Command::ShowCursor);
        assert(views(out@) =~= views(old(out)@) + seq![
            CommandView::HideCursor,
            CommandView::Clear,
            CommandView::MoveTo(0, 0),
            CommandView::Print(
                viewable_text(
                    self.buffer.lines(),
                    self.buffer.viewable_rows.start as int,
                    self.buffer.viewable_rows.end as int,
                ),
            ),
            cursor_to(self.cursor(), self.buffer.viewable_rows),
            CommandView::ShowCursor,
        ]);
    }

    fn delete_current(&mut self, out: &mut Vec<Command>)
        requires
            old(self).wf(),
        ensures
            final(self).wf(),
            Editor::stepped(
                old(self),
                final(self),
                Action::DeleteCurrent,
                views(old(out)@),
                views(final(out)@),
            ),
    {
        let ghost expected = views(old(out)@) + drawn(
            self.buffer.lines(),
            self.cursor(),
            self.buffer.viewable_rows,
            Action::DeleteCurrent,
        );
        let ghost lines = self.buffer.lines();
        let (column, row) = self.buffer.position;
        self.buffer.line_remove(Line::Index(row), column);
        assert(self.buffer.lines() == removed_at(lines, (column as int, row as int)));
        let mut rest = match self.buffer.get(Line::Index(row)) {
            Some(line) => suffix_of(line.as_str(), column),
            None => String::new(),
        };
        rest.push(' ');
        assert(rest@ =~= suffix(line_or_empty(self.buffer.lines(), row as int), column as int)
            + seq![' ']);
        emit(out, Command::Print(rest));
        let command = self.cursor_command();
        emit(out, command);
        assert(views(out@) =~= expected);
    }

    fn delete_last(&mut self, out: &mut Vec<Command>)
        requires
            old(self).wf(),
        ensures
            final(self).wf(),
            Editor::stepped(
                old(self),
                final(self),
                Action::DeleteLast,
                views(old(out)@),
                views(final(out)@),
            ),
    {
        let ghost expected = views(old(out)@) + drawn(
            self.buffer.lines(),
            self.cursor(),
            self.buffer.viewable_rows,
            Action::DeleteLast,
        );
        let ghost moved_out = views(old(out)@) + left_drawn(
            self.buffer.lines(),
            self.cursor(),
            self.buffer.viewable_rows,
        );
        self.move_left(out);
        assert(views(out@) =~= moved_out);
        self.delete_current(out);
        assert(views(out@) =~= expected);
    }

    /// Executes `action`: applies it to the text, the cursor and the mode,
    /// records it, and returns whether to go on with the commands that draw
    /// the change.
    pub fn execute(&mut self, action: Action) -> (r: (Message, Vec<Command>))
        requires
            old(self).wf(),
        ensures
            final(self).wf(),
            Editor::executed(old(self), final(self), action, r.0, views(r.1@)),
    {
        let mut out: Vec<Command> = Vec::new();
        match action {
            Action::ChangeMode(mode) => {
                self.mode = mode;
            },
            Action::MoveLeft => self.move_left(&mut out),
            Action::MoveRight => self.move_right(&mut out),
            Action::MoveUp => self.move_up(&mut out),
            Action::MoveDown => self.move_down(&mut out),
            Action::MoveTo(column, row) => self.move_to(column, row, &mut out),
            Action::Write(code) => self.write_char(code, &mut out),
            Action::Newline => self.newline(&mut out),
            Action::Tab => self.tab(&mut out),
            Action::DeleteLast => self.delete_last(&mut out),
            Action::DeleteCurrent => self.delete_current(&mut out),
            Action::Exit => {
                assert(views(out@) =~= Seq::empty());
                return (Message::Exit, out);
            },
            Action::Ignore => {
                assert(views(out@) =~= Seq::empty());
                return (Message::Continue, out);
            },
        }
        assert(views(out@) =~= drawn(
            old(self).buffer.lines(),
            old(self).cursor(),
            old(self).buffer.viewable_rows,
            action,
        ));
        self.history.push(HistoryNode { action, position: self.buffer.position });
        (Message::Continue, out)
    }

    /// Moves the cursor to the text cell under a left click.
    pub fn handle_mouse_event(&mut self, event: MouseEvent) -> (r: (Message, Vec<Command>))
        requires
            old(self).wf(),
        ensures
            final(self).wf(),
            Editor::executed(
                old(self),
                final(self),
                old(self).event_action(Event::Mouse(event)),
                r.0,
                views(r.1@),
            ),
    {
        match event.kind {
            MouseEventKind::LeftDown => {
                let column = (event.column as usize).saturating_sub(GUTTER_WIDTH);
                let row = event.row as usize + self.buffer.viewable_rows.start;
                self.execute(Action::MoveTo(column, row))
            },
            MouseEventKind::Other => self.execute(Action::Ignore),
        }
    }

    /// Follows a terminal that now has `width` columns and `height` rows:
    /// the viewport's end moves by the change in rows, never below its start.
    pub fn handle_resize_event(&mut self, width: u16, height: u16) -> (r: (Message, Vec<Command>))
        requires
            old(self).wf(),
        ensures
            final(self).wf(),
            r.0 == Message::Continue,
            r.1@.len() == 0,
            final(self).terminal.size == (width, height),
            final(self).terminal.config == old(self).terminal.config,
            final(self).buffer.viewable_rows.start == old(self).buffer.viewable_rows.start,
            final(self).buffer.viewable_rows.end == resized_end(
                old(self).buffer.viewable_rows.start as int,
                old(self).buffer.viewable_rows.end as int,
                old(self).terminal.size.1 as int,
                height as int,
            ),
            final(self).buffer.lines() == old(self).buffer.lines(),
            final(self).buffer.position == old(self).buffer.position,
            final(self).buffer.entry == old(self).buffer.entry,
            final(self).mode == old(self).mode,
            final(self).history == old(self).history,
    {
        let rows = self.terminal.size.1;
        self.buffer.viewable_rows.resize(rows, height);
        self.terminal.size = (width, height);
        (Message::Continue, Vec::new())
    }

    /// Handles one input event: a key or a mouse event runs its action (see
    /// `event_action`), a resize adjusts the viewport.
    pub fn handle_event(&mut self, event: &Event) -> (r: (Message, Vec<Command>))
        requires
            old(self).wf(),
        ensures
            final(self).wf(),
            !(event is Resize) ==> Editor::executed(
                old(self),
                final(self),
                old(self).event_action(*event),
                r.0,
                views(r.1@),
            ),
            event matches Event::Resize(width, height) ==> r.0 == Message::Continue && r.1@.len()
                == 0 && final(self).terminal.size == (*width, *height)
                && final(self).buffer.viewable_rows.end == resized_end(
                old(self).buffer.viewable_rows.start as int,
                old(self).buffer.viewable_rows.end as int,
                old(self).terminal.size.1 as int,
                *height as int,
            ) && final(self).buffer.viewable_rows.start == old(self).buffer.viewable_rows.start
                && final(self).buffer.lines() == old(self).buffer.lines()
                && final(self).buffer.position == old(self).buffer.position
                && final(self).mode == old(self).mode && final(self).history == old(self).history,
    {
        match *event {
            Event::Key(key) => {
                let action = self.handle_key_event(key);
                self.execute(action)
            },
            Event::Mouse(mouse) => self.handle_mouse_event(mouse),
            Event::Resize(width, height) => self.handle_resize_event(width, height),
        }
    }

    /// The history of executed actions, as shown after a session.
    pub fn format_history(&self) -> (r: String)
        ensures
            r@ == history_text(self.history@),
    {
        let mut r = String::new();
        let mut i: usize = 0;
        while i < self.history.len()
            invariant
                i <= self.history@.len(),
                r@ == history_text(self.history@.take(i as int)),
            decreases self.history@.len() - i,
        {
            let node = self.history[i].describe();
            r.append(node.as_str());
            r.append("\n");
            assert(self.history@.take(i + 1).drop_last() =~= self.history@.take(i as int));
            assert(r@ =~= history_text(self.history@.take(i + 1)));
            i += 1;
        }
        assert(self.history@.take(i as int) =~= self.history@);
        r
    }

    /// The status bar's commands: the bar drawn on the terminal's last row,
    /// then the screen cursor put back where the cursor shows.
    pub open spec fn status_drawn(&self) -> Seq<CommandView> {
        seq![
            CommandView::MoveTo(
                0,
                (if self.terminal.size.1 > 0 {
                    self.terminal.size.1 - 1
                } else {
                    0
                }) as usize,
            ),
            CommandView::Print(
                status_text(
                    self.terminal.size.0 as int,
                    self.mode,
                    self.buffer.entry,
                    self.buffer.position,
                ),
            ),
            cursor_to(self.cursor(), self.buffer.viewable_rows),
        ]
    }

    /// The commands that draw the status bar.
    pub fn draw_status_bar(&self) -> (r: Vec<Command>)
        ensures
            views(r@) == self.status_drawn(),
    {
        let bar = StatusBar::new(
            self.terminal.size,
            self.mode,
            self.buffer.entry.clone(),
            self.buffer.position,
        );
        let rows = self.terminal.size.1 as usize;
        let mut r: Vec<Command> = Vec::new();
        emit(&mut r, Command::MoveTo(0, if rows > 0 { rows - 1 } else { 0 }));
        emit(&mut r, Command::Print(bar.render()));
        emit(&mut r, self.cursor_command());
        assert(views(r@) =~= self.status_drawn());
        r
    }

    /// The commands that prepare the terminal and draw the first screen: the
    /// viewport, the status bar, and the screen cursor at the start of the
    /// text.
    pub fn initialize(&self) -> (r: Vec<Command>)
        ensures
            views(r@) == startup(self.terminal.config, (0usize, 0usize)) + seq![
                CommandView::Print(
                    viewable_text(
                        self.buffer.lines(),
                        self.buffer.viewable_rows.start as int,
                        self.buffer.viewable_rows.end as int,
                    ),
                ),
            ] + self.status_drawn() + seq![CommandView::MoveTo(GUTTER_WIDTH, 0)],
    {
        let mut r = self.terminal.initialize((0, 0));
        emit(&mut r, Command::Print(self.buffer.format_viewable()));
        let mut bar = self.draw_status_bar();
        let ghost before = views(r@);
        r.append(&mut bar);
        assert(views(r@) =~= before + self.status_drawn());
        emit(&mut r, Command::MoveTo(GUTTER_WIDTH, 0));
        r
    }
}

/// Moving left from column zero of a row after the first goes to the end of
/// the previous line (column zero when it has none); at the origin nothing
/// changes.
pub proof fn lemma_move_left_at_line_start(
    before: &Editor,
    after: &Editor,
    message: Message,
    drawn_out: Seq<CommandView>,
)
    requires
        Editor::executed(before, after, Action::MoveLeft, message, drawn_out),
        before.buffer.position.0 == 0,
    ensures
        before.buffer.position.1 > 0 ==> after.cursor() == (
            length_of(before.buffer.lines(), before.cursor().1 - 1),
            before.cursor().1 - 1,
        ),
        before.buffer.position.1 == 0 ==> after.buffer.position == before.buffer.position
            && after.buffer.lines() == before.buffer.lines() && drawn_out.len() == 0,
{
}

/// Moving right from the end of a line goes to column zero of the next row,
/// whether or not a line exists there yet.
pub proof fn lemma_move_right_at_line_end(
    before: &Editor,
    after: &Editor,
    message: Message,
    drawn_out: Seq<CommandView>,
)
    requires
        Editor::executed(before, after, Action::MoveRight, message, drawn_out),
        before.buffer.position.1 < before.buffer.lines().len(),
        before.buffer.position.0 == before.buffer.lines()[before.cursor().1].len(),
    ensures
        after.cursor() == (0int, before.cursor().1 + 1),
        after.buffer.lines() == before.buffer.lines(),
{
}

/// A newline at `(c, r)` on a line of length `L` (with `c <= L`) leaves the
/// first `c` characters on line `r` and moves the other `L - c` to a new
/// line `r + 1`, with the cursor at its start.
pub proof fn lemma_newline_splits_line(
    before: &Editor,
    after: &Editor,
    message: Message,
    drawn_out: Seq<CommandView>,
)
    requires
        before.wf(),
        Editor::executed(before, after, Action::Newline, message, drawn_out),
        before.buffer.position.1 < before.buffer.lines().len(),
        before.buffer.position.0 <= before.buffer.lines()[before.cursor().1].len(),
    ensures
        ({
            let (c, r) = before.cursor();
            let line = before.buffer.lines()[r];
            let lines = after.buffer.lines();
            &&& lines.len() == before.buffer.lines().len() + 1
            &&& lines[r].len() == c
            &&& lines[r] == line.subrange(0, c)
            &&& lines[r + 1].len() == line.len() - c
            &&& lines[r + 1] == line.subrange(c, line.len() as int)
            &&& after.cursor() == (0int, r + 1)
        }),
{
    let (c, r) = before.cursor();
    let lines = before.buffer.lines();
    let line = lines[r];
    if c < line.len() {
        assert(after.buffer.lines() == lines.update(r, line.subrange(0, c)).insert(
            r + 1,
            line.subrange(c, line.len() as int),
        ));
    } else {
        assert(line.subrange(0, c) =~= line);
        assert(line.subrange(c, line.len() as int) =~= Seq::<char>::empty());
        if r + 1 < lines.len() {
            assert(after.buffer.lines() == lines.insert(r + 1, Seq::<char>::empty()));
        } else {
            assert(after.buffer.lines() =~= lines.push(Seq::<char>::empty()));
        }
    }
}

/// From the end of a line that is not past the last, moving right and then
/// left comes back to the same cursor, and the text is unchanged.
pub proof fn lemma_right_then_left_at_line_end(
    start: &Editor,
    middle: &Editor,
    end: &Editor,
    first: (Message, Seq<CommandView>),
    second: (Message, Seq<CommandView>),
)
    requires
        Editor::executed(start, middle, Action::MoveRight, first.0, first.1),
        Editor::executed(middle, end, Action::MoveLeft, second.0, second.1),
        start.buffer.position.1 < start.buffer.lines().len(),
        start.buffer.position.0 == start.buffer.lines()[start.cursor().1].len(),
    ensures
        end.cursor() == start.cursor(),
        end.buffer.lines() == start.buffer.lines(),
{
}

} // verus!
