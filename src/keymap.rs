use vstd::prelude::*;

verus! {

/// A key as the editor distinguishes keys.
#[derive(Debug, Clone, Copy, PartialEq, Eq, Structural)]
pub enum KeyCode {
    Char(char),
    Left,
    Right,
    Up,
    Down,
    Backspace,
    Enter,
    Tab,
    Esc,
    /// Any key that the editor gives no meaning.
    Other,
}

/// The modifier keys held with a key: none (`Plain`), Shift alone, Control
/// alone, or any other combination.
#[derive(Debug, Clone, Copy, PartialEq, Eq, Structural)]
pub enum KeyModifiers {
    Plain,
    Shift,
    Control,
    Other,
}

/// A key press.
#[derive(Debug, Clone, Copy, PartialEq, Eq, Structural)]
pub struct KeyEvent {
    pub code: KeyCode,
    pub modifiers: KeyModifiers,
}

/// What a mouse did.
#[derive(Debug, Clone, Copy, PartialEq, Eq, Structural)]
pub enum MouseEventKind {
    /// The left button went down.
    LeftDown,
    /// Anything else: other buttons, release, drag, movement, scrolling.
    Other,
}

/// A mouse action at a screen cell.
#[derive(Debug, Clone, Copy, PartialEq, Eq, Structural)]
pub struct MouseEvent {
    pub kind: MouseEventKind,
    pub column: u16,
    pub row: u16,
}

/// An input event from the terminal.
#[derive(Debug, Clone, Copy, PartialEq, Eq, Structural)]
pub enum Event {
    Key(KeyEvent),
    Mouse(MouseEvent),
    /// The terminal's new size, `(columns, rows)`.
    Resize(u16, u16),
}

/// Whether `c` is a character that typing it writes: the printable ASCII
/// characters but for the backslash and the vertical bar.
pub open spec fn is_typed(c: char) -> bool {
    ' ' <= c <= '~' && c != '\\' && c != '|'
}

/// The character that key `code` writes, if any.
pub open spec fn char_of(code: KeyCode) -> Option<char> {
    match code {
        KeyCode::Char(c) => if is_typed(c) {
            Some(c)
        } else {
            None
        },
        KeyCode::Tab => Some('\t'),
        _ => None,
    }
}

/// The character that key `code` writes, if any.
pub fn char_for(code: KeyCode) -> (r: Option<char>)
    ensures
        r == char_of(code),
{
    match code {
        KeyCode::Char(c) => if ' ' <= c && c <= '~' && c != '\\' && c != '|' {
            Some(c)
        } else {
            None
        },
        KeyCode::Tab => Some('\t'),
        _ => None,
    }
}

} // verus!
