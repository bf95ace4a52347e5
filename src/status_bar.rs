use crate::editor::Mode;
use crate::text::{decimal, push_decimal, push_spaces, spaces};
use vstd::prelude::*;
use vstd::string::*;

verus! {

/// The name of `mode` as the status bar shows it.
pub open spec fn mode_name(mode: Mode) -> Seq<char> {
    match mode {
        Mode::Insert => "Insert"@,
        Mode::Normal => "Normal"@,
        Mode::Visual => "Visual"@,
    }
}

/// What is being edited, as the status bar shows it.
pub open spec fn entry_name(entry: Option<String>) -> Seq<char> {
    match entry {
        Some(e) => e@,
        None => "[scratch]"@,
    }
}

/// The cursor as the status bar shows it: `column:row`.
pub open spec fn position_text(position: (usize, usize)) -> Seq<char> {
    decimal(position.0 as nat) + seq![':'] + decimal(position.1 as nat)
}

/// The status bar in a terminal `width` columns wide: the mode and the entry
/// on the left, the cursor on the right, with spaces between them so that the
/// bar fills the width when it fits.
pub open spec fn status_text(
    width: int,
    mode: Mode,
    entry: Option<String>,
    position: (usize, usize),
) -> Seq<char> {
    let m = mode_name(mode);
    let e = entry_name(entry);
    let p = position_text(position);
    let used = 1 + m.len() + 4 + e.len() + p.len() + 1;
    let gap = if width > used {
        (width - used) as nat
    } else {
        0
    };
    seq![' '] + m + spaces(4) + e + spaces(gap) + p + seq![' ']
}

/// The line at the bottom of the screen that shows the mode, what is being
/// edited and the cursor.
pub struct StatusBar {
    /// The terminal's size, `(columns, rows)`.
    pub terminal_size: (u16, u16),
    pub mode: Mode,
    pub entry: Option<String>,
    pub position: (usize, usize),
}

impl StatusBar {
    pub fn new(
        terminal_size: (u16, u16),
        mode: Mode,
        entry: Option<String>,
        position: (usize, usize),
    ) -> (r: Self)
        ensures
            r.terminal_size == terminal_size,
            r.mode == mode,
            r.entry == entry,
            r.position == position,
    {
        StatusBar { terminal_size, mode, entry, position }
    }

    /// The bar's text.
    pub fn render(&self) -> (r: String)
        ensures
            r@ == status_text(self.terminal_size.0 as int, self.mode, self.entry, self.position),
    {
        let mut name = String::new();
        match self.mode {
            Mode::Insert => name.append("Insert"),
            Mode::Normal => name.append("Normal"),
            Mode::Visual => name.append("Visual"),
        }
        let mut entry = String::new();
        match &self.entry {
            Some(e) => entry.append(e.as_str()),
            None => entry.append("[scratch]"),
        }
        let mut position = String::new();
        push_decimal(&mut position, self.position.0);
        position.push(':');
        push_decimal(&mut position, self.position.1);
        let used = name.as_str().unicode_len().saturating_add(
            entry.as_str().unicode_len(),
        ).saturating_add(position.as_str().unicode_len()).saturating_add(6);
        let width = self.terminal_size.0 as usize;
        let mut r = String::new();
        r.push(' ');
        r.append(name.as_str());
        push_spaces(&mut r, 4);
        r.append(entry.as_str());
        if width > used {
            push_spaces(&mut r, width - used);
        }
        r.append(position.as_str());
        r.push(' ');
        proof {
            let gap = if self.terminal_size.0 as int > 1 + name@.len() + 4 + entry@.len()
                + position@.len() + 1 {
                (self.terminal_size.0 as int - (1 + name@.len() + 4 + entry@.len()
                    + position@.len() + 1)) as nat
            } else {
                0
            };
            assert(r@ =~= seq![' '] + name@ + spaces(4) + entry@ + spaces(gap) + position@ + seq![
                ' ',
            ]);
        }
        r
    }
}

} // verus!
