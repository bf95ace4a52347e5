use crate::config::{ColorConfig, Config};
use vstd::prelude::*;

verus! {

/// A move of the screen cursor, by cells or to a cell `(column, row)`.
#[derive(Debug, Clone, Copy, PartialEq, Eq, Structural)]
pub enum Move {
    Left(u16),
    Right(u16),
    Up(u16),
    Down(u16),
    NextLine(u16),
    PreviousLine(u16),
    To(u16, u16),
}

/// One primitive operation of the terminal.
#[derive(Debug, Clone, PartialEq, Eq)]
pub enum Command {
    /// Writes text at the screen cursor, which advances past it.
    Print(String),
    /// Moves the screen cursor to `(column, row)`.
    MoveTo(usize, usize),
    /// Moves the screen cursor relative to where it is.
    Move(Move),
    /// Clears the whole screen.
    Clear,
    HideCursor,
    ShowCursor,
    EnableRawMode,
    DisableRawMode,
    EnterAlternateScreen,
    LeaveAlternateScreen,
    EnableLineWrap,
    DisableLineWrap,
    EnableMouseCapture,
    DisableMouseCapture,
    SetForegroundColor(ColorConfig),
    SetBackgroundColor(ColorConfig),
    SetUnderlineColor(ColorConfig),
}

/// A `Command` with its text seen as characters.
pub enum CommandView {
    Print(Seq<char>),
    MoveTo(usize, usize),
    Move(Move),
    Clear,
    HideCursor,
    ShowCursor,
    EnableRawMode,
    DisableRawMode,
    EnterAlternateScreen,
    LeaveAlternateScreen,
    EnableLineWrap,
    DisableLineWrap,
    EnableMouseCapture,
    DisableMouseCapture,
    SetForegroundColor(ColorConfig),
    SetBackgroundColor(ColorConfig),
    SetUnderlineColor(ColorConfig),
}

impl View for Command {
    type V = CommandView;

    open spec fn view(&self) -> CommandView {
        match self {
            Command::Print(s) => CommandView::Print(s@),
            Command::MoveTo(c, r) => CommandView::MoveTo(*c, *r),
            Command::Move(m) => CommandView::Move(*m),
            Command::Clear => CommandView::Clear,
            Command::HideCursor => CommandView::HideCursor,
            Command::ShowCursor => CommandView::ShowCursor,
            Command::EnableRawMode => CommandView::EnableRawMode,
            Command::DisableRawMode => CommandView::DisableRawMode,
            Command::EnterAlternateScreen => CommandView::EnterAlternateScreen,
            Command::LeaveAlternateScreen => CommandView::LeaveAlternateScreen,
            Command::EnableLineWrap => CommandView::EnableLineWrap,
            Command::DisableLineWrap => CommandView::DisableLineWrap,
            Command::EnableMouseCapture => CommandView::EnableMouseCapture,
            Command::DisableMouseCapture => CommandView::DisableMouseCapture,
            Command::SetForegroundColor(c) => CommandView::SetForegroundColor(*c),
            Command::SetBackgroundColor(c) => CommandView::SetBackgroundColor(*c),
            Command::SetUnderlineColor(c) => CommandView::SetUnderlineColor(*c),
        }
    }
}

/// The commands seen as characters.
pub open spec fn views(commands: Seq<Command>) -> Seq<CommandView> {
    commands.map_values(|c: Command| c@)
}

/// `command` when `present`, else nothing.
pub open spec fn when(present: bool, command: CommandView) -> Seq<CommandView> {
    if present {
        seq![command]
    } else {
        Seq::empty()
    }
}

/// Which color a color command sets.
#[derive(Debug, Clone, Copy, PartialEq, Eq, Structural)]
pub enum ColorTarget {
    Foreground,
    Background,
    Underline,
}

/// The command that sets the `target` color to `color`.
pub open spec fn color_view(target: ColorTarget, color: ColorConfig) -> CommandView {
    match target {
        ColorTarget::Foreground => CommandView::SetForegroundColor(color),
        ColorTarget::Background => CommandView::SetBackgroundColor(color),
        ColorTarget::Underline => CommandView::SetUnderlineColor(color),
    }
}

/// A color command when a color is configured.
pub open spec fn color_command(color: Option<ColorConfig>, target: ColorTarget) -> Seq<
    CommandView,
> {
    match color {
        Some(c) => seq![color_view(target, c)],
        None => Seq::empty(),
    }
}

/// The commands that prepare a terminal under `config` and put the screen
/// cursor at `start`: raw mode; the alternate screen, or else a cleared
/// screen; line wrapping and mouse capture when configured; then the
/// configured colors.
pub open spec fn startup(config: Config, start: (usize, usize)) -> Seq<CommandView> {
    let screen = if config.alternate_screen {
        CommandView::EnterAlternateScreen
    } else {
        CommandView::Clear
    };
    seq![CommandView::EnableRawMode, screen] + when(config.line_wrapping, CommandView::EnableLineWrap)
        + when(config.mouse_capture, CommandView::EnableMouseCapture) + color_command(
        config.theme.foreground_color,
        ColorTarget::Foreground,
    ) + color_command(config.theme.background_color, ColorTarget::Background) + color_command(
        config.theme.underline_color,
        ColorTarget::Underline,
    ) + seq![CommandView::MoveTo(start.0, start.1)]
}

/// The commands that undo what `startup` set up, raw mode last.
pub open spec fn shutdown(config: Config) -> Seq<CommandView> {
    when(config.alternate_screen, CommandView::LeaveAlternateScreen) + when(
        config.line_wrapping,
        CommandView::DisableLineWrap,
    ) + when(config.mouse_capture, CommandView::DisableMouseCapture) + seq![
        CommandView::DisableRawMode,
    ]
}

/// Appends `command` to `commands`.
pub fn emit(commands: &mut Vec<Command>, command: Command)
    ensures
        views(final(commands)@) == views(old(commands)@).push(command@),
{
    commands.push(command);
    assert(views(commands@) =~= views(old(commands)@).push(command@));
}

/// Appends `command` to `commands` when `present`.
pub fn push_when(commands: &mut Vec<Command>, present: bool, command: Command)
    ensures
        views(final(commands)@) == views(old(commands)@) + when(present, command@),
{
    if present {
        emit(commands, command);
    }
    assert(views(commands@) =~= views(old(commands)@) + when(present, command@));
}

/// Appends the command that sets the `target` color, when `color` is
/// configured.
pub fn push_color(commands: &mut Vec<Command>, color: Option<ColorConfig>, target: ColorTarget)
    ensures
        views(final(commands)@) == views(old(commands)@) + color_command(color, target),
{
    if let Some(c) = color {
        let command = match target {
            ColorTarget::Foreground => Command::SetForegroundColor(c),
            ColorTarget::Background => Command::SetBackgroundColor(c),
            ColorTarget::Underline => Command::SetUnderlineColor(c),
        };
        emit(commands, command);
    }
    assert(views(commands@) =~= views(old(commands)@) + color_command(color, target));
}

/// The terminal as the editor plans for it: how it is configured and its
/// size, `(columns, rows)`.
#[derive(Debug, Clone, Copy)]
pub struct Terminal {
    pub config: Config,
    pub size: (u16, u16),
}

impl Terminal {
    pub fn new(config: Config, size: (u16, u16)) -> (r: Self)
        ensures
            r.config == config,
            r.size == size,
    {
        Terminal { config, size }
    }

    /// The commands that prepare the terminal for editing, ending with the
    /// screen cursor at `start_position`.
    pub fn initialize(&self, start_position: (usize, usize)) -> (r: Vec<Command>)
        ensures
            views(r@) == startup(self.config, start_position),
    {
        let config = self.config;
        let mut r: Vec<Command> = Vec::new();
        emit(&mut r, Command::EnableRawMode);
        if config.alternate_screen {
            emit(&mut r, Command::EnterAlternateScreen);
        } else {
            emit(&mut r, Command::Clear);
        }
        push_when(&mut r, config.line_wrapping, Command::EnableLineWrap);
        push_when(&mut r, config.mouse_capture, Command::EnableMouseCapture);
        push_color(&mut r, config.theme.foreground_color, ColorTarget::Foreground);
        push_color(&mut r, config.theme.background_color, ColorTarget::Background);
        push_color(&mut r, config.theme.underline_color, ColorTarget::Underline);
        emit(&mut r, Command::MoveTo(start_position.0, start_position.1));
        assert(views(r@) =~= startup(self.config, start_position));
        r
    }

    /// The commands that give the terminal back as it was before
    /// `initialize`.
    pub fn restore(&self) -> (r: Vec<Command>)
        ensures
            views(r@) == shutdown(self.config),
    {
        let mut r: Vec<Command> = Vec::new();
        push_when(&mut r, self.config.alternate_screen, Command::LeaveAlternateScreen);
        push_when(&mut r, self.config.line_wrapping, Command::DisableLineWrap);
        push_when(&mut r, self.config.mouse_capture, Command::DisableMouseCapture);
        emit(&mut r, Command::DisableRawMode);
        assert(views(r@) =~= shutdown(self.config));
        r
    }

    /// The command that moves the screen cursor by `move_`.
    pub fn cursor_move(&self, move_: Move) -> (r: Command)
        ensures
            r@ == CommandView::Move(move_),
    {
        Command::Move(move_)
    }

    /// The command that moves the screen cursor to `(column, row)`.
    pub fn cursor_move_to(&self, position: (usize, usize)) -> (r: Command)
        ensures
            r@ == CommandView::MoveTo(position.0, position.1),
    {
        Command::MoveTo(position.0, position.1)
    }
}

} // verus!
