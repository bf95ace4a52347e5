use vstd::prelude::*;

verus! {

/// A terminal color.
#[derive(Debug, Clone, Copy, PartialEq, Eq, Structural)]
pub enum ColorConfig {
    Reset,
    Black,
    DarkGrey,
    Red,
    DarkRed,
    Green,
    DarkGreen,
    Yellow,
    DarkYellow,
    Blue,
    DarkBlue,
    Magenta,
    DarkMagenta,
    Cyan,
    DarkCyan,
    White,
    Rgb { r: u8, g: u8, b: u8 },
    AnsiValue(u8),
}

/// The colors set when the terminal is prepared; none leaves one as it is.
#[derive(Debug, Clone, Copy, PartialEq, Eq, Structural)]
pub struct ThemeConfig {
    pub foreground_color: Option<ColorConfig>,
    pub background_color: Option<ColorConfig>,
    pub underline_color: Option<ColorConfig>,
}

impl ThemeConfig {
    pub fn new(
        foreground_color: Option<ColorConfig>,
        background_color: Option<ColorConfig>,
        underline_color: Option<ColorConfig>,
    ) -> (r: Self)
        ensures
            r.foreground_color == foreground_color,
            r.background_color == background_color,
            r.underline_color == underline_color,
    {
        ThemeConfig { foreground_color, background_color, underline_color }
    }
}

/// How the terminal is prepared for editing.
#[derive(Debug, Clone, Copy, PartialEq, Eq, Structural)]
pub struct Config {
    pub theme: ThemeConfig,
    pub alternate_screen: bool,
    pub line_wrapping: bool,
    pub mouse_capture: bool,
}

impl Config {
    pub fn new(
        theme: ThemeConfig,
        alternate_screen: bool,
        line_wrapping: bool,
        mouse_capture: bool,
    ) -> (r: Self)
        ensures
            r.theme == theme,
            r.alternate_screen == alternate_screen,
            r.line_wrapping == line_wrapping,
            r.mouse_capture == mouse_capture,
    {
        Config { theme, alternate_screen, line_wrapping, mouse_capture }
    }
}

} // verus!
