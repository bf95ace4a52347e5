//! A modal terminal text editor core: a line store, a cursor and viewport
//! model, and the mode-gated action dispatcher that keeps them in agreement
//! with what is drawn on screen.

pub mod config;
pub mod editor;
pub mod error;
pub mod frame_buffer;
pub mod keymap;
pub mod span;
pub mod status_bar;
pub mod terminal;
pub mod text;
pub mod text_buffer;

pub use config::{ColorConfig, Config, ThemeConfig};
pub use editor::{Action, Editor, HistoryNode, Message, Mode};
pub use frame_buffer::{FrameBuffer, Line, GUTTER_WIDTH};
pub use keymap::{Event, KeyCode, KeyEvent, KeyModifiers, MouseEvent, MouseEventKind};
pub use span::Span;
pub use status_bar::StatusBar;
pub use terminal::{Command, Move, Terminal};
pub use text_buffer::TextBuffer;
