//! The terminal capability that the session driver consumes.
//!
//! The core never touches a concrete terminal: anything that can read keys
//! and carry out a handful of screen operations can host a prompt session,
//! including an in-memory fake that replays a scripted key sequence.

use vstd::prelude::*;
use crate::error::Error;
use crate::event::KeyCode;
use crate::event::KeyModifiers;

verus! {

/// A terminal size, in character cells.
#[derive(Debug)]
pub struct TermSize {
    /// The width of the terminal.
    pub width: u16,
    /// The height of the terminal.
    pub height: u16,
}

impl TermSize {
    /// Creates a new [`TermSize`].
    pub fn new(width: u16, height: u16) -> (r: Self)
        ensures
            r.width == width,
            r.height == height,
    {
        TermSize { width, height }
    }
}

/// A cursor position on the screen.
#[derive(Debug)]
pub struct CursorPosition {
    /// The column of the cursor.
    pub col: u16,
    /// The row of the cursor.
    pub row: u16,
}

impl CursorPosition {
    /// Creates a new [`CursorPosition`].
    pub fn new(col: u16, row: u16) -> (r: Self)
        ensures
            r.col == col,
            r.row == row,
    {
        CursorPosition { col, row }
    }
}

/// A terminal, as the prompt session sees one.
///
/// Implementations do the actual input and output; the session driver only
/// ever calls these operations. Nothing is assumed about their effects.
///
/// The driver switches raw input on in [`crate::Promptuity::begin`] and
/// off in [`crate::Promptuity::finish`]; an implementation that can be
/// dropped mid-session should disable raw input in its own teardown as a
/// safety net, since the driver cannot reach a terminal it no longer
/// holds.
pub trait Terminal {
    /// Returns the terminal size.
    fn size(&self) -> Result<TermSize, Error>;

    /// Switches the terminal to per-key (raw) input.
    fn enable_raw(&mut self) -> Result<(), Error>;

    /// Switches the terminal back to line-buffered input.
    fn disable_raw(&mut self) -> Result<(), Error>;

    /// Shows the cursor.
    fn cursor_show(&mut self) -> Result<(), Error>;

    /// Hides the cursor.
    fn cursor_hide(&mut self) -> Result<(), Error>;

    /// Returns the cursor position.
    fn cursor_pos(&self) -> Result<CursorPosition, Error>;

    /// Moves the cursor to the given position.
    fn move_to(&mut self, col: u16, row: u16) -> Result<(), Error>;

    /// Moves the cursor to the given column.
    fn move_column(&mut self, to: u16) -> Result<(), Error>;

    /// Moves the cursor down by the given number of lines, to column zero.
    fn move_next_line(&mut self, to: u16) -> Result<(), Error>;

    /// Moves the cursor up by the given number of lines, to column zero.
    fn move_previous_line(&mut self, to: u16) -> Result<(), Error>;

    /// Scrolls the terminal up.
    fn scroll_up(&mut self, row: u16) -> Result<(), Error>;

    /// Scrolls the terminal down.
    fn scroll_down(&mut self, row: u16) -> Result<(), Error>;

    /// Clears the whole screen.
    fn clear(&mut self) -> Result<(), Error>;

    /// Clears the scrollback buffer.
    fn clear_purge(&mut self) -> Result<(), Error>;

    /// Clears the current line.
    fn clear_current_line(&mut self) -> Result<(), Error>;

    /// Clears the screen from the cursor position upwards.
    fn clear_cursor_up(&mut self) -> Result<(), Error>;

    /// Clears the screen from the cursor position downwards.
    fn clear_cursor_down(&mut self) -> Result<(), Error>;

    /// Writes text at the cursor position.
    fn write(&mut self, value: &str) -> Result<(), Error>;

    /// Writes text and moves to the start of the next line.
    fn writeln(&mut self, value: &str) -> Result<(), Error>;

    /// Flushes any queued output.
    fn flush(&mut self) -> Result<(), Error>;

    /// Blocks until a key is pressed and returns it.
    fn read_key(&mut self) -> Result<(KeyCode, KeyModifiers), Error>;
}

} // verus!
