//! Key events, as the prompt core sees them.
//!
//! The core never reads the terminal itself: a [`crate::Terminal`]
//! implementation translates whatever its backend reports into these plain
//! key codes and modifiers, and hands them to [`crate::Prompt::handle`].

use vstd::prelude::*;

verus! {

/// A key code, reduced to the keys that prompts care about.
///
/// Keys that no built-in prompt interprets may be mapped to [`KeyCode::Null`];
/// every handler leaves the prompt state unchanged for them.
#[derive(Debug, Clone, Copy, PartialEq, Eq)]
pub enum KeyCode {
    Backspace,
    Enter,
    Left,
    Right,
    Up,
    Down,
    Home,
    End,
    PageUp,
    PageDown,
    Tab,
    BackTab,
    Delete,
    Insert,
    Char(char),
    Esc,
    Null,
}

/// The modifier keys held down together with a key press.
///
/// Prompt handlers only ever distinguish "no modifier", "control" and
/// "shift"; a chord of several modifiers is reported as [`KeyModifiers::MIXED`]
/// and matches none of the single-modifier patterns, exactly as a combined
/// modifier set would.
#[allow(non_camel_case_types)]
#[derive(Debug, Clone, Copy, PartialEq, Eq)]
pub enum KeyModifiers {
    NONE,
    SHIFT,
    CONTROL,
    ALT,
    MIXED,
}

} // verus!
