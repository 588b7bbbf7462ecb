//! The built-in prompts.
//!
//! - [`Input`]: general text input.
//! - [`Password`]: text input with the entry masked.
//! - [`Number`]: integer input with range clamping.
//! - [`Select`]: one choice out of a list.
//! - [`MultiSelect`]: any number of choices out of a list.
//! - [`Confirm`]: a yes/no choice.
//!
//! All text-like prompts share one editing key map, stated by [`edited`]:
//! arrows and Emacs-style control keys move the cursor and delete
//! characters, words, the rest of the line, or the whole line.

use vstd::prelude::*;
use crate::cursor::InputCursor;
use crate::cursor::prev_word_start;
use crate::event::KeyCode;
use crate::event::KeyModifiers;

mod confirm;
mod input;
mod multi_select;
mod number;
mod password;
mod select;

pub use confirm::Confirm;
pub use confirm::ConfirmFormatter;
pub use confirm::DefaultConfirmFormatter;
pub use confirm::is_no_move_key;
pub use confirm::is_no_submit_key;
pub use confirm::is_yes_move_key;
pub use confirm::is_yes_submit_key;
pub use input::DefaultInputFormatter;
pub use input::Input;
pub use input::InputFormatter;
pub use multi_select::DefaultMultiSelectFormatter;
pub use multi_select::MultiSelect;
pub use multi_select::MultiSelectFormatter;
pub use multi_select::MultiSelectOption;
pub use multi_select::joined_labels;
pub use multi_select::ms_option_line;
pub use multi_select::ms_option_lines;
pub use multi_select::ms_submittable;
pub use multi_select::selected_count;
pub use multi_select::selected_labels;
pub use multi_select::selected_values;
pub use multi_select::with_selected;
pub use number::DefaultNumberFormatter;
pub use number::Number;
pub use number::NumberFormatter;
pub use number::clamped;
pub use number::num_inserted;
pub use number::num_value;
pub use number::parses_as_isize;
pub use number::starts_with_sign;
pub use number::submittable;
pub use password::DefaultPasswordFormatter;
pub use password::Password;
pub use password::PasswordFormatter;
pub use select::DefaultSelectFormatter;
pub use select::Select;
pub use select::SelectFormatter;
pub use select::SelectOption;
pub use select::option_line;
pub use select::option_lines;

verus! {

/// The key combinations that cancel any prompt.
pub open spec fn is_cancel_key(code: KeyCode, modifiers: KeyModifiers) -> bool {
    code is Esc || (code == KeyCode::Char('c') && modifiers is CONTROL)
}

/// Keys that move the cursor one character left.
pub open spec fn is_left_key(code: KeyCode, modifiers: KeyModifiers) -> bool {
    code is Left || (code == KeyCode::Char('b') && modifiers is CONTROL)
}

/// Keys that move the cursor one character right.
pub open spec fn is_right_key(code: KeyCode, modifiers: KeyModifiers) -> bool {
    code is Right || (code == KeyCode::Char('f') && modifiers is CONTROL)
}

/// Keys that move the cursor to the start of the line.
pub open spec fn is_home_key(code: KeyCode, modifiers: KeyModifiers) -> bool {
    code is Home || (code == KeyCode::Char('a') && modifiers is CONTROL)
}

/// Keys that move the cursor to the end of the line.
pub open spec fn is_end_key(code: KeyCode, modifiers: KeyModifiers) -> bool {
    code is End || (code == KeyCode::Char('e') && modifiers is CONTROL)
}

/// Keys that delete the character left of the cursor.
pub open spec fn is_backspace_key(code: KeyCode, modifiers: KeyModifiers) -> bool {
    code is Backspace || (code == KeyCode::Char('h') && modifiers is CONTROL)
}

/// The key that deletes the word left of the cursor.
pub open spec fn is_delete_word_key(code: KeyCode, modifiers: KeyModifiers) -> bool {
    code == KeyCode::Char('w') && modifiers is CONTROL
}

/// Keys that delete the character under the cursor.
pub open spec fn is_delete_right_key(code: KeyCode, modifiers: KeyModifiers) -> bool {
    code is Delete || (code == KeyCode::Char('d') && modifiers is CONTROL)
}

/// The key that deletes from the cursor to the end of the line.
pub open spec fn is_delete_rest_key(code: KeyCode, modifiers: KeyModifiers) -> bool {
    code == KeyCode::Char('k') && modifiers is CONTROL
}

/// The key that clears the whole line.
pub open spec fn is_delete_line_key(code: KeyCode, modifiers: KeyModifiers) -> bool {
    code == KeyCode::Char('u') && modifiers is CONTROL
}

/// Keys that move the highlight one entry up.
pub open spec fn is_up_key(code: KeyCode, modifiers: KeyModifiers) -> bool {
    code is Up || code == KeyCode::Char('k') || (code == KeyCode::Char('p') && modifiers
        is CONTROL)
}

/// Keys that move the highlight one entry down.
pub open spec fn is_down_key(code: KeyCode, modifiers: KeyModifiers) -> bool {
    code is Down || code == KeyCode::Char('j') || (code == KeyCode::Char('n') && modifiers
        is CONTROL)
}

/// Whether a key belongs to the shared editing key map.
pub open spec fn is_edit_key(code: KeyCode, modifiers: KeyModifiers) -> bool {
    is_left_key(code, modifiers) || is_right_key(code, modifiers) || is_home_key(code, modifiers)
        || is_end_key(code, modifiers) || is_backspace_key(code, modifiers) || is_delete_word_key(
        code,
        modifiers,
    ) || is_delete_right_key(code, modifiers) || is_delete_rest_key(code, modifiers)
        || is_delete_line_key(code, modifiers)
}

/// The text and cursor position after one editing key is applied to a
/// buffer with text `s` and cursor `p`. A key outside the editing map
/// leaves both unchanged.
pub open spec fn edited(s: Seq<char>, p: int, code: KeyCode, modifiers: KeyModifiers) -> (
    Seq<char>,
    int,
) {
    if is_left_key(code, modifiers) {
        (s, if p > 0 { p - 1 } else { 0int })
    } else if is_right_key(code, modifiers) {
        (s, if p < s.len() { p + 1 } else { s.len() as int })
    } else if is_home_key(code, modifiers) {
        (s, 0int)
    } else if is_end_key(code, modifiers) {
        (s, s.len() as int)
    } else if is_backspace_key(code, modifiers) {
        if p > 0 { (s.remove(p - 1), p - 1) } else { (s, 0int) }
    } else if is_delete_word_key(code, modifiers) {
        (s.take(prev_word_start(s, p)) + s.skip(p), prev_word_start(s, p))
    } else if is_delete_right_key(code, modifiers) {
        if p < s.len() { (s.remove(p), p) } else { (s, p) }
    } else if is_delete_rest_key(code, modifiers) {
        (s.take(p), p)
    } else if is_delete_line_key(code, modifiers) {
        (Seq::<char>::empty(), 0int)
    } else {
        (s, p)
    }
}

/// Applies one key of the shared editing map to the cursor; reports
/// whether the key belonged to the map.
pub(crate) fn apply_edit_key(
    input: &mut InputCursor,
    code: KeyCode,
    modifiers: KeyModifiers,
) -> (applied: bool)
    ensures
        applied == is_edit_key(code, modifiers),
        final(input).text() == edited(old(input).text(), old(input).pos(), code, modifiers).0,
        final(input).pos() == edited(old(input).text(), old(input).pos(), code, modifiers).1,
{
    match (code, modifiers) {
        (KeyCode::Left, _) | (KeyCode::Char('b'), KeyModifiers::CONTROL) => {
            input.move_left();
            true
        },
        (KeyCode::Right, _) | (KeyCode::Char('f'), KeyModifiers::CONTROL) => {
            input.move_right();
            true
        },
        (KeyCode::Home, _) | (KeyCode::Char('a'), KeyModifiers::CONTROL) => {
            input.move_home();
            true
        },
        (KeyCode::End, _) | (KeyCode::Char('e'), KeyModifiers::CONTROL) => {
            input.move_end();
            true
        },
        (KeyCode::Backspace, _) | (KeyCode::Char('h'), KeyModifiers::CONTROL) => {
            input.delete_left_char();
            true
        },
        (KeyCode::Char('w'), KeyModifiers::CONTROL) => {
            input.delete_left_word();
            true
        },
        (KeyCode::Delete, _) | (KeyCode::Char('d'), KeyModifiers::CONTROL) => {
            input.delete_right_char();
            true
        },
        (KeyCode::Char('k'), KeyModifiers::CONTROL) => {
            input.delete_rest_line();
            true
        },
        (KeyCode::Char('u'), KeyModifiers::CONTROL) => {
            input.delete_line();
            true
        },
        _ => false,
    }
}

/// The view of an optional message.
pub open spec fn opt_text(o: Option<String>) -> Option<Seq<char>> {
    match o {
        Option::Some(s) => Option::Some(s@),
        Option::None => Option::None,
    }
}

/// A copy of an optional message.
pub(crate) fn clone_opt_string(o: &Option<String>) -> (r: Option<String>)
    ensures
        r == *o,
{
    match o {
        Option::Some(s) => Option::Some(s.clone()),
        Option::None => Option::None,
    }
}

} // verus!
