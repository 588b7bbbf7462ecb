//! An interactive command-line prompt engine.
//!
//! The crate drives a sequence of input prompts — text entry, numeric
//! entry, single and multiple choice, yes/no — against an abstract
//! terminal, turning key events into validated values. Each prompt is a
//! state machine: keys move an editing cursor or a selection, and a submit
//! key either yields the prompt's value or a recoverable error.
//!
//! The three load-bearing pieces are the text-cursor editing model
//! ([`InputCursor`]), the windowed pagination for long option lists
//! ([`pagination`]), and the session driver ([`Promptuity`]) that
//! sequences setup, key handling, validation and rendering for any
//! [`Prompt`]. Terminal I/O and visual styling stay behind the
//! [`Terminal`] and [`Theme`] capabilities, which callers implement.

pub mod event;
pub mod pagination;
pub mod prompts;

mod cursor;
mod decimal;
mod error;
mod prompt;
mod term;
mod theme;

pub use cursor::InputCursor;
pub use cursor::blank;
pub use cursor::char_width_of;
pub use cursor::col_of;
pub use cursor::col_sum;
pub use cursor::is_space;
pub use cursor::lemma_col_insert_wide;
pub use cursor::lemma_col_single_column;
pub use cursor::lemma_insert_delete_left_roundtrip;
pub use cursor::lemma_prev_word_start_range;
pub use cursor::prev_word_start;
pub use cursor::skip_spaces_back;
pub use cursor::skip_word_back;
pub use decimal::all_digits;
pub use decimal::dec_digits;
pub use decimal::dec_val;
pub use decimal::digit_char;
pub use decimal::digit_val;
pub use decimal::int_dec_str;
pub use decimal::is_digit;
pub use decimal::isize_to_string;
pub use decimal::parse_isize;
pub use decimal::parsed_int;
pub use decimal::usize_to_string;
pub use error::Error;
pub use prompt::Prompt;
pub use prompt::PromptBody;
pub use prompt::PromptInput;
pub use prompt::PromptState;
pub use prompt::Promptuity;
pub use prompt::RenderPayload;
pub use prompt::Validator;
pub use term::CursorPosition;
pub use term::TermSize;
pub use term::Terminal;
pub use theme::RenderSnapshot;
pub use theme::Theme;
