//! Text input with the entry masked.

use vstd::prelude::*;
use crate::cursor::InputCursor;
use crate::cursor::blank;
use crate::cursor::string_from_chars;
use crate::error::Error;
use crate::event::KeyCode;
use crate::event::KeyModifiers;
use crate::prompt::Prompt;
use crate::prompt::PromptInput;
use crate::prompt::PromptState;
use crate::prompt::RenderPayload;
use crate::prompt::Validator;
use crate::prompts::apply_edit_key;
use crate::prompts::clone_opt_string;
use crate::prompts::edited;
use crate::prompts::is_cancel_key;
use crate::prompts::is_edit_key;

verus! {

use vstd::string::StringExecFns;

/// Formats the messages a [`Password`] prompt shows.
///
/// Each formatting method has a specification view — a `spec fn` giving
/// the text the method returns — so that prompt contracts can name the
/// message exactly, whatever formatter is installed.
pub trait PasswordFormatter {
    /// The text of the required-field message.
    spec fn err_required_view(&self) -> Seq<char>;

    /// The message shown when a required field is submitted empty.
    fn err_required(&self) -> (r: String)
        ensures
            r@ == self.err_required_view(),
    ;
}

/// The stock formatter for [`Password`].
pub struct DefaultPasswordFormatter;

impl DefaultPasswordFormatter {
    /// Creates the stock formatter.
    pub fn new() -> Self {
        DefaultPasswordFormatter
    }
}

impl PasswordFormatter for DefaultPasswordFormatter {
    open spec fn err_required_view(&self) -> Seq<char> {
        "This field is required."@
    }

    /// The stock message for an empty required field.
    fn err_required(&self) -> (r: String) {
        String::from_str("This field is required.")
    }
}

/// A text input prompt whose entry is never displayed: the rendered view
/// shows one mask character per typed character.
pub struct Password {
    formatter: Box<dyn PasswordFormatter>,
    message: String,
    hint: Option<String>,
    required: bool,
    mask: char,
    validator: Option<Box<dyn Validator<String>>>,
    input: InputCursor,
}

impl Password {
    /// The buffered text.
    pub closed spec fn text(&self) -> Seq<char> {
        self.input.text()
    }

    /// The cursor position within the text.
    pub closed spec fn pos(&self) -> int {
        self.input.pos()
    }

    /// Whether an effectively empty submission is rejected.
    pub closed spec fn is_required(&self) -> bool {
        self.required
    }

    /// The prompt's message.
    pub closed spec fn message_view(&self) -> Seq<char> {
        self.message@
    }

    /// The prompt's hint, if one is set.
    pub closed spec fn hint_view(&self) -> Option<Seq<char>> {
        match self.hint {
            Option::Some(h) => Option::Some(h@),
            Option::None => Option::None,
        }
    }

    /// The character shown in place of each typed character.
    pub closed spec fn mask_spec(&self) -> char {
        self.mask
    }

    /// Whether a validator is installed.
    pub closed spec fn has_validator(&self) -> bool {
        self.validator is Some
    }

    /// The message the installed formatter gives for an empty required
    /// submission.
    pub closed spec fn required_message(&self) -> Seq<char> {
        self.formatter.err_required_view()
    }

    /// Whether two prompts carry the same configuration: message, hint,
    /// required flag and mask.
    pub open spec fn same_config(&self, other: &Password) -> bool {
        self.message_view() == other.message_view() && self.hint_view() == other.hint_view()
            && self.is_required() == other.is_required() && self.mask_spec() == other.mask_spec()
    }

    /// Creates a password prompt with the given message: required, with no
    /// hint, no validator, masked with `*`, and an empty buffer.
    pub fn new(message: &str) -> (r: Self)
        ensures
            r.message_view() == message@,
            r.required_message() == "This field is required."@,
            r.hint_view() is None,
            r.is_required(),
            r.mask_spec() == '*',
            !r.has_validator(),
            r.text() == Seq::<char>::empty(),
            r.pos() == 0,
    {
        Password {
            formatter: Box::new(DefaultPasswordFormatter::new()),
            message: message.to_owned(),
            hint: Option::None,
            required: true,
            mask: '*',
            validator: Option::None,
            input: InputCursor::default(),
        }
    }

    /// Replaces the formatter.
    pub fn with_formatter<F: PasswordFormatter + 'static>(&mut self, formatter: F)
        ensures
            final(self).same_config(old(self)),
            final(self).text() == old(self).text(),
            final(self).pos() == old(self).pos(),
            final(self).has_validator() == old(self).has_validator(),
    {
        self.formatter = Box::new(formatter);
    }

    /// Sets the hint message.
    pub fn with_hint(&mut self, hint: &str)
        ensures
            final(self).hint_view() == Option::Some(hint@),
            final(self).message_view() == old(self).message_view(),
            final(self).is_required() == old(self).is_required(),
            final(self).mask_spec() == old(self).mask_spec(),
            final(self).text() == old(self).text(),
            final(self).pos() == old(self).pos(),
            final(self).has_validator() == old(self).has_validator(),
            final(self).required_message() == old(self).required_message(),
    {
        self.hint = Option::Some(hint.to_owned());
    }

    /// Sets whether an effectively empty submission is rejected.
    pub fn with_required(&mut self, required: bool)
        ensures
            final(self).is_required() == required,
            final(self).message_view() == old(self).message_view(),
            final(self).hint_view() == old(self).hint_view(),
            final(self).mask_spec() == old(self).mask_spec(),
            final(self).text() == old(self).text(),
            final(self).pos() == old(self).pos(),
            final(self).has_validator() == old(self).has_validator(),
            final(self).required_message() == old(self).required_message(),
    {
        self.required = required;
    }

    /// Sets the character shown in place of each typed character.
    pub fn with_mask(&mut self, mask: char)
        ensures
            final(self).mask_spec() == mask,
            final(self).message_view() == old(self).message_view(),
            final(self).hint_view() == old(self).hint_view(),
            final(self).is_required() == old(self).is_required(),
            final(self).text() == old(self).text(),
            final(self).pos() == old(self).pos(),
            final(self).has_validator() == old(self).has_validator(),
            final(self).required_message() == old(self).required_message(),
    {
        self.mask = mask;
    }

    /// Installs a validator run over the text on submission.
    pub fn with_validator<V: Validator<String> + 'static>(&mut self, f: V)
        ensures
            final(self).has_validator(),
            final(self).same_config(old(self)),
            final(self).text() == old(self).text(),
            final(self).pos() == old(self).pos(),
            final(self).required_message() == old(self).required_message(),
    {
        self.validator = Option::Some(Box::new(f));
    }
}

impl Prompt for Password {
    type Output = String;

    open spec fn ready(&self) -> bool {
        true
    }

    fn setup(&mut self) -> (r: Result<(), Error>) {
        Result::Ok(())
    }

    /// Runs the installed validator over the text; accepts when none is
    /// installed. What an installed validator decides is the caller's own
    /// predicate and is not modeled: the session driver handles every
    /// verdict through its exact submission fold.
    fn validate(&self) -> (r: Result<(), String>)
        ensures
            !self.has_validator() ==> r is Ok,
    {
        match &self.validator {
            Option::Some(v) => {
                let value = self.input.value();
                v.validate(&value)
            },
            Option::None => Result::Ok(()),
        }
    }

    /// One key event: cancel keys cancel; Enter submits, or raises a
    /// recoverable error when the field is required and blank; editing
    /// keys edit the buffer; any other character is inserted at the
    /// cursor; everything else is ignored.
    fn handle(&mut self, code: KeyCode, modifiers: KeyModifiers) -> (state: PromptState)
        ensures
            final(self).same_config(old(self)),
            final(self).has_validator() == old(self).has_validator(),
            final(self).required_message() == old(self).required_message(),
            is_cancel_key(code, modifiers) ==> state is Cancel && final(self).text() == old(self).text() && final(self).pos() == old(self).pos(),
            !is_cancel_key(code, modifiers) && code is Enter ==> final(self).text() == old(self).text() && final(self).pos() == old(self).pos() && (if blank(old(self).text()) && old(self).is_required() {
                state matches PromptState::Error(m) && m@ == old(self).required_message()
            } else {
                state is Submit
            }),
            !is_cancel_key(code, modifiers) && !(code is Enter) && is_edit_key(code, modifiers)
                ==> state is Active && final(self).text() == edited(
                old(self).text(),
                old(self).pos(),
                code,
                modifiers,
            ).0 && final(self).pos() == edited(
                old(self).text(),
                old(self).pos(),
                code,
                modifiers,
            ).1,
            !is_cancel_key(code, modifiers) && !(code is Enter) && !is_edit_key(code, modifiers)
                ==> state is Active,
            !is_cancel_key(code, modifiers) && !(code is Enter) && !is_edit_key(code, modifiers)
                ==> (code matches KeyCode::Char(ch) ==> final(self).text() == old(self).text().insert(old(self).pos(), ch) && final(self).pos() == old(self).pos() + 1),
            !is_cancel_key(code, modifiers) && !(code is Enter) && !is_edit_key(code, modifiers)
                && !(code is Char) ==> final(self).text() == old(self).text() && final(self).pos()
                == old(self).pos(),
    {
        if let KeyCode::Esc = code {
            return PromptState::Cancel;
        }
        if let (KeyCode::Char('c'), KeyModifiers::CONTROL) = (code, modifiers) {
            return PromptState::Cancel;
        }
        if let KeyCode::Enter = code {
            if self.input.is_empty() && self.required {
                return PromptState::Error(self.formatter.err_required());
            } else {
                return PromptState::Submit;
            }
        }
        if apply_edit_key(&mut self.input, code, modifiers) {
            return PromptState::Active;
        }
        if let KeyCode::Char(ch) = code {
            self.input.insert(ch);
        }
        PromptState::Active
    }

    /// The submitted value: the buffered text, unmasked.
    fn submit(&mut self) -> (r: Self::Output)
        ensures
            r@ == old(self).text(),
            final(self).text() == old(self).text(),
    {
        self.input.value()
    }

    /// Shows a cursor over a masked copy of the text: one mask character
    /// per typed character, with the cursor in the same position.
    fn render(&mut self, state: &PromptState) -> (r: Result<RenderPayload, String>)
        ensures
            r is Ok,
            r matches Ok(p) ==> p.message@ == final(self).message_view() && p.body is Empty,
            r matches Ok(p) ==> (p.input matches PromptInput::Cursor(c) && c.text().len() == final(self).text().len() && c.pos() == final(self).pos() && (forall|i: int|
                0 <= i < c.text().len() ==> c.text()[i] == final(self).mask_spec())),
            final(self).same_config(old(self)),
            final(self).text() == old(self).text(),
            final(self).pos() == old(self).pos(),
    {
        let n = self.input.len_chars();
        let mut masked: Vec<char> = Vec::new();
        let mut i: usize = 0;
        while i < n
            invariant
                i <= n,
                masked@.len() == i,
                forall|j: int| 0 <= j < i ==> masked@[j] == self.mask,
            decreases n - i,
        {
            masked.push(self.mask);
            i = i + 1;
        }
        let cursor = InputCursor::new(string_from_chars(&masked), self.input.cursor());
        let payload = RenderPayload::new(
            self.message.clone(),
            clone_opt_string(&self.hint),
            Option::None,
        );
        Result::Ok(payload.input(PromptInput::Cursor(cursor)))
    }
}

} // verus!
