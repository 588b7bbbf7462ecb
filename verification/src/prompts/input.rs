//! General text input.

use vstd::prelude::*;
use crate::cursor::InputCursor;
use crate::cursor::blank;
use crate::error::Error;
use crate::event::KeyCode;
use crate::event::KeyModifiers;
use crate::prompt::Prompt;
use crate::prompt::PromptInput;
use crate::prompt::PromptState;
use crate::prompt::RenderPayload;
use crate::prompt::Validator;
use crate::prompts::apply_edit_key;
use crate::prompts::clone_opt_string;
use crate::prompts::edited;
use crate::prompts::is_cancel_key;
use crate::prompts::is_edit_key;

verus! {

use vstd::string::StringExecFns;

/// Formats the messages an [`Input`] prompt shows.
///
/// Each formatting method has a specification view — a `spec fn` giving
/// the text the method returns — so that prompt contracts can name the
/// message exactly, whatever formatter is installed.
pub trait InputFormatter {
    /// The text of the required-field message.
    spec fn err_required_view(&self) -> Seq<char>;

    /// The message shown when a required field is submitted empty.
    fn err_required(&self) -> (r: String)
        ensures
            r@ == self.err_required_view(),
    ;
}

/// The stock formatter for [`Input`].
pub struct DefaultInputFormatter;

impl DefaultInputFormatter {
    /// Creates the stock formatter.
    pub fn new() -> Self {
        DefaultInputFormatter
    }
}

impl InputFormatter for DefaultInputFormatter {
    open spec fn err_required_view(&self) -> Seq<char> {
        "This field is required."@
    }

    /// The stock message for an empty required field.
    fn err_required(&self) -> (r: String) {
        String::from_str("This field is required.")
    }
}

/// A prompt for general text input.
///
/// Keys edit the buffered text through the shared editing key map; Enter
/// submits, unless the field is required and holds only white space, in
/// which case a recoverable error is raised instead.
pub struct Input {
    formatter: Box<dyn InputFormatter>,
    message: String,
    hint: Option<String>,
    placeholder: Option<String>,
    required: bool,
    validator: Option<Box<dyn Validator<String>>>,
    input: InputCursor,
}

impl Input {
    /// The buffered text.
    pub closed spec fn text(&self) -> Seq<char> {
        self.input.text()
    }

    /// The cursor position within the text.
    pub closed spec fn pos(&self) -> int {
        self.input.pos()
    }

    /// Whether an effectively empty submission is rejected.
    pub closed spec fn is_required(&self) -> bool {
        self.required
    }

    /// The prompt's message.
    pub closed spec fn message_view(&self) -> Seq<char> {
        self.message@
    }

    /// The prompt's hint, if one is set.
    pub closed spec fn hint_view(&self) -> Option<Seq<char>> {
        match self.hint {
            Option::Some(h) => Option::Some(h@),
            Option::None => Option::None,
        }
    }

    /// The prompt's placeholder, if one is set.
    pub closed spec fn placeholder_view(&self) -> Option<Seq<char>> {
        match self.placeholder {
            Option::Some(p) => Option::Some(p@),
            Option::None => Option::None,
        }
    }

    /// Whether a validator is installed.
    pub closed spec fn has_validator(&self) -> bool {
        self.validator is Some
    }

    /// The message the installed formatter gives for an empty required
    /// submission.
    pub closed spec fn required_message(&self) -> Seq<char> {
        self.formatter.err_required_view()
    }

    /// Whether two prompts carry the same configuration: message, hint,
    /// placeholder and required flag.
    pub open spec fn same_config(&self, other: &Input) -> bool {
        self.message_view() == other.message_view() && self.hint_view() == other.hint_view()
            && self.placeholder_view() == other.placeholder_view() && self.is_required()
            == other.is_required()
    }

    /// Creates a text prompt with the given message: required, with no
    /// hint, no placeholder, no validator, an empty buffer, and the stock
    /// formatter, whose required-field message is fixed.
    pub fn new(message: &str) -> (r: Self)
        ensures
            r.message_view() == message@,
            r.required_message() == "This field is required."@,
            r.hint_view() is None,
            r.placeholder_view() is None,
            r.is_required(),
            !r.has_validator(),
            r.text() == Seq::<char>::empty(),
            r.pos() == 0,
    {
        Input {
            formatter: Box::new(DefaultInputFormatter::new()),
            message: message.to_owned(),
            hint: Option::None,
            placeholder: Option::None,
            required: true,
            validator: Option::None,
            input: InputCursor::default(),
        }
    }

    /// Replaces the formatter.
    pub fn with_formatter<F: InputFormatter + 'static>(&mut self, formatter: F)
        ensures
            final(self).same_config(old(self)),
            final(self).text() == old(self).text(),
            final(self).pos() == old(self).pos(),
            final(self).has_validator() == old(self).has_validator(),
    {
        self.formatter = Box::new(formatter);
    }

    /// Sets the hint message.
    pub fn with_hint(&mut self, hint: &str)
        ensures
            final(self).hint_view() == Option::Some(hint@),
            final(self).message_view() == old(self).message_view(),
            final(self).placeholder_view() == old(self).placeholder_view(),
            final(self).is_required() == old(self).is_required(),
            final(self).text() == old(self).text(),
            final(self).pos() == old(self).pos(),
            final(self).has_validator() == old(self).has_validator(),
            final(self).required_message() == old(self).required_message(),
    {
        self.hint = Option::Some(hint.to_owned());
    }

    /// Sets the placeholder message.
    pub fn with_placeholder(&mut self, placeholder: &str)
        ensures
            final(self).placeholder_view() == Option::Some(placeholder@),
            final(self).message_view() == old(self).message_view(),
            final(self).hint_view() == old(self).hint_view(),
            final(self).is_required() == old(self).is_required(),
            final(self).text() == old(self).text(),
            final(self).pos() == old(self).pos(),
            final(self).has_validator() == old(self).has_validator(),
            final(self).required_message() == old(self).required_message(),
    {
        self.placeholder = Option::Some(placeholder.to_owned());
    }

    /// Sets whether an effectively empty submission is rejected.
    pub fn with_required(&mut self, required: bool)
        ensures
            final(self).is_required() == required,
            final(self).message_view() == old(self).message_view(),
            final(self).hint_view() == old(self).hint_view(),
            final(self).placeholder_view() == old(self).placeholder_view(),
            final(self).text() == old(self).text(),
            final(self).pos() == old(self).pos(),
            final(self).has_validator() == old(self).has_validator(),
            final(self).required_message() == old(self).required_message(),
    {
        self.required = required;
    }

    /// Sets the initial text; the cursor starts at its end.
    pub fn with_default(&mut self, value: &str)
        ensures
            final(self).text() == value@,
            final(self).pos() == value@.len(),
            final(self).same_config(old(self)),
            final(self).has_validator() == old(self).has_validator(),
            final(self).required_message() == old(self).required_message(),
    {
        self.input = InputCursor::from(value.to_owned());
    }

    /// Installs a validator run over the text on submission.
    pub fn with_validator<V: Validator<String> + 'static>(&mut self, f: V)
        ensures
            final(self).has_validator(),
            final(self).same_config(old(self)),
            final(self).text() == old(self).text(),
            final(self).pos() == old(self).pos(),
            final(self).required_message() == old(self).required_message(),
    {
        self.validator = Option::Some(Box::new(f));
    }
}

impl Prompt for Input {
    type Output = String;

    open spec fn ready(&self) -> bool {
        true
    }

    fn setup(&mut self) -> (r: Result<(), Error>) {
        Result::Ok(())
    }

    /// Runs the installed validator over the text; accepts when none is
    /// installed. What an installed validator decides is the caller's own
    /// predicate and is not modeled: the session driver handles every
    /// verdict through its exact submission fold.
    fn validate(&self) -> (r: Result<(), String>)
        ensures
            !self.has_validator() ==> r is Ok,
    {
        match &self.validator {
            Option::Some(v) => {
                let value = self.input.value();
                v.validate(&value)
            },
            Option::None => Result::Ok(()),
        }
    }

    /// One key event: cancel keys cancel; Enter submits, or raises a
    /// recoverable error when the field is required and blank; editing
    /// keys edit the buffer; any other character is inserted at the
    /// cursor; everything else is ignored.
    fn handle(&mut self, code: KeyCode, modifiers: KeyModifiers) -> (state: PromptState)
        ensures
            final(self).same_config(old(self)),
            final(self).has_validator() == old(self).has_validator(),
            final(self).required_message() == old(self).required_message(),
            is_cancel_key(code, modifiers) ==> state is Cancel && final(self).text() == old(self).text() && final(self).pos() == old(self).pos(),
            !is_cancel_key(code, modifiers) && code is Enter ==> final(self).text() == old(self).text() && final(self).pos() == old(self).pos() && (if blank(old(self).text()) && old(self).is_required() {
                state matches PromptState::Error(m) && m@ == old(self).required_message()
            } else {
                state is Submit
            }),
            !is_cancel_key(code, modifiers) && !(code is Enter) && is_edit_key(code, modifiers)
                ==> state is Active && final(self).text() == edited(
                old(self).text(),
                old(self).pos(),
                code,
                modifiers,
            ).0 && final(self).pos() == edited(
                old(self).text(),
                old(self).pos(),
                code,
                modifiers,
            ).1,
            !is_cancel_key(code, modifiers) && !(code is Enter) && !is_edit_key(code, modifiers)
                ==> state is Active,
            !is_cancel_key(code, modifiers) && !(code is Enter) && !is_edit_key(code, modifiers)
                ==> (code matches KeyCode::Char(ch) ==> final(self).text() == old(self).text().insert(old(self).pos(), ch) && final(self).pos() == old(self).pos() + 1),
            !is_cancel_key(code, modifiers) && !(code is Enter) && !is_edit_key(code, modifiers)
                && !(code is Char) ==> final(self).text() == old(self).text() && final(self).pos()
                == old(self).pos(),
    {
        if let KeyCode::Esc = code {
            return PromptState::Cancel;
        }
        if let (KeyCode::Char('c'), KeyModifiers::CONTROL) = (code, modifiers) {
            return PromptState::Cancel;
        }
        if let KeyCode::Enter = code {
            if self.input.is_empty() && self.required {
                return PromptState::Error(self.formatter.err_required());
            } else {
                return PromptState::Submit;
            }
        }
        if apply_edit_key(&mut self.input, code, modifiers) {
            return PromptState::Active;
        }
        if let KeyCode::Char(ch) = code {
            self.input.insert(ch);
        }
        PromptState::Active
    }

    /// The submitted value: the buffered text.
    fn submit(&mut self) -> (r: Self::Output)
        ensures
            r@ == old(self).text(),
            final(self).text() == old(self).text(),
    {
        self.input.value()
    }

    /// Always shows the live editing cursor, together with the message,
    /// hint and placeholder.
    fn render(&mut self, state: &PromptState) -> (r: Result<RenderPayload, String>)
        ensures
            r is Ok,
            r matches Ok(p) ==> p.message@ == final(self).message_view() && p.body is Empty,
            r matches Ok(p) ==> (p.input matches PromptInput::Cursor(c) && c.text() == final(self).text() && c.pos() == final(self).pos()),
            final(self).same_config(old(self)),
            final(self).text() == old(self).text(),
            final(self).pos() == old(self).pos(),
    {
        let payload = RenderPayload::new(
            self.message.clone(),
            clone_opt_string(&self.hint),
            clone_opt_string(&self.placeholder),
        );
        Result::Ok(payload.input(PromptInput::Cursor(self.input.clone())))
    }
}

} // verus!
