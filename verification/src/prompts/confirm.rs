//! A yes/no choice.

use vstd::prelude::*;
use crate::error::Error;
use crate::event::KeyCode;
use crate::event::KeyModifiers;
use crate::prompt::Prompt;
use crate::prompt::PromptInput;
use crate::prompt::PromptState;
use crate::prompt::RenderPayload;
use crate::prompts::clone_opt_string;
use crate::prompts::is_cancel_key;

verus! {

use vstd::string::StringExecFns;

/// Formats what a [`Confirm`] prompt shows.
///
/// Each formatting method has a specification view — a `spec fn` giving
/// the text the method returns — so that prompt contracts can name the
/// rendered text exactly, whatever formatter is installed.
pub trait ConfirmFormatter {
    /// The text of the "Yes" option.
    spec fn yes_view(&self, active: bool) -> Seq<char>;

    /// The text of the "No" option.
    spec fn no_view(&self, active: bool) -> Seq<char>;

    /// The text of the side-by-side layout.
    spec fn layout_view(&self, yes: Seq<char>, no: Seq<char>) -> Seq<char>;

    /// The text of the submitted choice.
    spec fn submit_view(&self, value: bool) -> Seq<char>;

    /// The "Yes" option, highlighted when active.
    fn yes(&self, active: bool) -> (r: String)
        ensures
            r@ == self.yes_view(active),
    ;

    /// The "No" option, highlighted when active.
    fn no(&self, active: bool) -> (r: String)
        ensures
            r@ == self.no_view(active),
    ;

    /// The two options, laid out side by side.
    fn layout(&self, yes: String, no: String) -> (r: String)
        ensures
            r@ == self.layout_view(yes@, no@),
    ;

    /// The submitted choice, as text.
    fn submit(&self, value: bool) -> (r: String)
        ensures
            r@ == self.submit_view(value),
    ;
}

/// The stock formatter for [`Confirm`].
pub struct DefaultConfirmFormatter;

impl DefaultConfirmFormatter {
    /// Creates the stock formatter.
    pub fn new() -> Self {
        DefaultConfirmFormatter
    }
}

impl ConfirmFormatter for DefaultConfirmFormatter {
    open spec fn yes_view(&self, active: bool) -> Seq<char> {
        if active {
            "\u{25cf} Yes"@
        } else {
            "\u{25cb} Yes"@
        }
    }

    open spec fn no_view(&self, active: bool) -> Seq<char> {
        if active {
            "\u{25cf} No"@
        } else {
            "\u{25cb} No"@
        }
    }

    open spec fn layout_view(&self, yes: Seq<char>, no: Seq<char>) -> Seq<char> {
        yes + "  /  "@ + no
    }

    open spec fn submit_view(&self, value: bool) -> Seq<char> {
        if value {
            "Yes"@
        } else {
            "No"@
        }
    }

    /// A filled marker when active, a hollow one otherwise.
    fn yes(&self, active: bool) -> (r: String) {
        if active {
            String::from_str("\u{25cf} Yes")
        } else {
            String::from_str("\u{25cb} Yes")
        }
    }

    /// A filled marker when active, a hollow one otherwise.
    fn no(&self, active: bool) -> (r: String) {
        if active {
            String::from_str("\u{25cf} No")
        } else {
            String::from_str("\u{25cb} No")
        }
    }

    /// The two options separated by a slash.
    fn layout(&self, yes: String, no: String) -> (r: String) {
        let mut s = yes;
        s.append("  /  ");
        s.append(no.as_str());
        s
    }

    /// `Yes` or `No`.
    fn submit(&self, value: bool) -> (r: String) {
        if value {
            String::from_str("Yes")
        } else {
            String::from_str("No")
        }
    }
}

/// Keys that both pick "Yes" and submit at once.
pub open spec fn is_yes_submit_key(code: KeyCode, modifiers: KeyModifiers) -> bool {
    (code == KeyCode::Char('y') || code == KeyCode::Char('Y')) && modifiers is NONE
}

/// Keys that both pick "No" and submit at once.
pub open spec fn is_no_submit_key(code: KeyCode, modifiers: KeyModifiers) -> bool {
    (code == KeyCode::Char('n') || code == KeyCode::Char('N')) && modifiers is NONE
}

/// Keys that move the choice to "Yes".
pub open spec fn is_yes_move_key(code: KeyCode, modifiers: KeyModifiers) -> bool {
    code is Left || code == KeyCode::Char('h') || (code == KeyCode::Char('p') && modifiers
        is CONTROL)
}

/// Keys that move the choice to "No".
pub open spec fn is_no_move_key(code: KeyCode, modifiers: KeyModifiers) -> bool {
    code is Right || code == KeyCode::Char('l') || (code == KeyCode::Char('n') && modifiers
        is CONTROL)
}

/// A prompt for a yes/no choice.
///
/// Left and right (or vi-style keys) move the choice; Enter submits it;
/// `y` and `n` pick and submit in one stroke.
pub struct Confirm {
    formatter: Box<dyn ConfirmFormatter>,
    message: String,
    hint: Option<String>,
    value: bool,
}

impl Confirm {
    /// The choice currently picked: `true` for "Yes".
    pub closed spec fn value_spec(&self) -> bool {
        self.value
    }

    /// The prompt's message.
    pub closed spec fn message_view(&self) -> Seq<char> {
        self.message@
    }

    /// The prompt's hint, if one is set.
    pub closed spec fn hint_view(&self) -> Option<Seq<char>> {
        match self.hint {
            Option::Some(h) => Option::Some(h@),
            Option::None => Option::None,
        }
    }

    /// The text the installed formatter gives for the submitted choice.
    pub closed spec fn submit_text(&self, value: bool) -> Seq<char> {
        self.formatter.submit_view(value)
    }

    /// The text the installed formatter gives for the live side-by-side
    /// choice, with the picked side active.
    pub closed spec fn layout_text(&self, value: bool) -> Seq<char> {
        self.formatter.layout_view(
            self.formatter.yes_view(value),
            self.formatter.no_view(!value),
        )
    }

    /// Whether two prompts carry the same message and hint.
    pub open spec fn same_config(&self, other: &Confirm) -> bool {
        self.message_view() == other.message_view() && self.hint_view() == other.hint_view()
    }

    /// Whether two prompts carry formatters with the same texts.
    pub open spec fn same_texts(&self, other: &Confirm) -> bool {
        (forall|v: bool| #[trigger] self.submit_text(v) == other.submit_text(v)) && (forall|
            v: bool,
        | #[trigger] self.layout_text(v) == other.layout_text(v))
    }

    /// Creates a confirmation prompt with the given message; the choice
    /// starts at "No".
    pub fn new(message: &str) -> (r: Self)
        ensures
            r.message_view() == message@,
            r.hint_view() is None,
            !r.value_spec(),
            r.submit_text(true) == "Yes"@,
            r.submit_text(false) == "No"@,
            r.layout_text(true) == "\u{25cf} Yes"@ + "  /  "@ + "\u{25cb} No"@,
            r.layout_text(false) == "\u{25cb} Yes"@ + "  /  "@ + "\u{25cf} No"@,
    {
        Confirm {
            formatter: Box::new(DefaultConfirmFormatter::new()),
            message: message.to_owned(),
            hint: Option::None,
            value: false,
        }
    }

    /// Replaces the formatter.
    pub fn with_formatter<F: ConfirmFormatter + 'static>(&mut self, formatter: F)
        ensures
            final(self).same_config(old(self)),
            final(self).value_spec() == old(self).value_spec(),
    {
        self.formatter = Box::new(formatter);
    }

    /// Sets the hint message.
    pub fn with_hint(&mut self, hint: &str)
        ensures
            final(self).hint_view() == Option::Some(hint@),
            final(self).message_view() == old(self).message_view(),
            final(self).value_spec() == old(self).value_spec(),
            final(self).same_texts(old(self)),
    {
        self.hint = Option::Some(hint.to_owned());
    }

    /// Sets the starting choice.
    pub fn with_default(&mut self, value: bool)
        ensures
            final(self).value_spec() == value,
            final(self).same_config(old(self)),
            final(self).same_texts(old(self)),
    {
        self.value = value;
    }
}

impl Prompt for Confirm {
    type Output = bool;

    open spec fn ready(&self) -> bool {
        true
    }

    fn setup(&mut self) -> (r: Result<(), Error>) {
        Result::Ok(())
    }

    fn validate(&self) -> (r: Result<(), String>)
        ensures
            r is Ok,
    {
        Result::Ok(())
    }

    /// One key event: Enter submits the current choice; cancel keys
    /// cancel; `y`/`Y` and `n`/`N` pick and submit; movement keys pick
    /// without submitting; everything else is ignored.
    fn handle(&mut self, code: KeyCode, modifiers: KeyModifiers) -> (state: PromptState)
        ensures
            final(self).same_config(old(self)),
            final(self).same_texts(old(self)),
            code is Enter ==> state is Submit && final(self).value_spec() == old(self).value_spec(),
            !(code is Enter) && is_cancel_key(code, modifiers) ==> state is Cancel && final(self).value_spec() == old(self).value_spec(),
            !(code is Enter) && !is_cancel_key(code, modifiers) && is_yes_submit_key(
                code,
                modifiers,
            ) ==> state is Submit && final(self).value_spec(),
            !(code is Enter) && !is_cancel_key(code, modifiers) && is_no_submit_key(
                code,
                modifiers,
            ) ==> state is Submit && !final(self).value_spec(),
            !(code is Enter) && !is_cancel_key(code, modifiers) && !is_yes_submit_key(
                code,
                modifiers,
            ) && !is_no_submit_key(code, modifiers) && is_yes_move_key(code, modifiers) ==> state
                is Active && final(self).value_spec(),
            !(code is Enter) && !is_cancel_key(code, modifiers) && !is_yes_submit_key(
                code,
                modifiers,
            ) && !is_no_submit_key(code, modifiers) && !is_yes_move_key(code, modifiers)
                && is_no_move_key(code, modifiers) ==> state is Active && !final(self).value_spec(),
            !(code is Enter) && !is_cancel_key(code, modifiers) && !is_yes_submit_key(
                code,
                modifiers,
            ) && !is_no_submit_key(code, modifiers) && !is_yes_move_key(code, modifiers)
                && !is_no_move_key(code, modifiers) ==> state is Active && final(self).value_spec()
                == old(self).value_spec(),
    {
        if let KeyCode::Enter = code {
            return PromptState::Submit;
        }
        if let KeyCode::Esc = code {
            return PromptState::Cancel;
        }
        if let (KeyCode::Char('c'), KeyModifiers::CONTROL) = (code, modifiers) {
            return PromptState::Cancel;
        }
        match (code, modifiers) {
            (KeyCode::Char('y'), KeyModifiers::NONE) | (KeyCode::Char('Y'), KeyModifiers::NONE) => {
                self.value = true;
                PromptState::Submit
            },
            (KeyCode::Char('n'), KeyModifiers::NONE) | (KeyCode::Char('N'), KeyModifiers::NONE) => {
                self.value = false;
                PromptState::Submit
            },
            (KeyCode::Left, _) | (KeyCode::Char('h'), _) | (
                KeyCode::Char('p'),
                KeyModifiers::CONTROL,
            ) => {
                self.value = true;
                PromptState::Active
            },
            (KeyCode::Right, _) | (KeyCode::Char('l'), _) | (
                KeyCode::Char('n'),
                KeyModifiers::CONTROL,
            ) => {
                self.value = false;
                PromptState::Active
            },
            _ => PromptState::Active,
        }
    }

    /// The submitted value: the picked choice.
    fn submit(&mut self) -> (r: Self::Output)
        ensures
            r == old(self).value_spec(),
            final(self).value_spec() == old(self).value_spec(),
    {
        self.value
    }

    /// After submission, shows the choice as finished text; while live,
    /// shows both options with the picked one highlighted; on
    /// cancellation, shows nothing in the input area.
    fn render(&mut self, state: &PromptState) -> (r: Result<RenderPayload, String>)
        ensures
            r is Ok,
            r matches Ok(p) ==> p.message@ == final(self).message_view() && p.body is Empty,
            state is Submit ==> (r matches Ok(p) ==> (p.input matches PromptInput::Raw(s) && s@
                == old(self).submit_text(old(self).value_spec()))),
            state is Cancel ==> (r matches Ok(p) ==> p.input is Empty),
            !(state is Submit) && !(state is Cancel) ==> (r matches Ok(p) ==> (p.input matches
                PromptInput::Raw(s) && s@ == old(self).layout_text(old(self).value_spec()))),
            final(self).same_config(old(self)),
            final(self).value_spec() == old(self).value_spec(),
    {
        let payload = RenderPayload::new(
            self.message.clone(),
            clone_opt_string(&self.hint),
            Option::None,
        );
        match state {
            PromptState::Submit => {
                Result::Ok(payload.input(PromptInput::Raw(self.formatter.submit(self.value))))
            },
            PromptState::Cancel => Result::Ok(payload),
            _ => {
                let yes = self.formatter.yes(self.value);
                let no = self.formatter.no(!self.value);
                Result::Ok(payload.input(PromptInput::Raw(self.formatter.layout(yes, no))))
            },
        }
    }
}

} // verus!
