//! The prompt contract and the session driver.
//!
//! A [`Prompt`] is one interactive unit of work: it is set up once, handles
//! key events as pure state transitions, validates its value on submission,
//! and describes what to draw after every event. The [`Promptuity`] driver
//! runs one or more prompts against a [`Terminal`] and a [`Theme`],
//! owning the session's [`PromptState`] machine.

use vstd::prelude::*;
use crate::error::Error;
use crate::event::KeyCode;
use crate::event::KeyModifiers;
use crate::term::Terminal;
use crate::theme::RenderSnapshot;
use crate::theme::Theme;

verus! {

use vstd::string::StringExecFns;

/// The state of the prompt currently driven.
///
/// Only `Active` accepts further key events. `Error` is recoverable: the
/// prompt is shown again with the message attached. `Submit`, `Cancel` and
/// `Fatal` end the current prompt.
#[derive(Debug, Clone, PartialEq)]
pub enum PromptState {
    /// Accepting key events.
    Active,
    /// The value has been accepted.
    Submit,
    /// The user cancelled the prompt.
    Cancel,
    /// A recoverable error, shown to the user; the prompt stays live.
    Error(String),
    /// An unrecoverable error; the session ends with it.
    Fatal(String),
}

/// What the input area of a prompt shows.
#[derive(Debug)]
pub enum PromptInput {
    /// No input area.
    Empty,
    /// A live editing cursor.
    Cursor(crate::cursor::InputCursor),
    /// Already-laid-out text.
    Raw(String),
}

impl Default for PromptInput {
    /// The default input area shows nothing.
    fn default() -> (r: Self)
        ensures
            r is Empty,
    {
        PromptInput::Empty
    }
}

/// What the body area of a prompt shows.
#[derive(Debug)]
pub enum PromptBody {
    /// No body area.
    Empty,
    /// Already-laid-out text.
    Raw(String),
}

impl Default for PromptBody {
    /// The default body area shows nothing.
    fn default() -> (r: Self)
        ensures
            r is Empty,
    {
        PromptBody::Empty
    }
}

/// A caller-supplied check run over a prompt's value on submission.
pub trait Validator<T> {
    /// Accepts the value, or rejects it with the message to display.
    fn validate(&self, value: &T) -> Result<(), String>;
}

/// What a prompt wants shown after an event.
#[derive(Debug)]
pub struct RenderPayload {
    /// The input area.
    pub input: PromptInput,
    /// The body area.
    pub body: PromptBody,
    /// The prompt's question or instruction.
    pub message: String,
    /// An optional aid for filling the field in.
    pub hint: Option<String>,
    /// An optional text shown while the input is empty.
    pub placeholder: Option<String>,
}

impl RenderPayload {
    /// A payload with the given texts and empty input and body areas.
    pub fn new(message: String, hint: Option<String>, placeholder: Option<String>) -> (r: Self)
        ensures
            r.message == message,
            r.hint == hint,
            r.placeholder == placeholder,
            r.input is Empty,
            r.body is Empty,
    {
        RenderPayload {
            input: PromptInput::Empty,
            body: PromptBody::Empty,
            message,
            hint,
            placeholder,
        }
    }

    /// The same payload with the given input area.
    pub fn input(self, input: PromptInput) -> (r: Self)
        ensures
            r.input == input,
            r.body == self.body,
            r.message == self.message,
            r.hint == self.hint,
            r.placeholder == self.placeholder,
    {
        RenderPayload { input, ..self }
    }

    /// The same payload with the given body area.
    pub fn body(self, body: PromptBody) -> (r: Self)
        ensures
            r.body == body,
            r.input == self.input,
            r.message == self.message,
            r.hint == self.hint,
            r.placeholder == self.placeholder,
    {
        RenderPayload { body, ..self }
    }
}

/// One interactive prompt: the unit of work a session drives.
///
/// The driver calls `setup` once, then alternates `handle` and `render`
/// for each key event, runs `validate` when `handle` asks to submit, and
/// calls `submit` exactly once after a submission has survived validation.
pub trait Prompt {
    /// The type of the submitted value.
    type Output;

    /// Whether the prompt is fit to run: `setup` establishes it, every
    /// event handler preserves it, and `submit` relies on it.
    spec fn ready(&self) -> bool;

    /// Checks the static configuration once, before anything is drawn.
    fn setup(&mut self) -> (r: Result<(), Error>)
        ensures
            r is Ok ==> final(self).ready(),
    ;

    /// Checks the current value on submission; an `Err` carries the
    /// message to display.
    fn validate(&self) -> Result<(), String>;

    /// Interprets one key event and says which state the prompt is in now.
    fn handle(&mut self, code: KeyCode, modifiers: KeyModifiers) -> (state: PromptState)
        ensures
            old(self).ready() ==> final(self).ready(),
    ;

    /// Yields the submitted value.
    fn submit(&mut self) -> Self::Output
        requires
            old(self).ready(),
    ;

    /// Describes what to draw for the given state.
    fn render(&mut self, state: &PromptState) -> (r: Result<RenderPayload, String>)
        ensures
            old(self).ready() ==> final(self).ready(),
    ;
}

/// Folds a validation result into the state a prompt handler returned:
/// a submission that fails validation becomes a recoverable error, a
/// submission that passes stays a submission, and every other state is
/// untouched — validation only ever runs on submissions.
pub fn resolve_submit(state: PromptState, validation: Result<(), String>) -> (r: PromptState)
    ensures
        state is Submit && validation is Ok ==> r is Submit,
        state is Submit ==> (validation matches Err(m) ==> r == PromptState::Error(m)),
        !(state is Submit) ==> r == state,
{
    match state {
        PromptState::Submit => {
            match validation {
                Result::Ok(_) => PromptState::Submit,
                Result::Err(msg) => PromptState::Error(msg),
            }
        },
        other => other,
    }
}

/// A prompt session: one or more prompts run in order against one
/// terminal and one theme.
///
/// `begin` switches the terminal to per-key input; `finish` restores it.
/// Between the two, each call to `prompt` drives one prompt to submission,
/// cancellation or failure.
pub struct Promptuity<T: Terminal, H: Theme<T>> {
    term: T,
    theme: H,
    state: PromptState,
    intro: Option<String>,
    outro: Option<String>,
    finished: bool,
}

impl<T: Terminal, H: Theme<T>> Promptuity<T, H> {
    /// Whether `finish` has been called.
    pub closed spec fn is_finished(&self) -> bool {
        self.finished
    }

    /// The state of the prompt driven most recently.
    pub closed spec fn current_state(&self) -> PromptState {
        self.state
    }

    /// The intro message, if one is set.
    pub closed spec fn intro_view(&self) -> Option<Seq<char>> {
        match self.intro {
            Option::Some(i) => Option::Some(i@),
            Option::None => Option::None,
        }
    }

    /// The outro message, if one is set.
    pub closed spec fn outro_view(&self) -> Option<Seq<char>> {
        match self.outro {
            Option::Some(o) => Option::Some(o@),
            Option::None => Option::None,
        }
    }

    /// Creates a session over the given terminal and theme.
    pub fn new(term: T, theme: H) -> (r: Self)
        ensures
            r.current_state() is Active,
            !r.is_finished(),
            r.intro_view() is None,
            r.outro_view() is None,
    {
        Promptuity {
            term,
            theme,
            state: PromptState::Active,
            intro: Option::None,
            outro: Option::None,
            finished: false,
        }
    }

    /// The terminal the session runs on.
    pub fn term(&mut self) -> &mut T {
        &mut self.term
    }

    /// Sets the intro message shown when the session begins.
    pub fn with_intro(&mut self, intro: &str)
        ensures
            final(self).intro_view() == Option::Some(intro@),
            final(self).outro_view() == old(self).outro_view(),
            final(self).current_state() == old(self).current_state(),
            final(self).is_finished() == old(self).is_finished(),
    {
        self.intro = Option::Some(intro.to_owned());
    }

    /// Sets the outro message shown when the session finishes.
    pub fn with_outro(&mut self, outro: &str)
        ensures
            final(self).outro_view() == Option::Some(outro@),
            final(self).intro_view() == old(self).intro_view(),
            final(self).current_state() == old(self).current_state(),
            final(self).is_finished() == old(self).is_finished(),
    {
        self.outro = Option::Some(outro.to_owned());
    }

    /// Starts the session: switches the terminal to per-key input and lets
    /// the theme draw its opening.
    pub fn begin(&mut self) -> (r: Result<(), Error>)
        ensures
            final(self).current_state() == old(self).current_state(),
            final(self).is_finished() == old(self).is_finished(),
            final(self).intro_view() == old(self).intro_view(),
            final(self).outro_view() == old(self).outro_view(),
    {
        self.term.enable_raw()?;
        let intro = self.intro.clone();
        self.theme.begin(&mut self.term, intro)?;
        Result::Ok(())
    }

    /// Ends the session: lets the theme draw its closing and restores
    /// line-buffered input.
    pub fn finish(&mut self) -> (r: Result<(), Error>)
        ensures
            r is Ok ==> final(self).is_finished(),
            r is Err ==> final(self).is_finished() == old(self).is_finished(),
            final(self).current_state() == old(self).current_state(),
            final(self).intro_view() == old(self).intro_view(),
            final(self).outro_view() == old(self).outro_view(),
    {
        let outro = self.outro.clone();
        self.theme.finish(&mut self.term, &self.state, outro)?;
        self.term.disable_raw()?;
        self.finished = true;
        Result::Ok(())
    }

    /// Shows a message marking a step of the session.
    pub fn step(&mut self, message: &str) -> (r: Result<(), Error>)
        ensures
            final(self).current_state() == old(self).current_state(),
            final(self).is_finished() == old(self).is_finished(),
            final(self).intro_view() == old(self).intro_view(),
            final(self).outro_view() == old(self).outro_view(),
    {
        self.theme.step(&mut self.term, message.to_owned())?;
        Result::Ok(())
    }

    /// Shows a message without decoration.
    pub fn log(&mut self, message: &str) -> (r: Result<(), Error>)
        ensures
            final(self).current_state() == old(self).current_state(),
            final(self).is_finished() == old(self).is_finished(),
            final(self).intro_view() == old(self).intro_view(),
            final(self).outro_view() == old(self).outro_view(),
    {
        self.theme.log(&mut self.term, message.to_owned())?;
        Result::Ok(())
    }

    /// Shows a message with info decoration.
    pub fn info(&mut self, message: &str) -> (r: Result<(), Error>)
        ensures
            final(self).current_state() == old(self).current_state(),
            final(self).is_finished() == old(self).is_finished(),
            final(self).intro_view() == old(self).intro_view(),
            final(self).outro_view() == old(self).outro_view(),
    {
        self.theme.info(&mut self.term, message.to_owned())?;
        Result::Ok(())
    }

    /// Shows a message with warning decoration.
    pub fn warn(&mut self, message: &str) -> (r: Result<(), Error>)
        ensures
            final(self).current_state() == old(self).current_state(),
            final(self).is_finished() == old(self).is_finished(),
            final(self).intro_view() == old(self).intro_view(),
            final(self).outro_view() == old(self).outro_view(),
    {
        self.theme.warn(&mut self.term, message.to_owned())?;
        Result::Ok(())
    }

    /// Shows a message with error decoration.
    pub fn error(&mut self, message: &str) -> (r: Result<(), Error>)
        ensures
            final(self).current_state() == old(self).current_state(),
            final(self).is_finished() == old(self).is_finished(),
            final(self).intro_view() == old(self).intro_view(),
            final(self).outro_view() == old(self).outro_view(),
    {
        self.theme.error(&mut self.term, message.to_owned())?;
        Result::Ok(())
    }

    /// Shows a message with success decoration.
    pub fn success(&mut self, message: &str) -> (r: Result<(), Error>)
        ensures
            final(self).current_state() == old(self).current_state(),
            final(self).is_finished() == old(self).is_finished(),
            final(self).intro_view() == old(self).intro_view(),
            final(self).outro_view() == old(self).outro_view(),
    {
        self.theme.success(&mut self.term, message.to_owned())?;
        Result::Ok(())
    }

    /// Draws the given prompt in the session's current state.
    fn render_widget<P: Prompt>(&mut self, prompt: &mut P) -> (r: Result<(), Error>)
        ensures
            old(prompt).ready() ==> final(prompt).ready(),
            final(self).current_state() == old(self).current_state(),
            final(self).is_finished() == old(self).is_finished(),
            final(self).intro_view() == old(self).intro_view(),
            final(self).outro_view() == old(self).outro_view(),
    {
        let res = match prompt.render(&self.state) {
            Result::Ok(payload) => payload,
            Result::Err(msg) => {
                return Result::Err(Error::Prompt(msg));
            },
        };
        self.theme.render(
            &mut self.term,
            RenderSnapshot {
                state: &self.state,
                input: res.input,
                body: res.body,
                message: res.message,
                hint: res.hint,
                placeholder: res.placeholder,
            },
        )?;
        Result::Ok(())
    }

    /// Drives one prompt to its end and returns its value.
    ///
    /// The prompt is set up, drawn once, and then fed one key event at a
    /// time. A submission runs validation first: a failure is shown as a
    /// recoverable error and the loop goes on. Cancellation tears the whole
    /// session down and is reported as [`Error::Cancel`]; a fatal report
    /// does the same with [`Error::Prompt`]. A value is returned only for a
    /// submission: a session whose last state is a cancellation or a fatal
    /// failure never yields one. The loop is bounded so that it provably
    /// terminates; the bound is far beyond any real session.
    pub fn prompt<P: Prompt>(&mut self, prompt: &mut P) -> (r: Result<P::Output, Error>)
        ensures
            r is Ok ==> final(self).current_state() is Submit,
            final(self).current_state() is Cancel ==> r is Err,
            final(self).current_state() is Fatal ==> r is Err,
            !old(self).is_finished() && final(self).is_finished() && final(self).current_state()
                is Cancel ==> (r matches Err(e) && e is Cancel),
            !old(self).is_finished() && final(self).is_finished() ==> (final(self).current_state()
                matches PromptState::Fatal(m) ==> (r matches Err(Error::Prompt(m2)) && m2@
                == m@)),
            final(self).intro_view() == old(self).intro_view(),
            final(self).outro_view() == old(self).outro_view(),
    {
        prompt.setup()?;
        self.state = PromptState::Active;
        self.render_widget(prompt)?;
        let mut fuel: u64 = u64::MAX;
        while fuel > 0
            invariant
                prompt.ready(),
                self.is_finished() == old(self).is_finished(),
                self.intro_view() == old(self).intro_view(),
                self.outro_view() == old(self).outro_view(),
            decreases fuel,
        {
            fuel = fuel - 1;
            let (code, modifiers) = self.term.read_key()?;
            let state = prompt.handle(code, modifiers);
            let state = if let PromptState::Submit = state {
                resolve_submit(PromptState::Submit, prompt.validate())
            } else {
                state
            };
            self.state = state;
            self.render_widget(prompt)?;
            match &self.state {
                PromptState::Cancel => {
                    self.finish()?;
                    return Result::Err(Error::Cancel);
                },
                PromptState::Fatal(msg) => {
                    let msg = msg.clone();
                    self.finish()?;
                    return Result::Err(Error::Prompt(msg));
                },
                PromptState::Submit => {
                    return Result::Ok(prompt.submit());
                },
                _ => {},
            }
        }
        Result::Err(Error::Prompt(String::from_str("prompt aborted: event budget exhausted")))
    }
}

} // verus!
