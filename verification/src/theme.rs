//! The theme capability that prompt output is handed to.
//!
//! On every state change the session driver collects what a prompt wants
//! shown into a [`RenderSnapshot`] and passes it to the theme, which alone
//! decides how it appears on screen.

use vstd::prelude::*;
use crate::error::Error;
use crate::prompt::PromptBody;
use crate::prompt::PromptInput;
use crate::prompt::PromptState;
use crate::term::Terminal;

verus! {

/// Everything a theme needs to draw one prompt state.
#[derive(Debug)]
pub struct RenderSnapshot<'a> {
    /// The state the prompt is in.
    pub state: &'a PromptState,
    /// The prompt's question or instruction.
    pub message: String,
    /// An optional aid for filling the field in.
    pub hint: Option<String>,
    /// An optional text shown while the input is empty.
    pub placeholder: Option<String>,
    /// The input area: nothing, a live editing cursor, or finished text.
    pub input: PromptInput,
    /// The body area below the input, used for option lists.
    pub body: PromptBody,
}

/// A theme: the sole producer of screen output during a session.
///
/// Implementations translate snapshots and lifecycle events into actual
/// terminal writes. Nothing is assumed about their effects.
pub trait Theme<T: Terminal> {
    /// Writes a message without decoration.
    fn log(&mut self, term: &mut T, message: String) -> Result<(), Error>;

    /// Writes a message with info decoration.
    fn info(&mut self, term: &mut T, message: String) -> Result<(), Error>;

    /// Writes a message with warning decoration.
    fn warn(&mut self, term: &mut T, message: String) -> Result<(), Error>;

    /// Writes a message with error decoration.
    fn error(&mut self, term: &mut T, message: String) -> Result<(), Error>;

    /// Writes a message with success decoration.
    fn success(&mut self, term: &mut T, message: String) -> Result<(), Error>;

    /// Writes a message marking a step of the session.
    fn step(&mut self, term: &mut T, message: String) -> Result<(), Error>;

    /// Draws the start of a session, with its optional intro message.
    fn begin(&mut self, term: &mut T, intro: Option<String>) -> Result<(), Error>;

    /// Draws one prompt state.
    fn render(&mut self, term: &mut T, payload: RenderSnapshot) -> Result<(), Error>;

    /// Draws the end of a session, with its optional outro message.
    fn finish(&mut self, term: &mut T, state: &PromptState, outro: Option<String>) -> Result<
        (),
        Error,
    >;
}

} // verus!
