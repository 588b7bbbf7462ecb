//! Integer input with range clamping.

use vstd::prelude::*;
use crate::cursor::InputCursor;
use crate::cursor::blank;
use crate::decimal::int_dec_str;
use crate::decimal::isize_to_string;
use crate::decimal::parse_isize;
use crate::decimal::parsed_int;
use crate::error::Error;
use crate::event::KeyCode;
use crate::event::KeyModifiers;
use crate::prompt::Prompt;
use crate::prompt::PromptInput;
use crate::prompt::PromptState;
use crate::prompt::RenderPayload;
use crate::prompt::Validator;
use crate::prompts::apply_edit_key;
use crate::prompts::clone_opt_string;
use crate::prompts::edited;
use crate::prompts::is_cancel_key;
use crate::prompts::is_edit_key;

verus! {

use vstd::string::StringExecFns;

/// Formats the messages a [`Number`] prompt shows.
///
/// Each formatting method has a specification view — a `spec fn` giving
/// the text the method returns — so that prompt contracts can name the
/// message exactly, whatever formatter is installed.
pub trait NumberFormatter {
    /// The text of the required-field message.
    spec fn err_required_view(&self) -> Seq<char>;

    /// The text of the not-a-number message.
    spec fn err_invalid_format_view(&self) -> Seq<char>;

    /// The text of the out-of-range message for the given bounds.
    spec fn err_invalid_range_view(&self, min: int, max: int) -> Seq<char>;

    /// The message shown when a required field is submitted empty.
    fn err_required(&self) -> (r: String)
        ensures
            r@ == self.err_required_view(),
    ;

    /// The message shown when the text does not denote an integer of the
    /// value type.
    fn err_invalid_format(&self) -> (r: String)
        ensures
            r@ == self.err_invalid_format_view(),
    ;

    /// The message shown when the value falls outside the configured range.
    fn err_invalid_range(&self, min: isize, max: isize) -> (r: String)
        ensures
            r@ == self.err_invalid_range_view(min as int, max as int),
    ;
}

/// The stock formatter for [`Number`].
pub struct DefaultNumberFormatter;

impl DefaultNumberFormatter {
    /// Creates the stock formatter.
    pub fn new() -> Self {
        DefaultNumberFormatter
    }
}

impl NumberFormatter for DefaultNumberFormatter {
    open spec fn err_required_view(&self) -> Seq<char> {
        "This field is required."@
    }

    open spec fn err_invalid_format_view(&self) -> Seq<char> {
        "Invalid number."@
    }

    open spec fn err_invalid_range_view(&self, min: int, max: int) -> Seq<char> {
        "Must be a number between "@ + int_dec_str(min) + " and "@ + int_dec_str(max) + "."@
    }

    /// The stock message for an empty required field.
    fn err_required(&self) -> (r: String) {
        String::from_str("This field is required.")
    }

    /// The stock message for text that is not a number.
    fn err_invalid_format(&self) -> (r: String) {
        String::from_str("Invalid number.")
    }

    /// The stock message for a value outside the range, naming the bounds.
    fn err_invalid_range(&self, min: isize, max: isize) -> (r: String) {
        let mut s = String::from_str("Must be a number between ");
        s.append(isize_to_string(min).as_str());
        s.append(" and ");
        s.append(isize_to_string(max).as_str());
        s.append(".");
        s
    }
}

/// The value the edited text denotes: its parsed value when it denotes an
/// integer that fits the value type, and zero otherwise.
pub open spec fn num_value(s: Seq<char>) -> int {
    match parsed_int(s) {
        Option::Some(v) => if isize::MIN <= v <= isize::MAX {
            v
        } else {
            0int
        },
        Option::None => 0int,
    }
}

/// A value clamped into the range `[min, max]` (`min` wins when the range
/// is empty).
pub open spec fn clamped(min: int, max: int, v: int) -> int {
    let capped = if v > max {
        max
    } else {
        v
    };
    if capped < min {
        min
    } else {
        capped
    }
}

/// Whether a text starts with an explicit sign character.
pub open spec fn starts_with_sign(s: Seq<char>) -> bool {
    s.len() > 0 && (s[0] == '+' || s[0] == '-')
}

/// The text and cursor after typing one character into the numeric field:
/// a digit is inserted at the cursor, except that a digit typed in front
/// of a sign lands right after the sign; a sign is accepted only at the
/// very front of an unsigned text; everything else is ignored.
pub open spec fn num_inserted(s: Seq<char>, p: int, ch: char) -> (Seq<char>, int) {
    if crate::decimal::is_digit(ch) {
        if p == 0 && starts_with_sign(s) {
            (s.insert(1, ch), 2int)
        } else {
            (s.insert(p, ch), p + 1)
        }
    } else if ch == '+' || ch == '-' {
        if p == 0 && !starts_with_sign(s) {
            (s.insert(0, ch), 1int)
        } else {
            (s, p)
        }
    } else {
        (s, p)
    }
}

/// Whether a text denotes an integer that fits the value type.
pub open spec fn parses_as_isize(s: Seq<char>) -> bool {
    parsed_int(s) is Some && isize::MIN <= parsed_int(s).unwrap() <= isize::MAX
}

/// Whether a submission of the given text is accepted: the field may not
/// be blank when required, the text must denote an integer of the value
/// type, and the value must lie within `[min, max]`.
pub open spec fn submittable(s: Seq<char>, required: bool, min: int, max: int) -> bool {
    &&& !(blank(s) && required)
    &&& parses_as_isize(s)
    &&& min <= parsed_int(s).unwrap() <= max
}

/// A prompt for integer input.
///
/// Only digits and a leading sign can be typed. Up and Down step the value
/// by one, clamped into the configured range. Submission checks, in this
/// order: a required field is not blank, the text denotes an integer of
/// the value type, and the value lies in the range.
pub struct Number {
    formatter: Box<dyn NumberFormatter>,
    message: String,
    hint: Option<String>,
    placeholder: Option<String>,
    required: bool,
    min: isize,
    max: isize,
    validator: Option<Box<dyn Validator<String>>>,
    input: InputCursor,
}

impl Number {
    /// The edited text.
    pub closed spec fn text(&self) -> Seq<char> {
        self.input.text()
    }

    /// The cursor position within the text.
    pub closed spec fn pos(&self) -> int {
        self.input.pos()
    }

    /// Whether an effectively empty submission is rejected.
    pub closed spec fn is_required(&self) -> bool {
        self.required
    }

    /// The smallest accepted value.
    pub closed spec fn min_spec(&self) -> int {
        self.min as int
    }

    /// The largest accepted value.
    pub closed spec fn max_spec(&self) -> int {
        self.max as int
    }

    /// The prompt's message.
    pub closed spec fn message_view(&self) -> Seq<char> {
        self.message@
    }

    /// The prompt's hint, if one is set.
    pub closed spec fn hint_view(&self) -> Option<Seq<char>> {
        match self.hint {
            Option::Some(h) => Option::Some(h@),
            Option::None => Option::None,
        }
    }

    /// The prompt's placeholder, if one is set.
    pub closed spec fn placeholder_view(&self) -> Option<Seq<char>> {
        match self.placeholder {
            Option::Some(p) => Option::Some(p@),
            Option::None => Option::None,
        }
    }

    /// Whether a validator is installed.
    pub closed spec fn has_validator(&self) -> bool {
        self.validator is Some
    }

    /// The message the installed formatter gives for an empty required
    /// submission.
    pub closed spec fn required_message(&self) -> Seq<char> {
        self.formatter.err_required_view()
    }

    /// The message the installed formatter gives for text that is not a
    /// number.
    pub closed spec fn invalid_format_message(&self) -> Seq<char> {
        self.formatter.err_invalid_format_view()
    }

    /// The message the installed formatter gives for a value outside the
    /// range `[min, max]`.
    pub closed spec fn range_message(&self, min: int, max: int) -> Seq<char> {
        self.formatter.err_invalid_range_view(min, max)
    }

    /// The message the installed formatter gives for a value outside the
    /// configured range.
    pub open spec fn invalid_range_message(&self) -> Seq<char> {
        self.range_message(self.min_spec(), self.max_spec())
    }

    /// Whether two prompts carry formatters with the same messages.
    pub open spec fn same_messages(&self, other: &Number) -> bool {
        self.required_message() == other.required_message() && self.invalid_format_message()
            == other.invalid_format_message() && (forall|lo: int, hi: int|
            #[trigger] self.range_message(lo, hi) == other.range_message(lo, hi))
    }

    /// Whether two prompts carry the same configuration: message, hint,
    /// placeholder, required flag and range.
    pub open spec fn same_config(&self, other: &Number) -> bool {
        self.message_view() == other.message_view() && self.hint_view() == other.hint_view()
            && self.placeholder_view() == other.placeholder_view() && self.is_required()
            == other.is_required() && self.min_spec() == other.min_spec() && self.max_spec()
            == other.max_spec()
    }

    /// Creates a numeric prompt with the given message: required, with no
    /// hint, no placeholder, no validator, the full value range, and an
    /// empty buffer.
    pub fn new(message: &str) -> (r: Self)
        ensures
            r.message_view() == message@,
            r.required_message() == "This field is required."@,
            r.invalid_format_message() == "Invalid number."@,
            forall|lo: int, hi: int| #[trigger] r.range_message(lo, hi)
                == "Must be a number between "@ + int_dec_str(lo) + " and "@ + int_dec_str(hi)
                + "."@,
            r.hint_view() is None,
            r.placeholder_view() is None,
            r.is_required(),
            r.min_spec() == isize::MIN,
            r.max_spec() == isize::MAX,
            !r.has_validator(),
            r.text() == Seq::<char>::empty(),
            r.pos() == 0,
    {
        Number {
            formatter: Box::new(DefaultNumberFormatter::new()),
            message: message.to_owned(),
            hint: Option::None,
            placeholder: Option::None,
            required: true,
            min: isize::MIN,
            max: isize::MAX,
            validator: Option::None,
            input: InputCursor::default(),
        }
    }

    /// Replaces the formatter.
    pub fn with_formatter<F: NumberFormatter + 'static>(&mut self, formatter: F)
        ensures
            final(self).same_config(old(self)),
            final(self).text() == old(self).text(),
            final(self).pos() == old(self).pos(),
            final(self).has_validator() == old(self).has_validator(),
    {
        self.formatter = Box::new(formatter);
    }

    /// Sets the hint message.
    pub fn with_hint(&mut self, hint: &str)
        ensures
            final(self).hint_view() == Option::Some(hint@),
            final(self).message_view() == old(self).message_view(),
            final(self).placeholder_view() == old(self).placeholder_view(),
            final(self).is_required() == old(self).is_required(),
            final(self).min_spec() == old(self).min_spec(),
            final(self).max_spec() == old(self).max_spec(),
            final(self).text() == old(self).text(),
            final(self).pos() == old(self).pos(),
            final(self).has_validator() == old(self).has_validator(),
            final(self).same_messages(old(self)),
    {
        self.hint = Option::Some(hint.to_owned());
    }

    /// Sets the placeholder message.
    pub fn with_placeholder(&mut self, placeholder: &str)
        ensures
            final(self).placeholder_view() == Option::Some(placeholder@),
            final(self).message_view() == old(self).message_view(),
            final(self).hint_view() == old(self).hint_view(),
            final(self).is_required() == old(self).is_required(),
            final(self).min_spec() == old(self).min_spec(),
            final(self).max_spec() == old(self).max_spec(),
            final(self).text() == old(self).text(),
            final(self).pos() == old(self).pos(),
            final(self).has_validator() == old(self).has_validator(),
            final(self).same_messages(old(self)),
    {
        self.placeholder = Option::Some(placeholder.to_owned());
    }

    /// Sets whether an effectively empty submission is rejected.
    pub fn with_required(&mut self, required: bool)
        ensures
            final(self).is_required() == required,
            final(self).message_view() == old(self).message_view(),
            final(self).hint_view() == old(self).hint_view(),
            final(self).placeholder_view() == old(self).placeholder_view(),
            final(self).min_spec() == old(self).min_spec(),
            final(self).max_spec() == old(self).max_spec(),
            final(self).text() == old(self).text(),
            final(self).pos() == old(self).pos(),
            final(self).has_validator() == old(self).has_validator(),
            final(self).same_messages(old(self)),
    {
        self.required = required;
    }

    /// Sets the smallest accepted value.
    pub fn with_min(&mut self, value: isize)
        ensures
            final(self).min_spec() == value,
            final(self).max_spec() == old(self).max_spec(),
            final(self).message_view() == old(self).message_view(),
            final(self).hint_view() == old(self).hint_view(),
            final(self).placeholder_view() == old(self).placeholder_view(),
            final(self).is_required() == old(self).is_required(),
            final(self).text() == old(self).text(),
            final(self).pos() == old(self).pos(),
            final(self).has_validator() == old(self).has_validator(),
            final(self).same_messages(old(self)),
    {
        self.min = value;
    }

    /// Sets the largest accepted value.
    pub fn with_max(&mut self, value: isize)
        ensures
            final(self).max_spec() == value,
            final(self).min_spec() == old(self).min_spec(),
            final(self).message_view() == old(self).message_view(),
            final(self).hint_view() == old(self).hint_view(),
            final(self).placeholder_view() == old(self).placeholder_view(),
            final(self).is_required() == old(self).is_required(),
            final(self).text() == old(self).text(),
            final(self).pos() == old(self).pos(),
            final(self).has_validator() == old(self).has_validator(),
            final(self).same_messages(old(self)),
    {
        self.max = value;
    }

    /// Sets the initial value; the cursor starts at the end of its text.
    pub fn with_default(&mut self, value: isize)
        ensures
            final(self).text() == int_dec_str(value as int),
            final(self).pos() == int_dec_str(value as int).len(),
            final(self).same_config(old(self)),
            final(self).has_validator() == old(self).has_validator(),
            final(self).same_messages(old(self)),
    {
        self.input = InputCursor::from(isize_to_string(value));
    }

    /// Installs a validator run over the text on submission.
    pub fn with_validator<V: Validator<String> + 'static>(&mut self, f: V)
        ensures
            final(self).has_validator(),
            final(self).same_config(old(self)),
            final(self).text() == old(self).text(),
            final(self).pos() == old(self).pos(),
            final(self).same_messages(old(self)),
    {
        self.validator = Option::Some(Box::new(f));
    }

    /// The value the edited text denotes, zero when it denotes none.
    fn value(&self) -> (r: isize)
        ensures
            r == num_value(self.text()),
    {
        let text = self.input.value();
        match parse_isize(text.as_str()) {
            Option::Some(v) => v,
            Option::None => 0,
        }
    }

    /// Whether the text starts with an explicit sign character.
    fn starts_with_op(&self) -> (r: bool)
        ensures
            r == starts_with_sign(self.text()),
    {
        match self.input.first_char() {
            Option::Some(c) => c == '+' || c == '-',
            Option::None => false,
        }
    }

    /// A value clamped into the configured range.
    fn normalize_value(&self, value: isize) -> (r: isize)
        ensures
            r == clamped(self.min_spec(), self.max_spec(), value as int),
    {
        let capped = if value > self.max {
            self.max
        } else {
            value
        };
        if capped < self.min {
            self.min
        } else {
            capped
        }
    }

    /// Types one character into the field, under the numeric insertion
    /// rules.
    fn insert(&mut self, chr: char)
        ensures
            final(self).same_config(old(self)),
            final(self).same_messages(old(self)),
            final(self).has_validator() == old(self).has_validator(),
            final(self).text() == num_inserted(old(self).text(), old(self).pos(), chr).0,
            final(self).pos() == num_inserted(old(self).text(), old(self).pos(), chr).1,
    {
        let u: u32 = chr as u32;
        if 48 <= u && u <= 57 {
            if self.input.cursor() == 0 && self.starts_with_op() {
                self.input.move_right();
            }
            self.input.insert(chr);
        } else if chr == '+' || chr == '-' {
            if self.input.cursor() == 0 && !self.starts_with_op() {
                self.input.insert(chr);
            }
        }
    }

    /// Steps the value up by one, clamped into the range; the text becomes
    /// the new value's decimal form with the cursor at its end.
    fn increment(&mut self)
        ensures
            final(self).same_config(old(self)),
            final(self).same_messages(old(self)),
            final(self).has_validator() == old(self).has_validator(),
            final(self).text() == int_dec_str(
                clamped(
                    old(self).min_spec(),
                    old(self).max_spec(),
                    if num_value(old(self).text()) == isize::MAX {
                        isize::MAX as int
                    } else {
                        num_value(old(self).text()) + 1
                    },
                ),
            ),
            final(self).pos() == final(self).text().len(),
    {
        let v = self.value();
        let stepped: isize = if v == isize::MAX {
            v
        } else {
            v + 1
        };
        let normalized = self.normalize_value(stepped);
        self.input = InputCursor::from(isize_to_string(normalized));
    }

    /// Steps the value down by one, clamped into the range; the text
    /// becomes the new value's decimal form with the cursor at its end.
    fn decrement(&mut self)
        ensures
            final(self).same_config(old(self)),
            final(self).same_messages(old(self)),
            final(self).has_validator() == old(self).has_validator(),
            final(self).text() == int_dec_str(
                clamped(
                    old(self).min_spec(),
                    old(self).max_spec(),
                    if num_value(old(self).text()) == isize::MIN {
                        isize::MIN as int
                    } else {
                        num_value(old(self).text()) - 1
                    },
                ),
            ),
            final(self).pos() == final(self).text().len(),
    {
        let v = self.value();
        let stepped: isize = if v == isize::MIN {
            v
        } else {
            v - 1
        };
        let normalized = self.normalize_value(stepped);
        self.input = InputCursor::from(isize_to_string(normalized));
    }
}

impl Prompt for Number {
    type Output = isize;

    open spec fn ready(&self) -> bool {
        true
    }

    /// Refuses a range whose minimum exceeds its maximum.
    fn setup(&mut self) -> (r: Result<(), Error>)
        ensures
            r is Ok <==> old(self).min_spec() <= old(self).max_spec(),
            r matches Err(e) ==> (e matches Error::Config(m) && m@
                == "min cannot be greater than max (min="@ + int_dec_str(old(self).min_spec())
                + ", max="@ + int_dec_str(old(self).max_spec()) + ")"@),
            final(self).same_config(old(self)),
            final(self).text() == old(self).text(),
            final(self).pos() == old(self).pos(),
    {
        if self.min > self.max {
            let mut msg = String::from_str("min cannot be greater than max (min=");
            msg.append(isize_to_string(self.min).as_str());
            msg.append(", max=");
            msg.append(isize_to_string(self.max).as_str());
            msg.append(")");
            return Result::Err(Error::Config(msg));
        }
        Result::Ok(())
    }

    /// Runs the installed validator over the text; accepts when none is
    /// installed. What an installed validator decides is the caller's own
    /// predicate and is not modeled: the session driver handles every
    /// verdict through its exact submission fold.
    fn validate(&self) -> (r: Result<(), String>)
        ensures
            !self.has_validator() ==> r is Ok,
    {
        match &self.validator {
            Option::Some(v) => {
                let value = self.input.value();
                v.validate(&value)
            },
            Option::None => Result::Ok(()),
        }
    }

    /// One key event: Enter submits when the text passes the submission
    /// checks and raises a recoverable error otherwise; cancel keys
    /// cancel; editing keys edit the text; Up and Down step the value;
    /// a character typed without modifiers goes through the numeric
    /// insertion rules; everything else is ignored.
    fn handle(&mut self, code: KeyCode, modifiers: KeyModifiers) -> (state: PromptState)
        ensures
            final(self).same_config(old(self)),
            final(self).has_validator() == old(self).has_validator(),
            final(self).same_messages(old(self)),
            code is Enter ==> final(self).text() == old(self).text() && final(self).pos() == old(self).pos(),
            code is Enter && submittable(
                old(self).text(),
                old(self).is_required(),
                old(self).min_spec(),
                old(self).max_spec(),
            ) ==> state is Submit,
            code is Enter && blank(old(self).text()) && old(self).is_required() ==> (state matches
                PromptState::Error(m) && m@ == old(self).required_message()),
            code is Enter && !(blank(old(self).text()) && old(self).is_required())
                && !parses_as_isize(old(self).text()) ==> (state matches PromptState::Error(m)
                && m@ == old(self).invalid_format_message()),
            code is Enter && !(blank(old(self).text()) && old(self).is_required())
                && parses_as_isize(old(self).text()) && !(old(self).min_spec() <= parsed_int(
                old(self).text(),
            ).unwrap() <= old(self).max_spec()) ==> (state matches PromptState::Error(m) && m@
                == old(self).invalid_range_message()),
            !(code is Enter) && is_cancel_key(code, modifiers) ==> state is Cancel && final(self).text() == old(self).text() && final(self).pos() == old(self).pos(),
            !(code is Enter) && !is_cancel_key(code, modifiers) && is_edit_key(code, modifiers)
                ==> state is Active && final(self).text() == edited(
                old(self).text(),
                old(self).pos(),
                code,
                modifiers,
            ).0 && final(self).pos() == edited(
                old(self).text(),
                old(self).pos(),
                code,
                modifiers,
            ).1,
            !(code is Enter) && !is_cancel_key(code, modifiers) && !is_edit_key(code, modifiers)
                ==> state is Active,
            !(code is Enter) && !is_cancel_key(code, modifiers) && !is_edit_key(code, modifiers)
                && code is Up ==> final(self).text() == int_dec_str(
                clamped(
                    old(self).min_spec(),
                    old(self).max_spec(),
                    if num_value(old(self).text()) == isize::MAX {
                        isize::MAX as int
                    } else {
                        num_value(old(self).text()) + 1
                    },
                ),
            ) && final(self).pos() == final(self).text().len(),
            !(code is Enter) && !is_cancel_key(code, modifiers) && !is_edit_key(code, modifiers)
                && code is Down ==> final(self).text() == int_dec_str(
                clamped(
                    old(self).min_spec(),
                    old(self).max_spec(),
                    if num_value(old(self).text()) == isize::MIN {
                        isize::MIN as int
                    } else {
                        num_value(old(self).text()) - 1
                    },
                ),
            ) && final(self).pos() == final(self).text().len(),
            !(code is Enter) && !is_cancel_key(code, modifiers) && !is_edit_key(code, modifiers)
                && modifiers is NONE ==> (code matches KeyCode::Char(ch) ==> final(self).text()
                == num_inserted(old(self).text(), old(self).pos(), ch).0 && final(self).pos()
                == num_inserted(old(self).text(), old(self).pos(), ch).1),
            !(code is Enter) && !is_cancel_key(code, modifiers) && !is_edit_key(code, modifiers)
                && !(code is Up) && !(code is Down) && !(code is Char && modifiers is NONE)
                ==> final(self).text() == old(self).text() && final(self).pos() == old(self).pos(),
    {
        if let KeyCode::Enter = code {
            if self.input.is_empty() && self.required {
                return PromptState::Error(self.formatter.err_required());
            }
            let text = self.input.value();
            match parse_isize(text.as_str()) {
                Option::None => {
                    return PromptState::Error(self.formatter.err_invalid_format());
                },
                Option::Some(v) => {
                    if !(self.min <= v && v <= self.max) {
                        return PromptState::Error(
                            self.formatter.err_invalid_range(self.min, self.max),
                        );
                    }
                    return PromptState::Submit;
                },
            }
        }
        if let KeyCode::Esc = code {
            return PromptState::Cancel;
        }
        if let (KeyCode::Char('c'), KeyModifiers::CONTROL) = (code, modifiers) {
            return PromptState::Cancel;
        }
        if apply_edit_key(&mut self.input, code, modifiers) {
            return PromptState::Active;
        }
        if let KeyCode::Up = code {
            self.increment();
            return PromptState::Active;
        }
        if let KeyCode::Down = code {
            self.decrement();
            return PromptState::Active;
        }
        if let (KeyCode::Char(ch), KeyModifiers::NONE) = (code, modifiers) {
            self.insert(ch);
        }
        PromptState::Active
    }

    /// The submitted value: the integer the text denotes.
    fn submit(&mut self) -> (r: Self::Output)
        ensures
            r == num_value(old(self).text()),
            final(self).text() == old(self).text(),
    {
        self.value()
    }

    /// After submission, shows the accepted value as finished text; while
    /// live, shows the editing cursor.
    fn render(&mut self, state: &PromptState) -> (r: Result<RenderPayload, String>)
        ensures
            r is Ok,
            r matches Ok(p) ==> p.message@ == final(self).message_view() && p.body is Empty,
            state is Submit ==> (r matches Ok(p) ==> (p.input matches PromptInput::Raw(s) && s@
                == int_dec_str(num_value(final(self).text())))),
            !(state is Submit) ==> (r matches Ok(p) ==> (p.input matches PromptInput::Cursor(c)
                && c.text() == final(self).text() && c.pos() == final(self).pos())),
            final(self).same_config(old(self)),
            final(self).text() == old(self).text(),
            final(self).pos() == old(self).pos(),
    {
        let payload = RenderPayload::new(
            self.message.clone(),
            clone_opt_string(&self.hint),
            clone_opt_string(&self.placeholder),
        );
        match state {
            PromptState::Submit => {
                let v = self.value();
                Result::Ok(payload.input(PromptInput::Raw(isize_to_string(v))))
            },
            _ => Result::Ok(payload.input(PromptInput::Cursor(self.input.clone()))),
        }
    }
}

} // verus!
