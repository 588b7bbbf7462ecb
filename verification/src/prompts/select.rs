//! One choice out of a list.

use vstd::prelude::*;
use crate::error::Error;
use crate::event::KeyCode;
use crate::event::KeyModifiers;
use crate::pagination::paginate;
use crate::prompt::Prompt;
use crate::prompt::PromptBody;
use crate::prompt::PromptInput;
use crate::prompt::PromptState;
use crate::prompt::RenderPayload;
use crate::prompts::clone_opt_string;
use crate::prompts::is_cancel_key;
use crate::prompts::is_down_key;
use crate::prompts::is_up_key;

verus! {

use vstd::pervasive::cloned;
use vstd::string::StringExecFns;

/// One entry of a [`Select`] prompt: a label shown to the user, the value
/// submitted when it is chosen, and an optional hint.
#[derive(Debug, Clone)]
pub struct SelectOption<T: Default + Clone> {
    /// The label shown in the list.
    pub label: String,
    /// The value submitted when this entry is chosen.
    pub value: T,
    /// An optional aid shown beside the label.
    pub hint: Option<String>,
}

impl<T: Default + Clone> SelectOption<T> {
    /// Creates an entry with the given label and value and no hint.
    pub fn new(label: &str, value: T) -> (r: Self)
        ensures
            r.label@ == label@,
            r.value == value,
            r.hint is None,
    {
        SelectOption { label: label.to_owned(), value, hint: Option::None }
    }

    /// The same entry with a hint beside the label.
    pub fn with_hint(self, hint: &str) -> (r: Self)
        ensures
            r.label == self.label,
            r.value == self.value,
            r.hint matches Some(h) && h@ == hint@,
    {
        SelectOption { hint: Option::Some(hint.to_owned()), ..self }
    }
}

/// Formats the option lines a [`Select`] prompt shows.
///
/// Each formatting method has a specification view — a `spec fn` giving
/// the text the method returns — so that render contracts can name every
/// drawn line exactly, whatever formatter is installed.
pub trait SelectFormatter {
    /// The text of the marker in front of an option.
    spec fn option_icon_view(&self, active: bool) -> Seq<char>;

    /// The text of the option's label.
    spec fn option_label_view(&self, label: Seq<char>, active: bool) -> Seq<char>;

    /// The text of the option's hint.
    spec fn option_hint_view(&self, hint: Option<Seq<char>>, active: bool) -> Seq<char>;

    /// The text of one full option line.
    spec fn option_view(&self, icon: Seq<char>, label: Seq<char>, hint: Seq<char>, active: bool) -> Seq<char>;

    /// The marker in front of an option.
    fn option_icon(&self, active: bool) -> (r: String)
        ensures
            r@ == self.option_icon_view(active),
    ;

    /// The option's label, possibly emphasised when active.
    fn option_label(&self, label: String, active: bool) -> (r: String)
        ensures
            r@ == self.option_label_view(label@, active),
    ;

    /// The option's hint, or nothing when it has none.
    fn option_hint(&self, hint: Option<String>, active: bool) -> (r: String)
        ensures
            r@ == self.option_hint_view(crate::prompts::opt_text(hint), active),
    ;

    /// One full option line.
    fn option(&self, icon: String, label: String, hint: String, active: bool) -> (r: String)
        ensures
            r@ == self.option_view(icon@, label@, hint@, active),
    ;
}

/// The line a formatter draws for one entry.
pub open spec fn option_line<T: Default + Clone>(
    fmt: &Box<dyn SelectFormatter>,
    o: SelectOption<T>,
    active: bool,
) -> Seq<char> {
    fmt.option_view(
        fmt.option_icon_view(active),
        fmt.option_label_view(o.label@, active),
        fmt.option_hint_view(crate::prompts::opt_text(o.hint), active),
        active,
    )
}

/// The first `n` lines a formatter draws for the window of `opts` that
/// starts at `begin`, joined by line breaks; `active` holds exactly for
/// the entry at window position `cursor`.
pub open spec fn option_lines<T: Default + Clone>(
    fmt: &Box<dyn SelectFormatter>,
    opts: Seq<SelectOption<T>>,
    begin: int,
    n: int,
    cursor: int,
) -> Seq<char>
    decreases n,
{
    if n <= 0 {
        Seq::empty()
    } else if n == 1 {
        option_line(fmt, opts[begin], cursor == 0)
    } else {
        option_lines(fmt, opts, begin, n - 1, cursor) + "\n"@ + option_line(
            fmt,
            opts[begin + n - 1],
            cursor == n - 1,
        )
    }
}

/// The stock formatter for [`Select`].
pub struct DefaultSelectFormatter;

impl DefaultSelectFormatter {
    /// Creates the stock formatter.
    pub fn new() -> Self {
        DefaultSelectFormatter
    }
}

impl SelectFormatter for DefaultSelectFormatter {
    open spec fn option_icon_view(&self, active: bool) -> Seq<char> {
        if active {
            "\u{25c9}"@
        } else {
            "\u{25ef}"@
        }
    }

    open spec fn option_label_view(&self, label: Seq<char>, active: bool) -> Seq<char> {
        label
    }

    open spec fn option_hint_view(&self, hint: Option<Seq<char>>, active: bool) -> Seq<char> {
        match hint {
            Option::Some(h) => " ("@ + h + ")"@,
            Option::None => Seq::empty(),
        }
    }

    open spec fn option_view(
        &self,
        icon: Seq<char>,
        label: Seq<char>,
        hint: Seq<char>,
        active: bool,
    ) -> Seq<char> {
        icon + " "@ + label + hint
    }

    /// A filled marker for the active option, a hollow one otherwise.
    fn option_icon(&self, active: bool) -> (r: String) {
        if active {
            String::from_str("\u{25c9}")
        } else {
            String::from_str("\u{25ef}")
        }
    }

    /// The label, unchanged.
    fn option_label(&self, label: String, active: bool) -> (r: String) {
        label
    }

    /// The hint in parentheses after a space, or nothing.
    fn option_hint(&self, hint: Option<String>, active: bool) -> (r: String) {
        match hint {
            Option::Some(h) => {
                let mut s = String::from_str(" (");
                s.append(h.as_str());
                s.append(")");
                s
            },
            Option::None => String::new(),
        }
    }

    /// Icon, a space, the label, and the hint.
    fn option(&self, icon: String, label: String, hint: String, active: bool) -> (r: String) {
        let mut s = icon;
        s.append(" ");
        s.append(label.as_str());
        s.append(hint.as_str());
        s
    }
}

/// A prompt for choosing one entry out of a list.
///
/// Up and down keys move the highlight, clamped to the list; Enter or
/// Space submits the highlighted entry. Long lists are windowed through
/// [`paginate`].
pub struct Select<T: Default + Clone> {
    formatter: Box<dyn SelectFormatter>,
    message: String,
    hint: Option<String>,
    page_size: usize,
    options: Vec<SelectOption<T>>,
    index: usize,
}

impl<T: Default + Clone> Select<T> {
    #[verifier::type_invariant]
    spec fn inv(&self) -> bool {
        if self.options.len() == 0 {
            self.index == 0
        } else {
            self.index < self.options.len()
        }
    }

    /// The list of entries.
    pub closed spec fn options_spec(&self) -> Seq<SelectOption<T>> {
        self.options@
    }

    /// The index of the highlighted entry.
    pub closed spec fn index_spec(&self) -> int {
        self.index as int
    }

    /// The number of entries shown per page.
    pub closed spec fn page_size_spec(&self) -> int {
        self.page_size as int
    }

    /// The prompt's message.
    pub closed spec fn message_view(&self) -> Seq<char> {
        self.message@
    }

    /// The prompt's hint, if one is set.
    pub closed spec fn hint_view(&self) -> Option<Seq<char>> {
        match self.hint {
            Option::Some(h) => Option::Some(h@),
            Option::None => Option::None,
        }
    }

    /// The text drawn as the live body: the lines of the visible window
    /// computed by [`paginate`] for the current page size and highlight,
    /// joined by line breaks, with exactly the entry at the window cursor
    /// drawn active.
    pub closed spec fn body_text(&self) -> Seq<char> {
        let size = self.page_size_spec();
        let len = self.options_spec().len() as int;
        let index = self.index_spec();
        option_lines(
            &self.formatter,
            self.options_spec(),
            crate::pagination::page_begin(size, len, index),
            crate::pagination::page_end(size, len, index) - crate::pagination::page_begin(
                size,
                len,
                index,
            ),
            crate::pagination::page_cursor(size, len, index),
        )
    }

    /// Whether two prompts carry the same configuration: message, hint,
    /// page size and entries.
    pub open spec fn same_config(&self, other: &Select<T>) -> bool {
        self.message_view() == other.message_view() && self.hint_view() == other.hint_view()
            && self.page_size_spec() == other.page_size_spec() && self.options_spec()
            == other.options_spec()
    }

    /// Creates a choice prompt over the given entries, highlighting the
    /// first one, with eight entries per page.
    pub fn new(message: &str, options: Vec<SelectOption<T>>) -> (r: Self)
        ensures
            r.message_view() == message@,
            r.hint_view() is None,
            r.page_size_spec() == 8,
            r.options_spec() == options@,
            r.index_spec() == 0,
    {
        Select {
            formatter: Box::new(DefaultSelectFormatter::new()),
            message: message.to_owned(),
            hint: Option::None,
            page_size: 8,
            options,
            index: 0,
        }
    }

    /// Replaces the formatter.
    pub fn with_formatter<F: SelectFormatter + 'static>(&mut self, formatter: F)
        ensures
            final(self).same_config(old(self)),
            final(self).index_spec() == old(self).index_spec(),
    {
        proof {
            use_type_invariant(&*self);
        }
        self.formatter = Box::new(formatter);
    }

    /// Sets the hint message.
    pub fn with_hint(&mut self, hint: &str)
        ensures
            final(self).hint_view() == Option::Some(hint@),
            final(self).message_view() == old(self).message_view(),
            final(self).page_size_spec() == old(self).page_size_spec(),
            final(self).options_spec() == old(self).options_spec(),
            final(self).index_spec() == old(self).index_spec(),
    {
        proof {
            use_type_invariant(&*self);
        }
        self.hint = Option::Some(hint.to_owned());
    }

    /// Sets the number of entries shown per page.
    pub fn with_page_size(&mut self, page_size: usize)
        ensures
            final(self).page_size_spec() == page_size,
            final(self).message_view() == old(self).message_view(),
            final(self).hint_view() == old(self).hint_view(),
            final(self).options_spec() == old(self).options_spec(),
            final(self).index_spec() == old(self).index_spec(),
    {
        proof {
            use_type_invariant(&*self);
        }
        self.page_size = page_size;
    }
}

impl<T: Default + Clone> Prompt for Select<T> {
    type Output = T;

    open spec fn ready(&self) -> bool {
        self.options_spec().len() > 0
    }

    /// Refuses an empty list of entries.
    fn setup(&mut self) -> (r: Result<(), Error>)
        ensures
            r is Ok <==> old(self).options_spec().len() > 0,
            r matches Err(e) ==> (e matches Error::Config(m) && m@
                == "options cannot be empty."@),
            final(self).same_config(old(self)),
            final(self).index_spec() == old(self).index_spec(),
    {
        if self.options.len() == 0 {
            return Result::Err(Error::Config(String::from_str("options cannot be empty.")));
        }
        Result::Ok(())
    }

    fn validate(&self) -> (r: Result<(), String>)
        ensures
            r is Ok,
    {
        Result::Ok(())
    }

    /// One key event: cancel keys cancel; Enter or Space submits the
    /// highlighted entry; up and down keys move the highlight, stopping
    /// at the two ends of the list; everything else is ignored.
    fn handle(&mut self, code: KeyCode, modifiers: KeyModifiers) -> (state: PromptState)
        ensures
            final(self).same_config(old(self)),
            is_cancel_key(code, modifiers) ==> state is Cancel && final(self).index_spec() == old(
                self,
            ).index_spec(),
            !is_cancel_key(code, modifiers) && (code is Enter || code == KeyCode::Char(' '))
                ==> state is Submit && final(self).index_spec() == old(self).index_spec(),
            !is_cancel_key(code, modifiers) && !(code is Enter || code == KeyCode::Char(' '))
                && is_up_key(code, modifiers) ==> state is Active && final(self).index_spec() == (
            if old(self).index_spec() > 0 {
                old(self).index_spec() - 1
            } else {
                0int
            }),
            !is_cancel_key(code, modifiers) && !(code is Enter || code == KeyCode::Char(' '))
                && !is_up_key(code, modifiers) && is_down_key(code, modifiers) ==> state is Active
                && final(self).index_spec() == (if old(self).index_spec() + 1 < old(
                self,
            ).options_spec().len() {
                old(self).index_spec() + 1
            } else {
                old(self).index_spec()
            }),
            !is_cancel_key(code, modifiers) && !(code is Enter || code == KeyCode::Char(' '))
                && !is_up_key(code, modifiers) && !is_down_key(code, modifiers) ==> state
                is Active && final(self).index_spec() == old(self).index_spec(),
    {
        proof {
            use_type_invariant(&*self);
        }
        if let KeyCode::Esc = code {
            return PromptState::Cancel;
        }
        if let (KeyCode::Char('c'), KeyModifiers::CONTROL) = (code, modifiers) {
            return PromptState::Cancel;
        }
        match (code, modifiers) {
            (KeyCode::Enter, _) | (KeyCode::Char(' '), _) => PromptState::Submit,
            (KeyCode::Up, _) | (KeyCode::Char('k'), _) | (
                KeyCode::Char('p'),
                KeyModifiers::CONTROL,
            ) => {
                if self.index > 0 {
                    self.index = self.index - 1;
                }
                PromptState::Active
            },
            (KeyCode::Down, _) | (KeyCode::Char('j'), _) | (
                KeyCode::Char('n'),
                KeyModifiers::CONTROL,
            ) => {
                if self.index + 1 < self.options.len() {
                    self.index = self.index + 1;
                }
                PromptState::Active
            },
            _ => PromptState::Active,
        }
    }

    /// The submitted value: a clone of the highlighted entry's value.
    fn submit(&mut self) -> (r: Self::Output)
        ensures
            cloned::<T>(old(self).options_spec()[old(self).index_spec()].value, r),
            final(self).same_config(old(self)),
            final(self).index_spec() == old(self).index_spec(),
    {
        proof {
            use_type_invariant(&*self);
        }
        let opt = &self.options[self.index];
        opt.value.clone()
    }

    /// After submission, shows the chosen entry's label as finished text;
    /// while live, shows the visible window of the list as the body, one
    /// formatted line per entry.
    fn render(&mut self, state: &PromptState) -> (r: Result<RenderPayload, String>)
        ensures
            r is Ok,
            r matches Ok(p) ==> p.message@ == final(self).message_view(),
            state is Submit ==> (r matches Ok(p) ==> p.body is Empty),
            state is Submit && old(self).options_spec().len() > 0 ==> (r matches Ok(p) ==> (
            p.input matches PromptInput::Raw(s) && s@ == old(self).options_spec()[old(
                self,
            ).index_spec()].label@)),
            !(state is Submit) ==> (r matches Ok(p) ==> (p.body matches PromptBody::Raw(b) && b@
                == old(self).body_text() && p.input is Empty)),
            final(self).same_config(old(self)),
            final(self).index_spec() == old(self).index_spec(),
    {
        proof {
            use_type_invariant(&*self);
        }
        let payload = RenderPayload::new(
            self.message.clone(),
            clone_opt_string(&self.hint),
            Option::None,
        );
        match state {
            PromptState::Submit => {
                if self.options.len() == 0 {
                    return Result::Ok(payload);
                }
                let opt = &self.options[self.index];
                Result::Ok(payload.input(PromptInput::Raw(opt.label.clone())))
            },
            _ => {
                let ghost size = self.page_size_spec();
                let ghost len = self.options_spec().len() as int;
                let ghost index = self.index_spec();
                let ghost begin = crate::pagination::page_begin(size, len, index);
                let page = paginate(self.page_size, self.options.as_slice(), self.index);
                let mut body = String::new();
                let mut i: usize = 0;
                while i < page.items.len()
                    invariant
                        *self == *old(self),
                        i <= page.items@.len(),
                        page.items@ == self.options_spec().subrange(
                            begin,
                            crate::pagination::page_end(size, len, index),
                        ),
                        page.cursor == crate::pagination::page_cursor(size, len, index),
                        size == self.page_size_spec(),
                        len == self.options_spec().len() as int,
                        index == self.index_spec(),
                        begin == crate::pagination::page_begin(size, len, index),
                        body@ == option_lines(
                            &self.formatter,
                            self.options_spec(),
                            begin,
                            i as int,
                            page.cursor as int,
                        ),
                    decreases page.items.len() - i,
                {
                    let ghost body_before = body@;
                    let opt = vstd::slice::slice_index_get(page.items, i);
                    let active = i == page.cursor;
                    let icon = self.formatter.option_icon(active);
                    let label = self.formatter.option_label(opt.label.clone(), active);
                    let hint = self.formatter.option_hint(clone_opt_string(&opt.hint), active);
                    let line = self.formatter.option(icon, label, hint, active);
                    if i > 0 {
                        body.append("\n");
                    }
                    body.append(line.as_str());
                    proof {
                        assert(page.items@[i as int] == self.options_spec()[begin + i]);
                        assert(line@ == option_line(
                            &self.formatter,
                            self.options_spec()[begin + i],
                            active,
                        ));
                        if i == 0 {
                            assert(body@ =~= option_lines(
                                &self.formatter,
                                self.options_spec(),
                                begin,
                                1int,
                                page.cursor as int,
                            ));
                        } else {
                            assert(body@ =~= body_before + "\n"@ + line@);
                        }
                    }
                    i = i + 1;
                }
                proof {
                    assert(body@ == old(self).body_text());
                }
                Result::Ok(payload.body(PromptBody::Raw(body)))
            },
        }
    }
}

} // verus!
