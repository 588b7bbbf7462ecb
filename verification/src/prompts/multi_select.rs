//! Any number of choices out of a list.

use vstd::prelude::*;
use crate::decimal::dec_digits;
use crate::decimal::usize_to_string;
use crate::error::Error;
use crate::event::KeyCode;
use crate::event::KeyModifiers;
use crate::pagination::paginate;
use crate::prompt::Prompt;
use crate::prompt::PromptBody;
use crate::prompt::PromptInput;
use crate::prompt::PromptState;
use crate::prompt::RenderPayload;
use crate::prompts::clone_opt_string;
use crate::prompts::is_cancel_key;
use crate::prompts::is_down_key;
use crate::prompts::is_up_key;

verus! {

use vstd::pervasive::cloned;
use vstd::string::StringExecFns;

/// One entry of a [`MultiSelect`] prompt: a label, the value contributed
/// when it is picked, an optional hint, and whether it is picked.
#[derive(Debug, Clone)]
pub struct MultiSelectOption<T: Default + Clone> {
    /// The label shown in the list.
    pub label: String,
    /// The value contributed when this entry is picked.
    pub value: T,
    /// An optional aid shown beside the label.
    pub hint: Option<String>,
    /// Whether this entry is currently picked.
    pub selected: bool,
}

impl<T: Default + Clone> MultiSelectOption<T> {
    /// Creates an unpicked entry with the given label and value.
    pub fn new(label: &str, value: T) -> (r: Self)
        ensures
            r.label@ == label@,
            r.value == value,
            r.hint is None,
            !r.selected,
    {
        MultiSelectOption {
            label: label.to_owned(),
            value,
            hint: Option::None,
            selected: false,
        }
    }

    /// The same entry with a hint beside the label.
    pub fn with_hint(self, hint: &str) -> (r: Self)
        ensures
            r.label == self.label,
            r.value == self.value,
            r.selected == self.selected,
            r.hint matches Some(h) && h@ == hint@,
    {
        MultiSelectOption { hint: Option::Some(hint.to_owned()), ..self }
    }
}

/// The same entry with its picked flag set to `b`.
pub open spec fn with_selected<T: Default + Clone>(
    o: MultiSelectOption<T>,
    b: bool,
) -> MultiSelectOption<T> {
    MultiSelectOption { selected: b, ..o }
}

/// How many entries of the list are picked.
pub open spec fn selected_count<T: Default + Clone>(s: Seq<MultiSelectOption<T>>) -> int
    decreases s.len(),
{
    if s.len() == 0 {
        0
    } else {
        selected_count(s.drop_last()) + if s.last().selected {
            1int
        } else {
            0int
        }
    }
}

/// The values of the picked entries, in list order.
pub open spec fn selected_values<T: Default + Clone>(s: Seq<MultiSelectOption<T>>) -> Seq<T>
    decreases s.len(),
{
    if s.len() == 0 {
        Seq::empty()
    } else {
        selected_values(s.drop_last()) + if s.last().selected {
            seq![s.last().value]
        } else {
            Seq::empty()
        }
    }
}

/// Whether a submission of the given picks is accepted: at least one
/// entry must be picked when the prompt is required, and the number of
/// picks must lie within `[min, max]`.
pub open spec fn ms_submittable<T: Default + Clone>(
    s: Seq<MultiSelectOption<T>>,
    required: bool,
    min: int,
    max: int,
) -> bool {
    &&& !(selected_count(s) == 0 && required)
    &&& min <= selected_count(s) <= max
}

/// Formats the option lines a [`MultiSelect`] prompt shows.
///
/// Each formatting method has a specification view — a `spec fn` giving
/// the text the method returns — so that prompt contracts can name every
/// drawn line and message exactly, whatever formatter is installed.
pub trait MultiSelectFormatter {
    /// The text of the marker in front of an option.
    spec fn option_icon_view(&self, active: bool, selected: bool) -> Seq<char>;

    /// The text of the option's label.
    spec fn option_label_view(&self, label: Seq<char>, active: bool, selected: bool) -> Seq<char>;

    /// The text of the option's hint.
    spec fn option_hint_view(&self, hint: Option<Seq<char>>, active: bool, selected: bool) -> Seq<
        char,
    >;

    /// The text of one full option line.
    spec fn option_view(
        &self,
        icon: Seq<char>,
        label: Seq<char>,
        hint: Seq<char>,
        active: bool,
        selected: bool,
    ) -> Seq<char>;

    /// The text of the submitted picks.
    spec fn submit_view(&self, labels: Seq<String>) -> Seq<char>;

    /// The text of the required-pick message.
    spec fn err_required_view(&self) -> Seq<char>;

    /// The text of the too-few-picks message for the given minimum.
    spec fn err_min_view(&self, min: int) -> Seq<char>;

    /// The text of the too-many-picks message for the given maximum.
    spec fn err_max_view(&self, max: int) -> Seq<char>;

    /// The marker in front of an option.
    fn option_icon(&self, active: bool, selected: bool) -> (r: String)
        ensures
            r@ == self.option_icon_view(active, selected),
    ;

    /// The option's label, possibly emphasised when active.
    fn option_label(&self, label: String, active: bool, selected: bool) -> (r: String)
        ensures
            r@ == self.option_label_view(label@, active, selected),
    ;

    /// The option's hint, or nothing when it has none.
    fn option_hint(&self, hint: Option<String>, active: bool, selected: bool) -> (r: String)
        ensures
            r@ == self.option_hint_view(crate::prompts::opt_text(hint), active, selected),
    ;

    /// One full option line.
    fn option(
        &self,
        icon: String,
        label: String,
        hint: String,
        active: bool,
        selected: bool,
    ) -> (r: String)
        ensures
            r@ == self.option_view(icon@, label@, hint@, active, selected),
    ;

    /// The submitted picks, as one line of text.
    fn submit(&self, labels: Vec<String>) -> (r: String)
        ensures
            r@ == self.submit_view(labels@),
    ;

    /// The message shown when nothing is picked on a required prompt.
    fn err_required(&self) -> (r: String)
        ensures
            r@ == self.err_required_view(),
    ;

    /// The message shown when fewer entries are picked than allowed.
    fn err_min(&self, min: usize) -> (r: String)
        ensures
            r@ == self.err_min_view(min as int),
    ;

    /// The message shown when more entries are picked than allowed.
    fn err_max(&self, max: usize) -> (r: String)
        ensures
            r@ == self.err_max_view(max as int),
    ;
}

/// The labels of the picked entries, in list order.
pub open spec fn selected_labels<T: Default + Clone>(s: Seq<MultiSelectOption<T>>) -> Seq<String>
    decreases s.len(),
{
    if s.len() == 0 {
        Seq::empty()
    } else {
        selected_labels(s.drop_last()) + if s.last().selected {
            seq![s.last().label]
        } else {
            Seq::empty()
        }
    }
}

/// The line a formatter draws for one entry.
pub open spec fn ms_option_line<T: Default + Clone>(
    fmt: &Box<dyn MultiSelectFormatter>,
    o: MultiSelectOption<T>,
    active: bool,
) -> Seq<char> {
    fmt.option_view(
        fmt.option_icon_view(active, o.selected),
        fmt.option_label_view(o.label@, active, o.selected),
        fmt.option_hint_view(crate::prompts::opt_text(o.hint), active, o.selected),
        active,
        o.selected,
    )
}

/// The first `n` lines a formatter draws for the window of `opts` that
/// starts at `begin`, joined by line breaks; `active` holds exactly for
/// the entry at window position `cursor`.
pub open spec fn ms_option_lines<T: Default + Clone>(
    fmt: &Box<dyn MultiSelectFormatter>,
    opts: Seq<MultiSelectOption<T>>,
    begin: int,
    n: int,
    cursor: int,
) -> Seq<char>
    decreases n,
{
    if n <= 0 {
        Seq::empty()
    } else if n == 1 {
        ms_option_line(fmt, opts[begin], cursor == 0)
    } else {
        ms_option_lines(fmt, opts, begin, n - 1, cursor) + "\n"@ + ms_option_line(
            fmt,
            opts[begin + n - 1],
            cursor == n - 1,
        )
    }
}

/// The picked labels joined by a comma and a space.
pub open spec fn joined_labels(labels: Seq<String>) -> Seq<char>
    decreases labels.len(),
{
    if labels.len() == 0 {
        Seq::empty()
    } else if labels.len() == 1 {
        labels[0]@
    } else {
        joined_labels(labels.drop_last()) + ", "@ + labels.last()@
    }
}

/// The stock formatter for [`MultiSelect`].
pub struct DefaultMultiSelectFormatter;

impl DefaultMultiSelectFormatter {
    /// Creates the stock formatter.
    pub fn new() -> Self {
        DefaultMultiSelectFormatter
    }
}

impl MultiSelectFormatter for DefaultMultiSelectFormatter {
    open spec fn option_icon_view(&self, active: bool, selected: bool) -> Seq<char> {
        if selected {
            "\u{25c9}"@
        } else {
            "\u{25ef}"@
        }
    }

    open spec fn option_label_view(&self, label: Seq<char>, active: bool, selected: bool) -> Seq<
        char,
    > {
        label
    }

    open spec fn option_hint_view(
        &self,
        hint: Option<Seq<char>>,
        active: bool,
        selected: bool,
    ) -> Seq<char> {
        match hint {
            Option::Some(h) => " ("@ + h + ")"@,
            Option::None => Seq::empty(),
        }
    }

    open spec fn option_view(
        &self,
        icon: Seq<char>,
        label: Seq<char>,
        hint: Seq<char>,
        active: bool,
        selected: bool,
    ) -> Seq<char> {
        icon + " "@ + label + hint
    }

    open spec fn submit_view(&self, labels: Seq<String>) -> Seq<char> {
        joined_labels(labels)
    }

    open spec fn err_required_view(&self) -> Seq<char> {
        "This field is required."@
    }

    open spec fn err_min_view(&self, min: int) -> Seq<char> {
        "Please select at least "@ + dec_digits(min as nat) + " options."@
    }

    open spec fn err_max_view(&self, max: int) -> Seq<char> {
        "Please select no more than "@ + dec_digits(max as nat) + " options."@
    }

    /// A filled marker for a picked option, a hollow one otherwise.
    fn option_icon(&self, active: bool, selected: bool) -> (r: String) {
        if selected {
            String::from_str("\u{25c9}")
        } else {
            String::from_str("\u{25ef}")
        }
    }

    /// The label, unchanged.
    fn option_label(&self, label: String, active: bool, selected: bool) -> (r: String) {
        label
    }

    /// The hint in parentheses after a space, or nothing.
    fn option_hint(&self, hint: Option<String>, active: bool, selected: bool) -> (r: String) {
        match hint {
            Option::Some(h) => {
                let mut s = String::from_str(" (");
                s.append(h.as_str());
                s.append(")");
                s
            },
            Option::None => String::new(),
        }
    }

    /// Icon, a space, the label, and the hint.
    fn option(
        &self,
        icon: String,
        label: String,
        hint: String,
        active: bool,
        selected: bool,
    ) -> (r: String) {
        let mut s = icon;
        s.append(" ");
        s.append(label.as_str());
        s.append(hint.as_str());
        s
    }

    /// The labels joined by a comma and a space.
    fn submit(&self, labels: Vec<String>) -> (r: String) {
        let mut s = String::new();
        let mut i: usize = 0;
        while i < labels.len()
            invariant
                i <= labels@.len(),
                s@ == joined_labels(labels@.take(i as int)),
            decreases labels@.len() - i,
        {
            if i > 0 {
                s.append(", ");
            }
            s.append(labels[i].as_str());
            proof {
                let t = labels@.take(i + 1);
                assert(t.drop_last() =~= labels@.take(i as int));
                assert(t.last() == labels@[i as int]);
                if i == 0 {
                    assert(joined_labels(t) == labels@[0]@);
                }
            }
            i = i + 1;
        }
        proof {
            assert(labels@.take(labels@.len() as int) =~= labels@);
        }
        s
    }

    /// The stock message for an empty required pick.
    fn err_required(&self) -> (r: String) {
        String::from_str("This field is required.")
    }

    /// The stock message for too few picks, naming the minimum.
    fn err_min(&self, min: usize) -> (r: String) {
        let mut s = String::from_str("Please select at least ");
        s.append(usize_to_string(min).as_str());
        s.append(" options.");
        s
    }

    /// The stock message for too many picks, naming the maximum.
    fn err_max(&self, max: usize) -> (r: String) {
        let mut s = String::from_str("Please select no more than ");
        s.append(usize_to_string(max).as_str());
        s.append(" options.");
        s
    }
}

/// A prompt for picking any number of entries out of a list.
///
/// Up and down keys move the highlight; Space toggles the highlighted
/// entry; `a` picks every entry and `i` inverts every pick; Enter submits
/// the picked values. Long lists are windowed through [`paginate`].
pub struct MultiSelect<T: Default + Clone> {
    formatter: Box<dyn MultiSelectFormatter>,
    message: String,
    hint: Option<String>,
    required: bool,
    min: usize,
    max: usize,
    page_size: usize,
    options: Vec<MultiSelectOption<T>>,
    index: usize,
}

impl<T: Default + Clone> MultiSelect<T> {
    #[verifier::type_invariant]
    spec fn inv(&self) -> bool {
        if self.options.len() == 0 {
            self.index == 0
        } else {
            self.index < self.options.len()
        }
    }

    /// The list of entries, with their current picks.
    pub closed spec fn options_spec(&self) -> Seq<MultiSelectOption<T>> {
        self.options@
    }

    /// The index of the highlighted entry.
    pub closed spec fn index_spec(&self) -> int {
        self.index as int
    }

    /// Whether an empty pick is rejected on submission.
    pub closed spec fn is_required(&self) -> bool {
        self.required
    }

    /// The smallest accepted number of picks.
    pub closed spec fn min_spec(&self) -> int {
        self.min as int
    }

    /// The largest accepted number of picks.
    pub closed spec fn max_spec(&self) -> int {
        self.max as int
    }

    /// The number of entries shown per page.
    pub closed spec fn page_size_spec(&self) -> int {
        self.page_size as int
    }

    /// The prompt's message.
    pub closed spec fn message_view(&self) -> Seq<char> {
        self.message@
    }

    /// The prompt's hint, if one is set.
    pub closed spec fn hint_view(&self) -> Option<Seq<char>> {
        match self.hint {
            Option::Some(h) => Option::Some(h@),
            Option::None => Option::None,
        }
    }

    /// The message the installed formatter gives for an empty required
    /// pick.
    pub closed spec fn required_message(&self) -> Seq<char> {
        self.formatter.err_required_view()
    }

    /// The message the installed formatter gives for fewer picks than a
    /// minimum of `n`.
    pub closed spec fn min_message_for(&self, n: int) -> Seq<char> {
        self.formatter.err_min_view(n)
    }

    /// The message the installed formatter gives for more picks than a
    /// maximum of `n`.
    pub closed spec fn max_message_for(&self, n: int) -> Seq<char> {
        self.formatter.err_max_view(n)
    }

    /// The message the installed formatter gives for fewer picks than the
    /// configured minimum.
    pub open spec fn min_message(&self) -> Seq<char> {
        self.min_message_for(self.min_spec())
    }

    /// The message the installed formatter gives for more picks than the
    /// configured maximum.
    pub open spec fn max_message(&self) -> Seq<char> {
        self.max_message_for(self.max_spec())
    }

    /// Whether two prompts carry formatters with the same messages.
    pub open spec fn same_messages(&self, other: &MultiSelect<T>) -> bool {
        self.required_message() == other.required_message() && (forall|n: int|
            #[trigger] self.min_message_for(n) == other.min_message_for(n)) && (forall|n: int|
            #[trigger] self.max_message_for(n) == other.max_message_for(n))
    }

    /// The text the installed formatter gives for the submitted picks:
    /// its view of the picked labels, in list order.
    pub closed spec fn submit_text(&self) -> Seq<char> {
        self.formatter.submit_view(selected_labels(self.options_spec()))
    }

    /// The text drawn as the live body: the lines of the visible window
    /// computed by [`paginate`] for the current page size and highlight,
    /// joined by line breaks, with exactly the entry at the window cursor
    /// drawn active.
    pub closed spec fn body_text(&self) -> Seq<char> {
        let size = self.page_size_spec();
        let len = self.options_spec().len() as int;
        let index = self.index_spec();
        ms_option_lines(
            &self.formatter,
            self.options_spec(),
            crate::pagination::page_begin(size, len, index),
            crate::pagination::page_end(size, len, index) - crate::pagination::page_begin(
                size,
                len,
                index,
            ),
            crate::pagination::page_cursor(size, len, index),
        )
    }

    /// Whether two prompts carry the same configuration: message, hint,
    /// required flag, pick bounds and page size.
    pub open spec fn same_config(&self, other: &MultiSelect<T>) -> bool {
        self.message_view() == other.message_view() && self.hint_view() == other.hint_view()
            && self.is_required() == other.is_required() && self.min_spec() == other.min_spec()
            && self.max_spec() == other.max_spec() && self.page_size_spec()
            == other.page_size_spec()
    }

    /// Creates a pick prompt over the given entries: required, no bounds
    /// beyond the list itself, eight entries per page, highlighting the
    /// first entry.
    pub fn new(message: &str, options: Vec<MultiSelectOption<T>>) -> (r: Self)
        ensures
            r.message_view() == message@,
            r.required_message() == "This field is required."@,
            forall|n: int| #[trigger] r.min_message_for(n) == "Please select at least "@
                + dec_digits(n as nat) + " options."@,
            forall|n: int| #[trigger] r.max_message_for(n) == "Please select no more than "@
                + dec_digits(n as nat) + " options."@,
            r.hint_view() is None,
            r.is_required(),
            r.min_spec() == 0,
            r.max_spec() == usize::MAX,
            r.page_size_spec() == 8,
            r.options_spec() == options@,
            r.index_spec() == 0,
    {
        MultiSelect {
            formatter: Box::new(DefaultMultiSelectFormatter::new()),
            message: message.to_owned(),
            hint: Option::None,
            required: true,
            min: 0,
            max: usize::MAX,
            page_size: 8,
            options,
            index: 0,
        }
    }

    /// Replaces the formatter.
    pub fn with_formatter<F: MultiSelectFormatter + 'static>(&mut self, formatter: F)
        ensures
            final(self).same_config(old(self)),
            final(self).options_spec() == old(self).options_spec(),
            final(self).index_spec() == old(self).index_spec(),
    {
        proof {
            use_type_invariant(&*self);
        }
        self.formatter = Box::new(formatter);
    }

    /// Sets the hint message.
    pub fn with_hint(&mut self, hint: &str)
        ensures
            final(self).hint_view() == Option::Some(hint@),
            final(self).message_view() == old(self).message_view(),
            final(self).is_required() == old(self).is_required(),
            final(self).min_spec() == old(self).min_spec(),
            final(self).max_spec() == old(self).max_spec(),
            final(self).page_size_spec() == old(self).page_size_spec(),
            final(self).options_spec() == old(self).options_spec(),
            final(self).index_spec() == old(self).index_spec(),
            final(self).same_messages(old(self)),
    {
        proof {
            use_type_invariant(&*self);
        }
        self.hint = Option::Some(hint.to_owned());
    }

    /// Sets whether an empty pick is rejected on submission.
    pub fn with_required(&mut self, required: bool)
        ensures
            final(self).is_required() == required,
            final(self).message_view() == old(self).message_view(),
            final(self).hint_view() == old(self).hint_view(),
            final(self).min_spec() == old(self).min_spec(),
            final(self).max_spec() == old(self).max_spec(),
            final(self).page_size_spec() == old(self).page_size_spec(),
            final(self).options_spec() == old(self).options_spec(),
            final(self).index_spec() == old(self).index_spec(),
            final(self).same_messages(old(self)),
    {
        proof {
            use_type_invariant(&*self);
        }
        self.required = required;
    }

    /// Sets the smallest accepted number of picks.
    pub fn with_min(&mut self, value: usize)
        ensures
            final(self).min_spec() == value,
            final(self).max_spec() == old(self).max_spec(),
            final(self).message_view() == old(self).message_view(),
            final(self).hint_view() == old(self).hint_view(),
            final(self).is_required() == old(self).is_required(),
            final(self).page_size_spec() == old(self).page_size_spec(),
            final(self).options_spec() == old(self).options_spec(),
            final(self).index_spec() == old(self).index_spec(),
            final(self).same_messages(old(self)),
    {
        proof {
            use_type_invariant(&*self);
        }
        self.min = value;
    }

    /// Sets the largest accepted number of picks.
    pub fn with_max(&mut self, value: usize)
        ensures
            final(self).max_spec() == value,
            final(self).min_spec() == old(self).min_spec(),
            final(self).message_view() == old(self).message_view(),
            final(self).hint_view() == old(self).hint_view(),
            final(self).is_required() == old(self).is_required(),
            final(self).page_size_spec() == old(self).page_size_spec(),
            final(self).options_spec() == old(self).options_spec(),
            final(self).index_spec() == old(self).index_spec(),
            final(self).same_messages(old(self)),
    {
        proof {
            use_type_invariant(&*self);
        }
        self.max = value;
    }

    /// Sets the number of entries shown per page.
    pub fn with_page_size(&mut self, page_size: usize)
        ensures
            final(self).page_size_spec() == page_size,
            final(self).min_spec() == old(self).min_spec(),
            final(self).max_spec() == old(self).max_spec(),
            final(self).message_view() == old(self).message_view(),
            final(self).hint_view() == old(self).hint_view(),
            final(self).is_required() == old(self).is_required(),
            final(self).options_spec() == old(self).options_spec(),
            final(self).index_spec() == old(self).index_spec(),
            final(self).same_messages(old(self)),
    {
        proof {
            use_type_invariant(&*self);
        }
        self.page_size = page_size;
    }

    /// How many entries are picked.
    fn count_selected(&self) -> (r: usize)
        ensures
            r == selected_count(self.options_spec()),
    {
        let mut count: usize = 0;
        let mut i: usize = 0;
        while i < self.options.len()
            invariant
                i <= self.options@.len(),
                0 <= count <= i,
                count == selected_count(self.options@.take(i as int)),
            decreases self.options@.len() - i,
        {
            proof {
                let t = self.options@.take(i + 1);
                assert(t.drop_last() =~= self.options@.take(i as int));
                assert(t.last() == self.options@[i as int]);
            }
            if self.options[i].selected {
                count = count + 1;
            }
            i = i + 1;
        }
        proof {
            assert(self.options@.take(self.options@.len() as int) =~= self.options@);
        }
        count
    }

    /// The values of the picked entries, in list order; each is a clone
    /// of the entry's value.
    fn values(&self) -> (r: Vec<T>)
        ensures
            r@.len() == selected_values(self.options_spec()).len(),
            forall|j: int|
                0 <= j < r@.len() ==> cloned::<T>(
                    selected_values(self.options_spec())[j],
                    #[trigger] r@[j],
                ),
    {
        let mut out: Vec<T> = Vec::new();
        let mut i: usize = 0;
        while i < self.options.len()
            invariant
                i <= self.options@.len(),
                out@.len() == selected_values(self.options@.take(i as int)).len(),
                forall|j: int|
                    0 <= j < out@.len() ==> cloned::<T>(
                        selected_values(self.options@.take(i as int))[j],
                        #[trigger] out@[j],
                    ),
            decreases self.options@.len() - i,
        {
            proof {
                let t = self.options@.take(i + 1);
                assert(t.drop_last() =~= self.options@.take(i as int));
                assert(t.last() == self.options@[i as int]);
            }
            if self.options[i].selected {
                out.push(self.options[i].value.clone());
            }
            i = i + 1;
        }
        proof {
            assert(self.options@.take(self.options@.len() as int) =~= self.options@);
        }
        out
    }

    /// The labels of the picked entries, in list order.
    fn selected_label_strings(&self) -> (r: Vec<String>)
        ensures
            r@ == selected_labels(self.options_spec()),
    {
        let mut out: Vec<String> = Vec::new();
        let mut i: usize = 0;
        while i < self.options.len()
            invariant
                i <= self.options@.len(),
                out@ == selected_labels(self.options@.take(i as int)),
            decreases self.options@.len() - i,
        {
            proof {
                let t = self.options@.take(i + 1);
                assert(t.drop_last() =~= self.options@.take(i as int));
                assert(t.last() == self.options@[i as int]);
            }
            if self.options[i].selected {
                out.push(self.options[i].label.clone());
                proof {
                    assert(out@ =~= selected_labels(self.options@.take(i + 1)));
                }
            }
            i = i + 1;
        }
        proof {
            assert(self.options@.take(self.options@.len() as int) =~= self.options@);
        }
        out
    }

    /// Flips the pick of the highlighted entry; no-op on an empty list.
    fn toggle_current(&mut self)
        ensures
            final(self).same_messages(old(self)),
            old(self).options_spec().len() == 0 ==> *final(self) == *old(self),
            old(self).options_spec().len() > 0 ==> final(self).options_spec() == old(self).options_spec().update(
                old(self).index_spec(),
                with_selected(
                    old(self).options_spec()[old(self).index_spec()],
                    !old(self).options_spec()[old(self).index_spec()].selected,
                ),
            ),
            final(self).same_config(old(self)),
            final(self).index_spec() == old(self).index_spec(),
    {
        proof {
            use_type_invariant(&*self);
        }
        if self.options.len() == 0 {
            return ;
        }
        let idx = self.index;
        self.index = 0;
        let mut opts: Vec<MultiSelectOption<T>> = Vec::new();
        core::mem::swap(&mut opts, &mut self.options);
        let mut o = opts.remove(idx);
        o.selected = !o.selected;
        opts.insert(idx, o);
        proof {
            assert(opts@ =~= old(self).options_spec().update(
                idx as int,
                with_selected(
                    old(self).options_spec()[idx as int],
                    !old(self).options_spec()[idx as int].selected,
                ),
            ));
        }
        core::mem::swap(&mut opts, &mut self.options);
        self.index = idx;
    }

    /// Sets every pick, or inverts every pick.
    fn repick_all(&mut self, invert: bool)
        ensures
            final(self).same_messages(old(self)),
            final(self).options_spec().len() == old(self).options_spec().len(),
            forall|j: int|
                0 <= j < old(self).options_spec().len() ==> #[trigger] final(self).options_spec()[j] == with_selected(
                    old(self).options_spec()[j],
                    if invert {
                        !old(self).options_spec()[j].selected
                    } else {
                        true
                    },
                ),
            final(self).same_config(old(self)),
            final(self).index_spec() == old(self).index_spec(),
    {
        proof {
            use_type_invariant(&*self);
        }
        let idx = self.index;
        self.index = 0;
        let mut opts: Vec<MultiSelectOption<T>> = Vec::new();
        core::mem::swap(&mut opts, &mut self.options);
        let ghost orig = opts@;
        let mut out: Vec<MultiSelectOption<T>> = Vec::new();
        while opts.len() > 0
            invariant
                out@.len() + opts@.len() == orig.len(),
                opts@ == orig.skip(out@.len() as int),
                forall|j: int|
                    0 <= j < out@.len() ==> #[trigger] out@[j] == with_selected(
                        orig[j],
                        if invert {
                            !orig[j].selected
                        } else {
                            true
                        },
                    ),
            decreases opts@.len(),
        {
            let ghost k = out@.len() as int;
            let mut o = opts.remove(0);
            proof {
                assert(orig.skip(k)[0] == orig[k]);
                assert(orig.skip(k).remove(0) =~= orig.skip(k + 1));
            }
            if invert {
                o.selected = !o.selected;
            } else {
                o.selected = true;
            }
            out.push(o);
        }
        core::mem::swap(&mut out, &mut self.options);
        self.index = idx;
    }
}

impl<T: Default + Clone> Prompt for MultiSelect<T> {
    type Output = Vec<T>;

    open spec fn ready(&self) -> bool {
        self.options_spec().len() > 0 && self.min_spec() <= self.max_spec()
    }

    /// Refuses an empty list of entries and a pick range whose minimum
    /// exceeds its maximum.
    fn setup(&mut self) -> (r: Result<(), Error>)
        ensures
            r is Ok <==> old(self).options_spec().len() > 0 && old(self).min_spec() <= old(self).max_spec(),
            old(self).options_spec().len() == 0 ==> (r matches Err(Error::Config(m)) && m@
                == "options cannot be empty."@),
            old(self).options_spec().len() > 0 && old(self).min_spec() > old(self).max_spec()
                ==> (r matches Err(Error::Config(m)) && m@
                == "min cannot be greater than max (min="@ + dec_digits(
                old(self).min_spec() as nat,
            ) + ", max="@ + dec_digits(old(self).max_spec() as nat) + ")"@),
            final(self).same_config(old(self)),
            final(self).options_spec() == old(self).options_spec(),
            final(self).index_spec() == old(self).index_spec(),
    {
        if self.options.len() == 0 {
            return Result::Err(Error::Config(String::from_str("options cannot be empty.")));
        }
        if self.min > self.max {
            let mut msg = String::from_str("min cannot be greater than max (min=");
            msg.append(usize_to_string(self.min).as_str());
            msg.append(", max=");
            msg.append(usize_to_string(self.max).as_str());
            msg.append(")");
            return Result::Err(Error::Config(msg));
        }
        Result::Ok(())
    }

    fn validate(&self) -> (r: Result<(), String>)
        ensures
            r is Ok,
    {
        Result::Ok(())
    }

    /// One key event: cancel keys cancel; Enter submits when the picks
    /// pass the submission checks and raises a recoverable error
    /// otherwise; up and down keys move the highlight; Space toggles the
    /// highlighted entry; `a` picks every entry; `i` inverts every pick;
    /// everything else is ignored.
    fn handle(&mut self, code: KeyCode, modifiers: KeyModifiers) -> (state: PromptState)
        ensures
            final(self).same_config(old(self)),
            final(self).same_messages(old(self)),
            is_cancel_key(code, modifiers) ==> state is Cancel && final(self).options_spec()
                == old(self).options_spec() && final(self).index_spec() == old(self).index_spec(),
            !is_cancel_key(code, modifiers) && code is Enter ==> final(self).options_spec() == old(self).options_spec() && final(self).index_spec() == old(self).index_spec(),
            !is_cancel_key(code, modifiers) && code is Enter && ms_submittable(
                old(self).options_spec(),
                old(self).is_required(),
                old(self).min_spec(),
                old(self).max_spec(),
            ) ==> state is Submit,
            !is_cancel_key(code, modifiers) && code is Enter && selected_count(
                old(self).options_spec(),
            ) == 0 && old(self).is_required() ==> (state matches PromptState::Error(m) && m@
                == old(self).required_message()),
            !is_cancel_key(code, modifiers) && code is Enter && !(selected_count(
                old(self).options_spec(),
            ) == 0 && old(self).is_required()) && selected_count(old(self).options_spec()) < old(
                self,
            ).min_spec() ==> (state matches PromptState::Error(m) && m@ == old(
                self,
            ).min_message()),
            !is_cancel_key(code, modifiers) && code is Enter && !(selected_count(
                old(self).options_spec(),
            ) == 0 && old(self).is_required()) && selected_count(old(self).options_spec()) >= old(
                self,
            ).min_spec() && selected_count(old(self).options_spec()) > old(self).max_spec() ==> (
            state matches PromptState::Error(m) && m@ == old(self).max_message()),
            !is_cancel_key(code, modifiers) && !(code is Enter) && is_up_key(code, modifiers)
                ==> state is Active && final(self).options_spec() == old(self).options_spec()
                && final(self).index_spec() == (if old(self).index_spec() > 0 {
                old(self).index_spec() - 1
            } else {
                0int
            }),
            !is_cancel_key(code, modifiers) && !(code is Enter) && !is_up_key(code, modifiers)
                && is_down_key(code, modifiers) ==> state is Active && final(self).options_spec()
                == old(self).options_spec() && final(self).index_spec() == (if old(self).index_spec() + 1 < old(self).options_spec().len() {
                old(self).index_spec() + 1
            } else {
                old(self).index_spec()
            }),
            !is_cancel_key(code, modifiers) && !(code is Enter) && !is_up_key(code, modifiers)
                && !is_down_key(code, modifiers) && code == KeyCode::Char(' ') && modifiers
                is NONE && old(self).options_spec().len() > 0 ==> state is Active && final(self).options_spec() == old(self).options_spec().update(
                old(self).index_spec(),
                with_selected(
                    old(self).options_spec()[old(self).index_spec()],
                    !old(self).options_spec()[old(self).index_spec()].selected,
                ),
            ) && final(self).index_spec() == old(self).index_spec(),
            !is_cancel_key(code, modifiers) && !(code is Enter) && !is_up_key(code, modifiers)
                && !is_down_key(code, modifiers) && code == KeyCode::Char('a') && modifiers
                is NONE ==> state is Active && final(self).options_spec().len() == old(self).options_spec().len() && (forall|j: int|
                0 <= j < old(self).options_spec().len() ==> #[trigger] final(self).options_spec()[j] == with_selected(old(self).options_spec()[j], true)) && final(self).index_spec() == old(self).index_spec(),
            !is_cancel_key(code, modifiers) && !(code is Enter) && !is_up_key(code, modifiers)
                && !is_down_key(code, modifiers) && code == KeyCode::Char('i') && modifiers
                is NONE ==> state is Active && final(self).options_spec().len() == old(self).options_spec().len() && (forall|j: int|
                0 <= j < old(self).options_spec().len() ==> #[trigger] final(self).options_spec()[j] == with_selected(
                    old(self).options_spec()[j],
                    !old(self).options_spec()[j].selected,
                )) && final(self).index_spec() == old(self).index_spec(),
            !is_cancel_key(code, modifiers) && !(code is Enter) && !is_up_key(code, modifiers)
                && !is_down_key(code, modifiers) && !(code is Char && modifiers is NONE)
                ==> state is Active && final(self).options_spec() == old(self).options_spec()
                && final(self).index_spec() == old(self).index_spec(),
    {
        proof {
            use_type_invariant(&*self);
        }
        if let KeyCode::Esc = code {
            return PromptState::Cancel;
        }
        if let (KeyCode::Char('c'), KeyModifiers::CONTROL) = (code, modifiers) {
            return PromptState::Cancel;
        }
        if let KeyCode::Enter = code {
            let count = self.count_selected();
            if count == 0 && self.required {
                return PromptState::Error(self.formatter.err_required());
            }
            if count < self.min {
                return PromptState::Error(self.formatter.err_min(self.min));
            }
            if count > self.max {
                return PromptState::Error(self.formatter.err_max(self.max));
            }
            return PromptState::Submit;
        }
        match (code, modifiers) {
            (KeyCode::Up, _) | (KeyCode::Char('k'), _) | (
                KeyCode::Char('p'),
                KeyModifiers::CONTROL,
            ) => {
                if self.index > 0 {
                    self.index = self.index - 1;
                }
                PromptState::Active
            },
            (KeyCode::Down, _) | (KeyCode::Char('j'), _) | (
                KeyCode::Char('n'),
                KeyModifiers::CONTROL,
            ) => {
                if self.index + 1 < self.options.len() {
                    self.index = self.index + 1;
                }
                PromptState::Active
            },
            (KeyCode::Char(' '), KeyModifiers::NONE) => {
                self.toggle_current();
                PromptState::Active
            },
            (KeyCode::Char('a'), KeyModifiers::NONE) => {
                self.repick_all(false);
                PromptState::Active
            },
            (KeyCode::Char('i'), KeyModifiers::NONE) => {
                self.repick_all(true);
                PromptState::Active
            },
            _ => PromptState::Active,
        }
    }

    /// The submitted value: clones of the picked entries' values, in list
    /// order.
    fn submit(&mut self) -> (r: Self::Output)
        ensures
            r@.len() == selected_values(old(self).options_spec()).len(),
            forall|j: int|
                0 <= j < r@.len() ==> cloned::<T>(
                    selected_values(old(self).options_spec())[j],
                    #[trigger] r@[j],
                ),
            final(self).options_spec() == old(self).options_spec(),
    {
        self.values()
    }

    /// After submission, shows the picked labels as finished text; while
    /// live, shows the visible window of the list as the body, one
    /// formatted line per entry.
    fn render(&mut self, state: &PromptState) -> (r: Result<RenderPayload, String>)
        ensures
            r is Ok,
            r matches Ok(p) ==> p.message@ == final(self).message_view(),
            state is Submit ==> (r matches Ok(p) ==> (p.input matches PromptInput::Raw(s) && s@
                == old(self).submit_text() && p.body is Empty)),
            !(state is Submit) ==> (r matches Ok(p) ==> (p.body matches PromptBody::Raw(b) && b@
                == old(self).body_text() && p.input is Empty)),
            final(self).same_config(old(self)),
            final(self).options_spec() == old(self).options_spec(),
            final(self).index_spec() == old(self).index_spec(),
    {
        proof {
            use_type_invariant(&*self);
        }
        let payload = RenderPayload::new(
            self.message.clone(),
            clone_opt_string(&self.hint),
            Option::None,
        );
        match state {
            PromptState::Submit => {
                let labels = self.selected_label_strings();
                Result::Ok(payload.input(PromptInput::Raw(self.formatter.submit(labels))))
            },
            _ => {
                let ghost size = self.page_size_spec();
                let ghost len = self.options_spec().len() as int;
                let ghost index = self.index_spec();
                let ghost begin = crate::pagination::page_begin(size, len, index);
                let page = paginate(self.page_size, self.options.as_slice(), self.index);
                let mut body = String::new();
                let mut i: usize = 0;
                while i < page.items.len()
                    invariant
                        *self == *old(self),
                        i <= page.items@.len(),
                        page.items@ == self.options_spec().subrange(
                            begin,
                            crate::pagination::page_end(size, len, index),
                        ),
                        page.cursor == crate::pagination::page_cursor(size, len, index),
                        size == self.page_size_spec(),
                        len == self.options_spec().len() as int,
                        index == self.index_spec(),
                        begin == crate::pagination::page_begin(size, len, index),
                        body@ == ms_option_lines(
                            &self.formatter,
                            self.options_spec(),
                            begin,
                            i as int,
                            page.cursor as int,
                        ),
                    decreases page.items.len() - i,
                {
                    let ghost body_before = body@;
                    let opt = vstd::slice::slice_index_get(page.items, i);
                    let active = i == page.cursor;
                    let selected = opt.selected;
                    let icon = self.formatter.option_icon(active, selected);
                    let label = self.formatter.option_label(opt.label.clone(), active, selected);
                    let hint = self.formatter.option_hint(
                        clone_opt_string(&opt.hint),
                        active,
                        selected,
                    );
                    let line = self.formatter.option(icon, label, hint, active, selected);
                    if i > 0 {
                        body.append("\n");
                    }
                    body.append(line.as_str());
                    proof {
                        assert(page.items@[i as int] == self.options_spec()[begin + i]);
                        assert(line@ == ms_option_line(
                            &self.formatter,
                            self.options_spec()[begin + i],
                            active,
                        ));
                        if i == 0 {
                            assert(body@ =~= ms_option_lines(
                                &self.formatter,
                                self.options_spec(),
                                begin,
                                1int,
                                page.cursor as int,
                            ));
                        } else {
                            assert(body@ =~= body_before + "\n"@ + line@);
                        }
                    }
                    i = i + 1;
                }
                proof {
                    assert(body@ == old(self).body_text());
                }
                Result::Ok(payload.body(PromptBody::Raw(body)))
            },
        }
    }
}

} // verus!
