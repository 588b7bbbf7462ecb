//! The text-cursor editing model shared by all text-like prompts.
//!
//! An [`InputCursor`] owns a text buffer together with a cursor position,
//! counted in characters (not bytes). It offers movement, insertion and
//! deletion — including word-wise deletion — and two rendering views: the
//! display column of the cursor and a split of the text around it.

use vstd::prelude::*;

verus! {

use vstd::string::StrSliceExecFns;

/// The displayed column width that `unicode_width` assigns to a character,
/// or `None` for a control character.
pub uninterp spec fn char_width_of(c: char) -> Option<usize>;

/// Whether a character has the Unicode white-space property.
pub uninterp spec fn is_space(c: char) -> bool;

/// Relies on `unicode_width::UnicodeWidthChar::width`: the displayed column
/// width of a character, `None` for a control character; the result depends
/// on the character alone.
#[verifier::external_body]
fn char_width(c: char) -> (r: Option<usize>)
    ensures
        r == char_width_of(c),
{
    unicode_width::UnicodeWidthChar::width(c)
}

/// Relies on `char::is_whitespace`: whether a character has the Unicode
/// white-space property depends on the character alone.
#[verifier::external_body]
fn char_is_space(c: char) -> (r: bool)
    ensures
        r == is_space(c),
{
    c.is_whitespace()
}

/// Relies on `String`'s `FromIterator` implementation: collecting characters
/// yields the string of exactly those characters, in order.
#[verifier::external_body]
pub(crate) fn string_from_chars(chars: &Vec<char>) -> (r: String)
    ensures
        r@ == chars@,
{
    chars.iter().collect()
}

/// The characters of a string, in order.
pub(crate) fn chars_from_str(s: &str) -> (r: Vec<char>)
    ensures
        r@ == s@,
{
    let n = s.unicode_len();
    let mut out: Vec<char> = Vec::new();
    let mut i: usize = 0;
    while i < n
        invariant
            i <= n,
            n == s@.len(),
            out@ == s@.take(i as int),
        decreases n - i,
    {
        out.push(s.get_char(i));
        proof {
            assert(out@ =~= s@.take(i + 1));
        }
        i = i + 1;
    }
    proof {
        assert(out@ =~= s@);
    }
    out
}

/// The number of display columns a character occupies: its width, with
/// control characters counting zero.
pub open spec fn col_of(c: char) -> nat {
    match char_width_of(c) {
        Option::Some(w) => w as nat,
        Option::None => 0,
    }
}

/// The number of display columns a text occupies: the sum of the widths of
/// its characters.
pub open spec fn col_sum(s: Seq<char>) -> nat
    decreases s.len(),
{
    if s.len() == 0 {
        0
    } else {
        col_sum(s.drop_last()) + col_of(s.last())
    }
}

/// Whether a text consists of white space alone.
pub open spec fn blank(s: Seq<char>) -> bool {
    forall|i: int| 0 <= i < s.len() ==> #[trigger] is_space(s[i])
}

/// The position reached from `i` by walking left over white space.
pub open spec fn skip_spaces_back(s: Seq<char>, i: int) -> int
    decreases i,
{
    if i <= 0 {
        0
    } else if is_space(s[i - 1]) {
        skip_spaces_back(s, i - 1)
    } else {
        i
    }
}

/// The position reached from `i` by walking left over non-white-space.
pub open spec fn skip_word_back(s: Seq<char>, i: int) -> int
    decreases i,
{
    if i <= 0 {
        0
    } else if !is_space(s[i - 1]) {
        skip_word_back(s, i - 1)
    } else {
        i
    }
}

/// Where word-wise deletion stops: from the cursor, trailing white space is
/// walked over first, then one contiguous run of non-white-space.
pub open spec fn prev_word_start(s: Seq<char>, cursor: int) -> int {
    skip_word_back(s, skip_spaces_back(s, cursor))
}

proof fn lemma_skip_spaces_back_range(s: Seq<char>, i: int)
    requires
        0 <= i,
    ensures
        0 <= skip_spaces_back(s, i) <= i,
    decreases i,
{
    if i > 0 && is_space(s[i - 1]) {
        lemma_skip_spaces_back_range(s, i - 1);
    }
}

proof fn lemma_skip_word_back_range(s: Seq<char>, i: int)
    requires
        0 <= i,
    ensures
        0 <= skip_word_back(s, i) <= i,
    decreases i,
{
    if i > 0 && !is_space(s[i - 1]) {
        lemma_skip_word_back_range(s, i - 1);
    }
}

/// Word-wise deletion never reaches past the cursor.
pub proof fn lemma_prev_word_start_range(s: Seq<char>, cursor: int)
    requires
        0 <= cursor,
    ensures
        0 <= prev_word_start(s, cursor) <= cursor,
{
    lemma_skip_spaces_back_range(s, cursor);
    lemma_skip_word_back_range(s, skip_spaces_back(s, cursor));
}

/// A text buffer with a character-indexed cursor.
///
/// The cursor position never exceeds the character count; every operation
/// keeps the two consistent.
#[derive(Debug)]
pub struct InputCursor {
    value: Vec<char>,
    cursor: usize,
}

impl Clone for InputCursor {
    /// A clone carries the same text and cursor position.
    fn clone(&self) -> (r: Self)
        ensures
            r.text() == self.text(),
            r.pos() == self.pos(),
    {
        proof {
            use_type_invariant(&*self);
        }
        let mut value: Vec<char> = Vec::new();
        let mut i: usize = 0;
        while i < self.value.len()
            invariant
                i <= self.value.len(),
                value@ == self.value@.take(i as int),
            decreases self.value.len() - i,
        {
            value.push(self.value[i]);
            proof {
                assert(value@ =~= self.value@.take(i + 1));
            }
            i = i + 1;
        }
        proof {
            assert(value@ =~= self.value@);
        }
        InputCursor { value, cursor: self.cursor }
    }
}

impl Default for InputCursor {
    /// An empty buffer with the cursor at the start.
    fn default() -> (r: Self)
        ensures
            r.text() == Seq::<char>::empty(),
            r.pos() == 0,
    {
        InputCursor { value: Vec::new(), cursor: 0 }
    }
}

impl InputCursor {
    #[verifier::type_invariant]
    spec fn inv(&self) -> bool {
        self.cursor <= self.value.len()
    }

    /// The text held by the buffer, as a character sequence.
    pub closed spec fn text(&self) -> Seq<char> {
        self.value@
    }

    /// The cursor position, as a character index into the text.
    pub closed spec fn pos(&self) -> int {
        self.cursor as int
    }

    /// Creates a cursor over `value` with the cursor at position `cursor`.
    pub fn new(value: String, cursor: usize) -> (r: Self)
        requires
            cursor <= value@.len(),
        ensures
            r.text() == value@,
            r.pos() == cursor,
    {
        let chars = chars_from_str(value.as_str());
        InputCursor { value: chars, cursor }
    }

    /// Creates a cursor over `value` with the cursor at the end of the text.
    pub fn from(value: String) -> (r: Self)
        ensures
            r.text() == value@,
            r.pos() == value@.len(),
    {
        let chars = chars_from_str(value.as_str());
        let cursor = chars.len();
        InputCursor { value: chars, cursor }
    }

    /// The display column of the cursor: the summed widths of all characters
    /// strictly to its left. Zero if that sum does not fit the column type.
    pub fn col(&self) -> (r: u16)
        ensures
            self.pos() <= self.text().len(),
            col_sum(self.text().take(self.pos())) <= u16::MAX ==> r == col_sum(
                self.text().take(self.pos()),
            ),
            col_sum(self.text().take(self.pos())) > u16::MAX ==> r == 0,
    {
        proof {
            use_type_invariant(&*self);
        }
        let ghost s = self.value@;
        let mut acc: usize = 0;
        let mut i: usize = 0;
        while i < self.cursor
            invariant
                i <= self.cursor <= s.len(),
                s == self.value@,
                acc == if col_sum(s.take(i as int)) > 65536 {
                    65536int
                } else {
                    col_sum(s.take(i as int)) as int
                },
            decreases self.cursor - i,
        {
            let w: usize = match char_width(self.value[i]) {
                Option::Some(w) => w,
                Option::None => 0,
            };
            proof {
                assert(s.take(i + 1).drop_last() =~= s.take(i as int));
                assert(s.take(i + 1).last() == s[i as int]);
            }
            let sum: usize = acc.saturating_add(w);
            acc = if sum > 65536 {
                65536
            } else {
                sum
            };
            i = i + 1;
        }
        if acc <= 65535 {
            acc as u16
        } else {
            0
        }
    }

    /// The buffered text.
    pub fn value(&self) -> (r: String)
        ensures
            r@ == self.text(),
    {
        string_from_chars(&self.value)
    }

    /// Replaces the text. A cursor that would fall beyond the new text is
    /// clamped to its end.
    pub fn set_value(&mut self, value: String)
        ensures
            final(self).text() == value@,
            final(self).pos() == if old(self).pos() <= value@.len() {
                old(self).pos()
            } else {
                value@.len() as int
            },
    {
        let chars = chars_from_str(value.as_str());
        let newcur = if self.cursor > chars.len() {
            chars.len()
        } else {
            self.cursor
        };
        self.cursor = 0;
        self.value = chars;
        self.cursor = newcur;
    }

    /// The number of characters in the text.
    pub(crate) fn len_chars(&self) -> (r: usize)
        ensures
            r == self.text().len(),
    {
        self.value.len()
    }

    /// The first character of the text, if there is one.
    pub(crate) fn first_char(&self) -> (r: Option<char>)
        ensures
            self.text().len() == 0 ==> r is None,
            self.text().len() > 0 ==> r == Option::Some(self.text()[0]),
    {
        if self.value.len() == 0 {
            Option::None
        } else {
            Option::Some(self.value[0])
        }
    }

    /// The cursor position.
    pub fn cursor(&self) -> (r: usize)
        ensures
            r == self.pos(),
            self.pos() <= self.text().len(),
    {
        proof {
            use_type_invariant(&*self);
        }
        self.cursor
    }

    /// Moves the cursor. A position beyond the end of the text is clamped
    /// to the end.
    pub fn set_cursor(&mut self, cursor: usize)
        ensures
            final(self).text() == old(self).text(),
            final(self).pos() == if cursor <= old(self).text().len() {
                cursor as int
            } else {
                old(self).text().len() as int
            },
    {
        if cursor <= self.value.len() {
            self.cursor = cursor;
        } else {
            self.cursor = self.value.len();
        }
    }

    /// The text split around the cursor: the part to its left, the character
    /// under it, and the part to its right. When the cursor rests at the end
    /// of the text, the middle part is a single synthetic space, so that a
    /// block cursor can still be drawn.
    pub fn split(&self) -> (r: (String, String, String))
        ensures
            self.pos() <= self.text().len(),
            r.0@ == self.text().take(self.pos()),
            self.pos() < self.text().len() ==> r.1@ == seq![self.text()[self.pos()]]
                && r.2@ == self.text().skip(self.pos() + 1),
            self.pos() == self.text().len() ==> r.1@ == seq![' '] && r.2@ == Seq::<
                char,
            >::empty(),
    {
        proof {
            use_type_invariant(&*self);
        }
        let mut left: Vec<char> = Vec::new();
        left.extend_from_slice(vstd::slice::slice_subrange(self.value.as_slice(), 0, self.cursor));
        let mut mid: Vec<char> = Vec::new();
        let mut right: Vec<char> = Vec::new();
        if self.cursor < self.value.len() {
            mid.push(self.value[self.cursor]);
            right.extend_from_slice(
                vstd::slice::slice_subrange(
                    self.value.as_slice(),
                    self.cursor + 1,
                    self.value.len(),
                ),
            );
        } else {
            mid.push(' ');
        }
        proof {
            assert(left@ =~= self.text().take(self.pos()));
            if self.pos() < self.text().len() {
                assert(mid@ =~= seq![self.text()[self.pos()]]);
                assert(right@ =~= self.text().skip(self.pos() + 1));
            } else {
                assert(mid@ =~= seq![' ']);
            }
        }
        (string_from_chars(&left), string_from_chars(&mid), string_from_chars(&right))
    }

    /// Whether the text is empty or consists of white space alone.
    pub fn is_empty(&self) -> (r: bool)
        ensures
            r == blank(self.text()),
    {
        let mut i: usize = 0;
        while i < self.value.len()
            invariant
                i <= self.value.len(),
                forall|j: int| 0 <= j < i ==> #[trigger] is_space(self.value@[j]),
            decreases self.value.len() - i,
        {
            if !char_is_space(self.value[i]) {
                return false;
            }
            i = i + 1;
        }
        true
    }

    /// Moves the cursor one character to the left; no-op at the start.
    pub fn move_left(&mut self)
        ensures
            final(self).text() == old(self).text(),
            final(self).pos() == if old(self).pos() > 0 {
                old(self).pos() - 1
            } else {
                0int
            },
    {
        proof {
            use_type_invariant(&*self);
        }
        if self.cursor > 0 {
            self.cursor = self.cursor - 1;
        }
    }

    /// Moves the cursor one character to the right; no-op at the end.
    pub fn move_right(&mut self)
        ensures
            final(self).text() == old(self).text(),
            final(self).pos() == if old(self).pos() < old(self).text().len() {
                old(self).pos() + 1
            } else {
                old(self).text().len() as int
            },
    {
        proof {
            use_type_invariant(&*self);
        }
        if self.cursor < self.value.len() {
            self.cursor = self.cursor + 1;
        }
    }

    /// Moves the cursor to the start of the text.
    pub fn move_home(&mut self)
        ensures
            final(self).text() == old(self).text(),
            final(self).pos() == 0,
    {
        self.cursor = 0;
    }

    /// Moves the cursor to the end of the text.
    pub fn move_end(&mut self)
        ensures
            final(self).text() == old(self).text(),
            final(self).pos() == old(self).text().len(),
    {
        self.cursor = self.value.len();
    }

    /// Inserts a character at the cursor and advances the cursor past it.
    pub fn insert(&mut self, chr: char)
        ensures
            final(self).text() == old(self).text().insert(old(self).pos(), chr),
            final(self).pos() == old(self).pos() + 1,
    {
        proof {
            use_type_invariant(&*self);
        }
        let cur = self.cursor;
        self.cursor = 0;
        let mut data: Vec<char> = Vec::new();
        core::mem::swap(&mut data, &mut self.value);
        data.insert(cur, chr);
        core::mem::swap(&mut data, &mut self.value);
        self.cursor = cur + 1;
    }

    /// Deletes the character to the left of the cursor and moves the cursor
    /// onto its place; no-op when the cursor is at the start.
    pub fn delete_left_char(&mut self)
        ensures
            old(self).pos() <= 0 ==> final(self).text() == old(self).text() && final(self).pos()
                == 0,
            old(self).pos() > 0 ==> final(self).text() == old(self).text().remove(
                old(self).pos() - 1,
            ) && final(self).pos() == old(self).pos() - 1,
    {
        proof {
            use_type_invariant(&*self);
        }
        if self.cursor == 0 {
            return ;
        }
        let cur = self.cursor - 1;
        self.cursor = 0;
        let mut data: Vec<char> = Vec::new();
        core::mem::swap(&mut data, &mut self.value);
        data.remove(cur);
        core::mem::swap(&mut data, &mut self.value);
        self.cursor = cur;
    }

    /// Deletes the character under the cursor; the cursor stays in place.
    /// No-op when the cursor is at the end of the text.
    pub fn delete_right_char(&mut self)
        ensures
            old(self).pos() >= old(self).text().len() ==> final(self).text() == old(self).text(),
            old(self).pos() < old(self).text().len() ==> final(self).text() == old(
                self,
            ).text().remove(old(self).pos()),
            final(self).pos() == old(self).pos(),
    {
        proof {
            use_type_invariant(&*self);
        }
        if self.cursor >= self.value.len() {
            return ;
        }
        let cur = self.cursor;
        self.cursor = 0;
        let mut data: Vec<char> = Vec::new();
        core::mem::swap(&mut data, &mut self.value);
        data.remove(cur);
        core::mem::swap(&mut data, &mut self.value);
        self.cursor = cur;
    }

    /// Where word-wise deletion from the current cursor stops.
    fn prev_word_index(&self) -> (r: usize)
        ensures
            r == prev_word_start(self.text(), self.pos()),
            r <= self.pos() <= self.text().len(),
    {
        proof {
            use_type_invariant(&*self);
            lemma_prev_word_start_range(self.text(), self.pos());
        }
        let ghost s = self.value@;
        let mut i: usize = self.cursor;
        while i > 0 && char_is_space(self.value[i - 1])
            invariant
                i <= self.cursor <= s.len(),
                s == self.value@,
                skip_spaces_back(s, self.cursor as int) == skip_spaces_back(s, i as int),
            decreases i,
        {
            i = i - 1;
        }
        proof {
            assert(skip_spaces_back(s, i as int) == i as int);
            lemma_skip_word_back_range(s, i as int);
        }
        let mut j: usize = i;
        while j > 0 && !char_is_space(self.value[j - 1])
            invariant
                j <= i <= s.len(),
                s == self.value@,
                skip_word_back(s, i as int) == skip_word_back(s, j as int),
            decreases j,
        {
            j = j - 1;
        }
        proof {
            assert(skip_word_back(s, j as int) == j as int);
        }
        j
    }

    /// Deletes the word to the left of the cursor: trailing white space
    /// first, then one contiguous run of non-white-space. The cursor lands
    /// where the deleted run began.
    pub fn delete_left_word(&mut self)
        ensures
            final(self).text() == old(self).text().take(
                prev_word_start(old(self).text(), old(self).pos()),
            ) + old(self).text().skip(old(self).pos()),
            final(self).pos() == prev_word_start(old(self).text(), old(self).pos()),
    {
        proof {
            use_type_invariant(&*self);
        }
        let start = self.prev_word_index();
        let mut out: Vec<char> = Vec::new();
        out.extend_from_slice(vstd::slice::slice_subrange(self.value.as_slice(), 0, start));
        out.extend_from_slice(
            vstd::slice::slice_subrange(self.value.as_slice(), self.cursor, self.value.len()),
        );
        proof {
            assert(out@ =~= old(self).text().take(
                prev_word_start(old(self).text(), old(self).pos()),
            ) + old(self).text().skip(old(self).pos()));
        }
        self.cursor = start;
        self.value = out;
    }

    /// Deletes everything from the cursor to the end of the text; the
    /// cursor stays in place.
    pub fn delete_rest_line(&mut self)
        ensures
            final(self).text() == old(self).text().take(old(self).pos()),
            final(self).pos() == old(self).pos(),
    {
        proof {
            use_type_invariant(&*self);
        }
        let cur = self.cursor;
        self.cursor = 0;
        let mut data: Vec<char> = Vec::new();
        core::mem::swap(&mut data, &mut self.value);
        data.truncate(cur);
        proof {
            assert(data@ =~= old(self).text().take(old(self).pos()));
        }
        core::mem::swap(&mut data, &mut self.value);
        self.cursor = cur;
    }

    /// Clears the text and returns the cursor to the start.
    pub fn delete_line(&mut self)
        ensures
            final(self).text() == Seq::<char>::empty(),
            final(self).pos() == 0,
    {
        self.cursor = 0;
        self.value = Vec::new();
    }
}

/// Round-trip law: inserting a character and immediately deleting to its
/// left restores the original text, with the cursor back where it started.
pub proof fn lemma_insert_delete_left_roundtrip(s: Seq<char>, pos: int, c: char)
    requires
        0 <= pos <= s.len(),
    ensures
        s.insert(pos, c).remove(pos) == s,
{
    assert(s.insert(pos, c).remove(pos) =~= s);
}

/// Column law, narrow case: a text of single-column characters occupies
/// exactly one display column per character, so the display column of a
/// cursor equals its character position.
pub proof fn lemma_col_single_column(s: Seq<char>)
    requires
        forall|i: int| 0 <= i < s.len() ==> col_of(#[trigger] s[i]) == 1,
    ensures
        col_sum(s) == s.len(),
    decreases s.len(),
{
    if s.len() > 0 {
        lemma_col_single_column(s.drop_last());
    }
}

/// Column law, wide case: inserting a double-column character at the cursor
/// adds two display columns to the cursor's column, while the character
/// position advances by only one.
pub proof fn lemma_col_insert_wide(s: Seq<char>, pos: int, c: char)
    requires
        0 <= pos <= s.len(),
        col_of(c) == 2,
    ensures
        col_sum(s.insert(pos, c).take(pos + 1)) == col_sum(s.take(pos)) + 2,
{
    let t = s.insert(pos, c).take(pos + 1);
    assert(t.drop_last() =~= s.take(pos));
    assert(t.last() == c);
}

} // verus!
