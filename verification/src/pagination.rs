//! Windowed pagination for list prompts.
//!
//! Given a page capacity, a list, and the index of the active item,
//! [`paginate`] picks the contiguous window of the list that should be
//! visible and where the active item sits inside it. The window is centred
//! on the active item except near the two ends of the list, where it pins
//! to the boundary.

use vstd::prelude::*;

verus! {

/// A page of items: the window of a longer list that is currently visible,
/// with the cursor position inside it.
#[derive(Debug, PartialEq)]
pub struct Page<'a, T> {
    /// Whether this window touches the start of the list.
    pub first: bool,
    /// Whether this window touches the end of the list.
    pub last: bool,
    /// The visible items, borrowed from the source list.
    pub items: &'a [T],
    /// The position of the active item within `items`.
    pub cursor: usize,
    /// The total number of items in the list.
    pub total: usize,
}

/// Start of the visible window.
pub open spec fn page_begin(size: int, len: int, current: int) -> int {
    if len <= size {
        0
    } else if current < size / 2 {
        0
    } else if len - current - 1 < size / 2 {
        len - size
    } else {
        current - size / 2
    }
}

/// End (exclusive) of the visible window.
pub open spec fn page_end(size: int, len: int, current: int) -> int {
    if len <= size {
        len
    } else if current < size / 2 {
        size
    } else if len - current - 1 < size / 2 {
        len
    } else {
        current + (size - size / 2)
    }
}

/// Cursor position within the visible window.
pub open spec fn page_cursor(size: int, len: int, current: int) -> int {
    if len <= size {
        current
    } else if current < size / 2 {
        current
    } else if len - current - 1 < size / 2 {
        current - (len - size)
    } else {
        size / 2
    }
}

/// Computes the window of `items` that is visible for a page of `size`
/// entries when the active item is at index `current`.
pub fn paginate<'a, T>(size: usize, items: &'a [T], current: usize) -> (page: Page<'a, T>)
    requires
        items@.len() > size ==> current < items@.len(),
    ensures
        page.items@ == items@.subrange(
            page_begin(size as int, items@.len() as int, current as int),
            page_end(size as int, items@.len() as int, current as int),
        ),
        page.cursor == page_cursor(size as int, items@.len() as int, current as int),
        page.first == (page_begin(size as int, items@.len() as int, current as int) == 0),
        page.last == (page_end(size as int, items@.len() as int, current as int)
            == items@.len()),
        page.total == items@.len(),
{
    let len = items.len();
    let (begin, end, cursor): (usize, usize, usize) = if len <= size {
        (0, len, current)
    } else if current < size / 2 {
        (0, size, current)
    } else if len - current - 1 < size / 2 {
        let begin = len - size;
        (begin, len, current - begin)
    } else {
        (current - size / 2, current + (size - size / 2), size / 2)
    };

    Page {
        first: begin == 0,
        last: end == len,
        items: vstd::slice::slice_subrange(items, begin, end),
        cursor,
        total: len,
    }
}

/// The window law: for every page capacity of at least one, list, and
/// in-range active index, the visible window holds exactly
/// `min(capacity, len)` items; the window cursor is a valid index into the
/// window; the window touches the start of the list exactly when it begins
/// at index zero; and it touches the end exactly when it ends at the list's
/// length.
pub proof fn lemma_page_window(size: int, len: int, current: int)
    requires
        1 <= size,
        0 <= current < len,
    ensures
        page_end(size, len, current) - page_begin(size, len, current) == if len <= size {
            len
        } else {
            size
        },
        0 <= page_cursor(size, len, current),
        page_cursor(size, len, current) < page_end(size, len, current) - page_begin(
            size,
            len,
            current,
        ),
        page_begin(size, len, current) == 0 <==> page_begin(size, len, current) <= 0,
        page_end(size, len, current) == len <==> page_end(size, len, current) >= len,
        page_cursor(size, len, current) == current - page_begin(size, len, current),
{
}

} // verus!
