//! Editing the response search query at its caret, counted in characters.

use vstd::prelude::*;

use crate::app::model::state::{sat_sub, App, AppView};
use crate::text::{char_count, insert_at, remove_range};

verus! {

/// The smaller of two numbers.
pub open spec fn min_of(a: int, b: int) -> int {
    if a <= b {
        a
    } else {
        b
    }
}

impl AppView {
    /// The state with the search caret one character to the left, stopping at the
    /// start.
    pub open spec fn after_search_left(self) -> AppView {
        AppView { response_search_cursor: sat_sub(self.response_search_cursor as int, 1) as usize, ..self }
    }

    /// The state with the search caret one character to the right, stopping at the
    /// end of the query.
    pub open spec fn after_search_right(self) -> AppView {
        if self.response_search_cursor < self.response_search_query.len() {
            AppView { response_search_cursor: (self.response_search_cursor + 1) as usize, ..self }
        } else {
            self
        }
    }

    /// The state with `ch` typed at the search caret (at the end when the caret lies
    /// beyond it), the caret moving past it.
    pub open spec fn after_search_insert(self, ch: char) -> AppView {
        let q = self.response_search_query;
        let at = min_of(self.response_search_cursor as int, q.len() as int);
        AppView {
            response_search_query: q.subrange(0, at) + seq![ch] + q.subrange(at, q.len() as int),
            response_search_cursor: (self.response_search_cursor + 1) as usize,
            ..self
        }
    }

    /// The state with the character before the search caret removed.
    pub open spec fn after_search_backspace(self) -> AppView {
        let q = self.response_search_query;
        let c = self.response_search_cursor as int;
        if c == 0 {
            self
        } else {
            let lo = min_of(c - 1, q.len() as int);
            let hi = min_of(c, q.len() as int);
            AppView {
                response_search_query: q.subrange(0, lo) + q.subrange(hi, q.len() as int),
                response_search_cursor: (c - 1) as usize,
                ..self
            }
        }
    }

    /// The state with the character at the search caret removed.
    pub open spec fn after_search_delete(self) -> AppView {
        let q = self.response_search_query;
        let c = self.response_search_cursor as int;
        if c >= q.len() {
            self
        } else {
            AppView { response_search_query: q.subrange(0, c) + q.subrange(c + 1, q.len() as int), ..self }
        }
    }
}

impl App {
    /// Moves search cursor one position left.
    pub(crate) fn move_search_cursor_left(&mut self)
        ensures
            final(self)@ == old(self)@.after_search_left(),
    {
        self.response_search_cursor = self.response_search_cursor.saturating_sub(1);
    }

    /// Moves search cursor one position right.
    pub(crate) fn move_search_cursor_right(&mut self)
        ensures
            final(self)@ == old(self)@.after_search_right(),
    {
        let max = char_count(self.response_search_query.as_str());
        if self.response_search_cursor < max {
            self.response_search_cursor += 1;
        }
    }

    /// Inserts a character at the current search cursor.
    pub(crate) fn insert_search_char(&mut self, ch: char)
        requires
            old(self).response_search_cursor < usize::MAX,
        ensures
            final(self)@ == old(self)@.after_search_insert(ch),
    {
        let len = char_count(self.response_search_query.as_str());
        let at = if self.response_search_cursor < len {
            self.response_search_cursor
        } else {
            len
        };
        self.response_search_query = insert_at(self.response_search_query.as_str(), at, ch);
        self.response_search_cursor += 1;
    }

    /// Removes the character before the search cursor.
    pub(crate) fn search_backspace(&mut self)
        ensures
            final(self)@ == old(self)@.after_search_backspace(),
    {
        if self.response_search_cursor == 0 {
            return;
        }
        let len = char_count(self.response_search_query.as_str());
        let lo = if self.response_search_cursor - 1 < len {
            self.response_search_cursor - 1
        } else {
            len
        };
        let hi = if self.response_search_cursor < len {
            self.response_search_cursor
        } else {
            len
        };
        self.response_search_query = remove_range(self.response_search_query.as_str(), lo, hi);
        self.response_search_cursor -= 1;
    }

    /// Removes the character at the search cursor.
    pub(crate) fn search_delete_forward(&mut self)
        ensures
            final(self)@ == old(self)@.after_search_delete(),
    {
        let len = char_count(self.response_search_query.as_str());
        if self.response_search_cursor >= len {
            return;
        }
        let c = self.response_search_cursor;
        self.response_search_query = remove_range(self.response_search_query.as_str(), c, c + 1);
    }
}

/// Typing a character and erasing it again with backspace gives back the query and
/// the caret, wherever the caret stood within the query.
pub proof fn lemma_search_insert_backspace(s: AppView, ch: char)
    requires
        s.response_search_cursor <= s.response_search_query.len(),
        s.response_search_cursor < usize::MAX,
    ensures
        s.after_search_insert(ch).after_search_backspace() == s,
{
    let q = s.response_search_query;
    let c = s.response_search_cursor as int;
    let q2 = q.subrange(0, c) + seq![ch] + q.subrange(c, q.len() as int);
    assert(q2.subrange(0, c) + q2.subrange(c + 1, q2.len() as int) =~= q);
}

} // verus!
