//! A tab of the shell: the query being edited under a cursor, and what the
//! last query produced.
//!
//! The cursor is a byte position in the query's UTF-8 form. Motions by
//! character step it by one, so it names a character wherever the query is
//! ASCII; an edit at a position that is no character boundary is left out by
//! the edit's `requires`.

use crate::motion::{next_word, previous_word, word_back, word_forward};
use crate::results::{QueryResult, QueryResultView};
use crate::text::{
    byte_len, char_boundary, char_start, chars_before, chars_of, insert_char, remove_char,
};
use vstd::prelude::*;

verus! {

/// One tab: its title, the query being edited, the cursor, and what the last
/// query of the tab produced.
#[derive(Debug, Clone)]
pub struct Tab {
    pub name: String,
    pub input: String,
    pub char_index: usize,
    pub query_result: QueryResult,
}

/// A `Tab` with its texts as characters.
pub struct TabView {
    pub name: Seq<char>,
    pub input: Seq<char>,
    pub char_index: usize,
    pub query_result: QueryResultView,
}

impl View for Tab {
    type V = TabView;

    open spec fn view(&self) -> TabView {
        TabView {
            name: self.name@,
            input: self.input@,
            char_index: self.char_index,
            query_result: self.query_result@,
        }
    }
}

impl TabView {
    /// The tab with its cursor at `char_index`.
    pub open spec fn with_cursor(self, char_index: int) -> TabView {
        TabView { char_index: char_index as usize, ..self }
    }

    /// The cursor moves one position left, unless the query is empty or the
    /// cursor is at the start.
    pub open spec fn cursor_left(self) -> TabView {
        if self.input.len() == 0 || self.char_index == 0 {
            self
        } else {
            self.with_cursor(self.char_index - 1)
        }
    }

    /// The cursor moves one position right, unless the query is empty or the
    /// cursor is on the last byte or beyond.
    pub open spec fn cursor_right(self) -> TabView {
        if self.input.len() != 0 && self.char_index + 1 < byte_len(self.input) {
            self.with_cursor(self.char_index + 1)
        } else {
            self
        }
    }

    /// The cursor moves to the start of the query.
    pub open spec fn cursor_to_start(self) -> TabView {
        self.with_cursor(0)
    }

    /// The cursor moves onto the last byte of the query.
    pub open spec fn cursor_to_last(self) -> TabView {
        self.with_cursor(byte_len(self.input) - 1)
    }

    /// The cursor moves behind the query, unless it is there or beyond.
    pub open spec fn cursor_to_end(self) -> TabView {
        if self.char_index < byte_len(self.input) {
            self.with_cursor(byte_len(self.input) as int)
        } else {
            self
        }
    }

    /// The cursor moves one position right, unless it is behind the query.
    pub open spec fn cursor_after(self) -> TabView {
        if self.char_index < byte_len(self.input) {
            self.with_cursor(self.char_index + 1)
        } else {
            self
        }
    }

    /// The cursor moves one position left, unless it is at the start.
    pub open spec fn cursor_back(self) -> TabView {
        if self.char_index > 0 {
            self.with_cursor(self.char_index - 1)
        } else {
            self
        }
    }

    /// The query is emptied and the cursor moves to the start.
    pub open spec fn input_deleted(self) -> TabView {
        TabView { input: Seq::empty(), char_index: 0, ..self }
    }

    /// `c` is put in at the cursor, and the cursor moves one position right.
    pub open spec fn char_appended(self, c: char) -> TabView {
        TabView {
            input: self.input.insert(chars_before(self.input, self.char_index as int), c),
            char_index: (self.char_index + 1) as usize,
            ..self
        }
    }

    /// The character that begins one position left of the cursor is taken
    /// out, and the cursor moves onto its place; nothing where the cursor is
    /// at the start.
    pub open spec fn last_char_deleted(self) -> TabView {
        if self.char_index > 0 {
            TabView {
                input: self.input.remove(chars_before(self.input, self.char_index - 1)),
                char_index: (self.char_index - 1) as usize,
                ..self
            }
        } else {
            self
        }
    }

    /// The character under the cursor is taken out; the cursor steps back
    /// where that leaves it behind the query. Nothing where the cursor is
    /// behind the query already.
    pub open spec fn next_char_deleted(self) -> TabView {
        if self.char_index < byte_len(self.input) {
            let input = self.input.remove(chars_before(self.input, self.char_index as int));
            TabView {
                input,
                char_index: if self.char_index >= byte_len(input) && self.char_index > 0 {
                    (self.char_index - 1) as usize
                } else {
                    self.char_index
                },
                ..self
            }
        } else {
            self
        }
    }

    /// The cursor moves a word forwards, unless it is behind the query.
    pub open spec fn moved_next(self) -> TabView {
        if self.char_index >= byte_len(self.input) {
            self
        } else {
            self.with_cursor(next_word(self.input, self.char_index as int))
        }
    }

    /// The cursor moves a word back, unless it is at the start.
    pub open spec fn moved_last(self) -> TabView {
        if self.char_index == 0 {
            self
        } else {
            self.with_cursor(previous_word(self.input, self.char_index as int))
        }
    }

    /// The tab shows `result`.
    pub open spec fn showing(self, result: QueryResultView) -> TabView {
        TabView { query_result: result, ..self }
    }

    /// The tab under the title `name`.
    pub open spec fn titled(self, name: Seq<char>) -> TabView {
        TabView { name, ..self }
    }
}

impl Tab {
    /// An empty tab under the title `name`.
    pub fn new(name: String) -> (tab: Tab)
        ensures
            tab@ == (TabView {
                name: name@,
                input: Seq::empty(),
                char_index: 0,
                query_result: QueryResultView::Empty,
            }),
    {
        Tab { name, input: String::new(), char_index: 0, query_result: QueryResult::default() }
    }

    /// The length of the query in bytes.
    pub fn input_len(&self) -> (len: usize)
        ensures
            len == byte_len(self@.input),
    {
        self.input.as_str().len()
    }

    /// Whether a character can be put in at the cursor: the cursor is at a
    /// character boundary, and can move one position on.
    pub fn can_insert(&self) -> (ok: bool)
        ensures
            ok == (char_boundary(self@.input, self.char_index as int) && self.char_index
                < usize::MAX),
    {
        self.input.as_str().is_char_boundary(self.char_index) && self.char_index < usize::MAX
    }

    /// Whether a character begins at byte position `at` of the query.
    pub fn char_starts_at(&self, at: usize) -> (ok: bool)
        ensures
            ok == char_start(self@.input, at as int),
    {
        self.input.as_str().is_char_boundary(at) && at < self.input.as_str().len()
    }

    /// Moves the cursor one position left.
    pub fn move_cursor_left(&mut self)
        ensures
            final(self)@ == old(self)@.cursor_left(),
    {
        if self.input.as_str().is_empty() {
            return ;
        }
        if self.char_index > 0 {
            self.char_index -= 1;
        }
    }

    /// Moves the cursor one position right.
    pub fn move_cursor_right(&mut self)
        ensures
            final(self)@ == old(self)@.cursor_right(),
    {
        if self.input.as_str().is_empty() {
            return ;
        }
        let len = self.input.as_str().len();
        if self.char_index < len && self.char_index + 1 < len {
            self.char_index += 1;
        }
    }

    /// Moves the cursor to the start of the query.
    pub fn move_to_start(&mut self)
        ensures
            final(self)@ == old(self)@.cursor_to_start(),
    {
        self.char_index = 0;
    }

    /// Moves the cursor onto the last byte of the query, which must not be
    /// empty.
    pub fn move_to_last(&mut self)
        requires
            byte_len(old(self)@.input) > 0,
        ensures
            final(self)@ == old(self)@.cursor_to_last(),
    {
        self.char_index = self.input.as_str().len() - 1;
    }

    /// Moves the cursor behind the query.
    pub fn move_to_end(&mut self)
        ensures
            final(self)@ == old(self)@.cursor_to_end(),
    {
        let len = self.input.as_str().len();
        if self.char_index < len {
            self.char_index = len;
        }
    }

    /// Moves the cursor one position right, as far as behind the query.
    pub fn move_after(&mut self)
        ensures
            final(self)@ == old(self)@.cursor_after(),
    {
        if self.char_index < self.input.as_str().len() {
            self.char_index += 1;
        }
    }

    /// Moves the cursor one position left, whatever the query holds.
    pub fn move_back(&mut self)
        ensures
            final(self)@ == old(self)@.cursor_back(),
    {
        if self.char_index > 0 {
            self.char_index -= 1;
        }
    }

    /// Empties the query.
    pub fn delete_input(&mut self)
        ensures
            final(self)@ == old(self)@.input_deleted(),
    {
        self.input = String::new();
        self.char_index = 0;
    }

    /// Puts `c` in at the cursor. The cursor must be at a character boundary.
    pub fn append_char(&mut self, c: char)
        requires
            char_boundary(old(self)@.input, old(self).char_index as int),
            old(self).char_index < usize::MAX,
        ensures
            final(self)@ == old(self)@.char_appended(c),
    {
        insert_char(&mut self.input, self.char_index, c);
        self.char_index += 1;
    }

    /// Takes out the character one position left of the cursor. Unless the
    /// cursor is at the start, a character must begin there.
    pub fn delete_last_char(&mut self)
        requires
            old(self).char_index > 0 ==> char_start(old(self)@.input, old(self).char_index - 1),
        ensures
            final(self)@ == old(self)@.last_char_deleted(),
    {
        if self.char_index > 0 {
            let _ = remove_char(&mut self.input, self.char_index - 1);
            self.char_index -= 1;
        }
    }

    /// Takes out the character under the cursor. Unless the cursor is behind
    /// the query, it must be at a character boundary.
    pub fn delete_next_char(&mut self)
        requires
            old(self).char_index < byte_len(old(self)@.input) ==> char_boundary(
                old(self)@.input,
                old(self).char_index as int,
            ),
        ensures
            final(self)@ == old(self)@.next_char_deleted(),
    {
        if self.char_index < self.input.as_str().len() {
            let _ = remove_char(&mut self.input, self.char_index);
            if self.char_index >= self.input.as_str().len() && self.char_index > 0 {
                self.char_index -= 1;
            }
        }
    }

    /// Moves the cursor a word forwards.
    pub fn move_next(&mut self)
        ensures
            final(self)@ == old(self)@.moved_next(),
    {
        if self.char_index >= self.input.as_str().len() {
            return ;
        }
        let chars = chars_of(self.input.as_str());
        self.char_index = word_forward(&chars, self.char_index);
    }

    /// Moves the cursor a word back. The cursor must not lie beyond the
    /// characters of the query.
    pub fn move_last(&mut self)
        requires
            old(self).char_index <= old(self)@.input.len(),
        ensures
            final(self)@ == old(self)@.moved_last(),
    {
        if self.char_index == 0 {
            return ;
        }
        let chars = chars_of(self.input.as_str());
        self.char_index = word_back(&chars, self.char_index);
    }
}

} // verus!
