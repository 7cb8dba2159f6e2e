//! Where the query's text falls on the screen: wrapping by displayed width,
//! and the cell under the cursor.

use crate::text::{char_boundary, chars_of, push_char};
use unicode_width::{UnicodeWidthChar, UnicodeWidthStr};
use vstd::prelude::*;
use vstd::utf8::{decode_utf8, encode_utf8};

verus! {

/// The columns that a character takes by itself, and none for a control
/// character: what `UnicodeWidthChar::width` returns.
pub uninterp spec fn char_width(c: char) -> Option<usize>;

/// The columns that a text takes: what `UnicodeWidthStr::width` returns.
pub uninterp spec fn text_width(text: Seq<char>) -> usize;

/// `UnicodeWidthChar::width`: the displayed width of one character in
/// columns, `None` for a control character.
#[verifier::external_body]
fn width_of_char(c: char) -> (width: Option<usize>)
    ensures
        width == char_width(c),
{
    UnicodeWidthChar::width(c)
}

/// `UnicodeWidthStr::width`: the displayed width of a text in columns.
#[verifier::external_body]
fn width_of_text(text: &str) -> (width: usize)
    ensures
        width == text_width(text@),
{
    UnicodeWidthStr::width(text)
}

/// The columns that a character adds to a line: its own width, and none for
/// a control character.
pub open spec fn columns(c: char) -> u16 {
    match char_width(c) {
        Some(width) => width as u16,
        None => 0,
    }
}

/// Whether `c` no longer fits on `line` within `max_width` columns.
pub open spec fn overflows(line: Seq<char>, c: char, max_width: u16) -> bool {
    (text_width(line) as u16) + columns(c) > max_width
}

/// The lines that come of wrapping `rest` when `done` are complete and `line`
/// is being filled.
pub open spec fn wrap_from(
    done: Seq<Seq<char>>,
    line: Seq<char>,
    rest: Seq<char>,
    max_width: u16,
) -> Seq<Seq<char>>
    decreases rest.len(),
{
    if rest.len() == 0 {
        done.push(line)
    } else if overflows(line, rest[0], max_width) {
        wrap_from(done.push(line), seq![rest[0]], rest.drop_first(), max_width)
    } else {
        wrap_from(done, line.push(rest[0]), rest.drop_first(), max_width)
    }
}

/// The lines that `text` wraps into: each character goes onto the line being
/// filled, after a break where it would not fit within `max_width` columns.
pub open spec fn wrapped(text: Seq<char>, max_width: u16) -> Seq<Seq<char>> {
    wrap_from(Seq::empty(), Seq::empty(), text, max_width)
}

/// All the lines, one after the other.
pub open spec fn joined(lines: Seq<Seq<char>>) -> Seq<char>
    decreases lines.len(),
{
    if lines.len() == 0 {
        Seq::empty()
    } else {
        joined(lines.drop_last()) + lines.last()
    }
}

/// The characters of each line.
pub open spec fn line_texts(lines: Seq<String>) -> Seq<Seq<char>> {
    lines.map_values(|l: String| l@)
}

proof fn lemma_wrap_from_keeps_text(
    done: Seq<Seq<char>>,
    line: Seq<char>,
    rest: Seq<char>,
    max_width: u16,
)
    ensures
        wrap_from(done, line, rest, max_width).len() > 0,
        joined(wrap_from(done, line, rest, max_width)) == joined(done) + line + rest,
    decreases rest.len(),
{
    if rest.len() == 0 {
        assert(done.push(line).drop_last() == done);
        assert(joined(done) + line + rest == joined(done) + line);
    } else if overflows(line, rest[0], max_width) {
        lemma_wrap_from_keeps_text(done.push(line), seq![rest[0]], rest.drop_first(), max_width);
        assert(done.push(line).drop_last() == done);
        assert(joined(done) + line + seq![rest[0]] + rest.drop_first() == joined(done) + line
            + rest);
    } else {
        lemma_wrap_from_keeps_text(done, line.push(rest[0]), rest.drop_first(), max_width);
        assert(joined(done) + line.push(rest[0]) + rest.drop_first() == joined(done) + line
            + rest);
    }
}

/// Wrapping loses nothing and adds nothing: there is at least one line, and
/// the lines one after the other are the text.
pub proof fn lemma_wrapped_keeps_text(text: Seq<char>, max_width: u16)
    ensures
        wrapped(text, max_width).len() > 0,
        joined(wrapped(text, max_width)) == text,
{
    lemma_wrap_from_keeps_text(Seq::empty(), Seq::empty(), text, max_width);
    assert(joined(Seq::<Seq<char>>::empty()) + Seq::<char>::empty() + text == text);
}

/// Wraps `text` into lines of at most `max_width` columns. A character wider
/// than that gets a line of its own.
pub fn wrap_text(text: &str, max_width: u16) -> (lines: Vec<String>)
    ensures
        line_texts(lines@) == wrapped(text@, max_width),
{
    let chars = chars_of(text);
    let mut lines: Vec<String> = Vec::new();
    let mut current_line = String::new();
    let mut i: usize = 0;
    assert(line_texts(lines@) =~= Seq::<Seq<char>>::empty());
    assert(chars@.skip(0) == chars@);
    while i < chars.len()
        invariant
            i <= chars@.len(),
            chars@ == text@,
            wrapped(text@, max_width) == wrap_from(
                line_texts(lines@),
                current_line@,
                chars@.skip(i as int),
                max_width,
            ),
        decreases chars@.len() - i,
    {
        let c = chars[i];
        let cw: u16 = match width_of_char(c) {
            Some(width) => width as u16,
            None => 0,
        };
        let line_width: u16 = width_of_text(current_line.as_str()) as u16;
        let ghost done = line_texts(lines@);
        let ghost filled = current_line@;
        assert(chars@.skip(i as int).drop_first() == chars@.skip(i + 1));
        if line_width as u32 + cw as u32 > max_width as u32 {
            lines.push(current_line);
            current_line = String::new();
            assert(line_texts(lines@) =~= done.push(filled));
            push_char(&mut current_line, c);
            assert(current_line@ == seq![c]);
        } else {
            push_char(&mut current_line, c);
        }
        i += 1;
    }
    let ghost done = line_texts(lines@);
    lines.push(current_line);
    assert(line_texts(lines@) =~= done.push(current_line@));
    lines
}

/// The text that lies before byte position `at` of `text`.
pub open spec fn text_before(text: Seq<char>, at: int) -> Seq<char> {
    decode_utf8(encode_utf8(text).subrange(0, at))
}

/// The cell of the cursor when `remaining` positions are left to walk from
/// the start of line `y`: column and line. The cursor lies on the first line
/// that is at least that long, as many positions in; where the lines run
/// out, it lies behind the last of them.
pub open spec fn cursor_from(lines: Seq<Seq<char>>, y: int, remaining: int) -> (u16, u16)
    decreases lines.len() - y,
{
    if y >= lines.len() {
        (text_width(lines.last()) as u16, (lines.len() - 1) as u16)
    } else if remaining <= lines[y].len() {
        (text_width(text_before(lines[y], remaining)) as u16, y as u16)
    } else {
        cursor_from(lines, y + 1, remaining - lines[y].len())
    }
}

/// Whether the walk of `cursor_from` ends at a character boundary of the
/// line it ends on.
pub open spec fn cursor_lands(lines: Seq<Seq<char>>, y: int, remaining: int) -> bool
    decreases lines.len() - y,
{
    if y >= lines.len() {
        true
    } else if remaining <= lines[y].len() {
        char_boundary(lines[y], remaining)
    } else {
        cursor_lands(lines, y + 1, remaining - lines[y].len())
    }
}

/// Whether the cursor at `char_index` has a cell on `lines`: there is a
/// line, and the cursor falls on a character boundary of the line it lies on.
pub fn cursor_position_defined(lines: &[String], char_index: usize) -> (ok: bool)
    ensures
        ok == (lines@.len() > 0 && cursor_lands(line_texts(lines@), 0, char_index as int)),
{
    if lines.len() == 0 {
        return false;
    }
    let mut chars_remaining: usize = char_index;
    let mut y: usize = 0;
    while y < lines.len()
        invariant
            y <= lines@.len(),
            cursor_lands(line_texts(lines@), 0, char_index as int) == cursor_lands(
                line_texts(lines@),
                y as int,
                chars_remaining as int,
            ),
        decreases lines@.len() - y,
    {
        let line_length = lines[y].as_str().unicode_len();
        assert(line_texts(lines@)[y as int] == lines@[y as int]@);
        if chars_remaining <= line_length {
            return lines[y].as_str().is_char_boundary(chars_remaining);
        }
        chars_remaining -= line_length;
        y += 1;
    }
    true
}

/// The cell of the cursor at `char_index` on `lines`: its column by
/// displayed width, and its line. There must be a line, and the cursor must
/// fall on a character boundary of the line it lies on.
pub fn calculate_cursor_position(lines: &[String], char_index: usize) -> (cell: (u16, u16))
    requires
        lines@.len() > 0,
        cursor_lands(line_texts(lines@), 0, char_index as int),
    ensures
        cell == cursor_from(line_texts(lines@), 0, char_index as int),
{
    let mut chars_remaining: usize = char_index;
    let mut y: usize = 0;
    while y < lines.len()
        invariant
            y <= lines@.len(),
            lines@.len() > 0,
            cursor_lands(line_texts(lines@), y as int, chars_remaining as int),
            cursor_from(line_texts(lines@), 0, char_index as int) == cursor_from(
                line_texts(lines@),
                y as int,
                chars_remaining as int,
            ),
        decreases lines@.len() - y,
    {
        let line = lines[y].as_str();
        let line_length = line.unicode_len();
        assert(line_texts(lines@)[y as int] == lines@[y as int]@);
        if chars_remaining <= line_length {
            let (before, _) = line.split_at(chars_remaining);
            proof {
                vstd::utf8::encode_utf8_decode_utf8(before@);
            }
            let x: u16 = width_of_text(before) as u16;
            return (x, y as u16);
        }
        chars_remaining -= line_length;
        y += 1;
    }
    let last = lines[lines.len() - 1].as_str();
    assert(line_texts(lines@).last() == lines@[lines@.len() - 1]@);
    let x: u16 = width_of_text(last) as u16;
    (x, (lines.len() - 1) as u16)
}

/// The columns of an input box that are left for text between its borders.
pub open spec fn inner_width(width: u16) -> u16 {
    (width - 2) as u16
}

/// The screen cell of the cursor of a query shown in a bordered box whose
/// top left corner is at column `x`, line `y`, and that is `width` columns
/// wide: the cell of the cursor in the wrapped text, one column and one line
/// in from the corner.
pub open spec fn query_cursor(x: u16, y: u16, width: u16, input: Seq<char>, char_index: int) -> (
    int,
    int,
) {
    let cell = cursor_from(wrapped(input, inner_width(width)), 0, char_index);
    (x + cell.0 + 1, y + cell.1 + 1)
}

/// Whether the cursor of a query has a screen cell in such a box: the box
/// has borders, the cursor has a cell in the wrapped text, and that cell is
/// on the screen's grid.
pub open spec fn query_cursor_defined(
    x: u16,
    y: u16,
    width: u16,
    input: Seq<char>,
    char_index: int,
) -> bool {
    &&& width >= 2
    &&& cursor_lands(wrapped(input, inner_width(width)), 0, char_index)
    &&& query_cursor(x, y, width, input, char_index).0 <= u16::MAX
    &&& query_cursor(x, y, width, input, char_index).1 <= u16::MAX
}

/// The screen cell of the cursor of a query shown in a bordered box, `None`
/// where it has none.
pub fn cursor_cell(x: u16, y: u16, width: u16, input: &str, char_index: usize) -> (cell: Option<
    (u16, u16),
>)
    ensures
        match cell {
            Some(cell) => query_cursor_defined(x, y, width, input@, char_index as int) && (
                cell.0 as int,
                cell.1 as int,
            ) == query_cursor(x, y, width, input@, char_index as int),
            None => !query_cursor_defined(x, y, width, input@, char_index as int),
        },
{
    if width < 2 {
        return None;
    }
    let lines = wrap_text(input, width - 2);
    proof {
        lemma_wrapped_keeps_text(input@, inner_width(width));
    }
    if !cursor_position_defined(lines.as_slice(), char_index) {
        return None;
    }
    let (cursor_x, cursor_y) = calculate_cursor_position(lines.as_slice(), char_index);
    let column: u32 = x as u32 + cursor_x as u32 + 1;
    let row: u32 = y as u32 + cursor_y as u32 + 1;
    if column > u16::MAX as u32 || row > u16::MAX as u32 {
        return None;
    }
    Some((column as u16, row as u16))
}

} // verus!
