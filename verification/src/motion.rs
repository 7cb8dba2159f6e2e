//! Word motions over a line of characters.
//!
//! A line falls into runs of three classes: white space, word characters
//! (letters, numerals and the underscore), and everything else. The motions
//! move a position to the start of a neighbouring run.

use vstd::prelude::*;

verus! {

/// What `char::is_whitespace` says of a character.
pub uninterp spec fn unicode_whitespace(c: char) -> bool;

/// What `char::is_alphanumeric` says of a character.
pub uninterp spec fn unicode_alphanumeric(c: char) -> bool;

/// `char::is_whitespace`: whether the character has Unicode's white-space
/// property.
#[verifier::external_body]
fn is_whitespace(c: char) -> (yes: bool)
    ensures
        yes == unicode_whitespace(c),
{
    c.is_whitespace()
}

/// `char::is_alphanumeric`: whether the character is a letter or a numeral
/// by Unicode's categories.
#[verifier::external_body]
fn is_alphanumeric(c: char) -> (yes: bool)
    ensures
        yes == unicode_alphanumeric(c),
{
    c.is_alphanumeric()
}

/// Whether a character belongs to words.
pub open spec fn word_char(c: char) -> bool {
    unicode_alphanumeric(c) || c == '_'
}

/// Whether a character belongs to words: a letter, a numeral or the underscore.
pub fn is_word_char(c: char) -> (yes: bool)
    ensures
        yes == word_char(c),
{
    is_alphanumeric(c) || c == '_'
}

/// The classes of characters that a motion tells apart.
#[derive(Debug, Clone, Copy, PartialEq, Eq, Structural)]
pub enum CharClass {
    Space,
    Word,
    Other,
}

/// Whether `c` is of `class`.
pub open spec fn in_class(c: char, class: CharClass) -> bool {
    match class {
        CharClass::Space => unicode_whitespace(c),
        CharClass::Word => word_char(c),
        CharClass::Other => !unicode_whitespace(c) && !word_char(c),
    }
}

/// Whether `c` is of `class`.
pub fn has_class(c: char, class: CharClass) -> (yes: bool)
    ensures
        yes == in_class(c, class),
{
    match class {
        CharClass::Space => is_whitespace(c),
        CharClass::Word => is_word_char(c),
        CharClass::Other => !is_whitespace(c) && !is_word_char(c),
    }
}

/// Where a run of `class` that is entered at `from` ends, looking no further
/// than `limit`: the first position from `from` on that is `limit` or holds a
/// character of another class. A position at or beyond `limit` stays.
pub open spec fn run_end(chars: Seq<char>, from: int, limit: int, class: CharClass) -> int
    decreases limit - from,
{
    if from < limit && in_class(chars[from], class) {
        run_end(chars, from + 1, limit, class)
    } else {
        from
    }
}

/// Where a run of `class` that is entered at `from` begins, looking back: the
/// last position up to `from` that is the first of the line or holds a
/// character of another class.
pub open spec fn run_start(chars: Seq<char>, from: int, class: CharClass) -> int
    decreases from,
{
    if from > 0 && in_class(chars[from], class) {
        run_start(chars, from - 1, class)
    } else {
        from
    }
}

/// The end of a run is reached over characters of the run's class only, and
/// is the limit or a character of another class.
pub proof fn lemma_run_end(chars: Seq<char>, from: int, limit: int, class: CharClass)
    requires
        0 <= from <= limit <= chars.len(),
    ensures
        from <= run_end(chars, from, limit, class) <= limit,
        forall|i: int|
            from <= i < run_end(chars, from, limit, class) ==> in_class(#[trigger] chars[i], class),
        run_end(chars, from, limit, class) == limit || !in_class(
            chars[run_end(chars, from, limit, class)],
            class,
        ),
    decreases limit - from,
{
    if from < limit && in_class(chars[from], class) {
        lemma_run_end(chars, from + 1, limit, class);
    }
}

/// The start of a run is reached over characters of the run's class only,
/// and is the first position of the line or a character of another class.
pub proof fn lemma_run_start(chars: Seq<char>, from: int, class: CharClass)
    requires
        0 <= from < chars.len(),
    ensures
        0 <= run_start(chars, from, class) <= from,
        forall|i: int|
            run_start(chars, from, class) < i <= from ==> in_class(#[trigger] chars[i], class),
        run_start(chars, from, class) == 0 || !in_class(
            chars[run_start(chars, from, class)],
            class,
        ),
    decreases from,
{
    if from > 0 && in_class(chars[from], class) {
        lemma_run_start(chars, from - 1, class);
    }
}

/// Follows a run of `class` forwards from `from`, no further than `limit`.
pub fn scan_forward(chars: &Vec<char>, from: usize, limit: usize, class: CharClass) -> (stop: usize)
    requires
        limit <= chars@.len(),
    ensures
        stop == run_end(chars@, from as int, limit as int, class),
{
    let mut idx: usize = from;
    while idx < limit && has_class(chars[idx], class)
        invariant
            limit <= chars@.len(),
            from <= idx,
            run_end(chars@, from as int, limit as int, class) == run_end(
                chars@,
                idx as int,
                limit as int,
                class,
            ),
        decreases limit - idx,
    {
        idx += 1;
    }
    idx
}

/// Follows a run of `class` backwards from `from`.
pub fn scan_back(chars: &Vec<char>, from: usize, class: CharClass) -> (stop: usize)
    requires
        from < chars@.len(),
    ensures
        stop == run_start(chars@, from as int, class),
{
    let mut idx: usize = from;
    while idx > 0 && has_class(chars[idx], class)
        invariant
            idx <= from < chars@.len(),
            run_start(chars@, from as int, class) == run_start(chars@, idx as int, class),
        decreases idx,
    {
        idx -= 1;
    }
    idx
}

/// Where the cursor goes when it moves a word forwards from `at`: over the
/// white space under it, over the run that follows, and over the white space
/// after that run, never beyond the last character. Where the line ends in
/// white space, the cursor comes to rest behind the last character.
pub open spec fn next_word(chars: Seq<char>, at: int) -> int {
    let spaces_end = run_end(chars, at, chars.len() as int, CharClass::Space);
    if spaces_end >= chars.len() {
        spaces_end
    } else {
        let class = if word_char(chars[spaces_end]) {
            CharClass::Word
        } else {
            CharClass::Other
        };
        let word_end = run_end(chars, spaces_end, chars.len() - 1, class);
        run_end(chars, word_end, chars.len() - 1, CharClass::Space)
    }
}

/// Where the cursor goes when it moves a word back from `at`, which is not
/// the start of the line: to the character before it, back over white space,
/// and to the first character of the run that it finds there.
pub open spec fn previous_word(chars: Seq<char>, at: int) -> int {
    let spaces_start = run_start(chars, at - 1, CharClass::Space);
    if spaces_start == 0 && !unicode_whitespace(chars[0]) {
        0
    } else if word_char(chars[spaces_start]) {
        let word_start = run_start(chars, spaces_start, CharClass::Word);
        if !word_char(chars[word_start]) && word_start < chars.len() - 1 {
            word_start + 1
        } else {
            word_start
        }
    } else {
        let run = run_start(chars, spaces_start, CharClass::Other);
        if (unicode_whitespace(chars[run]) || word_char(chars[run])) && run < chars.len() - 1 {
            run + 1
        } else {
            run
        }
    }
}

/// A word motion leaves the position on the line: forwards it moves no
/// further than behind the last character, and back it moves no further
/// than the first.
pub proof fn lemma_word_motions_stay_on_the_line(chars: Seq<char>, at: int)
    ensures
        0 <= at <= chars.len() ==> at <= next_word(chars, at) <= chars.len(),
        0 < at <= chars.len() ==> 0 <= previous_word(chars, at) <= at,
{
    if 0 <= at <= chars.len() {
        lemma_run_end(chars, at, chars.len() as int, CharClass::Space);
        let spaces_end = run_end(chars, at, chars.len() as int, CharClass::Space);
        if spaces_end < chars.len() {
            let class = if word_char(chars[spaces_end]) {
                CharClass::Word
            } else {
                CharClass::Other
            };
            lemma_run_end(chars, spaces_end, chars.len() - 1, class);
            let word_end = run_end(chars, spaces_end, chars.len() - 1, class);
            lemma_run_end(chars, word_end, chars.len() - 1, CharClass::Space);
        }
    }
    if 0 < at <= chars.len() {
        lemma_run_start(chars, at - 1, CharClass::Space);
        let spaces_start = run_start(chars, at - 1, CharClass::Space);
        lemma_run_start(chars, spaces_start, CharClass::Word);
        lemma_run_start(chars, spaces_start, CharClass::Other);
    }
}

/// Moves a position one word forwards.
pub fn word_forward(chars: &Vec<char>, at: usize) -> (to: usize)
    ensures
        to == next_word(chars@, at as int),
{
    let spaces_end = scan_forward(chars, at, chars.len(), CharClass::Space);
    if spaces_end >= chars.len() {
        return spaces_end;
    }
    let class = if is_word_char(chars[spaces_end]) {
        CharClass::Word
    } else {
        CharClass::Other
    };
    let word_end = scan_forward(chars, spaces_end, chars.len() - 1, class);
    scan_forward(chars, word_end, chars.len() - 1, CharClass::Space)
}

/// Moves a position, which is not the start of the line, one word back.
pub fn word_back(chars: &Vec<char>, at: usize) -> (to: usize)
    requires
        0 < at <= chars@.len(),
    ensures
        to == previous_word(chars@, at as int),
{
    let spaces_start = scan_back(chars, at - 1, CharClass::Space);
    if spaces_start == 0 && !is_whitespace(chars[0]) {
        return 0;
    }
    proof {
        lemma_run_start(chars@, at - 1, CharClass::Space);
    }
    if is_word_char(chars[spaces_start]) {
        let word_start = scan_back(chars, spaces_start, CharClass::Word);
        proof {
            lemma_run_start(chars@, spaces_start as int, CharClass::Word);
        }
        if !is_word_char(chars[word_start]) && word_start < chars.len() - 1 {
            word_start + 1
        } else {
            word_start
        }
    } else {
        let run = scan_back(chars, spaces_start, CharClass::Other);
        proof {
            lemma_run_start(chars@, spaces_start as int, CharClass::Other);
        }
        if (is_whitespace(chars[run]) || is_word_char(chars[run])) && run < chars.len() - 1 {
            run + 1
        } else {
            run
        }
    }
}

} // verus!
