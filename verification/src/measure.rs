//! Whether the table crate can measure a text.
//!
//! A table is laid out by the width of its cells, line by line. The table
//! crate takes an escape character with a bracket directly behind it for the
//! opening of a terminal control sequence, which runs to the next `m` or to
//! the end of the line. Every character of a sequence that has a width of its
//! own is counted out of the width of the line, and the crate gives up on a
//! line of which it has counted out more than the line is wide. This module
//! counts as the crate does, so that no such line is handed to it.

use vstd::prelude::*;

verus! {

/// The escape character. With a bracket directly behind it, it opens a
/// terminal control sequence.
pub const ESCAPE: char = '\u{1b}';

/// The bracket that, directly behind an escape character, opens a terminal
/// control sequence.
pub const BRACKET: char = '[';

/// The letter that closes a terminal control sequence.
pub const CLOSING: char = 'm';

/// Where the reading of a line stands.
#[derive(Clone, Copy, Debug, PartialEq, Eq, Structural)]
pub enum Reading {
    /// In ordinary text.
    Text,
    /// Directly behind an escape character that was met in ordinary text.
    Escaped,
    /// Inside a control sequence: behind its opening, before its closing.
    Sequence,
}

/// Where the reading stands after one more character.
pub open spec fn read_on(reading: Reading, c: char) -> Reading {
    match reading {
        Reading::Text => if c == ESCAPE {
            Reading::Escaped
        } else {
            Reading::Text
        },
        Reading::Escaped => if c == BRACKET {
            Reading::Sequence
        } else {
            Reading::Text
        },
        Reading::Sequence => if c == CLOSING {
            Reading::Text
        } else {
            Reading::Sequence
        },
    }
}

/// Whether a character, met at this point of the reading, belongs to a
/// control sequence: the bracket that opens one, and whatever follows up to
/// the closing letter, that letter included.
pub open spec fn in_sequence(reading: Reading, c: char) -> bool {
    (reading is Escaped && c == BRACKET) || reading is Sequence
}

/// Where the reading stands at the end of a line.
pub open spec fn reading_after(line: Seq<char>) -> Reading
    decreases line.len(),
{
    if line.len() == 0 {
        Reading::Text
    } else {
        read_on(reading_after(line.drop_last()), line.last())
    }
}

/// The width of one character on its own, as `unicode-width` has it; none for
/// a control character.
pub uninterp spec fn char_width(c: char) -> Option<nat>;

/// The width of a line of text in columns, as `unicode-width` has it. It is
/// not the sum of the widths of the characters: some characters join.
pub uninterp spec fn text_width(line: Seq<char>) -> nat;

/// The lines that a text falls into at its line breaks, as `str::lines` of
/// the standard library has them.
pub uninterp spec fn lines_of(text: Seq<char>) -> Seq<Seq<char>>;

/// Whether a character is one of the first 128, the line feed left out. Such
/// a character is one column wide wherever it stands.
pub open spec fn is_narrow(c: char) -> bool {
    (c as u32) < 128 && c != '\n'
}

/// Whether a text is made of narrow characters alone.
pub open spec fn all_narrow(text: Seq<char>) -> bool {
    forall|i: int| 0 <= i < text.len() ==> is_narrow(#[trigger] text[i])
}

/// Whether a character has a width of its own.
pub open spec fn has_width(c: char) -> bool {
    char_width(c) matches Some(width) && width > 0
}

/// How many characters of a line are counted out of its width: those that
/// belong to a control sequence and have a width of their own.
pub open spec fn counted_out(line: Seq<char>) -> nat
    decreases line.len(),
{
    if line.len() == 0 {
        0
    } else {
        let before = line.drop_last();
        if in_sequence(reading_after(before), line.last()) && has_width(line.last()) {
            counted_out(before) + 1
        } else {
            counted_out(before)
        }
    }
}

/// Whether a line can be measured: no more is counted out of it than it is wide.
pub open spec fn line_fits(line: Seq<char>) -> bool {
    counted_out(line) <= text_width(line)
}

/// Whether a terminal control sequence opens at position `i` of a text: an
/// escape character stands there, and a bracket directly behind it.
pub open spec fn opens_sequence(text: Seq<char>, i: int) -> bool {
    0 <= i < text.len() - 1 && text[i] == ESCAPE && text[i + 1] == BRACKET
}

/// Whether a text opens no terminal control sequence. Nothing is counted out
/// of the lines of such a text.
pub open spec fn is_plain(text: Seq<char>) -> bool {
    forall|i: int| !opens_sequence(text, i)
}

/// Whether a text is simple: it opens no control sequence, or it is made of
/// narrow characters alone, control sequences and all. A simple text can
/// always be measured.
pub open spec fn is_simple(text: Seq<char>) -> bool {
    is_plain(text) || all_narrow(text)
}

/// Whether a text can be measured: it is plain, or each of its lines fits.
pub open spec fn is_measurable(text: Seq<char>) -> bool {
    is_plain(text) || forall|l: int|
        0 <= l < lines_of(text).len() ==> line_fits(#[trigger] lines_of(text)[l])
}

/// The width of one character on its own.
///
/// Calls `unicode_width::UnicodeWidthChar::width`, which looks the character
/// up in tables that are compiled in: the answer depends on the character
/// alone, and the contract gives it a name.
#[verifier::external_body]
fn width_of_char(c: char) -> (width: Option<usize>)
    ensures
        match width {
            Some(width) => char_width(c) == Some(width as nat),
            None => char_width(c) is None,
        },
{
    unicode_width::UnicodeWidthChar::width(c)
}

/// The width of a line of text.
///
/// Calls `unicode_width::UnicodeWidthStr::width`, which goes through the
/// characters with the same tables: the answer depends on the text alone,
/// and the contract gives it a name. One fact stands beside the name: the
/// function adds one column for every character up to U+00A0 but the line
/// feed, whatever stands around it, so a line of narrow characters is as
/// wide as it is long.
#[verifier::external_body]
fn width_of_text(line: &str) -> (width: usize)
    ensures
        width == text_width(line@),
        all_narrow(line@) ==> width == line@.len(),
{
    unicode_width::UnicodeWidthStr::width(line)
}

/// The lines of a text.
///
/// Calls `str::lines` of the standard library and gathers what it hands out.
/// Which breaks end a line, and what becomes of a break at the very end,
/// takes a page to state and no caller needs it, so the contract gives the
/// lines a name. One fact stands beside the name: the lines are slices of
/// the text, so every character of a line is a character of the text.
#[verifier::external_body]
fn lines_in<'a>(text: &'a str) -> (lines: Vec<&'a str>)
    ensures
        lines.deep_view() == lines_of(text@),
        forall|l: int, i: int|
            0 <= l < lines.deep_view().len() && 0 <= i < lines.deep_view()[l].len()
                ==> text@.contains(#[trigger] lines.deep_view()[l][i]),
{
    text.lines().collect()
}

/// Tells whether a text opens no terminal control sequence.
pub fn text_is_plain(text: &str) -> (plain: bool)
    ensures
        plain == is_plain(text@),
{
    let mut plain = true;
    let mut escaped = false;
    for c in it: text.chars()
        invariant
            it.seq() == text@,
            escaped == (it.index() > 0 && text@[it.index() - 1] == ESCAPE),
            plain == forall|i: int| 0 <= i < it.index() - 1 ==> !opens_sequence(text@, i),
    {
        if escaped && c == BRACKET {
            assert(opens_sequence(text@, it.index() - 1));
            plain = false;
        }
        escaped = c == ESCAPE;
    }
    plain
}

/// Tells whether a line can be measured. A line of narrow characters always can.
pub fn line_is_measurable(line: &str) -> (fits: bool)
    ensures
        fits == line_fits(line@),
        all_narrow(line@) ==> fits,
{
    let length = line.unicode_len();
    let mut reading = Reading::Text;
    let mut counted: usize = 0;
    for c in it: line.chars()
        invariant
            it.seq() == line@,
            length == line@.len(),
            reading == reading_after(line@.take(it.index())),
            counted == counted_out(line@.take(it.index())),
            counted <= it.index(),
    {
        proof {
            assert(line@.take(it.index() + 1).drop_last() =~= line@.take(it.index()));
        }
        let within = match reading {
            Reading::Text => false,
            Reading::Escaped => c == BRACKET,
            Reading::Sequence => true,
        };
        if within {
            match width_of_char(c) {
                Some(width) => {
                    if width > 0 {
                        counted += 1;
                    }
                },
                None => {},
            }
        }
        reading = match reading {
            Reading::Text => if c == ESCAPE {
                Reading::Escaped
            } else {
                Reading::Text
            },
            Reading::Escaped => if c == BRACKET {
                Reading::Sequence
            } else {
                Reading::Text
            },
            Reading::Sequence => if c == CLOSING {
                Reading::Text
            } else {
                Reading::Sequence
            },
        };
    }
    proof {
        assert(line@.take(line@.len() as int) =~= line@);
    }
    counted <= width_of_text(line)
}

/// Tells whether a text can be measured. A simple text always can.
pub fn text_is_measurable(text: &str) -> (measurable: bool)
    ensures
        measurable == is_measurable(text@),
        is_simple(text@) ==> measurable,
{
    if text_is_plain(text) {
        return true;
    }
    let lines = lines_in(text);
    let mut l: usize = 0;
    while l < lines.len()
        invariant
            l <= lines.len(),
            !is_plain(text@),
            lines.deep_view() == lines_of(text@),
            forall|l: int, i: int|
                0 <= l < lines.deep_view().len() && 0 <= i < lines.deep_view()[l].len()
                    ==> text@.contains(#[trigger] lines.deep_view()[l][i]),
            forall|j: int| 0 <= j < l ==> line_fits(#[trigger] lines_of(text@)[j]),
        decreases lines.len() - l,
    {
        assert(lines.deep_view()[l as int] == lines[l as int]@);
        proof {
            if all_narrow(text@) {
                assert forall|i: int| 0 <= i < lines[l as int]@.len() implies is_narrow(
                    #[trigger] lines[l as int]@[i],
                ) by {
                    assert(text@.contains(lines.deep_view()[l as int][i]));
                }
            }
        }
        if !line_is_measurable(lines[l]) {
            return false;
        }
        l += 1;
    }
    true
}

} // verus!
