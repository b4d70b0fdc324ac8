//! Reading the list of teams from a line of text.
//!
//! The teams of a run are given as one line, `slug, slug, ...`: the slugs
//! are the pieces between the commas, without the white space around them,
//! and a piece that is empty or all white space names no team.

use vstd::prelude::*;
use vstd::string::StrSliceExecFns;
use vstd::string::StringExecFns;
use crate::text::texts;

verus! {

/// Whether a character beyond U+007F is white space, as
/// `char::is_whitespace` says.
pub uninterp spec fn white_beyond_ascii(c: char) -> bool;

/// Whether a character is white space, as `char::is_whitespace` says: up to
/// U+007F the blank and the characters from the tab U+0009 to the carriage
/// return U+000D are, and no others.
pub open spec fn is_whitespace(c: char) -> bool {
    if c as u32 <= 0x7f {
        c as u32 == 0x20 || 0x09 <= c as u32 <= 0x0d
    } else {
        white_beyond_ascii(c)
    }
}

/// Calls `char::is_whitespace`, which depends on the character alone. Up to
/// U+007F it answers yes for the blank and for U+0009 to U+000D and no for
/// every other character; beyond that its answer is only named.
#[verifier::external_body]
fn white(c: char) -> (yes: bool)
    ensures
        c as u32 <= 0x7f ==> yes == (c as u32 == 0x20 || 0x09 <= c as u32 <= 0x0d),
        c as u32 > 0x7f ==> yes == white_beyond_ascii(c),
        yes == is_whitespace(c),
{
    c.is_whitespace()
}

/// The number of characters before the first comma, or the length of the
/// text if it holds no comma.
pub open spec fn first_comma(text: Seq<char>) -> int
    decreases text.len(),
{
    if text.len() == 0 || text[0] == ',' {
        0
    } else {
        1 + first_comma(text.drop_first())
    }
}

/// The text without the white space at its start.
pub open spec fn trim_start(text: Seq<char>) -> Seq<char>
    decreases text.len(),
{
    if text.len() > 0 && is_whitespace(text[0]) {
        trim_start(text.drop_first())
    } else {
        text
    }
}

/// The text without the white space at its end.
pub open spec fn trim_end(text: Seq<char>) -> Seq<char>
    decreases text.len(),
{
    if text.len() > 0 && is_whitespace(text.last()) {
        trim_end(text.drop_last())
    } else {
        text
    }
}

/// The text without the white space at its start and at its end.
pub open spec fn trimmed(text: Seq<char>) -> Seq<char> {
    trim_end(trim_start(text))
}

/// The slugs that a line names: the trimmed pieces between its commas that
/// are not empty, in order.
pub open spec fn slugs_of(line: Seq<char>) -> Seq<Seq<char>>
    decreases line.len(),
{
    let end = first_comma(line);
    let piece = trimmed(line.take(end));
    let named = if piece.len() > 0 {
        seq![piece]
    } else {
        Seq::empty()
    };
    if 0 <= end < line.len() {
        named + slugs_of(line.skip(end + 1))
    } else {
        named
    }
}

/// Where the first comma stands if there is none before `end` and one at
/// `end`, or the text ends there.
proof fn lemma_first_comma(text: Seq<char>, end: int)
    requires
        0 <= end <= text.len(),
        forall|j: int| 0 <= j < end ==> text[j] != ',',
        end < text.len() ==> text[end] == ',',
    ensures
        first_comma(text) == end,
    decreases end,
{
    if end > 0 {
        let rest = text.drop_first();
        assert forall|j: int| 0 <= j < end - 1 implies rest[j] != ',' by {
            assert(rest[j] == text[j + 1]);
        }
        lemma_first_comma(rest, end - 1);
    }
}

/// What is left of the text when all before `from` is white space and the
/// character at `from`, if there is one, is not.
proof fn lemma_trim_start(text: Seq<char>, from: int)
    requires
        0 <= from <= text.len(),
        forall|j: int| 0 <= j < from ==> is_whitespace(text[j]),
        from < text.len() ==> !is_whitespace(text[from]),
    ensures
        trim_start(text) == text.skip(from),
    decreases from,
{
    if from > 0 {
        let rest = text.drop_first();
        assert forall|j: int| 0 <= j < from - 1 implies is_whitespace(rest[j]) by {
            assert(rest[j] == text[j + 1]);
        }
        lemma_trim_start(rest, from - 1);
        assert(rest.skip(from - 1) =~= text.skip(from));
    } else {
        assert(text.skip(0) =~= text);
    }
}

/// What is left of the text when all from `to` on is white space and the
/// character before `to`, if there is one, is not.
proof fn lemma_trim_end(text: Seq<char>, to: int)
    requires
        0 <= to <= text.len(),
        forall|j: int| to <= j < text.len() ==> is_whitespace(text[j]),
        0 < to ==> !is_whitespace(text[to - 1]),
    ensures
        trim_end(text) == text.take(to),
    decreases text.len() - to,
{
    if to < text.len() {
        let rest = text.drop_last();
        lemma_trim_end(rest, to);
        assert(rest.take(to) =~= text.take(to));
    } else {
        assert(text.take(to) =~= text);
    }
}

/// Reads the slugs of the teams from a line of text.
pub fn parse_team_slugs(line: &str) -> (slugs: Vec<String>)
    ensures
        texts(slugs@) == slugs_of(line@),
{
    let length = line.unicode_len();
    let mut slugs: Vec<String> = Vec::new();
    let mut start: usize = 0;
    let mut more = true;
    assert(line@.skip(0) =~= line@);
    assert(texts(slugs@) + slugs_of(line@) =~= slugs_of(line@));
    while more
        invariant
            length == line@.len(),
            start <= length,
            more ==> texts(slugs@) + slugs_of(line@.skip(start as int)) == slugs_of(line@),
            !more ==> texts(slugs@) == slugs_of(line@),
        decreases length - start, more as int,
    {
        let ghost rest = line@.skip(start as int);
        let mut end = start;
        while end < length && line.get_char(end) != ','
            invariant
                length == line@.len(),
                start <= end <= length,
                forall|j: int| start <= j < end ==> line@[j] != ',',
            decreases length - end,
        {
            end = end + 1;
        }
        proof {
            assert forall|j: int| 0 <= j < end - start implies rest[j] != ',' by {
                assert(rest[j] == line@[start + j]);
            }
            lemma_first_comma(rest, end - start);
        }
        let ghost piece = rest.take(end - start);
        assert(piece =~= line@.subrange(start as int, end as int));
        let mut from = start;
        while from < end && white(line.get_char(from))
            invariant
                length == line@.len(),
                start <= from <= end <= length,
                forall|j: int| start <= j < from ==> is_whitespace(line@[j]),
            decreases end - from,
        {
            from = from + 1;
        }
        let mut to = end;
        while from < to && white(line.get_char(to - 1))
            invariant
                length == line@.len(),
                from <= to <= end <= length,
                forall|j: int| to <= j < end ==> is_whitespace(line@[j]),
            decreases to - from,
        {
            to = to - 1;
        }
        proof {
            lemma_trim_start(piece, from - start);
            let left = piece.skip(from - start);
            assert(left =~= line@.subrange(from as int, end as int));
            lemma_trim_end(left, to - from);
            assert(left.take(to - from) =~= line@.subrange(from as int, to as int));
            assert(trimmed(piece) == line@.subrange(from as int, to as int));
        }
        let ghost before = texts(slugs@);
        if from < to {
            slugs.push(String::from_str(line.substring_char(from, to)));
            assert(texts(slugs@) =~= before + seq![trimmed(piece)]);
        } else {
            assert(texts(slugs@) =~= before + Seq::<Seq<char>>::empty());
        }
        if end < length {
            assert(rest.skip(end - start + 1) =~= line@.skip(end + 1));
            start = end + 1;
        } else {
            more = false;
        }
    }
    slugs
}

} // verus!
