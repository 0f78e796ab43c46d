//! Texts and their lines.
//!
//! A text is cut into lines in two ways. Its lines, as a file knows them, end
//! at a line feed, with a carriage return before it or without, and what
//! stands after the last line feed is a line only if it is not empty. Its
//! rows, as an editor shows them, are what stands between its line feeds, so
//! that a text always has one row more than it has line feeds.
use vstd::prelude::*;
use vstd::string::StringExecFns;

verus! {

/// The character that ends a line.
pub const NEWLINE: char = '\n';

/// The character that may stand before the end of a line and is then part of
/// the line's end.
pub const CARRIAGE_RETURN: char = '\r';

/// `String::push` of the standard library: the string grows by the given
/// character at its end, and by nothing else.
pub assume_specification[ String::push ](text: &mut String, ch: char)
    ensures
        final(text)@ == old(text)@.push(ch),
;

/// The texts of a run of strings, position by position.
pub open spec fn line_views(lines: Seq<String>) -> Seq<Seq<char>> {
    lines.map_values(|line: String| line@)
}

/// Where the first line of a text ends: the position of its first line feed,
/// or the text's length where it has none.
pub open spec fn first_break(text: Seq<char>) -> int
    decreases text.len(),
{
    if text.len() == 0 || text[0] == NEWLINE {
        0
    } else {
        1 + first_break(text.drop_first())
    }
}

/// A line without the carriage return at its end, if it has one there.
pub open spec fn without_carriage_return(line: Seq<char>) -> Seq<char> {
    if line.len() > 0 && line.last() == CARRIAGE_RETURN {
        line.drop_last()
    } else {
        line
    }
}

/// The lines of a text. A line ends at a line feed; the line feed is no part
/// of the line, and neither is a carriage return that stands just before it.
/// What follows the last line feed is a line too, unless it is empty.
pub open spec fn text_lines(text: Seq<char>) -> Seq<Seq<char>>
    decreases text.len(),
{
    let end = first_break(text);
    if text.len() == 0 {
        Seq::empty()
    } else if end < 0 || end >= text.len() {
        seq![text]
    } else {
        seq![without_carriage_return(text.take(end))] + text_lines(text.skip(end + 1))
    }
}

/// The rows of a text: what stands before its first line feed, between each
/// line feed and the next, and after the last. A text without a line feed is
/// one row, the empty text too.
pub open spec fn rows(text: Seq<char>) -> Seq<Seq<char>>
    decreases text.len(),
{
    let end = first_break(text);
    if end < 0 || end >= text.len() {
        seq![text]
    } else {
        seq![text.take(end)] + rows(text.skip(end + 1))
    }
}

/// The text whose rows are the given ones: the rows in order, a line feed
/// between each and the next.
pub open spec fn joined_rows(rows: Seq<Seq<char>>) -> Seq<char>
    decreases rows.len(),
{
    if rows.len() == 0 {
        Seq::empty()
    } else if rows.len() == 1 {
        rows[0]
    } else {
        joined_rows(rows.drop_last()).push(NEWLINE) + rows.last()
    }
}

/// The text of a document: each of its lines, followed by a line feed.
pub open spec fn document(lines: Seq<Seq<char>>) -> Seq<char> {
    lines.flat_map(|line: Seq<char>| line.push(NEWLINE))
}

/// A text on one line: the text without its line feeds.
pub open spec fn single_line(text: Seq<char>) -> Seq<char> {
    text.filter(|c: char| c != NEWLINE)
}

/// The one line that the rows of a title make: the rows put together,
/// without any line feed.
pub open spec fn one_line(rows: Seq<Seq<char>>) -> Seq<char> {
    single_line(rows.flatten())
}

/// Whether a line can be one of a file's lines: it holds no line feed and
/// does not end in a carriage return.
pub open spec fn is_file_line(line: Seq<char>) -> bool {
    &&& forall|i: int| 0 <= i < line.len() ==> line[i] != NEWLINE
    &&& line.len() > 0 ==> line.last() != CARRIAGE_RETURN
}

/// Whether a text is made of whole lines: it is empty or ends in a line
/// feed, and no line feed follows a carriage return.
pub open spec fn is_whole_lines(text: Seq<char>) -> bool {
    &&& text.len() > 0 ==> text.last() == NEWLINE
    &&& forall|i: int|
        0 < i < text.len() && #[trigger] text[i] == NEWLINE ==> text[i - 1] != CARRIAGE_RETURN
}

/// The first line of a text ends at `end` if no line feed stands before
/// `end` and one stands there, or the text ends there.
pub proof fn lemma_first_break(text: Seq<char>, end: int)
    requires
        0 <= end <= text.len(),
        forall|i: int| 0 <= i < end ==> text[i] != NEWLINE,
        end < text.len() ==> text[end] == NEWLINE,
    ensures
        first_break(text) == end,
    decreases text.len(),
{
    if end > 0 {
        lemma_first_break(text.drop_first(), end - 1);
    }
}

/// The first line of a text ends within the text, at its first line feed if
/// it has one.
pub proof fn lemma_first_break_found(text: Seq<char>)
    ensures
        0 <= first_break(text) <= text.len(),
        forall|i: int| 0 <= i < first_break(text) ==> text[i] != NEWLINE,
        first_break(text) < text.len() ==> text[first_break(text)] == NEWLINE,
    decreases text.len(),
{
    if text.len() > 0 && text[0] != NEWLINE {
        let rest = text.drop_first();
        lemma_first_break_found(rest);
        assert forall|i: int| 0 <= i < first_break(text) implies text[i] != NEWLINE by {
            if i > 0 {
                assert(text[i] == rest[i - 1]);
            }
        }
    }
}

/// The text of a document ends with its last line and a line feed.
pub proof fn lemma_document_push(lines: Seq<Seq<char>>, line: Seq<char>)
    ensures
        document(lines.push(line)) == document(lines) + line.push(NEWLINE),
{
    lines.lemma_flat_map_push(|line: Seq<char>| line.push(NEWLINE), line);
}

/// The text of two runs of lines is the text of the first and then that of
/// the second.
pub proof fn lemma_document_add(first: Seq<Seq<char>>, second: Seq<Seq<char>>)
    ensures
        document(first + second) == document(first) + document(second),
    decreases second.len(),
{
    if second.len() > 0 {
        let init = second.drop_last();
        let last = second.last();
        assert(second =~= init.push(last));
        lemma_document_push(first + init, last);
        lemma_document_push(init, last);
        lemma_document_add(first, init);
    }
}

/// A text made of whole lines is the document of its lines.
pub proof fn lemma_whole_lines(text: Seq<char>)
    requires
        is_whole_lines(text),
    ensures
        document(text_lines(text)) == text,
    decreases text.len(),
{
    if text.len() > 0 {
        lemma_first_break_found(text);
        let end = first_break(text);
        let line = text.take(end);
        let rest = text.skip(end + 1);
        lemma_whole_lines(rest);
        lemma_document_add(seq![line], text_lines(rest));
        lemma_document_push(Seq::empty(), line);
    }
}

/// A text of whole lines and one more line behind it have the lines of the
/// text and that line.
pub proof fn lemma_text_lines_push(text: Seq<char>, line: Seq<char>)
    requires
        text.len() > 0 ==> text.last() == NEWLINE,
        is_file_line(line),
    ensures
        text_lines(text + line.push(NEWLINE)) == text_lines(text).push(line),
    decreases text.len(),
{
    let all = text + line.push(NEWLINE);
    if text.len() == 0 {
        lemma_first_break(all, line.len() as int);
        assert(all.take(line.len() as int) =~= line);
        assert(all.skip(line.len() as int + 1) =~= Seq::empty());
        assert(text =~= Seq::empty());
    } else {
        lemma_first_break_found(text);
        let end = first_break(text);
        lemma_first_break(all, end);
        let rest = text.skip(end + 1);
        assert(all.take(end) =~= text.take(end));
        assert(all.skip(end + 1) =~= rest + line.push(NEWLINE));
        lemma_text_lines_push(rest, line);
    }
}

/// The text of a document is empty or ends in a line feed.
pub proof fn lemma_document_ends(lines: Seq<Seq<char>>)
    ensures
        document(lines).len() > 0 ==> document(lines).last() == NEWLINE,
{
    if lines.len() > 0 {
        assert(lines =~= lines.drop_last().push(lines.last()));
        lemma_document_push(lines.drop_last(), lines.last());
    }
}

/// The text of a document, cut into lines again, gives the lines of the
/// document, if each of them can be a file's line.
pub proof fn lemma_document_lines(lines: Seq<Seq<char>>)
    requires
        forall|i: int| 0 <= i < lines.len() ==> is_file_line(#[trigger] lines[i]),
    ensures
        text_lines(document(lines)) == lines,
    decreases lines.len(),
{
    if lines.len() > 0 {
        let init = lines.drop_last();
        let last = lines.last();
        assert(lines =~= init.push(last));
        lemma_document_push(init, last);
        lemma_document_ends(init);
        lemma_document_lines(init);
        lemma_text_lines_push(document(init), last);
    }
}

/// A text always has a row, and no row holds a line feed.
pub proof fn lemma_rows(text: Seq<char>)
    ensures
        rows(text).len() >= 1,
        forall|i: int, j: int|
            0 <= i < rows(text).len() && 0 <= j < rows(text)[i].len() ==> #[trigger] rows(
                text,
            )[i][j] != NEWLINE,
    decreases text.len(),
{
    lemma_first_break_found(text);
    let end = first_break(text);
    if end < text.len() {
        lemma_rows(text.skip(end + 1));
    }
}

/// A row put before a run of rows joins them behind itself and a line feed.
pub proof fn lemma_joined_rows_behind(first: Seq<char>, rest: Seq<Seq<char>>)
    requires
        rest.len() > 0,
    ensures
        joined_rows(seq![first] + rest) == first.push(NEWLINE) + joined_rows(rest),
    decreases rest.len(),
{
    let all = seq![first] + rest;
    assert(all.drop_last() =~= seq![first] + rest.drop_last());
    if rest.len() == 1 {
        assert(joined_rows(seq![first]) == first);
    } else {
        lemma_joined_rows_behind(first, rest.drop_last());
    }
}

/// The rows of a text, joined again, are the text.
pub proof fn lemma_rows_joined(text: Seq<char>)
    ensures
        joined_rows(rows(text)) == text,
    decreases text.len(),
{
    lemma_first_break_found(text);
    let end = first_break(text);
    if end < text.len() {
        let rest = text.skip(end + 1);
        lemma_rows_joined(rest);
        lemma_joined_rows_behind(text.take(end), rows(rest));
    }
}

/// Splits a text into its lines.
pub fn split_lines(text: &str) -> (lines: Vec<String>)
    ensures
        line_views(lines@) == text_lines(text@),
{
    let mut lines: Vec<String> = Vec::new();
    let mut line = String::new();
    let mut pending = false;
    let ghost mut start: int = 0;
    assert(text@.skip(0) =~= text@);
    for c in it: text.chars()
        invariant
            it.seq() == text@,
            0 <= start <= it.index(),
            text_lines(text@) == line_views(lines@) + text_lines(text@.skip(start)),
            forall|i: int| start <= i < it.index() ==> text@[i] != NEWLINE,
            text@.subrange(start, it.index() as int) == if pending {
                line@.push(CARRIAGE_RETURN)
            } else {
                line@
            },
            !pending && line@.len() > 0 ==> line@.last() != CARRIAGE_RETURN,
    {
        let ghost at = it.index() as int;
        let ghost rest = text@.skip(start);
        if c == NEWLINE {
            proof {
                lemma_first_break(rest, at - start);
                assert(rest.take(at - start) =~= text@.subrange(start, at));
                assert(rest.skip(at - start + 1) =~= text@.skip(at + 1));
                assert(without_carriage_return(text@.subrange(start, at)) =~= line@);
                start = at + 1;
            }
            lines.push(line);
            line = String::new();
            pending = false;
        } else {
            if pending {
                line.push(CARRIAGE_RETURN);
            }
            if c == CARRIAGE_RETURN {
                pending = true;
            } else {
                line.push(c);
                pending = false;
            }
        }
    }
    if pending {
        line.push(CARRIAGE_RETURN);
    }
    proof {
        let rest = text@.skip(start);
        lemma_first_break(rest, rest.len() as int);
    }
    if !line.as_str().is_empty() {
        lines.push(line);
    }
    lines
}

/// Splits a text into its rows.
pub fn split_rows(text: &str) -> (split: Vec<String>)
    ensures
        line_views(split@) == rows(text@),
{
    let mut split: Vec<String> = Vec::new();
    let mut row = String::new();
    let ghost mut start: int = 0;
    assert(text@.skip(0) =~= text@);
    for c in it: text.chars()
        invariant
            it.seq() == text@,
            0 <= start <= it.index(),
            rows(text@) == line_views(split@) + rows(text@.skip(start)),
            forall|i: int| start <= i < it.index() ==> text@[i] != NEWLINE,
            text@.subrange(start, it.index() as int) == row@,
    {
        let ghost at = it.index() as int;
        let ghost rest = text@.skip(start);
        if c == NEWLINE {
            proof {
                lemma_first_break(rest, at - start);
                assert(rest.take(at - start) =~= text@.subrange(start, at));
                assert(rest.skip(at - start + 1) =~= text@.skip(at + 1));
                start = at + 1;
            }
            split.push(row);
            row = String::new();
        } else {
            row.push(c);
        }
    }
    proof {
        let rest = text@.skip(start);
        lemma_first_break(rest, rest.len() as int);
    }
    split.push(row);
    split
}

/// Joins rows into one text, a line feed between each and the next.
pub fn join_rows(rows: &[String]) -> (text: String)
    ensures
        text@ == joined_rows(line_views(rows@)),
{
    let ghost given = line_views(rows@);
    let mut text = String::new();
    let mut i: usize = 0;
    while i < rows.len()
        invariant
            i <= rows.len(),
            given == line_views(rows@),
            text@ == joined_rows(given.take(i as int)),
        decreases rows.len() - i,
    {
        if i > 0 {
            text.push(NEWLINE);
        }
        text.append(rows[i].as_str());
        proof {
            let read = given.take(i + 1);
            assert(read.drop_last() =~= given.take(i as int));
        }
        i = i + 1;
    }
    assert(given.take(rows.len() as int) =~= given);
    text
}

/// Takes the line feeds out of a text.
pub fn to_single_line(text: &str) -> (line: String)
    ensures
        line@ == single_line(text@),
        forall|i: int| 0 <= i < line@.len() ==> line@[i] != NEWLINE,
{
    let mut line = String::new();
    for c in it: text.chars()
        invariant
            it.seq() == text@,
            line@ == single_line(text@.take(it.index() as int)),
    {
        proof {
            let read = text@.take(it.index() as int);
            assert(text@.take(it.index() + 1) =~= read.push(c));
            read.lemma_filter_push(c, |c: char| c != NEWLINE);
        }
        if c != NEWLINE {
            line.push(c);
        }
    }
    proof {
        assert(text@.take(text@.len() as int) =~= text@);
    }
    line
}

/// Puts the rows of a title together into one line, without any line feed.
pub fn join_one_line(rows: &[String]) -> (line: String)
    ensures
        line@ == one_line(line_views(rows@)),
        forall|i: int| 0 <= i < line@.len() ==> line@[i] != NEWLINE,
{
    let ghost given = line_views(rows@);
    let mut text = String::new();
    let mut i: usize = 0;
    while i < rows.len()
        invariant
            i <= rows.len(),
            given == line_views(rows@),
            text@ == given.take(i as int).flatten(),
        decreases rows.len() - i,
    {
        text.append(rows[i].as_str());
        proof {
            assert(given.take(i + 1) =~= given.take(i as int).push(rows[i as int]@));
            given.take(i as int).lemma_flatten_push(rows[i as int]@);
        }
        i = i + 1;
    }
    assert(given.take(rows.len() as int) =~= given);
    to_single_line(text.as_str())
}

/// A row without a line feed is the one line that it makes alone.
pub proof fn lemma_one_line_of_one_row(row: Seq<char>)
    requires
        forall|i: int| 0 <= i < row.len() ==> row[i] != NEWLINE,
    ensures
        one_line(seq![row]) == row,
{
    seq![row].lemma_flatten_singleton();
    lemma_single_line_same(row);
}

/// A text without a line feed is on one line as it stands.
pub proof fn lemma_single_line_same(text: Seq<char>)
    requires
        forall|i: int| 0 <= i < text.len() ==> text[i] != NEWLINE,
    ensures
        single_line(text) == text,
    decreases text.len(),
{
    reveal(Seq::filter);
    if text.len() > 0 {
        lemma_single_line_same(text.drop_last());
    }
}

} // verus!
