//! What comes back when a board is written as an outline and read again.
//!
//! Reading gives back every column and card that has a title, in order, with
//! each description cut into its lines and each line closed by a line feed.
//! A column or a card without a title is gone. This holds of a board whose
//! titles and description lines begin with no tab, since a tab at the start
//! of a text would count as indentation.
//!
//! The other way round, lines that are read and written again are the same
//! lines, if each of them says something: a column's title, a card's title
//! in a column, or a line of a card's description.
use vstd::prelude::*;
use crate::kanban::CardView;
use crate::kanban::ColumnView;
use crate::kanban::KanbanView;
use crate::outline::Outline;
use crate::outline::TAB;
use crate::outline::card_lines;
use crate::outline::cards_lines;
use crate::outline::column_lines;
use crate::outline::columns_lines;
use crate::outline::decode;
use crate::outline::encode;
use crate::outline::indented;
use crate::outline::leading_tabs;
use crate::outline::lemma_cards_lines_push;
use crate::outline::lemma_columns_lines_push;
use crate::outline::lemma_leading_tabs;
use crate::outline::lemma_leading_tabs_within;
use crate::outline::line_text;
use crate::text::CARRIAGE_RETURN;
use crate::text::NEWLINE;
use crate::text::document;
use crate::text::is_file_line;
use crate::text::is_whole_lines;
use crate::text::lemma_document_lines;
use crate::text::lemma_document_push;
use crate::text::lemma_text_lines_push;
use crate::text::lemma_whole_lines;
use crate::text::text_lines;

verus! {

/// Whether a text begins with no tab, so that no part of it is taken for
/// indentation.
pub open spec fn is_plain(text: Seq<char>) -> bool {
    leading_tabs(text) == 0
}

/// Whether a card can be written and read again: its title is plain, and so
/// is each line of its description.
pub open spec fn storable_card(card: CardView) -> bool {
    &&& is_plain(card.title)
    &&& forall|i: int|
        0 <= i < text_lines(card.description).len() ==> is_plain(
            #[trigger] text_lines(card.description)[i],
        )
}

/// Whether a column can be written and read again: its title is plain, and
/// each of its cards can.
pub open spec fn storable_column(column: ColumnView) -> bool {
    &&& is_plain(column.title)
    &&& forall|i: int| 0 <= i < column.cards.len() ==> storable_card(#[trigger] column.cards[i])
}

/// Whether a board can be written and read again: each of its columns can.
pub open spec fn storable(board: KanbanView) -> bool {
    forall|i: int| 0 <= i < board.columns.len() ==> storable_column(#[trigger] board.columns[i])
}

/// A description as reading gives it back: its lines, each closed by a line
/// feed.
pub open spec fn stored_description(description: Seq<char>) -> Seq<char> {
    document(text_lines(description))
}

/// A card as reading gives it back.
pub open spec fn stored_card(card: CardView) -> CardView {
    CardView { title: card.title, description: stored_description(card.description) }
}

/// The cards that reading gives back: those with a title, in order.
pub open spec fn stored_cards(cards: Seq<CardView>) -> Seq<CardView> {
    cards.filter(|card: CardView| card.title.len() > 0).map_values(
        |card: CardView| stored_card(card),
    )
}

/// A column as reading gives it back.
pub open spec fn stored_column(column: ColumnView) -> ColumnView {
    ColumnView { title: column.title, cards: stored_cards(column.cards) }
}

/// The columns that reading gives back: those with a title, in order.
pub open spec fn stored_columns(columns: Seq<ColumnView>) -> Seq<ColumnView> {
    columns.filter(|column: ColumnView| column.title.len() > 0).map_values(
        |column: ColumnView| stored_column(column),
    )
}

/// A board as reading gives it back.
pub open spec fn stored(board: KanbanView) -> KanbanView {
    KanbanView { title: board.title, columns: stored_columns(board.columns) }
}

/// Whether every column of a board, and every card in it, has a title.
pub open spec fn titled(board: KanbanView) -> bool {
    forall|i: int|
        0 <= i < board.columns.len() ==> titled_column(#[trigger] board.columns[i])
}

/// Whether a column and each of its cards has a title.
pub open spec fn titled_column(column: ColumnView) -> bool {
    &&& column.title.len() > 0
    &&& forall|i: int| 0 <= i < column.cards.len() ==> (#[trigger] column.cards[i]).title.len() > 0
}

/// Whether each description of a board is made of whole lines, so that
/// reading gives it back as it is.
pub open spec fn in_whole_lines(board: KanbanView) -> bool {
    forall|i: int, j: int|
        0 <= i < board.columns.len() && 0 <= j < board.columns[i].cards.len()
            ==> stored_description(#[trigger] board.columns[i].cards[j].description)
            == board.columns[i].cards[j].description
}

/// The cards that reading gives back of a run of cards and one more: those
/// of the run, and the one more if it has a title.
proof fn lemma_stored_cards_push(cards: Seq<CardView>, card: CardView)
    ensures
        stored_cards(cards.push(card)) == if card.title.len() > 0 {
            stored_cards(cards).push(stored_card(card))
        } else {
            stored_cards(cards)
        },
{
    let titled = |card: CardView| card.title.len() > 0;
    cards.lemma_filter_push(card, titled);
}

/// The columns that reading gives back of a run of columns and one more:
/// those of the run, and the one more if it has a title.
proof fn lemma_stored_columns_push(columns: Seq<ColumnView>, column: ColumnView)
    ensures
        stored_columns(columns.push(column)) == if column.title.len() > 0 {
            stored_columns(columns).push(stored_column(column))
        } else {
            stored_columns(columns)
        },
{
    let titled = |column: ColumnView| column.title.len() > 0;
    columns.lemma_filter_push(column, titled);
}

/// Reading one run of lines and then another is reading both as one run.
pub proof fn lemma_read_lines_add(from: Outline, first: Seq<Seq<char>>, second: Seq<Seq<char>>)
    ensures
        from.read_lines(first + second) == from.read_lines(first).read_lines(second),
    decreases second.len(),
{
    if second.len() > 0 {
        assert((first + second).drop_last() =~= first + second.drop_last());
        lemma_read_lines_add(from, first, second.drop_last());
    }
}

/// Reading a run of one line is reading that line.
pub proof fn lemma_read_one_line(from: Outline, line: Seq<char>)
    ensures
        from.read_lines(seq![line]) == from.read_line(line),
{
    assert(seq![line].drop_last() =~= Seq::empty());
    assert(from.read_lines(Seq::empty()) == from);
}

/// A plain text behind tabs is read at the depth of those tabs, and read
/// whole.
pub proof fn lemma_indented(depth: nat, text: Seq<char>)
    requires
        is_plain(text),
    ensures
        leading_tabs(indented(depth, text)) == depth,
        line_text(indented(depth, text)) == text,
{
    let line = indented(depth, text);
    lemma_leading_tabs(line, depth as int);
}

/// Reading the lines of a description adds them to the description of the
/// open card, each closed by a line feed.
proof fn lemma_read_description(from: Outline, rows: Seq<Seq<char>>)
    requires
        forall|i: int| 0 <= i < rows.len() ==> is_plain(#[trigger] rows[i]),
    ensures
        from.read_lines(rows.map_values(|line: Seq<char>| indented(3, line))) == (Outline {
            columns: from.columns,
            column: from.column,
            card: from.card.with_description(from.card.description + document(rows)),
        }),
    decreases rows.len(),
{
    let said = rows.map_values(|line: Seq<char>| indented(3, line));
    if rows.len() > 0 {
        let init = rows.drop_last();
        let last = rows.last();
        assert(said.drop_last() =~= init.map_values(|line: Seq<char>| indented(3, line)));
        lemma_read_description(from, init);
        lemma_indented(3, last);
        assert(rows =~= init.push(last));
        lemma_document_push(init, last);
        assert(from.card.description + document(init) + last.push(NEWLINE)
            =~= from.card.description + document(rows));
    }
}

/// Reading the lines of a card closes the card that was open and leaves the
/// card open as reading gives it back.
pub proof fn lemma_read_card(from: Outline, card: CardView)
    requires
        storable_card(card),
    ensures
        from.read_lines(card_lines(card)) == (Outline {
            columns: from.columns,
            column: from.close_card().column,
            card: stored_card(card),
        }),
{
    let head = seq![indented(2, card.title)];
    let rows = text_lines(card.description);
    let tail = rows.map_values(|line: Seq<char>| indented(3, line));
    lemma_read_lines_add(from, head, tail);
    lemma_read_one_line(from, indented(2, card.title));
    lemma_indented(2, card.title);
    lemma_read_description(from.read_line(indented(2, card.title)), rows);
}

/// Reading the lines of a run of cards adds to the open column, once the
/// last of them is closed, the cards that reading gives back.
pub proof fn lemma_read_cards(from: Outline, cards: Seq<CardView>)
    requires
        forall|i: int| 0 <= i < cards.len() ==> storable_card(#[trigger] cards[i]),
    ensures
        from.read_lines(cards_lines(cards)).close_card() == (Outline {
            columns: from.columns,
            column: from.close_card().column.with_cards(
                from.close_card().column.cards + stored_cards(cards),
            ),
            card: CardView::empty(),
        }),
    decreases cards.len(),
{
    if cards.len() > 0 {
        let init = cards.drop_last();
        let last = cards.last();
        assert(cards =~= init.push(last));
        lemma_cards_lines_push(init, last);
        lemma_stored_cards_push(init, last);
        lemma_read_lines_add(from, cards_lines(init), card_lines(last));
        lemma_read_cards(from, init);
        let before = from.read_lines(cards_lines(init));
        lemma_read_card(before, last);
    }
}

/// Reading the lines of a column closes what was open and leaves, once the
/// column is closed in turn, the column that reading gives back, if it has a
/// title.
pub proof fn lemma_read_column(from: Outline, column: ColumnView)
    requires
        storable_column(column),
    ensures
        from.read_lines(column_lines(column)).finish() == if column.title.len() > 0 {
            from.finish().push(stored_column(column))
        } else {
            from.finish()
        },
{
    let head = indented(1, column.title);
    lemma_read_lines_add(from, seq![head], cards_lines(column.cards));
    lemma_read_one_line(from, head);
    lemma_indented(1, column.title);
    let opened = from.read_line(head);
    lemma_read_cards(opened, column.cards);
}

/// Reading the lines of a run of columns gives, at the end, the columns that
/// were there and those that reading gives back.
pub proof fn lemma_read_columns(from: Outline, columns: Seq<ColumnView>)
    requires
        forall|i: int| 0 <= i < columns.len() ==> storable_column(#[trigger] columns[i]),
    ensures
        from.read_lines(columns_lines(columns)).finish() == from.finish() + stored_columns(columns),
    decreases columns.len(),
{
    if columns.len() > 0 {
        let init = columns.drop_last();
        let last = columns.last();
        assert(columns =~= init.push(last));
        lemma_columns_lines_push(init, last);
        lemma_stored_columns_push(init, last);
        lemma_read_lines_add(from, columns_lines(init), column_lines(last));
        lemma_read_columns(from, init);
        lemma_read_column(from.read_lines(columns_lines(init)), last);
    }
}

/// Writing a board and reading what was written gives the board back with
/// every column and card that has a title, in order, each description in
/// whole lines, and without the columns and cards that have no title.
pub proof fn lemma_decode_encode(board: KanbanView)
    requires
        storable(board),
    ensures
        decode(encode(board)) == Some(stored(board)),
{
    let lines = encode(board);
    assert(lines.drop_first() =~= columns_lines(board.columns));
    lemma_read_columns(Outline::start(), board.columns);
}

/// Cards that all have a title and a description in whole lines are given
/// back by reading as they are.
proof fn lemma_stored_cards_same(cards: Seq<CardView>)
    requires
        forall|i: int| 0 <= i < cards.len() ==> (#[trigger] cards[i]).title.len() > 0,
        forall|i: int|
            0 <= i < cards.len() ==> stored_description((#[trigger] cards[i]).description)
                == cards[i].description,
    ensures
        stored_cards(cards) == cards,
    decreases cards.len(),
{
    if cards.len() > 0 {
        let init = cards.drop_last();
        let last = cards.last();
        assert(cards =~= init.push(last));
        lemma_stored_cards_push(init, last);
        lemma_stored_cards_same(init);
    }
}

/// Columns that all have a title, with cards that all have a title and a
/// description in whole lines, are given back by reading as they are.
proof fn lemma_stored_columns_same(columns: Seq<ColumnView>)
    requires
        forall|i: int| 0 <= i < columns.len() ==> titled_column(#[trigger] columns[i]),
        forall|i: int, j: int|
            0 <= i < columns.len() && 0 <= j < columns[i].cards.len() ==> stored_description(
                #[trigger] columns[i].cards[j].description,
            ) == columns[i].cards[j].description,
    ensures
        stored_columns(columns) == columns,
    decreases columns.len(),
{
    if columns.len() > 0 {
        let init = columns.drop_last();
        let last = columns.last();
        assert(columns =~= init.push(last));
        lemma_stored_columns_push(init, last);
        lemma_stored_columns_same(init);
        lemma_stored_cards_same(last.cards);
    }
}

/// Writing a board and reading what was written gives the same board:
/// title, columns in order, cards in order, descriptions line by line. This
/// holds of a board that can be stored, in which every column and card has a
/// title and every description is made of whole lines.
pub proof fn lemma_round_trip(board: KanbanView)
    requires
        storable(board),
        titled(board),
        in_whole_lines(board),
    ensures
        decode(encode(board)) == Some(board),
{
    lemma_decode_encode(board);
    lemma_stored_columns_same(board.columns);
}

/// A column or a card without a title does not come back: what is read
/// after writing holds the titled columns and cards and no other.
pub proof fn lemma_untitled_dropped(board: KanbanView)
    requires
        storable(board),
    ensures
        decode(encode(board)) == Some(stored(board)),
        titled(stored(board)),
{
    lemma_decode_encode(board);
}

/// Whether every column that a reader has closed is titled with titled
/// cards, and every card that it has put in the open column is titled.
pub open spec fn titled_outline(at: Outline) -> bool {
    &&& forall|i: int| 0 <= i < at.columns.len() ==> titled_column(#[trigger] at.columns[i])
    &&& forall|i: int| 0 <= i < at.column.cards.len() ==> (#[trigger] at.column.cards[i]).title.len() > 0
}

/// Reading lines leaves every closed column and every card in a column
/// titled.
proof fn lemma_read_lines_titled(from: Outline, lines: Seq<Seq<char>>)
    requires
        titled_outline(from),
    ensures
        titled_outline(from.read_lines(lines)),
    decreases lines.len(),
{
    if lines.len() > 0 {
        lemma_read_lines_titled(from, lines.drop_last());
    }
}

/// Whatever lines are read, no column and no card of the board that comes
/// out is without a title.
pub proof fn lemma_decode_titled(lines: Seq<Seq<char>>)
    ensures
        decode(lines) matches Some(board) ==> titled(board),
{
    if lines.len() > 0 {
        lemma_read_lines_titled(Outline::start(), lines.drop_first());
    }
}

/// Whether a card comes back from writing and reading as it is, but for
/// being dropped without a title: its title is plain, its description is
/// made of whole lines, and each of those is plain.
pub open spec fn is_kept_card(card: CardView) -> bool {
    &&& storable_card(card)
    &&& is_whole_lines(card.description)
}

/// Whether a column comes back from writing and reading as it is, but for
/// being dropped without a title: its title is plain and each of its cards
/// comes back.
pub open spec fn is_kept_column(column: ColumnView) -> bool {
    &&& is_plain(column.title)
    &&& forall|i: int| 0 <= i < column.cards.len() ==> is_kept_card(#[trigger] column.cards[i])
}

/// Whether all that a reader holds comes back from writing and reading.
pub open spec fn is_kept_outline(at: Outline) -> bool {
    &&& forall|i: int| 0 <= i < at.columns.len() ==> is_kept_column(#[trigger] at.columns[i])
    &&& is_kept_column(at.column)
    &&& is_kept_card(at.card)
}

/// What a line says behind its tabs begins with no tab.
pub proof fn lemma_line_text_plain(line: Seq<char>)
    ensures
        is_plain(line_text(line)),
    decreases line.len(),
{
    lemma_leading_tabs_within(line);
    if line.len() > 0 && line[0] == TAB {
        lemma_line_text_plain(line.drop_first());
    }
}

/// What a file's line says behind its tabs holds no line feed and does not
/// end in a carriage return.
proof fn lemma_line_text_of_file_line(line: Seq<char>)
    requires
        is_file_line(line),
    ensures
        is_file_line(line_text(line)),
{
    lemma_leading_tabs_within(line);
}

/// Reading a file's line leaves all that the reader holds such that it
/// comes back from writing and reading.
proof fn lemma_read_line_kept(from: Outline, line: Seq<char>)
    requires
        is_kept_outline(from),
        is_file_line(line),
    ensures
        is_kept_outline(from.read_line(line)),
{
    let text = line_text(line);
    lemma_line_text_plain(line);
    lemma_line_text_of_file_line(line);
    if leading_tabs(line) == 3 {
        let before = from.card.description;
        let after = before + text.push(NEWLINE);
        lemma_text_lines_push(before, text);
        assert forall|i: int| 0 < i < after.len() && #[trigger] after[i] == NEWLINE implies after[i
            - 1] != CARRIAGE_RETURN by {}
    }
}

/// Reading a file's lines leaves all that the reader holds such that it
/// comes back from writing and reading.
proof fn lemma_read_lines_kept(from: Outline, lines: Seq<Seq<char>>)
    requires
        is_kept_outline(from),
        forall|i: int| 0 <= i < lines.len() ==> is_file_line(#[trigger] lines[i]),
    ensures
        is_kept_outline(from.read_lines(lines)),
    decreases lines.len(),
{
    if lines.len() > 0 {
        lemma_read_lines_kept(from, lines.drop_last());
        lemma_read_line_kept(from.read_lines(lines.drop_last()), lines.last());
    }
}

/// The board read from a file's lines can be stored, and every description
/// in it is made of whole lines.
pub proof fn lemma_decode_kept(lines: Seq<Seq<char>>)
    requires
        forall|i: int| 1 <= i < lines.len() ==> is_file_line(#[trigger] lines[i]),
    ensures
        decode(lines) matches Some(board) ==> storable(board) && titled(board) && in_whole_lines(
            board,
        ),
{
    if lines.len() > 0 {
        let board = decode(lines).unwrap();
        lemma_decode_titled(lines);
        lemma_read_lines_kept(Outline::start(), lines.drop_first());
        assert forall|i: int, j: int|
            0 <= i < board.columns.len() && 0 <= j < board.columns[i].cards.len()
            implies stored_description(#[trigger] board.columns[i].cards[j].description)
            == board.columns[i].cards[j].description by {
            lemma_whole_lines(board.columns[i].cards[j].description);
        }
    }
}

/// A board read from a file's lines, written and read again, is the board
/// that was read: writing what was read loses nothing.
pub proof fn lemma_read_again(lines: Seq<Seq<char>>)
    requires
        forall|i: int| 1 <= i < lines.len() ==> is_file_line(#[trigger] lines[i]),
    ensures
        decode(lines) matches Some(board) ==> decode(encode(board)) == Some(board),
{
    if lines.len() > 0 {
        lemma_decode_kept(lines);
        lemma_round_trip(decode(lines).unwrap());
    }
}

/// A board written to a file's text and read from the lines of that text
/// is the same board, if it comes back from its lines and each of those can
/// be a file's line.
pub proof fn lemma_file_round_trip(board: KanbanView)
    requires
        storable(board),
        titled(board),
        in_whole_lines(board),
        forall|i: int| 0 <= i < encode(board).len() ==> is_file_line(#[trigger] encode(board)[i]),
    ensures
        decode(text_lines(document(encode(board)))) == Some(board),
{
    lemma_document_lines(encode(board));
    lemma_round_trip(board);
}

/// Whether a line is one of an outline: it begins with one, two or three
/// tabs; behind one or two tabs it says a title that is not empty; behind
/// three it says a line of a description, which can be a file's line.
pub open spec fn is_outline_line(line: Seq<char>) -> bool {
    &&& 1 <= leading_tabs(line) <= 3
    &&& leading_tabs(line) < 3 ==> line_text(line).len() > 0
    &&& leading_tabs(line) == 3 ==> is_file_line(line)
}

/// Whether lines are an outline in which every line says something: after
/// the title's line each line is one of an outline, the first of them opens
/// a column, and a line of a description follows a card's line or another
/// line of its description.
pub open spec fn is_outline(lines: Seq<Seq<char>>) -> bool {
    &&& lines.len() >= 1
    &&& forall|i: int| 1 <= i < lines.len() ==> is_outline_line(#[trigger] lines[i])
    &&& lines.len() > 1 ==> leading_tabs(lines[1]) == 1
    &&& forall|i: int|
        2 <= i < lines.len() && leading_tabs(#[trigger] lines[i]) == 3 ==> leading_tabs(
            lines[i - 1],
        ) >= 2
}

/// The lines that say what a reader holds: the closed columns, then the open
/// column and the open card, as far as they have a title.
pub open spec fn outline_lines(at: Outline) -> Seq<Seq<char>> {
    columns_lines(at.columns) + (if at.column.title.len() > 0 {
        column_lines(at.column)
    } else {
        Seq::empty()
    }) + (if at.card.title.len() > 0 {
        card_lines(at.card)
    } else {
        Seq::empty()
    })
}

/// The tabs that a line begins with are tabs of the line.
proof fn lemma_leading_tabs_are_tabs(line: Seq<char>)
    ensures
        leading_tabs(line) <= line.len(),
        forall|i: int| 0 <= i < leading_tabs(line) ==> line[i] == TAB,
    decreases line.len(),
{
    if line.len() > 0 && line[0] == TAB {
        let rest = line.drop_first();
        lemma_leading_tabs_are_tabs(rest);
        assert forall|i: int| 0 <= i < leading_tabs(line) implies line[i] == TAB by {
            if i > 0 {
                assert(line[i] == rest[i - 1]);
            }
        }
    }
}

/// A line is what it says, behind the tabs that it begins with.
pub proof fn lemma_line_indented(line: Seq<char>)
    ensures
        line == indented(leading_tabs(line), line_text(line)),
{
    lemma_leading_tabs_are_tabs(line);
}

/// The columns that a reader ends with say the lines of what it holds, if
/// its open card stands in an open column.
proof fn lemma_finished_lines(at: Outline)
    requires
        at.card.title.len() > 0 ==> at.column.title.len() > 0,
    ensures
        columns_lines(at.finish()) == outline_lines(at),
{
    if at.column.title.len() > 0 {
        let closed = at.close_card().column;
        lemma_columns_lines_push(at.columns, closed);
        if at.card.title.len() > 0 {
            lemma_cards_lines_push(at.column.cards, at.card);
        }
    }
}

/// Reading the first lines of an outline leaves the reader holding what
/// says those lines, with a column open after the first line and a card open
/// after a card's line or a line of its description.
proof fn lemma_outline_read(lines: Seq<Seq<char>>, count: int)
    requires
        is_outline(lines),
        0 <= count <= lines.len() - 1,
    ensures
        ({
            let rest = lines.drop_first();
            let at = Outline::start().read_lines(rest.take(count));
            &&& outline_lines(at) == rest.take(count)
            &&& at.card.title.len() > 0 ==> at.column.title.len() > 0
            &&& at.card.description.len() > 0 ==> at.card.description.last() == NEWLINE
            &&& count > 0 ==> at.column.title.len() > 0
            &&& count > 0 ==> (at.card.title.len() > 0 <==> leading_tabs(rest[count - 1]) >= 2)
        }),
    decreases count,
{
    let rest = lines.drop_first();
    if count > 0 {
        let line = rest[count - 1];
        assert(rest.take(count).drop_last() =~= rest.take(count - 1));
        lemma_outline_read(lines, count - 1);
        let before = Outline::start().read_lines(rest.take(count - 1));
        lemma_line_indented(line);
        lemma_finished_lines(before);
        if leading_tabs(line) == 2 {
            if before.card.title.len() > 0 {
                lemma_cards_lines_push(before.column.cards, before.card);
            }
        } else if leading_tabs(line) == 3 {
            lemma_text_lines_push(before.card.description, line_text(line));
        }
    }
}

/// The lines of an outline in which every line says something, read and
/// written again, are the same lines.
pub proof fn lemma_encode_decode(lines: Seq<Seq<char>>)
    requires
        is_outline(lines),
    ensures
        decode(lines) matches Some(board) && encode(board) == lines,
{
    let rest = lines.drop_first();
    lemma_outline_read(lines, lines.len() - 1);
    assert(rest.take(lines.len() - 1) =~= rest);
    lemma_finished_lines(Outline::start().read_lines(rest));
}

} // verus!
