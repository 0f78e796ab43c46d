//! The outline format of a board: one line per item, its depth given by the
//! tabs it begins with.
//!
//! The first line is the board's title. A line that begins with one tab opens
//! a column, one that begins with two tabs opens a card, and one that begins
//! with three tabs adds a line to the description of the open card. Any other
//! line says nothing. A column or a card is kept only under a title that is
//! not empty.
use vstd::prelude::*;
use vstd::string::StringExecFns;
use vstd::string::StrSliceExecFns;
use crate::kanban::Card;
use crate::kanban::CardView;
use crate::kanban::Column;
use crate::kanban::ColumnView;
use crate::kanban::Kanban;
use crate::kanban::KanbanView;
use crate::kanban::card_views;
use crate::kanban::column_views;
use crate::text::NEWLINE;
use crate::text::document;
use crate::text::lemma_document_push;
use crate::text::line_views;
use crate::text::split_lines;
use crate::text::text_lines;

verus! {

/// The character that indents a line by one level.
pub const TAB: char = '\t';

/// The number of tabs that a line begins with.
pub open spec fn leading_tabs(line: Seq<char>) -> nat
    decreases line.len(),
{
    if line.len() > 0 && line[0] == TAB {
        1 + leading_tabs(line.drop_first())
    } else {
        0
    }
}

/// What a line says once the tabs it begins with are taken off.
pub open spec fn line_text(line: Seq<char>) -> Seq<char> {
    line.skip(leading_tabs(line) as int)
}

/// The line that says `text` at the given depth.
pub open spec fn indented(depth: nat, text: Seq<char>) -> Seq<char> {
    Seq::new(depth, |i: int| TAB) + text
}

/// Where a reader of an outline stands: the columns closed so far, the column
/// that is open and the card that is open. An open column or card with an
/// empty title stands for none.
pub struct Outline {
    pub columns: Seq<ColumnView>,
    pub column: ColumnView,
    pub card: CardView,
}

impl Outline {
    /// The reader before the first line: nothing closed, nothing open.
    pub open spec fn start() -> Outline {
        Outline { columns: Seq::empty(), column: ColumnView::empty(), card: CardView::empty() }
    }

    /// Closes the open card: it joins the open column if it has a title, and
    /// is dropped if it has none.
    pub open spec fn close_card(self) -> Outline {
        Outline {
            columns: self.columns,
            column: if self.card.title.len() > 0 {
                self.column.add_card(self.card)
            } else {
                self.column
            },
            card: CardView::empty(),
        }
    }

    /// Closes the open column: it joins the closed columns if it has a title,
    /// and is dropped if it has none.
    pub open spec fn close_column(self) -> Outline {
        Outline {
            columns: if self.column.title.len() > 0 {
                self.columns.push(self.column)
            } else {
                self.columns
            },
            column: ColumnView::empty(),
            card: self.card,
        }
    }

    /// The reader after one more line.
    pub open spec fn read_line(self, line: Seq<char>) -> Outline {
        let depth = leading_tabs(line);
        let text = line_text(line);
        if depth == 1 {
            let closed = self.close_card().close_column();
            Outline {
                columns: closed.columns,
                column: ColumnView { title: text, cards: Seq::empty() },
                card: closed.card,
            }
        } else if depth == 2 {
            let closed = self.close_card();
            Outline {
                columns: closed.columns,
                column: closed.column,
                card: CardView { title: text, description: Seq::empty() },
            }
        } else if depth == 3 {
            Outline {
                columns: self.columns,
                column: self.column,
                card: self.card.with_description(self.card.description + text.push(NEWLINE)),
            }
        } else {
            self
        }
    }

    /// The reader after a run of lines, read in order.
    pub open spec fn read_lines(self, lines: Seq<Seq<char>>) -> Outline
        decreases lines.len(),
    {
        if lines.len() == 0 {
            self
        } else {
            self.read_lines(lines.drop_last()).read_line(lines.last())
        }
    }

    /// The columns of the board once the last line is read: what is still
    /// open is closed.
    pub open spec fn finish(self) -> Seq<ColumnView> {
        self.close_card().close_column().columns
    }
}

/// The board that a document's lines describe, or `None` for a document
/// without a single line, which has no title.
pub open spec fn decode(lines: Seq<Seq<char>>) -> Option<KanbanView> {
    if lines.len() == 0 {
        None
    } else {
        Some(
            KanbanView {
                title: lines.first(),
                columns: Outline::start().read_lines(lines.drop_first()).finish(),
            },
        )
    }
}

/// The error of a document that holds no line at all, and so no title.
#[derive(Debug)]
pub struct MalformedDocument;

/// A line has `count` tabs at its start if those are tabs and what follows
/// them, if anything, is none.
pub proof fn lemma_leading_tabs(line: Seq<char>, count: int)
    requires
        0 <= count <= line.len(),
        forall|i: int| 0 <= i < count ==> line[i] == TAB,
        count < line.len() ==> line[count] != TAB,
    ensures
        leading_tabs(line) == count,
    decreases line.len(),
{
    if count > 0 {
        lemma_leading_tabs(line.drop_first(), count - 1);
    }
}

/// Counts the tabs that a line begins with.
pub fn indentation(line: &str) -> (depth: usize)
    ensures
        depth == leading_tabs(line@),
{
    let len = line.unicode_len();
    let mut depth: usize = 0;
    let mut counting = true;
    for c in it: line.chars()
        invariant
            len == line@.len(),
            it.seq() == line@,
            depth <= it.index(),
            forall|i: int| 0 <= i < depth ==> line@[i] == TAB,
            counting ==> depth == it.index(),
            !counting ==> depth < line@.len() && line@[depth as int] != TAB,
    {
        if counting && c == TAB {
            depth = depth + 1;
        } else {
            counting = false;
        }
    }
    proof {
        lemma_leading_tabs(line@, depth as int);
    }
    depth
}

/// What a line holds once the tabs it begins with are taken off.
fn text_after(line: &str, depth: usize) -> (text: String)
    requires
        depth == leading_tabs(line@),
        depth <= line@.len(),
    ensures
        text@ == line_text(line@),
{
    let len = line.unicode_len();
    String::from_str(line.substring_char(depth, len))
}

/// The tabs at the start of a line are part of it.
pub proof fn lemma_leading_tabs_within(line: Seq<char>)
    ensures
        leading_tabs(line) <= line.len(),
    decreases line.len(),
{
    if line.len() > 0 && line[0] == TAB {
        lemma_leading_tabs_within(line.drop_first());
    }
}

impl Kanban {
    /// Rebuilds a board from the lines of its file. The first line is the
    /// board's title as it stands; each later line opens a column, opens a
    /// card or extends a description, by the number of tabs it begins with.
    /// Fails on a file without lines, and on no other.
    pub fn from_file(lines: &Vec<String>) -> (loaded: Result<Kanban, MalformedDocument>)
        ensures
            loaded is Err <==> lines@.len() == 0,
            loaded matches Ok(kanban) ==> decode(line_views(lines@)) == Some(kanban@),
    {
        if lines.len() == 0 {
            return Err(MalformedDocument);
        }
        let ghost texts = line_views(lines@);
        let mut columns: Vec<Column> = Vec::new();
        let mut column = Column::empty();
        let mut card = Card::empty();
        let mut i: usize = 1;
        assert(column_views(columns@) =~= Seq::empty());
        while i < lines.len()
            invariant
                1 <= i <= lines.len(),
                texts == line_views(lines@),
                (Outline { columns: column_views(columns@), column: column@, card: card@ })
                    == Outline::start().read_lines(texts.drop_first().take(i - 1)),
            decreases lines.len() - i,
        {
            let line = lines[i].as_str();
            let ghost before = Outline { columns: column_views(columns@), column: column@, card: card@ };
            proof {
                let read = texts.drop_first().take(i as int);
                assert(read.drop_last() =~= texts.drop_first().take(i - 1));
                lemma_leading_tabs_within(line@);
            }
            let depth = indentation(line);
            if depth == 1 {
                if !card.title.as_str().is_empty() {
                    column.add_card(card);
                }
                card = Card::empty();
                if !column.title.as_str().is_empty() {
                    columns.push(column);
                    assert(column_views(columns@) =~= before.close_card().close_column().columns);
                }
                column = Column { title: text_after(line, depth), cards: Vec::new() };
                assert(column@.cards =~= Seq::empty());
            } else if depth == 2 {
                if !card.title.as_str().is_empty() {
                    column.add_card(card);
                }
                card = Card { title: text_after(line, depth), description: String::new() };
            } else if depth == 3 {
                let text = text_after(line, depth);
                card.description.append(text.as_str());
                card.description.append("\n");
                proof {
                    reveal_strlit("\n");
                    assert(card@.description =~= before.card.description + line_text(line@).push(
                        NEWLINE,
                    ));
                }
            }
            i = i + 1;
        }
        if !card.title.as_str().is_empty() {
            column.add_card(card);
        }
        if !column.title.as_str().is_empty() {
            columns.push(column);
        }
        proof {
            assert(texts.drop_first().take(lines.len() - 1) =~= texts.drop_first());
            let read = Outline::start().read_lines(texts.drop_first());
            assert(column_views(columns@) =~= read.finish());
        }
        Ok(Kanban::_with_columns(lines[0].as_str(), columns))
    }
}

/// The lines that say a card: its title at depth two, then each line of its
/// description at depth three.
pub open spec fn card_lines(card: CardView) -> Seq<Seq<char>> {
    seq![indented(2, card.title)] + text_lines(card.description).map_values(
        |line: Seq<char>| indented(3, line),
    )
}

/// The lines that say a run of cards, one card after the other.
pub open spec fn cards_lines(cards: Seq<CardView>) -> Seq<Seq<char>> {
    cards.flat_map(|card: CardView| card_lines(card))
}

/// The lines that say a column: its title at depth one, then its cards.
pub open spec fn column_lines(column: ColumnView) -> Seq<Seq<char>> {
    seq![indented(1, column.title)] + cards_lines(column.cards)
}

/// The lines that say a run of columns, one column after the other.
pub open spec fn columns_lines(columns: Seq<ColumnView>) -> Seq<Seq<char>> {
    columns.flat_map(|column: ColumnView| column_lines(column))
}

/// The lines that say a board: its title as it stands, then its columns.
pub open spec fn encode(board: KanbanView) -> Seq<Seq<char>> {
    seq![board.title] + columns_lines(board.columns)
}

/// The lines of a run of cards end with the lines of its last card.
pub proof fn lemma_cards_lines_push(cards: Seq<CardView>, card: CardView)
    ensures
        cards_lines(cards.push(card)) == cards_lines(cards) + card_lines(card),
{
    cards.lemma_flat_map_push(|card: CardView| card_lines(card), card);
}

/// The lines of a run of columns end with the lines of its last column.
pub proof fn lemma_columns_lines_push(columns: Seq<ColumnView>, column: ColumnView)
    ensures
        columns_lines(columns.push(column)) == columns_lines(columns) + column_lines(column),
{
    columns.lemma_flat_map_push(|column: ColumnView| column_lines(column), column);
}

/// The line that says `text` behind the given tabs.
fn indent(tabs: &str, text: &str) -> (line: String)
    ensures
        line@ == tabs@ + text@,
{
    let mut line = String::from_str(tabs);
    line.append(text);
    line
}

/// Appends the lines that say a card.
fn push_card_lines(lines: &mut Vec<String>, card: &Card)
    ensures
        line_views(final(lines)@) == line_views(old(lines)@) + card_lines(card@),
{
    proof {
        reveal_strlit("\t\t");
        reveal_strlit("\t\t\t");
        assert("\t\t"@ =~= Seq::new(2, |i: int| TAB));
    }
    lines.push(indent("\t\t", card.title.as_str()));
    let rows = split_lines(card.description.as_str());
    let ghost said = text_lines(card@.description);
    let mut i: usize = 0;
    while i < rows.len()
        invariant
            i <= rows.len(),
            line_views(rows@) == said,
            "\t\t\t"@ == Seq::new(3, |i: int| TAB),
            line_views(lines@) == line_views(old(lines)@) + seq![indented(2, card@.title)]
                + said.take(i as int).map_values(|line: Seq<char>| indented(3, line)),
        decreases rows.len() - i,
    {
        let ghost before = lines@;
        lines.push(indent("\t\t\t", rows[i].as_str()));
        proof {
            let row = rows[i as int]@;
            assert(line_views(lines@) =~= line_views(before).push(indented(3, row)));
        }
        i = i + 1;
    }
}

/// Appends the lines that say a column.
fn push_column_lines(lines: &mut Vec<String>, column: &Column)
    ensures
        line_views(final(lines)@) == line_views(old(lines)@) + column_lines(column@),
{
    proof {
        reveal_strlit("\t");
        assert("\t"@ =~= Seq::new(1, |i: int| TAB));
    }
    lines.push(indent("\t", column.title.as_str()));
    let ghost cards = column@.cards;
    let mut i: usize = 0;
    while i < column.cards.len()
        invariant
            i <= column.cards.len(),
            cards == card_views(column.cards@),
            line_views(lines@) == line_views(old(lines)@) + seq![indented(1, column@.title)]
                + cards_lines(cards.take(i as int)),
        decreases column.cards.len() - i,
    {
        push_card_lines(lines, &column.cards[i]);
        proof {
            assert(cards.take(i + 1) =~= cards.take(i as int).push(column.cards[i as int]@));
            lemma_cards_lines_push(cards.take(i as int), column.cards[i as int]@);
        }
        i = i + 1;
    }
    assert(cards.take(column.cards.len() as int) =~= cards);
}

impl Kanban {
    /// The lines of the board's file: the title, then for each column its
    /// title behind one tab, for each of its cards the title behind two tabs,
    /// and for each line of a card's description that line behind three.
    pub fn encode(&self) -> (lines: Vec<String>)
        ensures
            line_views(lines@) == encode(self@),
    {
        let mut lines: Vec<String> = Vec::new();
        lines.push(String::from_str(self.title()));
        let columns = self.columns();
        let ghost said = self@.columns;
        let mut i: usize = 0;
        while i < columns.len()
            invariant
                i <= columns.len(),
                said == column_views(columns@),
                line_views(lines@) == seq![self@.title] + columns_lines(said.take(i as int)),
            decreases columns.len() - i,
        {
            push_column_lines(&mut lines, &columns[i]);
            proof {
                assert(said.take(i + 1) =~= said.take(i as int).push(columns[i as int]@));
                lemma_columns_lines_push(said.take(i as int), columns[i as int]@);
            }
            i = i + 1;
        }
        assert(said.take(columns.len() as int) =~= said);
        lines
    }

    /// The text of the board's file: each of its lines, followed by a line
    /// feed.
    pub fn to_string(&self) -> (text: String)
        ensures
            text@ == document(encode(self@)),
    {
        let lines = self.encode();
        let ghost said = line_views(lines@);
        let mut text = String::new();
        let mut i: usize = 0;
        while i < lines.len()
            invariant
                i <= lines.len(),
                said == line_views(lines@),
                text@ == document(said.take(i as int)),
            decreases lines.len() - i,
        {
            text.append(lines[i].as_str());
            text.push(NEWLINE);
            proof {
                assert(said.take(i + 1) =~= said.take(i as int).push(lines[i as int]@));
                lemma_document_push(said.take(i as int), lines[i as int]@);
            }
            i = i + 1;
        }
        assert(said.take(lines.len() as int) =~= said);
        text
    }
}

} // verus!
