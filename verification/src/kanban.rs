//! The board and what it is made of: columns in order, each a run of cards.
//!
//! Columns and cards are named by their positions. A change that names a
//! position where nothing stands does nothing: a position is taken only if
//! it is less than the number of columns or cards.
use vstd::prelude::*;
use vstd::string::StringExecFns;

verus! {

/// What a card is: its title and its description, as text.
pub struct CardView {
    pub title: Seq<char>,
    pub description: Seq<char>,
}

/// What a column is: its title and its cards, in order.
pub struct ColumnView {
    pub title: Seq<char>,
    pub cards: Seq<CardView>,
}

/// What a board is: its title and its columns, in display order.
pub struct KanbanView {
    pub title: Seq<char>,
    pub columns: Seq<ColumnView>,
}

/// A titled unit of work with a description of any number of lines.
#[derive(Debug)]
pub struct Card {
    pub title: String,
    pub description: String,
}

/// A named, ordered list of cards.
#[derive(Debug)]
pub struct Column {
    pub title: String,
    pub cards: Vec<Card>,
}

/// The whole board: one title and an ordered list of columns.
pub struct Kanban {
    title: String,
    columns: Vec<Column>,
}

/// The views of a run of cards, position by position.
pub open spec fn card_views(cards: Seq<Card>) -> Seq<CardView> {
    cards.map_values(|card: Card| card@)
}

/// The views of a run of columns, position by position.
pub open spec fn column_views(columns: Seq<Column>) -> Seq<ColumnView> {
    columns.map_values(|column: Column| column@)
}

impl View for Card {
    type V = CardView;

    open spec fn view(&self) -> CardView {
        CardView { title: self.title@, description: self.description@ }
    }
}

impl View for Column {
    type V = ColumnView;

    open spec fn view(&self) -> ColumnView {
        ColumnView { title: self.title@, cards: card_views(self.cards@) }
    }
}

impl View for Kanban {
    type V = KanbanView;

    closed spec fn view(&self) -> KanbanView {
        KanbanView { title: self.title@, columns: column_views(self.columns@) }
    }
}

impl Clone for Card {
    fn clone(&self) -> (copy: Card)
        ensures
            copy@ == self@,
    {
        Card { title: self.title.clone(), description: self.description.clone() }
    }
}

impl Clone for Column {
    fn clone(&self) -> (copy: Column)
        ensures
            copy@ == self@,
    {
        let mut cards: Vec<Card> = Vec::new();
        let mut i: usize = 0;
        while i < self.cards.len()
            invariant
                i <= self.cards.len(),
                cards.len() == i,
                forall|j: int| 0 <= j < i ==> cards[j]@ == self.cards[j]@,
            decreases self.cards.len() - i,
        {
            cards.push(self.cards[i].clone());
            i = i + 1;
        }
        assert(card_views(cards@) =~= card_views(self.cards@));
        Column { title: self.title.clone(), cards }
    }
}

impl Card {
    /// A card with no title and no description.
    pub fn empty() -> (card: Card)
        ensures
            card@ == CardView::empty(),
    {
        Card { title: String::new(), description: String::new() }
    }

    /// A card with the given title and description.
    pub fn new(title: &str, description: &str) -> (card: Card)
        ensures
            card@ == (CardView { title: title@, description: description@ }),
    {
        Card { title: String::from_str(title), description: String::from_str(description) }
    }

    /// A card with the given title and description.
    pub fn from(title: &str, description: &str) -> (card: Card)
        ensures
            card@ == (CardView { title: title@, description: description@ }),
    {
        Card::new(title, description)
    }
}

impl CardView {
    /// The card with no title and no description.
    pub open spec fn empty() -> CardView {
        CardView { title: Seq::empty(), description: Seq::empty() }
    }
}

impl ColumnView {
    /// The column with no title and no cards.
    pub open spec fn empty() -> ColumnView {
        ColumnView { title: Seq::empty(), cards: Seq::empty() }
    }

    /// The column with one more card at its end.
    pub open spec fn add_card(self, card: CardView) -> ColumnView {
        ColumnView { title: self.title, cards: self.cards.push(card) }
    }
}

impl Column {
    /// A column with no title and no cards.
    pub fn empty() -> (column: Column)
        ensures
            column@ == ColumnView::empty(),
    {
        let column = Column { title: String::new(), cards: Vec::new() };
        assert(column@.cards =~= Seq::empty());
        column
    }

    /// A column with the given title and cards.
    pub fn new(title: &str, items: Vec<Card>) -> (column: Column)
        ensures
            column@ == (ColumnView { title: title@, cards: card_views(items@) }),
    {
        Column { title: String::from_str(title), cards: items }
    }

    /// Appends a card at the end of the column.
    pub fn add_card(&mut self, card: Card)
        ensures
            final(self)@ == old(self)@.add_card(card@),
    {
        self.cards.push(card);
        assert(self@.cards =~= old(self)@.cards.push(card@));
    }
}

/// The sequence with the items at two positions exchanged.
pub open spec fn swapped<T>(items: Seq<T>, first: int, second: int) -> Seq<T> {
    items.update(first, items[second]).update(second, items[first])
}

/// The sequence after its item at `idx` has been replaced by the last item
/// and the last position dropped: the order of what stays is not kept.
pub open spec fn swap_removed<T>(items: Seq<T>, idx: int) -> Seq<T> {
    items.update(idx, items.last()).drop_last()
}

impl ColumnView {
    /// The column under another title.
    pub open spec fn with_title(self, title: Seq<char>) -> ColumnView {
        ColumnView { title, cards: self.cards }
    }

    /// The column holding other cards.
    pub open spec fn with_cards(self, cards: Seq<CardView>) -> ColumnView {
        ColumnView { title: self.title, cards }
    }
}

impl CardView {
    /// The card under another title.
    pub open spec fn with_title(self, title: Seq<char>) -> CardView {
        CardView { title, description: self.description }
    }

    /// The card with another description.
    pub open spec fn with_description(self, description: Seq<char>) -> CardView {
        CardView { title: self.title, description }
    }
}

impl KanbanView {
    /// The board holding other columns.
    pub open spec fn with_columns(self, columns: Seq<ColumnView>) -> KanbanView {
        KanbanView { title: self.title, columns }
    }

    /// Whether `idx` is the position of a column.
    pub open spec fn has_column(self, idx: int) -> bool {
        0 <= idx < self.columns.len()
    }

    /// Whether `card_idx` is the position of a card in the column at `column_idx`.
    pub open spec fn has_card(self, column_idx: int, card_idx: int) -> bool {
        self.has_column(column_idx) && 0 <= card_idx < self.columns[column_idx].cards.len()
    }

    /// The board with the cards of one column replaced.
    pub open spec fn with_cards(self, column_idx: int, cards: Seq<CardView>) -> KanbanView {
        self.with_columns(self.columns.update(column_idx, self.columns[column_idx].with_cards(cards)))
    }

    /// The board with one more column at its end.
    pub open spec fn add_column(self, column: ColumnView) -> KanbanView {
        self.with_columns(self.columns.push(column))
    }

    /// The board with two columns exchanged; unchanged unless both positions exist.
    pub open spec fn swap_column(self, first: int, second: int) -> KanbanView {
        if self.has_column(first) && self.has_column(second) {
            self.with_columns(swapped(self.columns, first, second))
        } else {
            self
        }
    }

    /// The board without the column at `idx`; unchanged if there is none.
    pub open spec fn delete_column(self, idx: int) -> KanbanView {
        if self.has_column(idx) {
            self.with_columns(self.columns.remove(idx))
        } else {
            self
        }
    }

    /// The board with the column at `column_idx` retitled; unchanged if there is none.
    pub open spec fn set_col_title(self, column_idx: int, title: Seq<char>) -> KanbanView {
        if self.has_column(column_idx) {
            self.with_columns(
                self.columns.update(column_idx, self.columns[column_idx].with_title(title)),
            )
        } else {
            self
        }
    }

    /// The board with a card appended to the column at `column_idx`; unchanged
    /// if there is none.
    pub open spec fn add_card(self, column_idx: int, card: CardView) -> KanbanView {
        if self.has_column(column_idx) {
            self.with_cards(column_idx, self.columns[column_idx].cards.push(card))
        } else {
            self
        }
    }

    /// The board with two cards of one column exchanged; unchanged unless the
    /// column and both cards exist.
    pub open spec fn swap_card(self, column_idx: int, first: int, second: int) -> KanbanView {
        if self.has_card(column_idx, first) && self.has_card(column_idx, second) {
            self.with_cards(column_idx, swapped(self.columns[column_idx].cards, first, second))
        } else {
            self
        }
    }

    /// The board after the card at `card_idx` of the column at `column_idx` has
    /// gone to the end of the column at `new_column_idx`. In the column it
    /// leaves, the last card takes its place. Unchanged unless both columns and
    /// the card exist.
    pub open spec fn move_card(self, column_idx: int, new_column_idx: int, card_idx: int) -> KanbanView {
        if self.has_card(column_idx, card_idx) && self.has_column(new_column_idx) {
            let card = self.columns[column_idx].cards[card_idx];
            let taken = self.with_cards(
                column_idx,
                swap_removed(self.columns[column_idx].cards, card_idx),
            );
            taken.with_cards(new_column_idx, taken.columns[new_column_idx].cards.push(card))
        } else {
            self
        }
    }

    /// The board without the card at `card_idx` of the column at `column_idx`,
    /// the cards after it moved up by one; unchanged if there is no such card.
    pub open spec fn delete_card(self, column_idx: int, card_idx: int) -> KanbanView {
        if self.has_card(column_idx, card_idx) {
            self.with_cards(column_idx, self.columns[column_idx].cards.remove(card_idx))
        } else {
            self
        }
    }

    /// The board with one card retitled; unchanged if there is no such card.
    pub open spec fn set_card_title(self, column_idx: int, card_idx: int, title: Seq<char>) -> KanbanView {
        if self.has_card(column_idx, card_idx) {
            let cards = self.columns[column_idx].cards;
            self.with_cards(column_idx, cards.update(card_idx, cards[card_idx].with_title(title)))
        } else {
            self
        }
    }

    /// The board with the description of one card replaced; unchanged if there
    /// is no such card.
    pub open spec fn set_card_description(
        self,
        column_idx: int,
        card_idx: int,
        description: Seq<char>,
    ) -> KanbanView {
        if self.has_card(column_idx, card_idx) {
            let cards = self.columns[column_idx].cards;
            self.with_cards(
                column_idx,
                cards.update(card_idx, cards[card_idx].with_description(description)),
            )
        } else {
            self
        }
    }
}

/// Exchanges the items at two positions of a vector.
fn swap_items<T>(items: &mut Vec<T>, first: usize, second: usize)
    requires
        first < old(items).len(),
        second < old(items).len(),
    ensures
        final(items)@ == swapped(old(items)@, first as int, second as int),
{
    if first < second {
        let (left, right) = items.as_mut_slice().split_at_mut(second);
        core::mem::swap(&mut left[first], &mut right[0]);
    } else if second < first {
        let (left, right) = items.as_mut_slice().split_at_mut(first);
        core::mem::swap(&mut left[second], &mut right[0]);
    }
}

impl Kanban {
    /// A board with the given title and no columns.
    pub fn new(title: &str) -> (kanban: Kanban)
        ensures
            kanban@ == (KanbanView { title: title@, columns: Seq::empty() }),
    {
        let kanban = Kanban { title: String::from_str(title), columns: Vec::new() };
        assert(kanban@.columns =~= Seq::empty());
        kanban
    }

    /// A board with the given title and columns.
    pub fn _with_columns(title: &str, columns: Vec<Column>) -> (kanban: Kanban)
        ensures
            kanban@ == (KanbanView { title: title@, columns: column_views(columns@) }),
    {
        Kanban { title: String::from_str(title), columns }
    }

    /// The board's title.
    pub fn title(&self) -> (title: &str)
        ensures
            title@ == self@.title,
    {
        self.title.as_str()
    }

    /// The board's columns, in display order.
    pub fn columns(&self) -> (columns: &Vec<Column>)
        ensures
            column_views(columns@) == self@.columns,
    {
        &self.columns
    }

    /// The column at `idx`, if there is one.
    pub fn get_column(&self, idx: usize) -> (column: Option<&Column>)
        ensures
            column is Some <==> self@.has_column(idx as int),
            column matches Some(found) ==> found@ == self@.columns[idx as int],
    {
        if idx < self.columns.len() {
            Some(&self.columns[idx])
        } else {
            None
        }
    }

    /// The card at `item_idx` of the column at `column_idx`, if there is one.
    pub fn get_card(&self, column_idx: usize, item_idx: usize) -> (card: Option<&Card>)
        ensures
            card is Some <==> self@.has_card(column_idx as int, item_idx as int),
            card matches Some(found) ==> found@ == self@.columns[column_idx as int].cards[item_idx as int],
    {
        if column_idx < self.columns.len() {
            if item_idx < self.columns[column_idx].cards.len() {
                Some(&self.columns[column_idx].cards[item_idx])
            } else {
                None
            }
        } else {
            None
        }
    }

    /// Appends a column at the end of the board.
    pub fn add_column(&mut self, column: Column)
        ensures
            final(self)@ == old(self)@.add_column(column@),
    {
        self.columns.push(column);
        assert(self@.columns =~= old(self)@.columns.push(column@));
    }

    /// Exchanges the columns at two positions. Does nothing unless both exist.
    pub fn swap_column(&mut self, first: usize, second: usize)
        ensures
            final(self)@ == old(self)@.swap_column(first as int, second as int),
    {
        if first >= self.columns.len() || second >= self.columns.len() {
            return ;
        }
        swap_items(&mut self.columns, first, second);
        assert(self@.columns =~= swapped(old(self)@.columns, first as int, second as int));
    }

    /// Removes the column at `idx`. Does nothing if there is none.
    pub fn delete_column(&mut self, idx: usize)
        ensures
            final(self)@ == old(self)@.delete_column(idx as int),
    {
        if idx >= self.columns.len() {
            return ;
        }
        self.columns.remove(idx);
        assert(self@.columns =~= old(self)@.columns.remove(idx as int));
    }

    /// Retitles the column at `column_idx`. Does nothing if there is none.
    pub fn set_col_title(&mut self, column_idx: usize, title: &str)
        ensures
            final(self)@ == old(self)@.set_col_title(column_idx as int, title@),
    {
        if column_idx >= self.columns.len() {
            return ;
        }
        self.columns[column_idx].title = String::from_str(title);
        assert(self@.columns =~= old(self)@.set_col_title(column_idx as int, title@).columns);
    }

    /// Appends a card to the column at `column_idx`. Does nothing if there is
    /// no such column.
    pub fn add_card(&mut self, column_idx: usize, card: Card)
        ensures
            final(self)@ == old(self)@.add_card(column_idx as int, card@),
    {
        if column_idx >= self.columns.len() {
            return ;
        }
        self.columns[column_idx].add_card(card);
        assert(self@.columns =~= old(self)@.add_card(column_idx as int, card@).columns);
    }

    /// Exchanges two cards of the column at `column_idx`. Does nothing unless
    /// the column and both cards exist.
    pub fn swap_card(&mut self, column_idx: usize, first: usize, second: usize)
        ensures
            final(self)@ == old(self)@.swap_card(column_idx as int, first as int, second as int),
    {
        if column_idx >= self.columns.len() {
            return ;
        }
        if first >= self.columns[column_idx].cards.len() || second
            >= self.columns[column_idx].cards.len() {
            return ;
        }
        swap_items(&mut self.columns[column_idx].cards, first, second);
        assert(self@.columns[column_idx as int].cards =~= swapped(
            old(self)@.columns[column_idx as int].cards,
            first as int,
            second as int,
        ));
        assert(self@.columns =~= old(self)@.swap_card(
            column_idx as int,
            first as int,
            second as int,
        ).columns);
    }

    /// Moves the card at `card_idx` of the column at `column_idx` to the end
    /// of the column at `new_column_idx`. The last card of the column it
    /// leaves takes its place, so that column does not keep its order. Does
    /// nothing unless both columns and the card exist.
    pub fn move_card(&mut self, column_idx: usize, new_column_idx: usize, card_idx: usize)
        ensures
            final(self)@ == old(self)@.move_card(
                column_idx as int,
                new_column_idx as int,
                card_idx as int,
            ),
    {
        if column_idx >= self.columns.len() || new_column_idx >= self.columns.len() {
            return ;
        }
        if card_idx >= self.columns[column_idx].cards.len() {
            return ;
        }
        let card = self.columns[column_idx].cards.swap_remove(card_idx);
        proof {
            let taken = old(self)@.with_cards(
                column_idx as int,
                swap_removed(old(self)@.columns[column_idx as int].cards, card_idx as int),
            );
            assert(self@.columns[column_idx as int].cards =~= taken.columns[column_idx as int].cards);
        }
        self.columns[new_column_idx].cards.push(card);
        proof {
            let goal = old(self)@.move_card(
                column_idx as int,
                new_column_idx as int,
                card_idx as int,
            );
            assert(self@.columns[new_column_idx as int].cards =~= goal.columns[new_column_idx as int].cards);
            assert(self@.columns =~= goal.columns);
        }
    }

    /// Removes the card at `card_idx` of the column at `column_idx`; the
    /// cards after it move up by one. Does nothing if there is no such card.
    pub fn delete_card(&mut self, column_idx: usize, card_idx: usize)
        ensures
            final(self)@ == old(self)@.delete_card(column_idx as int, card_idx as int),
    {
        if column_idx >= self.columns.len() {
            return ;
        }
        if card_idx >= self.columns[column_idx].cards.len() {
            return ;
        }
        self.columns[column_idx].cards.remove(card_idx);
        proof {
            let goal = old(self)@.delete_card(column_idx as int, card_idx as int);
            assert(self@.columns[column_idx as int].cards =~= goal.columns[column_idx as int].cards);
            assert(self@.columns =~= goal.columns);
        }
    }

    /// Retitles the card at `item_idx` of the column at `column_idx`. Does
    /// nothing if there is no such card.
    pub fn set_card_title(&mut self, column_idx: usize, item_idx: usize, title: &str)
        ensures
            final(self)@ == old(self)@.set_card_title(column_idx as int, item_idx as int, title@),
    {
        if column_idx >= self.columns.len() {
            return ;
        }
        if item_idx >= self.columns[column_idx].cards.len() {
            return ;
        }
        self.columns[column_idx].cards[item_idx].title = String::from_str(title);
        proof {
            let goal = old(self)@.set_card_title(column_idx as int, item_idx as int, title@);
            assert(self@.columns[column_idx as int].cards =~= goal.columns[column_idx as int].cards);
            assert(self@.columns =~= goal.columns);
        }
    }

    /// Replaces the description of the card at `item_idx` of the column at
    /// `column_idx`. Does nothing if there is no such card.
    pub fn set_card_description(&mut self, column_idx: usize, item_idx: usize, description: &str)
        ensures
            final(self)@ == old(self)@.set_card_description(
                column_idx as int,
                item_idx as int,
                description@,
            ),
    {
        if column_idx >= self.columns.len() {
            return ;
        }
        if item_idx >= self.columns[column_idx].cards.len() {
            return ;
        }
        self.columns[column_idx].cards[item_idx].description = String::from_str(description);
        proof {
            let goal = old(self)@.set_card_description(
                column_idx as int,
                item_idx as int,
                description@,
            );
            assert(self@.columns[column_idx as int].cards =~= goal.columns[column_idx as int].cards);
            assert(self@.columns =~= goal.columns);
        }
    }
}

/// What stays after a card has left by changing places with the last: the
/// cards that were there but for the one that left, each as often as before,
/// in whatever order.
pub proof fn lemma_swap_removed_cards<T>(items: Seq<T>, idx: int)
    requires
        0 <= idx < items.len(),
    ensures
        swap_removed(items, idx).to_multiset() == items.to_multiset().remove(items[idx]),
        swap_removed(items, idx).len() == items.len() - 1,
{
    let last = items.last();
    let filled = items.update(idx, last);
    vstd::seq_lib::to_multiset_update(items, idx, last);
    vstd::seq_lib::to_multiset_remove(filled, items.len() - 1);
}

/// A card moved from one column to another leaves the first column with the
/// cards it had but for that card, in whatever order; stands at the end of
/// the second column, behind the cards that were there; and changes no other
/// column, nor any title.
pub proof fn lemma_move_card(board: KanbanView, column_idx: int, new_column_idx: int, card_idx: int)
    requires
        board.has_card(column_idx, card_idx),
        board.has_column(new_column_idx),
        column_idx != new_column_idx,
    ensures
        ({
            let moved = board.move_card(column_idx, new_column_idx, card_idx);
            let card = board.columns[column_idx].cards[card_idx];
            &&& moved.title == board.title
            &&& moved.columns.len() == board.columns.len()
            &&& forall|i: int|
                0 <= i < board.columns.len() ==> (#[trigger] moved.columns[i]).title
                    == board.columns[i].title
            &&& forall|i: int|
                0 <= i < board.columns.len() && i != column_idx && i != new_column_idx
                    ==> #[trigger] moved.columns[i] == board.columns[i]
            &&& moved.columns[column_idx].cards.to_multiset()
                == board.columns[column_idx].cards.to_multiset().remove(card)
            &&& moved.columns[column_idx].cards.len() == board.columns[column_idx].cards.len() - 1
            &&& moved.columns[new_column_idx].cards == board.columns[new_column_idx].cards.push(card)
        }),
{
    lemma_swap_removed_cards(board.columns[column_idx].cards, card_idx);
}

} // verus!
