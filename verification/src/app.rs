//! The state of a session on a board: which column and card are selected,
//! which columns are in view, and which screen is shown.
//!
//! The selection moves by steps that wrap round at either end. The columns
//! in view are a window of fixed width that follows the selected column.
//! Every change to the board made here leaves the selection on a column and a
//! card that exist, where there are any.
use vstd::prelude::*;
use crate::kanban::Card;
use crate::kanban::CardView;
use crate::kanban::Column;
use crate::kanban::ColumnView;
use crate::kanban::Kanban;
use crate::kanban::KanbanView;
use crate::outline::encode;
use crate::text::document;
use crate::text::join_one_line;
use crate::text::join_rows;
use crate::text::joined_rows;
use crate::text::lemma_one_line_of_one_row;
use crate::text::lemma_rows_joined;
use crate::text::line_views;
use crate::text::one_line;
use crate::text::rows;
use crate::text::split_rows;
use crate::text::NEWLINE;
use crate::vim::Mode;
use crate::vim::Transition;
use crate::vim::Vim;

verus! {

/// The number of columns in view unless another is asked for.
pub const DEFAULT_COLUMNS_OFFSET: usize = 3;

/// The screen that a session shows.
#[derive(Debug)]
pub enum CurrentScreen {
    /// The board.
    Main,
    /// The editor of a card: of a new one if the flag is set, else of the
    /// selected one.
    Card(bool),
    /// The editor of a column, in the same way.
    Col(bool),
    /// The question whether the card shown is to be deleted.
    DeleteCard(Card),
    /// The question whether the column shown is to be deleted.
    DeleteCol(Column),
}

/// What a screen is, a card or column in it taken as what it holds.
pub enum ScreenView {
    Main,
    Card(bool),
    Col(bool),
    DeleteCard(CardView),
    DeleteCol(ColumnView),
}

impl View for CurrentScreen {
    type V = ScreenView;

    open spec fn view(&self) -> ScreenView {
        match self {
            CurrentScreen::Main => ScreenView::Main,
            CurrentScreen::Card(is_new) => ScreenView::Card(*is_new),
            CurrentScreen::Col(is_new) => ScreenView::Col(*is_new),
            CurrentScreen::DeleteCard(card) => ScreenView::DeleteCard(card@),
            CurrentScreen::DeleteCol(column) => ScreenView::DeleteCol(column@),
        }
    }
}

/// The field of an editor that takes the input.
#[derive(Debug, Clone, Copy, PartialEq, Eq)]
pub enum CurrentlyEditing {
    Title,
    Description,
}

/// A session on a board.
pub struct App {
    /// Where the board is kept.
    pub path: String,
    /// The mode of the editors' keys.
    pub vim: Vim,
    /// The board.
    pub kanban: Kanban,
    /// The screen shown.
    pub current_screen: CurrentScreen,
    /// The field that takes the input, while an editor is shown.
    pub currently_editing: Option<CurrentlyEditing>,
    /// The position of the first column in view.
    pub columns_start: usize,
    /// The number of columns in view.
    pub columns_offset: usize,
    /// The position of the selected column; 0 on a board without columns.
    pub selected_column: usize,
    /// The position of the selected card in the selected column.
    pub selected_card: usize,
    /// The position of the selected item of a card's checklist.
    pub selected_check: usize,
}

/// What a session is: its board and screen as what they hold, its positions
/// as numbers.
pub struct AppView {
    pub path: Seq<char>,
    pub vim: Vim,
    pub kanban: KanbanView,
    pub current_screen: ScreenView,
    pub currently_editing: Option<CurrentlyEditing>,
    pub columns_start: nat,
    pub columns_offset: nat,
    pub selected_column: nat,
    pub selected_card: nat,
    pub selected_check: nat,
}

impl View for App {
    type V = AppView;

    open spec fn view(&self) -> AppView {
        AppView {
            path: self.path@,
            vim: self.vim,
            kanban: self.kanban@,
            current_screen: self.current_screen@,
            currently_editing: self.currently_editing,
            columns_start: self.columns_start as nat,
            columns_offset: self.columns_offset as nat,
            selected_column: self.selected_column as nat,
            selected_card: self.selected_card as nat,
            selected_check: self.selected_check as nat,
        }
    }
}

impl AppView {
    /// The number of columns of the board.
    pub open spec fn column_count(self) -> nat {
        self.kanban.columns.len()
    }

    /// The number of cards in the selected column; 0 where no column is
    /// selected.
    pub open spec fn card_count(self) -> nat {
        if self.kanban.has_column(self.selected_column as int) {
            self.kanban.columns[self.selected_column as int].cards.len()
        } else {
            0
        }
    }

    /// Whether the selection is on a column that exists, where there is one,
    /// and on a card that exists, where the selected column has one.
    pub open spec fn selection_is_valid(self) -> bool {
        &&& self.column_count() > 0 ==> self.selected_column < self.column_count()
        &&& self.card_count() > 0 ==> self.selected_card < self.card_count()
    }

    /// Whether the selected column is in view.
    pub open spec fn selection_is_in_view(self) -> bool {
        self.columns_start <= self.selected_column < self.columns_start + self.columns_offset
    }

    /// Whether the session is in order: at least one column is in view at a
    /// time, the selection is valid and in view, and it is on position 0
    /// where the board has no column.
    pub open spec fn is_consistent(self) -> bool {
        &&& self.columns_offset >= 1
        &&& self.selection_is_valid()
        &&& self.selection_is_in_view()
        &&& self.column_count() == 0 ==> self.selected_column == 0
    }

    /// The positions of the columns in view: from the first of the pair up
    /// to, but not with, the second.
    pub open spec fn columns_in_view(self) -> (nat, nat) {
        let first = if self.columns_start <= self.column_count() {
            self.columns_start
        } else {
            self.column_count()
        };
        let end = if self.columns_start + self.columns_offset <= self.column_count() {
            self.columns_start + self.columns_offset
        } else {
            self.column_count()
        };
        (first, end)
    }

    /// The session with the selected card brought back to the last card of
    /// the selected column, if it was beyond it. Unchanged where the selected
    /// column has no card.
    pub open spec fn clamp_selected_card(self) -> AppView {
        if self.card_count() > 0 && self.selected_card >= self.card_count() {
            AppView { selected_card: (self.card_count() - 1) as nat, ..self }
        } else {
            self
        }
    }

    /// The session after a step to the next column. Past the last column the
    /// selection goes to the first, and the view to the start. Else the view
    /// moves on by one if the selected column would leave it.
    pub open spec fn increment_selected_column(self) -> AppView {
        if self.column_count() == 0 {
            self
        } else if self.selected_column + 1 < self.column_count() {
            AppView {
                selected_column: self.selected_column + 1,
                columns_start: if self.selected_column + 1 >= self.columns_start
                    + self.columns_offset {
                    self.columns_start + 1
                } else {
                    self.columns_start
                },
                ..self
            }.clamp_selected_card()
        } else {
            AppView { selected_column: 0, columns_start: 0, ..self }.clamp_selected_card()
        }
    }

    /// The session after a step to the column before. Before the first column
    /// the selection goes to the last, and the view to the last columns that
    /// fill it. Else the view moves back by one if the selected column would
    /// leave it.
    pub open spec fn decrement_selected_column(self) -> AppView {
        if self.column_count() == 0 {
            self
        } else if self.selected_column == 0 {
            AppView {
                selected_column: (self.column_count() - 1) as nat,
                columns_start: if self.column_count() >= self.columns_offset {
                    (self.column_count() - self.columns_offset) as nat
                } else {
                    0
                },
                ..self
            }.clamp_selected_card()
        } else {
            AppView {
                selected_column: (self.selected_column - 1) as nat,
                columns_start: if self.columns_start > 0 && self.selected_column
                    == self.columns_start {
                    (self.columns_start - 1) as nat
                } else {
                    self.columns_start
                },
                ..self
            }.clamp_selected_card()
        }
    }

    /// The session after a step to the card below. Below the last card the
    /// selection goes to the first. Unchanged where the selected column has
    /// no card.
    pub open spec fn increment_selected_card(self) -> AppView {
        if self.card_count() == 0 {
            self
        } else if self.selected_card + 1 < self.card_count() {
            AppView { selected_card: self.selected_card + 1, ..self }
        } else {
            AppView { selected_card: 0, ..self }
        }
    }

    /// The session after a step to the card above. Above the first card the
    /// selection goes to the last. Unchanged where the selected column has no
    /// card.
    pub open spec fn decrement_selected_card(self) -> AppView {
        if self.card_count() == 0 {
            self
        } else if self.selected_card == 0 {
            AppView { selected_card: (self.card_count() - 1) as nat, ..self }
        } else {
            AppView { selected_card: (self.selected_card - 1) as nat, ..self }
        }
    }
}

impl App {
    /// A session on the given board, kept at the given path: the board is
    /// shown, the first column and card are selected, the view starts at the
    /// first column, and keys are commands.
    pub fn new(path: String, kanban: Kanban) -> (app: App)
        ensures
            app@ == (AppView {
                path: path@,
                vim: Vim::in_mode(Mode::Normal),
                kanban: kanban@,
                current_screen: ScreenView::Main,
                currently_editing: None,
                columns_start: 0,
                columns_offset: DEFAULT_COLUMNS_OFFSET as nat,
                selected_column: 0,
                selected_card: 0,
                selected_check: 0,
            }),
            app@.is_consistent(),
    {
        App {
            kanban,
            path,
            vim: Vim::new(Mode::Normal),
            current_screen: CurrentScreen::Main,
            currently_editing: None,
            columns_start: 0,
            columns_offset: DEFAULT_COLUMNS_OFFSET,
            selected_column: 0,
            selected_card: 0,
            selected_check: 0,
        }
    }

    /// The positions of the columns in view: from the first of the pair up
    /// to, but not with, the second. In a session in order the selected
    /// column is among them.
    pub fn columns_in_view(&self) -> (range: (usize, usize))
        ensures
            range.0 == self@.columns_in_view().0,
            range.1 == self@.columns_in_view().1,
            range.0 <= range.1 <= self@.column_count(),
            self@.is_consistent() && self@.column_count() > 0 ==> range.0 <= self.selected_column
                < range.1,
    {
        let count = self.kanban.columns().len();
        if self.columns_start >= count {
            (count, count)
        } else if self.columns_offset >= count - self.columns_start {
            (self.columns_start, count)
        } else {
            (self.columns_start, self.columns_start + self.columns_offset)
        }
    }

    /// The number of cards in the selected column; 0 where no column is
    /// selected.
    fn card_count(&self) -> (count: usize)
        ensures
            count == self@.card_count(),
    {
        match self.kanban.get_column(self.selected_column) {
            Some(column) => column.cards.len(),
            None => 0,
        }
    }

    /// Brings the selected card back to the last card of the selected
    /// column, if it was beyond it.
    fn clamp_selected_card(&mut self)
        ensures
            final(self)@ == old(self)@.clamp_selected_card(),
    {
        let count = self.card_count();
        if count > 0 && self.selected_card >= count {
            self.selected_card = count - 1;
        }
    }

    /// Selects the next column, or the first after the last.
    pub fn increment_selected_column(&mut self)
        ensures
            final(self)@ == old(self)@.increment_selected_column(),
            old(self)@.is_consistent() ==> final(self)@.is_consistent(),
    {
        let count = self.kanban.columns().len();
        if count == 0 {
            return ;
        }
        if self.selected_column < count - 1 {
            self.selected_column = self.selected_column + 1;
            if self.selected_column >= self.columns_start && self.selected_column
                - self.columns_start >= self.columns_offset {
                self.columns_start = self.columns_start + 1;
            }
        } else {
            self.selected_column = 0;
            self.columns_start = 0;
        }
        self.clamp_selected_card();
    }

    /// Selects the column before, or the last before the first.
    pub fn decrement_selected_column(&mut self)
        ensures
            final(self)@ == old(self)@.decrement_selected_column(),
            old(self)@.is_consistent() ==> final(self)@.is_consistent(),
    {
        let count = self.kanban.columns().len();
        if count == 0 {
            return ;
        }
        if self.selected_column == 0 {
            self.selected_column = count - 1;
            self.columns_start = if count >= self.columns_offset {
                count - self.columns_offset
            } else {
                0
            };
        } else {
            if self.columns_start > 0 && self.selected_column == self.columns_start {
                self.columns_start = self.columns_start - 1;
            }
            self.selected_column = self.selected_column - 1;
        }
        self.clamp_selected_card();
    }

    /// Selects the card below, or the first below the last.
    pub fn increment_selected_card(&mut self)
        ensures
            final(self)@ == old(self)@.increment_selected_card(),
            old(self)@.is_consistent() ==> final(self)@.is_consistent(),
    {
        let count = self.card_count();
        if count == 0 {
            return ;
        }
        if self.selected_card < count - 1 {
            self.selected_card = self.selected_card + 1;
        } else {
            self.selected_card = 0;
        }
    }

    /// Selects the card above, or the last above the first.
    pub fn decrement_selected_card(&mut self)
        ensures
            final(self)@ == old(self)@.decrement_selected_card(),
            old(self)@.is_consistent() ==> final(self)@.is_consistent(),
    {
        let count = self.card_count();
        if count == 0 {
            return ;
        }
        if self.selected_card == 0 {
            self.selected_card = count - 1;
        } else {
            self.selected_card = self.selected_card - 1;
        }
    }
}

impl AppView {
    /// The session on another board, all else unchanged.
    pub open spec fn with_kanban(self, kanban: KanbanView) -> AppView {
        AppView { kanban, ..self }
    }

    /// The session after a column has been added at the end of the board.
    pub open spec fn add_column(self, column: ColumnView) -> AppView {
        self.with_kanban(self.kanban.add_column(column)).clamp_selected_card()
    }

    /// The session after the column at `idx` has been deleted and the
    /// selection has stepped to the column before. Unchanged if there is no
    /// such column.
    pub open spec fn delete_column(self, idx: int) -> AppView {
        if self.kanban.has_column(idx) {
            self.with_kanban(self.kanban.delete_column(idx)).decrement_selected_column()
        } else {
            self
        }
    }

    /// The session after a card has been added to the column at
    /// `column_idx`, if there is one.
    pub open spec fn add_card(self, column_idx: int, card: CardView) -> AppView {
        self.with_kanban(self.kanban.add_card(column_idx, card)).clamp_selected_card()
    }

    /// The session after the card at `card_idx` of the column at
    /// `column_idx` has been deleted, if there is one.
    pub open spec fn delete_card(self, column_idx: int, card_idx: int) -> AppView {
        self.with_kanban(self.kanban.delete_card(column_idx, card_idx)).clamp_selected_card()
    }

    /// The session after the selected column has changed places with the
    /// column before it, and the selection has followed it. Unchanged on the
    /// first position.
    pub open spec fn move_column_left(self) -> AppView {
        if self.selected_column > 0 {
            self.with_kanban(
                self.kanban.swap_column(self.selected_column - 1, self.selected_column as int),
            ).decrement_selected_column()
        } else {
            self
        }
    }

    /// The session after the selected column has changed places with the
    /// column after it, and the selection has followed it. Unchanged where no
    /// column comes after the selected position.
    pub open spec fn move_column_right(self) -> AppView {
        if self.selected_column + 1 < self.column_count() {
            self.with_kanban(
                self.kanban.swap_column(self.selected_column as int, self.selected_column as int + 1),
            ).increment_selected_column()
        } else {
            self
        }
    }

    /// The session after the selected card has gone to the end of the column
    /// `by` positions from the selected one.
    pub open spec fn send_card(self, by: int) -> AppView {
        self.with_kanban(
            self.kanban.move_card(
                self.selected_column as int,
                self.selected_column + by,
                self.selected_card as int,
            ),
        ).clamp_selected_card()
    }

    /// Whether the selected card exists and has a card below it.
    pub open spec fn can_move_card_down(self) -> bool {
        self.selected_card + 1 < self.card_count()
    }

    /// Whether the selected card exists and has a card above it.
    pub open spec fn can_move_card_up(self) -> bool {
        0 < self.selected_card < self.card_count()
    }

    /// The session after the selected card has changed places with the card
    /// below it, and the selection has followed it.
    pub open spec fn move_card_down(self) -> AppView {
        if self.can_move_card_down() {
            self.with_kanban(
                self.kanban.swap_card(
                    self.selected_column as int,
                    self.selected_card as int,
                    self.selected_card as int + 1,
                ),
            ).increment_selected_card()
        } else {
            self
        }
    }

    /// The session after the selected card has changed places with the card
    /// above it, and the selection has followed it.
    pub open spec fn move_card_up(self) -> AppView {
        if self.can_move_card_up() {
            self.with_kanban(
                self.kanban.swap_card(
                    self.selected_column as int,
                    self.selected_card as int,
                    self.selected_card - 1,
                ),
            ).decrement_selected_card()
        } else {
            self
        }
    }

    /// The session on another screen, with the given field taking the input.
    pub open spec fn show(self, screen: ScreenView, editing: Option<CurrentlyEditing>) -> AppView {
        AppView { current_screen: screen, currently_editing: editing, ..self }
    }

    /// The session back on the board, no field taking input.
    pub open spec fn stop_edit(self) -> AppView {
        self.show(ScreenView::Main, None)
    }

    /// The session with the title taking the input.
    pub open spec fn edit_title(self) -> AppView {
        AppView { currently_editing: Some(CurrentlyEditing::Title), ..self }
    }

    /// The session with the description taking the input.
    pub open spec fn edit_description(self) -> AppView {
        AppView { currently_editing: Some(CurrentlyEditing::Description), ..self }
    }

    /// The session after a key handed on to the field that takes the input
    /// has brought about `transition` there. Unchanged if no field takes the
    /// input.
    pub open spec fn update_vim(self, transition: Transition) -> AppView {
        if self.currently_editing is Some {
            AppView { vim: self.vim.after(transition), ..self }
        } else {
            self
        }
    }

    /// Whether a column is selected.
    pub open spec fn has_selected_column(self) -> bool {
        self.kanban.has_column(self.selected_column as int)
    }

    /// Whether a card is selected.
    pub open spec fn has_selected_card(self) -> bool {
        self.kanban.has_card(self.selected_column as int, self.selected_card as int)
    }

    /// The session after the card in the editor has been stored: its title
    /// is the one line that the title's rows make, its description the
    /// description's rows with a line feed between each and the next. It is
    /// stored as a new card at the end of the selected column, or in place of
    /// the selected card's title and description. The board is shown again.
    pub open spec fn commit_card(
        self,
        is_new: bool,
        title: Seq<Seq<char>>,
        description: Seq<Seq<char>>,
    ) -> AppView {
        let column = self.selected_column as int;
        let card = self.selected_card as int;
        let kanban = if is_new {
            self.kanban.add_card(
                column,
                CardView { title: one_line(title), description: joined_rows(description) },
            )
        } else {
            self.kanban.set_card_title(column, card, one_line(title)).set_card_description(
                column,
                card,
                joined_rows(description),
            )
        };
        self.with_kanban(kanban).clamp_selected_card().stop_edit()
    }

    /// The session after the column in the editor has been stored, its title
    /// the one line that the title's rows make: as a new column without
    /// cards at the end of the board, or in place of the selected column's
    /// title. The board is shown again.
    pub open spec fn commit_column(self, is_new: bool, title: Seq<Seq<char>>) -> AppView {
        let kanban = if is_new {
            self.kanban.add_column(ColumnView { title: one_line(title), cards: Seq::empty() })
        } else {
            self.kanban.set_col_title(self.selected_column as int, one_line(title))
        };
        self.with_kanban(kanban).clamp_selected_card().stop_edit()
    }
}

impl App {
    /// Adds a column at the end of the board.
    pub fn add_column(&mut self, column: Column)
        ensures
            final(self)@ == old(self)@.add_column(column@),
            old(self)@.is_consistent() ==> final(self)@.is_consistent(),
    {
        self.kanban.add_column(column);
        self.clamp_selected_card();
    }

    /// Deletes the column at `idx` and selects the column before the
    /// selected one, or the last before the first. Does nothing if there is
    /// no column at `idx`.
    pub fn delete_column(&mut self, idx: usize)
        ensures
            final(self)@ == old(self)@.delete_column(idx as int),
            old(self)@.is_consistent() ==> final(self)@.is_consistent(),
    {
        if idx < self.kanban.columns().len() {
            self.kanban.delete_column(idx);
            self.decrement_selected_column();
        }
    }

    /// Adds a card at the end of the column at `column_idx`. Does nothing if
    /// there is no such column.
    pub fn add_card(&mut self, column_idx: usize, card: Card)
        ensures
            final(self)@ == old(self)@.add_card(column_idx as int, card@),
            old(self)@.is_consistent() ==> final(self)@.is_consistent(),
    {
        self.kanban.add_card(column_idx, card);
        self.clamp_selected_card();
    }

    /// Deletes the card at `card_idx` of the column at `column_idx`. Does
    /// nothing if there is no such card.
    pub fn delete_card(&mut self, column_idx: usize, card_idx: usize)
        ensures
            final(self)@ == old(self)@.delete_card(column_idx as int, card_idx as int),
            old(self)@.is_consistent() ==> final(self)@.is_consistent(),
    {
        self.kanban.delete_card(column_idx, card_idx);
        self.clamp_selected_card();
    }

    /// Moves the selected column one place to the left and keeps it
    /// selected. Says whether there was a place to move to.
    pub fn move_column_left(&mut self) -> (moved: bool)
        ensures
            moved == (old(self)@.selected_column > 0),
            final(self)@ == old(self)@.move_column_left(),
            old(self)@.is_consistent() ==> final(self)@.is_consistent(),
    {
        if self.selected_column > 0 {
            self.kanban.swap_column(self.selected_column - 1, self.selected_column);
            self.decrement_selected_column();
            true
        } else {
            false
        }
    }

    /// Moves the selected column one place to the right and keeps it
    /// selected. Says whether there was a place to move to.
    pub fn move_column_right(&mut self) -> (moved: bool)
        ensures
            moved == (old(self)@.selected_column + 1 < old(self)@.column_count()),
            final(self)@ == old(self)@.move_column_right(),
            old(self)@.is_consistent() ==> final(self)@.is_consistent(),
    {
        let count = self.kanban.columns().len();
        if count > 0 && self.selected_column < count - 1 {
            self.kanban.swap_column(self.selected_column, self.selected_column + 1);
            self.increment_selected_column();
            true
        } else {
            false
        }
    }

    /// Sends the selected card to the end of the column on the left. Says
    /// whether a card is selected; the card stays where it is if there is no
    /// column on the left.
    pub fn move_card_left(&mut self) -> (selected: bool)
        ensures
            selected == old(self)@.has_selected_card(),
            final(self)@ == old(self)@.send_card(-1),
            old(self)@.is_consistent() ==> final(self)@.is_consistent(),
    {
        let selected = self.kanban.get_card(self.selected_column, self.selected_card).is_some();
        if self.selected_column > 0 {
            self.kanban.move_card(
                self.selected_column,
                self.selected_column - 1,
                self.selected_card,
            );
        }
        self.clamp_selected_card();
        selected
    }

    /// Sends the selected card to the end of the column on the right. Says
    /// whether a card is selected; the card stays where it is if there is no
    /// column on the right.
    pub fn move_card_right(&mut self) -> (selected: bool)
        ensures
            selected == old(self)@.has_selected_card(),
            final(self)@ == old(self)@.send_card(1),
            old(self)@.is_consistent() ==> final(self)@.is_consistent(),
    {
        let selected = self.kanban.get_card(self.selected_column, self.selected_card).is_some();
        if self.selected_column < self.kanban.columns().len() {
            self.kanban.move_card(
                self.selected_column,
                self.selected_column + 1,
                self.selected_card,
            );
        }
        self.clamp_selected_card();
        selected
    }

    /// Moves the selected card one place down in its column and keeps it
    /// selected. Says whether there was a place to move to.
    pub fn move_card_down(&mut self) -> (moved: bool)
        ensures
            moved == old(self)@.can_move_card_down(),
            final(self)@ == old(self)@.move_card_down(),
            old(self)@.is_consistent() ==> final(self)@.is_consistent(),
    {
        let count = self.card_count();
        if count > 0 && self.selected_card < count - 1 {
            self.kanban.swap_card(self.selected_column, self.selected_card, self.selected_card + 1);
            self.increment_selected_card();
            true
        } else {
            false
        }
    }

    /// Moves the selected card one place up in its column and keeps it
    /// selected. Says whether there was a place to move to.
    pub fn move_card_up(&mut self) -> (moved: bool)
        ensures
            moved == old(self)@.can_move_card_up(),
            final(self)@ == old(self)@.move_card_up(),
            old(self)@.is_consistent() ==> final(self)@.is_consistent(),
    {
        let count = self.card_count();
        if self.selected_card > 0 && self.selected_card < count {
            self.kanban.swap_card(self.selected_column, self.selected_card, self.selected_card - 1);
            self.decrement_selected_card();
            true
        } else {
            false
        }
    }

    /// Leaves an editor or a question: the board is shown, and no field
    /// takes the input.
    pub fn stop_edit(&mut self)
        ensures
            final(self)@ == old(self)@.stop_edit(),
    {
        self.current_screen = CurrentScreen::Main;
        self.currently_editing = None;
    }

    /// Gives the input to the title.
    pub fn edit_title(&mut self)
        ensures
            final(self)@ == old(self)@.edit_title(),
    {
        self.currently_editing = Some(CurrentlyEditing::Title);
    }

    /// Gives the input to the description.
    pub fn edit_description(&mut self)
        ensures
            final(self)@ == old(self)@.edit_description(),
    {
        self.currently_editing = Some(CurrentlyEditing::Description);
    }

    /// Takes note of what a key handed on to the field that takes the input
    /// has brought about there: the mode of the keys follows it. Does nothing
    /// if no field takes the input.
    pub fn update_vim(&mut self, transition: Transition)
        ensures
            final(self)@ == old(self)@.update_vim(transition),
    {
        if self.currently_editing.is_some() {
            let vim = Vim::new(self.vim.mode);
            self.vim = match transition {
                Transition::Mode(mode) => Vim::new(mode),
                Transition::Pending(input) => vim.with_pending(input),
                Transition::Nop => vim,
                Transition::Quit => vim,
            };
        }
    }

    /// Stores the card in the editor, given as the rows of its title and of
    /// its description: as a new card at the end of the selected column if
    /// `is_new`, else in place of the selected card's title and description.
    /// The title is stored on one line. Shows the board again.
    pub fn commit_card(&mut self, is_new: bool, title: &[String], description: &[String])
        ensures
            final(self)@ == old(self)@.commit_card(
                is_new,
                line_views(title@),
                line_views(description@),
            ),
            old(self)@.is_consistent() ==> final(self)@.is_consistent(),
    {
        let line = join_one_line(title);
        let text = join_rows(description);
        if is_new {
            self.kanban.add_card(self.selected_column, Card::new(line.as_str(), text.as_str()));
        } else {
            self.kanban.set_card_title(self.selected_column, self.selected_card, line.as_str());
            self.kanban.set_card_description(
                self.selected_column,
                self.selected_card,
                text.as_str(),
            );
        }
        self.clamp_selected_card();
        self.stop_edit();
    }

    /// Stores the column in the editor, given as the rows of its title: as a
    /// new column without cards at the end of the board if `is_new`, else in
    /// place of the selected column's title. The title is stored on one
    /// line. Shows the board again.
    pub fn commit_column(&mut self, is_new: bool, title: &[String])
        ensures
            final(self)@ == old(self)@.commit_column(is_new, line_views(title@)),
            old(self)@.is_consistent() ==> final(self)@.is_consistent(),
    {
        let line = join_one_line(title);
        if is_new {
            let column = Column::new(line.as_str(), Vec::new());
            assert(column@.cards =~= Seq::empty());
            self.kanban.add_column(column);
        } else {
            self.kanban.set_col_title(self.selected_column, line.as_str());
        }
        self.clamp_selected_card();
        self.stop_edit();
    }
}

impl AppView {
    /// The session with the editor of the selected card shown, the title
    /// taking the input. Unchanged if no card is selected.
    pub open spec fn start_card_edit(self) -> AppView {
        if self.has_selected_card() {
            self.show(ScreenView::Card(false), Some(CurrentlyEditing::Title))
        } else {
            self
        }
    }

    /// The session with the editor of the selected column shown, the title
    /// taking the input. Unchanged if no column is selected.
    pub open spec fn start_column_edit(self) -> AppView {
        if self.has_selected_column() {
            self.show(ScreenView::Col(false), Some(CurrentlyEditing::Title))
        } else {
            self
        }
    }

    /// The session with the editor of a new card shown, the title taking the
    /// input. Unchanged if no column is selected to hold the card.
    pub open spec fn start_new_card(self) -> AppView {
        if self.has_selected_column() {
            self.show(ScreenView::Card(true), Some(CurrentlyEditing::Title))
        } else {
            self
        }
    }

    /// The session with the editor of a new column shown, the title taking
    /// the input.
    pub open spec fn start_new_column(self) -> AppView {
        self.show(ScreenView::Col(true), Some(CurrentlyEditing::Title))
    }

    /// The session asking whether the selected card is to be deleted.
    /// Unchanged if no card is selected.
    pub open spec fn ask_delete_card(self) -> AppView {
        if self.has_selected_card() {
            AppView {
                current_screen: ScreenView::DeleteCard(
                    self.kanban.columns[self.selected_column as int].cards[self.selected_card as int],
                ),
                ..self
            }
        } else {
            self
        }
    }

    /// The session asking whether the selected column is to be deleted.
    /// Unchanged if no column is selected.
    pub open spec fn ask_delete_column(self) -> AppView {
        if self.has_selected_column() {
            AppView {
                current_screen: ScreenView::DeleteCol(self.kanban.columns[self.selected_column as int]),
                ..self
            }
        } else {
            self
        }
    }

    /// The session after the selected card has been deleted and the board is
    /// shown again.
    pub open spec fn confirm_delete_card(self) -> AppView {
        self.delete_card(self.selected_column as int, self.selected_card as int).stop_edit()
    }

    /// The session after the selected column has been deleted and the board
    /// is shown again.
    pub open spec fn confirm_delete_column(self) -> AppView {
        self.delete_column(self.selected_column as int).stop_edit()
    }
}

impl App {
    /// Shows the editor of the selected card, the title taking the input,
    /// and gives what the editor starts with: the card's title as one row,
    /// and the rows of its description. Does nothing and gives `None` if no
    /// card is selected.
    pub fn start_card_edit(&mut self) -> (loaded: Option<(Vec<String>, Vec<String>)>)
        ensures
            loaded is Some <==> old(self)@.has_selected_card(),
            loaded matches Some((title, description)) ==> {
                let card = old(self)@.kanban.columns[old(self)@.selected_column as int].cards[old(
                    self,
                )@.selected_card as int];
                &&& line_views(title@) == seq![card.title]
                &&& line_views(description@) == rows(card.description)
            },
            final(self)@ == old(self)@.start_card_edit(),
    {
        let loaded = match self.kanban.get_card(self.selected_column, self.selected_card) {
            Some(card) => {
                let mut title: Vec<String> = Vec::new();
                title.push(card.title.clone());
                Some((title, split_rows(card.description.as_str())))
            },
            None => None,
        };
        if loaded.is_some() {
            self.current_screen = CurrentScreen::Card(false);
            self.edit_title();
        }
        loaded
    }

    /// Shows the editor of the selected column, the title taking the input,
    /// and gives what the editor starts with: the column's title as one row.
    /// Does nothing and gives `None` if no column is selected.
    pub fn start_column_edit(&mut self) -> (loaded: Option<Vec<String>>)
        ensures
            loaded is Some <==> old(self)@.has_selected_column(),
            loaded matches Some(title) ==> line_views(title@) == seq![
                old(self)@.kanban.columns[old(self)@.selected_column as int].title,
            ],
            final(self)@ == old(self)@.start_column_edit(),
    {
        let loaded = match self.kanban.get_column(self.selected_column) {
            Some(column) => {
                let mut title: Vec<String> = Vec::new();
                title.push(column.title.clone());
                Some(title)
            },
            None => None,
        };
        if loaded.is_some() {
            self.current_screen = CurrentScreen::Col(false);
            self.edit_title();
        }
        loaded
    }

    /// Shows the editor of a new card for the selected column, the title
    /// taking the input. Says whether a column is selected; does nothing if
    /// none is.
    pub fn start_new_card(&mut self) -> (started: bool)
        ensures
            started == old(self)@.has_selected_column(),
            final(self)@ == old(self)@.start_new_card(),
    {
        if self.kanban.get_column(self.selected_column).is_some() {
            self.current_screen = CurrentScreen::Card(true);
            self.edit_title();
            true
        } else {
            false
        }
    }

    /// Shows the editor of a new column, the title taking the input.
    pub fn start_new_column(&mut self)
        ensures
            final(self)@ == old(self)@.start_new_column(),
    {
        self.current_screen = CurrentScreen::Col(true);
        self.edit_title();
    }

    /// Asks whether the selected card is to be deleted. Says whether a card
    /// is selected; does nothing if none is.
    pub fn ask_delete_card(&mut self) -> (asked: bool)
        ensures
            asked == old(self)@.has_selected_card(),
            final(self)@ == old(self)@.ask_delete_card(),
    {
        match self.kanban.get_card(self.selected_column, self.selected_card) {
            Some(card) => {
                self.current_screen = CurrentScreen::DeleteCard(card.clone());
                true
            },
            None => false,
        }
    }

    /// Asks whether the selected column is to be deleted. Says whether a
    /// column is selected; does nothing if none is.
    pub fn ask_delete_column(&mut self) -> (asked: bool)
        ensures
            asked == old(self)@.has_selected_column(),
            final(self)@ == old(self)@.ask_delete_column(),
    {
        match self.kanban.get_column(self.selected_column) {
            Some(column) => {
                self.current_screen = CurrentScreen::DeleteCol(column.clone());
                true
            },
            None => false,
        }
    }

    /// Deletes the selected card and shows the board again.
    pub fn confirm_delete_card(&mut self)
        ensures
            final(self)@ == old(self)@.confirm_delete_card(),
            old(self)@.is_consistent() ==> final(self)@.is_consistent(),
    {
        self.delete_card(self.selected_column, self.selected_card);
        self.stop_edit();
    }

    /// Deletes the selected column, selects the column before it and shows
    /// the board again.
    pub fn confirm_delete_column(&mut self)
        ensures
            final(self)@ == old(self)@.confirm_delete_column(),
            old(self)@.is_consistent() ==> final(self)@.is_consistent(),
    {
        self.delete_column(self.selected_column);
        self.stop_edit();
    }

    /// The text to keep at the session's path: that of the board's file.
    /// With it written, no field takes the input any more.
    pub fn save_kanban(&mut self) -> (text: String)
        ensures
            text@ == document(encode(old(self)@.kanban)),
            final(self)@ == (AppView { currently_editing: None, ..old(self)@ }),
    {
        self.currently_editing = None;
        self.kanban.to_string()
    }
}

/// A change to the board of a session.
pub enum Change {
    /// A column joins the end of the board.
    AddColumn(ColumnView),
    /// The column at a position leaves the board.
    DeleteColumn(int),
    /// A card joins the end of the column at a position.
    AddCard(int, CardView),
    /// The card at a position leaves the column at a position.
    DeleteCard(int, int),
}

impl AppView {
    /// The session after a change to its board.
    pub open spec fn apply(self, change: Change) -> AppView {
        match change {
            Change::AddColumn(column) => self.add_column(column),
            Change::DeleteColumn(idx) => self.delete_column(idx),
            Change::AddCard(column_idx, card) => self.add_card(column_idx, card),
            Change::DeleteCard(column_idx, card_idx) => self.delete_card(column_idx, card_idx),
        }
    }

    /// The session after a run of changes to its board, made in order.
    pub open spec fn apply_all(self, changes: Seq<Change>) -> AppView
        decreases changes.len(),
    {
        if changes.len() == 0 {
            self
        } else {
            self.apply_all(changes.drop_last()).apply(changes.last())
        }
    }
}

/// A step of the selection leaves a session in order.
pub proof fn lemma_step_keeps_order(session: AppView)
    requires
        session.is_consistent(),
    ensures
        session.increment_selected_column().is_consistent(),
        session.decrement_selected_column().is_consistent(),
        session.increment_selected_card().is_consistent(),
        session.decrement_selected_card().is_consistent(),
{
}

/// A change to the board leaves a session in order, whatever positions the
/// change names.
pub proof fn lemma_change_keeps_order(session: AppView, change: Change)
    requires
        session.is_consistent(),
    ensures
        session.apply(change).is_consistent(),
{
}

/// After any run of changes to the board of a session in order, whatever
/// positions they name, the selected column exists if the board has a
/// column, and the selected card exists if the selected column has a card.
pub proof fn lemma_selection_stays_valid(session: AppView, changes: Seq<Change>)
    requires
        session.is_consistent(),
    ensures
        session.apply_all(changes).is_consistent(),
        session.apply_all(changes).selection_is_valid(),
    decreases changes.len(),
{
    if changes.len() > 0 {
        lemma_selection_stays_valid(session, changes.drop_last());
    }
}

/// A card taken into the editor and stored again as the editor shows it is
/// the card it was, if its title holds no line feed.
pub proof fn lemma_edit_without_change(session: AppView)
    requires
        session.has_selected_card(),
        ({
            let card = session.kanban.columns[session.selected_column as int].cards[session.selected_card as int];
            forall|i: int| 0 <= i < card.title.len() ==> card.title[i] != NEWLINE
        }),
    ensures
        ({
            let card = session.kanban.columns[session.selected_column as int].cards[session.selected_card as int];
            session.start_card_edit().commit_card(false, seq![card.title], rows(card.description))
                == session.stop_edit()
        }),
{
    let column = session.selected_column as int;
    let at = session.selected_card as int;
    let card = session.kanban.columns[column].cards[at];
    lemma_one_line_of_one_row(card.title);
    lemma_rows_joined(card.description);
    let opened = session.start_card_edit();
    let retitled = opened.kanban.set_card_title(column, at, card.title);
    assert(retitled.columns[column].cards =~= session.kanban.columns[column].cards);
    assert(retitled.columns =~= session.kanban.columns);
}

} // verus!
