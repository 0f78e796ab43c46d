//! The keys of a session: what each key asks for on the screen that is shown.
//!
//! A key changes the session and leaves something to do for the program that
//! runs it: to write the board's file, to fill an editor's fields, to hand
//! the key on to the field that takes the input, or to end. What a key does
//! to the text of an editor is not decided here; the mode of the editor's
//! keys decides whether a key is a command to the session or goes to the
//! text.
use vstd::prelude::*;
use crate::app::App;
use crate::app::AppView;
use crate::app::CurrentScreen;
use crate::app::CurrentlyEditing;
use crate::app::ScreenView;
use crate::outline::encode;
use crate::text::document;
use crate::text::line_views;
use crate::text::rows;
use crate::vim::Mode;

verus! {

/// A key, as far as the screens tell keys apart.
#[derive(Debug, Clone, Copy, PartialEq, Eq)]
pub enum Key {
    Char(char),
    Enter,
    Esc,
    Left,
    Right,
    Up,
    Down,
    Other,
}

/// What happened to a key.
#[derive(Debug, Clone, Copy, PartialEq, Eq)]
pub enum KeyKind {
    Press,
    Repeat,
    Release,
}

/// A key with what happened to it and what was held with it.
#[derive(Debug, Clone, Copy)]
pub struct KeyPress {
    pub key: Key,
    pub kind: KeyKind,
    /// Whether the control key was held.
    pub ctrl: bool,
    /// Whether any other modifier was held.
    pub other_modifiers: bool,
}

/// What is left to do after a key.
#[derive(Debug)]
pub enum Action {
    /// Nothing.
    Nothing,
    /// To end the program.
    Quit,
    /// To show the text of the board's file.
    Print(String),
    /// To write the text of the board's file, and to empty the editor's
    /// fields.
    Write(String),
    /// To fill the editor's fields with the rows given, a field without rows
    /// staying as it is, and to start input at the end of the title if
    /// `append` is set.
    Edit { title: Vec<String>, description: Option<Vec<String>>, append: bool },
    /// To empty the editor's fields.
    Leave,
    /// To hand the key on to the given field.
    Forward(CurrentlyEditing),
}

/// What is left to do after a key, texts taken as what they hold.
pub enum ActionView {
    Nothing,
    Quit,
    Print(Seq<char>),
    Write(Seq<char>),
    Edit { title: Seq<Seq<char>>, description: Option<Seq<Seq<char>>>, append: bool },
    Leave,
    Forward(CurrentlyEditing),
}

impl View for Action {
    type V = ActionView;

    open spec fn view(&self) -> ActionView {
        match self {
            Action::Nothing => ActionView::Nothing,
            Action::Quit => ActionView::Quit,
            Action::Print(text) => ActionView::Print(text@),
            Action::Write(text) => ActionView::Write(text@),
            Action::Edit { title, description, append } => ActionView::Edit {
                title: line_views(title@),
                description: match description {
                    Some(rows) => Some(line_views(rows@)),
                    None => None,
                },
                append: *append,
            },
            Action::Leave => ActionView::Leave,
            Action::Forward(field) => ActionView::Forward(*field),
        }
    }
}

/// What fills the editor of something new: fields without rows, input at the
/// end of the title.
pub open spec fn new_editor() -> ActionView {
    ActionView::Edit { title: Seq::empty(), description: Some(Seq::empty()), append: true }
}

impl KeyPress {
    /// Whether the control key was held, and no other modifier.
    pub open spec fn is_control(self) -> bool {
        self.ctrl && !self.other_modifiers
    }

    /// Whether the key is the given character.
    pub open spec fn is_char(self, c: char) -> bool {
        self.key == Key::Char(c)
    }
}

impl Key {
    /// Whether the key is the given character.
    pub fn is_char(&self, c: char) -> (is: bool)
        ensures
            is == (*self == Key::Char(c)),
    {
        match self {
            Key::Char(found) => *found == c,
            _ => false,
        }
    }

    /// Whether the key is the enter key.
    pub fn is_enter(&self) -> (is: bool)
        ensures
            is == (*self == Key::Enter),
    {
        match self {
            Key::Enter => true,
            _ => false,
        }
    }

    /// Whether the key is the escape key.
    pub fn is_esc(&self) -> (is: bool)
        ensures
            is == (*self == Key::Esc),
    {
        match self {
            Key::Esc => true,
            _ => false,
        }
    }
}

impl KeyKind {
    /// Whether the key was pressed.
    pub fn is_press(&self) -> (is: bool)
        ensures
            is == (*self == KeyKind::Press),
    {
        match self {
            KeyKind::Press => true,
            _ => false,
        }
    }

    /// Whether the key was released.
    pub fn is_release(&self) -> (is: bool)
        ensures
            is == (*self == KeyKind::Release),
    {
        match self {
            KeyKind::Release => true,
            _ => false,
        }
    }
}

impl AppView {
    /// The text of the board's file.
    pub open spec fn file_text(self) -> Seq<char> {
        document(encode(self.kanban))
    }

    /// The session once its board is written, and the writing left to do.
    pub open spec fn written(self) -> (AppView, ActionView) {
        (AppView { currently_editing: None, ..self }, ActionView::Write(self.file_text()))
    }

    /// The session as it is, and the key to hand on to the field that takes
    /// the input, if one does.
    pub open spec fn forwarded(self) -> (AppView, ActionView) {
        match self.currently_editing {
            Some(field) => (self, ActionView::Forward(field)),
            None => (self, ActionView::Nothing),
        }
    }

    /// A step to the column before, or with the control key held a move of
    /// the selected column to that place, which is then to be written.
    pub open spec fn column_before(self, control: bool) -> (AppView, ActionView) {
        if !control {
            (self.decrement_selected_column(), ActionView::Nothing)
        } else if self.selected_column > 0 {
            self.move_column_left().written()
        } else {
            (self, ActionView::Nothing)
        }
    }

    /// A step to the next column, or with the control key held a move of the
    /// selected column to that place, which is then to be written.
    pub open spec fn column_after(self, control: bool) -> (AppView, ActionView) {
        if !control {
            (self.increment_selected_column(), ActionView::Nothing)
        } else if self.selected_column + 1 < self.column_count() {
            self.move_column_right().written()
        } else {
            (self, ActionView::Nothing)
        }
    }

    /// The selected card sent to the column `by` places on, which is then to
    /// be written. Nothing if no card is selected.
    pub open spec fn card_sent(self, by: int) -> (AppView, ActionView) {
        if self.has_selected_card() {
            self.send_card(by).written()
        } else {
            (self, ActionView::Nothing)
        }
    }

    /// The editor of the selected card, to be filled with its title and the
    /// rows of its description. Nothing if no card is selected.
    pub open spec fn card_opened(self) -> (AppView, ActionView) {
        let card = self.kanban.columns[self.selected_column as int].cards[self.selected_card as int];
        if self.has_selected_card() {
            (
                self.start_card_edit(),
                ActionView::Edit {
                    title: seq![card.title],
                    description: Some(rows(card.description)),
                    append: true,
                },
            )
        } else {
            (self, ActionView::Nothing)
        }
    }

    /// The editor of the selected column, to be filled with its title.
    /// Nothing if no column is selected.
    pub open spec fn column_opened(self) -> (AppView, ActionView) {
        let column = self.kanban.columns[self.selected_column as int];
        if self.has_selected_column() {
            (
                self.start_column_edit(),
                ActionView::Edit { title: seq![column.title], description: None, append: false },
            )
        } else {
            (self, ActionView::Nothing)
        }
    }

    /// What a character asks for while the board is shown. `control` says
    /// that the control key was held, and no other modifier.
    pub open spec fn main_char(self, c: char, control: bool) -> (AppView, ActionView) {
        if c == 'w' {
            (self, ActionView::Print(self.file_text()))
        } else if c == 'q' {
            (self, ActionView::Quit)
        } else if c == 'h' {
            self.column_before(control)
        } else if c == 'l' {
            self.column_after(control)
        } else if c == 'j' {
            (self.increment_selected_card(), ActionView::Nothing)
        } else if c == 'k' {
            (self.decrement_selected_card(), ActionView::Nothing)
        } else if c == 'H' {
            self.card_sent(-1)
        } else if c == 'L' {
            self.card_sent(1)
        } else if c == 'J' {
            if self.can_move_card_down() {
                self.move_card_down().written()
            } else {
                (self, ActionView::Nothing)
            }
        } else if c == 'K' {
            if self.can_move_card_up() {
                self.move_card_up().written()
            } else {
                (self, ActionView::Nothing)
            }
        } else if c == 'e' {
            self.card_opened()
        } else if c == 'E' {
            self.column_opened()
        } else if c == 'C' {
            (self.start_new_column(), new_editor())
        } else if c == 'c' {
            if self.has_selected_column() {
                (self.start_new_card(), new_editor())
            } else {
                (self, ActionView::Nothing)
            }
        } else if c == 'd' {
            (self.ask_delete_card(), ActionView::Nothing)
        } else if c == 'D' {
            (self.ask_delete_column(), ActionView::Nothing)
        } else {
            (self, ActionView::Nothing)
        }
    }

    /// What a key asks for while the board is shown.
    pub open spec fn main_key(self, press: KeyPress) -> (AppView, ActionView) {
        match press.key {
            Key::Char(c) => self.main_char(c, press.is_control()),
            Key::Right => self.column_before(press.is_control()),
            Key::Left => self.column_after(press.is_control()),
            Key::Up => (self.increment_selected_card(), ActionView::Nothing),
            Key::Down => (self.decrement_selected_card(), ActionView::Nothing),
            Key::Enter => self.card_opened(),
            _ => (self, ActionView::Nothing),
        }
    }

    /// What a key asks for on the screen that is shown: the session after
    /// it, and what is left to do. `title` and `description` are the rows
    /// that the editor's fields hold.
    pub open spec fn handle_events(
        self,
        press: KeyPress,
        title: Seq<Seq<char>>,
        description: Seq<Seq<char>>,
    ) -> (AppView, ActionView) {
        if press.kind == KeyKind::Release {
            (self, ActionView::Quit)
        } else {
            match self.current_screen {
                ScreenView::Main => self.main_key(press),
                _ if press.kind != KeyKind::Press => (self, ActionView::Nothing),
                ScreenView::Card(is_new) => self.edit_card_events(press, is_new, title, description),
                ScreenView::Col(is_new) => self.edit_col_events(press, is_new, title),
                ScreenView::DeleteCard(_) => self.delete_card_events(press),
                ScreenView::DeleteCol(_) => self.delete_col_events(press),
            }
        }
    }

    /// What a key asks for before the question whether something is to be
    /// deleted: `deleted` is the session after the deletion.
    pub open spec fn question_events(self, press: KeyPress, deleted: AppView) -> (
        AppView,
        ActionView,
    ) {
        let command = self.vim.mode == Mode::Normal;
        if (press.is_char('s') || press.key == Key::Enter) && command {
            self.stop_edit().written()
        } else if press.is_char('y') {
            deleted.written()
        } else if (press.is_char('q') || press.is_char('n') || press.key == Key::Esc) && command {
            (self.stop_edit(), ActionView::Leave)
        } else {
            self.forwarded()
        }
    }
}

impl App {
    /// Gives the text of the board's file to write, and counts the board as
    /// written.
    pub fn written(&mut self) -> (action: Action)
        ensures
            (final(self)@, action@) == old(self)@.written(),
            old(self)@.is_consistent() ==> final(self)@.is_consistent(),
    {
        Action::Write(self.save_kanban())
    }

    /// Hands the key on to the field that takes the input, if one does.
    pub fn forwarded(&self) -> (action: Action)
        ensures
            (self@, action@) == self@.forwarded(),
    {
        match self.currently_editing {
            Some(field) => Action::Forward(field),
            None => Action::Nothing,
        }
    }

    /// Does what a character asks for while the board is shown.
    fn main_char(&mut self, c: char, control: bool) -> (action: Action)
        ensures
            (final(self)@, action@) == old(self)@.main_char(c, control),
            old(self)@.is_consistent() ==> final(self)@.is_consistent(),
    {
        if c == 'w' {
            Action::Print(self.kanban.to_string())
        } else if c == 'q' {
            Action::Quit
        } else if c == 'h' {
            self.column_before(control)
        } else if c == 'l' {
            self.column_after(control)
        } else if c == 'j' {
            self.increment_selected_card();
            Action::Nothing
        } else if c == 'k' {
            self.decrement_selected_card();
            Action::Nothing
        } else if c == 'H' {
            if self.kanban.get_card(self.selected_column, self.selected_card).is_some() {
                self.move_card_left();
                self.written()
            } else {
                Action::Nothing
            }
        } else if c == 'L' {
            if self.kanban.get_card(self.selected_column, self.selected_card).is_some() {
                self.move_card_right();
                self.written()
            } else {
                Action::Nothing
            }
        } else if c == 'J' {
            if self.move_card_down() {
                self.written()
            } else {
                Action::Nothing
            }
        } else if c == 'K' {
            if self.move_card_up() {
                self.written()
            } else {
                Action::Nothing
            }
        } else if c == 'e' {
            self.card_opened()
        } else if c == 'E' {
            match self.start_column_edit() {
                Some(title) => Action::Edit { title, description: None, append: false },
                None => Action::Nothing,
            }
        } else if c == 'C' {
            self.start_new_column();
            empty_editor()
        } else if c == 'c' {
            if self.start_new_card() {
                empty_editor()
            } else {
                Action::Nothing
            }
        } else if c == 'd' {
            self.ask_delete_card();
            Action::Nothing
        } else if c == 'D' {
            self.ask_delete_column();
            Action::Nothing
        } else {
            Action::Nothing
        }
    }

    /// Steps to the column before, or moves the selected column there if
    /// the control key is held.
    fn column_before(&mut self, control: bool) -> (action: Action)
        ensures
            (final(self)@, action@) == old(self)@.column_before(control),
            old(self)@.is_consistent() ==> final(self)@.is_consistent(),
    {
        if !control {
            self.decrement_selected_column();
            Action::Nothing
        } else if self.move_column_left() {
            self.written()
        } else {
            Action::Nothing
        }
    }

    /// Steps to the next column, or moves the selected column there if the
    /// control key is held.
    fn column_after(&mut self, control: bool) -> (action: Action)
        ensures
            (final(self)@, action@) == old(self)@.column_after(control),
            old(self)@.is_consistent() ==> final(self)@.is_consistent(),
    {
        if !control {
            self.increment_selected_column();
            Action::Nothing
        } else if self.move_column_right() {
            self.written()
        } else {
            Action::Nothing
        }
    }

    /// Shows the editor of the selected card, if there is one.
    fn card_opened(&mut self) -> (action: Action)
        ensures
            (final(self)@, action@) == old(self)@.card_opened(),
            old(self)@.is_consistent() ==> final(self)@.is_consistent(),
    {
        match self.start_card_edit() {
            Some((title, description)) => Action::Edit {
                title,
                description: Some(description),
                append: true,
            },
            None => Action::Nothing,
        }
    }

    /// Does what a key asks for while the board is shown.
    fn main_key(&mut self, press: KeyPress) -> (action: Action)
        ensures
            (final(self)@, action@) == old(self)@.main_key(press),
            old(self)@.is_consistent() ==> final(self)@.is_consistent(),
    {
        let control = press.ctrl && !press.other_modifiers;
        match press.key {
            Key::Char(c) => self.main_char(c, control),
            Key::Right => self.column_before(control),
            Key::Left => self.column_after(control),
            Key::Up => {
                self.increment_selected_card();
                Action::Nothing
            },
            Key::Down => {
                self.decrement_selected_card();
                Action::Nothing
            },
            Key::Enter => self.card_opened(),
            _ => Action::Nothing,
        }
    }
}

/// What fills the editor of something new.
fn empty_editor() -> (action: Action)
    ensures
        action@ == new_editor(),
{
    let action = Action::Edit { title: Vec::new(), description: Some(Vec::new()), append: true };
    assert(line_views(Seq::<String>::empty()) =~= Seq::empty());
    action
}

/// Does what a key asks for on the screen that is shown, and says what is
/// left to do. `title` and `description` are the rows that the editor's
/// fields hold.
///
/// A key that is released ends the program. On the board, a key steps the
/// selection, moves the selected column or card, opens an editor or asks
/// before a deletion. On the other screens only a key that is pressed
/// counts, and the screen's own keys decide.
pub fn handle_events(
    app: &mut App,
    press: KeyPress,
    title: &[String],
    description: &[String],
) -> (action: Action)
    ensures
        (final(app)@, action@) == old(app)@.handle_events(
            press,
            line_views(title@),
            line_views(description@),
        ),
        old(app)@.is_consistent() ==> final(app)@.is_consistent(),
{
    if press.kind.is_release() {
        return Action::Quit;
    }
    let pressed = press.kind.is_press();
    match app.current_screen {
        CurrentScreen::Main => app.main_key(press),
        _ if !pressed => Action::Nothing,
        CurrentScreen::Card(is_new) => crate::edit_card::events(press, is_new, app, title, description),
        CurrentScreen::Col(is_new) => crate::edit_col::events(press, is_new, app, title),
        CurrentScreen::DeleteCard(_) => crate::delete_card::events(press, app),
        CurrentScreen::DeleteCol(_) => crate::delete_col::events(press, app),
    }
}

} // verus!
