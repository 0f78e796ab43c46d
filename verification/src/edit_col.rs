//! The keys of the editor of a column.
use vstd::prelude::*;
use crate::app::App;
use crate::app::AppView;
use crate::events::Action;
use crate::events::ActionView;
use crate::events::Key;
use crate::events::KeyPress;
use crate::text::line_views;
use crate::vim::Mode;

verus! {

impl AppView {
    /// What a key asks for in the editor of a column. Nothing, unless a
    /// field takes the input. In command mode a key stores the column or
    /// leaves the editor; a key that would break the title into lines is
    /// passed over; any other key is handed on to the field that takes the
    /// input.
    pub open spec fn edit_col_events(
        self,
        press: KeyPress,
        is_new: bool,
        title: Seq<Seq<char>>,
    ) -> (AppView, ActionView) {
        let command = self.vim.mode == Mode::Normal;
        if self.currently_editing is None {
            (self, ActionView::Nothing)
        } else if (press.is_char('o') || press.is_char('O')) && command {
            (self, ActionView::Nothing)
        } else if press.key == Key::Enter && self.vim.mode == Mode::Insert {
            (self, ActionView::Nothing)
        } else if (press.is_char('s') || press.key == Key::Enter) && command {
            self.commit_column(is_new, title).written()
        } else if (press.is_char('q') || press.key == Key::Esc) && command {
            (self.stop_edit(), ActionView::Leave)
        } else {
            self.forwarded()
        }
    }
}

/// Does what a key asks for in the editor of a column, and says what is left
/// to do. `title` holds the rows of the editor's field.
pub fn events(key: KeyPress, is_new: bool, app: &mut App, title: &[String]) -> (action: Action)
    ensures
        (final(app)@, action@) == old(app)@.edit_col_events(key, is_new, line_views(title@)),
        old(app)@.is_consistent() ==> final(app)@.is_consistent(),
{
    if app.currently_editing.is_none() {
        return Action::Nothing;
    }
    let command = app.vim.is_normal();
    let enter = key.key.is_enter();
    if (key.key.is_char('o') || key.key.is_char('O')) && command {
        Action::Nothing
    } else if enter && app.vim.is_insert() {
        Action::Nothing
    } else if (key.key.is_char('s') || enter) && command {
        app.commit_column(is_new, title);
        app.written()
    } else if (key.key.is_char('q') || key.key.is_esc()) && command {
        app.stop_edit();
        Action::Leave
    } else {
        app.forwarded()
    }
}

} // verus!
