//! The keys of the question whether the selected column is to be deleted.
use vstd::prelude::*;
use crate::app::App;
use crate::app::AppView;
use crate::events::Action;
use crate::events::ActionView;
use crate::events::KeyPress;

verus! {

impl AppView {
    /// What a key asks for before the question whether the selected column
    /// is to be deleted. One key deletes it, and the board is then to be
    /// written. In command mode a key leaves the question, with the board
    /// written or without. Any other key is handed on to the field that
    /// takes the input, if one does.
    pub open spec fn delete_col_events(self, press: KeyPress) -> (AppView, ActionView) {
        self.question_events(press, self.confirm_delete_column())
    }
}

/// Does what a key asks for before the question whether the selected column
/// is to be deleted, and says what is left to do.
pub fn events(key: KeyPress, app: &mut App) -> (action: Action)
    ensures
        (final(app)@, action@) == old(app)@.delete_col_events(key),
        old(app)@.is_consistent() ==> final(app)@.is_consistent(),
{
    let command = app.vim.is_normal();
    if (key.key.is_char('s') || key.key.is_enter()) && command {
        app.stop_edit();
        app.written()
    } else if key.key.is_char('y') {
        app.confirm_delete_column();
        app.written()
    } else if (key.key.is_char('q') || key.key.is_char('n') || key.key.is_esc()) && command {
        app.stop_edit();
        Action::Leave
    } else {
        app.forwarded()
    }
}

} // verus!
