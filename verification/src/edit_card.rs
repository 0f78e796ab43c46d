//! The keys of the editor of a card.
use vstd::prelude::*;
use crate::app::App;
use crate::app::AppView;
use crate::app::CurrentlyEditing;
use crate::events::Action;
use crate::events::ActionView;
use crate::events::Key;
use crate::events::KeyPress;
use crate::text::line_views;
use crate::vim::Mode;

verus! {

impl AppView {
    /// What a key asks for in the editor of a card. Nothing, unless a field
    /// takes the input. In command mode a key stores the card, leaves the
    /// editor or goes from one field to the other; a key that would break
    /// the title into lines is passed over; any other key is handed on to
    /// the field that takes the input.
    pub open spec fn edit_card_events(
        self,
        press: KeyPress,
        is_new: bool,
        title: Seq<Seq<char>>,
        description: Seq<Seq<char>>,
    ) -> (AppView, ActionView) {
        let in_title = self.currently_editing == Some(CurrentlyEditing::Title);
        let command = self.vim.mode == Mode::Normal;
        if self.currently_editing is None {
            (self, ActionView::Nothing)
        } else if (press.is_char('o') || press.is_char('O')) && command && in_title {
            (self, ActionView::Nothing)
        } else if press.key == Key::Enter && self.vim.mode == Mode::Insert && in_title {
            (self, ActionView::Nothing)
        } else if (press.is_char('s') || press.key == Key::Enter) && command {
            self.commit_card(is_new, title, description).written()
        } else if (press.is_char('q') || press.key == Key::Esc) && command {
            (self.stop_edit(), ActionView::Leave)
        } else if press.is_char('j') && press.ctrl && command && in_title {
            (self.edit_description(), ActionView::Forward(CurrentlyEditing::Title))
        } else if press.is_char('k') && press.ctrl && command && !in_title {
            (self.edit_title(), ActionView::Nothing)
        } else {
            self.forwarded()
        }
    }
}

/// Does what a key asks for in the editor of a card, and says what is left
/// to do. `title` and `description` are the rows that the editor's fields
/// hold.
pub fn events(
    key: KeyPress,
    is_new: bool,
    app: &mut App,
    title: &[String],
    description: &[String],
) -> (action: Action)
    ensures
        (final(app)@, action@) == old(app)@.edit_card_events(
            key,
            is_new,
            line_views(title@),
            line_views(description@),
        ),
        old(app)@.is_consistent() ==> final(app)@.is_consistent(),
{
    let in_title = match app.currently_editing {
        Some(CurrentlyEditing::Title) => true,
        Some(CurrentlyEditing::Description) => false,
        None => {
            return Action::Nothing;
        },
    };
    let command = app.vim.is_normal();
    let enter = key.key.is_enter();
    if (key.key.is_char('o') || key.key.is_char('O')) && command && in_title {
        Action::Nothing
    } else if enter && app.vim.is_insert() && in_title {
        Action::Nothing
    } else if (key.key.is_char('s') || enter) && command {
        app.commit_card(is_new, title, description);
        app.written()
    } else if (key.key.is_char('q') || key.key.is_esc()) && command {
        app.stop_edit();
        Action::Leave
    } else if key.key.is_char('j') && key.ctrl && command && in_title {
        app.edit_description();
        Action::Forward(CurrentlyEditing::Title)
    } else if key.key.is_char('k') && key.ctrl && command && !in_title {
        app.edit_title();
        Action::Nothing
    } else {
        app.forwarded()
    }
}

} // verus!
