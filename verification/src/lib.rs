//! A board of columns and cards, kept as an indented outline, with the state
//! of a session that moves over it.
//!
//! - [`kanban`] holds the board, its columns and cards, and the changes to
//!   them by position.
//! - [`outline`] reads a board from the lines of its file and writes it back;
//!   [`round_trip`] states what comes back after writing and reading.
//! - [`text`] cuts texts into lines and rows and joins them again.
//! - [`app`] holds a session: the selection, the columns in view and the
//!   screen shown, kept in order through every change.
//! - [`events`] and the modules of the single screens say what each key asks
//!   for; [`vim`] holds the mode of the editors' keys.
//! - [`check`] holds the items of a checklist.
pub mod app;
pub mod check;
pub mod delete_card;
pub mod delete_col;
pub mod edit_card;
pub mod edit_col;
pub mod events;
pub mod kanban;
pub mod outline;
pub mod round_trip;
pub mod text;
pub mod vim;

pub use crate::app::App;
pub use crate::app::CurrentScreen;
pub use crate::app::CurrentlyEditing;
pub use crate::check::Check;
pub use crate::kanban::Card;
pub use crate::kanban::Column;
pub use crate::kanban::Kanban;
pub use crate::outline::MalformedDocument;
