use kanban::events::Action;
use kanban::events::Key;
use kanban::events::KeyKind;
use kanban::events::KeyPress;
use kanban::App;
use kanban::Card;
use kanban::Column;
use kanban::CurrentScreen;
use kanban::CurrentlyEditing;
use kanban::vim::Mode;
use kanban::vim::Transition;
use kanban::vim::Vim;
use kanban::Kanban;

fn one_column() -> App {
    let mut board = Kanban::new("Board");
    board.add_column(Column::new("A", vec![Card::new("x", "d"), Card::new("y", "")]));
    App::new("board".to_string(), board)
}

fn lines(rows: &[&str]) -> Vec<String> {
    rows.iter().map(|row| row.to_string()).collect()
}

fn key(c: char) -> KeyPress {
    KeyPress { key: Key::Char(c), kind: KeyKind::Press, ctrl: false, other_modifiers: false }
}

#[test]
fn the_card_editor_stores_on_its_own_keys() {
    let mut app = one_column();
    app.start_new_card();
    let action = kanban::edit_card::events(
        key('s'),
        true,
        &mut app,
        &lines(&["z"]),
        &lines(&["one", "two"]),
    );
    match action {
        Action::Write(text) => {
            assert_eq!(text, "Board\n\tA\n\t\tx\n\t\t\td\n\t\ty\n\t\tz\n\t\t\tone\n\t\t\ttwo\n")
        }
        other => panic!("{:?}", other),
    }
    assert!(matches!(app.current_screen, CurrentScreen::Main));
    let idle = kanban::edit_card::events(
        key('s'),
        true,
        &mut app,
        &lines(&["lost"]),
        &lines(&[""]),
    );
    assert!(matches!(idle, Action::Nothing));
    assert_eq!(app.kanban.columns()[0].cards.len(), 3);
}

#[test]
fn the_column_editor_stores_on_its_own_keys() {
    let mut app = one_column();
    app.start_column_edit();
    let action = kanban::edit_col::events(key('s'), false, &mut app, &lines(&["B"]));
    match action {
        Action::Write(text) => assert_eq!(text, "Board\n\tB\n\t\tx\n\t\t\td\n\t\ty\n"),
        other => panic!("{:?}", other),
    }
    app.start_new_column();
    app.vim = Vim::new(Mode::Insert);
    let action = kanban::edit_col::events(key('x'), true, &mut app, &lines(&["C"]));
    assert!(matches!(action, Action::Forward(CurrentlyEditing::Title)));
    app.vim = Vim::new(Mode::Normal);
    let action = kanban::edit_col::events(key('q'), true, &mut app, &lines(&["C"]));
    assert!(matches!(action, Action::Leave));
    assert_eq!(app.kanban.columns().len(), 1);
}

#[test]
fn the_questions_delete_on_their_own_keys() {
    let mut app = one_column();
    app.ask_delete_card();
    let action = kanban::delete_card::events(key('y'), &mut app);
    match action {
        Action::Write(text) => assert_eq!(text, "Board\n\tA\n\t\ty\n"),
        other => panic!("{:?}", other),
    }
    assert!(matches!(app.current_screen, CurrentScreen::Main));
    app.ask_delete_column();
    let action = kanban::delete_col::events(key('n'), &mut app);
    assert!(matches!(action, Action::Leave));
    assert_eq!(app.kanban.columns().len(), 1);
    app.ask_delete_column();
    app.vim = Vim::new(Mode::Operator('d'));
    let action = kanban::delete_col::events(key('y'), &mut app);
    match action {
        Action::Write(text) => assert_eq!(text, "Board\n"),
        other => panic!("{:?}", other),
    }
    assert!(app.kanban.columns().is_empty());
    assert_eq!(app.selected_column, 0);
}

#[test]
fn a_written_board_takes_the_input_from_the_fields() {
    let mut app = one_column();
    app.start_card_edit();
    assert!(matches!(app.forwarded(), Action::Forward(CurrentlyEditing::Title)));
    match app.written() {
        Action::Write(text) => assert_eq!(text, "Board\n\tA\n\t\tx\n\t\t\td\n\t\ty\n"),
        other => panic!("{:?}", other),
    }
    assert!(app.currently_editing.is_none());
    assert!(matches!(app.forwarded(), Action::Nothing));
}

#[test]
fn keys_and_modes_tell_themselves_apart() {
    assert!(Key::Char('a').is_char('a'));
    assert!(!Key::Char('a').is_char('b'));
    assert!(!Key::Enter.is_char('a'));
    assert!(Key::Enter.is_enter());
    assert!(!Key::Esc.is_enter());
    assert!(Key::Esc.is_esc());
    assert!(!Key::Other.is_esc());
    assert!(KeyKind::Press.is_press());
    assert!(!KeyKind::Repeat.is_press());
    assert!(KeyKind::Release.is_release());
    assert!(!KeyKind::Press.is_release());
    assert!(Vim::new(Mode::Normal).is_normal());
    assert!(!Vim::new(Mode::Insert).is_normal());
    assert!(Vim::new(Mode::Insert).is_insert());
    assert!(!Vim::new(Mode::Visual).is_insert());
    assert!(!Vim::new(Mode::Operator('y')).is_normal());
}

#[test]
fn the_mode_follows_what_a_key_has_brought_about() {
    let mut app = one_column();
    assert_eq!(app.vim.mode, Mode::Normal);
    app.update_vim(Transition::Mode(Mode::Insert));
    assert_eq!(app.vim.mode, Mode::Normal);
    app.start_card_edit();
    app.update_vim(Transition::Mode(Mode::Insert));
    assert_eq!(app.vim.mode, Mode::Insert);
    app.update_vim(Transition::Nop);
    assert_eq!(app.vim.mode, Mode::Insert);
    app.update_vim(Transition::Mode(Mode::Normal));
    app.update_vim(Transition::Pending(key('g')));
    assert_eq!(app.vim.mode, Mode::Normal);
    assert_eq!(app.vim.pending.key, Key::Char('g'));
    app.update_vim(Transition::Quit);
    assert_eq!(app.vim.mode, Mode::Normal);
    assert_eq!(app.vim.pending.key, Key::Other);
    app.update_vim(Transition::Pending(key('g')));
    app.update_vim(Transition::Mode(Mode::Normal));
    assert_eq!(app.vim.pending.key, Key::Other);
    let waiting = Vim::new(Mode::Visual).with_pending(key('g'));
    assert_eq!(waiting.mode, Mode::Visual);
    assert_eq!(waiting.pending.key, Key::Char('g'));
}
