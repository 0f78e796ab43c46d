use kanban::App;
use kanban::Card;
use kanban::Column;
use kanban::CurrentScreen;
use kanban::CurrentlyEditing;
use kanban::Kanban;

fn board_of(columns: &[(&str, &[&str])]) -> Kanban {
    let mut board = Kanban::new("Board");
    for (title, cards) in columns {
        let cards = cards.iter().map(|card| Card::new(card, "")).collect();
        board.add_column(Column::new(title, cards));
    }
    board
}

fn session(columns: &[(&str, &[&str])]) -> App {
    App::new("board".to_string(), board_of(columns))
}

fn titles(app: &App, column: usize) -> Vec<String> {
    app.kanban.columns()[column].cards.iter().map(|card| card.title.clone()).collect()
}

fn column_titles(app: &App) -> Vec<String> {
    app.kanban.columns().iter().map(|column| column.title.clone()).collect()
}

fn rows(rows: &[&str]) -> Vec<String> {
    rows.iter().map(|row| row.to_string()).collect()
}

fn selection_is_valid(app: &App) -> bool {
    let columns = app.kanban.columns();
    if columns.is_empty() {
        return true;
    }
    if app.selected_column >= columns.len() {
        return false;
    }
    let cards = &columns[app.selected_column].cards;
    cards.is_empty() || app.selected_card < cards.len()
}

#[test]
fn a_new_session_selects_the_first_column_and_card() {
    let app = session(&[("A", &["x"]), ("B", &[])]);
    assert_eq!(app.path, "board");
    assert_eq!(app.selected_column, 0);
    assert_eq!(app.selected_card, 0);
    assert_eq!(app.selected_check, 0);
    assert_eq!(app.columns_start, 0);
    assert_eq!(app.columns_offset, 3);
    assert!(matches!(app.current_screen, CurrentScreen::Main));
    assert!(app.currently_editing.is_none());
    assert_eq!(column_titles(&app), ["A", "B"]);
}

#[test]
fn a_step_past_the_last_column_selects_the_first() {
    let mut app = session(&[("A", &[]), ("B", &[]), ("C", &[])]);
    app.selected_column = 2;
    app.increment_selected_column();
    assert_eq!(app.selected_column, 0);
    assert_eq!(app.columns_start, 0);
}

#[test]
fn a_step_before_the_first_column_selects_the_last() {
    let mut app = session(&[("A", &[]), ("B", &[]), ("C", &[])]);
    app.decrement_selected_column();
    assert_eq!(app.selected_column, 2);
    assert_eq!(app.columns_start, 0);
}

#[test]
fn a_step_back_to_the_last_column_shows_the_last_columns() {
    let mut app = session(&[("A", &[]), ("B", &[]), ("C", &[]), ("D", &[]), ("E", &[])]);
    app.decrement_selected_column();
    assert_eq!(app.selected_column, 4);
    assert_eq!(app.columns_start, 2);
    app.columns_offset = 1;
    app.selected_column = 0;
    app.columns_start = 0;
    app.decrement_selected_column();
    assert_eq!(app.selected_column, 4);
    assert_eq!(app.columns_start, 4);
}

#[test]
fn a_view_wider_than_the_board_starts_at_the_first_column() {
    let mut app = session(&[("A", &[]), ("B", &[])]);
    app.decrement_selected_column();
    assert_eq!(app.selected_column, 1);
    assert_eq!(app.columns_start, 0);
}

#[test]
fn the_view_follows_the_selected_column() {
    let mut app = session(&[("A", &[]), ("B", &[]), ("C", &[]), ("D", &[]), ("E", &[])]);
    let mut seen = Vec::new();
    for _ in 0..6 {
        app.increment_selected_column();
        seen.push((app.selected_column, app.columns_start));
    }
    assert_eq!(seen, [(1, 0), (2, 0), (3, 1), (4, 2), (0, 0), (1, 0)]);
    app.selected_column = 4;
    app.columns_start = 2;
    let mut seen = Vec::new();
    for _ in 0..6 {
        app.decrement_selected_column();
        seen.push((app.selected_column, app.columns_start));
    }
    assert_eq!(seen, [(3, 2), (2, 2), (1, 1), (0, 0), (4, 2), (3, 2)]);
}

#[test]
fn steps_on_a_board_without_columns_do_nothing() {
    let mut app = session(&[]);
    app.increment_selected_column();
    app.decrement_selected_column();
    app.decrement_selected_card();
    app.increment_selected_card();
    assert_eq!(app.selected_column, 0);
    assert_eq!(app.selected_card, 0);
    assert_eq!(app.columns_start, 0);
}

#[test]
fn the_selected_card_is_brought_back_into_a_shorter_column() {
    let mut app = session(&[("A", &["a", "b", "c", "d"]), ("B", &["x", "y"]), ("C", &[])]);
    app.selected_card = 3;
    app.increment_selected_column();
    assert_eq!((app.selected_column, app.selected_card), (1, 1));
    app.selected_card = 1;
    app.increment_selected_column();
    assert_eq!((app.selected_column, app.selected_card), (2, 1));
    app.increment_selected_column();
    assert_eq!((app.selected_column, app.selected_card), (0, 1));
    app.selected_card = 3;
    app.decrement_selected_column();
    assert_eq!((app.selected_column, app.selected_card), (2, 3));
    app.decrement_selected_column();
    assert_eq!((app.selected_column, app.selected_card), (1, 1));
}

#[test]
fn card_steps_wrap_round_the_column() {
    let mut app = session(&[("A", &["a", "b", "c"])]);
    let mut seen = Vec::new();
    for _ in 0..4 {
        app.increment_selected_card();
        seen.push(app.selected_card);
    }
    assert_eq!(seen, [1, 2, 0, 1]);
    let mut seen = Vec::new();
    for _ in 0..4 {
        app.decrement_selected_card();
        seen.push(app.selected_card);
    }
    assert_eq!(seen, [0, 2, 1, 0]);
}

#[test]
fn a_step_past_the_last_card_selects_the_first() {
    let mut app = session(&[("A", &["a", "b", "c"]), ("B", &[])]);
    app.selected_card = 2;
    app.increment_selected_card();
    assert_eq!(app.selected_card, 0);
    assert_eq!((app.selected_column, app.columns_start), (0, 0));
    app.increment_selected_card();
    assert_eq!(app.selected_card, 1);
}

#[test]
fn a_step_before_the_first_card_selects_the_last() {
    let mut app = session(&[("A", &["a", "b", "c"]), ("B", &[])]);
    app.decrement_selected_card();
    assert_eq!(app.selected_card, 2);
    assert_eq!((app.selected_column, app.columns_start), (0, 0));
    app.decrement_selected_card();
    assert_eq!(app.selected_card, 1);
}

#[test]
fn card_steps_in_a_column_without_cards_do_nothing() {
    let mut app = session(&[("A", &[])]);
    app.selected_card = 2;
    app.decrement_selected_card();
    assert_eq!(app.selected_card, 2);
    app.increment_selected_card();
    assert_eq!(app.selected_card, 2);
}

#[test]
fn the_selection_stays_valid_through_changes() {
    let mut app = session(&[]);
    app.delete_column(0);
    app.delete_card(0, 0);
    app.add_card(0, Card::new("lost", ""));
    assert!(selection_is_valid(&app));
    app.add_column(Column::new("A", Vec::new()));
    app.add_column(Column::new("B", vec![Card::new("x", ""), Card::new("y", "")]));
    app.add_column(Column::new("C", Vec::new()));
    app.add_card(2, Card::new("z", ""));
    app.add_card(3, Card::new("lost", ""));
    assert!(selection_is_valid(&app));
    assert_eq!(column_titles(&app), ["A", "B", "C"]);
    app.increment_selected_column();
    app.increment_selected_card();
    assert_eq!((app.selected_column, app.selected_card), (1, 1));
    app.delete_card(1, 1);
    assert!(selection_is_valid(&app));
    assert_eq!((app.selected_column, app.selected_card), (1, 0));
    app.delete_card(1, 5);
    app.delete_card(9, 0);
    app.delete_column(3);
    assert!(selection_is_valid(&app));
    assert_eq!(column_titles(&app), ["A", "B", "C"]);
    app.increment_selected_column();
    assert_eq!(app.selected_column, 2);
    app.delete_column(2);
    assert!(selection_is_valid(&app));
    assert_eq!(app.selected_column, 1);
    app.delete_column(0);
    assert!(selection_is_valid(&app));
    assert_eq!(app.selected_column, 0);
    assert_eq!(column_titles(&app), ["B"]);
    app.delete_column(0);
    assert!(selection_is_valid(&app));
    assert_eq!(app.selected_column, 0);
    assert!(app.kanban.columns().is_empty());
}

#[test]
fn a_card_added_to_an_empty_selected_column_is_selected() {
    let mut app = session(&[("A", &["a", "b", "c"]), ("B", &[])]);
    app.selected_card = 2;
    app.increment_selected_column();
    assert_eq!((app.selected_column, app.selected_card), (1, 2));
    app.add_card(1, Card::new("x", ""));
    assert_eq!(app.selected_card, 0);
    assert!(selection_is_valid(&app));
}

#[test]
fn deleting_the_first_column_selects_the_last() {
    let mut app = session(&[("A", &[]), ("B", &[]), ("C", &[]), ("D", &[])]);
    app.delete_column(0);
    assert_eq!(column_titles(&app), ["B", "C", "D"]);
    assert_eq!(app.selected_column, 2);
    assert_eq!(app.columns_start, 0);
}

#[test]
fn the_selected_column_moves_left_and_right() {
    let mut app = session(&[("A", &[]), ("B", &[]), ("C", &[])]);
    assert!(!app.move_column_left());
    assert_eq!(column_titles(&app), ["A", "B", "C"]);
    assert!(app.move_column_right());
    assert_eq!(column_titles(&app), ["B", "A", "C"]);
    assert_eq!(app.selected_column, 1);
    assert!(app.move_column_right());
    assert_eq!(column_titles(&app), ["B", "C", "A"]);
    assert_eq!(app.selected_column, 2);
    assert!(!app.move_column_right());
    assert_eq!(column_titles(&app), ["B", "C", "A"]);
    assert_eq!(app.selected_column, 2);
    assert!(app.move_column_left());
    assert_eq!(column_titles(&app), ["B", "A", "C"]);
    assert_eq!(app.selected_column, 1);
    let mut none = session(&[]);
    assert!(!none.move_column_left());
    assert!(!none.move_column_right());
}

#[test]
fn the_selected_card_goes_to_the_next_column() {
    let mut app = session(&[("A", &["x", "y", "z"]), ("B", &["w"])]);
    assert!(app.move_card_left());
    assert_eq!(titles(&app, 0), ["x", "y", "z"]);
    assert!(app.move_card_right());
    assert_eq!(titles(&app, 0), ["z", "y"]);
    assert_eq!(titles(&app, 1), ["w", "x"]);
    assert_eq!((app.selected_column, app.selected_card), (0, 0));
    app.selected_card = 1;
    assert!(app.move_card_right());
    assert_eq!(titles(&app, 0), ["z"]);
    assert_eq!(titles(&app, 1), ["w", "x", "y"]);
    assert_eq!(app.selected_card, 0);
    assert!(app.move_card_right());
    assert_eq!(titles(&app, 0), Vec::<String>::new());
    assert!(!app.move_card_right());
    app.increment_selected_column();
    assert!(app.move_card_right());
    assert_eq!(titles(&app, 1), ["w", "x", "y", "z"]);
    assert!(app.move_card_left());
    assert_eq!(titles(&app, 0), ["w"]);
    assert_eq!(titles(&app, 1), ["z", "x", "y"]);
}

#[test]
fn the_selected_card_moves_up_and_down() {
    let mut app = session(&[("A", &["x", "y", "z"])]);
    assert!(!app.move_card_up());
    assert!(app.move_card_down());
    assert_eq!(titles(&app, 0), ["y", "x", "z"]);
    assert_eq!(app.selected_card, 1);
    assert!(app.move_card_down());
    assert_eq!(titles(&app, 0), ["y", "z", "x"]);
    assert_eq!(app.selected_card, 2);
    assert!(!app.move_card_down());
    assert_eq!(titles(&app, 0), ["y", "z", "x"]);
    assert!(app.move_card_up());
    assert_eq!(titles(&app, 0), ["y", "x", "z"]);
    assert_eq!(app.selected_card, 1);
    let mut empty = session(&[("A", &[])]);
    assert!(!empty.move_card_down());
    assert!(!empty.move_card_up());
}

#[test]
fn an_editor_starts_with_the_selected_card() {
    let mut app = session(&[("A", &["x"])]);
    app.kanban.set_card_description(0, 0, "one\ntwo\n");
    let (title, description) = app.start_card_edit().unwrap();
    assert_eq!(title, ["x"]);
    assert_eq!(description, ["one", "two", ""]);
    assert!(matches!(app.current_screen, CurrentScreen::Card(false)));
    assert_eq!(app.currently_editing, Some(CurrentlyEditing::Title));
    app.edit_description();
    assert_eq!(app.currently_editing, Some(CurrentlyEditing::Description));
    app.edit_title();
    assert_eq!(app.currently_editing, Some(CurrentlyEditing::Title));
    app.stop_edit();
    assert!(matches!(app.current_screen, CurrentScreen::Main));
    assert!(app.currently_editing.is_none());
    app.selected_card = 1;
    assert!(app.start_card_edit().is_none());
    assert!(matches!(app.current_screen, CurrentScreen::Main));
}

#[test]
fn an_editor_starts_with_the_selected_column() {
    let mut app = session(&[("A", &[])]);
    assert_eq!(app.start_column_edit().unwrap(), ["A"]);
    assert!(matches!(app.current_screen, CurrentScreen::Col(false)));
    assert_eq!(app.currently_editing, Some(CurrentlyEditing::Title));
    let mut none = session(&[]);
    assert!(none.start_column_edit().is_none());
    assert!(!none.start_new_card());
    assert!(matches!(none.current_screen, CurrentScreen::Main));
    none.start_new_column();
    assert!(matches!(none.current_screen, CurrentScreen::Col(true)));
    assert_eq!(none.currently_editing, Some(CurrentlyEditing::Title));
    assert!(app.start_new_card());
    assert!(matches!(app.current_screen, CurrentScreen::Card(true)));
}

#[test]
fn a_new_card_is_stored_with_its_title_on_one_line() {
    let mut app = session(&[("A", &["x"])]);
    assert!(app.start_new_card());
    app.commit_card(true, &rows(&["Write", " spec\n!"]), &rows(&["one", "two", ""]));
    assert_eq!(titles(&app, 0), ["x", "Write spec!"]);
    assert_eq!(app.kanban.get_card(0, 1).unwrap().description, "one\ntwo\n");
    assert!(matches!(app.current_screen, CurrentScreen::Main));
    assert!(app.currently_editing.is_none());
}

#[test]
fn an_edited_card_is_stored_in_place() {
    let mut app = session(&[("A", &["x", "y"])]);
    app.increment_selected_card();
    app.start_card_edit().unwrap();
    app.commit_card(false, &rows(&["why"]), &rows(&["because"]));
    assert_eq!(titles(&app, 0), ["x", "why"]);
    assert_eq!(app.kanban.get_card(0, 1).unwrap().description, "because");
    assert!(matches!(app.current_screen, CurrentScreen::Main));
}

#[test]
fn an_unchanged_edit_stores_the_same_card() {
    let mut app = session(&[("A", &["x"])]);
    app.kanban.set_card_description(0, 0, "one\n\ntwo\n");
    let (title, description) = app.start_card_edit().unwrap();
    app.commit_card(false, &title, &description);
    assert_eq!(titles(&app, 0), ["x"]);
    assert_eq!(app.kanban.get_card(0, 0).unwrap().description, "one\n\ntwo\n");
}

#[test]
fn a_column_is_stored_with_its_title_on_one_line() {
    let mut app = session(&[("A", &[])]);
    app.start_new_column();
    app.commit_column(true, &rows(&["To", "do"]));
    assert_eq!(column_titles(&app), ["A", "Todo"]);
    assert!(app.kanban.columns()[1].cards.is_empty());
    assert!(matches!(app.current_screen, CurrentScreen::Main));
    app.start_column_edit().unwrap();
    app.commit_column(false, &rows(&["First"]));
    assert_eq!(column_titles(&app), ["First", "Todo"]);
    let mut none = session(&[]);
    none.commit_column(false, &rows(&["lost"]));
    none.commit_card(true, &rows(&["lost"]), &rows(&[""]));
    none.commit_card(false, &rows(&["lost"]), &rows(&[""]));
    assert!(none.kanban.columns().is_empty());
}

#[test]
fn a_deletion_is_asked_and_confirmed() {
    let mut app = session(&[("A", &["x", "y"]), ("B", &[])]);
    app.increment_selected_card();
    assert!(app.ask_delete_card());
    match &app.current_screen {
        CurrentScreen::DeleteCard(card) => assert_eq!(card.title, "y"),
        _ => panic!("the question is not shown"),
    }
    app.confirm_delete_card();
    assert_eq!(titles(&app, 0), ["x"]);
    assert_eq!(app.selected_card, 0);
    assert!(matches!(app.current_screen, CurrentScreen::Main));
    assert!(app.ask_delete_column());
    match &app.current_screen {
        CurrentScreen::DeleteCol(column) => {
            assert_eq!(column.title, "A");
            assert_eq!(column.cards.len(), 1);
        }
        _ => panic!("the question is not shown"),
    }
    app.confirm_delete_column();
    assert_eq!(column_titles(&app), ["B"]);
    assert_eq!(app.selected_column, 0);
    assert!(matches!(app.current_screen, CurrentScreen::Main));
    assert!(!app.ask_delete_card());
    app.confirm_delete_column();
    assert!(!app.ask_delete_column());
    assert!(matches!(app.current_screen, CurrentScreen::Main));
}

#[test]
fn saving_gives_the_text_of_the_file() {
    let mut app = session(&[("A", &["x"])]);
    app.start_card_edit().unwrap();
    let text = app.save_kanban();
    assert_eq!(text, "Board\n\tA\n\t\tx\n");
    assert!(app.currently_editing.is_none());
    assert!(matches!(app.current_screen, CurrentScreen::Card(false)));
}

#[test]
fn the_columns_in_view_hold_the_selected_one() {
    let mut app = session(&[("A", &[]), ("B", &[]), ("C", &[]), ("D", &[]), ("E", &[])]);
    assert_eq!(app.columns_in_view(), (0, 3));
    for _ in 0..12 {
        app.increment_selected_column();
        let (first, end) = app.columns_in_view();
        assert!(first <= app.selected_column && app.selected_column < end);
        assert!(end - first <= 3);
    }
    for _ in 0..12 {
        app.decrement_selected_column();
        let (first, end) = app.columns_in_view();
        assert!(first <= app.selected_column && app.selected_column < end);
    }
    app.decrement_selected_column();
    app.delete_column(4);
    app.delete_column(3);
    assert_eq!(app.selected_column, 2);
    assert_eq!(app.columns_in_view(), (2, 3));
    let few = session(&[("A", &[])]);
    assert_eq!(few.columns_in_view(), (0, 1));
    let none = session(&[]);
    assert_eq!(none.columns_in_view(), (0, 0));
    let mut odd = session(&[("A", &[])]);
    odd.columns_start = 7;
    odd.columns_offset = usize::MAX;
    assert_eq!(odd.columns_in_view(), (1, 1));
    odd.columns_start = 0;
    assert_eq!(odd.columns_in_view(), (0, 1));
}
