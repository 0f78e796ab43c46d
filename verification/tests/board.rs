use kanban::Card;
use kanban::Column;
use kanban::Kanban;

fn titles(column: &Column) -> Vec<String> {
    column.cards.iter().map(|card| card.title.clone()).collect()
}

fn column_titles(board: &Kanban) -> Vec<String> {
    board.columns().iter().map(|column| column.title.clone()).collect()
}

fn board_of(columns: &[(&str, &[&str])]) -> Kanban {
    let mut board = Kanban::new("Board");
    for (title, cards) in columns {
        let cards = cards.iter().map(|card| Card::new(card, "")).collect();
        board.add_column(Column::new(title, cards));
    }
    board
}

#[test]
fn a_new_board_has_its_title_and_no_columns() {
    let board = Kanban::new("Plans");
    assert_eq!(board.title(), "Plans");
    assert!(board.columns().is_empty());
    assert!(board.get_column(0).is_none());
    assert!(board.get_card(0, 0).is_none());
}

#[test]
fn a_board_can_be_made_with_its_columns() {
    let board = Kanban::_with_columns("Plans", vec![Column::new("A", Vec::new()), Column::empty()]);
    assert_eq!(board.title(), "Plans");
    assert_eq!(column_titles(&board), ["A", ""]);
}

#[test]
fn cards_are_made_with_their_texts() {
    let empty = Card::empty();
    assert_eq!(empty.title, "");
    assert_eq!(empty.description, "");
    let card = Card::new("t", "d\n");
    assert_eq!(card.title, "t");
    assert_eq!(card.description, "d\n");
    let other = Card::from("t", "d\n");
    assert_eq!(other.title, card.title);
    assert_eq!(other.description, card.description);
    let copy = card.clone();
    assert_eq!(copy.title, "t");
    assert_eq!(copy.description, "d\n");
}

#[test]
fn columns_are_made_with_their_cards() {
    let empty = Column::empty();
    assert_eq!(empty.title, "");
    assert!(empty.cards.is_empty());
    let mut column = Column::new("A", vec![Card::new("x", "")]);
    column.add_card(Card::new("y", ""));
    assert_eq!(column.title, "A");
    assert_eq!(titles(&column), ["x", "y"]);
    let copy = column.clone();
    assert_eq!(copy.title, "A");
    assert_eq!(titles(&copy), ["x", "y"]);
}

#[test]
fn columns_join_at_the_end() {
    let mut board = Kanban::new("B");
    board.add_column(Column::new("A", Vec::new()));
    board.add_column(Column::new("B", Vec::new()));
    assert_eq!(column_titles(&board), ["A", "B"]);
    assert_eq!(board.get_column(1).unwrap().title, "B");
    assert!(board.get_column(2).is_none());
}

#[test]
fn columns_change_places() {
    let mut board = board_of(&[("A", &[]), ("B", &[]), ("C", &[])]);
    board.swap_column(0, 2);
    assert_eq!(column_titles(&board), ["C", "B", "A"]);
    board.swap_column(1, 0);
    assert_eq!(column_titles(&board), ["B", "C", "A"]);
    board.swap_column(1, 1);
    assert_eq!(column_titles(&board), ["B", "C", "A"]);
}

#[test]
fn swapping_with_a_position_at_the_length_does_nothing() {
    let mut board = board_of(&[("A", &["x", "y"]), ("B", &[])]);
    board.swap_column(0, 2);
    board.swap_column(2, 0);
    board.swap_column(2, 2);
    board.swap_column(7, 1);
    assert_eq!(column_titles(&board), ["A", "B"]);
    board.swap_card(0, 0, 2);
    board.swap_card(0, 2, 1);
    board.swap_card(2, 0, 1);
    board.swap_card(1, 0, 0);
    assert_eq!(titles(&board.columns()[0]), ["x", "y"]);
}

#[test]
fn a_column_is_deleted_and_the_rest_move_up() {
    let mut board = board_of(&[("A", &[]), ("B", &["x"]), ("C", &[])]);
    board.delete_column(1);
    assert_eq!(column_titles(&board), ["A", "C"]);
    board.delete_column(0);
    assert_eq!(column_titles(&board), ["C"]);
}

#[test]
fn deleting_at_the_length_does_nothing() {
    let mut board = board_of(&[("A", &["x", "y"]), ("B", &[])]);
    board.delete_column(2);
    board.delete_column(usize::MAX);
    assert_eq!(column_titles(&board), ["A", "B"]);
    board.delete_card(0, 2);
    board.delete_card(2, 0);
    board.delete_card(1, 0);
    assert_eq!(titles(&board.columns()[0]), ["x", "y"]);
    let mut none = Kanban::new("B");
    none.delete_column(0);
    none.delete_card(0, 0);
    assert!(none.columns().is_empty());
}

#[test]
fn a_column_is_retitled() {
    let mut board = board_of(&[("A", &["x"]), ("B", &[])]);
    board.set_col_title(0, "First");
    assert_eq!(column_titles(&board), ["First", "B"]);
    assert_eq!(titles(&board.columns()[0]), ["x"]);
    board.set_col_title(2, "none");
    assert_eq!(column_titles(&board), ["First", "B"]);
}

#[test]
fn cards_join_at_the_end_of_their_column() {
    let mut board = board_of(&[("A", &["x"]), ("B", &[])]);
    board.add_card(0, Card::new("y", "d"));
    board.add_card(1, Card::new("z", ""));
    assert_eq!(titles(&board.columns()[0]), ["x", "y"]);
    assert_eq!(titles(&board.columns()[1]), ["z"]);
    assert_eq!(board.get_card(0, 1).unwrap().description, "d");
    assert!(board.get_card(0, 2).is_none());
    assert!(board.get_card(2, 0).is_none());
}

#[test]
fn adding_a_card_at_the_length_does_nothing() {
    let mut board = board_of(&[("A", &["x"]), ("B", &[])]);
    board.add_card(2, Card::new("lost", ""));
    assert_eq!(titles(&board.columns()[0]), ["x"]);
    assert_eq!(titles(&board.columns()[1]), Vec::<String>::new());
    assert_eq!(board.columns().len(), 2);
}

#[test]
fn cards_change_places_within_a_column() {
    let mut board = board_of(&[("A", &["x", "y", "z"]), ("B", &["w"])]);
    board.swap_card(0, 0, 2);
    assert_eq!(titles(&board.columns()[0]), ["z", "y", "x"]);
    board.swap_card(0, 2, 1);
    assert_eq!(titles(&board.columns()[0]), ["z", "x", "y"]);
    assert_eq!(titles(&board.columns()[1]), ["w"]);
}

#[test]
fn a_card_is_deleted_and_the_rest_keep_their_order() {
    let mut board = board_of(&[("A", &["x", "y", "z"]), ("B", &["w"])]);
    board.delete_card(0, 0);
    assert_eq!(titles(&board.columns()[0]), ["y", "z"]);
    assert_eq!(titles(&board.columns()[1]), ["w"]);
    board.delete_card(0, 1);
    assert_eq!(titles(&board.columns()[0]), ["y"]);
}

#[test]
fn a_moved_card_leaves_the_others_in_whatever_order() {
    let mut board = board_of(&[("A", &["x", "y", "z"]), ("B", &["w"])]);
    board.move_card(0, 1, 0);
    let mut left = titles(&board.columns()[0]);
    left.sort();
    assert_eq!(left, ["y", "z"]);
    assert_eq!(titles(&board.columns()[1]), ["w", "x"]);
}

#[test]
fn the_last_card_takes_the_place_of_the_moved_one() {
    let mut board = board_of(&[("A", &["x", "y", "z"]), ("B", &[])]);
    board.move_card(0, 1, 0);
    assert_eq!(titles(&board.columns()[0]), ["z", "y"]);
    assert_eq!(titles(&board.columns()[1]), ["x"]);
}

#[test]
fn the_last_card_can_move_to_an_empty_column() {
    let mut board = board_of(&[("A", &["x", "y", "z"]), ("B", &[])]);
    board.move_card(0, 1, 2);
    assert_eq!(titles(&board.columns()[0]), ["x", "y"]);
    assert_eq!(titles(&board.columns()[1]), ["z"]);
}

#[test]
fn a_card_moved_within_its_column_goes_to_the_end() {
    let mut board = board_of(&[("A", &["x", "y", "z"])]);
    board.move_card(0, 0, 0);
    assert_eq!(titles(&board.columns()[0]), ["z", "y", "x"]);
}

#[test]
fn moving_with_a_position_at_the_length_does_nothing() {
    let mut board = board_of(&[("A", &["x", "y"]), ("B", &["w"])]);
    board.move_card(0, 2, 0);
    board.move_card(2, 0, 0);
    board.move_card(0, 1, 2);
    board.move_card(1, 0, 1);
    assert_eq!(titles(&board.columns()[0]), ["x", "y"]);
    assert_eq!(titles(&board.columns()[1]), ["w"]);
}

#[test]
fn a_card_is_retitled_and_described() {
    let mut board = board_of(&[("A", &["x", "y"])]);
    board.set_card_title(0, 1, "why");
    board.set_card_description(0, 1, "because\n");
    assert_eq!(titles(&board.columns()[0]), ["x", "why"]);
    assert_eq!(board.get_card(0, 1).unwrap().description, "because\n");
    assert_eq!(board.get_card(0, 0).unwrap().description, "");
    board.set_card_title(0, 2, "none");
    board.set_card_description(0, 2, "none");
    board.set_card_title(1, 0, "none");
    board.set_card_description(1, 0, "none");
    assert_eq!(titles(&board.columns()[0]), ["x", "why"]);
}
