use sadie::actions::{parse_action, parse_move_cursor, Action};
use sadie::geometry::Delta;

fn move_of(x: i32, y: i32) -> Action {
    Action::MoveCursor(Delta { x, y })
}

#[test]
fn bare_direction_moves_one_cell() {
    assert_eq!(parse_move_cursor("h"), Some(move_of(-1, 0)));
    assert_eq!(parse_move_cursor("l"), Some(move_of(1, 0)));
    assert_eq!(parse_move_cursor("k"), Some(move_of(0, -1)));
    assert_eq!(parse_move_cursor("j"), Some(move_of(0, 1)));
}

#[test]
fn count_scales_the_direction() {
    assert_eq!(parse_move_cursor("5h"), Some(move_of(-5, 0)));
    assert_eq!(parse_move_cursor("12j"), Some(move_of(0, 12)));
    assert_eq!(parse_move_cursor("005l"), Some(move_of(5, 0)));
    assert_eq!(parse_move_cursor("40k"), Some(move_of(0, -40)));
}

#[test]
fn input_past_the_first_direction_is_ignored() {
    assert_eq!(parse_move_cursor("h7"), Some(move_of(-1, 0)));
    assert_eq!(parse_move_cursor("5h7"), Some(move_of(-5, 0)));
    assert_eq!(parse_move_cursor("jj"), Some(move_of(0, 1)));
}

#[test]
fn incomplete_or_foreign_input_parses_to_nothing() {
    assert_eq!(parse_move_cursor(""), None);
    assert_eq!(parse_move_cursor("5"), None);
    assert_eq!(parse_move_cursor("007"), None);
    assert_eq!(parse_move_cursor("x"), None);
    assert_eq!(parse_move_cursor("5x"), None);
    assert_eq!(parse_move_cursor(" h"), None);
    assert_eq!(parse_move_cursor("é"), None);
}

#[test]
fn counts_wider_than_the_count_type_parse_to_nothing() {
    assert_eq!(parse_move_cursor("2147483648h"), None);
    assert_eq!(parse_move_cursor("99999999999999999999j"), None);
    assert_eq!(
        parse_move_cursor("2147483647h"),
        Some(move_of(-2147483647, 0))
    );
}

#[test]
fn no_complete_action_is_recognized() {
    assert!(parse_action("5h").is_none());
    assert!(parse_action("").is_none());
    assert!(parse_action("anything at all").is_none());
}
