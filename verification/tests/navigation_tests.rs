use clipboard_warrior::menu::MenuIndex;
use clipboard_warrior::navigation::{menu_scroll, Direction, NavigationState};
use clipboard_warrior::store::Store;

fn three_menus() -> MenuIndex {
    let mut store = Store::new();
    store.append("a".to_string(), "1".to_string());
    store.append("b".to_string(), "2".to_string());
    store.append("c".to_string(), "3".to_string());
    MenuIndex::build(&store)
}

fn no_menus() -> MenuIndex {
    MenuIndex::build(&Store::new())
}

fn at(tab: usize, row: Option<usize>) -> NavigationState {
    NavigationState { active_menu_index: tab, selected_row: row }
}

#[test]
fn startup_state_is_first_tab_first_row() {
    assert_eq!(NavigationState::new(), at(0, Some(0)));
}

#[test]
fn right_advances_through_the_menus() {
    let menu = three_menus();
    assert_eq!(menu_scroll(Direction::Right, &menu, 0), 1);
    assert_eq!(menu_scroll(Direction::Right, &menu, 1), 2);
}

#[test]
fn right_from_the_last_menu_stays_there() {
    let menu = three_menus();
    assert_eq!(menu.home_index(), 3);
    assert_eq!(menu_scroll(Direction::Right, &menu, 2), 2);
}

#[test]
fn left_goes_back_and_stops_at_the_first_tab() {
    let menu = three_menus();
    assert_eq!(menu_scroll(Direction::Left, &menu, 2), 1);
    assert_eq!(menu_scroll(Direction::Left, &menu, 1), 0);
    assert_eq!(menu_scroll(Direction::Left, &menu, 0), 0);
}

#[test]
fn from_home_both_directions_lead_to_the_first_tab() {
    let menu = three_menus();
    let home = menu.home_index();
    assert_eq!(menu_scroll(Direction::Right, &menu, home), 0);
    assert_eq!(menu_scroll(Direction::Left, &menu, home), 0);
}

#[test]
fn without_menus_home_is_the_first_tab_and_stays() {
    let menu = no_menus();
    assert_eq!(menu.home_index(), 0);
    assert_eq!(menu_scroll(Direction::Right, &menu, 0), 0);
    assert_eq!(menu_scroll(Direction::Left, &menu, 0), 0);
}

#[test]
fn with_one_menu_right_stays_on_it() {
    let mut store = Store::new();
    store.append("only".to_string(), "x".to_string());
    let menu = MenuIndex::build(&store);
    assert_eq!(menu_scroll(Direction::Right, &menu, 0), 0);
    assert_eq!(menu_scroll(Direction::Left, &menu, 0), 0);
    assert_eq!(menu_scroll(Direction::Right, &menu, 1), 0);
}

#[test]
fn behind_home_right_stays_and_left_goes_back() {
    let menu = three_menus();
    assert_eq!(menu_scroll(Direction::Right, &menu, 4), 4);
    assert_eq!(menu_scroll(Direction::Right, &menu, 7), 7);
    assert_eq!(menu_scroll(Direction::Left, &menu, 4), 3);
    assert_eq!(menu_scroll(Direction::Left, &menu, 7), 6);
    let bare = no_menus();
    assert_eq!(menu_scroll(Direction::Right, &bare, 1), 1);
    assert_eq!(menu_scroll(Direction::Left, &bare, 1), 0);
}

#[test]
fn scroll_resets_the_row() {
    let menu = three_menus();
    let mut nav = at(0, Some(4));
    nav.scroll(Direction::Right, &menu);
    assert_eq!(nav, at(1, Some(0)));
    nav.selected_row = Some(2);
    nav.scroll(Direction::Left, &menu);
    assert_eq!(nav, at(0, Some(0)));
    nav.selected_row = Some(9);
    nav.scroll(Direction::Left, &menu);
    assert_eq!(nav, at(0, Some(0)));
    let mut unselected = at(1, None);
    unselected.scroll(Direction::Right, &menu);
    assert_eq!(unselected, at(2, Some(0)));
}

#[test]
fn jump_home_keeps_the_row() {
    let menu = three_menus();
    let mut nav = at(1, Some(2));
    nav.jump_home(&menu);
    assert_eq!(nav, at(3, Some(2)));
    nav.jump_home(&menu);
    assert_eq!(nav, at(3, Some(2)));
    let mut unselected = at(0, None);
    unselected.jump_home(&menu);
    assert_eq!(unselected, at(3, None));
}

#[test]
fn home_then_right_is_the_first_menu() {
    let menu = three_menus();
    let mut nav = at(2, Some(1));
    nav.jump_home(&menu);
    nav.scroll(Direction::Right, &menu);
    assert_eq!(nav, at(0, Some(0)));
}

#[test]
fn row_down_moves_and_wraps() {
    let mut nav = at(1, Some(0));
    nav.row_down(3);
    assert_eq!(nav, at(1, Some(1)));
    nav.row_down(3);
    assert_eq!(nav, at(1, Some(2)));
    nav.row_down(3);
    assert_eq!(nav, at(1, Some(0)));
}

#[test]
fn row_up_moves_and_wraps() {
    let mut nav = at(1, Some(0));
    nav.row_up(3);
    assert_eq!(nav, at(1, Some(2)));
    nav.row_up(3);
    assert_eq!(nav, at(1, Some(1)));
    nav.row_up(3);
    assert_eq!(nav, at(1, Some(0)));
}

#[test]
fn single_row_wraps_onto_itself() {
    let mut nav = at(0, Some(0));
    nav.row_down(1);
    assert_eq!(nav.selected_row, Some(0));
    nav.row_up(1);
    assert_eq!(nav.selected_row, Some(0));
}

#[test]
fn empty_list_keeps_row_zero() {
    let mut nav = at(0, Some(0));
    nav.row_down(0);
    assert_eq!(nav.selected_row, Some(0));
    nav.row_up(0);
    assert_eq!(nav.selected_row, Some(0));
}

#[test]
fn row_past_the_end_comes_back() {
    let mut nav = at(0, Some(7));
    nav.row_down(3);
    assert_eq!(nav.selected_row, Some(0));
    let mut nav = at(0, Some(7));
    nav.row_up(3);
    assert_eq!(nav.selected_row, Some(6));
    let mut nav = at(0, Some(usize::MAX));
    nav.row_down(usize::MAX);
    assert_eq!(nav.selected_row, Some(0));
}

#[test]
fn without_selection_rows_do_not_move() {
    let mut nav = at(2, None);
    nav.row_down(3);
    assert_eq!(nav, at(2, None));
    nav.row_up(3);
    assert_eq!(nav, at(2, None));
}

#[test]
fn on_home_only_at_the_home_tab() {
    let menu = three_menus();
    assert!(!at(0, Some(0)).on_home(&menu));
    assert!(!at(2, Some(0)).on_home(&menu));
    assert!(at(3, Some(0)).on_home(&menu));
    assert!(!at(4, Some(0)).on_home(&menu));
    assert!(NavigationState::new().on_home(&no_menus()));
}
