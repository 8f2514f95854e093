use monsterex::keybinding::{handle_key, KeyCode, KeyEvent, KeyModifiers};
use monsterex::monster::record::MonsterEntity;
use monsterex::state::cursor::Rect;
use monsterex::state::input::FilterInput;
use monsterex::state::monster_list::MonsterListState;
use monsterex::state::{AppState, CurrentScreen, InputMode};
use monsterex::widget::search::{caret_cell, Search};
use std::rc::Rc;

fn app() -> AppState {
    let mut app =
        AppState::new(MonsterListState::new(vec![Rc::new(MonsterEntity::default())]).unwrap());
    app.current_screen = CurrentScreen::Monster;
    app
}

fn type_text(app: &mut AppState, text: &str) {
    for c in text.chars() {
        handle_key(KeyEvent::new(KeyCode::Char(c), KeyModifiers::none()), app);
    }
}

#[test]
fn the_caret_stands_after_the_typed_text() {
    let mut app = app();
    handle_key(KeyEvent::new(KeyCode::Char('/'), KeyModifiers::none()), &mut app);
    type_text(&mut app, "rath");
    let wrapper = Rect { x: 60, y: 0, width: 20, height: 3 };
    let scroll = Search.place_caret(wrapper, &mut app);
    assert_eq!(scroll, 0);
    assert_eq!(app.tui_state.cursor, Some((65, 1)));
    handle_key(KeyEvent::new(KeyCode::Left, KeyModifiers::none()), &mut app);
    assert_eq!(Search.try_place_caret(wrapper, &mut app), Some(0));
    assert_eq!(app.tui_state.cursor, Some((64, 1)));
}

#[test]
fn a_long_text_scrolls_so_that_the_caret_stays_in_the_box() {
    let mut app = app();
    handle_key(KeyEvent::new(KeyCode::Char('/'), KeyModifiers::none()), &mut app);
    type_text(&mut app, "abcdefghij");
    let wrapper = Rect { x: 10, y: 4, width: 8, height: 3 };
    let scroll = Search.place_caret(wrapper, &mut app);
    assert_eq!(scroll, 5);
    assert_eq!(app.tui_state.cursor, Some((16, 5)));
    let narrow = Rect { x: 10, y: 4, width: 2, height: 3 };
    assert_eq!(Search.place_caret(narrow, &mut app), 10);
    assert_eq!(app.tui_state.cursor, Some((11, 5)));
}

#[test]
fn wide_characters_take_two_columns() {
    let input = FilterInput { value: "\u{4e2d}\u{6587}a".to_string(), cursor: 2 };
    assert_eq!(input.visual_cursor(), 4);
    assert_eq!(input.visual_scroll(3), 2);
    assert_eq!(input.visual_scroll(10), 0);
    let end = FilterInput { value: "\u{4e2d}\u{6587}a".to_string(), cursor: 9 };
    assert_eq!(end.visual_cursor(), 5);
    assert_eq!(FilterInput::default().visual_cursor(), 0);
}

#[test]
fn normal_mode_shows_no_caret() {
    let mut app = app();
    app.tui_state.cursor = Some((3, 3));
    assert_eq!(app.tui_state.input_mode, InputMode::Normal);
    let wrapper = Rect { x: 60, y: 0, width: 20, height: 3 };
    assert_eq!(Search.place_caret(wrapper, &mut app), 0);
    assert_eq!(app.tui_state.cursor, None);
    app.tui_state.cursor = Some((3, 3));
    assert_eq!(Search.try_place_caret(wrapper, &mut app), Some(0));
    assert_eq!(app.tui_state.cursor, None);
}

#[test]
fn a_caret_off_the_grid_is_not_placed() {
    let mut app = app();
    handle_key(KeyEvent::new(KeyCode::Char('/'), KeyModifiers::none()), &mut app);
    type_text(&mut app, "ab");
    app.tui_state.cursor = Some((1, 1));
    let edge = Rect { x: u16::MAX - 2, y: 0, width: 20, height: 3 };
    assert_eq!(Search.try_place_caret(edge, &mut app), None);
    assert_eq!(app.tui_state.cursor, Some((1, 1)));
    let bottom = Rect { x: 0, y: u16::MAX, width: 20, height: 3 };
    assert_eq!(Search.try_place_caret(bottom, &mut app), None);
    let last = Rect { x: u16::MAX - 3, y: u16::MAX - 1, width: 20, height: 3 };
    assert_eq!(Search.try_place_caret(last, &mut app), Some(0));
    assert_eq!(app.tui_state.cursor, Some((u16::MAX, u16::MAX)));
}

#[test]
fn the_caret_cell_is_inside_the_border() {
    let wrapper = Rect { x: 5, y: 7, width: 30, height: 3 };
    assert_eq!(caret_cell(wrapper, 0, 0), (6, 8));
    assert_eq!(caret_cell(wrapper, 12, 4), (14, 8));
    assert_eq!(caret_cell(wrapper, 3, 9), (6, 8));
}

#[test]
fn the_buffer_reports_what_a_key_would_do() {
    let input = FilterInput { value: "ab".to_string(), cursor: 1 };
    assert_eq!(input.edited_by(KeyCode::Char('x'), KeyModifiers::none()), ("axb".to_string(), 2));
    assert_eq!(input.edited_by(KeyCode::End, KeyModifiers::none()), ("ab".to_string(), 2));
    assert_eq!(input.edited_by(KeyCode::Char('k'), KeyModifiers::control()), ("a".to_string(), 1));
    assert_eq!(input.edited_by(KeyCode::Char('x'), KeyModifiers::alt()), ("ab".to_string(), 1));
    assert_eq!(input.value(), "ab");
    assert_eq!(input.cursor(), 1);
    let beyond = FilterInput { value: "ab".to_string(), cursor: 7 };
    assert_eq!(beyond.edited_by(KeyCode::Char('c'), KeyModifiers::none()), ("abc".to_string(), 3));
    let mut reset = FilterInput { value: "ab".to_string(), cursor: 1 };
    reset.reset();
    assert_eq!(reset.value(), "");
    assert_eq!(reset.cursor(), 0);
}
