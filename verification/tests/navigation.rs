use monsterex::keybinding::{handle_key, KeyCode, KeyEvent, KeyEventKind, KeyHandleResult, KeyModifiers};
use monsterex::monster::record::{
    MaterialDropWithPart, MonsterEntity, MonsterHabitatData, MonsterQuestData,
};
use monsterex::state::cursor::RowCursor;
use monsterex::state::drops::{MaterialSourceTab, MonsterDropRankTab};
use monsterex::state::monster_list::MonsterListState;
use monsterex::state::weakness::{MonsterStatusAndItemWeaknessTab, MonsterWeaknessTab};
use monsterex::state::{AppState, CurrentScreen, InputMode, MainMenuOption};
use std::rc::Rc;

fn monster(id: u16, name: &str) -> MonsterEntity {
    let mut record = MonsterEntity::default();
    record.id = id;
    record.name.name = name.to_string();
    record
}

fn dataset(names: &[&str]) -> Vec<Rc<MonsterEntity>> {
    let mut bundle = Vec::new();
    let mut id: u16 = 1;
    for name in names {
        bundle.push(Rc::new(monster(id, name)));
        id += 1;
    }
    bundle
}

fn browser(names: &[&str]) -> AppState {
    let list = MonsterListState::new(dataset(names)).unwrap();
    let mut app = AppState::new(list);
    app.current_screen = CurrentScreen::Monster;
    app
}

fn press(app: &mut AppState, code: KeyCode) -> KeyHandleResult {
    handle_key(KeyEvent::new(code, KeyModifiers::none()), app)
}

fn shown(app: &AppState) -> String {
    app.monster_list.current_data.name.name.clone()
}

fn listed(app: &AppState) -> Vec<String> {
    app.monster_list.list_items().iter().map(|m| m.name.name.clone()).collect()
}

#[test]
fn down_walks_the_list_and_wraps_to_the_first_record() {
    let mut app = browser(&["A", "B", "C"]);
    assert_eq!(shown(&app), "A");
    assert_eq!(app.monster_list.list_state.selected(), Some(0));
    press(&mut app, KeyCode::Down);
    press(&mut app, KeyCode::Down);
    assert_eq!(shown(&app), "C");
    assert_eq!(app.monster_list.list_state.selected(), Some(2));
    press(&mut app, KeyCode::Down);
    assert_eq!(shown(&app), "A");
    assert_eq!(app.monster_list.list_state.selected(), Some(0));
}

#[test]
fn up_from_the_first_record_wraps_to_the_last() {
    let mut app = browser(&["A", "B", "C"]);
    press(&mut app, KeyCode::Up);
    assert_eq!(shown(&app), "C");
    assert_eq!(app.monster_list.list_state.selected(), Some(2));
    press(&mut app, KeyCode::Char('k'));
    assert_eq!(shown(&app), "B");
    press(&mut app, KeyCode::Char('j'));
    assert_eq!(shown(&app), "C");
}

#[test]
fn typing_narrows_the_list_and_escape_restores_it() {
    let mut app = browser(&["A", "B", "C"]);
    press(&mut app, KeyCode::Down);
    assert_eq!(shown(&app), "B");
    press(&mut app, KeyCode::Char('/'));
    assert_eq!(app.tui_state.input_mode, InputMode::Editing);
    press(&mut app, KeyCode::Char('b'));
    assert_eq!(app.key_handle.input.value(), "b");
    assert_eq!(app.key_handle.input.cursor(), 1);
    assert_eq!(listed(&app), vec!["B".to_string()]);
    assert_eq!(app.monster_list.list_state.selected(), Some(0));
    assert_eq!(shown(&app), "B");
    assert_eq!(app.tui_state.input_mode, InputMode::Editing);

    press(&mut app, KeyCode::Esc);
    assert_eq!(app.tui_state.input_mode, InputMode::Normal);
    assert_eq!(app.key_handle.input.value(), "");
    assert_eq!(app.key_handle.input.cursor(), 0);
    assert_eq!(app.monster_list.filter_query, "");
    assert_eq!(listed(&app), vec!["A".to_string(), "B".to_string(), "C".to_string()]);
    assert_eq!(app.monster_list.list_state.selected(), Some(0));
    assert_eq!(shown(&app), "A");
    assert_eq!(app.current_screen, CurrentScreen::Monster);
}

#[test]
fn enter_keeps_the_filter_and_leaves_the_filter_box() {
    let mut app = browser(&["Rathalos", "Rathian", "Diablos"]);
    press(&mut app, KeyCode::Char('/'));
    press(&mut app, KeyCode::Char('i'));
    press(&mut app, KeyCode::Char('a'));
    assert_eq!(listed(&app), vec!["Rathian".to_string(), "Diablos".to_string()]);
    press(&mut app, KeyCode::Enter);
    assert_eq!(app.tui_state.input_mode, InputMode::Normal);
    assert_eq!(app.key_handle.input.value(), "ia");
    assert_eq!(listed(&app), vec!["Rathian".to_string(), "Diablos".to_string()]);
    press(&mut app, KeyCode::Down);
    assert_eq!(shown(&app), "Diablos");
    press(&mut app, KeyCode::Down);
    assert_eq!(shown(&app), "Rathian");
}

#[test]
fn editing_keys_reach_the_buffer() {
    let mut app = browser(&["A", "B", "C"]);
    press(&mut app, KeyCode::Char('/'));
    press(&mut app, KeyCode::Char('a'));
    press(&mut app, KeyCode::Char('c'));
    press(&mut app, KeyCode::Left);
    press(&mut app, KeyCode::Char('b'));
    assert_eq!(app.key_handle.input.value(), "abc");
    assert_eq!(app.key_handle.input.cursor(), 2);
    press(&mut app, KeyCode::Backspace);
    assert_eq!(app.key_handle.input.value(), "ac");
    assert_eq!(app.key_handle.input.cursor(), 1);
    press(&mut app, KeyCode::Home);
    press(&mut app, KeyCode::Delete);
    assert_eq!(app.key_handle.input.value(), "c");
    assert_eq!(listed(&app), vec!["C".to_string()]);
    handle_key(KeyEvent::new(KeyCode::Char('u'), KeyModifiers::control()), &mut app);
    assert_eq!(app.key_handle.input.value(), "");
    assert_eq!(listed(&app).len(), 3);
    handle_key(KeyEvent::new(KeyCode::Char('B'), KeyModifiers::shift()), &mut app);
    assert_eq!(app.key_handle.input.value(), "B");
    assert_eq!(listed(&app), vec!["B".to_string()]);
    press(&mut app, KeyCode::Tab);
    press(&mut app, KeyCode::Other);
    press(&mut app, KeyCode::Up);
    assert_eq!(app.key_handle.input.value(), "B");
    assert_eq!(app.key_handle.input.cursor(), 1);
}

#[test]
fn a_filter_without_matches_leaves_nothing_selected() {
    let mut app = browser(&["A", "B", "C"]);
    press(&mut app, KeyCode::Char('/'));
    press(&mut app, KeyCode::Char('x'));
    assert!(listed(&app).is_empty());
    assert_eq!(app.monster_list.list_state.selected(), None);
    assert_eq!(shown(&app), "");
    assert_eq!(app.monster_list.current_data.id, 0);
    press(&mut app, KeyCode::Enter);
    press(&mut app, KeyCode::Down);
    assert_eq!(app.monster_list.list_state.selected(), None);
    press(&mut app, KeyCode::Up);
    assert_eq!(app.monster_list.list_state.selected(), None);
    assert_eq!(shown(&app), "");
}

#[test]
fn release_events_are_ignored() {
    let mut app = browser(&["A", "B", "C"]);
    let release = KeyEvent {
        code: KeyCode::Down,
        modifiers: KeyModifiers::none(),
        kind: KeyEventKind::Release,
    };
    assert_eq!(handle_key(release, &mut app), KeyHandleResult::Continue);
    assert_eq!(shown(&app), "A");
    let quit = KeyEvent {
        code: KeyCode::Char('q'),
        modifiers: KeyModifiers::none(),
        kind: KeyEventKind::Release,
    };
    assert!(!handle_key(quit, &mut app).exit());
    let repeat = KeyEvent {
        code: KeyCode::Down,
        modifiers: KeyModifiers::none(),
        kind: KeyEventKind::Repeat,
    };
    handle_key(repeat, &mut app);
    assert_eq!(shown(&app), "B");
}

#[test]
fn q_exits_from_both_screens_in_normal_mode_only() {
    let mut app = browser(&["A", "B", "C"]);
    assert!(press(&mut app, KeyCode::Char('q')).exit());
    app.current_screen = CurrentScreen::Main;
    assert_eq!(press(&mut app, KeyCode::Char('q')), KeyHandleResult::Exit);
    app.current_screen = CurrentScreen::Monster;
    press(&mut app, KeyCode::Char('/'));
    assert_eq!(press(&mut app, KeyCode::Char('q')), KeyHandleResult::Continue);
    assert_eq!(app.key_handle.input.value(), "q");
}

#[test]
fn main_menu_cycles_through_four_entries() {
    let list = MonsterListState::new(dataset(&["A"])).unwrap();
    let mut app = AppState::new(list);
    assert_eq!(app.current_screen, CurrentScreen::Main);
    assert_eq!(app.main_menu, MainMenuOption::Monster);
    press(&mut app, KeyCode::Down);
    assert_eq!(app.main_menu, MainMenuOption::Quest);
    press(&mut app, KeyCode::Char('j'));
    assert_eq!(app.main_menu, MainMenuOption::Weapon);
    press(&mut app, KeyCode::Down);
    assert_eq!(app.main_menu, MainMenuOption::Armor);
    press(&mut app, KeyCode::Down);
    assert_eq!(app.main_menu, MainMenuOption::Monster);
    press(&mut app, KeyCode::Up);
    assert_eq!(app.main_menu, MainMenuOption::Armor);
    press(&mut app, KeyCode::Char('k'));
    assert_eq!(app.main_menu, MainMenuOption::Weapon);
    assert_eq!(MainMenuOption::Quest.prev(), MainMenuOption::Monster);
    assert_eq!(MainMenuOption::Weapon.prev(), MainMenuOption::Quest);
}

#[test]
fn enter_opens_the_screen_of_the_highlighted_entry() {
    let list = MonsterListState::new(dataset(&["A", "B"])).unwrap();
    let mut app = AppState::new(list);
    app.monster_list.monster_weakness_tab_state.select(3);
    press(&mut app, KeyCode::Enter);
    assert_eq!(app.current_screen, CurrentScreen::Monster);
    assert_eq!(app.monster_list.monster_weakness_tab_state.table_state.selected(), Some(0));

    let list = MonsterListState::new(dataset(&["A", "B"])).unwrap();
    let mut app = AppState::new(list);
    press(&mut app, KeyCode::Down);
    press(&mut app, KeyCode::Enter);
    assert_eq!(app.current_screen, CurrentScreen::Quest);
    assert_eq!(press(&mut app, KeyCode::Char('q')), KeyHandleResult::Continue);
    assert_eq!(press(&mut app, KeyCode::Esc), KeyHandleResult::Continue);
    assert_eq!(app.current_screen, CurrentScreen::Quest);
}

#[test]
fn control_keys_do_nothing_on_the_main_menu() {
    let list = MonsterListState::new(dataset(&["A"])).unwrap();
    let mut app = AppState::new(list);
    let result = handle_key(KeyEvent::new(KeyCode::Char('q'), KeyModifiers::control()), &mut app);
    assert_eq!(result, KeyHandleResult::Continue);
    handle_key(KeyEvent::new(KeyCode::Down, KeyModifiers::control()), &mut app);
    assert_eq!(app.main_menu, MainMenuOption::Monster);
    handle_key(KeyEvent::new(KeyCode::Down, KeyModifiers::shift()), &mut app);
    assert_eq!(app.main_menu, MainMenuOption::Quest);
}

#[test]
fn escape_in_the_browser_goes_back_to_the_main_menu() {
    let mut app = browser(&["A", "B", "C"]);
    press(&mut app, KeyCode::Char('/'));
    press(&mut app, KeyCode::Char('c'));
    press(&mut app, KeyCode::Enter);
    press(&mut app, KeyCode::Char('4'));
    press(&mut app, KeyCode::Char('5'));
    assert_eq!(shown(&app), "C");
    press(&mut app, KeyCode::Esc);
    assert_eq!(app.current_screen, CurrentScreen::Main);
    assert_eq!(app.tui_state.input_mode, InputMode::Normal);
    assert_eq!(app.key_handle.input.value(), "");
    assert_eq!(listed(&app).len(), 3);
    assert_eq!(shown(&app), "A");
    assert_eq!(
        app.monster_list.monster_weakness_tab_state.selected_weapon_elm_tab,
        MonsterWeaknessTab::WeaponDamage
    );
    assert_eq!(
        app.monster_list.monster_drops_tab_state.selected_source_tab,
        MaterialSourceTab::Target
    );
}

#[test]
fn tab_keys_toggle_their_tabs_and_rewind_the_cursor() {
    let mut app = browser(&["A"]);
    app.monster_list.monster_weakness_tab_state.damage_data_len = 4;
    app.monster_list.monster_weakness_tab_state.select(2);
    press(&mut app, KeyCode::Char('4'));
    let weakness = &app.monster_list.monster_weakness_tab_state;
    assert_eq!(weakness.selected_weapon_elm_tab, MonsterWeaknessTab::ElementDamage);
    assert_eq!(weakness.table_state.selected(), Some(0));
    assert_eq!(weakness.scrollbar_state.position, 0);

    app.monster_list.monster_weakness_tab_state.select(3);
    press(&mut app, KeyCode::Char('$'));
    let weakness = &app.monster_list.monster_weakness_tab_state;
    assert_eq!(weakness.selected_status_item_tab, MonsterStatusAndItemWeaknessTab::Item);
    assert_eq!(weakness.selected_weapon_elm_tab, MonsterWeaknessTab::ElementDamage);
    assert_eq!(weakness.table_state.selected(), Some(0));
    press(&mut app, KeyCode::Char('$'));
    assert_eq!(
        app.monster_list.monster_weakness_tab_state.selected_status_item_tab,
        MonsterStatusAndItemWeaknessTab::Status
    );

    app.monster_list.monster_drops_tab_state.select(7);
    press(&mut app, KeyCode::Char('5'));
    let drops = &app.monster_list.monster_drops_tab_state;
    assert_eq!(drops.selected_source_tab, MaterialSourceTab::BrokenPart);
    assert_eq!(drops.table_state.selected(), Some(0));
    press(&mut app, KeyCode::Char('5'));
    press(&mut app, KeyCode::Char('5'));
    assert_eq!(
        app.monster_list.monster_drops_tab_state.selected_source_tab,
        MaterialSourceTab::Carve
    );
    press(&mut app, KeyCode::Char('5'));
    assert_eq!(
        app.monster_list.monster_drops_tab_state.selected_source_tab,
        MaterialSourceTab::Target
    );

    app.monster_list.monster_drops_tab_state.select(7);
    press(&mut app, KeyCode::Char('%'));
    let drops = &app.monster_list.monster_drops_tab_state;
    assert_eq!(drops.selected_rank_tab, MonsterDropRankTab::HighRank);
    assert_eq!(drops.table_state.selected(), Some(0));
    assert_eq!(drops.scrollbar_state.position, 0);
    press(&mut app, KeyCode::Char('%'));
    assert_eq!(
        app.monster_list.monster_drops_tab_state.selected_rank_tab,
        MonsterDropRankTab::LowRank
    );
}

#[test]
fn five_broken_part_rows_cycle_and_the_rank_toggle_rewinds() {
    let mut record = monster(1, "A");
    for i in 0..5 {
        let mut row = MaterialDropWithPart::default();
        row.material = format!("material {}", i);
        record.drops.low_rank.broken_part.push(row);
    }
    let list = MonsterListState::new(vec![Rc::new(record)]).unwrap();
    let mut drops = list.monster_drops_tab_state;
    assert_eq!(drops.low_broken_part_len, 5);
    drops.toggle_selected_source_tab();
    assert_eq!(drops.selected_source_tab, MaterialSourceTab::BrokenPart);
    assert_eq!(drops.get_current_data_use_len(), 5);
    assert_eq!(drops.table_state.selected(), Some(0));
    for expected in [1, 2, 3, 4, 0] {
        drops.next();
        assert_eq!(drops.table_state.selected(), Some(expected));
        assert_eq!(drops.scrollbar_state.position, expected);
    }
    drops.next();
    drops.next();
    assert_eq!(drops.table_state.selected(), Some(2));
    drops.toggle_selected_rank_tab();
    assert_eq!(drops.selected_rank_tab, MonsterDropRankTab::HighRank);
    assert_eq!(drops.table_state.selected(), Some(0));
    assert_eq!(drops.get_current_data_use_len(), 0);
    drops.next();
    assert_eq!(drops.table_state.selected(), Some(0));
    drops.prev();
    assert_eq!(drops.table_state.selected(), Some(0));
}

#[test]
fn moving_to_another_record_refreshes_the_cached_lengths() {
    let mut first = monster(1, "A");
    first.quest_list.push(MonsterQuestData::default());
    let mut second = monster(2, "B");
    for _ in 0..3 {
        second.quest_list.push(MonsterQuestData::default());
        second.habitats.push(MonsterHabitatData::default());
    }
    second.habitats.push(MonsterHabitatData::default());
    second.weaknesses.dmg_data.push(Default::default());
    second.weaknesses.dmg_data.push(Default::default());
    second.drops.low_rank.target.push(Default::default());
    second.drops.low_rank.wound_destroy.push(Default::default());
    second.drops.low_rank.wound_destroy.push(Default::default());
    for _ in 0..3 {
        second.drops.low_rank.carve.push(Default::default());
    }
    for _ in 0..4 {
        second.drops.high_rank.target.push(Default::default());
    }
    for _ in 0..5 {
        second.drops.high_rank.broken_part.push(Default::default());
    }
    for _ in 0..6 {
        second.drops.high_rank.wound_destroy.push(Default::default());
    }
    for _ in 0..7 {
        second.drops.high_rank.carve.push(Default::default());
    }
    let list = MonsterListState::new(vec![Rc::new(first), Rc::new(second)]).unwrap();
    assert_eq!(list.monster_on_quest_list_state.list_len, 1);
    assert_eq!(list.habitat_page_state.habitat_total_page, 0);
    let mut app = AppState::new(list);
    app.current_screen = CurrentScreen::Monster;
    app.monster_list.monster_on_quest_list_state.list_state = RowCursor::with_selected(Some(9));
    press(&mut app, KeyCode::Down);
    let list = &app.monster_list;
    assert_eq!(list.current_data.id, 2);
    assert_eq!(list.monster_on_quest_list_state.list_len, 3);
    assert_eq!(list.monster_on_quest_list_state.list_state.selected(), Some(0));
    assert_eq!(list.habitat_page_state.habitat_total_page, 4);
    assert_eq!(list.monster_weakness_tab_state.damage_data_len, 2);
    let drops = &list.monster_drops_tab_state;
    assert_eq!(drops.low_target_len, 1);
    assert_eq!(drops.low_broken_part_len, 0);
    assert_eq!(drops.low_wound_destroy_len, 2);
    assert_eq!(drops.low_carve_len, 3);
    assert_eq!(drops.high_target_len, 4);
    assert_eq!(drops.high_broken_part_len, 5);
    assert_eq!(drops.high_wound_destroy_len, 6);
    assert_eq!(drops.high_carve_len, 7);
    assert_eq!(list.get_quest_list().len(), 3);
    assert_eq!(list.get_habitat_data().len(), 4);
    assert_eq!(list.get_damage_data().len(), 2);
    assert_eq!(list.get_low_rank_drop_data().carve.len(), 3);
    assert_eq!(list.get_high_rank_drop_data().carve.len(), 7);
    assert_eq!(list.get_name_data().name, "B");
}

#[test]
fn resetting_the_application_clears_the_filter_and_rewinds_the_panels() {
    let mut app = browser(&["A", "B", "C"]);
    press(&mut app, KeyCode::Char('/'));
    press(&mut app, KeyCode::Char('c'));
    app.monster_list.desc_scrollbar_state.set_height(12);
    app.monster_list.desc_scrollbar_state.scroll_down();
    app.monster_list.habitat_page_state.habitat_current_page = 3;
    app.monster_list.monster_on_quest_list_state.select(4);
    app.monster_list.monster_weakness_tab_state.toggle_selected_weapon_elm_tab();
    app.monster_list.monster_weakness_tab_state.select(5);
    app.monster_list.monster_drops_tab_state.toggle_selected_rank_tab();
    app.monster_list.monster_drops_tab_state.select(6);
    app.main_menu = MainMenuOption::Weapon;
    app.reset();
    assert_eq!(app.tui_state.input_mode, InputMode::Normal);
    assert_eq!(app.key_handle.input.value(), "");
    assert_eq!(app.monster_list.filter_query, "");
    assert_eq!(listed(&app).len(), 3);
    assert_eq!(app.monster_list.list_state.selected(), Some(0));
    assert_eq!(shown(&app), "A");
    assert_eq!(app.monster_list.desc_scrollbar_state.position, 0);
    assert_eq!(app.monster_list.habitat_page_state.habitat_current_page, 0);
    assert_eq!(app.monster_list.monster_on_quest_list_state.list_state.selected(), Some(0));
    assert_eq!(app.monster_list.monster_weakness_tab_state.table_state.selected(), Some(0));
    assert_eq!(
        app.monster_list.monster_weakness_tab_state.selected_weapon_elm_tab,
        MonsterWeaknessTab::WeaponDamage
    );
    assert_eq!(app.monster_list.monster_drops_tab_state.table_state.selected(), Some(0));
    assert_eq!(
        app.monster_list.monster_drops_tab_state.selected_rank_tab,
        MonsterDropRankTab::LowRank
    );
    assert_eq!(app.current_screen, CurrentScreen::Monster);
    assert_eq!(app.main_menu, MainMenuOption::Weapon);
}

#[test]
fn rewinding_the_panels_alone_keeps_the_selected_record() {
    let mut app = browser(&["A", "B", "C"]);
    press(&mut app, KeyCode::Down);
    press(&mut app, KeyCode::Down);
    app.monster_list.monster_drops_tab_state.select(6);
    app.monster_list.reset();
    assert_eq!(app.monster_list.list_state.selected(), Some(2));
    assert_eq!(shown(&app), "C");
    assert_eq!(app.monster_list.monster_drops_tab_state.table_state.selected(), Some(0));
}

#[test]
fn modifier_bits_are_those_of_the_terminal() {
    assert_eq!(KeyModifiers::none().bits, 0);
    assert_eq!(KeyModifiers::shift().bits, 1);
    assert_eq!(KeyModifiers::control().bits, 2);
    assert_eq!(KeyModifiers::alt().bits, 4);
    assert!(KeyModifiers::control().is_control());
    assert!(!KeyModifiers { bits: 3 }.is_control());
    assert!(!KeyModifiers::none().is_control());
    let mut app = browser(&["A b", "C"]);
    press(&mut app, KeyCode::Char('/'));
    press(&mut app, KeyCode::Char('a'));
    press(&mut app, KeyCode::Char(' '));
    press(&mut app, KeyCode::Char('b'));
    handle_key(KeyEvent::new(KeyCode::Char('b'), KeyModifiers { bits: 32 }), &mut app);
    assert_eq!(app.key_handle.input.value(), "a b");
    assert_eq!(app.key_handle.input.cursor(), 2);
    handle_key(KeyEvent::new(KeyCode::Backspace, KeyModifiers::alt()), &mut app);
    assert_eq!(app.key_handle.input.value(), "b");
    assert_eq!(listed(&app), vec!["A b".to_string()]);
}
