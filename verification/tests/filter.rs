use monsterex::monster::record::MonsterEntity;
use monsterex::state::monster_list::{filter_records, MonsterListState};
use monsterex::text::{name_matches, same_text};
use std::rc::Rc;

fn dataset(names: &[&str]) -> Vec<Rc<MonsterEntity>> {
    let mut bundle = Vec::new();
    for (i, name) in names.iter().enumerate() {
        let mut record = MonsterEntity::default();
        record.id = i as u16 + 1;
        record.name.name = name.to_string();
        bundle.push(Rc::new(record));
    }
    bundle
}

fn names(items: &Vec<Rc<MonsterEntity>>) -> Vec<String> {
    items.iter().map(|m| m.name.name.clone()).collect()
}

#[test]
fn filter_keeps_the_names_that_hold_the_query() {
    let mut list = MonsterListState::new(dataset(&["Rathalos", "Rathian", "Diablos"])).unwrap();
    list.set_list_filter("rath".to_string());
    assert_eq!(names(list.list_items()), vec!["Rathalos".to_string(), "Rathian".to_string()]);
    assert_eq!(list.list_state.selected(), Some(0));
    assert_eq!(list.current_data.name.name, "Rathalos");
    assert_eq!(list.filter_query, "rath");
}

#[test]
fn filter_drops_a_name_that_only_shares_a_prefix_with_the_query() {
    let mut list = MonsterListState::new(dataset(&["Rathalos", "Rathian", "Diablos"])).unwrap();
    list.set_list_filter("ratha".to_string());
    assert_eq!(names(list.list_items()), vec!["Rathalos".to_string()]);
    assert_eq!(list.list_state.selected(), Some(0));
    assert_eq!(list.current_data.name.name, "Rathalos");
    list.set_list_filter("RATHI".to_string());
    assert_eq!(names(list.list_items()), vec!["Rathian".to_string()]);
    assert_eq!(list.current_data.name.name, "Rathian");
}

#[test]
fn filter_without_matches_selects_nothing() {
    let mut list = MonsterListState::new(dataset(&["Rathalos", "Rathian", "Diablos"])).unwrap();
    list.set_list_filter("XYZ".to_string());
    assert!(list.list_items().is_empty());
    assert_eq!(list.list_state.selected(), None);
    assert_eq!(list.current_data.id, 0);
    assert_eq!(list.current_data.name.name, "");
    list.next();
    assert_eq!(list.list_state.selected(), None);
    list.prev();
    assert_eq!(list.list_state.selected(), None);
    assert!(list.list_items().is_empty());
}

#[test]
fn empty_filter_shows_the_dataset_in_order() {
    let mut list = MonsterListState::new(dataset(&["Rathalos", "Rathian", "Diablos"])).unwrap();
    list.set_list_filter("dia".to_string());
    assert_eq!(names(list.list_items()), vec!["Diablos".to_string()]);
    list.set_list_filter(String::new());
    assert_eq!(
        names(list.list_items()),
        vec!["Rathalos".to_string(), "Rathian".to_string(), "Diablos".to_string()]
    );
    assert_eq!(list.list_state.selected(), Some(0));
    assert_eq!(list.current_data.name.name, "Rathalos");
    assert_eq!(list.bundle.len(), 3);
}

#[test]
fn filter_ignores_case_on_both_sides() {
    let mut list = MonsterListState::new(dataset(&["Rathalos", "RATHIAN", "diablos"])).unwrap();
    list.set_list_filter("RaTh".to_string());
    assert_eq!(names(list.list_items()), vec!["Rathalos".to_string(), "RATHIAN".to_string()]);
    list.set_list_filter("DIABLOS".to_string());
    assert_eq!(names(list.list_items()), vec!["diablos".to_string()]);
    list.set_list_filter("\u{c9}".to_string());
    assert!(list.list_items().is_empty());
    let mut accented = MonsterListState::new(dataset(&["\u{e9}clair", "Eclair"])).unwrap();
    accented.set_list_filter("\u{c9}".to_string());
    assert_eq!(names(accented.list_items()), vec!["\u{e9}clair".to_string()]);
}

#[test]
fn filter_matches_anywhere_in_the_name_but_only_contiguously() {
    let bundle = dataset(&["Great Jagras", "Jagras", "Great Girros", "Jyuratodus"]);
    assert_eq!(
        names(&filter_records(&bundle, "jagras")),
        vec!["Great Jagras".to_string(), "Jagras".to_string()]
    );
    assert_eq!(
        names(&filter_records(&bundle, "great ")),
        vec!["Great Jagras".to_string(), "Great Girros".to_string()]
    );
    assert!(filter_records(&bundle, "jgras").is_empty());
    assert_eq!(names(&filter_records(&bundle, "s")).len(), 4);
    assert_eq!(filter_records(&bundle, "").len(), 4);
}

#[test]
fn filtered_records_are_the_records_of_the_dataset() {
    let bundle = dataset(&["A", "B", "AB"]);
    let found = filter_records(&bundle, "b");
    assert_eq!(found.len(), 2);
    assert!(Rc::ptr_eq(&found[0], &bundle[1]));
    assert!(Rc::ptr_eq(&found[1], &bundle[2]));
}

#[test]
fn name_matching_is_lower_cased_containment() {
    assert!(name_matches("Rathalos", "ratha"));
    assert!(name_matches("Rathalos", "THAL"));
    assert!(name_matches("Rathalos", ""));
    assert!(name_matches("", ""));
    assert!(!name_matches("Rathalos", "rathalos "));
    assert!(!name_matches("", "a"));
    assert!(!name_matches("Diablos", "ratha"));
    assert!(same_text("weak", "weak"));
    assert!(!same_text("weak", "Weak"));
    assert!(!same_text("weak", "wea"));
    assert!(same_text("", ""));
}

#[test]
fn a_browser_needs_a_dataset() {
    assert!(MonsterListState::new(Vec::new()).is_none());
    let list = MonsterListState::new(dataset(&["A"])).unwrap();
    assert_eq!(list.list_state.selected(), Some(0));
    assert_eq!(list.current_data.id, 1);
    assert_eq!(list.filter_query, "");
    assert!(list.filtered_list.is_empty());
    assert_eq!(list.list_items().len(), 1);
    assert_eq!(list.monster_on_quest_list_state.list_state.selected(), None);
    assert_eq!(list.monster_weakness_tab_state.table_state.selected(), None);
    assert_eq!(list.monster_drops_tab_state.table_state.selected(), None);
}

#[test]
fn a_full_turn_of_next_returns_to_each_record() {
    for len in 1usize..5 {
        let all = ["A", "B", "C", "D"];
        let mut list = MonsterListState::new(dataset(&all[..len])).unwrap();
        for start in 0..len {
            list.select(start);
            for _ in 0..len {
                list.next();
            }
            assert_eq!(list.list_state.selected(), Some(start));
            assert_eq!(list.current_data.name.name, all[start]);
            list.next();
            list.prev();
            assert_eq!(list.list_state.selected(), Some(start));
            list.prev();
            list.next();
            assert_eq!(list.list_state.selected(), Some(start));
            assert_eq!(list.current_data.name.name, all[start]);
        }
    }
}

#[test]
fn selecting_beyond_the_list_shows_a_default_record() {
    let mut list = MonsterListState::new(dataset(&["A", "B"])).unwrap();
    list.select(5);
    assert_eq!(list.list_state.selected(), Some(5));
    assert_eq!(list.current_data.id, 0);
    assert_eq!(list.current_data.name.name, "");
    assert_eq!(list.monster_on_quest_list_state.list_len, 0);
    list.next();
    assert_eq!(list.list_state.selected(), Some(0));
    assert_eq!(list.current_data.name.name, "A");
    list.select(5);
    list.prev();
    assert_eq!(list.list_state.selected(), Some(4));
    assert_eq!(list.current_data.id, 0);
}

#[test]
fn reset_rewinds_the_panels_and_keeps_the_selection() {
    let mut list = MonsterListState::new(dataset(&["A", "B", "C"])).unwrap();
    list.select(2);
    list.desc_scrollbar_state.set_height(30);
    list.desc_scrollbar_state.scroll_down();
    list.habitat_page_state.habitat_total_page = 4;
    list.habitat_page_state.next();
    list.monster_on_quest_list_state.select(3);
    list.monster_weakness_tab_state.toggle_selected_weapon_elm_tab();
    list.monster_weakness_tab_state.toggle_selected_ailment_item_tab();
    list.monster_weakness_tab_state.select(2);
    list.monster_drops_tab_state.toggle_selected_rank_tab();
    list.monster_drops_tab_state.toggle_selected_source_tab();
    list.monster_drops_tab_state.select(6);
    list.reset();
    assert_eq!(list.list_state.selected(), Some(2));
    assert_eq!(list.current_data.name.name, "C");
    assert_eq!(list.desc_scrollbar_state.position, 0);
    assert_eq!(list.desc_scrollbar_state.height, 30);
    assert_eq!(list.habitat_page_state.habitat_current_page, 0);
    assert_eq!(list.habitat_page_state.habitat_total_page, 4);
    assert_eq!(list.monster_on_quest_list_state.list_state.selected(), Some(0));
    assert_eq!(list.monster_weakness_tab_state.table_state.selected(), Some(0));
    assert_eq!(list.monster_drops_tab_state.table_state.selected(), Some(0));
    assert_eq!(list.monster_drops_tab_state.scrollbar_state.position, 0);
}

#[test]
fn the_icon_directory_is_kept_with_the_icon_file() {
    let mut record = MonsterEntity::default();
    record.icon_code = "em001".to_string();
    let list = MonsterListState::new(vec![Rc::new(record)]).unwrap().path("icons".to_string());
    let (dir, file) = list.get_asset_path();
    assert_eq!(dir, "icons");
    assert_eq!(file, "em001");
}
