use monsterex::state::cursor::{step_back, step_forward, Rect, RowCursor, ScrollbarState};
use monsterex::state::drops::{MaterialSourceTab, MonsterDropRankTab, MonsterDropTabState};
use monsterex::state::habitat::ChangeableHabitatPageState;
use monsterex::state::paragraph::ScrollableParagraphState;
use monsterex::state::quest_list::MonsterOnQuestListState;
use monsterex::state::weakness::{
    MonsterStatusAndItemWeaknessTab, MonsterWeaknessTab, MonsterWeaknessTabState,
};

fn area(height: u16) -> Rect {
    Rect { x: 0, y: 0, width: 80, height }
}

#[test]
fn paragraph_scrolls_down_to_two_lines_short_of_its_height() {
    let mut state = ScrollableParagraphState::default();
    state.set_height(5);
    assert_eq!(state.height, 5);
    assert_eq!(state.scrollbar_state.content_length, 5);
    for expected in [1, 2, 3, 3, 3] {
        state.scroll_down();
        assert_eq!(state.position, expected);
        assert_eq!(state.scrollbar_state.position, expected);
    }
    for expected in [2, 1, 0, 0] {
        state.scroll_up();
        assert_eq!(state.position, expected);
        assert_eq!(state.scrollbar_state.position, expected);
    }
}

#[test]
fn paragraph_without_room_does_not_scroll() {
    for height in [0usize, 1, 2] {
        let mut state = ScrollableParagraphState::default();
        state.set_height(height);
        state.scroll_down();
        assert_eq!(state.position, 0);
    }
    let mut state = ScrollableParagraphState::default();
    state.set_height(3);
    state.scroll_down();
    state.scroll_down();
    assert_eq!(state.position, 1);
}

#[test]
fn paragraph_reset_goes_back_to_the_first_line() {
    let mut state = ScrollableParagraphState::default();
    state.set_height(40);
    for _ in 0..7 {
        state.scroll_down();
    }
    assert_eq!(state.position, 7);
    state.reset();
    assert_eq!(state.position, 0);
    assert_eq!(state.scrollbar_state.position, 0);
    assert_eq!(state.height, 40);
    assert_eq!(state.scrollbar_state.content_length, 40);
}

#[test]
fn paragraph_keeps_an_offset_beyond_a_smaller_height() {
    let mut state = ScrollableParagraphState::default();
    state.set_height(20);
    for _ in 0..10 {
        state.scroll_down();
    }
    state.set_height(4);
    assert_eq!(state.position, 10);
    state.scroll_down();
    assert_eq!(state.position, 10);
    state.scroll_up();
    assert_eq!(state.position, 9);
}

#[test]
fn clamping_brings_the_offset_back_within_the_height() {
    let mut state = ScrollableParagraphState::default();
    state.set_height(20);
    for _ in 0..10 {
        state.scroll_down();
    }
    state.clamp();
    assert_eq!(state.position, 10);
    state.set_height(7);
    state.clamp();
    assert_eq!(state.position, 5);
    assert_eq!(state.scrollbar_state.position, 5);
    assert_eq!(state.height, 7);
    state.set_height(1);
    state.clamp();
    assert_eq!(state.position, 0);
    state.set_height(0);
    state.clamp();
    assert_eq!(state.position, 0);
}

#[test]
fn pages_wrap_in_both_directions() {
    let mut pages = ChangeableHabitatPageState { habitat_total_page: 3, habitat_current_page: 0 };
    pages.next();
    assert_eq!(pages.habitat_current_page, 1);
    pages.next();
    assert_eq!(pages.habitat_current_page, 2);
    pages.next();
    assert_eq!(pages.habitat_current_page, 0);
    pages.prev();
    assert_eq!(pages.habitat_current_page, 2);
    pages.prev();
    assert_eq!(pages.habitat_current_page, 1);
    pages.reset();
    assert_eq!(pages.habitat_current_page, 0);
    assert_eq!(pages.habitat_total_page, 3);
}

#[test]
fn pages_without_habitats_stay_put() {
    let mut pages = ChangeableHabitatPageState::default();
    pages.next();
    assert_eq!(pages, ChangeableHabitatPageState { habitat_total_page: 0, habitat_current_page: 0 });
    pages.prev();
    assert_eq!(pages, ChangeableHabitatPageState { habitat_total_page: 0, habitat_current_page: 0 });
    let mut single =
        ChangeableHabitatPageState { habitat_total_page: 1, habitat_current_page: 0 };
    single.next();
    assert_eq!(single.habitat_current_page, 0);
    single.prev();
    assert_eq!(single.habitat_current_page, 0);
}

#[test]
fn a_full_turn_of_next_returns_to_each_page() {
    for total in 1u8..6 {
        for start in 0..total {
            let mut pages =
                ChangeableHabitatPageState { habitat_total_page: total, habitat_current_page: start };
            for _ in 0..total {
                pages.next();
            }
            assert_eq!(pages.habitat_current_page, start);
            pages.next();
            pages.prev();
            assert_eq!(pages.habitat_current_page, start);
            pages.prev();
            pages.next();
            assert_eq!(pages.habitat_current_page, start);
        }
    }
}

#[test]
fn steps_wrap_round_a_table() {
    assert_eq!(step_forward(None, 4), 0);
    assert_eq!(step_forward(Some(0), 4), 1);
    assert_eq!(step_forward(Some(3), 4), 0);
    assert_eq!(step_forward(Some(9), 4), 10);
    assert_eq!(step_forward(Some(usize::MAX), 4), usize::MAX);
    assert_eq!(step_forward(Some(0), 1), 0);
    assert_eq!(step_back(None, 4), 3);
    assert_eq!(step_back(Some(0), 4), 3);
    assert_eq!(step_back(Some(3), 4), 2);
    assert_eq!(step_back(Some(9), 4), 8);
    assert_eq!(step_back(Some(0), 1), 0);
}

#[test]
fn quest_list_steps_and_wraps() {
    let mut quests = MonsterOnQuestListState::default();
    quests.list_len = 3;
    assert_eq!(quests.list_state.selected(), None);
    quests.next();
    assert_eq!(quests.list_state.selected(), Some(0));
    quests.next();
    quests.next();
    assert_eq!(quests.list_state.selected(), Some(2));
    assert_eq!(quests.scrollbar_state.position, 2);
    quests.next();
    assert_eq!(quests.list_state.selected(), Some(0));
    quests.prev();
    assert_eq!(quests.list_state.selected(), Some(2));
    quests.prev();
    assert_eq!(quests.list_state.selected(), Some(1));
    quests.select(7);
    assert_eq!(quests.list_state.selected(), Some(7));
    assert_eq!(quests.scrollbar_state.position, 7);
    quests.reset();
    assert_eq!(quests.list_state.selected(), Some(0));
    assert_eq!(quests.scrollbar_state.position, 0);
    assert_eq!(quests.list_len, 3);

    let mut fresh = MonsterOnQuestListState::default();
    fresh.list_len = 3;
    fresh.prev();
    assert_eq!(fresh.list_state.selected(), Some(2));
}

#[test]
fn an_empty_quest_list_is_left_alone() {
    let mut quests = MonsterOnQuestListState::default();
    quests.next();
    assert_eq!(quests, MonsterOnQuestListState::default());
    quests.prev();
    assert_eq!(quests, MonsterOnQuestListState::default());
    quests.reset();
    quests.next();
    assert_eq!(quests.list_state.selected(), Some(0));
    quests.prev();
    assert_eq!(quests.list_state.selected(), Some(0));
}

#[test]
fn quest_scrollbar_spans_a_list_that_does_not_fit() {
    let mut quests = MonsterOnQuestListState::default();
    quests.list_len = 9;
    quests.set_scrollbar_height(area(11));
    assert_eq!(quests.scrollbar_state.content_length, 0);
    quests.set_scrollbar_height(area(10));
    assert_eq!(quests.scrollbar_state.content_length, 9);
    quests.list_len = 3;
    quests.set_scrollbar_height(area(10));
    assert_eq!(quests.scrollbar_state.content_length, 9);
    quests.set_scrollbar_height(area(2));
    assert_eq!(quests.scrollbar_state.content_length, 3);
}

#[test]
fn weakness_table_steps_and_wraps() {
    let mut weakness = MonsterWeaknessTabState::default();
    weakness.damage_data_len = 2;
    weakness.next();
    assert_eq!(weakness.table_state.selected(), Some(0));
    weakness.next();
    assert_eq!(weakness.table_state.selected(), Some(1));
    weakness.next();
    assert_eq!(weakness.table_state.selected(), Some(0));
    weakness.prev();
    assert_eq!(weakness.table_state.selected(), Some(1));
    assert_eq!(weakness.scrollbar_state.position, 1);

    let mut empty = MonsterWeaknessTabState::default();
    empty.next();
    empty.prev();
    assert_eq!(empty, MonsterWeaknessTabState::default());
}

#[test]
fn weakness_toggles_flip_and_rewind() {
    let mut weakness = MonsterWeaknessTabState::default();
    weakness.damage_data_len = 6;
    weakness.select(4);
    weakness.toggle_selected_weapon_elm_tab();
    assert_eq!(weakness.selected_weapon_elm_tab, MonsterWeaknessTab::ElementDamage);
    assert_eq!(weakness.selected_status_item_tab, MonsterStatusAndItemWeaknessTab::Status);
    assert_eq!(weakness.table_state, RowCursor::with_selected(Some(0)));
    assert_eq!(weakness.scrollbar_state.position, 0);
    weakness.select(5);
    weakness.toggle_selected_weapon_elm_tab();
    assert_eq!(weakness.selected_weapon_elm_tab, MonsterWeaknessTab::WeaponDamage);
    assert_eq!(weakness.table_state.selected(), Some(0));
    weakness.select(5);
    weakness.toggle_selected_ailment_item_tab();
    assert_eq!(weakness.selected_status_item_tab, MonsterStatusAndItemWeaknessTab::Item);
    assert_eq!(weakness.table_state.selected(), Some(0));
    assert_eq!(weakness.scrollbar_state.position, 0);
    weakness.toggle_selected_weapon_elm_tab();
    weakness.select(2);
    weakness.reset();
    assert_eq!(weakness.selected_weapon_elm_tab, MonsterWeaknessTab::WeaponDamage);
    assert_eq!(weakness.selected_status_item_tab, MonsterStatusAndItemWeaknessTab::Status);
    assert_eq!(weakness.table_state.selected(), Some(0));
    assert_eq!(weakness.damage_data_len, 6);
}

#[test]
fn toggling_a_table_without_rows_rewinds_too() {
    let mut weakness = MonsterWeaknessTabState::default();
    weakness.toggle_selected_weapon_elm_tab();
    assert_eq!(weakness.table_state.selected(), Some(0));
    let mut drops = MonsterDropTabState::default();
    drops.toggle_selected_source_tab();
    assert_eq!(drops.table_state.selected(), Some(0));
    drops.toggle_selected_rank_tab();
    assert_eq!(drops.table_state.selected(), Some(0));
}

#[test]
fn weakness_scrollbar_counts_three_lines_a_row() {
    let mut weakness = MonsterWeaknessTabState::default();
    weakness.damage_data_len = 4;
    weakness.set_scrollbar_height(area(14));
    assert_eq!(weakness.scrollbar_state.content_length, 0);
    weakness.set_scrollbar_height(area(13));
    assert_eq!(weakness.scrollbar_state.content_length, 4);
}

#[test]
fn drop_panel_looks_up_the_length_by_rank_and_source() {
    let mut drops = MonsterDropTabState::default();
    drops.low_target_len = 1;
    drops.low_broken_part_len = 2;
    drops.low_wound_destroy_len = 3;
    drops.low_carve_len = 4;
    drops.high_target_len = 5;
    drops.high_broken_part_len = 6;
    drops.high_wound_destroy_len = 7;
    drops.high_carve_len = 8;
    for expected in [1, 2, 3, 4] {
        assert_eq!(drops.get_current_data_use_len(), expected);
        drops.toggle_selected_source_tab();
    }
    assert_eq!(drops.selected_source_tab, MaterialSourceTab::Target);
    drops.toggle_selected_rank_tab();
    for expected in [5, 6, 7, 8] {
        assert_eq!(drops.get_current_data_use_len(), expected);
        drops.toggle_selected_source_tab();
    }
    drops.toggle_selected_source_tab();
    drops.select(3);
    drops.reset();
    assert_eq!(drops.selected_rank_tab, MonsterDropRankTab::LowRank);
    assert_eq!(drops.selected_source_tab, MaterialSourceTab::Target);
    assert_eq!(drops.table_state.selected(), Some(0));
    assert_eq!(drops.high_carve_len, 8);
}

#[test]
fn drop_table_steps_use_the_length_of_the_shown_table() {
    let mut drops = MonsterDropTabState::default();
    drops.low_target_len = 2;
    drops.high_target_len = 3;
    drops.next();
    drops.next();
    assert_eq!(drops.table_state.selected(), Some(1));
    drops.next();
    assert_eq!(drops.table_state.selected(), Some(0));
    drops.toggle_selected_rank_tab();
    drops.prev();
    assert_eq!(drops.table_state.selected(), Some(2));
    drops.next();
    assert_eq!(drops.table_state.selected(), Some(0));
    drops.toggle_selected_source_tab();
    drops.next();
    drops.prev();
    assert_eq!(drops.table_state.selected(), Some(0));
}

#[test]
fn drop_scrollbar_spans_the_table_or_nothing() {
    let mut drops = MonsterDropTabState::default();
    drops.low_target_len = 4;
    drops.set_scrollbar_height(area(13));
    assert_eq!(drops.scrollbar_state.content_length, 4);
    drops.set_scrollbar_height(area(14));
    assert_eq!(drops.scrollbar_state.content_length, 0);
}

#[test]
fn scrollbar_setters_change_one_field_each() {
    let bar = ScrollbarState::default().content_length(7).position(3);
    assert_eq!(bar, ScrollbarState { content_length: 7, position: 3 });
    assert_eq!(bar.position(5).content_length, 7);
    assert_eq!(bar.content_length(9).position, 3);
    let mut cursor = RowCursor::default();
    assert_eq!(cursor.selected(), None);
    cursor.select(Some(4));
    assert_eq!(cursor.selected(), Some(4));
    cursor.select(None);
    assert_eq!(cursor.selected(), None);
}
