//! The application state and its parts.

pub mod cursor;
pub mod drops;
pub mod habitat;
pub mod input;
pub mod monster_list;
pub mod paragraph;
pub mod quest_list;
pub mod weakness;

use crate::state::drops::{MaterialSourceTab, MonsterDropRankTab};
use crate::state::input::FilterInput;
use crate::state::monster_list::MonsterListState;
use crate::state::weakness::{MonsterStatusAndItemWeaknessTab, MonsterWeaknessTab};
use vstd::prelude::*;

verus! {

/// The entries of the main menu.
#[derive(Clone, Copy, Debug, PartialEq, Eq, Structural)]
pub enum MainMenuOption {
    Monster,
    Quest,
    Weapon,
    Armor,
}

impl MainMenuOption {
    /// The entry below, the first one below the last.
    pub open spec fn successor(self) -> Self {
        match self {
            MainMenuOption::Monster => MainMenuOption::Quest,
            MainMenuOption::Quest => MainMenuOption::Weapon,
            MainMenuOption::Weapon => MainMenuOption::Armor,
            MainMenuOption::Armor => MainMenuOption::Monster,
        }
    }

    /// The entry above, the last one above the first.
    pub open spec fn predecessor(self) -> Self {
        match self {
            MainMenuOption::Monster => MainMenuOption::Armor,
            MainMenuOption::Quest => MainMenuOption::Monster,
            MainMenuOption::Weapon => MainMenuOption::Quest,
            MainMenuOption::Armor => MainMenuOption::Weapon,
        }
    }

    /// The screen that the entry opens.
    pub open spec fn screen(self) -> CurrentScreen {
        match self {
            MainMenuOption::Monster => CurrentScreen::Monster,
            MainMenuOption::Quest => CurrentScreen::Quest,
            MainMenuOption::Weapon => CurrentScreen::Weapon,
            MainMenuOption::Armor => CurrentScreen::Armor,
        }
    }

    /// The entry below, the first one below the last.
    pub fn next(self) -> (entry: Self)
        ensures
            entry == self.successor(),
    {
        match self {
            MainMenuOption::Monster => MainMenuOption::Quest,
            MainMenuOption::Quest => MainMenuOption::Weapon,
            MainMenuOption::Weapon => MainMenuOption::Armor,
            MainMenuOption::Armor => MainMenuOption::Monster,
        }
    }

    /// The entry above, the last one above the first.
    pub fn prev(self) -> (entry: Self)
        ensures
            entry == self.predecessor(),
    {
        match self {
            MainMenuOption::Monster => MainMenuOption::Armor,
            MainMenuOption::Quest => MainMenuOption::Monster,
            MainMenuOption::Weapon => MainMenuOption::Quest,
            MainMenuOption::Armor => MainMenuOption::Weapon,
        }
    }

    /// Four steps down the menu, as many as it has entries, lead back to
    /// the entry they started from; a step up undoes a step down, and a
    /// step down a step up.
    pub proof fn lemma_menu_cycles(self)
        ensures
            self.successor().successor().successor().successor() == self,
            self.successor().predecessor() == self,
            self.predecessor().successor() == self,
    {
    }
}

impl Default for MainMenuOption {
    fn default() -> (entry: Self)
        ensures
            entry == MainMenuOption::Monster,
    {
        MainMenuOption::Monster
    }
}

/// The screen that is shown. Only the main menu and the monster browser
/// react to keys; the other screens are reserved.
#[derive(Clone, Copy, Debug, PartialEq, Eq, Structural)]
pub enum CurrentScreen {
    Main,
    Monster,
    Quest,
    Weapon,
    Armor,
}

impl Default for CurrentScreen {
    fn default() -> (screen: Self)
        ensures
            screen == CurrentScreen::Main,
    {
        CurrentScreen::Main
    }
}

/// Whether keys navigate or go into the filter box.
#[derive(Clone, Copy, Debug, PartialEq, Eq, Structural)]
pub enum InputMode {
    Normal,
    Editing,
}

impl Default for InputMode {
    fn default() -> (mode: Self)
        ensures
            mode == InputMode::Normal,
    {
        InputMode::Normal
    }
}

/// The input mode and the cell of the caret, if one is shown.
#[derive(Clone, Copy, Debug, PartialEq, Eq)]
pub struct TuiState {
    pub input_mode: InputMode,
    pub cursor: Option<(u16, u16)>,
}

impl Default for TuiState {
    fn default() -> (state: Self)
        ensures
            state == (TuiState { input_mode: InputMode::Normal, cursor: None }),
    {
        TuiState { input_mode: InputMode::Normal, cursor: None }
    }
}

/// What key handling keeps between events: the buffer of the filter box.
pub struct KeyHandleState {
    pub input: FilterInput,
}

impl Default for KeyHandleState {
    fn default() -> (state: Self)
        ensures
            state.input.value@ == Seq::<char>::empty(),
            state.input.cursor == 0,
    {
        KeyHandleState { input: FilterInput::default() }
    }
}

/// The whole state of the application. The event loop owns it and hands it
/// to the key handler for one event at a time.
pub struct AppState {
    pub tui_state: TuiState,
    pub key_handle: KeyHandleState,
    pub current_screen: CurrentScreen,
    pub main_menu: MainMenuOption,
    pub monster_list: MonsterListState,
}

impl AppState {
    /// The state is consistent: the browser is, and the text of the filter
    /// box is the filter of the list.
    pub open spec fn wf(self) -> bool {
        &&& self.monster_list.wf()
        &&& self.key_handle.input.value@ == self.monster_list.filter_query@
    }

    /// `after` is `self` with `text` in the filter box, the caret at
    /// `cursor`, the list filtered by `text`, and every panel at its first
    /// position. The screen, the menu entry and the input mode stay.
    pub open spec fn edits(self, text: Seq<char>, cursor: usize, after: Self) -> bool {
        &&& after.tui_state == self.tui_state
        &&& after.key_handle.input.value@ == text
        &&& after.key_handle.input.cursor == cursor
        &&& after.current_screen == self.current_screen
        &&& after.main_menu == self.main_menu
        &&& self.monster_list.after_reset().refilters(text, after.monster_list)
    }

    /// `after` is `self` in normal mode, with an empty filter box, the
    /// whole dataset listed and its first record selected, and every panel
    /// at its first position. The screen and the menu entry stay.
    pub open spec fn resets(self, after: Self) -> bool {
        &&& after.tui_state == (TuiState { input_mode: InputMode::Normal, ..self.tui_state })
        &&& after.key_handle.input.value@ == Seq::<char>::empty()
        &&& after.key_handle.input.cursor == 0
        &&& after.current_screen == self.current_screen
        &&& after.main_menu == self.main_menu
        &&& self.monster_list.after_reset().refilters(Seq::<char>::empty(), after.monster_list)
    }

    /// A reset of the application leaves the filter box empty and the input
    /// mode normal, lists the whole dataset, and puts every panel at its
    /// first position. The selection is not rewound with the panels: it is
    /// the filter, here the empty one, that selects the first of the
    /// records it lists.
    pub proof fn lemma_reset_rewinds(self, after: Self)
        requires
            self.resets(after),
        ensures
            after.key_handle.input.value@.len() == 0,
            after.monster_list.filter_query@.len() == 0,
            after.tui_state.input_mode == InputMode::Normal,
            after.monster_list.visible() == self.monster_list.bundle@,
            after.monster_list.desc_scrollbar_state.position == 0,
            after.monster_list.habitat_page_state.habitat_current_page == 0,
            after.monster_list.monster_on_quest_list_state.list_state.selected == Some(0usize),
            after.monster_list.monster_weakness_tab_state.table_state.selected == Some(0usize),
            after.monster_list.monster_weakness_tab_state.selected_weapon_elm_tab
                == MonsterWeaknessTab::WeaponDamage,
            after.monster_list.monster_weakness_tab_state.selected_status_item_tab
                == MonsterStatusAndItemWeaknessTab::Status,
            after.monster_list.monster_drops_tab_state.table_state.selected == Some(0usize),
            after.monster_list.monster_drops_tab_state.selected_rank_tab
                == MonsterDropRankTab::LowRank,
            after.monster_list.monster_drops_tab_state.selected_source_tab
                == MaterialSourceTab::Target,
            self.monster_list.after_reset().list_state == self.monster_list.list_state,
            after.monster_list.list_state.selected == (if self.monster_list.bundle@.len() > 0 {
                Some(0usize)
            } else {
                None
            }),
    {
    }

    /// The application on its main menu, in normal mode, over the browser
    /// `monster_list`.
    pub fn new(monster_list: MonsterListState) -> (app: Self)
        ensures
            monster_list.wf() && monster_list.filter_query@.len() == 0 ==> app.wf(),
            app.monster_list == monster_list,
            app.tui_state == (TuiState { input_mode: InputMode::Normal, cursor: None }),
            app.key_handle.input.value@ == Seq::<char>::empty(),
            app.key_handle.input.cursor == 0,
            app.current_screen == CurrentScreen::Main,
            app.main_menu == MainMenuOption::Monster,
    {
        let app = AppState {
            tui_state: TuiState::default(),
            key_handle: KeyHandleState::default(),
            current_screen: CurrentScreen::Main,
            main_menu: MainMenuOption::Monster,
            monster_list,
        };
        assert(app.monster_list.filter_query@.len() == 0 ==> app.key_handle.input.value@
            =~= app.monster_list.filter_query@);
        app
    }

    /// Leaves the filter box: normal mode, no filter text, the whole
    /// dataset listed with its first record selected, every panel at its
    /// first position.
    pub fn reset(&mut self)
        ensures
            old(self).resets(*final(self)),
            final(self).monster_list.visible() == old(self).monster_list.bundle@,
            final(self).monster_list.sized_for(*final(self).monster_list.current_data),
            old(self).monster_list.bundle@.len() > 0 ==> final(self).wf(),
    {
        self.tui_state.input_mode = InputMode::Normal;
        self.key_handle.input.reset();
        self.monster_list.set_list_filter(String::new());
        self.monster_list.reset();
    }

    /// Takes over the text and the caret that the filter box has after an
    /// edit: the list is filtered by `value`, and every panel goes back to
    /// its first position.
    pub fn apply_filter_edit(&mut self, value: String, cursor: usize)
        ensures
            old(self).edits(value@, cursor, *final(self)),
            final(self).monster_list.sized_for(*final(self).monster_list.current_data),
            old(self).monster_list.bundle@.len() > 0 ==> final(self).wf(),
    {
        self.key_handle.input.value = value.clone();
        self.key_handle.input.cursor = cursor;
        self.monster_list.set_list_filter(value);
        self.monster_list.reset();
    }
}

} // verus!
