//! The weakness panel: a damage table under a weapon/element tab, and the
//! ailment/item tab beside it.

use crate::state::cursor::{lemma_full_turn, lemma_steps_invert};
use crate::state::cursor::{row_after, row_after_steps, row_before, step_back, step_forward};
use crate::state::cursor::{Rect, RowCursor, ScrollbarState};
use vstd::prelude::*;

verus! {

/// Which columns the damage table shows.
#[derive(Clone, Copy, Debug, PartialEq, Eq, Structural)]
pub enum MonsterWeaknessTab {
    WeaponDamage,
    ElementDamage,
}

impl MonsterWeaknessTab {
    /// The tab that a toggle shows next.
    pub open spec fn toggled(self) -> Self {
        match self {
            MonsterWeaknessTab::WeaponDamage => MonsterWeaknessTab::ElementDamage,
            MonsterWeaknessTab::ElementDamage => MonsterWeaknessTab::WeaponDamage,
        }
    }
}

impl Default for MonsterWeaknessTab {
    fn default() -> (tab: Self)
        ensures
            tab == MonsterWeaknessTab::WeaponDamage,
    {
        MonsterWeaknessTab::WeaponDamage
    }
}

/// Which of the two fixed tables is shown.
#[derive(Clone, Copy, Debug, PartialEq, Eq, Structural)]
pub enum MonsterStatusAndItemWeaknessTab {
    Status,
    Item,
}

impl MonsterStatusAndItemWeaknessTab {
    /// The tab that a toggle shows next.
    pub open spec fn toggled(self) -> Self {
        match self {
            MonsterStatusAndItemWeaknessTab::Status => MonsterStatusAndItemWeaknessTab::Item,
            MonsterStatusAndItemWeaknessTab::Item => MonsterStatusAndItemWeaknessTab::Status,
        }
    }
}

impl Default for MonsterStatusAndItemWeaknessTab {
    fn default() -> (tab: Self)
        ensures
            tab == MonsterStatusAndItemWeaknessTab::Status,
    {
        MonsterStatusAndItemWeaknessTab::Status
    }
}

/// The two tabs of the weakness panel, the highlighted row of the damage
/// table with its scrollbar, and the number of rows of the shown record.
#[derive(Clone, Copy, Debug, PartialEq, Eq)]
pub struct MonsterWeaknessTabState {
    pub selected_weapon_elm_tab: MonsterWeaknessTab,
    pub selected_status_item_tab: MonsterStatusAndItemWeaknessTab,
    pub table_state: RowCursor,
    pub scrollbar_state: ScrollbarState,
    pub damage_data_len: u16,
}

impl MonsterWeaknessTabState {
    /// The panel before any record is shown: first tabs, no row, no rows.
    pub open spec fn initial() -> Self {
        MonsterWeaknessTabState {
            selected_weapon_elm_tab: MonsterWeaknessTab::WeaponDamage,
            selected_status_item_tab: MonsterStatusAndItemWeaknessTab::Status,
            table_state: RowCursor { selected: None },
            scrollbar_state: ScrollbarState { content_length: 0, position: 0 },
            damage_data_len: 0,
        }
    }

    /// The state with row `idx` highlighted and the scrollbar at that row.
    pub open spec fn at(self, idx: usize) -> Self {
        MonsterWeaknessTabState {
            table_state: RowCursor { selected: Some(idx) },
            scrollbar_state: ScrollbarState { position: idx, ..self.scrollbar_state },
            ..self
        }
    }

    /// The state with `damage_data_len` rows and nothing else changed.
    pub open spec fn with_len(self, damage_data_len: u16) -> Self {
        MonsterWeaknessTabState { damage_data_len, ..self }
    }

    /// The state after a toggle of the ailment and item tab.
    pub open spec fn after_toggle_ailment_item(self) -> Self {
        MonsterWeaknessTabState {
            selected_status_item_tab: self.selected_status_item_tab.toggled(),
            ..self.at(0)
        }
    }

    /// The state after a toggle of the weapon and element tab.
    pub open spec fn after_toggle_weapon_elm(self) -> Self {
        MonsterWeaknessTabState {
            selected_weapon_elm_tab: self.selected_weapon_elm_tab.toggled(),
            ..self.at(0)
        }
    }

    /// The state with the cursor on the first row and the first tab of each
    /// pair shown.
    pub open spec fn after_reset(self) -> Self {
        MonsterWeaknessTabState {
            selected_status_item_tab: MonsterStatusAndItemWeaknessTab::Status,
            selected_weapon_elm_tab: MonsterWeaknessTab::WeaponDamage,
            ..self.at(0)
        }
    }

    /// The state after `next`: the next row highlighted, the first one after
    /// the last; unchanged without rows.
    pub open spec fn after_next(self) -> Self {
        if self.damage_data_len == 0 {
            self
        } else {
            self.at(row_after(self.table_state.selected, self.damage_data_len as int))
        }
    }

    /// The state after `prev`: the row before highlighted, the last one
    /// before the first; unchanged without rows.
    pub open spec fn after_prev(self) -> Self {
        if self.damage_data_len == 0 {
            self
        } else {
            self.at(row_before(self.table_state.selected, self.damage_data_len as int))
        }
    }

    /// The state after `steps` calls of `next`.
    pub open spec fn after_next_steps(self, steps: nat) -> Self
        decreases steps,
    {
        if steps == 0 {
            self
        } else {
            self.after_next_steps((steps - 1) as nat).after_next()
        }
    }

    /// The scrollbar spans the table when its rows, three lines each, take
    /// more than fits between the borders of an area of `height` rows.
    pub open spec fn after_set_scrollbar_height(self, height: u16) -> Self {
        if self.damage_data_len * 3 > height - 2 {
            MonsterWeaknessTabState {
                scrollbar_state: ScrollbarState {
                    content_length: self.damage_data_len as usize,
                    ..self.scrollbar_state
                },
                ..self
            }
        } else {
            self
        }
    }

    /// Shows the other of the ailment and item tables, with the cursor on
    /// the first row.
    pub fn toggle_selected_ailment_item_tab(&mut self)
        ensures
            *final(self) == old(self).after_toggle_ailment_item(),
            final(self).table_state.selected == Some(0usize),
    {
        match self.selected_status_item_tab {
            MonsterStatusAndItemWeaknessTab::Status => {
                self.selected_status_item_tab = MonsterStatusAndItemWeaknessTab::Item
            },
            MonsterStatusAndItemWeaknessTab::Item => {
                self.selected_status_item_tab = MonsterStatusAndItemWeaknessTab::Status
            },
        }
        self.table_state.select(Some(0));
        self.scrollbar_state = self.scrollbar_state.position(0);
    }

    /// Shows the other of the weapon and element columns, with the cursor
    /// on the first row.
    pub fn toggle_selected_weapon_elm_tab(&mut self)
        ensures
            *final(self) == old(self).after_toggle_weapon_elm(),
            final(self).table_state.selected == Some(0usize),
    {
        match self.selected_weapon_elm_tab {
            MonsterWeaknessTab::WeaponDamage => {
                self.selected_weapon_elm_tab = MonsterWeaknessTab::ElementDamage
            },
            MonsterWeaknessTab::ElementDamage => {
                self.selected_weapon_elm_tab = MonsterWeaknessTab::WeaponDamage
            },
        }
        self.table_state.select(Some(0));
        self.scrollbar_state = self.scrollbar_state.position(0);
    }

    /// Back to the first row and the first tab of each pair.
    pub fn reset(&mut self)
        ensures
            *final(self) == old(self).after_reset(),
    {
        self.table_state.select(Some(0));
        self.scrollbar_state = self.scrollbar_state.position(0);
        self.selected_status_item_tab = MonsterStatusAndItemWeaknessTab::Status;
        self.selected_weapon_elm_tab = MonsterWeaknessTab::WeaponDamage;
    }

    /// Sizes the scrollbar for the area that the renderer reports.
    pub fn set_scrollbar_height(&mut self, area: Rect)
        requires
            area.height >= 2,
        ensures
            *final(self) == old(self).after_set_scrollbar_height(area.height),
    {
        if (self.damage_data_len as usize) * 3 > area.height as usize - 2 {
            self.scrollbar_state = self.scrollbar_state.content_length(
                self.damage_data_len as usize,
            );
        }
    }

    /// Highlights the next row, the first one after the last. A table
    /// without rows is left as it is.
    pub fn next(&mut self)
        ensures
            *final(self) == old(self).after_next(),
    {
        if self.damage_data_len == 0 {
            return ;
        }
        let idx = step_forward(self.table_state.selected(), self.damage_data_len as usize);
        self.select(idx);
    }

    /// Highlights the row before, the last one before the first. A table
    /// without rows is left as it is.
    pub fn prev(&mut self)
        ensures
            *final(self) == old(self).after_prev(),
    {
        if self.damage_data_len == 0 {
            return ;
        }
        let idx = step_back(self.table_state.selected(), self.damage_data_len as usize);
        self.select(idx);
    }

    /// Highlights row `idx`, whether or not there is such a row.
    pub fn select(&mut self, idx: usize)
        ensures
            *final(self) == old(self).at(idx),
    {
        self.table_state.select(Some(idx));
        self.scrollbar_state = self.scrollbar_state.position(idx);
    }

    /// On a row of the table, `prev` undoes `next` and `next` undoes `prev`.
    pub proof fn lemma_prev_inverts_next(self, row: usize)
        requires
            self == self.at(row),
            row < self.damage_data_len,
        ensures
            self.after_next().after_prev() == self,
            self.after_prev().after_next() == self,
    {
    }

    /// In a table without rows neither `next` nor `prev` changes anything.
    pub proof fn lemma_empty_no_change(self)
        requires
            self.damage_data_len == 0,
        ensures
            self.after_next() == self,
            self.after_prev() == self,
    {
    }

    proof fn lemma_steps_follow_rows(self, row: usize, steps: nat)
        requires
            self == self.at(row),
            row < self.damage_data_len,
        ensures
            self.after_next_steps(steps) == self.at(
                row_after_steps(row, self.damage_data_len as int, steps),
            ),
            row_after_steps(row, self.damage_data_len as int, steps) < self.damage_data_len,
        decreases steps,
    {
        if steps > 0 {
            self.lemma_steps_follow_rows(row, (steps - 1) as nat);
            let before = row_after_steps(row, self.damage_data_len as int, (steps - 1) as nat);
            lemma_steps_invert(before, self.damage_data_len as int);
        }
    }

    /// On a row of the table, as many calls of `next` as the table has rows
    /// lead back to the row they started from.
    pub proof fn lemma_next_full_turn(self, row: usize)
        requires
            self == self.at(row),
            row < self.damage_data_len,
        ensures
            self.after_next_steps(self.damage_data_len as nat) == self,
    {
        self.lemma_steps_follow_rows(row, self.damage_data_len as nat);
        lemma_full_turn(row, self.damage_data_len as int);
    }

    /// Either toggle leaves the cursor on the first row, wherever it was.
    pub proof fn lemma_toggle_rewinds(self)
        ensures
            self.after_toggle_weapon_elm().table_state.selected == Some(0usize),
            self.after_toggle_ailment_item().table_state.selected == Some(0usize),
            self.after_toggle_weapon_elm().scrollbar_state.position == 0,
            self.after_toggle_ailment_item().scrollbar_state.position == 0,
    {
    }
}

impl Default for MonsterWeaknessTabState {
    fn default() -> (state: Self)
        ensures
            state == MonsterWeaknessTabState::initial(),
    {
        MonsterWeaknessTabState {
            selected_weapon_elm_tab: MonsterWeaknessTab::WeaponDamage,
            selected_status_item_tab: MonsterStatusAndItemWeaknessTab::Status,
            table_state: RowCursor::default(),
            scrollbar_state: ScrollbarState::default(),
            damage_data_len: 0,
        }
    }
}

} // verus!
