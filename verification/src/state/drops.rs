//! The drop panel: one material table for each pair of a rank and a source.

use crate::state::cursor::{lemma_full_turn, lemma_steps_invert};
use crate::state::cursor::{row_after, row_after_steps, row_before, step_back, step_forward};
use crate::state::cursor::{Rect, RowCursor, ScrollbarState};
use vstd::prelude::*;

verus! {

/// The rank whose materials are shown.
#[derive(Clone, Copy, Debug, PartialEq, Eq, Structural)]
pub enum MonsterDropRankTab {
    LowRank,
    HighRank,
}

impl MonsterDropRankTab {
    /// The tab that a toggle shows next.
    pub open spec fn toggled(self) -> Self {
        match self {
            MonsterDropRankTab::LowRank => MonsterDropRankTab::HighRank,
            MonsterDropRankTab::HighRank => MonsterDropRankTab::LowRank,
        }
    }
}

impl Default for MonsterDropRankTab {
    fn default() -> (tab: Self)
        ensures
            tab == MonsterDropRankTab::LowRank,
    {
        MonsterDropRankTab::LowRank
    }
}

/// The way of obtaining whose materials are shown.
#[derive(Clone, Copy, Debug, PartialEq, Eq, Structural)]
pub enum MaterialSourceTab {
    Target,
    BrokenPart,
    WoundDestroy,
    Carve,
}

impl MaterialSourceTab {
    /// The tab that a toggle shows next.
    pub open spec fn toggled(self) -> Self {
        match self {
            MaterialSourceTab::Target => MaterialSourceTab::BrokenPart,
            MaterialSourceTab::BrokenPart => MaterialSourceTab::WoundDestroy,
            MaterialSourceTab::WoundDestroy => MaterialSourceTab::Carve,
            MaterialSourceTab::Carve => MaterialSourceTab::Target,
        }
    }
}

impl Default for MaterialSourceTab {
    fn default() -> (tab: Self)
        ensures
            tab == MaterialSourceTab::Target,
    {
        MaterialSourceTab::Target
    }
}

/// The two tabs of the drop panel, the highlighted row of the table with
/// its scrollbar, and the number of rows of each of the eight tables of the
/// shown record.
#[derive(Clone, Copy, Debug, PartialEq, Eq)]
pub struct MonsterDropTabState {
    pub selected_rank_tab: MonsterDropRankTab,
    pub selected_source_tab: MaterialSourceTab,
    pub table_state: RowCursor,
    pub scrollbar_state: ScrollbarState,
    pub low_target_len: u16,
    pub low_broken_part_len: u16,
    pub low_wound_destroy_len: u16,
    pub low_carve_len: u16,
    pub high_target_len: u16,
    pub high_broken_part_len: u16,
    pub high_wound_destroy_len: u16,
    pub high_carve_len: u16,
}

impl MonsterDropTabState {
    /// The panel before any record is shown: first tabs, no row, no rows.
    pub open spec fn initial() -> Self {
        MonsterDropTabState {
            selected_rank_tab: MonsterDropRankTab::LowRank,
            selected_source_tab: MaterialSourceTab::Target,
            table_state: RowCursor { selected: None },
            scrollbar_state: ScrollbarState { content_length: 0, position: 0 },
            low_target_len: 0,
            low_broken_part_len: 0,
            low_wound_destroy_len: 0,
            low_carve_len: 0,
            high_target_len: 0,
            high_broken_part_len: 0,
            high_wound_destroy_len: 0,
            high_carve_len: 0,
        }
    }

    /// The state with row `idx` highlighted and the scrollbar at that row.
    pub open spec fn at(self, idx: usize) -> Self {
        MonsterDropTabState {
            table_state: RowCursor { selected: Some(idx) },
            scrollbar_state: ScrollbarState { position: idx, ..self.scrollbar_state },
            ..self
        }
    }

    /// The number of rows of the table under the two selected tabs.
    pub open spec fn current_len(self) -> u16 {
        match self.selected_rank_tab {
            MonsterDropRankTab::LowRank => match self.selected_source_tab {
                MaterialSourceTab::Target => self.low_target_len,
                MaterialSourceTab::BrokenPart => self.low_broken_part_len,
                MaterialSourceTab::WoundDestroy => self.low_wound_destroy_len,
                MaterialSourceTab::Carve => self.low_carve_len,
            },
            MonsterDropRankTab::HighRank => match self.selected_source_tab {
                MaterialSourceTab::Target => self.high_target_len,
                MaterialSourceTab::BrokenPart => self.high_broken_part_len,
                MaterialSourceTab::WoundDestroy => self.high_wound_destroy_len,
                MaterialSourceTab::Carve => self.high_carve_len,
            },
        }
    }

    /// The state after a toggle of the rank tab.
    pub open spec fn after_toggle_rank(self) -> Self {
        MonsterDropTabState { selected_rank_tab: self.selected_rank_tab.toggled(), ..self.at(0) }
    }

    /// The state after a toggle of the source tab.
    pub open spec fn after_toggle_source(self) -> Self {
        MonsterDropTabState {
            selected_source_tab: self.selected_source_tab.toggled(),
            ..self.at(0)
        }
    }

    /// The state with the cursor on the first row and the first tab of each
    /// pair shown.
    pub open spec fn after_reset(self) -> Self {
        MonsterDropTabState {
            selected_rank_tab: MonsterDropRankTab::LowRank,
            selected_source_tab: MaterialSourceTab::Target,
            ..self.at(0)
        }
    }

    /// The state after `next`: the next row highlighted, the first one after
    /// the last; unchanged without rows.
    pub open spec fn after_next(self) -> Self {
        if self.current_len() == 0 {
            self
        } else {
            self.at(row_after(self.table_state.selected, self.current_len() as int))
        }
    }

    /// The state after `prev`: the row before highlighted, the last one
    /// before the first; unchanged without rows.
    pub open spec fn after_prev(self) -> Self {
        if self.current_len() == 0 {
            self
        } else {
            self.at(row_before(self.table_state.selected, self.current_len() as int))
        }
    }

    /// The state after `steps` calls of `next`.
    pub open spec fn after_next_steps(self, steps: nat) -> Self
        decreases steps,
    {
        if steps == 0 {
            self
        } else {
            self.after_next_steps((steps - 1) as nat).after_next()
        }
    }

    /// The scrollbar spans the table when its rows, three lines each, take
    /// more than fits between the borders of an area of `height` rows, and
    /// spans nothing otherwise.
    pub open spec fn after_set_scrollbar_height(self, height: u16) -> Self {
        MonsterDropTabState {
            scrollbar_state: ScrollbarState {
                content_length: if self.current_len() * 3 > height - 2 {
                    self.current_len() as usize
                } else {
                    0
                },
                ..self.scrollbar_state
            },
            ..self
        }
    }

    /// Shows the other rank, with the cursor on the first row.
    pub fn toggle_selected_rank_tab(&mut self)
        ensures
            *final(self) == old(self).after_toggle_rank(),
            final(self).table_state.selected == Some(0usize),
    {
        match self.selected_rank_tab {
            MonsterDropRankTab::LowRank => { self.selected_rank_tab = MonsterDropRankTab::HighRank },
            MonsterDropRankTab::HighRank => { self.selected_rank_tab = MonsterDropRankTab::LowRank },
        }
        self.table_state.select(Some(0));
        self.scrollbar_state = self.scrollbar_state.position(0);
    }

    /// Shows the next source, the first one after the last, with the cursor
    /// on the first row.
    pub fn toggle_selected_source_tab(&mut self)
        ensures
            *final(self) == old(self).after_toggle_source(),
            final(self).table_state.selected == Some(0usize),
    {
        match self.selected_source_tab {
            MaterialSourceTab::Target => { self.selected_source_tab = MaterialSourceTab::BrokenPart },
            MaterialSourceTab::BrokenPart => {
                self.selected_source_tab = MaterialSourceTab::WoundDestroy
            },
            MaterialSourceTab::WoundDestroy => {
                self.selected_source_tab = MaterialSourceTab::Carve
            },
            MaterialSourceTab::Carve => { self.selected_source_tab = MaterialSourceTab::Target },
        }
        self.table_state.select(Some(0));
        self.scrollbar_state = self.scrollbar_state.position(0);
    }

    /// Sizes the scrollbar for the area that the renderer reports.
    pub fn set_scrollbar_height(&mut self, area: Rect)
        requires
            area.height >= 2,
            old(self).current_len() * 3 <= u16::MAX,
        ensures
            *final(self) == old(self).after_set_scrollbar_height(area.height),
    {
        if self.get_current_data_use_len() * 3 > area.height - 2 {
            self.scrollbar_state = self.scrollbar_state.content_length(
                self.get_current_data_use_len() as usize,
            );
        } else {
            self.scrollbar_state = self.scrollbar_state.content_length(0);
        }
    }

    /// Highlights the next row, the first one after the last. A table
    /// without rows is left as it is.
    pub fn next(&mut self)
        ensures
            *final(self) == old(self).after_next(),
    {
        let len = self.get_current_data_use_len();
        if len == 0 {
            return ;
        }
        let idx = step_forward(self.table_state.selected(), len as usize);
        self.select(idx);
    }

    /// Highlights the row before, the last one before the first. A table
    /// without rows is left as it is.
    pub fn prev(&mut self)
        ensures
            *final(self) == old(self).after_prev(),
    {
        let len = self.get_current_data_use_len();
        if len == 0 {
            return ;
        }
        let idx = step_back(self.table_state.selected(), len as usize);
        self.select(idx);
    }

    /// The number of rows of the table under the two selected tabs.
    pub fn get_current_data_use_len(&self) -> (len: u16)
        ensures
            len == self.current_len(),
    {
        match self.selected_rank_tab {
            MonsterDropRankTab::LowRank => match self.selected_source_tab {
                MaterialSourceTab::Target => self.low_target_len,
                MaterialSourceTab::BrokenPart => self.low_broken_part_len,
                MaterialSourceTab::WoundDestroy => self.low_wound_destroy_len,
                MaterialSourceTab::Carve => self.low_carve_len,
            },
            MonsterDropRankTab::HighRank => match self.selected_source_tab {
                MaterialSourceTab::Target => self.high_target_len,
                MaterialSourceTab::BrokenPart => self.high_broken_part_len,
                MaterialSourceTab::WoundDestroy => self.high_wound_destroy_len,
                MaterialSourceTab::Carve => self.high_carve_len,
            },
        }
    }

    /// Highlights row `idx`, whether or not there is such a row.
    pub fn select(&mut self, idx: usize)
        ensures
            *final(self) == old(self).at(idx),
    {
        self.table_state.select(Some(idx));
        self.scrollbar_state = self.scrollbar_state.position(idx);
    }

    /// Back to the first row of the first table.
    pub fn reset(&mut self)
        ensures
            *final(self) == old(self).after_reset(),
    {
        self.table_state.select(Some(0));
        self.scrollbar_state = self.scrollbar_state.position(0);
        self.selected_rank_tab = MonsterDropRankTab::LowRank;
        self.selected_source_tab = MaterialSourceTab::Target;
    }

    /// On a row of the shown table, `prev` undoes `next` and `next` undoes
    /// `prev`.
    pub proof fn lemma_prev_inverts_next(self, row: usize)
        requires
            self == self.at(row),
            row < self.current_len(),
        ensures
            self.after_next().after_prev() == self,
            self.after_prev().after_next() == self,
    {
    }

    /// In a table without rows neither `next` nor `prev` changes anything.
    pub proof fn lemma_empty_no_change(self)
        requires
            self.current_len() == 0,
        ensures
            self.after_next() == self,
            self.after_prev() == self,
    {
    }

    proof fn lemma_steps_follow_rows(self, row: usize, steps: nat)
        requires
            self == self.at(row),
            row < self.current_len(),
        ensures
            self.after_next_steps(steps) == self.at(
                row_after_steps(row, self.current_len() as int, steps),
            ),
            row_after_steps(row, self.current_len() as int, steps) < self.current_len(),
        decreases steps,
    {
        if steps > 0 {
            self.lemma_steps_follow_rows(row, (steps - 1) as nat);
            let before = row_after_steps(row, self.current_len() as int, (steps - 1) as nat);
            lemma_steps_invert(before, self.current_len() as int);
        }
    }

    /// On a row of the shown table, as many calls of `next` as the table has
    /// rows lead back to the row they started from.
    pub proof fn lemma_next_full_turn(self, row: usize)
        requires
            self == self.at(row),
            row < self.current_len(),
        ensures
            self.after_next_steps(self.current_len() as nat) == self,
    {
        self.lemma_steps_follow_rows(row, self.current_len() as nat);
        lemma_full_turn(row, self.current_len() as int);
    }

    /// Either toggle leaves the cursor on the first row, wherever it was.
    pub proof fn lemma_toggle_rewinds(self)
        ensures
            self.after_toggle_rank().table_state.selected == Some(0usize),
            self.after_toggle_source().table_state.selected == Some(0usize),
            self.after_toggle_rank().scrollbar_state.position == 0,
            self.after_toggle_source().scrollbar_state.position == 0,
    {
    }
}

impl Default for MonsterDropTabState {
    fn default() -> (state: Self)
        ensures
            state == MonsterDropTabState::initial(),
    {
        MonsterDropTabState {
            selected_rank_tab: MonsterDropRankTab::LowRank,
            selected_source_tab: MaterialSourceTab::Target,
            table_state: RowCursor::default(),
            scrollbar_state: ScrollbarState::default(),
            low_target_len: 0,
            low_broken_part_len: 0,
            low_wound_destroy_len: 0,
            low_carve_len: 0,
            high_target_len: 0,
            high_broken_part_len: 0,
            high_wound_destroy_len: 0,
            high_carve_len: 0,
        }
    }
}

} // verus!
