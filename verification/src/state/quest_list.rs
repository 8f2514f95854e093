//! The list of quests in which the shown monster appears.

use crate::state::cursor::{lemma_full_turn, lemma_steps_invert};
use crate::state::cursor::{row_after_steps, row_before, step_back, succ};
use crate::state::cursor::{Rect, RowCursor, ScrollbarState};
use vstd::prelude::*;

verus! {

/// The highlighted quest, the scrollbar beside the list, and the number of
/// quests of the shown record.
#[derive(Clone, Copy, Debug, PartialEq, Eq)]
pub struct MonsterOnQuestListState {
    pub list_state: RowCursor,
    pub scrollbar_state: ScrollbarState,
    pub list_len: u16,
}

impl MonsterOnQuestListState {
    /// The state with row `idx` highlighted and the scrollbar at that row.
    pub open spec fn at(self, idx: usize) -> Self {
        MonsterOnQuestListState {
            list_state: RowCursor { selected: Some(idx) },
            scrollbar_state: ScrollbarState { position: idx, ..self.scrollbar_state },
            ..self
        }
    }

    /// The state with `list_len` quests and nothing else changed.
    pub open spec fn with_len(self, list_len: u16) -> Self {
        MonsterOnQuestListState { list_len, ..self }
    }

    /// The row that `next` highlights in a list that is not empty: the first
    /// row from the last one and from no row, else the row after.
    pub open spec fn row_after_next(self) -> usize {
        match self.list_state.selected {
            Some(row) => if row as u16 == self.list_len - 1 {
                0
            } else {
                succ(row)
            },
            None => 0,
        }
    }

    /// The state after `next`: the next row highlighted, the first one after
    /// the last; unchanged without rows.
    pub open spec fn after_next(self) -> Self {
        if self.list_len == 0 {
            self
        } else {
            self.at(self.row_after_next())
        }
    }

    /// The state after `prev`: the row before highlighted, the last one
    /// before the first; unchanged without rows.
    pub open spec fn after_prev(self) -> Self {
        if self.list_len == 0 {
            self
        } else {
            self.at(row_before(self.list_state.selected, self.list_len as int))
        }
    }

    /// The state after `steps` calls of `next`.
    pub open spec fn after_next_steps(self, steps: nat) -> Self
        decreases steps,
    {
        if steps == 0 {
            self
        } else {
            self.after_next_steps((steps - 1) as nat).after_next()
        }
    }

    /// The scrollbar spans the list when the list has more rows than fit
    /// between the borders of an area of `height` rows.
    pub open spec fn after_set_scrollbar_height(self, height: u16) -> Self {
        if self.list_len > height - 2 {
            MonsterOnQuestListState {
                scrollbar_state: ScrollbarState {
                    content_length: self.list_len as usize,
                    ..self.scrollbar_state
                },
                ..self
            }
        } else {
            self
        }
    }

    /// Sizes the scrollbar for the area that the renderer reports.
    pub fn set_scrollbar_height(&mut self, area: Rect)
        requires
            area.height >= 2,
        ensures
            *final(self) == old(self).after_set_scrollbar_height(area.height),
    {
        if self.list_len > (area.height - 2) {
            self.scrollbar_state = self.scrollbar_state.content_length(self.list_len as usize);
        }
    }

    /// Highlights the next quest, the first one after the last. An empty
    /// list is left as it is.
    pub fn next(&mut self)
        ensures
            *final(self) == old(self).after_next(),
    {
        if self.list_len == 0 {
            return ;
        }
        let idx = if let Some(i) = self.list_state.selected() {
            if i as u16 == self.list_len - 1 {
                0
            } else {
                i.saturating_add(1)
            }
        } else {
            0
        };
        self.select(idx);
    }

    /// Highlights the quest before, the last one before the first. An empty
    /// list is left as it is.
    pub fn prev(&mut self)
        ensures
            *final(self) == old(self).after_prev(),
    {
        if self.list_len == 0 {
            return ;
        }
        let idx = step_back(self.list_state.selected(), self.list_len as usize);
        self.select(idx);
    }

    /// Highlights row `idx`, whether or not there is such a row.
    pub fn select(&mut self, idx: usize)
        ensures
            *final(self) == old(self).at(idx),
    {
        self.list_state.select(Some(idx));
        self.scrollbar_state = self.scrollbar_state.position(idx);
    }

    /// Back to the first quest.
    pub fn reset(&mut self)
        ensures
            *final(self) == old(self).at(0),
    {
        self.list_state.select(Some(0));
        self.scrollbar_state = self.scrollbar_state.position(0);
    }

    /// On a row of the list, `prev` undoes `next` and `next` undoes `prev`.
    pub proof fn lemma_prev_inverts_next(self, row: usize)
        requires
            self == self.at(row),
            row < self.list_len,
        ensures
            self.after_next().after_prev() == self,
            self.after_prev().after_next() == self,
    {
    }

    proof fn lemma_steps_follow_rows(self, row: usize, steps: nat)
        requires
            self == self.at(row),
            row < self.list_len,
        ensures
            self.after_next_steps(steps) == self.at(
                row_after_steps(row, self.list_len as int, steps),
            ),
            row_after_steps(row, self.list_len as int, steps) < self.list_len,
        decreases steps,
    {
        if steps > 0 {
            self.lemma_steps_follow_rows(row, (steps - 1) as nat);
            let before = row_after_steps(row, self.list_len as int, (steps - 1) as nat);
            lemma_steps_invert(before, self.list_len as int);
        }
    }

    /// On a row of the list, as many calls of `next` as the list has rows
    /// lead back to the row they started from.
    pub proof fn lemma_next_full_turn(self, row: usize)
        requires
            self == self.at(row),
            row < self.list_len,
        ensures
            self.after_next_steps(self.list_len as nat) == self,
    {
        self.lemma_steps_follow_rows(row, self.list_len as nat);
        lemma_full_turn(row, self.list_len as int);
    }

    /// In an empty list neither `next` nor `prev` changes anything.
    pub proof fn lemma_empty_no_change(self)
        requires
            self.list_len == 0,
        ensures
            self.after_next() == self,
            self.after_prev() == self,
    {
    }
}

impl Default for MonsterOnQuestListState {
    fn default() -> (state: Self)
        ensures
            state == (MonsterOnQuestListState {
                list_state: RowCursor { selected: None },
                scrollbar_state: ScrollbarState { content_length: 0, position: 0 },
                list_len: 0,
            }),
    {
        MonsterOnQuestListState {
            list_state: RowCursor::default(),
            scrollbar_state: ScrollbarState::default(),
            list_len: 0,
        }
    }
}

} // verus!
