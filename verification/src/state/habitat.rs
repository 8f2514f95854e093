//! The pages of the habitat panel, one page per habitat of the record.

use crate::state::cursor::{lemma_full_turn, lemma_steps_invert, row_after_steps};
use vstd::prelude::*;

verus! {

/// The page shown and the number of pages.
#[derive(Clone, Copy, Debug, PartialEq, Eq)]
pub struct ChangeableHabitatPageState {
    pub habitat_total_page: u8,
    pub habitat_current_page: u8,
}

impl ChangeableHabitatPageState {
    /// The page shown is one of the pages.
    pub open spec fn on_a_page(self) -> bool {
        self.habitat_current_page < self.habitat_total_page
    }

    /// The state on page `page`.
    pub open spec fn at(self, page: u8) -> Self {
        ChangeableHabitatPageState { habitat_current_page: page, ..self }
    }

    /// The next page, the first one after the last; unchanged without pages.
    pub open spec fn after_next(self) -> Self {
        if self.habitat_total_page == 0 {
            self
        } else if self.habitat_current_page == self.habitat_total_page - 1 {
            self.at(0)
        } else {
            self.at((self.habitat_current_page + 1) as u8)
        }
    }

    /// The page before, the last one before the first; unchanged without
    /// pages.
    pub open spec fn after_prev(self) -> Self {
        if self.habitat_total_page == 0 {
            self
        } else if self.habitat_current_page == 0 {
            self.at((self.habitat_total_page - 1) as u8)
        } else {
            self.at((self.habitat_current_page - 1) as u8)
        }
    }

    /// The state after `steps` calls of `next`.
    pub open spec fn after_next_steps(self, steps: nat) -> Self
        decreases steps,
    {
        if steps == 0 {
            self
        } else {
            self.after_next_steps((steps - 1) as nat).after_next()
        }
    }

    /// Back to the first page.
    pub fn reset(&mut self)
        ensures
            *final(self) == old(self).at(0),
    {
        self.habitat_current_page = 0;
    }

    /// Shows the next page, the first one after the last. Without pages
    /// nothing changes.
    pub fn next(&mut self)
        requires
            old(self).habitat_total_page == 0 || old(self).habitat_current_page == old(
                self,
            ).habitat_total_page - 1 || old(self).habitat_current_page < u8::MAX,
        ensures
            *final(self) == old(self).after_next(),
    {
        if self.habitat_total_page == 0 {
            return ;
        }
        if self.habitat_current_page == self.habitat_total_page - 1 {
            self.habitat_current_page = 0;
        } else {
            self.habitat_current_page += 1;
        }
    }

    /// Shows the page before, the last one before the first. Without pages
    /// nothing changes.
    pub fn prev(&mut self)
        ensures
            *final(self) == old(self).after_prev(),
    {
        if self.habitat_total_page == 0 {
            return ;
        }
        if self.habitat_current_page == 0 {
            self.habitat_current_page = self.habitat_total_page - 1;
        } else {
            self.habitat_current_page -= 1;
        }
    }

    /// On a page, `prev` undoes `next` and `next` undoes `prev`, and both
    /// stay on a page.
    pub proof fn lemma_prev_inverts_next(self)
        requires
            self.on_a_page(),
        ensures
            self.after_next().after_prev() == self,
            self.after_prev().after_next() == self,
            self.after_next().on_a_page(),
            self.after_prev().on_a_page(),
    {
    }

    /// Without pages neither `next` nor `prev` changes anything.
    pub proof fn lemma_no_pages_no_change(self)
        requires
            self.habitat_total_page == 0,
        ensures
            self.after_next() == self,
            self.after_prev() == self,
    {
    }

    proof fn lemma_steps_follow_rows(self, steps: nat)
        requires
            self.on_a_page(),
        ensures
            self.after_next_steps(steps) == self.at(
                row_after_steps(
                    self.habitat_current_page as usize,
                    self.habitat_total_page as int,
                    steps,
                ) as u8,
            ),
            row_after_steps(
                self.habitat_current_page as usize,
                self.habitat_total_page as int,
                steps,
            ) < self.habitat_total_page,
        decreases steps,
    {
        if steps > 0 {
            self.lemma_steps_follow_rows((steps - 1) as nat);
            let row = row_after_steps(
                self.habitat_current_page as usize,
                self.habitat_total_page as int,
                (steps - 1) as nat,
            );
            lemma_steps_invert(row, self.habitat_total_page as int);
        }
    }

    /// On a page, as many calls of `next` as there are pages lead back to
    /// the page they started from.
    pub proof fn lemma_next_full_turn(self)
        requires
            self.on_a_page(),
        ensures
            self.after_next_steps(self.habitat_total_page as nat) == self,
    {
        self.lemma_steps_follow_rows(self.habitat_total_page as nat);
        lemma_full_turn(self.habitat_current_page as usize, self.habitat_total_page as int);
    }
}

impl Default for ChangeableHabitatPageState {
    fn default() -> (state: Self)
        ensures
            state == (ChangeableHabitatPageState { habitat_total_page: 0, habitat_current_page: 0 }),
    {
        ChangeableHabitatPageState { habitat_total_page: 0, habitat_current_page: 0 }
    }
}

} // verus!
