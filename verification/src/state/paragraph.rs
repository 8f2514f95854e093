//! A paragraph that scrolls freely by lines.

use crate::state::cursor::ScrollbarState;
use vstd::prelude::*;

verus! {

/// The scroll offset of a paragraph and the height of its content, both in
/// lines, with the scrollbar that mirrors them.
#[derive(Clone, Copy, Debug, PartialEq, Eq)]
pub struct ScrollableParagraphState {
    pub scrollbar_state: ScrollbarState,
    pub position: usize,
    pub height: usize,
}

impl ScrollableParagraphState {
    /// The furthest offset that scrolling down reaches: two lines short of
    /// the content's height, and never below the first line.
    pub open spec fn last_offset(self) -> int {
        if self.height >= 2 {
            self.height - 2
        } else {
            0
        }
    }

    /// The state at offset `position`, with the scrollbar at the same place.
    pub open spec fn at(self, position: usize) -> Self {
        ScrollableParagraphState {
            position,
            scrollbar_state: ScrollbarState { position, ..self.scrollbar_state },
            ..self
        }
    }

    /// The state with `height` lines of content.
    pub open spec fn after_set_height(self, height: usize) -> Self {
        ScrollableParagraphState {
            height,
            scrollbar_state: ScrollbarState { content_length: height, ..self.scrollbar_state },
            ..self
        }
    }

    /// The state after `scroll_down`: one line further, unless the offset
    /// has reached `last_offset`.
    pub open spec fn after_scroll_down(self) -> Self {
        if self.position < self.last_offset() {
            self.at((self.position + 1) as usize)
        } else {
            self.at(self.position)
        }
    }

    /// The state after `scroll_up`: one line back, unless the offset is at
    /// the first line.
    pub open spec fn after_scroll_up(self) -> Self {
        if self.position > 0 {
            self.at((self.position - 1) as usize)
        } else {
            self.at(0)
        }
    }

    /// This state with its offset brought back to `last_offset` where it
    /// lay beyond.
    pub open spec fn clamped(self) -> Self {
        if self.position > self.last_offset() {
            self.at(self.last_offset() as usize)
        } else {
            self.at(self.position)
        }
    }

    /// Records the number of lines that the content takes.
    pub fn set_height(&mut self, height: usize)
        ensures
            *final(self) == old(self).after_set_height(height),
    {
        self.scrollbar_state = self.scrollbar_state.content_length(height);
        self.height = height;
    }

    /// Back to the first line.
    pub fn reset(&mut self)
        ensures
            *final(self) == old(self).at(0),
    {
        self.position = 0;
        self.update_scrollbar();
    }

    /// One line down, unless the offset has reached `last_offset`.
    pub fn scroll_down(&mut self)
        ensures
            *final(self) == old(self).after_scroll_down(),
            old(self).position <= old(self).last_offset() ==> final(self).position
                <= old(self).last_offset(),
    {
        if self.position < self.height.saturating_sub(2) {
            self.position = self.position.saturating_add(1);
        }
        self.update_scrollbar();
    }

    /// One line up, unless the offset is at the first line.
    pub fn scroll_up(&mut self)
        ensures
            *final(self) == old(self).after_scroll_up(),
    {
        self.position = self.position.saturating_sub(1);
        self.update_scrollbar();
    }

    /// Brings the offset back to `last_offset` where it lies beyond, as it
    /// may once the content has become shorter.
    pub fn clamp(&mut self)
        ensures
            *final(self) == old(self).clamped(),
            final(self).position <= final(self).last_offset(),
    {
        let last = self.height.saturating_sub(2);
        if self.position > last {
            self.position = last;
        }
        self.update_scrollbar();
    }

    fn update_scrollbar(&mut self)
        ensures
            *final(self) == old(self).at(old(self).position),
    {
        self.scrollbar_state = self.scrollbar_state.position(self.position);
    }
}

impl Default for ScrollableParagraphState {
    fn default() -> (state: Self)
        ensures
            state == (ScrollableParagraphState {
                scrollbar_state: ScrollbarState { content_length: 0, position: 0 },
                position: 0,
                height: 0,
            }),
    {
        ScrollableParagraphState { scrollbar_state: ScrollbarState::default(), position: 0, height: 0 }
    }
}

} // verus!
