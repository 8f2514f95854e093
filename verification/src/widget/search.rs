//! The filter box: where its caret goes on the screen.

use crate::state::cursor::Rect;
use crate::state::input::{visual_cursor_of, visual_scroll_of};
use crate::state::{AppState, InputMode, TuiState};
use vstd::prelude::*;

verus! {

/// The columns of a box of area `wrapper` that hold text: what its width
/// leaves after the borders and the caret, and none in a box of fewer than
/// three columns.
pub open spec fn text_width(wrapper: Rect) -> usize {
    if wrapper.width >= 3 {
        (wrapper.width - 3) as usize
    } else {
        0
    }
}

/// How far right of the first text column the caret stands, for a caret in
/// column `visual_cursor` of a text scrolled by `scroll` columns: the
/// distance between the two, cut to sixteen bits, and none for a caret left
/// of the scroll.
pub open spec fn caret_offset(visual_cursor: usize, scroll: usize) -> u16 {
    if visual_cursor >= scroll {
        (visual_cursor - scroll) as u16
    } else {
        0
    }
}

/// The cell of the caret lies on the screen grid.
pub open spec fn caret_fits(wrapper: Rect, visual_cursor: usize, scroll: usize) -> bool {
    wrapper.x + caret_offset(visual_cursor, scroll) + 1 <= u16::MAX && wrapper.y + 1 <= u16::MAX
}

/// The cell of the caret in a box of area `wrapper`: inside the border,
/// `caret_offset` columns from the first text column.
pub open spec fn caret_of(wrapper: Rect, visual_cursor: usize, scroll: usize) -> (u16, u16) {
    (
        (wrapper.x + caret_offset(visual_cursor, scroll) + 1) as u16,
        (wrapper.y + 1) as u16,
    )
}

/// The cell of the caret.
pub fn caret_cell(wrapper: Rect, visual_cursor: usize, scroll: usize) -> (cell: (u16, u16))
    requires
        caret_fits(wrapper, visual_cursor, scroll),
    ensures
        cell == caret_of(wrapper, visual_cursor, scroll),
{
    let shown = if visual_cursor >= scroll {
        visual_cursor
    } else {
        scroll
    };
    (wrapper.x + (shown - scroll) as u16 + 1, wrapper.y + 1)
}

/// The filter box.
pub struct Search;

impl Search {
    /// The number of columns by which the text of `state` is scrolled in a
    /// filter box of area `wrapper`.
    pub open spec fn scroll_of(state: AppState, wrapper: Rect) -> usize {
        visual_scroll_of(
            state.key_handle.input.value@,
            state.key_handle.input.cursor,
            text_width(wrapper),
        )
    }

    /// The column of the caret in the text of `state`.
    pub open spec fn column_of(state: AppState) -> usize {
        visual_cursor_of(state.key_handle.input.value@, state.key_handle.input.cursor)
    }

    /// `after` is `before` with the caret where the filter box of area
    /// `wrapper` shows it, and `scroll` is the number of columns by which
    /// the text of the box is scrolled: no caret and no scroll in normal
    /// mode.
    pub open spec fn places(
        before: AppState,
        wrapper: Rect,
        after: AppState,
        scroll: usize,
    ) -> bool {
        match before.tui_state.input_mode {
            InputMode::Normal => {
                &&& scroll == 0
                &&& after == (AppState {
                    tui_state: TuiState { cursor: None, ..before.tui_state },
                    ..before
                })
            },
            InputMode::Editing => {
                &&& scroll == Self::scroll_of(before, wrapper)
                &&& after == (AppState {
                    tui_state: TuiState {
                        cursor: Some(caret_of(wrapper, Self::column_of(before), scroll)),
                        ..before.tui_state
                    },
                    ..before
                })
            },
        }
    }

    /// The cell of the caret of `state` in a box of area `wrapper` lies on
    /// the screen grid.
    pub open spec fn fits(state: AppState, wrapper: Rect) -> bool {
        state.tui_state.input_mode == InputMode::Editing ==> caret_fits(
            wrapper,
            Self::column_of(state),
            Self::scroll_of(state, wrapper),
        )
    }

    /// Puts the caret where the filter box of area `wrapper` shows it, and
    /// returns the number of columns by which the text is scrolled.
    pub fn place_caret(&self, wrapper: Rect, state: &mut AppState) -> (scroll: usize)
        requires
            Self::fits(*old(state), wrapper),
        ensures
            Self::places(*old(state), wrapper, *final(state), scroll),
    {
        match state.tui_state.input_mode {
            InputMode::Normal => {
                state.tui_state.cursor = None;
                0
            },
            InputMode::Editing => {
                let width = if wrapper.width >= 3 {
                    wrapper.width - 3
                } else {
                    0
                };
                let scroll = state.key_handle.input.visual_scroll(width as usize);
                let column = state.key_handle.input.visual_cursor();
                state.tui_state.cursor = Some(caret_cell(wrapper, column, scroll));
                scroll
            },
        }
    }

    /// Puts the caret where the filter box of area `wrapper` shows it, if
    /// that cell lies on the screen grid, and returns the number of columns
    /// by which the text is scrolled. Where the cell lies off the grid,
    /// nothing changes and nothing is returned.
    pub fn try_place_caret(&self, wrapper: Rect, state: &mut AppState) -> (scroll: Option<usize>)
        ensures
            scroll is Some <==> Self::fits(*old(state), wrapper),
            scroll matches Some(s) ==> Self::places(*old(state), wrapper, *final(state), s),
            scroll is None ==> *final(state) == *old(state),
    {
        match state.tui_state.input_mode {
            InputMode::Normal => {},
            InputMode::Editing => {
                let width = if wrapper.width >= 3 {
                    wrapper.width - 3
                } else {
                    0
                };
                let scroll = state.key_handle.input.visual_scroll(width as usize);
                let column = state.key_handle.input.visual_cursor();
                let shown = if column >= scroll {
                    column
                } else {
                    scroll
                };
                let offset = (shown - scroll) as u16;
                if wrapper.x as u32 + offset as u32 + 1 > u16::MAX as u32 || wrapper.y == u16::MAX {
                    return None;
                }
            },
        }
        Some(self.place_caret(wrapper, state))
    }
}

} // verus!
