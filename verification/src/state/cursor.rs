//! Building blocks of the panels: a row cursor, the extent of a scrollbar,
//! the area of a viewport, and the arithmetic of stepping through rows with
//! wraparound.

use vstd::prelude::*;

verus! {

/// The highlighted row of a list or a table, if any.
#[derive(Clone, Copy, Debug, PartialEq, Eq)]
pub struct RowCursor {
    pub selected: Option<usize>,
}

impl RowCursor {
    /// A cursor on `index`.
    pub fn with_selected(index: Option<usize>) -> (cursor: Self)
        ensures
            cursor.selected == index,
    {
        RowCursor { selected: index }
    }

    /// The highlighted row, if any.
    pub fn selected(&self) -> (index: Option<usize>)
        ensures
            index == self.selected,
    {
        self.selected
    }

    /// Highlights row `index`, or no row.
    pub fn select(&mut self, index: Option<usize>)
        ensures
            final(self).selected == index,
    {
        self.selected = index;
    }
}

impl Default for RowCursor {
    fn default() -> (cursor: Self)
        ensures
            cursor.selected is None,
    {
        RowCursor { selected: None }
    }
}

/// What a scrollbar shows: the length of the content and the position in it.
#[derive(Clone, Copy, Debug, PartialEq, Eq)]
pub struct ScrollbarState {
    pub content_length: usize,
    pub position: usize,
}

impl ScrollbarState {
    /// The same scrollbar at `position`.
    pub fn position(self, position: usize) -> (moved: Self)
        ensures
            moved == (ScrollbarState { position, ..self }),
    {
        ScrollbarState { content_length: self.content_length, position }
    }

    /// The same scrollbar over content of `content_length` rows.
    pub fn content_length(self, content_length: usize) -> (sized: Self)
        ensures
            sized == (ScrollbarState { content_length, ..self }),
    {
        ScrollbarState { content_length, position: self.position }
    }
}

impl Default for ScrollbarState {
    fn default() -> (bar: Self)
        ensures
            bar == (ScrollbarState { content_length: 0, position: 0 }),
    {
        ScrollbarState { content_length: 0, position: 0 }
    }
}

/// The cells that a panel may draw on, as the renderer reports them.
#[derive(Clone, Copy, Debug, PartialEq, Eq)]
pub struct Rect {
    pub x: u16,
    pub y: u16,
    pub width: u16,
    pub height: u16,
}

/// The row after `row`, which is never beyond the largest index.
pub open spec fn succ(row: usize) -> usize {
    if row == usize::MAX {
        row
    } else {
        (row + 1) as usize
    }
}

/// The row that a step forward reaches in a table of `len` rows, `len > 0`:
/// the first row from the last one and from no row, else the row after.
pub open spec fn row_after(selected: Option<usize>, len: int) -> usize {
    match selected {
        Some(row) => if row == len - 1 {
            0
        } else {
            succ(row)
        },
        None => 0,
    }
}

/// The row that a step back reaches in a table of `len` rows, `len > 0`:
/// the last row from the first one and from no row, else the row before.
pub open spec fn row_before(selected: Option<usize>, len: int) -> usize {
    match selected {
        Some(row) => if row == 0 {
            (len - 1) as usize
        } else {
            (row - 1) as usize
        },
        None => (len - 1) as usize,
    }
}

/// Where `steps` steps forward from `row` end in a table of `len` rows.
pub open spec fn row_after_steps(row: usize, len: int, steps: nat) -> usize
    decreases steps,
{
    if steps == 0 {
        row
    } else {
        row_after(Some(row_after_steps(row, len, (steps - 1) as nat)), len)
    }
}

/// The row that a step forward reaches in a table of `len` rows.
pub fn step_forward(selected: Option<usize>, len: usize) -> (row: usize)
    requires
        len > 0,
    ensures
        row == row_after(selected, len as int),
{
    match selected {
        Some(row) => if row == len - 1 {
            0
        } else {
            row.saturating_add(1)
        },
        None => 0,
    }
}

/// The row that a step back reaches in a table of `len` rows.
pub fn step_back(selected: Option<usize>, len: usize) -> (row: usize)
    requires
        len > 0,
    ensures
        row == row_before(selected, len as int),
{
    match selected {
        Some(row) => if row == 0 {
            len - 1
        } else {
            row - 1
        },
        None => len - 1,
    }
}

/// A step back undoes a step forward, and a step forward a step back, from
/// any row of the table.
pub proof fn lemma_steps_invert(row: usize, len: int)
    requires
        row < len <= usize::MAX,
    ensures
        row_before(Some(row_after(Some(row), len)), len) == row,
        row_after(Some(row_before(Some(row), len)), len) == row,
        row_after(Some(row), len) < len,
        row_before(Some(row), len) < len,
{
}

/// After `steps` steps forward from a row of the table the cursor stands
/// `steps` rows further, counted round the table.
pub proof fn lemma_steps_forward(row: usize, len: int, steps: nat)
    requires
        row < len <= usize::MAX,
    ensures
        row_after_steps(row, len, steps) == (row + steps) % len,
    decreases steps,
{
    if steps == 0 {
        vstd::arithmetic::div_mod::lemma_small_mod(row as nat, len as nat);
    } else {
        lemma_steps_forward(row, len, (steps - 1) as nat);
        let before = (row + steps - 1) % len;
        vstd::arithmetic::div_mod::lemma_mod_bound(row + steps - 1, len);
        vstd::arithmetic::div_mod::lemma_add_mod_noop(row + steps - 1, 1, len);
        if before == len - 1 {
            if len == 1 {
                assert((before + 1) % len == 0);
            } else {
                vstd::arithmetic::div_mod::lemma_small_mod(1, len as nat);
                vstd::arithmetic::div_mod::lemma_mod_self_0(len);
            }
        } else {
            if len > 1 {
                vstd::arithmetic::div_mod::lemma_small_mod(1, len as nat);
            }
            vstd::arithmetic::div_mod::lemma_small_mod((before + 1) as nat, len as nat);
        }
    }
}

/// As many steps forward as the table has rows lead back to the row they
/// started from.
pub proof fn lemma_full_turn(row: usize, len: int)
    requires
        row < len <= usize::MAX,
    ensures
        row_after_steps(row, len, len as nat) == row,
{
    lemma_steps_forward(row, len, len as nat);
    vstd::arithmetic::div_mod::lemma_mod_add_multiples_vanish(row as int, len);
    vstd::arithmetic::div_mod::lemma_small_mod(row as nat, len as nat);
}

} // verus!
