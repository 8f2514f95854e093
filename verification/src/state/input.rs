//! The text buffer of the filter box.

use crate::keybinding::{KeyCode, KeyModifiers};
use ratatui::crossterm::event::{Event, KeyCode as Code, KeyEvent, KeyModifiers as Modifiers};
use tui_input::backend::crossterm::EventHandler;
use tui_input::Input;
use vstd::prelude::*;

verus! {

/// The text and the caret of an edit buffer after it has handled one key
/// press, as `tui_input::Input::handle_event` leaves them.
pub uninterp spec fn edited(value: Seq<char>, cursor: usize, code: KeyCode, modifiers: u8) -> (
    Seq<char>,
    usize,
);

/// Builds a `tui_input::Input` from `value` and `cursor`, hands it a press
/// of `code` with the modifier bits `modifiers` through
/// `Input::handle_event`, and returns its text and caret. Trusted: both are
/// a function of the four arguments alone.
#[verifier::external_body]
fn edit(value: &str, cursor: usize, code: KeyCode, modifiers: u8) -> (after: (String, usize))
    ensures
        after.0@ == edited(value@, cursor, code, modifiers).0,
        after.1 == edited(value@, cursor, code, modifiers).1,
{
    let code = match code {
        KeyCode::Backspace => Code::Backspace, KeyCode::Enter => Code::Enter,
        KeyCode::Left => Code::Left, KeyCode::Right => Code::Right,
        KeyCode::Up => Code::Up, KeyCode::Down => Code::Down,
        KeyCode::Home => Code::Home, KeyCode::End => Code::End,
        KeyCode::Tab => Code::Tab, KeyCode::Delete => Code::Delete,
        KeyCode::Esc => Code::Esc, KeyCode::Char(c) => Code::Char(c),
        KeyCode::Other => Code::Null,
    };
    let mut input = Input::new(value.to_string()).with_cursor(cursor);
    input.handle_event(&Event::Key(KeyEvent::new(code, Modifiers::from_bits_truncate(modifiers))));
    (input.value().to_string(), input.cursor())
}

/// The column of the caret of an edit buffer, counted from the start of its
/// text with wide characters counted by their width, as
/// `tui_input::Input::visual_cursor` computes it.
pub uninterp spec fn visual_cursor_of(value: Seq<char>, cursor: usize) -> usize;

/// The number of columns by which an edit buffer is scrolled so that its
/// caret shows in a box `width` columns wide, as
/// `tui_input::Input::visual_scroll` computes it.
pub uninterp spec fn visual_scroll_of(value: Seq<char>, cursor: usize, width: usize) -> usize;

/// Builds a `tui_input::Input` from `value` and `cursor` and calls
/// `Input::visual_cursor` for the column of its caret. Trusted: the column
/// is a function of the two arguments alone.
#[verifier::external_body]
fn visual_cursor(value: &str, cursor: usize) -> (column: usize)
    ensures
        column == visual_cursor_of(value@, cursor),
{
    Input::new(value.to_string()).with_cursor(cursor).visual_cursor()
}

/// Builds a `tui_input::Input` from `value` and `cursor` and calls
/// `Input::visual_scroll` for the number of columns by which it is scrolled
/// in a box `width` columns wide. Trusted: the number is a function of the
/// three arguments alone.
#[verifier::external_body]
fn visual_scroll(value: &str, cursor: usize, width: usize) -> (scroll: usize)
    ensures
        scroll == visual_scroll_of(value@, cursor, width),
{
    Input::new(value.to_string()).with_cursor(cursor).visual_scroll(width)
}

/// The text typed into the filter box and the place of the caret in it,
/// counted in characters.
pub struct FilterInput {
    pub value: String,
    pub cursor: usize,
}

impl FilterInput {
    /// The text of the buffer.
    pub fn value(&self) -> (text: &str)
        ensures
            text@ == self.value@,
    {
        self.value.as_str()
    }

    /// The place of the caret.
    pub fn cursor(&self) -> (cursor: usize)
        ensures
            cursor == self.cursor,
    {
        self.cursor
    }

    /// Empties the buffer and puts the caret at its start.
    pub fn reset(&mut self)
        ensures
            final(self).value@ == Seq::<char>::empty(),
            final(self).cursor == 0,
    {
        self.cursor = 0;
        self.value = String::new();
    }

    /// The column of the caret, with wide characters counted by their
    /// width.
    pub fn visual_cursor(&self) -> (column: usize)
        ensures
            column == visual_cursor_of(self.value@, self.cursor),
    {
        visual_cursor(self.value.as_str(), self.cursor)
    }

    /// The number of columns by which the text is scrolled so that the
    /// caret shows in a box `width` columns wide.
    pub fn visual_scroll(&self, width: usize) -> (scroll: usize)
        ensures
            scroll == visual_scroll_of(self.value@, self.cursor, width),
    {
        visual_scroll(self.value.as_str(), self.cursor, width)
    }

    /// The text and the caret that the buffer has once it has handled a
    /// press of `code` with `modifiers`. The buffer itself stays as it is.
    pub fn edited_by(&self, code: KeyCode, modifiers: KeyModifiers) -> (after: (String, usize))
        ensures
            after.0@ == edited(self.value@, self.cursor, code, modifiers.bits).0,
            after.1 == edited(self.value@, self.cursor, code, modifiers.bits).1,
    {
        edit(self.value.as_str(), self.cursor, code, modifiers.bits)
    }
}

impl Default for FilterInput {
    fn default() -> (input: Self)
        ensures
            input.value@ == Seq::<char>::empty(),
            input.cursor == 0,
    {
        FilterInput { value: String::new(), cursor: 0 }
    }
}

} // verus!
