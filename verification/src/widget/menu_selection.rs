//! The main menu: which entry is highlighted.

use crate::monster::color::Color;
use crate::state::MainMenuOption;
use vstd::prelude::*;

verus! {

/// The main menu.
pub struct MenuSelection;

impl MenuSelection {
    /// The colour of the entry `src` while `target` is the highlighted
    /// entry: white for the highlighted entry, grey for the others.
    pub open spec fn color_of(src: MainMenuOption, target: MainMenuOption) -> Color {
        if src == target {
            Color::White
        } else {
            Color::Rgb(128, 128, 128)
        }
    }

    /// The colour of the entry `src` while `target` is the highlighted
    /// entry.
    pub fn get_color(src: MainMenuOption, target: &MainMenuOption) -> (color: Color)
        ensures
            color == Self::color_of(src, *target),
    {
        if src == *target {
            Color::White
        } else {
            Color::Rgb(128, 128, 128)
        }
    }
}

} // verus!
