//! What the panels show, as plain values computed from the state for a
//! renderer to draw.

pub mod basic_info;
pub mod bottom_nav;
pub mod drop;
pub mod habitats;
pub mod menu_selection;
pub mod monster_desc;
pub mod monster_name_icon;
pub mod monster_quest;
pub mod search;
pub mod selection;
pub mod span;
pub mod weakness;

use vstd::prelude::*;

verus! {

/// The lines into which `textwrap::wrap` breaks a text for a given width,
/// with words separated at ASCII spaces.
pub uninterp spec fn wrapped(text: Seq<char>, width: nat) -> Seq<Seq<char>>;

/// Breaks `text` into lines for a width of `width` columns with
/// `textwrap::wrap`, which separates words at ASCII spaces. Trusted: the
/// lines are a function of `text` and `width` alone.
#[verifier::external_body]
pub fn get_lines(text: &str, width: usize) -> (lines: Vec<String>)
    ensures
        lines.deep_view() == wrapped(text@, width as nat),
{
    let options = textwrap::Options::new(width).word_separator(textwrap::WordSeparator::AsciiSpace);
    let lines = textwrap::wrap(text, options);
    lines.into_iter().map(std::borrow::Cow::into_owned).collect()
}

} // verus!
