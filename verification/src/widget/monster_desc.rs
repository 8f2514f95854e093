//! The description panel: the flavour text of a monster and the paragraphs
//! on its abilities, wrapped to the width of the panel.

use crate::monster::record::MonsterDescText;
use crate::state::cursor::Rect;
use crate::state::paragraph::ScrollableParagraphState;
use crate::widget::{get_lines, wrapped};
use vstd::prelude::*;

verus! {

/// The lines of the ability paragraphs `desc` at `width` columns: each
/// paragraph wrapped, with one empty line between two paragraphs.
pub open spec fn ability_lines(desc: Seq<Seq<char>>, width: nat) -> Seq<Seq<char>>
    decreases desc.len(),
{
    if desc.len() == 0 {
        Seq::empty()
    } else if desc.len() == 1 {
        wrapped(desc.last(), width)
    } else {
        ability_lines(desc.drop_last(), width).push(Seq::empty()) + wrapped(desc.last(), width)
    }
}

/// The number of lines that the ability paragraphs `desc` take at `width`
/// columns, not counting the empty lines between them.
pub open spec fn ability_count(desc: Seq<Seq<char>>, width: nat) -> nat
    decreases desc.len(),
{
    if desc.len() == 0 {
        0
    } else {
        ability_count(desc.drop_last(), width) + wrapped(desc.last(), width).len()
    }
}

/// The content height that the panel records for `count` lines of ability
/// text in an area of `height` rows: `count` where that is more than the
/// area holds inside its borders and margins, and none where all fits.
pub open spec fn recorded_height(count: nat, height: u16) -> nat {
    if count > (if height >= 4 {
        height - 4
    } else {
        0
    }) {
        count
    } else {
        0
    }
}

/// The text of the description panel, ready to draw.
pub struct DescLayout {
    /// The flavour text, line by line.
    pub original: Vec<String>,
    /// The ability paragraphs, line by line.
    pub abilities: Vec<String>,
    /// The number of lines of ability text.
    pub count: usize,
}

/// The description panel of one record.
pub struct DescMonster(pub MonsterDescText);

impl DescMonster {
    /// Wraps the texts to the width of `area` inside its borders and
    /// margins, records in `state` the content height that scrolling is
    /// clamped against, and brings the offset back within it.
    pub fn layout(&self, area: Rect, state: &mut ScrollableParagraphState) -> (text: DescLayout)
        requires
            area.width >= 4,
        ensures
            text.original.deep_view() == wrapped(self.0.original@, (area.width - 4) as nat),
            text.abilities.deep_view() == ability_lines(
                self.0.desc.deep_view(),
                (area.width - 4) as nat,
            ),
            text.count == ability_count(self.0.desc.deep_view(), (area.width - 4) as nat),
            *final(state) == old(state).after_set_height(
                recorded_height(text.count as nat, area.height) as usize,
            ).clamped(),
    {
        let width = area.width as usize - 4;
        let original = get_lines(self.0.original.as_str(), width);
        let mut abilities: Vec<String> = Vec::new();
        let mut count: usize = 0;
        let mut i: usize = 0;
        let ghost desc = self.0.desc.deep_view();
        proof {
            assert(desc.take(0) =~= Seq::<Seq<char>>::empty());
            assert(abilities.deep_view() =~= Seq::<Seq<char>>::empty());
        }
        while i < self.0.desc.len()
            invariant
                i <= self.0.desc.len(),
                desc == self.0.desc.deep_view(),
                desc.len() == self.0.desc.len(),
                abilities.deep_view() == ability_lines(desc.take(i as int), width as nat),
                count == ability_count(desc.take(i as int), width as nat),
                count <= abilities.len(),
            decreases self.0.desc.len() - i,
        {
            let ghost before = abilities.deep_view();
            if i > 0 {
                abilities.push(String::new());
                proof {
                    assert(abilities.deep_view() =~= before.push(Seq::<char>::empty()));
                }
            }
            let ghost spaced = abilities.deep_view();
            let mut lines = get_lines(self.0.desc[i].as_str(), width);
            let ghost added = lines.deep_view();
            let more = lines.len();
            let ghost rows = abilities.len();
            abilities.append(&mut lines);
            proof {
                assert(abilities.len() == rows + more);
                assert(abilities.deep_view() =~= spaced + added);
                assert(desc.take(i + 1).drop_last() =~= desc.take(i as int));
                assert(desc.take(i + 1).last() == desc[i as int]);
                assert(desc[i as int] == self.0.desc[i as int]@);
                if i == 0 {
                    assert(ability_lines(desc.take(0), width as nat) =~= Seq::<Seq<char>>::empty());
                    assert(spaced + added =~= added);
                }
            }
            count = count + more;
            i += 1;
        }
        proof {
            assert(desc.take(desc.len() as int) =~= desc);
        }
        let viewport = (area.height as usize).saturating_sub(4);
        state.set_height(
            if count > viewport {
                count
            } else {
                0
            },
        );
        state.clamp();
        DescLayout { original, abilities, count }
    }
}

} // verus!
