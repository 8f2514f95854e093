//! Status ailments and trap items, with their names in the dataset, their
//! labels, glyphs and colours.

use crate::monster::color::Color;
use crate::text::same_text;
use vstd::prelude::*;

verus! {

/// A status ailment that hunters can inflict.
#[derive(Clone, Copy, Debug, PartialEq, Eq, Structural)]
pub enum StatusAilments {
    Poison,
    Stun,
    Paralysis,
    Sleep,
    Blast,
    Exhaust,
}

impl StatusAilments {
    /// The ailment that the dataset name `name` stands for; `Stun` for any
    /// name that is not an ailment.
    pub open spec fn named(name: Seq<char>) -> StatusAilments {
        if name == "poison"@ {
            StatusAilments::Poison
        } else if name == "paralysis"@ {
            StatusAilments::Paralysis
        } else if name == "sleep"@ {
            StatusAilments::Sleep
        } else if name == "blast"@ {
            StatusAilments::Blast
        } else if name == "exhaust"@ {
            StatusAilments::Exhaust
        } else {
            StatusAilments::Stun
        }
    }

    /// The label shown for this value.
    pub open spec fn label_text(self) -> Seq<char> {
        match self {
            StatusAilments::Poison => "Poison"@,
            StatusAilments::Stun => "Stun"@,
            StatusAilments::Paralysis => "Paralysis"@,
            StatusAilments::Sleep => "Sleep"@,
            StatusAilments::Blast => "Blast"@,
            StatusAilments::Exhaust => "Exhaust"@,
        }
    }

    /// The label shown for this value.
    pub fn label(&self) -> (text: String)
        ensures
            text@ == self.label_text(),
    {
        match self {
            StatusAilments::Poison => "Poison".to_string(),
            StatusAilments::Stun => "Stun".to_string(),
            StatusAilments::Paralysis => "Paralysis".to_string(),
            StatusAilments::Sleep => "Sleep".to_string(),
            StatusAilments::Blast => "Blast".to_string(),
            StatusAilments::Exhaust => "Exhaust".to_string(),
        }
    }

    /// The glyph shown for this value.
    pub open spec fn icon_text(self) -> Seq<char> {
        match self {
            StatusAilments::Poison => "\u{f0eca}"@,
            StatusAilments::Stun => "\u{f0674}"@,
            StatusAilments::Paralysis => "\u{e315}"@,
            StatusAilments::Sleep => "\u{f04b2}"@,
            StatusAilments::Blast => "\u{f1e2}"@,
            StatusAilments::Exhaust => "\u{e231}"@,
        }
    }

    /// The glyph shown for this value.
    pub fn icon(&self) -> (glyph: String)
        ensures
            glyph@ == self.icon_text(),
    {
        match self {
            StatusAilments::Poison => "\u{f0eca}".to_string(),
            StatusAilments::Stun => "\u{f0674}".to_string(),
            StatusAilments::Paralysis => "\u{e315}".to_string(),
            StatusAilments::Sleep => "\u{f04b2}".to_string(),
            StatusAilments::Blast => "\u{f1e2}".to_string(),
            StatusAilments::Exhaust => "\u{e231}".to_string(),
        }
    }

    /// The colour in which this value is drawn.
    pub open spec fn color_of(self) -> Color {
        match self {
            StatusAilments::Poison => Color::Rgb(126, 39, 219),
            StatusAilments::Stun => Color::Yellow,
            StatusAilments::Paralysis => Color::Yellow,
            StatusAilments::Sleep => Color::Cyan,
            StatusAilments::Blast => Color::DarkGray,
            StatusAilments::Exhaust => Color::Gray,
        }
    }

    /// The colour in which this value is drawn.
    pub fn color(&self) -> (color: Color)
        ensures
            color == self.color_of(),
    {
        match self {
            StatusAilments::Poison => Color::Rgb(126, 39, 219),
            StatusAilments::Stun => Color::Yellow,
            StatusAilments::Paralysis => Color::Yellow,
            StatusAilments::Sleep => Color::Cyan,
            StatusAilments::Blast => Color::DarkGray,
            StatusAilments::Exhaust => Color::Gray,
        }
    }
}

impl Default for StatusAilments {
    fn default() -> (value: Self)
        ensures
            value == StatusAilments::Stun,
    {
        StatusAilments::Stun
    }
}

/// Reads a status ailment from its dataset name.
pub struct StatusAilmentsVisitor;

impl StatusAilmentsVisitor {
    /// The value that the dataset name `v` stands for.
    pub fn visit_str(&self, v: &str) -> (value: StatusAilments)
        ensures
            value == StatusAilments::named(v@),
    {
        if same_text(v, "poison") {
            StatusAilments::Poison
        } else if same_text(v, "paralysis") {
            StatusAilments::Paralysis
        } else if same_text(v, "sleep") {
            StatusAilments::Sleep
        } else if same_text(v, "blast") {
            StatusAilments::Blast
        } else if same_text(v, "exhaust") {
            StatusAilments::Exhaust
        } else {
            StatusAilments::Stun
        }
    }
}
/// A trap or pod that may work on a monster.
#[derive(Clone, Copy, Debug, PartialEq, Eq, Structural)]
pub enum ItemWeakness {
    Pitfall,
    Shock,
    Meats,
    Flashpod,
    Sonicpod,
    Dungpod,
}

impl ItemWeakness {
    /// The item that the dataset name `name` stands for; `Flashpod` for any
    /// name that is not an item.
    pub open spec fn named(name: Seq<char>) -> ItemWeakness {
        if name == "pitfall"@ {
            ItemWeakness::Pitfall
        } else if name == "shock"@ {
            ItemWeakness::Shock
        } else if name == "meats"@ {
            ItemWeakness::Meats
        } else if name == "sonicpod"@ {
            ItemWeakness::Sonicpod
        } else if name == "dungpod"@ {
            ItemWeakness::Dungpod
        } else {
            ItemWeakness::Flashpod
        }
    }

    /// The label shown for this value.
    pub open spec fn label_text(self) -> Seq<char> {
        match self {
            ItemWeakness::Pitfall => "Pitfall"@,
            ItemWeakness::Shock => "Shock"@,
            ItemWeakness::Meats => "Meats"@,
            ItemWeakness::Flashpod => "Flashpod"@,
            ItemWeakness::Sonicpod => "Sonicpod"@,
            ItemWeakness::Dungpod => "Dungpod"@,
        }
    }

    /// The label shown for this value.
    pub fn label(&self) -> (text: String)
        ensures
            text@ == self.label_text(),
    {
        match self {
            ItemWeakness::Pitfall => "Pitfall".to_string(),
            ItemWeakness::Shock => "Shock".to_string(),
            ItemWeakness::Meats => "Meats".to_string(),
            ItemWeakness::Flashpod => "Flashpod".to_string(),
            ItemWeakness::Sonicpod => "Sonicpod".to_string(),
            ItemWeakness::Dungpod => "Dungpod".to_string(),
        }
    }
}

impl Default for ItemWeakness {
    fn default() -> (value: Self)
        ensures
            value == ItemWeakness::Flashpod,
    {
        ItemWeakness::Flashpod
    }
}

/// Reads a trap item from its dataset name.
pub struct ItemWeaknessVisitor;

impl ItemWeaknessVisitor {
    /// The value that the dataset name `v` stands for.
    pub fn visit_str(&self, v: &str) -> (value: ItemWeakness)
        ensures
            value == ItemWeakness::named(v@),
    {
        if same_text(v, "pitfall") {
            ItemWeakness::Pitfall
        } else if same_text(v, "shock") {
            ItemWeakness::Shock
        } else if same_text(v, "meats") {
            ItemWeakness::Meats
        } else if same_text(v, "sonicpod") {
            ItemWeakness::Sonicpod
        } else if same_text(v, "dungpod") {
            ItemWeakness::Dungpod
        } else {
            ItemWeakness::Flashpod
        }
    }
}
} // verus!
