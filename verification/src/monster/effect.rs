//! Status effects that a monster inflicts and the elements it wields, with
//! their names in the dataset, their labels, glyphs and colours.

use crate::monster::color::Color;
use crate::text::same_text;
use vstd::prelude::*;

verus! {

/// A status effect that a monster's attacks can inflict.
#[derive(Clone, Copy, Debug, PartialEq, Eq, Structural)]
pub enum MonsterStatusEffects {
    Fireblight,
    Blastblight,
    Waterblight,
    Thunderblight,
    Iceblight,
    Frostblight,
    Dragonblight,
    Frenzy,
    Sleep,
    Poison,
    Paralysis,
    Stench,
    DefenseDown,
    Bleeding,
    Flash,
    MinorBubbleBlight,
    MajorBubbleBlight,
    Webbed,
    NotRegister,
    NoEffect,
}

impl MonsterStatusEffects {
    /// The effect that the dataset name `name` stands for; `NotRegister` for
    /// any name that is not an effect.
    pub open spec fn named(name: Seq<char>) -> MonsterStatusEffects {
        if name == "fireblight"@ {
            MonsterStatusEffects::Fireblight
        } else if name == "blastblight"@ {
            MonsterStatusEffects::Blastblight
        } else if name == "waterblight"@ {
            MonsterStatusEffects::Waterblight
        } else if name == "thunderblight"@ {
            MonsterStatusEffects::Thunderblight
        } else if name == "iceblight"@ {
            MonsterStatusEffects::Iceblight
        } else if name == "frostblight"@ {
            MonsterStatusEffects::Frostblight
        } else if name == "dragonblight"@ {
            MonsterStatusEffects::Dragonblight
        } else if name == "frenzy"@ {
            MonsterStatusEffects::Frenzy
        } else if name == "sleep"@ {
            MonsterStatusEffects::Sleep
        } else if name == "poison"@ {
            MonsterStatusEffects::Poison
        } else if name == "paralysis"@ {
            MonsterStatusEffects::Paralysis
        } else if name == "stench"@ {
            MonsterStatusEffects::Stench
        } else if name == "defense down"@ {
            MonsterStatusEffects::DefenseDown
        } else if name == "bleeding"@ {
            MonsterStatusEffects::Bleeding
        } else if name == "flash"@ {
            MonsterStatusEffects::Flash
        } else if name == "minor bubbleblight"@ {
            MonsterStatusEffects::MinorBubbleBlight
        } else if name == "major bubbleblight"@ {
            MonsterStatusEffects::MajorBubbleBlight
        } else if name == "webbed"@ {
            MonsterStatusEffects::Webbed
        } else if name == "none"@ {
            MonsterStatusEffects::NoEffect
        } else {
            MonsterStatusEffects::NotRegister
        }
    }

    /// The label shown for this value.
    pub open spec fn label_text(self) -> Seq<char> {
        match self {
            MonsterStatusEffects::Fireblight => "Fireblight"@,
            MonsterStatusEffects::Blastblight => "Blastblight"@,
            MonsterStatusEffects::Waterblight => "Waterblight"@,
            MonsterStatusEffects::Thunderblight => "Thunderblight"@,
            MonsterStatusEffects::Iceblight => "Iceblight"@,
            MonsterStatusEffects::Frostblight => "Frostblight"@,
            MonsterStatusEffects::Dragonblight => "Dragonblight"@,
            MonsterStatusEffects::Frenzy => "Frenzy"@,
            MonsterStatusEffects::Sleep => "Sleep"@,
            MonsterStatusEffects::Poison => "Poison"@,
            MonsterStatusEffects::Paralysis => "Paralysis"@,
            MonsterStatusEffects::Stench => "Stench"@,
            MonsterStatusEffects::DefenseDown => "Defense Down"@,
            MonsterStatusEffects::Bleeding => "Bleeding"@,
            MonsterStatusEffects::Flash => "Flash"@,
            MonsterStatusEffects::MinorBubbleBlight => "Minor Bubble Blight"@,
            MonsterStatusEffects::MajorBubbleBlight => "Major Bubble Blight"@,
            MonsterStatusEffects::Webbed => "Webbed"@,
            MonsterStatusEffects::NotRegister => "Not Register"@,
            MonsterStatusEffects::NoEffect => "None"@,
        }
    }

    /// The label shown for this value.
    pub fn label(&self) -> (text: String)
        ensures
            text@ == self.label_text(),
    {
        match self {
            MonsterStatusEffects::Fireblight => "Fireblight".to_string(),
            MonsterStatusEffects::Blastblight => "Blastblight".to_string(),
            MonsterStatusEffects::Waterblight => "Waterblight".to_string(),
            MonsterStatusEffects::Thunderblight => "Thunderblight".to_string(),
            MonsterStatusEffects::Iceblight => "Iceblight".to_string(),
            MonsterStatusEffects::Frostblight => "Frostblight".to_string(),
            MonsterStatusEffects::Dragonblight => "Dragonblight".to_string(),
            MonsterStatusEffects::Frenzy => "Frenzy".to_string(),
            MonsterStatusEffects::Sleep => "Sleep".to_string(),
            MonsterStatusEffects::Poison => "Poison".to_string(),
            MonsterStatusEffects::Paralysis => "Paralysis".to_string(),
            MonsterStatusEffects::Stench => "Stench".to_string(),
            MonsterStatusEffects::DefenseDown => "Defense Down".to_string(),
            MonsterStatusEffects::Bleeding => "Bleeding".to_string(),
            MonsterStatusEffects::Flash => "Flash".to_string(),
            MonsterStatusEffects::MinorBubbleBlight => "Minor Bubble Blight".to_string(),
            MonsterStatusEffects::MajorBubbleBlight => "Major Bubble Blight".to_string(),
            MonsterStatusEffects::Webbed => "Webbed".to_string(),
            MonsterStatusEffects::NotRegister => "Not Register".to_string(),
            MonsterStatusEffects::NoEffect => "None".to_string(),
        }
    }

    /// The colour in which this value is drawn.
    pub open spec fn color_of(self) -> Color {
        match self {
            MonsterStatusEffects::Fireblight => Color::Red,
            MonsterStatusEffects::Blastblight => Color::Rgb(217, 98, 24),
            MonsterStatusEffects::Waterblight => Color::Rgb(66, 135, 245),
            MonsterStatusEffects::Thunderblight => Color::Yellow,
            MonsterStatusEffects::Iceblight => Color::Cyan,
            MonsterStatusEffects::Frostblight => Color::White,
            MonsterStatusEffects::Dragonblight => Color::Rgb(154, 88, 237),
            MonsterStatusEffects::Frenzy => Color::Rgb(150, 0, 237),
            MonsterStatusEffects::Sleep => Color::Cyan,
            MonsterStatusEffects::Poison => Color::Rgb(126, 39, 219),
            MonsterStatusEffects::Paralysis => Color::Yellow,
            MonsterStatusEffects::Stench => Color::Rgb(172, 191, 2),
            MonsterStatusEffects::DefenseDown => Color::LightBlue,
            MonsterStatusEffects::Bleeding => Color::Red,
            MonsterStatusEffects::Flash => Color::White,
            MonsterStatusEffects::MinorBubbleBlight => Color::White,
            MonsterStatusEffects::MajorBubbleBlight => Color::White,
            MonsterStatusEffects::Webbed => Color::White,
            MonsterStatusEffects::NotRegister => Color::White,
            MonsterStatusEffects::NoEffect => Color::Black,
        }
    }

    /// The colour in which this value is drawn.
    pub fn color(&self) -> (color: Color)
        ensures
            color == self.color_of(),
    {
        match self {
            MonsterStatusEffects::Fireblight => Color::Red,
            MonsterStatusEffects::Blastblight => Color::Rgb(217, 98, 24),
            MonsterStatusEffects::Waterblight => Color::Rgb(66, 135, 245),
            MonsterStatusEffects::Thunderblight => Color::Yellow,
            MonsterStatusEffects::Iceblight => Color::Cyan,
            MonsterStatusEffects::Frostblight => Color::White,
            MonsterStatusEffects::Dragonblight => Color::Rgb(154, 88, 237),
            MonsterStatusEffects::Frenzy => Color::Rgb(150, 0, 237),
            MonsterStatusEffects::Sleep => Color::Cyan,
            MonsterStatusEffects::Poison => Color::Rgb(126, 39, 219),
            MonsterStatusEffects::Paralysis => Color::Yellow,
            MonsterStatusEffects::Stench => Color::Rgb(172, 191, 2),
            MonsterStatusEffects::DefenseDown => Color::LightBlue,
            MonsterStatusEffects::Bleeding => Color::Red,
            MonsterStatusEffects::Flash => Color::White,
            MonsterStatusEffects::MinorBubbleBlight => Color::White,
            MonsterStatusEffects::MajorBubbleBlight => Color::White,
            MonsterStatusEffects::Webbed => Color::White,
            MonsterStatusEffects::NotRegister => Color::White,
            MonsterStatusEffects::NoEffect => Color::Black,
        }
    }
}

impl Default for MonsterStatusEffects {
    fn default() -> (value: Self)
        ensures
            value == MonsterStatusEffects::NoEffect,
    {
        MonsterStatusEffects::NoEffect
    }
}

/// Reads a status effect from its dataset name.
pub struct MonsterStatusEffectsVisitor;

impl MonsterStatusEffectsVisitor {
    /// The value that the dataset name `v` stands for.
    pub fn visit_str(&self, v: &str) -> (value: MonsterStatusEffects)
        ensures
            value == MonsterStatusEffects::named(v@),
    {
        if same_text(v, "fireblight") {
            MonsterStatusEffects::Fireblight
        } else if same_text(v, "blastblight") {
            MonsterStatusEffects::Blastblight
        } else if same_text(v, "waterblight") {
            MonsterStatusEffects::Waterblight
        } else if same_text(v, "thunderblight") {
            MonsterStatusEffects::Thunderblight
        } else if same_text(v, "iceblight") {
            MonsterStatusEffects::Iceblight
        } else if same_text(v, "frostblight") {
            MonsterStatusEffects::Frostblight
        } else if same_text(v, "dragonblight") {
            MonsterStatusEffects::Dragonblight
        } else if same_text(v, "frenzy") {
            MonsterStatusEffects::Frenzy
        } else if same_text(v, "sleep") {
            MonsterStatusEffects::Sleep
        } else if same_text(v, "poison") {
            MonsterStatusEffects::Poison
        } else if same_text(v, "paralysis") {
            MonsterStatusEffects::Paralysis
        } else if same_text(v, "stench") {
            MonsterStatusEffects::Stench
        } else if same_text(v, "defense down") {
            MonsterStatusEffects::DefenseDown
        } else if same_text(v, "bleeding") {
            MonsterStatusEffects::Bleeding
        } else if same_text(v, "flash") {
            MonsterStatusEffects::Flash
        } else if same_text(v, "minor bubbleblight") {
            MonsterStatusEffects::MinorBubbleBlight
        } else if same_text(v, "major bubbleblight") {
            MonsterStatusEffects::MajorBubbleBlight
        } else if same_text(v, "webbed") {
            MonsterStatusEffects::Webbed
        } else if same_text(v, "none") {
            MonsterStatusEffects::NoEffect
        } else {
            MonsterStatusEffects::NotRegister
        }
    }
}
/// An element that a monster wields.
#[derive(Clone, Copy, Debug, PartialEq, Eq, Structural)]
pub enum MonsterElements {
    Fire,
    Water,
    Thunder,
    Ice,
    Dragon,
    Poison,
    NoElement,
}

impl MonsterElements {
    /// The element that the dataset name `name` stands for; `NoElement` for
    /// any name that is not an element.
    pub open spec fn named(name: Seq<char>) -> MonsterElements {
        if name == "fire"@ {
            MonsterElements::Fire
        } else if name == "water"@ {
            MonsterElements::Water
        } else if name == "thunder"@ {
            MonsterElements::Thunder
        } else if name == "ice"@ {
            MonsterElements::Ice
        } else if name == "dragon"@ {
            MonsterElements::Dragon
        } else if name == "poison"@ {
            MonsterElements::Poison
        } else {
            MonsterElements::NoElement
        }
    }

    /// The label shown for this value.
    pub open spec fn label_text(self) -> Seq<char> {
        match self {
            MonsterElements::Fire => "Fire"@,
            MonsterElements::Water => "Water"@,
            MonsterElements::Thunder => "Thunder"@,
            MonsterElements::Ice => "Ice"@,
            MonsterElements::Dragon => "Dragon"@,
            MonsterElements::Poison => "Poison"@,
            MonsterElements::NoElement => "None"@,
        }
    }

    /// The label shown for this value.
    pub fn label(&self) -> (text: String)
        ensures
            text@ == self.label_text(),
    {
        match self {
            MonsterElements::Fire => "Fire".to_string(),
            MonsterElements::Water => "Water".to_string(),
            MonsterElements::Thunder => "Thunder".to_string(),
            MonsterElements::Ice => "Ice".to_string(),
            MonsterElements::Dragon => "Dragon".to_string(),
            MonsterElements::Poison => "Poison".to_string(),
            MonsterElements::NoElement => "None".to_string(),
        }
    }

    /// The glyph shown for this value.
    pub open spec fn icon_text(self) -> Seq<char> {
        match self {
            MonsterElements::Fire => "\u{f0238}"@,
            MonsterElements::Water => "\u{f058c}"@,
            MonsterElements::Thunder => "\u{f0e7}"@,
            MonsterElements::Ice => "\u{f2dc}"@,
            MonsterElements::Dragon => "\u{f327} "@,
            MonsterElements::Poison => "\u{f0eca}"@,
            MonsterElements::NoElement => ""@,
        }
    }

    /// The glyph shown for this value.
    pub fn icon(&self) -> (glyph: String)
        ensures
            glyph@ == self.icon_text(),
    {
        match self {
            MonsterElements::Fire => "\u{f0238}".to_string(),
            MonsterElements::Water => "\u{f058c}".to_string(),
            MonsterElements::Thunder => "\u{f0e7}".to_string(),
            MonsterElements::Ice => "\u{f2dc}".to_string(),
            MonsterElements::Dragon => "\u{f327} ".to_string(),
            MonsterElements::Poison => "\u{f0eca}".to_string(),
            MonsterElements::NoElement => "".to_string(),
        }
    }

    /// The colour in which this value is drawn.
    pub open spec fn color_of(self) -> Color {
        match self {
            MonsterElements::Fire => Color::Red,
            MonsterElements::Water => Color::Rgb(66, 135, 245),
            MonsterElements::Thunder => Color::Yellow,
            MonsterElements::Ice => Color::Cyan,
            MonsterElements::Dragon => Color::Rgb(154, 88, 237),
            MonsterElements::Poison => Color::Rgb(126, 39, 219),
            MonsterElements::NoElement => Color::Black,
        }
    }

    /// The colour in which this value is drawn.
    pub fn color(&self) -> (color: Color)
        ensures
            color == self.color_of(),
    {
        match self {
            MonsterElements::Fire => Color::Red,
            MonsterElements::Water => Color::Rgb(66, 135, 245),
            MonsterElements::Thunder => Color::Yellow,
            MonsterElements::Ice => Color::Cyan,
            MonsterElements::Dragon => Color::Rgb(154, 88, 237),
            MonsterElements::Poison => Color::Rgb(126, 39, 219),
            MonsterElements::NoElement => Color::Black,
        }
    }
}

impl Default for MonsterElements {
    fn default() -> (value: Self)
        ensures
            value == MonsterElements::NoElement,
    {
        MonsterElements::NoElement
    }
}

/// Reads an element from its dataset name.
pub struct MonsterElementsVisitor;

impl MonsterElementsVisitor {
    /// The value that the dataset name `v` stands for.
    pub fn visit_str(&self, v: &str) -> (value: MonsterElements)
        ensures
            value == MonsterElements::named(v@),
    {
        if same_text(v, "fire") {
            MonsterElements::Fire
        } else if same_text(v, "water") {
            MonsterElements::Water
        } else if same_text(v, "thunder") {
            MonsterElements::Thunder
        } else if same_text(v, "ice") {
            MonsterElements::Ice
        } else if same_text(v, "dragon") {
            MonsterElements::Dragon
        } else if same_text(v, "poison") {
            MonsterElements::Poison
        } else {
            MonsterElements::NoElement
        }
    }
}
} // verus!
