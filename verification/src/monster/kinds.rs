//! Hazard grades and quest categories, with their names in the dataset and
//! their labels on screen.

use crate::text::same_text;
use vstd::prelude::*;

verus! {

/// How strong a monster's roar is.
#[derive(Clone, Copy, Debug, PartialEq, Eq, Structural)]
pub enum Roarskind {
    Weak,
    Strong,
    Unspecified,
}

impl Roarskind {
    /// The grade that the dataset name `name` stands for; `Unspecified` for
    /// any name that is not a grade.
    pub open spec fn named(name: Seq<char>) -> Roarskind {
        if name == "weak"@ {
            Roarskind::Weak
        } else if name == "strong"@ {
            Roarskind::Strong
        } else {
            Roarskind::Unspecified
        }
    }

    /// The label shown for this grade.
    pub open spec fn label_text(self) -> Seq<char> {
        match self {
            Roarskind::Strong => "Strong"@,
            Roarskind::Weak => "Weak"@,
            Roarskind::Unspecified => "None"@,
        }
    }

    /// The label shown for this value.
    pub fn label(&self) -> (text: String)
        ensures
            text@ == self.label_text(),
    {
        match self {
            Roarskind::Strong => "Strong".to_string(),
            Roarskind::Weak => "Weak".to_string(),
            Roarskind::Unspecified => "None".to_string(),
        }
    }
}

impl Default for Roarskind {
    fn default() -> (kind: Self)
        ensures
            kind == Roarskind::Unspecified,
    {
        Roarskind::Unspecified
    }
}

/// Reads a roar grade from its dataset name.
pub struct RoarskindVisitor;

impl RoarskindVisitor {
    /// The value that the dataset name `v` stands for.
    pub fn visit_str(&self, v: &str) -> (kind: Roarskind)
        ensures
            kind == Roarskind::named(v@),
    {
        if same_text(v, "weak") {
            Roarskind::Weak
        } else if same_text(v, "strong") {
            Roarskind::Strong
        } else {
            Roarskind::Unspecified
        }
    }
}

/// How strong the wind pressure of a monster's attacks is.
#[derive(Clone, Copy, Debug, PartialEq, Eq, Structural)]
pub enum WindPressureKind {
    Strong,
    Weak,
    Minor,
    Unspecified,
}

impl WindPressureKind {
    /// The grade that the dataset name `name` stands for; `Unspecified` for
    /// any name that is not a grade.
    pub open spec fn named(name: Seq<char>) -> WindPressureKind {
        if name == "strong"@ {
            WindPressureKind::Strong
        } else if name == "weak"@ {
            WindPressureKind::Weak
        } else if name == "minor"@ {
            WindPressureKind::Minor
        } else {
            WindPressureKind::Unspecified
        }
    }

    /// The label shown for this grade.
    pub open spec fn label_text(self) -> Seq<char> {
        match self {
            WindPressureKind::Strong => "Strong"@,
            WindPressureKind::Weak => "Weak"@,
            WindPressureKind::Minor => "Minor"@,
            WindPressureKind::Unspecified => "None"@,
        }
    }

    /// The label shown for this value.
    pub fn label(&self) -> (text: String)
        ensures
            text@ == self.label_text(),
    {
        match self {
            WindPressureKind::Strong => "Strong".to_string(),
            WindPressureKind::Weak => "Weak".to_string(),
            WindPressureKind::Minor => "Minor".to_string(),
            WindPressureKind::Unspecified => "None".to_string(),
        }
    }
}

impl Default for WindPressureKind {
    fn default() -> (kind: Self)
        ensures
            kind == WindPressureKind::Unspecified,
    {
        WindPressureKind::Unspecified
    }
}

/// Reads a wind pressure grade from its dataset name.
pub struct WindPressureKindVisitor;

impl WindPressureKindVisitor {
    /// The value that the dataset name `v` stands for.
    pub fn visit_str(&self, v: &str) -> (kind: WindPressureKind)
        ensures
            kind == WindPressureKind::named(v@),
    {
        if same_text(v, "strong") {
            WindPressureKind::Strong
        } else if same_text(v, "weak") {
            WindPressureKind::Weak
        } else if same_text(v, "minor") {
            WindPressureKind::Minor
        } else {
            WindPressureKind::Unspecified
        }
    }
}

/// How strong the tremors that a monster causes are.
#[derive(Clone, Copy, Debug, PartialEq, Eq, Structural)]
pub enum TremorKind {
    Strong,
    Weak,
    Minor,
    Unspecified,
}

impl TremorKind {
    /// The grade that the dataset name `name` stands for; `Unspecified` for
    /// any name that is not a grade.
    pub open spec fn named(name: Seq<char>) -> TremorKind {
        if name == "strong"@ {
            TremorKind::Strong
        } else if name == "weak"@ {
            TremorKind::Weak
        } else if name == "minor"@ {
            TremorKind::Minor
        } else {
            TremorKind::Unspecified
        }
    }

    /// The label shown for this grade.
    pub open spec fn label_text(self) -> Seq<char> {
        match self {
            TremorKind::Strong => "Strong"@,
            TremorKind::Weak => "Weak"@,
            TremorKind::Minor => "Minor"@,
            TremorKind::Unspecified => "None"@,
        }
    }

    /// The label shown for this value.
    pub fn label(&self) -> (text: String)
        ensures
            text@ == self.label_text(),
    {
        match self {
            TremorKind::Strong => "Strong".to_string(),
            TremorKind::Weak => "Weak".to_string(),
            TremorKind::Minor => "Minor".to_string(),
            TremorKind::Unspecified => "None".to_string(),
        }
    }
}

impl Default for TremorKind {
    fn default() -> (kind: Self)
        ensures
            kind == TremorKind::Unspecified,
    {
        TremorKind::Unspecified
    }
}

/// Reads a tremor grade from its dataset name.
pub struct TremorKindVisitor;

impl TremorKindVisitor {
    /// The value that the dataset name `v` stands for.
    pub fn visit_str(&self, v: &str) -> (kind: TremorKind)
        ensures
            kind == TremorKind::named(v@),
    {
        if same_text(v, "strong") {
            TremorKind::Strong
        } else if same_text(v, "weak") {
            TremorKind::Weak
        } else if same_text(v, "minor") {
            TremorKind::Minor
        } else {
            TremorKind::Unspecified
        }
    }
}

/// The category of a quest.
#[derive(Clone, Copy, Debug, PartialEq, Eq, Structural)]
pub enum QuestType {
    Assignments,
    Optional,
    Event,
    Arena,
}

impl QuestType {
    /// The category that the dataset name `name` stands for; `Optional` for
    /// any name that is not a category.
    pub open spec fn named(name: Seq<char>) -> QuestType {
        if name == "assignments"@ {
            QuestType::Assignments
        } else if name == "event"@ {
            QuestType::Event
        } else if name == "arena"@ {
            QuestType::Arena
        } else {
            QuestType::Optional
        }
    }

    /// The label shown for this category.
    pub open spec fn label_text(self) -> Seq<char> {
        match self {
            QuestType::Assignments => "Assignments"@,
            QuestType::Optional => "Optional"@,
            QuestType::Event => "Event"@,
            QuestType::Arena => "Arena"@,
        }
    }

    /// The label shown for this value.
    pub fn label(&self) -> (text: String)
        ensures
            text@ == self.label_text(),
    {
        match self {
            QuestType::Assignments => "Assignments".to_string(),
            QuestType::Optional => "Optional".to_string(),
            QuestType::Event => "Event".to_string(),
            QuestType::Arena => "Arena".to_string(),
        }
    }
}

impl Default for QuestType {
    fn default() -> (kind: Self)
        ensures
            kind == QuestType::Assignments,
    {
        QuestType::Assignments
    }
}

/// Reads a quest category from its dataset name.
pub struct QuestTypeVisitor;

impl QuestTypeVisitor {
    /// The value that the dataset name `v` stands for.
    pub fn visit_str(&self, v: &str) -> (kind: QuestType)
        ensures
            kind == QuestType::named(v@),
    {
        if same_text(v, "assignments") {
            QuestType::Assignments
        } else if same_text(v, "event") {
            QuestType::Event
        } else if same_text(v, "arena") {
            QuestType::Arena
        } else {
            QuestType::Optional
        }
    }
}

} // verus!
