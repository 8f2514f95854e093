//! The record of one monster and the parts it is made of. A record is built
//! once, when the dataset is loaded, and only read afterwards.

use crate::monster::ailment::{ItemWeakness, StatusAilments};
use crate::monster::effect::{MonsterElements, MonsterStatusEffects};
use crate::monster::kinds::{QuestType, Roarskind, TremorKind, WindPressureKind};
use vstd::prelude::*;

verus! {

/// Two paragraphs that describe one ability.
pub type MonsterDescriptionAbility = [String; 2];

/// The flavour text of a monster and the paragraphs on its abilities.
#[derive(Clone)]
pub struct MonsterDescText {
    pub original: String,
    pub desc: Vec<String>,
}

impl MonsterDescText {
    /// Whether this is the default value: every number zero, every text and
    /// list empty, every kind at its default.
    pub open spec fn is_default(&self) -> bool {
        self.original@.len() == 0 && self.desc@.len() == 0
    }
}

impl Default for MonsterDescText {
    fn default() -> (text: Self)
        ensures
            text.is_default(),
    {
        MonsterDescText { original: String::new(), desc: Vec::new() }
    }
}

/// The display name of a monster and its alias.
#[derive(Clone)]
pub struct MonsterName {
    pub name: String,
    pub aka: String,
}

impl MonsterName {
    /// Whether this is the default value: every number zero, every text and
    /// list empty, every kind at its default.
    pub open spec fn is_default(&self) -> bool {
        self.name@.len() == 0 && self.aka@.len() == 0
    }
}

impl Default for MonsterName {
    fn default() -> (name: Self)
        ensures
            name.is_default(),
    {
        MonsterName { name: String::new(), aka: String::new() }
    }
}

/// One quest in which a monster appears.
#[derive(Clone, Debug)]
pub struct MonsterQuestData {
    pub quest_type: QuestType,
    pub level: u8,
    pub name: String,
}

impl MonsterQuestData {
    /// Whether this is the default value: every number zero, every text and
    /// list empty, every kind at its default.
    pub open spec fn is_default(&self) -> bool {
        self.quest_type == QuestType::Assignments && self.level == 0 && self.name@.len() == 0
    }
}

impl Default for MonsterQuestData {
    fn default() -> (quest: Self)
        ensures
            quest.is_default(),
    {
        MonsterQuestData { quest_type: QuestType::Assignments, level: 0, name: String::new() }
    }
}

/// How well one status ailment works on a monster.
#[derive(Clone, Copy, Debug, PartialEq, Eq, Structural)]
pub struct MonsterStatusAilment {
    pub ailment: StatusAilments,
    pub eff: u8,
}

impl MonsterStatusAilment {
    /// The neutral entry that pads a table with fewer than six entries.
    pub open spec fn neutral() -> MonsterStatusAilment {
        MonsterStatusAilment { ailment: StatusAilments::Stun, eff: 0 }
    }
}

impl Default for MonsterStatusAilment {
    fn default() -> (entry: Self)
        ensures
            entry == MonsterStatusAilment::neutral(),
    {
        MonsterStatusAilment { ailment: StatusAilments::Stun, eff: 0 }
    }
}

/// Whether one trap item works on a monster.
#[derive(Clone, Copy, Debug, PartialEq, Eq, Structural)]
pub struct MonsterStatusItem {
    pub item: ItemWeakness,
    pub is_effective: bool,
}

impl MonsterStatusItem {
    /// The neutral entry that pads a table with fewer than six entries.
    pub open spec fn neutral() -> MonsterStatusItem {
        MonsterStatusItem { item: ItemWeakness::Flashpod, is_effective: false }
    }
}

impl Default for MonsterStatusItem {
    fn default() -> (entry: Self)
        ensures
            entry == MonsterStatusItem::neutral(),
    {
        MonsterStatusItem { item: ItemWeakness::Flashpod, is_effective: false }
    }
}

/// The two fixed tables of a weakness profile: six ailments and six items.
#[derive(Clone, Copy, Debug)]
pub struct StatusAilmentItem {
    pub status: [MonsterStatusAilment; 6],
    pub items: [MonsterStatusItem; 6],
}

impl StatusAilmentItem {
    /// Whether this is the default value: every number zero, every text and
    /// list empty, every kind at its default.
    pub open spec fn is_default(&self) -> bool {
        &&& forall|i: int| 0 <= i < 6 ==> self.status[i] == MonsterStatusAilment::neutral()
        &&& forall|i: int| 0 <= i < 6 ==> self.items[i] == MonsterStatusItem::neutral()
    }

    /// Entry `i` of a table padded from `entries`: the entry of the source
    /// where it has one, else `neutral`.
    pub open spec fn padded<T>(entries: Seq<T>, neutral: T, i: int) -> T {
        if i < entries.len() {
            entries[i]
        } else {
            neutral
        }
    }

    /// The tables that hold the first six entries of `status` and of
    /// `items`, with neutral entries where a source has fewer than six.
    pub fn from_entries(status: &Vec<MonsterStatusAilment>, items: &Vec<MonsterStatusItem>) -> (tables:
        Self)
        ensures
            forall|i: int|
                0 <= i < 6 ==> tables.status[i] == Self::padded(
                    status@,
                    MonsterStatusAilment::neutral(),
                    i,
                ),
            forall|i: int|
                0 <= i < 6 ==> tables.items[i] == Self::padded(
                    items@,
                    MonsterStatusItem::neutral(),
                    i,
                ),
            status@.len() == 0 && items@.len() == 0 ==> tables.is_default(),
    {
        let mut tables = StatusAilmentItem::default();
        let mut i: usize = 0;
        while i < 6
            invariant
                i <= 6,
                forall|k: int|
                    0 <= k < 6 ==> tables.status[k] == (if k < i {
                        Self::padded(status@, MonsterStatusAilment::neutral(), k)
                    } else {
                        MonsterStatusAilment::neutral()
                    }),
                forall|k: int|
                    0 <= k < 6 ==> tables.items[k] == (if k < i {
                        Self::padded(items@, MonsterStatusItem::neutral(), k)
                    } else {
                        MonsterStatusItem::neutral()
                    }),
            decreases 6 - i,
        {
            if i < status.len() {
                tables.status[i] = status[i];
            }
            if i < items.len() {
                tables.items[i] = items[i];
            }
            i += 1;
        }
        tables
    }
}

impl Default for StatusAilmentItem {
    fn default() -> (table: Self)
        ensures
            table.is_default(),
    {
        let ailment = MonsterStatusAilment { ailment: StatusAilments::Stun, eff: 0 };
        let item = MonsterStatusItem { item: ItemWeakness::Flashpod, is_effective: false };
        StatusAilmentItem {
            status: [ailment, ailment, ailment, ailment, ailment, ailment],
            items: [item, item, item, item, item, item],
        }
    }
}

/// Damage multipliers of one body part against the three weapon types.
#[derive(Clone, Copy, Debug, PartialEq, Eq, Structural)]
pub struct WeaponDamageData {
    pub cut_damage: u8,
    pub blunt_damage: u8,
    pub ammo_damage: u8,
}

impl Default for WeaponDamageData {
    fn default() -> (data: Self)
        ensures
            data == (WeaponDamageData { cut_damage: 0, blunt_damage: 0, ammo_damage: 0 }),
    {
        WeaponDamageData { cut_damage: 0, blunt_damage: 0, ammo_damage: 0 }
    }
}

/// Damage multipliers of one body part against the five elements.
#[derive(Clone, Copy, Debug, PartialEq, Eq, Structural)]
pub struct ElementDamageData {
    pub fire_damage: u8,
    pub water_damage: u8,
    pub thunder_damage: u8,
    pub ice_damage: u8,
    pub dragon_damage: u8,
}

impl ElementDamageData {
    /// No damage from any element.
    pub open spec fn zero() -> ElementDamageData {
        ElementDamageData {
            fire_damage: 0,
            water_damage: 0,
            thunder_damage: 0,
            ice_damage: 0,
            dragon_damage: 0,
        }
    }
}

impl Default for ElementDamageData {
    fn default() -> (data: Self)
        ensures
            data == ElementDamageData::zero(),
    {
        ElementDamageData {
            fire_damage: 0,
            water_damage: 0,
            thunder_damage: 0,
            ice_damage: 0,
            dragon_damage: 0,
        }
    }
}

/// One row of the weakness table: a body part and its multipliers.
#[derive(Clone)]
pub struct DamageData {
    pub monster_part: String,
    pub weapon: WeaponDamageData,
    pub element: ElementDamageData,
}

impl DamageData {
    /// Whether this is the default value: every number zero, every text and
    /// list empty, every kind at its default.
    pub open spec fn is_default(&self) -> bool {
        &&& self.monster_part@.len() == 0
        &&& self.weapon == (WeaponDamageData { cut_damage: 0, blunt_damage: 0, ammo_damage: 0 })
        &&& self.element == ElementDamageData::zero()
    }
}

impl Default for DamageData {
    fn default() -> (row: Self)
        ensures
            row.is_default(),
    {
        DamageData {
            monster_part: String::new(),
            weapon: WeaponDamageData::default(),
            element: ElementDamageData::default(),
        }
    }
}

/// The weakness profile of a monster.
#[derive(Clone)]
pub struct MonsterWeaknesses {
    pub dmg_data: Vec<DamageData>,
    pub ailment_data: StatusAilmentItem,
}

impl MonsterWeaknesses {
    /// Whether this is the default value: every number zero, every text and
    /// list empty, every kind at its default.
    pub open spec fn is_default(&self) -> bool {
        self.dmg_data@.len() == 0 && self.ailment_data.is_default()
    }
}

impl Default for MonsterWeaknesses {
    fn default() -> (profile: Self)
        ensures
            profile.is_default(),
    {
        MonsterWeaknesses { dmg_data: Vec::new(), ailment_data: StatusAilmentItem::default() }
    }
}

/// A material and the chance, in percent, that it drops.
#[derive(Clone)]
pub struct MaterialDrop {
    pub material: String,
    pub percentage: u8,
}

impl MaterialDrop {
    /// Whether this is the default value: every number zero, every text and
    /// list empty, every kind at its default.
    pub open spec fn is_default(&self) -> bool {
        self.material@.len() == 0 && self.percentage == 0
    }
}

impl Default for MaterialDrop {
    fn default() -> (drop: Self)
        ensures
            drop.is_default(),
    {
        MaterialDrop { material: String::new(), percentage: 0 }
    }
}

/// A body part and the chance, in percent, that a material drops from it.
#[derive(Clone)]
pub struct DropWithPart {
    pub part: String,
    pub percentage: u8,
}

impl DropWithPart {
    /// Whether this is the default value: every number zero, every text and
    /// list empty, every kind at its default.
    pub open spec fn is_default(&self) -> bool {
        self.part@.len() == 0 && self.percentage == 0
    }
}

impl Default for DropWithPart {
    fn default() -> (drop: Self)
        ensures
            drop.is_default(),
    {
        DropWithPart { part: String::new(), percentage: 0 }
    }
}

/// A material and its drop chances by body part.
#[derive(Clone)]
pub struct MaterialDropWithPart {
    pub material: String,
    pub carve: Vec<DropWithPart>,
}

impl MaterialDropWithPart {
    /// Whether this is the default value: every number zero, every text and
    /// list empty, every kind at its default.
    pub open spec fn is_default(&self) -> bool {
        self.material@.len() == 0 && self.carve@.len() == 0
    }
}

impl Default for MaterialDropWithPart {
    fn default() -> (drop: Self)
        ensures
            drop.is_default(),
    {
        MaterialDropWithPart { material: String::new(), carve: Vec::new() }
    }
}

/// The four material lists of one rank.
#[derive(Clone)]
pub struct MonsterMaterialsDrop {
    pub target: Vec<MaterialDrop>,
    pub broken_part: Vec<MaterialDropWithPart>,
    pub wound_destroy: Vec<MaterialDrop>,
    pub carve: Vec<MaterialDropWithPart>,
}

impl MonsterMaterialsDrop {
    /// Whether this is the default value: every number zero, every text and
    /// list empty, every kind at its default.
    pub open spec fn is_default(&self) -> bool {
        &&& self.target@.len() == 0
        &&& self.broken_part@.len() == 0
        &&& self.wound_destroy@.len() == 0
        &&& self.carve@.len() == 0
    }
}

impl MonsterMaterialsDrop {
    /// Each of the four lists holds at most `u16::MAX` materials.
    pub open spec fn countable(&self) -> bool {
        &&& self.target@.len() <= u16::MAX
        &&& self.broken_part@.len() <= u16::MAX
        &&& self.wound_destroy@.len() <= u16::MAX
        &&& self.carve@.len() <= u16::MAX
    }
}

impl Default for MonsterMaterialsDrop {
    fn default() -> (drops: Self)
        ensures
            drops.is_default(),
    {
        MonsterMaterialsDrop {
            target: Vec::new(),
            broken_part: Vec::new(),
            wound_destroy: Vec::new(),
            carve: Vec::new(),
        }
    }
}

/// The drop profile of a monster: one set of lists per rank.
#[derive(Clone)]
pub struct MonsterDrops {
    pub low_rank: MonsterMaterialsDrop,
    pub high_rank: MonsterMaterialsDrop,
}

impl MonsterDrops {
    /// Whether this is the default value: every number zero, every text and
    /// list empty, every kind at its default.
    pub open spec fn is_default(&self) -> bool {
        self.low_rank.is_default() && self.high_rank.is_default()
    }
}

impl Default for MonsterDrops {
    fn default() -> (drops: Self)
        ensures
            drops.is_default(),
    {
        MonsterDrops {
            low_rank: MonsterMaterialsDrop::default(),
            high_rank: MonsterMaterialsDrop::default(),
        }
    }
}

/// One region in which a monster lives, with its areas by number.
#[derive(Clone)]
pub struct MonsterHabitatData {
    pub region: String,
    pub starting_area: Vec<u8>,
    pub visited_area: Vec<u8>,
    pub resting_area: u8,
}

impl MonsterHabitatData {
    /// Whether this is the default value: every number zero, every text and
    /// list empty, every kind at its default.
    pub open spec fn is_default(&self) -> bool {
        &&& self.region@.len() == 0
        &&& self.starting_area@.len() == 0
        &&& self.visited_area@.len() == 0
        &&& self.resting_area == 0
    }
}

impl Default for MonsterHabitatData {
    fn default() -> (habitat: Self)
        ensures
            habitat.is_default(),
    {
        MonsterHabitatData {
            region: String::new(),
            starting_area: Vec::new(),
            visited_area: Vec::new(),
            resting_area: 0,
        }
    }
}

/// The type of a monster, its three hazard grades and the status effects
/// it inflicts.
#[derive(Clone)]
pub struct MonsterBasicInfo {
    pub m_type: String,
    pub roar: Roarskind,
    pub wind_pressure: WindPressureKind,
    pub tremor: TremorKind,
    pub status_effect: Vec<MonsterStatusEffects>,
}

impl MonsterBasicInfo {
    /// Whether this is the default value: every number zero, every text and
    /// list empty, every kind at its default.
    pub open spec fn is_default(&self) -> bool {
        &&& self.m_type@.len() == 0
        &&& self.roar == Roarskind::Unspecified
        &&& self.wind_pressure == WindPressureKind::Unspecified
        &&& self.tremor == TremorKind::Unspecified
        &&& self.status_effect@.len() == 0
    }
}

impl Default for MonsterBasicInfo {
    fn default() -> (info: Self)
        ensures
            info.is_default(),
    {
        MonsterBasicInfo {
            m_type: String::new(),
            roar: Roarskind::Unspecified,
            wind_pressure: WindPressureKind::Unspecified,
            tremor: TremorKind::Unspecified,
            status_effect: Vec::new(),
        }
    }
}

/// The record of one monster.
#[derive(Clone)]
pub struct MonsterEntity {
    pub id: u16,
    pub name: MonsterName,
    pub icon_code: String,
    pub elements: Vec<MonsterElements>,
    pub desc: MonsterDescText,
    pub basic_info: MonsterBasicInfo,
    pub quest_list: Vec<MonsterQuestData>,
    pub habitats: Vec<MonsterHabitatData>,
    pub weaknesses: MonsterWeaknesses,
    pub drops: MonsterDrops,
}

impl MonsterEntity {
    /// The record that stands in when no monster is selected: every number
    /// zero, every text and list empty, every table neutral.
    pub open spec fn is_default(&self) -> bool {
        &&& self.id == 0
        &&& self.name.is_default()
        &&& self.icon_code@.len() == 0
        &&& self.elements@.len() == 0
        &&& self.desc.is_default()
        &&& self.basic_info.is_default()
        &&& self.quest_list@.len() == 0
        &&& self.habitats@.len() == 0
        &&& self.weaknesses.is_default()
        &&& self.drops.is_default()
    }
}

impl MonsterEntity {
    /// Every list of the record that a panel steps through is short enough
    /// for the panel to count its rows: at most `u8::MAX` habitats, and at
    /// most `u16::MAX` quests, damage rows, and materials in each of the
    /// eight drop lists.
    pub open spec fn countable(&self) -> bool {
        &&& self.habitats@.len() <= u8::MAX
        &&& self.quest_list@.len() <= u16::MAX
        &&& self.weaknesses.dmg_data@.len() <= u16::MAX
        &&& self.drops.low_rank.countable()
        &&& self.drops.high_rank.countable()
    }
}

impl Default for MonsterEntity {
    fn default() -> (record: Self)
        ensures
            record.is_default(),
    {
        MonsterEntity {
            id: 0,
            name: MonsterName::default(),
            icon_code: String::new(),
            elements: Vec::new(),
            desc: MonsterDescText::default(),
            basic_info: MonsterBasicInfo::default(),
            quest_list: Vec::new(),
            habitats: Vec::new(),
            weaknesses: MonsterWeaknesses::default(),
            drops: MonsterDrops::default(),
        }
    }
}

/// What a monster can say of itself.
pub trait Monster {
    fn name(&self) -> String;

    fn elements(&self) -> MonsterElements;

    fn desc_ability(&self) -> MonsterDescriptionAbility;
}

} // verus!
