//! The habitat panel: one page for each region in which the monster lives.

use crate::monster::color::Color;
use crate::monster::record::MonsterHabitatData;
use crate::state::habitat::ChangeableHabitatPageState;
use crate::text::{contains, occurs_in};
use crate::widget::span::{glue, decimal, join, joined, number_text};
use vstd::prelude::*;

verus! {

/// One titled value of the habitat panel.
pub struct HabitatsDetailInfo<'a> {
    pub title: &'a str,
    pub value: &'a str,
}

impl<'a> HabitatsDetailInfo<'a> {
    /// The value `value` under the title `title`.
    pub fn new(title: &'a str, value: &'a str) -> (info: Self)
        ensures
            info.title@ == title@,
            info.value@ == value@,
    {
        HabitatsDetailInfo { title, value }
    }

    /// The colour of the value: blue under a title that holds `Region`,
    /// ochre under any other.
    pub open spec fn value_color_of(title: Seq<char>) -> Color {
        if occurs_in("Region"@, title) {
            Color::Rgb(54, 127, 222)
        } else {
            Color::Rgb(199, 159, 0)
        }
    }

    /// The colour of the value.
    pub fn value_color(&self) -> (color: Color)
        ensures
            color == Self::value_color_of(self.title@),
    {
        if contains(self.title, "Region") {
            Color::Rgb(54, 127, 222)
        } else {
            Color::Rgb(199, 159, 0)
        }
    }

    /// The number of columns reserved for the value: the length of its
    /// text in bytes, cut to sixteen bits.
    pub fn value_width(&self) -> (width: u16)
        ensures
            width == self.value.len() as u16,
    {
        self.value.len() as u16
    }
}

/// The decimal numerals of the first `upto` of `areas`.
pub open spec fn area_numerals(areas: Seq<u8>, upto: int) -> Seq<Seq<char>> {
    Seq::new(upto as nat, |i: int| decimal(areas[i] as nat))
}

/// The numbers of `areas` in one text, with a space between each two.
pub open spec fn areas_text(areas: Seq<u8>) -> Seq<char> {
    joined(area_numerals(areas, areas.len() as int), " "@)
}

/// The title of page `current` of `total`, counted from one.
pub open spec fn page_title(current: u8, total: u8) -> Seq<char> {
    "Region ("@ + decimal((current + 1) as nat) + "/"@ + decimal(total as nat) + ")"@
}

/// The texts of one page of the habitat panel.
pub struct HabitatPage {
    pub title: String,
    pub region: String,
    pub starting_area: String,
    pub visited_areas: String,
    pub resting_area: String,
}

fn areas_to_text(areas: &Vec<u8>) -> (text: String)
    ensures
        text@ == areas_text(areas@),
{
    let mut numerals: Vec<String> = Vec::new();
    let mut i: usize = 0;
    proof {
        assert(numerals.deep_view() =~= area_numerals(areas@, 0));
    }
    while i < areas.len()
        invariant
            i <= areas.len(),
            numerals.deep_view() == area_numerals(areas@, i as int),
        decreases areas.len() - i,
    {
        let ghost before = numerals.deep_view();
        let numeral = number_text(areas[i]);
        numerals.push(numeral);
        proof {
            assert(numerals.deep_view() =~= before.push(decimal(areas@[i as int] as nat)));
            assert(numerals.deep_view() =~= area_numerals(areas@, i + 1));
        }
        i += 1;
    }
    join(&numerals, " ")
}

/// The habitat panel of one record.
pub struct HabitatsMonster(pub Vec<MonsterHabitatData>);

impl HabitatsMonster {
    /// The texts of the page that `state` shows; none for a monster
    /// without habitats.
    pub fn page(&self, state: &ChangeableHabitatPageState) -> (page: Option<HabitatPage>)
        requires
            self.0@.len() > 0 ==> state.habitat_current_page < self.0@.len()
                && state.habitat_current_page < u8::MAX,
        ensures
            self.0@.len() == 0 <==> page is None,
            page matches Some(p) ==> {
                let habitat = self.0@[state.habitat_current_page as int];
                &&& p.title@ == page_title(state.habitat_current_page, state.habitat_total_page)
                &&& p.region@ == habitat.region@
                &&& p.starting_area@ == areas_text(habitat.starting_area@)
                &&& p.visited_areas@ == areas_text(habitat.visited_area@)
                &&& p.resting_area@ == decimal(habitat.resting_area as nat)
            },
    {
        if self.0.len() == 0 {
            return None;
        }
        let habitat = &self.0[state.habitat_current_page as usize];
        let current = number_text(state.habitat_current_page + 1);
        let total = number_text(state.habitat_total_page);
        let head = glue("Region (", current.as_str());
        let slashed = glue(head.as_str(), "/");
        let counted = glue(slashed.as_str(), total.as_str());
        let title = glue(counted.as_str(), ")");
        Some(
            HabitatPage {
                title,
                region: habitat.region.clone(),
                starting_area: areas_to_text(&habitat.starting_area),
                visited_areas: areas_to_text(&habitat.visited_area),
                resting_area: number_text(habitat.resting_area),
            },
        )
    }
}

} // verus!
