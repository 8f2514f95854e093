//! The weakness panel: the damage table of a monster under the weapon or
//! the element tab, and its ailment and item tables.

use crate::monster::color::Color;
use crate::monster::effect::MonsterElements;
use crate::monster::record::{DamageData, MonsterStatusAilment, MonsterStatusItem, StatusAilmentItem};
use crate::state::weakness::{MonsterStatusAndItemWeaknessTab, MonsterWeaknessTab};
use crate::widget::span::{
    glue, decimal, empty_line, join, joined, number_text, push_raw, push_span, push_tab_label,
    tab_label, Span, SpanView,
};
use crate::widget::{get_lines, wrapped};
use vstd::prelude::*;

verus! {

/// The mark of a value that counts: a star.
pub open spec fn star() -> Seq<char> {
    "\u{f005}"@
}

/// The mark of a value that does not count: a cross.
pub open spec fn cross() -> Seq<char> {
    "\u{f00d}"@
}

/// The mark of an item that works: a tick.
pub open spec fn tick() -> Seq<char> {
    "\u{f00c}"@
}

/// The spans of a damage multiplier: a bold red cross for zero, else a
/// yellow star, a space and the number.
pub open spec fn damage_spans(number: u8) -> Seq<SpanView> {
    if number == 0 {
        seq![SpanView { text: cross(), fg: Some(Color::Red), bg: None, bold: true, italic: false }]
    } else {
        seq![
            SpanView::colored(star(), Color::Yellow),
            SpanView::raw(" "@ + decimal(number as nat)),
        ]
    }
}

/// The multipliers that the table shows of `row` under `tab`, in column
/// order.
pub open spec fn damage_numbers(row: DamageData, tab: MonsterWeaknessTab) -> Seq<u8> {
    match tab {
        MonsterWeaknessTab::WeaponDamage => seq![
            row.weapon.cut_damage,
            row.weapon.blunt_damage,
            row.weapon.ammo_damage,
        ],
        MonsterWeaknessTab::ElementDamage => seq![
            row.element.fire_damage,
            row.element.water_damage,
            row.element.thunder_damage,
            row.element.ice_damage,
            row.element.dragon_damage,
        ],
    }
}

/// The width of the column of body parts. The name of a body part is
/// wrapped four columns short of it.
pub const PART_COLUMN: usize = 20;

/// The text of the body part of `row`: its name wrapped to the width of
/// its column, one line under the other.
pub open spec fn part_text(row: DamageData) -> Seq<char> {
    joined(wrapped(row.monster_part@, (PART_COLUMN - 4) as nat), "\n"@)
}

/// The head of the damage table under `tab`: the body part and the three
/// weapon types in white, or the body part in white and the glyphs of the
/// five elements, each in the colour of its element.
pub open spec fn header_spans(tab: MonsterWeaknessTab) -> Seq<SpanView> {
    match tab {
        MonsterWeaknessTab::WeaponDamage => seq![
            SpanView::colored("Part"@, Color::White),
            SpanView::colored("Cut(\u{f04e5})"@, Color::White),
            SpanView::colored("Blunt(\u{f08ea})"@, Color::White),
            SpanView::colored("Ammo(\u{f0cf3})"@, Color::White),
        ],
        MonsterWeaknessTab::ElementDamage => seq![
            SpanView::colored("Part"@, Color::White),
            element_head(MonsterElements::Fire),
            element_head(MonsterElements::Water),
            element_head(MonsterElements::Thunder),
            element_head(MonsterElements::Ice),
            element_head(MonsterElements::Dragon),
        ],
    }
}

/// The head of the column of `element`: its glyph in its colour.
pub open spec fn element_head(element: MonsterElements) -> SpanView {
    SpanView::colored(element.icon_text(), element.color_of())
}

/// The title above the damage table: the names of the two tabs, the shown
/// one in blue.
pub open spec fn weapon_element_title(tab: MonsterWeaknessTab) -> Seq<SpanView> {
    seq![
        SpanView::raw(" [ "@),
        tab_label("Weapon"@, tab == MonsterWeaknessTab::WeaponDamage),
        SpanView::raw(" | "@),
        tab_label("Element"@, tab == MonsterWeaknessTab::ElementDamage),
        SpanView::raw(" ] "@),
    ]
}

/// The title above the ailment and item tables: the names of the two tabs,
/// the shown one in blue.
pub open spec fn ailment_item_title(tab: MonsterStatusAndItemWeaknessTab) -> Seq<SpanView> {
    seq![
        SpanView::raw(" [ "@),
        tab_label("Ailment"@, tab == MonsterStatusAndItemWeaknessTab::Status),
        SpanView::raw(" | "@),
        tab_label("Item"@, tab == MonsterStatusAndItemWeaknessTab::Item),
        SpanView::raw(" ] "@),
    ]
}

/// The first line of the cell of an ailment: its glyph in its colour and
/// its label in bold after a space.
pub open spec fn ailment_head(entry: MonsterStatusAilment) -> Seq<SpanView> {
    seq![
        SpanView::colored(entry.ailment.icon_text(), entry.ailment.color_of()),
        SpanView::bold(" "@ + entry.ailment.label_text()),
    ]
}

/// The second line of the cell of an ailment: a yellow star, a space and
/// how well the ailment works.
pub open spec fn ailment_value(entry: MonsterStatusAilment) -> Seq<SpanView> {
    seq![SpanView::colored(star(), Color::Yellow), SpanView::raw(" "@ + decimal(entry.eff as nat))]
}

/// The first line of the cell of an item: its label in bold after a space.
pub open spec fn item_head(entry: MonsterStatusItem) -> Seq<SpanView> {
    seq![SpanView::bold(" "@ + entry.item.label_text())]
}

/// The second line of the cell of an item: a bold green tick where the
/// item works, a bold red cross where it does not.
pub open spec fn item_value(entry: MonsterStatusItem) -> Seq<SpanView> {
    if entry.is_effective {
        seq![SpanView { text: tick(), fg: Some(Color::Green), bg: None, bold: true, italic: false }]
    } else {
        seq![SpanView { text: cross(), fg: Some(Color::Red), bg: None, bold: true, italic: false }]
    }
}

/// The spans of a damage multiplier.
pub fn text_rows_generator(number: u8) -> (line: Vec<Span>)
    ensures
        line.deep_view() == damage_spans(number),
{
    let mut line = empty_line();
    if number == 0 {
        push_span(
            &mut line,
            Span {
                text: "\u{f00d}".to_string(),
                fg: Some(Color::Red),
                bg: None,
                bold: true,
                italic: false,
            },
        );
    } else {
        let numeral = number_text(number);
        push_span(&mut line, Span::colored("\u{f005}".to_string(), Color::Yellow));
        push_span(&mut line, Span::raw(glue(" ", numeral.as_str())));
    }
    assert(line.deep_view() =~= damage_spans(number));
    line
}

/// One row of the damage table: the body part and, for each column under
/// the shown tab, the spans of its multiplier.
pub struct WeaknessRow {
    pub part: String,
    pub cells: Vec<Vec<Span>>,
}

/// The ailment and item tables of one record.
pub struct WeaknessAilmentItems<'a> {
    pub weakness: &'a StatusAilmentItem,
}

impl<'a> WeaknessAilmentItems<'a> {
    /// The cells of the tables `weakness`.
    pub fn new(weakness: &'a StatusAilmentItem) -> (tables: Self)
        ensures
            *tables.weakness == *weakness,
    {
        WeaknessAilmentItems { weakness }
    }

    /// The title above the tables.
    pub fn title(&self, tab: MonsterStatusAndItemWeaknessTab) -> (line: Vec<Span>)
        ensures
            line.deep_view() == ailment_item_title(tab),
    {
        let mut line = empty_line();
        push_raw(&mut line, " [ ");
        push_tab_label(&mut line, "Ailment", tab == MonsterStatusAndItemWeaknessTab::Status);
        push_raw(&mut line, " | ");
        push_tab_label(&mut line, "Item", tab == MonsterStatusAndItemWeaknessTab::Item);
        push_raw(&mut line, " ] ");
        assert(line.deep_view() =~= ailment_item_title(tab));
        line
    }

    /// The two lines of cell `column` of the table that `tab` shows.
    pub fn cell(&self, column: usize, tab: MonsterStatusAndItemWeaknessTab) -> (lines: (
        Vec<Span>,
        Vec<Span>,
    ))
        requires
            column < 6,
        ensures
            tab == MonsterStatusAndItemWeaknessTab::Status ==> lines.0.deep_view() == ailment_head(
                self.weakness.status[column as int],
            ) && lines.1.deep_view() == ailment_value(self.weakness.status[column as int]),
            tab == MonsterStatusAndItemWeaknessTab::Item ==> lines.0.deep_view() == item_head(
                self.weakness.items[column as int],
            ) && lines.1.deep_view() == item_value(self.weakness.items[column as int]),
    {
        let mut head = empty_line();
        let mut value = empty_line();
        match tab {
            MonsterStatusAndItemWeaknessTab::Status => {
                let entry = self.weakness.status[column];
                let label = entry.ailment.label();
                let numeral = number_text(entry.eff);
                push_span(&mut head, Span::colored(entry.ailment.icon(), entry.ailment.color()));
                push_span(&mut head, Span::bold(glue(" ", label.as_str())));
                push_span(&mut value, Span::colored("\u{f005}".to_string(), Color::Yellow));
                push_span(&mut value, Span::raw(glue(" ", numeral.as_str())));
                assert(head.deep_view() =~= ailment_head(entry));
                assert(value.deep_view() =~= ailment_value(entry));
            },
            MonsterStatusAndItemWeaknessTab::Item => {
                let entry = self.weakness.items[column];
                let label = entry.item.label();
                push_span(&mut head, Span::bold(glue(" ", label.as_str())));
                let (mark, color) = if entry.is_effective {
                    ("\u{f00c}", Color::Green)
                } else {
                    ("\u{f00d}", Color::Red)
                };
                push_span(
                    &mut value,
                    Span { text: mark.to_string(), fg: Some(color), bg: None, bold: true, italic: false },
                );
                assert(head.deep_view() =~= item_head(entry));
                assert(value.deep_view() =~= item_value(entry));
            },
        }
        (head, value)
    }
}

/// The weakness panel of one record.
pub struct WeaknessMonsterTable(pub Vec<DamageData>, pub StatusAilmentItem);

impl WeaknessMonsterTable {
    /// The title above the damage table.
    pub fn title(&self, tab: MonsterWeaknessTab) -> (line: Vec<Span>)
        ensures
            line.deep_view() == weapon_element_title(tab),
    {
        let mut line = empty_line();
        push_raw(&mut line, " [ ");
        push_tab_label(&mut line, "Weapon", tab == MonsterWeaknessTab::WeaponDamage);
        push_raw(&mut line, " | ");
        push_tab_label(&mut line, "Element", tab == MonsterWeaknessTab::ElementDamage);
        push_raw(&mut line, " ] ");
        assert(line.deep_view() =~= weapon_element_title(tab));
        line
    }

    /// The head of the damage table under `tab`, one span for each column.
    pub fn header(&self, tab: MonsterWeaknessTab) -> (line: Vec<Span>)
        ensures
            line.deep_view() == header_spans(tab),
    {
        let mut line = empty_line();
        push_span(&mut line, Span::colored("Part".to_string(), Color::White));
        match tab {
            MonsterWeaknessTab::WeaponDamage => {
                push_span(&mut line, Span::colored("Cut(\u{f04e5})".to_string(), Color::White));
                push_span(&mut line, Span::colored("Blunt(\u{f08ea})".to_string(), Color::White));
                push_span(&mut line, Span::colored("Ammo(\u{f0cf3})".to_string(), Color::White));
            },
            MonsterWeaknessTab::ElementDamage => {
                let fire = MonsterElements::Fire;
                let water = MonsterElements::Water;
                let thunder = MonsterElements::Thunder;
                let ice = MonsterElements::Ice;
                let dragon = MonsterElements::Dragon;
                push_span(&mut line, Span::colored(fire.icon(), fire.color()));
                push_span(&mut line, Span::colored(water.icon(), water.color()));
                push_span(&mut line, Span::colored(thunder.icon(), thunder.color()));
                push_span(&mut line, Span::colored(ice.icon(), ice.color()));
                push_span(&mut line, Span::colored(dragon.icon(), dragon.color()));
            },
        }
        assert(line.deep_view() =~= header_spans(tab));
        line
    }

    /// The number of columns of the damage table under `tab`, the column
    /// of body parts included.
    pub fn column_count(&self, tab: MonsterWeaknessTab) -> (columns: usize)
        ensures
            columns == header_spans(tab).len(),
    {
        match tab {
            MonsterWeaknessTab::WeaponDamage => 4,
            MonsterWeaknessTab::ElementDamage => 6,
        }
    }

    /// Row `index` of the damage table under `tab`.
    pub fn row(&self, index: usize, tab: MonsterWeaknessTab) -> (row: WeaknessRow)
        requires
            index < self.0@.len(),
        ensures
            row.part@ == part_text(self.0@[index as int]),
            row.cells@.len() == damage_numbers(self.0@[index as int], tab).len(),
            forall|column: int|
                0 <= column < row.cells@.len() ==> (#[trigger] row.cells@[column]).deep_view()
                    == damage_spans(damage_numbers(self.0@[index as int], tab)[column]),
    {
        let data = &self.0[index];
        let lines = get_lines(data.monster_part.as_str(), PART_COLUMN - 4);
        let part = join(&lines, "\n");
        let mut cells: Vec<Vec<Span>> = Vec::new();
        match tab {
            MonsterWeaknessTab::WeaponDamage => {
                cells.push(text_rows_generator(data.weapon.cut_damage));
                cells.push(text_rows_generator(data.weapon.blunt_damage));
                cells.push(text_rows_generator(data.weapon.ammo_damage));
            },
            MonsterWeaknessTab::ElementDamage => {
                cells.push(text_rows_generator(data.element.fire_damage));
                cells.push(text_rows_generator(data.element.water_damage));
                cells.push(text_rows_generator(data.element.thunder_damage));
                cells.push(text_rows_generator(data.element.ice_damage));
                cells.push(text_rows_generator(data.element.dragon_damage));
            },
        }
        WeaknessRow { part, cells }
    }
}

} // verus!
